//! Decisions of the model-hub client: the query and download URLs it
//! requests, which repositories count as supported, and how quantization
//! variants are read off model and file names. Network transfer and JSON
//! decoding happen outside the crate and hand plain values in.

use vstd::prelude::*;
use vstd::string::StringExecFns;
use vstd::string::StringSliceAdditionalSpecFns;
use vstd::utf8::encode_utf8;

use crate::textutil::after_last_slash;
use crate::textutil::contains_chars;
use crate::textutil::contains_chars_ci;
use crate::textutil::contains_ci;
use crate::textutil::digit_char;
use crate::textutil::lemma_first_slash_unique;
use crate::textutil::spec_after_last_slash;
use crate::textutil::spec_first_slash;
use crate::textutil::str_contains;
use crate::textutil::str_eq;
use crate::textutil::str_to_chars;
use vstd::string::StrSliceExecFns;

verus! {

/// Bytes the percent encoding leaves as they are: ASCII alphanumerics and
/// `-`, `.`, `_`, `~`.
pub open spec fn is_url_unreserved(b: u8) -> bool {
    (48 <= b <= 57) || (65 <= b <= 90) || (97 <= b <= 122) || b == 45 || b == 46 || b == 95 || b
        == 126
}

/// Upper-case hexadecimal digit character for a value below sixteen.
pub open spec fn upper_hex_char(d: nat) -> char
    recommends
        d < 16,
{
    if d < 10 {
        digit_char(d)
    } else {
        (55 + d) as char
    }
}

/// Percent encoding of one byte.
pub open spec fn percent_encoded_byte(b: u8) -> Seq<char> {
    if is_url_unreserved(b) {
        seq![b as char]
    } else {
        seq!['%', upper_hex_char((b / 16) as nat), upper_hex_char((b % 16) as nat)]
    }
}

/// Percent encoding of a byte sequence.
pub open spec fn percent_encoded(bytes: Seq<u8>) -> Seq<char>
    decreases bytes.len(),
{
    if bytes.len() == 0 {
        Seq::empty()
    } else {
        percent_encoded(bytes.drop_last()) + percent_encoded_byte(bytes.last())
    }
}

/// Relies on `urlencoding::encode`: percent-encodes every byte except
/// ASCII alphanumerics and `-`, `_`, `.`, `~`, with upper-case hex digits.
#[verifier::external_body]
fn percent_encode(s: &str) -> (r: String)
    ensures
        r@ == percent_encoded(s.spec_bytes()),
{
    urlencoding::encode(s).into_owned()
}

/// The hub search URL for a free-text query.
pub open spec fn spec_search_url(query: Seq<char>) -> Seq<char> {
    "https://huggingface.co/api/models?search="@ + percent_encoded(encode_utf8(query))
        + "&filter=text-generation&sort=downloads&limit=20"@
}

/// Builds the hub search URL for a free-text query.
pub fn search_url(query: &str) -> (r: String)
    ensures
        r@ == spec_search_url(query@),
{
    let mut r = "https://huggingface.co/api/models?search=".to_owned();
    r.append(percent_encode(query).as_str());
    r.append("&filter=text-generation&sort=downloads&limit=20");
    r
}

/// The search URL that looks for packaged quantizations of a base model:
/// the repository name (after any namespace) with the package suffix.
pub open spec fn spec_quantized_search_url(base_model_id: Seq<char>) -> Seq<char> {
    "https://huggingface.co/api/models?search="@ + percent_encoded(
        encode_utf8(spec_after_last_slash(base_model_id)),
    ) + "-gguf&filter=text-generation&sort=downloads&limit=100"@
}

/// Builds the search URL for packaged quantizations of a base model.
pub fn quantized_search_url(base_model_id: &str) -> (r: String)
    ensures
        r@ == spec_quantized_search_url(base_model_id@),
{
    let search_name = after_last_slash(base_model_id);
    let mut r = "https://huggingface.co/api/models?search=".to_owned();
    r.append(percent_encode(search_name.as_str()).as_str());
    r.append("-gguf&filter=text-generation&sort=downloads&limit=100");
    r
}

/// The hub's metadata URL of one model.
pub fn model_info_url(model_id: &str) -> (r: String)
    ensures
        r@ == "https://huggingface.co/api/models/"@ + model_id@,
{
    let mut r = "https://huggingface.co/api/models/".to_owned();
    r.append(model_id);
    r
}

/// The hub's file-tree URL of one model.
pub fn model_tree_url(model_id: &str) -> (r: String)
    ensures
        r@ == "https://huggingface.co/api/models/"@ + model_id@ + "/tree/main"@,
{
    let mut r = model_info_url(model_id);
    r.append("/tree/main");
    r
}

/// The download URL of one file in a model repository.
pub fn file_download_url(model_id: &str, file_name: &str) -> (r: String)
    ensures
        r@ == "https://huggingface.co/"@ + model_id@ + "/resolve/main/"@ + file_name@,
{
    let mut r = "https://huggingface.co/".to_owned();
    r.append(model_id);
    r.append("/resolve/main/");
    r.append(file_name);
    r
}

/// A tag that marks a quantization format the engine cannot run.
pub open spec fn spec_incompatible_tag(tag: Seq<char>) -> bool {
    contains_chars_ci(tag, "gptq"@) || contains_chars_ci(tag, "awq"@) || contains_chars_ci(
        tag,
        "bnb"@,
    ) || contains_chars_ci(tag, "exl2"@)
}

/// True when none of the repository's tags names an unsupported
/// quantization format.
pub fn is_supported_model(tags: &Vec<String>) -> (r: bool)
    ensures
        r == !(exists|i: int| 0 <= i < tags@.len() && spec_incompatible_tag((#[trigger] tags@[i])@)),
{
    let n = tags.len();
    let mut i: usize = 0;
    while i < n
        invariant
            i <= n,
            n == tags@.len(),
            forall|j: int| 0 <= j < i ==> !spec_incompatible_tag((#[trigger] tags@[j])@),
        decreases n - i,
    {
        let t = &tags[i];
        if contains_ci(t.as_str(), "gptq") || contains_ci(t.as_str(), "awq") || contains_ci(
            t.as_str(),
            "bnb",
        ) || contains_ci(t.as_str(), "exl2") {
            return false;
        }
        i = i + 1;
    }
    true
}

/// The tag a hub repository carries when it is a quantization of the
/// given base model.
pub fn quantized_tag(base_model_id: &str) -> (r: String)
    ensures
        r@ == "base_model:quantized:"@ + base_model_id@,
{
    let mut r = "base_model:quantized:".to_owned();
    r.append(base_model_id);
    r
}

/// True when the tag list ties a repository to the base model: a tag is
/// the exact quantization marker, or mentions the base model id.
pub fn matches_base_model(tags: &Vec<String>, base_model_id: &str) -> (r: bool)
    ensures
        r == exists|i: int|
            0 <= i < tags@.len() && ((#[trigger] tags@[i])@ == "base_model:quantized:"@
                + base_model_id@ || contains_chars(tags@[i]@, base_model_id@)),
{
    let marker = quantized_tag(base_model_id);
    let n = tags.len();
    let mut i: usize = 0;
    while i < n
        invariant
            i <= n,
            n == tags@.len(),
            marker@ == "base_model:quantized:"@ + base_model_id@,
            forall|j: int|
                0 <= j < i ==> !((#[trigger] tags@[j])@ == "base_model:quantized:"@
                    + base_model_id@ || contains_chars(tags@[j]@, base_model_id@)),
        decreases n - i,
    {
        if str_eq(tags[i].as_str(), marker.as_str()) || str_contains(
            tags[i].as_str(),
            base_model_id,
        ) {
            return true;
        }
        i = i + 1;
    }
    false
}

/// The namespace part of a model id: everything before the first `/`, or
/// the whole id when it has none.
pub open spec fn spec_model_id_author(id: Seq<char>) -> Seq<char> {
    match spec_first_slash(id) {
        Some(j) => id.subrange(0, j),
        None => id,
    }
}

/// Returns the namespace part of a model id.
pub fn model_id_author(id: &str) -> (r: String)
    ensures
        r@ == spec_model_id_author(id@),
{
    let chars = str_to_chars(id);
    let n = chars.len();
    let mut i: usize = 0;
    while i < n
        invariant
            i <= n,
            n == id@.len(),
            chars@ == id@,
            forall|k: int| 0 <= k < i ==> id@[k] != '/',
        decreases n - i,
    {
        if chars[i] == '/' {
            proof {
                lemma_first_slash_unique(id@, i as int);
            }
            let mut r = String::new();
            r.append(id.substring_char(0, i));
            proof {
                assert(r@ =~= id@.subrange(0, i as int));
            }
            return r;
        }
        i = i + 1;
    }
    proof {
        if exists|j: int| 0 <= j < id@.len() && id@[j] == '/' {
            let j = choose|j: int| 0 <= j < id@.len() && id@[j] == '/';
            assert(id@[j] != '/');
        }
    }
    id.to_owned()
}

/// The repository name of a model id: what follows the first `/`, up to
/// the next `/`; nothing when the id has no namespace separator.
pub open spec fn spec_model_id_name(id: Seq<char>) -> Option<Seq<char>> {
    match spec_first_slash(id) {
        Some(j) => {
            let rest = id.subrange(j + 1, id.len() as int);
            match spec_first_slash(rest) {
                Some(k) => Some(rest.subrange(0, k)),
                None => Some(rest),
            }
        },
        None => None,
    }
}

/// Returns what precedes the first `/` of `s`, or all of `s`.
fn before_first_slash(s: &str) -> (r: String)
    ensures
        r@ == match spec_first_slash(s@) {
            Some(k) => s@.subrange(0, k),
            None => s@,
        },
{
    let chars = str_to_chars(s);
    let n = chars.len();
    let mut i: usize = 0;
    while i < n
        invariant
            i <= n,
            n == s@.len(),
            chars@ == s@,
            forall|k: int| 0 <= k < i ==> s@[k] != '/',
        decreases n - i,
    {
        if chars[i] == '/' {
            proof {
                lemma_first_slash_unique(s@, i as int);
            }
            let mut r = String::new();
            r.append(s.substring_char(0, i));
            proof {
                assert(r@ =~= s@.subrange(0, i as int));
            }
            return r;
        }
        i = i + 1;
    }
    proof {
        if exists|j: int| 0 <= j < s@.len() && s@[j] == '/' {
            let j = choose|j: int| 0 <= j < s@.len() && s@[j] == '/';
            assert(s@[j] != '/');
        }
    }
    s.to_owned()
}

/// Returns the repository name of a model id.
pub fn model_id_name(id: &str) -> (r: Option<String>)
    ensures
        match r {
            Some(s) => spec_model_id_name(id@) == Some(s@),
            None => spec_model_id_name(id@) is None,
        },
{
    let chars = str_to_chars(id);
    let n = chars.len();
    let mut i: usize = 0;
    while i < n
        invariant
            i <= n,
            n == id@.len(),
            chars@ == id@,
            forall|k: int| 0 <= k < i ==> id@[k] != '/',
        decreases n - i,
    {
        if chars[i] == '/' {
            proof {
                lemma_first_slash_unique(id@, i as int);
            }
            let rest_str = id.substring_char(i + 1, n);
            proof {
                assert(rest_str@ =~= id@.subrange(i + 1, n as int));
            }
            return Some(before_first_slash(rest_str));
        }
        i = i + 1;
    }
    proof {
        if exists|j: int| 0 <= j < id@.len() && id@[j] == '/' {
            let j = choose|j: int| 0 <= j < id@.len() && id@[j] == '/';
            assert(id@[j] != '/');
        }
    }
    None
}

} // verus!
