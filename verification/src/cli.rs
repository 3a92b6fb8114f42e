//! Console-side helpers: relative timestamps for listings, and picking the
//! model artifact out of a directory listing.

use vstd::prelude::*;
use vstd::string::StringExecFns;

use crate::textutil::dec_rep;
use crate::textutil::has_suffix;
use crate::textutil::str_ends_with;
use crate::textutil::str_eq;
use crate::textutil::u64_to_string;

verus! {

/// The age of a timestamp relative to `now`, in coarse human units.
pub open spec fn spec_format_timestamp(ts: int, now: int) -> Seq<char> {
    let diff = now - ts;
    if diff < 60 {
        "just now"@
    } else if diff < 3600 {
        dec_rep((diff / 60) as nat) + "m ago"@
    } else if diff < 86400 {
        dec_rep((diff / 3600) as nat) + "h ago"@
    } else if diff < 604800 {
        dec_rep((diff / 86400) as nat) + "d ago"@
    } else {
        "over a week ago"@
    }
}

/// Renders the age of `ts` relative to `now` in coarse human units.
pub fn format_timestamp(ts: i64, now: i64) -> (r: String)
    ensures
        r@ == spec_format_timestamp(ts as int, now as int),
{
    let diff: i128 = (now as i128) - (ts as i128);
    if diff < 60 {
        "just now".to_owned()
    } else if diff < 3600 {
        let mut r = u64_to_string((diff / 60) as u64);
        r.append("m ago");
        r
    } else if diff < 86400 {
        let mut r = u64_to_string((diff / 3600) as u64);
        r.append("h ago");
        r
    } else if diff < 604800 {
        let mut r = u64_to_string((diff / 86400) as u64);
        r.append("d ago");
        r
    } else {
        "over a week ago".to_owned()
    }
}

/// Index of the first entry carrying the given suffix.
pub open spec fn spec_first_with_suffix(entries: Seq<String>, suffix: Seq<char>) -> int {
    choose|i: int|
        0 <= i < entries.len() && has_suffix((#[trigger] entries[i])@, suffix) && (forall|j: int|
            0 <= j < i ==> !has_suffix((#[trigger] entries[j])@, suffix))
}

/// True when some entry carries the given suffix.
pub open spec fn spec_any_suffix(entries: Seq<String>, suffix: Seq<char>) -> bool {
    exists|i: int| 0 <= i < entries.len() && has_suffix((#[trigger] entries[i])@, suffix)
}

/// A first matching index with no earlier match is the index
/// `spec_first_with_suffix` names.
proof fn lemma_first_with_suffix_unique(entries: Seq<String>, suffix: Seq<char>, i: int)
    requires
        0 <= i < entries.len(),
        has_suffix(entries[i]@, suffix),
        forall|j: int| 0 <= j < i ==> !has_suffix((#[trigger] entries[j])@, suffix),
    ensures
        spec_first_with_suffix(entries, suffix) == i,
{
    assert(0 <= i < entries.len() && has_suffix((#[trigger] entries[i])@, suffix) && (forall|
        j: int,
    |
        0 <= j < i ==> !has_suffix((#[trigger] entries[j])@, suffix)));
    let c = spec_first_with_suffix(entries, suffix);
    if c < i {
        assert(!has_suffix(entries[c]@, suffix));
    } else if c > i {
        assert(!has_suffix(entries[i]@, suffix));
    }
}

/// The first entry of a listing that carries the given suffix.
pub fn find_name_with_suffix(entries: &Vec<String>, suffix: &str) -> (r: Option<usize>)
    ensures
        r is Some <==> spec_any_suffix(entries@, suffix@),
        r matches Some(i) ==> i < entries@.len() && i == spec_first_with_suffix(entries@, suffix@)
            && has_suffix(entries@[i as int]@, suffix@),
{
    let n = entries.len();
    let mut i: usize = 0;
    while i < n
        invariant
            i <= n,
            n == entries@.len(),
            forall|j: int| 0 <= j < i ==> !has_suffix((#[trigger] entries@[j])@, suffix@),
        decreases n - i,
    {
        if str_ends_with(entries[i].as_str(), suffix) {
            proof {
                lemma_first_with_suffix_unique(entries@, suffix@, i as int);
            }
            return Some(i);
        }
        i = i + 1;
    }
    None
}

/// The model artifact a directory offers: the first packaged model file
/// when one is listed, else the engine's own model manifest when present,
/// else nothing supported. The result is the artifact's path under `dir`.
pub fn detect_model_format(dir: &str, entries: &Vec<String>) -> (r: Option<String>)
    ensures
        ({
            let gguf = spec_any_suffix(entries@, ".gguf"@);
            let xml = exists|i: int|
                0 <= i < entries@.len() && (#[trigger] entries@[i])@ =~= "openvino_model.xml"@;
            match r {
                Some(p) => (gguf || xml) && (if gguf {
                    p@ == dir@ + "/"@ + entries@[spec_first_with_suffix(entries@, ".gguf"@)]@
                } else {
                    p@ == dir@ + "/openvino_model.xml"@
                }),
                None => !gguf && !xml,
            }
        }),
{
    match find_name_with_suffix(entries, ".gguf") {
        Option::Some(i) => {
            let mut p = dir.to_owned();
            p.append("/");
            p.append(entries[i].as_str());
            Some(p)
        },
        Option::None => {
            let n = entries.len();
            let mut i: usize = 0;
            while i < n
                invariant
                    i <= n,
                    n == entries@.len(),
                    !spec_any_suffix(entries@, ".gguf"@),
                    forall|j: int|
                        0 <= j < i ==> !((#[trigger] entries@[j])@ =~= "openvino_model.xml"@),
                decreases n - i,
            {
                if str_eq(entries[i].as_str(), "openvino_model.xml") {
                    let mut p = dir.to_owned();
                    p.append("/openvino_model.xml");
                    return Some(p);
                }
                i = i + 1;
            }
            None
        },
    }
}

} // verus!
