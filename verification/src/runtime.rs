//! Managing the native runtime libraries: which package archive to fetch
//! for the host distribution, how an installed version is recognised, which
//! archive entries are worth extracting, and how the loader path is
//! extended. Downloading, unpacking and environment changes happen outside
//! the crate; every decision they follow is made here.

use vstd::prelude::*;
use vstd::string::StrSliceExecFns;
use vstd::string::StringExecFns;

use crate::textutil::all_digits;
use crate::textutil::contains_chars;
use crate::textutil::dec_val;
use crate::textutil::has_prefix;
use crate::textutil::is_ascii_ws;
use crate::textutil::parse_u64;
use crate::textutil::spec_first_slash;
use crate::textutil::str_contains;
use crate::textutil::str_eq;
use crate::textutil::str_eq_ci;
use crate::textutil::str_starts_with;
use crate::textutil::str_to_chars;
use crate::textutil::trim_by;
use crate::textutil::trim_quotes;
use crate::textutil::upper_chars;

verus! {

/// The engine runtime release this build expects.
pub fn ov_full_version() -> (r: &'static str)
    ensures
        r@ == "2025.2.0.0"@,
{
    "2025.2.0.0"
}

/// The short form of the release, as the download tree names it.
pub fn ov_short_version() -> (r: &'static str)
    ensures
        r@ == "2025.2"@,
{
    "2025.2"
}

/// The shared-object version suffix of the release.
pub fn ov_soname() -> (r: &'static str)
    ensures
        r@ == "2520"@,
{
    "2520"
}

/// Root of the runtime package downloads.
pub fn ov_base_url() -> (r: &'static str)
    ensures
        r@ == "https://storage.openvinotoolkit.org/repositories/openvino_genai/packages"@,
{
    "https://storage.openvinotoolkit.org/repositories/openvino_genai/packages"
}

/// The value of the last line of `lines` that starts with `prefix`.
pub open spec fn spec_last_with_prefix(lines: Seq<String>, prefix: Seq<char>) -> Option<Seq<char>>
    decreases lines.len(),
{
    if lines.len() == 0 {
        None
    } else if has_prefix(lines.last()@, prefix) {
        Some(lines.last()@.subrange(prefix.len() as int, lines.last()@.len() as int))
    } else {
        spec_last_with_prefix(lines.drop_last(), prefix)
    }
}

/// Returns the value of the last line starting with `prefix`, if any.
fn last_value_with_prefix(lines: &Vec<String>, prefix: &str) -> (r: Option<String>)
    ensures
        match r {
            Some(s) => spec_last_with_prefix(lines@, prefix@) == Some(s@),
            None => spec_last_with_prefix(lines@, prefix@) is None,
        },
{
    let n = lines.len();
    let mut i: usize = n;
    proof {
        assert(lines@.subrange(0, n as int) =~= lines@);
    }
    while i > 0
        invariant
            i <= n,
            n == lines@.len(),
            spec_last_with_prefix(lines@, prefix@) == spec_last_with_prefix(
                lines@.subrange(0, i as int),
                prefix@,
            ),
        decreases i,
    {
        i = i - 1;
        proof {
            let cur = lines@.subrange(0, i + 1);
            assert(cur.last() == lines@[i as int]);
            assert(cur.drop_last() =~= lines@.subrange(0, i as int));
        }
        if str_starts_with(lines[i].as_str(), prefix) {
            let line = &lines[i];
            let start = prefix.unicode_len();
            let end = line.as_str().unicode_len();
            let mut value = String::new();
            value.append(line.as_str().substring_char(start, end));
            proof {
                assert(value@ =~= lines@[i as int]@.subrange(
                    prefix@.len() as int,
                    lines@[i as int]@.len() as int,
                ));
            }
            return Some(value);
        }
    }
    proof {
        assert(lines@.subrange(0, 0) =~= Seq::<String>::empty());
    }
    None
}

/// The major number named by a version string: the decimal value before
/// the first `.`; anything unparseable counts as 22.
pub open spec fn spec_major_version(ver: Seq<char>) -> int {
    let head = match spec_first_index_of(ver, '.') {
        Some(j) => ver.subrange(0, j),
        None => ver,
    };
    if head.len() > 0 && all_digits(head) && dec_val(head) <= u32::MAX {
        dec_val(head) as int
    } else {
        22
    }
}

/// Index of the first occurrence of `c` in `p`, if any.
pub open spec fn spec_first_index_of(p: Seq<char>, c: char) -> Option<int> {
    if exists|j: int| 0 <= j < p.len() && p[j] == c {
        Some(
            choose|j: int|
                0 <= j < p.len() && p[j] == c && (forall|k: int| 0 <= k < j ==> p[k] != c),
        )
    } else {
        None
    }
}

/// Any index holding the first occurrence is the one
/// `spec_first_index_of` names.
proof fn lemma_first_index_of_unique(p: Seq<char>, c: char, j: int)
    requires
        0 <= j < p.len(),
        p[j] == c,
        forall|k: int| 0 <= k < j ==> p[k] != c,
    ensures
        spec_first_index_of(p, c) == Some(j),
{
    assert(0 <= j < p.len() && p[j] == c);
    let w = choose|i: int|
        0 <= i < p.len() && p[i] == c && (forall|k: int| 0 <= k < i ==> p[k] != c);
    if w < j {
        assert(p[w] != c);
    } else if w > j {
        assert(p[j] != c);
    }
}

/// Parses the major number out of a version string.
pub fn major_version(ver: &str) -> (r: u64)
    ensures
        r == spec_major_version(ver@),
{
    let chars = str_to_chars(ver);
    let n = chars.len();
    let mut i: usize = 0;
    while i < n
        invariant
            i <= n,
            n == ver@.len(),
            chars@ == ver@,
            forall|k: int| 0 <= k < i ==> ver@[k] != '.',
        decreases n - i,
    {
        if chars[i] == '.' {
            proof {
                lemma_first_index_of_unique(ver@, '.', i as int);
            }
            let head = ver.substring_char(0, i);
            proof {
                assert(head@ =~= ver@.subrange(0, i as int));
            }
            return match parse_u64(head) {
                Option::Some(v) => if v <= 0xFFFF_FFFF {
                    v
                } else {
                    22
                },
                Option::None => 22,
            };
        }
        i = i + 1;
    }
    proof {
        if exists|j: int| 0 <= j < ver@.len() && ver@[j] == '.' {
            let j = choose|j: int| 0 <= j < ver@.len() && ver@[j] == '.';
            assert(ver@[j] != '.');
        }
    }
    match parse_u64(ver) {
        Option::Some(v) => if v <= 0xFFFF_FFFF {
            v
        } else {
            22
        },
        Option::None => 22,
    }
}

/// The package name for a distribution: only a sufficiently recent Ubuntu
/// gets its own build, everything else falls back to the long-term one.
pub open spec fn spec_distro_package(id: Seq<char>, major: int) -> Seq<char> {
    if upper_chars(id) == upper_chars("ubuntu"@) && major >= 24 {
        "ubuntu24"@
    } else {
        "ubuntu22"@
    }
}

/// The distribution package named by an os-release file, given as its
/// lines: the (quote-trimmed) `ID=` and `VERSION_ID=` values decide.
pub open spec fn spec_os_release_distro(lines: Seq<String>) -> Seq<char> {
    let id = match spec_last_with_prefix(lines, "ID="@) {
        Some(v) => trim_by(v, |c: char| c == '"'),
        None => Seq::empty(),
    };
    let major = match spec_last_with_prefix(lines, "VERSION_ID="@) {
        Some(v) => spec_major_version(trim_by(v, |c: char| c == '"')),
        None => 22,
    };
    spec_distro_package(id, major)
}

/// Decides the runtime package for this host from its os-release lines.
pub fn detect_linux_distro(os_release_lines: &Vec<String>) -> (r: String)
    ensures
        r@ == spec_os_release_distro(os_release_lines@),
{
    let id: String = match last_value_with_prefix(os_release_lines, "ID=") {
        Option::Some(v) => trim_quotes(v.as_str()),
        Option::None => String::new(),
    };
    let major: u64 = match last_value_with_prefix(os_release_lines, "VERSION_ID=") {
        Option::Some(v) => major_version(trim_quotes(v.as_str()).as_str()),
        Option::None => 22,
    };
    if str_eq_ci(id.as_str(), "ubuntu") && major >= 24 {
        "ubuntu24".to_owned()
    } else {
        "ubuntu22".to_owned()
    }
}

/// The URL segment that names this build's operating system.
pub fn os_url_segment() -> (r: &'static str)
    ensures
        r@ == "linux"@,
{
    "linux"
}

/// The distribution package and archive format for this host, decided
/// from its os-release lines.
pub fn detect_os_package(os_release_lines: &Vec<String>) -> (r: (String, String))
    ensures
        r.0@ == spec_os_release_distro(os_release_lines@),
        r.1@ == "tar.gz"@,
{
    (detect_linux_distro(os_release_lines), "tar.gz".to_owned())
}

/// The full runtime package URL for a distribution package name.
pub open spec fn spec_download_url(distro: Seq<char>) -> Seq<char> {
    "https://storage.openvinotoolkit.org/repositories/openvino_genai/packages"@ + "/"@ + "2025.2"@
        + "/"@ + "linux"@ + "/openvino_genai_"@ + distro + "_"@ + "2025.2.0.0"@
        + "_x86_64.tar.gz"@
}

/// Builds the runtime package URL for a distribution package name.
pub fn build_download_url(distro: &str) -> (r: String)
    ensures
        r@ == spec_download_url(distro@),
{
    let mut r = ov_base_url().to_owned();
    r.append("/");
    r.append(ov_short_version());
    r.append("/");
    r.append(os_url_segment());
    r.append("/openvino_genai_");
    r.append(distro);
    r.append("_");
    r.append(ov_full_version());
    r.append("_x86_64.tar.gz");
    proof {
        assert(r@ =~= spec_download_url(distro@));
    }
    r
}

/// File name of the shared object whose presence marks an installed
/// runtime.
pub fn sentinel_lib() -> (r: String)
    ensures
        r@ == "libopenvino_genai.so."@ + "2520"@,
{
    let mut r = "libopenvino_genai.so.".to_owned();
    r.append(ov_soname());
    r
}

/// True when a directory listing shows the runtime installed: some entry
/// is the sentinel shared object.
pub fn has_openvino_libs(entries: &Vec<String>) -> (r: bool)
    ensures
        r == exists|i: int|
            0 <= i < entries@.len() && (#[trigger] entries@[i])@ =~= "libopenvino_genai.so."@
                + "2520"@,
{
    let sentinel = sentinel_lib();
    let n = entries.len();
    let mut i: usize = 0;
    while i < n
        invariant
            i <= n,
            n == entries@.len(),
            sentinel@ == "libopenvino_genai.so."@ + "2520"@,
            forall|j: int|
                0 <= j < i ==> !((#[trigger] entries@[j])@ =~= "libopenvino_genai.so."@
                    + "2520"@),
        decreases n - i,
    {
        if str_eq(entries[i].as_str(), sentinel.as_str()) {
            return true;
        }
        i = i + 1;
    }
    false
}

/// File name of the engine binary the launcher hands over to.
pub fn engine_binary_name() -> (r: String)
    ensures
        r@ == "capi-engine"@,
{
    "capi-engine".to_owned()
}

/// True when an archive entry's base name belongs to the runtime's
/// essential set: the engine libraries, their threading support, or the
/// plugin manifest.
pub fn is_essential_linux(basename: &str) -> (r: bool)
    ensures
        r == (has_prefix(basename@, "libopenvino"@) || has_prefix(basename@, "libtbb"@)
            || has_prefix(basename@, "libhwloc"@) || basename@ =~= "plugins.xml"@),
{
    str_starts_with(basename, "libopenvino") || str_starts_with(basename, "libtbb")
        || str_starts_with(basename, "libhwloc") || str_eq(basename, "plugins.xml")
}

/// The essential-set test for the archive layout other platforms use.
pub fn is_essential_windows(basename: &str) -> (r: bool)
    ensures
        r == (has_prefix(basename@, "openvino"@) || has_prefix(basename@, "tbb"@) || basename@
            =~= "plugins.xml"@),
{
    str_starts_with(basename, "openvino") || str_starts_with(basename, "tbb") || str_eq(
        basename,
        "plugins.xml",
    )
}

/// An archive entry path without its leading top-level directory, or
/// nothing when the path has no separator.
pub fn strip_top_dir(path: &str) -> (r: Option<String>)
    ensures
        match r {
            Some(s) => spec_first_slash(path@) matches Some(j) && s@ == path@.subrange(
                j + 1,
                path@.len() as int,
            ),
            None => spec_first_slash(path@) is None,
        },
{
    let chars = str_to_chars(path);
    let n = chars.len();
    let mut i: usize = 0;
    while i < n
        invariant
            i <= n,
            n == path@.len(),
            chars@ == path@,
            forall|k: int| 0 <= k < i ==> path@[k] != '/',
        decreases n - i,
    {
        if chars[i] == '/' {
            proof {
                crate::textutil::lemma_first_slash_unique(path@, i as int);
            }
            let mut r = String::new();
            r.append(path.substring_char(i + 1, n));
            proof {
                assert(r@ =~= path@.subrange(i + 1, n as int));
            }
            return Some(r);
        }
        i = i + 1;
    }
    proof {
        if exists|j: int| 0 <= j < path@.len() && path@[j] == '/' {
            let j = choose|j: int| 0 <= j < path@.len() && path@[j] == '/';
            assert(path@[j] != '/');
        }
    }
    None
}

/// The loader search path extended with the runtime directory: nothing to
/// do when the directory is already mentioned, else the directory in
/// front, joined with `:` to what was there.
pub fn prepend_lib_path(current: &str, lib_path: &str) -> (r: Option<String>)
    ensures
        match r {
            None => contains_chars(current@, lib_path@),
            Some(s) => !contains_chars(current@, lib_path@) && (if current@.len() == 0 {
                s@ == lib_path@
            } else {
                s@ == lib_path@ + ":"@ + current@
            }),
        },
{
    if str_contains(current, lib_path) {
        return None;
    }
    if current.unicode_len() == 0 {
        let mut r = String::new();
        r.append(lib_path);
        Some(r)
    } else {
        let mut r = lib_path.to_owned();
        r.append(":");
        r.append(current);
        Some(r)
    }
}

/// Owns the runtime's installation directory and the decisions about it.
#[derive(Debug, Clone)]
pub struct OpenVinoManager {
    pub lib_dir: String,
}

impl OpenVinoManager {
    /// A manager rooted at the default per-user library directory under
    /// the given home directory.
    pub fn new(home_dir: &str) -> (r: OpenVinoManager)
        ensures
            r.lib_dir@ == home_dir@ + "/.local/lib/capi/openvino"@,
    {
        let mut lib_dir = home_dir.to_owned();
        lib_dir.append("/.local/lib/capi/openvino");
        OpenVinoManager { lib_dir }
    }

    /// A manager rooted at an explicit library directory.
    pub fn with_lib_dir(lib_dir: String) -> (r: OpenVinoManager)
        ensures
            r.lib_dir@ == lib_dir@,
    {
        OpenVinoManager { lib_dir }
    }

    /// The directory the runtime libraries live in.
    pub fn lib_dir(&self) -> (r: &str)
        ensures
            r@ == self.lib_dir@,
    {
        self.lib_dir.as_str()
    }

    /// Path of the version marker inside the library directory.
    pub fn version_marker_path(&self) -> (r: String)
        ensures
            r@ == self.lib_dir@ + "/.version"@,
    {
        let mut r = self.lib_dir.clone();
        r.append("/.version");
        r
    }

    /// True when a version marker's contents name this build's runtime
    /// release, ignoring surrounding whitespace; a missing marker never
    /// matches.
    pub fn is_correct_version_installed(&self, marker: &Option<String>) -> (r: bool)
        ensures
            r == (marker matches Some(c) && trim_by(c@, |ch: char| is_ascii_ws(ch))
                =~= "2025.2.0.0"@),
    {
        match marker {
            Option::Some(contents) => {
                let trimmed = crate::textutil::trim_ascii_ws(contents.as_str());
                str_eq(trimmed.as_str(), ov_full_version())
            },
            Option::None => false,
        }
    }

    /// The package URL for this host, given the decided distribution
    /// package name.
    pub fn download_url(&self, distro: &str) -> (r: String)
        ensures
            r@ == spec_download_url(distro@),
    {
        build_download_url(distro)
    }
}

} // verus!
