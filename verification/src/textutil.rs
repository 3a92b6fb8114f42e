//! Character-level helpers shared across the crate: decimal rendering and
//! parsing, ASCII case folding, and substring search over character views.

use vstd::prelude::*;
use vstd::string::StrSliceExecFns;
use vstd::string::StringExecFns;

verus! {

/// The decimal digit character for a value below ten.
pub open spec fn digit_char(d: nat) -> char
    recommends
        d < 10,
{
    (48 + d) as char
}

/// True when `c` is an ASCII decimal digit.
pub open spec fn is_digit_char(c: char) -> bool {
    48 <= c as u32 <= 57
}

/// Numeric value of an ASCII decimal digit character.
pub open spec fn digit_val(c: char) -> nat
    recommends
        is_digit_char(c),
{
    (c as u32 - 48) as nat
}

/// Decimal representation of `n`, most significant digit first.
pub open spec fn dec_rep(n: nat) -> Seq<char>
    decreases n,
{
    if n < 10 {
        seq![digit_char(n)]
    } else {
        dec_rep(n / 10).push(digit_char(n % 10))
    }
}

/// Value of a sequence of decimal digit characters.
pub open spec fn dec_val(s: Seq<char>) -> nat
    decreases s.len(),
{
    if s.len() == 0 {
        0
    } else {
        dec_val(s.drop_last()) * 10 + digit_val(s.last())
    }
}

/// True when every character of `s` is an ASCII decimal digit.
pub open spec fn all_digits(s: Seq<char>) -> bool {
    forall|i: int| 0 <= i < s.len() ==> is_digit_char(#[trigger] s[i])
}

/// ASCII upper-case folding of one character; anything outside `a`..`z` is
/// left unchanged.
pub open spec fn upper_char(c: char) -> char {
    if 97 <= c as u32 <= 122 {
        (c as u32 - 32) as char
    } else {
        c
    }
}

/// ASCII upper-case folding of a character sequence.
pub open spec fn upper_chars(s: Seq<char>) -> Seq<char> {
    s.map_values(|c: char| upper_char(c))
}

/// True when `needle` occurs as a contiguous run inside `hay`.
pub open spec fn contains_chars(hay: Seq<char>, needle: Seq<char>) -> bool {
    exists|i: int|
        0 <= i && i + needle.len() <= hay.len() && #[trigger] hay.subrange(i, i + needle.len())
            =~= needle
}

/// True when `needle` occurs inside `hay` up to ASCII case.
pub open spec fn contains_chars_ci(hay: Seq<char>, needle: Seq<char>) -> bool {
    contains_chars(upper_chars(hay), upper_chars(needle))
}

/// True when `p` is a prefix of `s`.
pub open spec fn has_prefix(s: Seq<char>, p: Seq<char>) -> bool {
    p.len() <= s.len() && s.subrange(0, p.len() as int) =~= p
}

/// True when `p` is a suffix of `s`.
pub open spec fn has_suffix(s: Seq<char>, p: Seq<char>) -> bool {
    p.len() <= s.len() && s.subrange(s.len() - p.len(), s.len() as int) =~= p
}

/// Collects the characters of a string slice into a vector.
pub fn str_to_chars(s: &str) -> (v: Vec<char>)
    ensures
        v@ == s@,
{
    let n: usize = s.unicode_len();
    let mut v: Vec<char> = Vec::new();
    let mut i: usize = 0;
    while i < n
        invariant
            i <= n,
            n == s@.len(),
            v@ =~= s@.subrange(0, i as int),
        decreases n - i,
    {
        v.push(s.get_char(i));
        i = i + 1;
    }
    proof {
        assert(v@ =~= s@);
    }
    v
}

/// One-character string slice for a decimal digit value.
fn digit_str(d: u64) -> (r: &'static str)
    requires
        d < 10,
    ensures
        r@ =~= seq![digit_char(d as nat)],
{
    if d == 0 {
        proof { reveal_strlit("0"); }
        "0"
    } else if d == 1 {
        proof { reveal_strlit("1"); }
        "1"
    } else if d == 2 {
        proof { reveal_strlit("2"); }
        "2"
    } else if d == 3 {
        proof { reveal_strlit("3"); }
        "3"
    } else if d == 4 {
        proof { reveal_strlit("4"); }
        "4"
    } else if d == 5 {
        proof { reveal_strlit("5"); }
        "5"
    } else if d == 6 {
        proof { reveal_strlit("6"); }
        "6"
    } else if d == 7 {
        proof { reveal_strlit("7"); }
        "7"
    } else if d == 8 {
        proof { reveal_strlit("8"); }
        "8"
    } else {
        proof { reveal_strlit("9"); }
        "9"
    }
}

/// Renders `n` in decimal.
pub fn u64_to_string(n: u64) -> (r: String)
    ensures
        r@ =~= dec_rep(n as nat),
    decreases n,
{
    if n < 10 {
        digit_str(n).to_owned()
    } else {
        let mut s = u64_to_string(n / 10);
        s.append(digit_str(n % 10));
        s
    }
}

/// Decimal representation of a possibly negative value.
pub open spec fn dec_rep_signed(n: int) -> Seq<char> {
    if n < 0 {
        seq!['-'] + dec_rep((-n) as nat)
    } else {
        dec_rep(n as nat)
    }
}

/// Renders a signed value in decimal.
pub fn i64_to_string(n: i64) -> (r: String)
    ensures
        r@ =~= dec_rep_signed(n as int),
{
    if n < 0 {
        let magnitude: u64 = (-(n as i128)) as u64;
        let mut r = "-".to_owned();
        r.append(u64_to_string(magnitude).as_str());
        proof {
            reveal_strlit("-");
        }
        r
    } else {
        u64_to_string(n as u64)
    }
}

/// Parses a non-empty run of decimal digits whose value fits in `u64`;
/// returns nothing on an empty string, a non-digit, or overflow.
pub fn parse_u64(s: &str) -> (r: Option<u64>)
    ensures
        match r {
            Some(v) => s@.len() > 0 && all_digits(s@) && dec_val(s@) == v,
            None => s@.len() == 0 || !all_digits(s@) || dec_val(s@) > u64::MAX,
        },
{
    let chars = str_to_chars(s);
    let n = chars.len();
    if n == 0 {
        return None;
    }
    let mut acc: u64 = 0;
    let mut i: usize = 0;
    while i < n
        invariant
            i <= n,
            n == s@.len(),
            chars@ == s@,
            all_digits(s@.subrange(0, i as int)),
            acc == dec_val(s@.subrange(0, i as int)),
        decreases n - i,
    {
        let c = chars[i];
        let u = c as u32;
        if u < 48 || u > 57 {
            proof {
                assert(!is_digit_char(s@[i as int]));
            }
            return None;
        }
        let d: u64 = (u - 48) as u64;
        if acc > (u64::MAX - d) / 10 {
            proof {
                if all_digits(s@) {
                    lemma_dec_val_grows(s@, i as int);
                }
            }
            return None;
        }
        proof {
            assert(s@.subrange(0, i + 1).drop_last() =~= s@.subrange(0, i as int));
            assert(s@.subrange(0, i + 1).last() == s@[i as int]);
        }
        acc = acc * 10 + d;
        i = i + 1;
    }
    proof {
        assert(s@.subrange(0, n as int) =~= s@);
    }
    Some(acc)
}

/// A digit run's value only grows when the run is extended to the right.
proof fn lemma_dec_val_grows(s: Seq<char>, i: int)
    requires
        0 <= i < s.len(),
        all_digits(s),
    ensures
        dec_val(s) >= dec_val(s.subrange(0, i)) * 10 + digit_val(s[i]),
    decreases s.len() - i,
{
    if i == s.len() - 1 {
        assert(s.drop_last() =~= s.subrange(0, i));
    } else {
        lemma_dec_val_grows(s.drop_last(), i);
        assert(s.drop_last().subrange(0, i) =~= s.subrange(0, i));
        assert(s.drop_last()[i] == s[i]);
        assert(forall|j: int| 0 <= j < s.drop_last().len() ==> is_digit_char(
            #[trigger] s.drop_last()[j],
        ));
    }
}

/// True when `needle` occurs inside `hay`, comparing ASCII case-insensitively.
pub fn contains_ci(hay: &str, needle: &str) -> (r: bool)
    ensures
        r == contains_chars_ci(hay@, needle@),
{
    let h = str_to_chars(hay);
    let p = str_to_chars(needle);
    contains_chars_ci_vec(&h, &p)
}

/// Compares two characters for equality up to ASCII case, without
/// materialising the folded characters.
fn chars_eq_ci(a: char, b: char) -> (r: bool)
    ensures
        r == (upper_char(a) == upper_char(b)),
{
    let au = a as u32;
    let bu = b as u32;
    let af: u32 = if 97 <= au && au <= 122 {
        au - 32
    } else {
        au
    };
    let bf: u32 = if 97 <= bu && bu <= 122 {
        bu - 32
    } else {
        bu
    };
    proof {
        vstd::utf8::char_u32_cast(a, au);
        vstd::utf8::char_u32_cast(b, bu);
        assert(upper_char(a) as u32 == af);
        assert(upper_char(b) as u32 == bf);
        vstd::utf8::char_u32_cast(upper_char(a), upper_char(a) as u32);
        vstd::utf8::char_u32_cast(upper_char(b), upper_char(b) as u32);
    }
    af == bf
}

/// Case-insensitive substring search over character vectors.
pub fn contains_chars_ci_vec(hay: &Vec<char>, needle: &Vec<char>) -> (r: bool)
    ensures
        r == contains_chars_ci(hay@, needle@),
{
    let hn = hay.len();
    let pn = needle.len();
    if pn > hn {
        proof {
            assert(upper_chars(hay@).len() == hay@.len());
            assert(upper_chars(needle@).len() == needle@.len());
        }
        return false;
    }
    let mut i: usize = 0;
    while i <= hn - pn
        invariant
            pn <= hn,
            hn == hay@.len(),
            pn == needle@.len(),
            i <= hn - pn + 1,
            forall|k: int|
                0 <= k < i ==> !(#[trigger] upper_chars(hay@).subrange(k, k + pn) =~= upper_chars(
                    needle@,
                )),
        decreases hn - pn + 1 - i,
    {
        let mut j: usize = 0;
        let mut matches: bool = true;
        while j < pn && matches
            invariant
                i + pn <= hn,
                hn == hay@.len(),
                pn == needle@.len(),
                j <= pn,
                matches ==> upper_chars(hay@).subrange(i as int, i + j) =~= upper_chars(
                    needle@,
                ).subrange(0, j as int),
                !matches ==> !(upper_chars(hay@).subrange(i as int, i + pn) =~= upper_chars(
                    needle@,
                )),
            decreases pn - j,
        {
            let same = chars_eq_ci(hay[i + j], needle[j]);
            proof {
                assert(upper_chars(hay@)[i + j] == upper_char(hay@[i + j]));
                assert(upper_chars(needle@)[j as int] == upper_char(needle@[j as int]));
            }
            if !same {
                matches = false;
                proof {
                    let win = upper_chars(hay@).subrange(i as int, i + pn);
                    let ndl = upper_chars(needle@);
                    assert(win[j as int] == upper_char(hay@[i + j]));
                    assert(ndl[j as int] == upper_char(needle@[j as int]));
                    assert(win[j as int] != ndl[j as int]);
                }
            } else {
                proof {
                    let lhs = upper_chars(hay@).subrange(i as int, i + j + 1);
                    let rhs = upper_chars(needle@).subrange(0, j + 1);
                    assert(lhs.drop_last() =~= upper_chars(hay@).subrange(i as int, i + j));
                    assert(rhs.drop_last() =~= upper_chars(needle@).subrange(0, j as int));
                    assert(lhs.last() == upper_char(hay@[i + j]));
                    assert(rhs.last() == upper_char(needle@[j as int]));
                    assert(lhs =~= rhs);
                }
            }
            j = j + 1;
        }
        if matches {
            proof {
                assert(upper_chars(needle@).subrange(0, pn as int) =~= upper_chars(needle@));
                assert(upper_chars(hay@).subrange(i as int, i + pn) =~= upper_chars(needle@));
            }
            return true;
        }
        proof {
            if upper_chars(hay@).subrange(i as int, i + pn) =~= upper_chars(needle@) {
                let k = i as int;
                assert(upper_chars(hay@).subrange(k, k + pn) =~= upper_chars(needle@));
                assert(false);
            }
        }
        i = i + 1;
    }
    proof {
        assert(upper_chars(hay@).len() == hay@.len());
        assert(upper_chars(needle@).len() == needle@.len());
        if contains_chars(upper_chars(hay@), upper_chars(needle@)) {
            let k = choose|k: int|
                0 <= k && k + upper_chars(needle@).len() <= upper_chars(hay@).len()
                    && #[trigger] upper_chars(hay@).subrange(k, k + upper_chars(needle@).len())
                    =~= upper_chars(needle@);
            assert(!(upper_chars(hay@).subrange(k, k + pn) =~= upper_chars(needle@)));
        }
    }
    false
}

/// True when `needle` occurs inside `hay`, compared exactly.
pub fn str_contains(hay: &str, needle: &str) -> (r: bool)
    ensures
        r == contains_chars(hay@, needle@),
{
    let h = str_to_chars(hay);
    let p = str_to_chars(needle);
    let hn = h.len();
    let pn = p.len();
    if pn > hn {
        return false;
    }
    let mut i: usize = 0;
    while i <= hn - pn
        invariant
            pn <= hn,
            hn == hay@.len(),
            pn == needle@.len(),
            h@ == hay@,
            p@ == needle@,
            i <= hn - pn + 1,
            forall|k: int|
                0 <= k < i ==> !(#[trigger] hay@.subrange(k, k + pn) =~= needle@),
        decreases hn - pn + 1 - i,
    {
        let mut j: usize = 0;
        let mut matches: bool = true;
        while j < pn && matches
            invariant
                i + pn <= hn,
                hn == hay@.len(),
                pn == needle@.len(),
                h@ == hay@,
                p@ == needle@,
                j <= pn,
                matches ==> hay@.subrange(i as int, i + j) =~= needle@.subrange(0, j as int),
                !matches ==> !(hay@.subrange(i as int, i + pn) =~= needle@),
            decreases pn - j,
        {
            if h[i + j] != p[j] {
                matches = false;
                proof {
                    assert(hay@.subrange(i as int, i + pn)[j as int] == hay@[i + j]);
                }
            } else {
                proof {
                    let lhs = hay@.subrange(i as int, i + j + 1);
                    let rhs = needle@.subrange(0, j + 1);
                    assert(lhs.drop_last() =~= hay@.subrange(i as int, i + j));
                    assert(rhs.drop_last() =~= needle@.subrange(0, j as int));
                    assert(lhs.last() == hay@[i + j]);
                    assert(rhs.last() == needle@[j as int]);
                    assert(lhs =~= rhs);
                }
            }
            j = j + 1;
        }
        if matches {
            proof {
                assert(needle@.subrange(0, pn as int) =~= needle@);
                assert(hay@.subrange(i as int, i + pn) =~= needle@);
            }
            return true;
        }
        i = i + 1;
    }
    proof {
        if contains_chars(hay@, needle@) {
            let k = choose|k: int|
                0 <= k && k + needle@.len() <= hay@.len() && #[trigger] hay@.subrange(
                    k,
                    k + needle@.len(),
                ) =~= needle@;
            assert(!(hay@.subrange(k, k + pn) =~= needle@));
        }
    }
    false
}

/// True when `s` ends with `suffix`.
pub fn str_ends_with(s: &str, suffix: &str) -> (r: bool)
    ensures
        r == has_suffix(s@, suffix@),
{
    let sc = str_to_chars(s);
    let pc = str_to_chars(suffix);
    let n = sc.len();
    let pn = pc.len();
    if pn > n {
        return false;
    }
    let mut j: usize = 0;
    while j < pn
        invariant
            pn <= n,
            n == s@.len(),
            pn == suffix@.len(),
            sc@ == s@,
            pc@ == suffix@,
            j <= pn,
            forall|k: int| 0 <= k < j ==> s@[n - pn + k] == suffix@[k],
        decreases pn - j,
    {
        if sc[n - pn + j] != pc[j] {
            proof {
                assert(s@.subrange(s@.len() - suffix@.len(), s@.len() as int)[j as int]
                    == s@[n - pn + j]);
            }
            return false;
        }
        j = j + 1;
    }
    proof {
        assert(s@.subrange(s@.len() - suffix@.len(), s@.len() as int) =~= suffix@);
    }
    true
}

/// True when `s` starts with `prefix`.
pub fn str_starts_with(s: &str, prefix: &str) -> (r: bool)
    ensures
        r == has_prefix(s@, prefix@),
{
    let sc = str_to_chars(s);
    let pc = str_to_chars(prefix);
    let n = sc.len();
    let pn = pc.len();
    if pn > n {
        return false;
    }
    let mut j: usize = 0;
    while j < pn
        invariant
            pn <= n,
            n == s@.len(),
            pn == prefix@.len(),
            sc@ == s@,
            pc@ == prefix@,
            j <= pn,
            forall|k: int| 0 <= k < j ==> s@[k] == prefix@[k],
        decreases pn - j,
    {
        if sc[j] != pc[j] {
            proof {
                assert(s@.subrange(0, prefix@.len() as int)[j as int] == s@[j as int]);
            }
            return false;
        }
        j = j + 1;
    }
    proof {
        assert(s@.subrange(0, prefix@.len() as int) =~= prefix@);
    }
    true
}

/// True when `c` is ASCII whitespace.
pub open spec fn is_ascii_ws(c: char) -> bool {
    c == ' ' || c == '\t' || c == '\n' || c == '\r'
}

/// `s` without its leading run of characters satisfying `p`.
pub open spec fn trim_front_by(s: Seq<char>, p: spec_fn(char) -> bool) -> Seq<char>
    decreases s.len(),
{
    if s.len() > 0 && p(s[0]) {
        trim_front_by(s.drop_first(), p)
    } else {
        s
    }
}

/// `s` without its trailing run of characters satisfying `p`.
pub open spec fn trim_back_by(s: Seq<char>, p: spec_fn(char) -> bool) -> Seq<char>
    decreases s.len(),
{
    if s.len() > 0 && p(s.last()) {
        trim_back_by(s.drop_last(), p)
    } else {
        s
    }
}

/// `s` without leading and trailing characters satisfying `p`.
pub open spec fn trim_by(s: Seq<char>, p: spec_fn(char) -> bool) -> Seq<char> {
    trim_back_by(trim_front_by(s, p), p)
}

/// Removes ASCII whitespace from both ends.
pub fn trim_ascii_ws(s: &str) -> (r: String)
    ensures
        r@ == trim_by(s@, |c: char| is_ascii_ws(c)),
{
    let ghost p = |c: char| is_ascii_ws(c);
    let chars = str_to_chars(s);
    let n = chars.len();
    proof {
        assert(s@.subrange(0, n as int) =~= s@);
    }
    let mut i: usize = 0;
    while i < n && (chars[i] == ' ' || chars[i] == '\t' || chars[i] == '\n' || chars[i] == '\r')
        invariant
            i <= n,
            n == s@.len(),
            chars@ == s@,
            p == (|c: char| is_ascii_ws(c)),
            trim_front_by(s@, p) == trim_front_by(s@.subrange(i as int, n as int), p),
        decreases n - i,
    {
        proof {
            let cur = s@.subrange(i as int, n as int);
            assert(cur[0] == s@[i as int]);
            assert(p(s@[i as int]));
            assert(cur.drop_first() =~= s@.subrange(i + 1, n as int));
        }
        i = i + 1;
    }
    proof {
        if i < n {
            assert(!p(s@[i as int]));
            assert(s@.subrange(i as int, n as int)[0] == s@[i as int]);
        }
        assert(trim_front_by(s@, p) == s@.subrange(i as int, n as int));
    }
    let mut j: usize = n;
    while j > i && (chars[j - 1] == ' ' || chars[j - 1] == '\t' || chars[j - 1] == '\n' || chars[j - 1] == '\r')
        invariant
            i <= j <= n,
            n == s@.len(),
            chars@ == s@,
            p == (|c: char| is_ascii_ws(c)),
            trim_front_by(s@, p) == s@.subrange(i as int, n as int),
            trim_back_by(s@.subrange(i as int, n as int), p) == trim_back_by(
                s@.subrange(i as int, j as int),
                p,
            ),
        decreases j,
    {
        proof {
            let cur = s@.subrange(i as int, j as int);
            assert(cur.last() == s@[j - 1]);
            assert(p(s@[j - 1]));
            assert(cur.drop_last() =~= s@.subrange(i as int, j - 1));
        }
        j = j - 1;
    }
    proof {
        let cur = s@.subrange(i as int, j as int);
        if j > i {
            assert(!p(s@[j - 1]));
            assert(cur.last() == s@[j - 1]);
            assert(trim_back_by(cur, p) == cur);
        } else {
            assert(cur =~= Seq::<char>::empty());
            assert(trim_back_by(cur, p) == cur);
        }
    }
    let mut r = String::new();
    r.append(s.substring_char(i, j));
    proof {
        assert(r@ =~= s@.subrange(i as int, j as int));
    }
    r
}

/// Removes double quotes from both ends.
pub fn trim_quotes(s: &str) -> (r: String)
    ensures
        r@ == trim_by(s@, |c: char| c == '\"'),
{
    let ghost p = |c: char| c == '\"';
    let chars = str_to_chars(s);
    let n = chars.len();
    proof {
        assert(s@.subrange(0, n as int) =~= s@);
    }
    let mut i: usize = 0;
    while i < n && (chars[i] == '\"')
        invariant
            i <= n,
            n == s@.len(),
            chars@ == s@,
            p == (|c: char| c == '\"'),
            trim_front_by(s@, p) == trim_front_by(s@.subrange(i as int, n as int), p),
        decreases n - i,
    {
        proof {
            let cur = s@.subrange(i as int, n as int);
            assert(cur[0] == s@[i as int]);
            assert(p(s@[i as int]));
            assert(cur.drop_first() =~= s@.subrange(i + 1, n as int));
        }
        i = i + 1;
    }
    proof {
        if i < n {
            assert(!p(s@[i as int]));
            assert(s@.subrange(i as int, n as int)[0] == s@[i as int]);
        }
        assert(trim_front_by(s@, p) == s@.subrange(i as int, n as int));
    }
    let mut j: usize = n;
    while j > i && (chars[j - 1] == '\"')
        invariant
            i <= j <= n,
            n == s@.len(),
            chars@ == s@,
            p == (|c: char| c == '\"'),
            trim_front_by(s@, p) == s@.subrange(i as int, n as int),
            trim_back_by(s@.subrange(i as int, n as int), p) == trim_back_by(
                s@.subrange(i as int, j as int),
                p,
            ),
        decreases j,
    {
        proof {
            let cur = s@.subrange(i as int, j as int);
            assert(cur.last() == s@[j - 1]);
            assert(p(s@[j - 1]));
            assert(cur.drop_last() =~= s@.subrange(i as int, j - 1));
        }
        j = j - 1;
    }
    proof {
        let cur = s@.subrange(i as int, j as int);
        if j > i {
            assert(!p(s@[j - 1]));
            assert(cur.last() == s@[j - 1]);
            assert(trim_back_by(cur, p) == cur);
        } else {
            assert(cur =~= Seq::<char>::empty());
            assert(trim_back_by(cur, p) == cur);
        }
    }
    let mut r = String::new();
    r.append(s.substring_char(i, j));
    proof {
        assert(r@ =~= s@.subrange(i as int, j as int));
    }
    r
}

/// Two strings are equal up to ASCII case exactly when their folded views
/// are equal.
pub fn str_eq_ci(a: &str, b: &str) -> (r: bool)
    ensures
        r == (upper_chars(a@) =~= upper_chars(b@)),
{
    let ac = str_to_chars(a);
    let bc = str_to_chars(b);
    let n = ac.len();
    if n != bc.len() {
        proof {
            assert(upper_chars(a@).len() == a@.len());
            assert(upper_chars(b@).len() == b@.len());
        }
        return false;
    }
    let mut j: usize = 0;
    while j < n
        invariant
            n == a@.len(),
            n == b@.len(),
            ac@ == a@,
            bc@ == b@,
            j <= n,
            forall|k: int| 0 <= k < j ==> upper_chars(a@)[k] == upper_chars(b@)[k],
        decreases n - j,
    {
        let same = chars_eq_ci(ac[j], bc[j]);
        proof {
            assert(upper_chars(a@)[j as int] == upper_char(a@[j as int]));
            assert(upper_chars(b@)[j as int] == upper_char(b@[j as int]));
        }
        if !same {
            return false;
        }
        j = j + 1;
    }
    proof {
        assert(upper_chars(a@) =~= upper_chars(b@));
    }
    true
}

/// Index of the last `/` in `p`, if any.
pub open spec fn spec_last_slash(p: Seq<char>) -> Option<int> {
    if exists|j: int| 0 <= j < p.len() && p[j] == '/' {
        Some(
            choose|j: int|
                0 <= j < p.len() && p[j] == '/' && (forall|k: int|
                    j < k < p.len() ==> p[k] != '/'),
        )
    } else {
        None
    }
}

/// Any index holding the last slash is the one `spec_last_slash` names.
pub proof fn lemma_last_slash_unique(p: Seq<char>, j: int)
    requires
        0 <= j < p.len(),
        p[j] == '/',
        forall|k: int| j < k < p.len() ==> p[k] != '/',
    ensures
        spec_last_slash(p) == Some(j),
{
    assert(0 <= j < p.len() && p[j] == '/');
    let c = choose|i: int|
        0 <= i < p.len() && p[i] == '/' && (forall|k: int| i < k < p.len() ==> p[k] != '/');
    if c < j {
        assert(p[j] != '/');
    } else if c > j {
        assert(p[c] != '/');
    }
}

/// The part of `p` after its last `/`; all of `p` when it has none.
pub open spec fn spec_after_last_slash(p: Seq<char>) -> Seq<char> {
    match spec_last_slash(p) {
        Some(j) => p.subrange(j + 1, p.len() as int),
        None => p,
    }
}

/// Returns the part of `s` after its last `/`, or all of `s`.
pub fn after_last_slash(s: &str) -> (r: String)
    ensures
        r@ == spec_after_last_slash(s@),
{
    let chars = str_to_chars(s);
    let n = chars.len();
    let mut i: usize = n;
    while i > 0
        invariant
            i <= n,
            n == s@.len(),
            chars@ == s@,
            forall|k: int| i <= k < n ==> s@[k] != '/',
        decreases i,
    {
        i = i - 1;
        if chars[i] == '/' {
            proof {
                lemma_last_slash_unique(s@, i as int);
            }
            let mut r = String::new();
            r.append(s.substring_char(i + 1, n));
            proof {
                assert(r@ =~= s@.subrange(i + 1, n as int));
            }
            return r;
        }
    }
    proof {
        if exists|j: int| 0 <= j < s@.len() && s@[j] == '/' {
            let j = choose|j: int| 0 <= j < s@.len() && s@[j] == '/';
            assert(s@[j] != '/');
        }
    }
    s.to_owned()
}

/// Index of the first `/` in `p`, if any.
pub open spec fn spec_first_slash(p: Seq<char>) -> Option<int> {
    if exists|j: int| 0 <= j < p.len() && p[j] == '/' {
        Some(
            choose|j: int|
                0 <= j < p.len() && p[j] == '/' && (forall|k: int| 0 <= k < j ==> p[k] != '/'),
        )
    } else {
        None
    }
}

/// Any index holding the first slash is the one `spec_first_slash` names.
pub proof fn lemma_first_slash_unique(p: Seq<char>, j: int)
    requires
        0 <= j < p.len(),
        p[j] == '/',
        forall|k: int| 0 <= k < j ==> p[k] != '/',
    ensures
        spec_first_slash(p) == Some(j),
{
    assert(0 <= j < p.len() && p[j] == '/');
    let c = choose|i: int|
        0 <= i < p.len() && p[i] == '/' && (forall|k: int| 0 <= k < i ==> p[k] != '/');
    if c < j {
        assert(p[c] != '/');
    } else if c > j {
        assert(p[j] != '/');
    }
}

/// Two strings are equal exactly when their character views are equal.
pub fn str_eq(a: &str, b: &str) -> (r: bool)
    ensures
        r == (a@ =~= b@),
{
    let ac = str_to_chars(a);
    let bc = str_to_chars(b);
    let n = ac.len();
    if n != bc.len() {
        return false;
    }
    let mut j: usize = 0;
    while j < n
        invariant
            n == a@.len(),
            n == b@.len(),
            ac@ == a@,
            bc@ == b@,
            j <= n,
            forall|k: int| 0 <= k < j ==> a@[k] == b@[k],
        decreases n - j,
    {
        if ac[j] != bc[j] {
            return false;
        }
        j = j + 1;
    }
    true
}

} // verus!
