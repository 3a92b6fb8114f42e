//! Reading quantization markers out of model and file names: the first
//! recognised marker a file name carries, and a summary of how many
//! distinct markers a model name mentions.

use vstd::prelude::*;
use vstd::string::StringExecFns;

use crate::textutil::contains_chars_ci;
use crate::textutil::contains_ci;
use crate::textutil::dec_rep;
use crate::textutil::u64_to_string;

verus! {

/// The recognised quantization markers, in recognition order.
pub open spec fn quant_patterns() -> Seq<Seq<char>> {
    seq![
        "Q2_K"@,
        "Q3_K_S"@,
        "Q3_K_M"@,
        "Q3_K_L"@,
        "Q4_0"@,
        "Q4_1"@,
        "Q4_K_S"@,
        "Q4_K_M"@,
        "Q5_0"@,
        "Q5_1"@,
        "Q5_K_S"@,
        "Q5_K_M"@,
        "Q6_K"@,
        "Q8_0"@,
        "IQ1_S"@,
        "IQ1_M"@,
        "IQ2_XXS"@,
        "IQ2_XS"@,
        "IQ2_S"@,
        "IQ2_M"@,
        "IQ3_XXS"@,
        "IQ3_XS"@,
        "IQ3_S"@,
        "IQ3_M"@,
        "IQ4_XS"@,
        "IQ4_NL"@,
        "F16"@,
        "F32"@
    ]
}

/// The first pattern of `pats` that occurs in `name` (without regard to
/// ASCII case).
pub open spec fn first_match(name: Seq<char>, pats: Seq<Seq<char>>) -> Option<Seq<char>>
    decreases pats.len(),
{
    if pats.len() == 0 {
        None
    } else if contains_chars_ci(name, pats[0]) {
        Some(pats[0])
    } else {
        first_match(name, pats.drop_first())
    }
}

/// How many patterns of `pats` occur in `name`.
pub open spec fn count_matches(name: Seq<char>, pats: Seq<Seq<char>>) -> int
    decreases pats.len(),
{
    if pats.len() == 0 {
        0
    } else {
        count_matches(name, pats.drop_last()) + (if contains_chars_ci(name, pats.last()) {
            1int
        } else {
            0int
        })
    }
}

/// The first recognised quantization marker in `name`.
pub open spec fn spec_extract_quantization(name: Seq<char>) -> Option<Seq<char>> {
    first_match(name, quant_patterns())
}

/// How many recognised quantization markers occur in `name`.
pub open spec fn spec_quant_match_count(name: Seq<char>) -> int {
    count_matches(name, quant_patterns())
}

/// Extending the pattern list keeps an earlier first match, and otherwise
/// adopts the new pattern when it occurs in the name.
proof fn lemma_first_match_push(name: Seq<char>, pats: Seq<Seq<char>>, p: Seq<char>)
    ensures
        first_match(name, pats.push(p)) == (match first_match(name, pats) {
            Some(x) => Some(x),
            None => if contains_chars_ci(name, p) {
                Some(p)
            } else {
                None::<Seq<char>>
            },
        }),
    decreases pats.len(),
{
    if pats.len() == 0 {
        assert(pats.push(p)[0] == p);
        assert(pats.push(p).drop_first() =~= Seq::<Seq<char>>::empty());
        assert(first_match(name, pats) is None);
        if contains_chars_ci(name, p) {
            assert(first_match(name, pats.push(p)) == Some(p));
        } else {
            assert(first_match(name, pats.push(p).drop_first()) is None);
            assert(first_match(name, pats.push(p)) is None);
        }
    } else {
        assert(pats.push(p)[0] == pats[0]);
        lemma_first_match_push(name, pats.drop_first(), p);
        assert(pats.push(p).drop_first() =~= pats.drop_first().push(p));
        if contains_chars_ci(name, pats[0]) {
            assert(first_match(name, pats) == Some(pats[0]));
            assert(first_match(name, pats.push(p)) == Some(pats[0]));
        } else {
            assert(first_match(name, pats) == first_match(name, pats.drop_first()));
            assert(first_match(name, pats.push(p)) == first_match(name, pats.drop_first().push(p)));
        }
    }
}

/// The recognised markers as an executable list.
fn quant_pattern_list() -> (v: Vec<&'static str>)
    ensures
        v@.len() == quant_patterns().len(),
        forall|i: int| 0 <= i < v@.len() ==> (#[trigger] v@[i])@ == quant_patterns()[i],
{
    let mut v: Vec<&'static str> = Vec::new();
    v.push("Q2_K");
    v.push("Q3_K_S");
    v.push("Q3_K_M");
    v.push("Q3_K_L");
    v.push("Q4_0");
    v.push("Q4_1");
    v.push("Q4_K_S");
    v.push("Q4_K_M");
    v.push("Q5_0");
    v.push("Q5_1");
    v.push("Q5_K_S");
    v.push("Q5_K_M");
    v.push("Q6_K");
    v.push("Q8_0");
    v.push("IQ1_S");
    v.push("IQ1_M");
    v.push("IQ2_XXS");
    v.push("IQ2_XS");
    v.push("IQ2_S");
    v.push("IQ2_M");
    v.push("IQ3_XXS");
    v.push("IQ3_XS");
    v.push("IQ3_S");
    v.push("IQ3_M");
    v.push("IQ4_XS");
    v.push("IQ4_NL");
    v.push("F16");
    v.push("F32");
    proof {
        assert(v@[0]@ == quant_patterns()[0]);
        assert(v@[1]@ == quant_patterns()[1]);
        assert(v@[2]@ == quant_patterns()[2]);
        assert(v@[3]@ == quant_patterns()[3]);
        assert(v@[4]@ == quant_patterns()[4]);
        assert(v@[5]@ == quant_patterns()[5]);
        assert(v@[6]@ == quant_patterns()[6]);
        assert(v@[7]@ == quant_patterns()[7]);
        assert(v@[8]@ == quant_patterns()[8]);
        assert(v@[9]@ == quant_patterns()[9]);
        assert(v@[10]@ == quant_patterns()[10]);
        assert(v@[11]@ == quant_patterns()[11]);
        assert(v@[12]@ == quant_patterns()[12]);
        assert(v@[13]@ == quant_patterns()[13]);
        assert(v@[14]@ == quant_patterns()[14]);
        assert(v@[15]@ == quant_patterns()[15]);
        assert(v@[16]@ == quant_patterns()[16]);
        assert(v@[17]@ == quant_patterns()[17]);
        assert(v@[18]@ == quant_patterns()[18]);
        assert(v@[19]@ == quant_patterns()[19]);
        assert(v@[20]@ == quant_patterns()[20]);
        assert(v@[21]@ == quant_patterns()[21]);
        assert(v@[22]@ == quant_patterns()[22]);
        assert(v@[23]@ == quant_patterns()[23]);
        assert(v@[24]@ == quant_patterns()[24]);
        assert(v@[25]@ == quant_patterns()[25]);
        assert(v@[26]@ == quant_patterns()[26]);
        assert(v@[27]@ == quant_patterns()[27]);
    }
    v
}

/// The quantization marker a file name carries, if a recognised one
/// occurs in it.
pub fn extract_quantization(filename: &str) -> (r: Option<String>)
    ensures
        match r {
            Some(s) => spec_extract_quantization(filename@) == Some(s@),
            None => spec_extract_quantization(filename@) is None,
        },
{
    let pats = quant_pattern_list();
    let n = pats.len();
    let mut i: usize = 0;
    proof {
        assert(quant_patterns().subrange(0, 0) =~= Seq::<Seq<char>>::empty());
    }
    while i < n
        invariant
            i <= n,
            n == quant_patterns().len(),
            pats@.len() == n,
            forall|j: int| 0 <= j < n ==> (#[trigger] pats@[j])@ == quant_patterns()[j],
            first_match(filename@, quant_patterns().subrange(0, i as int)) is None,
        decreases n - i,
    {
        let hit = contains_ci(filename, pats[i]);
        proof {
            lemma_first_match_push(
                filename@,
                quant_patterns().subrange(0, i as int),
                quant_patterns()[i as int],
            );
            assert(quant_patterns().subrange(0, i as int).push(quant_patterns()[i as int])
                =~= quant_patterns().subrange(0, i + 1));
        }
        if hit {
            proof {
                assert(quant_patterns().subrange(0, n as int) =~= quant_patterns());
                lemma_first_match_frozen(
                    filename@,
                    quant_patterns(),
                    i + 1,
                );
            }
            return Some(pats[i].to_owned());
        }
        i = i + 1;
    }
    proof {
        assert(quant_patterns().subrange(0, n as int) =~= quant_patterns());
    }
    None
}

/// Once a prefix of the pattern list has produced a match, the rest of
/// the list does not change it.
proof fn lemma_first_match_frozen(name: Seq<char>, pats: Seq<Seq<char>>, i: int)
    requires
        0 < i <= pats.len(),
        first_match(name, pats.subrange(0, i)) is Some,
    ensures
        first_match(name, pats) == first_match(name, pats.subrange(0, i)),
    decreases pats.len() - i,
{
    if i == pats.len() {
        assert(pats.subrange(0, i) =~= pats);
    } else {
        lemma_first_match_push(name, pats.subrange(0, i), pats[i]);
        assert(pats.subrange(0, i).push(pats[i]) =~= pats.subrange(0, i + 1));
        lemma_first_match_frozen(name, pats, i + 1);
    }
}

/// Summarises the quantization markers a model name mentions: the one
/// marker when exactly one occurs, a variant count when several do.
pub fn extract_quant_info(model_name: &str) -> (r: Option<String>)
    ensures
        ({
            let c = spec_quant_match_count(model_name@);
            match r {
                None => c == 0,
                Some(s) => c > 0 && (if c == 1 {
                    Some(s@) == spec_extract_quantization(model_name@)
                } else {
                    s@ == dec_rep(c as nat) + " variants"@
                }),
            }
        }),
{
    let pats = quant_pattern_list();
    let n = pats.len();
    let mut count: u64 = 0;
    let mut first: Option<&'static str> = None;
    let mut i: usize = 0;
    proof {
        assert(quant_patterns().subrange(0, 0) =~= Seq::<Seq<char>>::empty());
    }
    while i < n
        invariant
            i <= n,
            n == quant_patterns().len(),
            pats@.len() == n,
            forall|j: int| 0 <= j < n ==> (#[trigger] pats@[j])@ == quant_patterns()[j],
            count <= i,
            count == count_matches(model_name@, quant_patterns().subrange(0, i as int)),
            match first {
                Some(s) => first_match(model_name@, quant_patterns().subrange(0, i as int))
                    == Some(s@),
                None => first_match(model_name@, quant_patterns().subrange(0, i as int)) is None,
            },
            (first is None) ==> count == 0,
            (first is Some) ==> count > 0,
        decreases n - i,
    {
        let hit = contains_ci(model_name, pats[i]);
        proof {
            lemma_first_match_push(
                model_name@,
                quant_patterns().subrange(0, i as int),
                quant_patterns()[i as int],
            );
            assert(quant_patterns().subrange(0, i as int).push(quant_patterns()[i as int])
                =~= quant_patterns().subrange(0, i + 1));
            assert(quant_patterns().subrange(0, i + 1).drop_last() =~= quant_patterns().subrange(
                0,
                i as int,
            ));
            assert(quant_patterns().subrange(0, i + 1).last() == quant_patterns()[i as int]);
        }
        if hit {
            count = count + 1;
            if first.is_none() {
                first = Some(pats[i]);
            }
        }
        i = i + 1;
    }
    proof {
        assert(quant_patterns().subrange(0, n as int) =~= quant_patterns());
    }
    if count == 0 {
        None
    } else if count == 1 {
        match first {
            Option::Some(p) => Some(p.to_owned()),
            Option::None => None,
        }
    } else {
        let mut s = u64_to_string(count);
        s.append(" variants");
        Some(s)
    }
}

} // verus!
