//! Decisions and names of the Boogie backend that do not depend on the bytecode of the
//! functions: the modes of `asserts`, the names of quantifier helpers, the bit-vector widths
//! for which vector functions are generated, and the names of functions in the prelude.

use vstd::prelude::*;

use crate::env::{GlobalEnv, fun_key};
use crate::model::{FunId, QualifiedId};
use crate::text::{decimal, decimal_string, hexadecimal, same_text};

verus! {

/// How `asserts` specifications become Boogie code.
#[derive(Debug, Clone, Copy, PartialEq, Eq, Structural, PartialOrd, Ord, Hash)]
pub enum AssertsMode {
    Check,
    Assume,
    SpecNoAbortCheck,
}

/// The kinds of helper functions generated for quantifiers over vectors and ranges.
#[derive(Debug, Clone, Copy, PartialEq, Eq, Structural, PartialOrd, Ord, Hash)]
pub enum QuantifierHelperType {
    Mapping,
    RangeMap,
    RangeCount,
    RangeSumMap,
    FindIndex,
    FindIndices,
    Filter,
    Count,
    SumMap,
}

/// The prefix of the name of a quantifier helper of kind `qt`.
pub open spec fn quantifier_helper_prefix(qt: QuantifierHelperType) -> Seq<char> {
    match qt {
        QuantifierHelperType::Mapping => "$MapQuantifierHelper_"@,
        QuantifierHelperType::RangeMap => "$RangeMapQuantifierHelper_"@,
        QuantifierHelperType::RangeCount => "$RangeCountQuantifierHelper_"@,
        QuantifierHelperType::RangeSumMap => "$RangeSumMapQuantifierHelper_"@,
        QuantifierHelperType::FindIndex => "$FindIndexQuantifierHelper_"@,
        QuantifierHelperType::FindIndices => "$FindIndicesQuantifierHelper_"@,
        QuantifierHelperType::Filter => "$FilterQuantifierHelper_"@,
        QuantifierHelperType::Count => "$CountQuantifierHelper_"@,
        QuantifierHelperType::SumMap => "$SumMapQuantifierHelper_"@,
    }
}

/// The names of the quantifier helpers of a function tell their kinds apart: for the same
/// function, helpers of two different kinds get different names. Each name is `$`, the kind's
/// own word, `QuantifierHelper_` and the function's name.
pub proof fn lemma_quantifier_helper_names(a: QuantifierHelperType, b: QuantifierHelperType, f: Seq<char>)
    ensures
        a != b ==> quantifier_helper_prefix(a) + f != quantifier_helper_prefix(b) + f,
        quantifier_helper_prefix(QuantifierHelperType::Mapping) == "$MapQuantifierHelper_"@,
        quantifier_helper_prefix(QuantifierHelperType::RangeMap) == "$RangeMapQuantifierHelper_"@,
        quantifier_helper_prefix(QuantifierHelperType::RangeCount)
            == "$RangeCountQuantifierHelper_"@,
        quantifier_helper_prefix(QuantifierHelperType::RangeSumMap)
            == "$RangeSumMapQuantifierHelper_"@,
        quantifier_helper_prefix(QuantifierHelperType::FindIndex)
            == "$FindIndexQuantifierHelper_"@,
        quantifier_helper_prefix(QuantifierHelperType::FindIndices)
            == "$FindIndicesQuantifierHelper_"@,
        quantifier_helper_prefix(QuantifierHelperType::Filter) == "$FilterQuantifierHelper_"@,
        quantifier_helper_prefix(QuantifierHelperType::Count) == "$CountQuantifierHelper_"@,
        quantifier_helper_prefix(QuantifierHelperType::SumMap) == "$SumMapQuantifierHelper_"@,
{
    reveal_strlit("$MapQuantifierHelper_");
    reveal_strlit("$RangeMapQuantifierHelper_");
    reveal_strlit("$RangeCountQuantifierHelper_");
    reveal_strlit("$RangeSumMapQuantifierHelper_");
    reveal_strlit("$FindIndexQuantifierHelper_");
    reveal_strlit("$FindIndicesQuantifierHelper_");
    reveal_strlit("$FilterQuantifierHelper_");
    reveal_strlit("$CountQuantifierHelper_");
    reveal_strlit("$SumMapQuantifierHelper_");
    let pa = quantifier_helper_prefix(a);
    let pb = quantifier_helper_prefix(b);
    if a != b && pa + f == pb + f {
        assert((pa + f).len() == (pb + f).len());
        assert(pa.len() == pb.len());
        assert(pa =~= (pa + f).subrange(0, pa.len() as int));
        assert(pb =~= (pb + f).subrange(0, pb.len() as int));
        assert(pa[1] == pb[1]);
    }
}

/// The name of the quantifier helper of kind `qt` for the function `function_name`.
pub fn get_quantifier_helper_name(qt: QuantifierHelperType, function_name: &str) -> (r: String)
    ensures
        r@ == quantifier_helper_prefix(qt) + function_name@,
{
    let prefix = match qt {
        QuantifierHelperType::Mapping => "$MapQuantifierHelper_",
        QuantifierHelperType::RangeMap => "$RangeMapQuantifierHelper_",
        QuantifierHelperType::RangeCount => "$RangeCountQuantifierHelper_",
        QuantifierHelperType::RangeSumMap => "$RangeSumMapQuantifierHelper_",
        QuantifierHelperType::FindIndex => "$FindIndexQuantifierHelper_",
        QuantifierHelperType::FindIndices => "$FindIndicesQuantifierHelper_",
        QuantifierHelperType::Filter => "$FilterQuantifierHelper_",
        QuantifierHelperType::Count => "$CountQuantifierHelper_",
        QuantifierHelperType::SumMap => "$SumMapQuantifierHelper_",
    };
    String::from_str(prefix).concat(function_name)
}

/// Information on one bit-vector width, for generating vector functions over it.
#[derive(Debug, Clone, PartialEq, Eq, PartialOrd, Ord, Default)]
pub struct BvInfo {
    pub base: usize,
    pub max: String,
}

/// The largest value of 256 bits, in decimal.
pub open spec fn u256_max_decimal() -> Seq<char> {
    "115792089237316195423570985008687907853269984665640564039457584007913129639935"@
}

/// The bit-vector widths, in this order.
pub open spec fn bv_bases() -> Seq<usize> {
    seq![8usize, 16usize, 32usize, 64usize, 128usize, 256usize]
}

/// The largest value of each width up to 128 bits.
pub open spec fn bv_max(base: usize) -> nat {
    if base == 8 {
        u8::MAX as nat
    } else if base == 16 {
        u16::MAX as nat
    } else if base == 32 {
        u32::MAX as nat
    } else if base == 64 {
        u64::MAX as nat
    } else {
        u128::MAX as nat
    }
}

/// The bit-vector widths start at 8 bits and double up to 256; the largest value of each
/// width up to 128 bits is one below two to the power of the width.
pub proof fn lemma_bv_widths()
    ensures
        bv_bases().len() == 6,
        bv_bases()[0] == 8,
        forall|i: int| 0 <= i < 5 ==> #[trigger] bv_bases()[i + 1] == 2 * bv_bases()[i],
        bv_max(8) + 1 == 0x100,
        bv_max(16) + 1 == 0x1_0000,
        bv_max(32) + 1 == 0x1_0000_0000,
        bv_max(64) + 1 == 0x1_0000_0000_0000_0000,
        bv_max(128) + 1 == 0x1_0000_0000_0000_0000_0000_0000_0000_0000,
{
    assert forall|i: int| 0 <= i < 5 implies #[trigger] bv_bases()[i + 1] == 2 * bv_bases()[i] by {
        assert(i == 0 || i == 1 || i == 2 || i == 3 || i == 4);
    }
}

/// Help generating vector functions for bv types: for each width its base and, in decimal,
/// its largest value.
pub fn bv_helper() -> (r: Vec<BvInfo>)
    ensures
        r@.len() == 6,
        forall|i: int| 0 <= i < 6 ==> (#[trigger] r@[i]).base == bv_bases()[i],
        forall|i: int| 0 <= i < 5 ==> (#[trigger] r@[i]).max@ == decimal(bv_max(bv_bases()[i])),
        r@[5].max@ == u256_max_decimal(),
{
    let mut bv_info: Vec<BvInfo> = Vec::new();
    let bv_8 = BvInfo { base: 8, max: decimal_string(u8::MAX as u128) };
    bv_info.push(bv_8);
    let bv_16 = BvInfo { base: 16, max: decimal_string(u16::MAX as u128) };
    bv_info.push(bv_16);
    let bv_32 = BvInfo { base: 32, max: decimal_string(u32::MAX as u128) };
    bv_info.push(bv_32);
    let bv_64 = BvInfo { base: 64, max: decimal_string(u64::MAX as u128) };
    bv_info.push(bv_64);
    let bv_128 = BvInfo { base: 128, max: decimal_string(u128::MAX) };
    bv_info.push(bv_128);
    let bv_256 = BvInfo {
        base: 256,
        max: String::from_str(
            "115792089237316195423570985008687907853269984665640564039457584007913129639935",
        ),
    };
    bv_info.push(bv_256);
    bv_info
}

/// The name of a triple of functions of the prover's `vector_iter` module for the prelude:
/// none where there is none, else `$`, the address of the module of the function in
/// hexadecimal, `_`, the name of the module and `_`, the name of the function.
pub open spec fn triple_name(env: &GlobalEnv, triple_opt: Option<QualifiedId<FunId>>) -> Seq<char> {
    match triple_opt {
        None => Seq::empty(),
        Some(q) => {
            let m = env.module_data@[q.module_id@ as int];
            "$"@ + hexadecimal(m.address@) + "_"@ + env.symbol_pool@[m.name@ as int] + "_"@
                + env.symbol_pool@[q.id@@ as int]
        },
    }
}

/// Names the function `triple_opt` for the prelude: `$`, the address of its module in
/// hexadecimal, `_`, the name of its module, `_` and its name; empty where there is no
/// function. The function must be one of the environment.
pub fn triple_opt_to_name(env: &GlobalEnv, triple_opt: Option<QualifiedId<FunId>>) -> (r: String)
    requires
        env.wf(),
        triple_opt matches Some(q) ==> env.has_function(q),
    ensures
        r@ == triple_name(env, triple_opt),
{
    match triple_opt {
        Some(q) => {
            let fun = env.get_function(q);
            proof {
                assert(fun_key(fun.data()) == q);
            }
            let m = fun.module_env();
            String::from_str("$").concat(m.get_address().to_hex_string().as_str()).concat("_").concat(
                m.get_name_str().as_str(),
            ).concat("_").concat(fun.get_name_str().as_str())
        },
        None => String::new(),
    }
}

/// The texts of `s`.
pub open spec fn texts(s: Seq<&str>) -> Seq<Seq<char>> {
    s.map_values(|t: &str| t@)
}

/// The texts of `s`, each once, in the order in which they first occur.
pub open spec fn first_occurrences(s: Seq<Seq<char>>) -> Seq<Seq<char>>
    decreases s.len(),
{
    if s.len() == 0 {
        Seq::empty()
    } else {
        let firsts = first_occurrences(s.drop_last());
        if firsts.contains(s.last()) {
            firsts
        } else {
            firsts.push(s.last())
        }
    }
}

/// `first_occurrences` keeps each text of `s` and adds no other, and holds no text twice.
pub proof fn lemma_first_occurrences(s: Seq<Seq<char>>)
    ensures
        forall|t: Seq<char>| first_occurrences(s).contains(t) <==> s.contains(t),
        first_occurrences(s).no_duplicates(),
    decreases s.len(),
{
    if s.len() > 0 {
        let init = s.drop_last();
        lemma_first_occurrences(init);
        let firsts = first_occurrences(init);
        let last = s.last();
        assert forall|t: Seq<char>| first_occurrences(s).contains(t) <==> s.contains(t) by {
            if s.contains(t) {
                let i = choose|i: int| 0 <= i < s.len() && s[i] == t;
                if i < s.len() - 1 {
                    assert(init[i] == t);
                    assert(init.contains(t));
                    assert(firsts.contains(t));
                    let j = choose|j: int| 0 <= j < firsts.len() && firsts[j] == t;
                    if !firsts.contains(last) {
                        assert(firsts.push(last)[j] == t);
                    }
                } else if !firsts.contains(last) {
                    assert(firsts.push(last)[firsts.len() as int] == t);
                }
            }
            if first_occurrences(s).contains(t) {
                if firsts.contains(t) {
                    assert(init.contains(t));
                    let i = choose|i: int| 0 <= i < init.len() && init[i] == t;
                    assert(s[i] == t);
                } else {
                    let j = choose|j: int|
                        0 <= j < firsts.push(last).len() && firsts.push(last)[j] == t;
                    if j < firsts.len() {
                        assert(firsts[j] == t);
                    }
                    assert(t == last);
                    assert(s[s.len() - 1] == t);
                }
            }
        }
    }
}

/// The extra Boogie contents that follow the prelude, as they are emitted: each content once,
/// in the order in which it first occurs.
pub fn distinct_extra_bpl<'a>(contents: &[&'a str]) -> (r: Vec<&'a str>)
    ensures
        texts(r@) == first_occurrences(texts(contents@)),
{
    let mut r: Vec<&'a str> = Vec::new();
    let n = contents.len();
    let mut i: usize = 0;
    while i < n
        invariant
            n == contents@.len(),
            i <= n,
            texts(r@) == first_occurrences(texts(contents@.take(i as int))),
        decreases n - i,
    {
        let c = contents[i];
        let mut found = false;
        let mut k: usize = 0;
        while k < r.len()
            invariant
                k <= r@.len(),
                found <==> exists|j: int| 0 <= j < k && (#[trigger] r@[j])@ == c@,
            decreases r@.len() - k,
        {
            if same_text(r[k], c) {
                found = true;
            }
            k = k + 1;
        }
        let ghost before = texts(contents@.take(i as int));
        let ghost after = texts(contents@.take(i + 1));
        proof {
            assert(after.drop_last() =~= before);
            assert(after.last() == c@);
            if found {
                let j = choose|j: int| 0 <= j < k && (#[trigger] r@[j])@ == c@;
                assert(texts(r@)[j] == c@);
            }
            if texts(r@).contains(c@) {
                let j = choose|j: int| 0 <= j < texts(r@).len() && texts(r@)[j] == c@;
                assert(r@[j]@ == c@);
            }
        }
        if !found {
            r.push(c);
            proof {
                assert(texts(r@) =~= first_occurrences(before).push(c@));
            }
        }
        i = i + 1;
    }
    proof {
        assert(contents@.take(n as int) =~= contents@);
    }
    r
}

} // verus!
