use vstd::prelude::*;

use crate::model::VariantDecl;

verus! {

/// The positions, in source order, of the variants among the first `n`
/// that have no explicit discriminant.
pub open spec fn untagged_upto(vs: Seq<VariantDecl>, n: int) -> Seq<usize>
    decreases n,
{
    if n <= 0 {
        Seq::empty()
    } else if !vs[n - 1].has_tag {
        untagged_upto(vs, n - 1).push((n - 1) as usize)
    } else {
        untagged_upto(vs, n - 1)
    }
}

/// The positions, in source order, of all the variants that have no
/// explicit discriminant.
pub open spec fn untagged(vs: Seq<VariantDecl>) -> Seq<usize> {
    untagged_upto(vs, vs.len() as int)
}

/// The positions listed among the first `n` variants are strictly
/// increasing, below `n`, and are exactly those of the untagged variants.
pub proof fn lemma_untagged_upto(vs: Seq<VariantDecl>, n: int)
    requires
        0 <= n <= vs.len(),
        vs.len() <= usize::MAX,
    ensures
        forall|a: int, b: int|
            0 <= a < b < untagged_upto(vs, n).len() ==> untagged_upto(vs, n)[a]
                < untagged_upto(vs, n)[b],
        forall|a: int|
            0 <= a < untagged_upto(vs, n).len() ==> {
                &&& #[trigger] untagged_upto(vs, n)[a] < n
                &&& !vs[untagged_upto(vs, n)[a] as int].has_tag
            },
        forall|v: int|
            0 <= v < n && !(#[trigger] vs[v]).has_tag ==> untagged_upto(vs, n).contains(v as usize),
    decreases n,
{
    if n > 0 {
        lemma_untagged_upto(vs, n - 1);
        let prev = untagged_upto(vs, n - 1);
        let cur = untagged_upto(vs, n);
        assert forall|v: int| 0 <= v < n && !(#[trigger] vs[v]).has_tag implies cur.contains(
            v as usize,
        ) by {
            if v < n - 1 {
                let m = choose|m: int| 0 <= m < prev.len() && prev[m] == v as usize;
                assert(cur[m] == v as usize);
            } else {
                assert(cur[cur.len() - 1] == v as usize);
            }
        }
    }
}

/// With every variant tagged, none is reported.
pub proof fn lemma_all_tagged(vs: Seq<VariantDecl>, n: int)
    requires
        forall|v: int| 0 <= v < vs.len() ==> (#[trigger] vs[v]).has_tag,
        n <= vs.len(),
    ensures
        untagged_upto(vs, n).len() == 0,
    decreases n,
{
    if n > 0 {
        lemma_all_tagged(vs, n - 1);
    }
}

/// Collects every variant that lacks an explicit discriminant, so that all
/// of them are reported together.
pub fn validate_all_variants(variants: &Vec<VariantDecl>) -> (r: Vec<usize>)
    ensures
        r@ == untagged(variants@),
{
    let mut r: Vec<usize> = Vec::new();
    let mut k: usize = 0;
    while k < variants.len()
        invariant
            0 <= k <= variants@.len(),
            r@ == untagged_upto(variants@, k as int),
        decreases variants@.len() - k,
    {
        if !variants[k].has_tag {
            r.push(k);
        }
        k += 1;
    }
    r
}

} // verus!
