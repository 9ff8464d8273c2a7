use vstd::prelude::*;

use crate::derive::{derive_outcome, has_foreign_attr};
use crate::diagnostic::{
    conflicting_layout_text, expected_diagnostics, foreign_attribute_text, joined_names, mentions,
    missing_layout_text, Anchor,
};
use crate::error::DeriveError;
use crate::layout::{hint_count, hints_before, is_hint_at, lemma_hint_counted, ReprHint};
use crate::model::{path_is, EnumDecl};
use crate::prim::{canonical_prims, lemma_first_named_has_name, PrimInt};
use crate::variants::{lemma_all_tagged, lemma_untagged_upto, untagged};

verus! {

/// A word found in `x` is still found once text is added on either side.
pub proof fn lemma_mentions_extend(x: Seq<char>, w: Seq<char>, pre: Seq<char>, post: Seq<char>)
    requires
        mentions(x, w),
    ensures
        mentions(pre + x + post, w),
{
    let i = choose|i: int|
        0 <= i && i + w.len() <= x.len() && #[trigger] x.subrange(i, i + w.len()) == w;
    let t = pre + x + post;
    assert(t.subrange(pre.len() + i, pre.len() + i + w.len()) =~= w);
}

/// Every name joined into the list can be found in it.
pub proof fn lemma_joined_mentions_each(ps: Seq<PrimInt>, k: int)
    requires
        0 <= k < ps.len(),
    ensures
        mentions(joined_names(ps), ps[k].spec_name()),
    decreases ps.len(),
{
    let w = ps[k].spec_name();
    if ps.len() == 1 {
        let i: int = 0;
        assert(joined_names(ps) == w);
        assert(joined_names(ps).subrange(i, i + w.len()) =~= w);
    } else if k == ps.len() - 1 {
        let t = joined_names(ps);
        let start = t.len() - w.len();
        assert(t.subrange(start, start + w.len()) =~= w);
    } else {
        lemma_joined_mentions_each(ps.drop_last(), k);
        lemma_mentions_extend(
            joined_names(ps.drop_last()),
            w,
            Seq::empty(),
            ", "@ + ps.last().spec_name(),
        );
        assert(Seq::<char>::empty() + joined_names(ps.drop_last()) + (", "@
            + ps.last().spec_name()) =~= joined_names(ps));
    }
}

/// A declaration with exactly one primitive-bearing `repr` item, every
/// variant tagged and no attribute but `repr` is accepted, and the derived
/// implementation binds exactly the primitive written in that item.
pub proof fn law_well_formed_declaration_is_accepted(
    d: EnumDecl,
    r: Result<ReprHint, DeriveError>,
)
    requires
        hint_count(d.attrs@) == 1,
        forall|v: int| 0 <= v < d.variants@.len() ==> (#[trigger] d.variants@[v]).has_tag,
        forall|k: int| 0 <= k < d.attrs@.len() ==> (#[trigger] d.attrs@[k]).spec_is_repr(),
        derive_outcome(d, r),
    ensures
        r matches Ok(h) && is_hint_at(d.attrs@, h.attr as int, h.item as int) && path_is(
            d.attrs@[h.attr as int].args@[h.item as int],
            h.prim.spec_name(),
        ),
{
    lemma_all_tagged(d.variants@, d.variants@.len() as int);
    if let Err(DeriveError::ConflictingLayout { attr, item }) = r {
        lemma_hint_counted(d.attrs@, attr as int, item as int);
    }
    if let Ok(h) = r {
        let id = d.attrs@[h.attr as int].args@[h.item as int]->Some_0;
        lemma_first_named_has_name(id@, 0);
    }
}

/// A declaration whose `repr` attributes name no integer primitive is
/// refused with one diagnostic on its identifier that lists all ten
/// accepted primitives.
pub proof fn law_missing_layout_lists_all_primitives(d: EnumDecl, r: Result<ReprHint, DeriveError>)
    requires
        hint_count(d.attrs@) == 0,
        derive_outcome(d, r),
    ensures
        r == Err::<ReprHint, DeriveError>(DeriveError::MissingLayout),
        expected_diagnostics(DeriveError::MissingLayout) == seq![
            (Anchor::Ident, missing_layout_text()),
        ],
        forall|k: int|
            0 <= k < canonical_prims().len() ==> mentions(
                missing_layout_text(),
                #[trigger] canonical_prims()[k].spec_name(),
            ),
{
    if let Err(DeriveError::ConflictingLayout { attr, item }) = r {
        lemma_hint_counted(d.attrs@, attr as int, item as int);
    }
    assert forall|k: int| 0 <= k < canonical_prims().len() implies mentions(
        missing_layout_text(),
        #[trigger] canonical_prims()[k].spec_name(),
    ) by {
        lemma_joined_mentions_each(canonical_prims(), k);
        lemma_mentions_extend(
            joined_names(canonical_prims()),
            canonical_prims()[k].spec_name(),
            "Discriminant requires a `#[repr(x)]` where x is one of "@,
            "."@,
        );
    }
}

/// A declaration with two or more primitive-bearing `repr` items, in one
/// attribute or several, is refused as conflicting, at the second such item.
pub proof fn law_two_primitives_conflict(d: EnumDecl, r: Result<ReprHint, DeriveError>)
    requires
        hint_count(d.attrs@) >= 2,
        derive_outcome(d, r),
    ensures
        r matches Err(DeriveError::ConflictingLayout { attr, item }) && is_hint_at(
            d.attrs@,
            attr as int,
            item as int,
        ) && hints_before(d.attrs@, attr as int, item as int) == 1,
        mentions(conflicting_layout_text(), "conflicting"@),
{
    reveal_strlit("conflicting representation hints");
    reveal_strlit("conflicting");
    let i: int = 0;
    assert(conflicting_layout_text().subrange(i, i + "conflicting"@.len()) =~= "conflicting"@);
}

/// Once the layout hint is sound, a declaration in which some variants lack
/// a tag is refused with one diagnostic per such variant, each on its own
/// variant, in source order.
pub proof fn law_each_untagged_variant_reported(d: EnumDecl, r: Result<ReprHint, DeriveError>)
    requires
        hint_count(d.attrs@) == 1,
        d.variants@.len() <= usize::MAX,
        exists|v: int| 0 <= v < d.variants@.len() && !(#[trigger] d.variants@[v]).has_tag,
        derive_outcome(d, r),
    ensures
        r matches Err(DeriveError::MissingTag { variants }) && {
            let ds = expected_diagnostics(DeriveError::MissingTag { variants });
            &&& forall|v: int|
                0 <= v < d.variants@.len() ==> (!(#[trigger] d.variants@[v]).has_tag <==> exists|
                    m: int,
                | 0 <= m < ds.len() && #[trigger] ds[m].0 == Anchor::Variant(v as usize))
            &&& forall|m: int, n: int| 0 <= m < n < ds.len() ==> ds[m].0 != ds[n].0
            &&& forall|m: int|
                0 <= m < ds.len() ==> ((#[trigger] ds[m]).0 matches Anchor::Variant(v) && v
                    < d.variants@.len())
        },
{
    let vs = d.variants@;
    lemma_untagged_upto(vs, vs.len() as int);
    let w = choose|v: int| 0 <= v < vs.len() && !(#[trigger] vs[v]).has_tag;
    assert(untagged(vs).contains(w as usize));
    if let Err(DeriveError::ConflictingLayout { attr, item }) = r {
        lemma_hint_counted(d.attrs@, attr as int, item as int);
    }
    if let Err(DeriveError::MissingTag { variants }) = r {
        let ds = expected_diagnostics(DeriveError::MissingTag { variants });
        assert forall|v: int| 0 <= v < vs.len() implies (!(#[trigger] vs[v]).has_tag <==> exists|
            m: int,
        | 0 <= m < ds.len() && #[trigger] ds[m].0 == Anchor::Variant(v as usize)) by {
            if !vs[v].has_tag {
                let m = choose|m: int| 0 <= m < variants@.len() && variants@[m] == v as usize;
                assert(ds[m].0 == Anchor::Variant(v as usize));
            }
            if exists|m: int| 0 <= m < ds.len() && #[trigger] ds[m].0 == Anchor::Variant(v as usize) {
                let m = choose|m: int| 0 <= m < ds.len() && #[trigger] ds[m].0 == Anchor::Variant(v as usize);
                assert(variants@[m] == v as usize);
            }
        }
        assert forall|m: int, n: int| 0 <= m < n < ds.len() implies ds[m].0 != ds[n].0 by {
            assert(variants@[m] < variants@[n]);
        }
    }
}

/// Once the layout hint and the tags are sound, any attribute other than
/// `repr` on the declaration, wherever it stands among the attributes, has
/// the declaration refused with the foreign-attribute message.
pub proof fn law_foreign_attribute_refused(d: EnumDecl, r: Result<ReprHint, DeriveError>)
    requires
        hint_count(d.attrs@) == 1,
        forall|v: int| 0 <= v < d.variants@.len() ==> (#[trigger] d.variants@[v]).has_tag,
        exists|k: int| 0 <= k < d.attrs@.len() && !(#[trigger] d.attrs@[k]).spec_is_repr(),
        derive_outcome(d, r),
    ensures
        r == Err::<ReprHint, DeriveError>(DeriveError::ForeignAttribute),
        expected_diagnostics(DeriveError::ForeignAttribute) == seq![
            (Anchor::Ident, foreign_attribute_text()),
        ],
{
    lemma_all_tagged(d.variants@, d.variants@.len() as int);
    assert(has_foreign_attr(d.attrs@));
    if let Err(DeriveError::ConflictingLayout { attr, item }) = r {
        lemma_hint_counted(d.attrs@, attr as int, item as int);
    }
}

} // verus!
