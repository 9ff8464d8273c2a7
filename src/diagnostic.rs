use vstd::prelude::*;

use crate::error::DeriveError;
use crate::prim::{canonical_order, canonical_prims, PrimInt};

verus! {

/// Where in the declaration a diagnostic points.
#[derive(Clone, Copy, Debug, PartialEq, Eq, Structural)]
pub enum Anchor {
    /// The enum's identifier.
    Ident,
    /// Nested item `item` of attribute `attr`.
    MetaItem { attr: usize, item: usize },
    /// The whole variant at this position.
    Variant(usize),
}

/// One message for the user, with the place it points at.
pub struct Diagnostic {
    pub anchor: Anchor,
    pub message: String,
}

/// The names of `ps`, in order, separated by a comma and a space.
pub open spec fn joined_names(ps: Seq<PrimInt>) -> Seq<char>
    decreases ps.len(),
{
    if ps.len() == 0 {
        Seq::empty()
    } else if ps.len() == 1 {
        ps[0].spec_name()
    } else {
        joined_names(ps.drop_last()) + ", "@ + ps.last().spec_name()
    }
}

/// The message for a declaration without a primitive layout hint.
pub open spec fn missing_layout_text() -> Seq<char> {
    "Discriminant requires a `#[repr(x)]` where x is one of "@ + joined_names(canonical_prims())
        + "."@
}

pub open spec fn conflicting_layout_text() -> Seq<char> {
    "conflicting representation hints"@
}

pub open spec fn missing_tag_text() -> Seq<char> {
    "Missing explicit discriminant. Note: If you want to reason about discriminants, but do not care about concrete values, consider using `core::mem::Discriminant` instead."@
}

pub open spec fn foreign_attribute_text() -> Seq<char> {
    "Discriminant is not compatible with any top-level `#[attr]` except `#[repr(_)]`."@
}

/// Whether `word` occurs in `text`.
pub open spec fn mentions(text: Seq<char>, word: Seq<char>) -> bool {
    exists|i: int|
        0 <= i && i + word.len() <= text.len() && #[trigger] text.subrange(i, i + word.len())
            == word
}

/// The anchors and messages reported for `e`, in order.
pub open spec fn expected_diagnostics(e: DeriveError) -> Seq<(Anchor, Seq<char>)> {
    match e {
        DeriveError::MissingLayout => seq![(Anchor::Ident, missing_layout_text())],
        DeriveError::ConflictingLayout { attr, item } => seq![
            (Anchor::MetaItem { attr, item }, conflicting_layout_text()),
        ],
        DeriveError::MissingTag { variants } => Seq::new(
            variants@.len(),
            |k: int| (Anchor::Variant(variants@[k]), missing_tag_text()),
        ),
        DeriveError::ForeignAttribute => seq![(Anchor::Ident, foreign_attribute_text())],
    }
}

/// Builds the message for a declaration without a primitive layout hint.
pub fn missing_layout_message() -> (r: String)
    ensures
        r@ == missing_layout_text(),
{
    let prims = canonical_order();
    let mut names = String::new();
    let mut k: usize = 0;
    while k < prims.len()
        invariant
            prims@ == canonical_prims(),
            0 <= k <= prims@.len(),
            names@ == joined_names(prims@.take(k as int)),
        decreases prims@.len() - k,
    {
        proof {
            assert(prims@.take(k + 1).drop_last() =~= prims@.take(k as int));
        }
        if k > 0 {
            names.append(", ");
        }
        names.append(prims[k].name());
        k += 1;
    }
    assert(prims@.take(prims@.len() as int) =~= prims@);
    let mut r = String::from_str("Discriminant requires a `#[repr(x)]` where x is one of ");
    r.append(names.as_str());
    r.append(".");
    r
}

impl DeriveError {
    /// The diagnostics to report for this error: one per variant without a
    /// discriminant, a single one otherwise.
    pub fn diagnostics(&self) -> (r: Vec<Diagnostic>)
        ensures
            r@.len() == expected_diagnostics(*self).len(),
            forall|k: int|
                0 <= k < r@.len() ==> {
                    &&& (#[trigger] r@[k]).anchor == expected_diagnostics(*self)[k].0
                    &&& r@[k].message@ == expected_diagnostics(*self)[k].1
                },
    {
        match self {
            DeriveError::MissingLayout => {
                let message = missing_layout_message();
                vec![Diagnostic { anchor: Anchor::Ident, message }]
            },
            DeriveError::ConflictingLayout { attr, item } => {
                let message = String::from_str("conflicting representation hints");
                vec![Diagnostic { anchor: Anchor::MetaItem { attr: *attr, item: *item }, message }]
            },
            DeriveError::MissingTag { variants } => {
                let mut r: Vec<Diagnostic> = Vec::new();
                let mut k: usize = 0;
                while k < variants.len()
                    invariant
                        0 <= k <= variants@.len(),
                        r@.len() == k,
                        forall|m: int|
                            0 <= m < k ==> {
                                &&& (#[trigger] r@[m]).anchor == Anchor::Variant(variants@[m])
                                &&& r@[m].message@ == missing_tag_text()
                            },
                    decreases variants@.len() - k,
                {
                    let message = String::from_str(
                        "Missing explicit discriminant. Note: If you want to reason about discriminants, but do not care about concrete values, consider using `core::mem::Discriminant` instead.",
                    );
                    r.push(Diagnostic { anchor: Anchor::Variant(variants[k]), message });
                    k += 1;
                }
                r
            },
            DeriveError::ForeignAttribute => {
                let message = String::from_str(
                    "Discriminant is not compatible with any top-level `#[attr]` except `#[repr(_)]`.",
                );
                vec![Diagnostic { anchor: Anchor::Ident, message }]
            },
        }
    }
}

} // verus!
