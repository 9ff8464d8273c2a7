use vstd::prelude::*;

use crate::error::DeriveError;
use crate::layout::{get_enum_repr_prim, hint_count, layout_outcome, lemma_hint_counted, ReprHint};
use crate::model::{Attr, EnumDecl};
use crate::variants::{untagged, validate_all_variants};

verus! {

/// Whether some attribute of `attrs` is anything but `#[repr(..)]`.
pub open spec fn has_foreign_attr(attrs: Seq<Attr>) -> bool {
    exists|k: int| 0 <= k < attrs.len() && !(#[trigger] attrs[k]).spec_is_repr()
}

/// Whether `attrs` holds an attribute other than `#[repr(..)]`.
pub fn contains_attribute_macros(attrs: &Vec<Attr>) -> (r: bool)
    ensures
        r == has_foreign_attr(attrs@),
{
    let mut k: usize = 0;
    while k < attrs.len()
        invariant
            0 <= k <= attrs@.len(),
            forall|m: int| 0 <= m < k ==> (#[trigger] attrs@[m]).spec_is_repr(),
        decreases attrs@.len() - k,
    {
        if !attrs[k].is_repr() {
            return true;
        }
        k += 1;
    }
    false
}

/// What the derive decides for `d`: the layout is read first, then the
/// variants are checked, then foreign attributes are refused.
pub open spec fn derive_outcome(d: EnumDecl, r: Result<ReprHint, DeriveError>) -> bool {
    let attrs = d.attrs@;
    let missing = untagged(d.variants@);
    match r {
        Ok(h) => {
            &&& layout_outcome(attrs, Ok(h))
            &&& missing.len() == 0
            &&& !has_foreign_attr(attrs)
        },
        Err(DeriveError::MissingLayout) => layout_outcome(attrs, r),
        Err(DeriveError::ConflictingLayout { .. }) => layout_outcome(attrs, r),
        Err(DeriveError::MissingTag { variants }) => {
            &&& hint_count(attrs) == 1
            &&& missing.len() > 0
            &&& variants@ == missing
        },
        Err(DeriveError::ForeignAttribute) => {
            &&& hint_count(attrs) == 1
            &&& missing.len() == 0
            &&& has_foreign_attr(attrs)
        },
    }
}

/// Decides whether the tag accessor can be derived for `d`, and with which
/// primitive; or why not.
pub fn derive_discriminant_inner(d: &EnumDecl) -> (r: Result<ReprHint, DeriveError>)
    ensures
        derive_outcome(*d, r),
        r is Ok <==> {
            &&& hint_count(d.attrs@) == 1
            &&& untagged(d.variants@).len() == 0
            &&& !has_foreign_attr(d.attrs@)
        },
{
    let hint = match get_enum_repr_prim(&d.attrs) {
        Ok(h) => h,
        Err(e) => {
            proof {
                if let DeriveError::ConflictingLayout { attr, item } = e {
                    lemma_hint_counted(d.attrs@, attr as int, item as int);
                }
            }
            return Err(e);
        },
    };
    let missing = validate_all_variants(&d.variants);
    if missing.len() > 0 {
        return Err(DeriveError::MissingTag { variants: missing });
    }
    if contains_attribute_macros(&d.attrs) {
        return Err(DeriveError::ForeignAttribute);
    }
    Ok(hint)
}

} // verus!
