use vstd::prelude::*;

use crate::error::DeriveError;
use crate::model::Attr;
use crate::prim::{prim_named, prim_of, PrimInt};

verus! {

/// The primitive layout hint of a declaration, with the place where it is
/// written: nested item `item` of attribute `attr`.
#[derive(Clone, Copy, Debug, PartialEq, Eq, Structural)]
pub struct ReprHint {
    pub prim: PrimInt,
    pub attr: usize,
    pub item: usize,
}

/// The primitive that a nested path names, if any.
pub open spec fn item_prim(p: Option<String>) -> Option<PrimInt> {
    match p {
        Some(id) => prim_named(id@),
        None => None,
    }
}

/// Whether nested item `j` of `a` is a primitive-bearing item of a layout
/// hint.
pub open spec fn is_hint_item(a: Attr, j: int) -> bool {
    &&& a.spec_is_repr()
    &&& 0 <= j < a.args@.len()
    &&& item_prim(a.args@[j]) is Some
}

/// Whether nested item `j` of attribute `i` is primitive-bearing.
pub open spec fn is_hint_at(attrs: Seq<Attr>, i: int, j: int) -> bool {
    0 <= i < attrs.len() && is_hint_item(attrs[i], j)
}

/// The number of primitive-bearing items among the first `n` nested items
/// of `a`.
pub open spec fn hints_in_args(a: Attr, n: int) -> nat
    decreases n,
{
    if n <= 0 {
        0
    } else {
        hints_in_args(a, n - 1) + if is_hint_item(a, n - 1) { 1nat } else { 0nat }
    }
}

/// The number of primitive-bearing items in the first `n` attributes.
pub open spec fn hints_in_attrs(attrs: Seq<Attr>, n: int) -> nat
    decreases n,
{
    if n <= 0 {
        0
    } else {
        hints_in_attrs(attrs, n - 1) + hints_in_args(attrs[n - 1], attrs[n - 1].args@.len() as int)
    }
}

/// The number of primitive-bearing items written before nested item `j` of
/// attribute `i`.
pub open spec fn hints_before(attrs: Seq<Attr>, i: int, j: int) -> nat {
    hints_in_attrs(attrs, i) + hints_in_args(attrs[i], j)
}

/// The number of primitive-bearing items over all the attributes.
pub open spec fn hint_count(attrs: Seq<Attr>) -> nat {
    hints_in_attrs(attrs, attrs.len() as int)
}

/// What reading the layout hint of `attrs` gives: the one primitive when
/// exactly one is named; the second one named when there are more; a
/// missing layout when there is none.
pub open spec fn layout_outcome(attrs: Seq<Attr>, r: Result<ReprHint, DeriveError>) -> bool {
    match r {
        Ok(h) => {
            &&& hint_count(attrs) == 1
            &&& is_hint_at(attrs, h.attr as int, h.item as int)
            &&& item_prim(attrs[h.attr as int].args@[h.item as int]) == Some(h.prim)
        },
        Err(DeriveError::ConflictingLayout { attr, item }) => {
            &&& is_hint_at(attrs, attr as int, item as int)
            &&& hints_before(attrs, attr as int, item as int) == 1
        },
        Err(DeriveError::MissingLayout) => hint_count(attrs) == 0,
        Err(_) => false,
    }
}

/// An attribute that is no layout hint holds no primitive-bearing item.
pub proof fn lemma_no_hints_outside_repr(a: Attr, n: int)
    requires
        !a.spec_is_repr(),
    ensures
        hints_in_args(a, n) == 0,
    decreases n,
{
    if n > 0 {
        lemma_no_hints_outside_repr(a, n - 1);
    }
}

/// Counting over more nested items never counts fewer.
pub proof fn lemma_args_monotone(a: Attr, m: int, n: int)
    requires
        m <= n,
    ensures
        hints_in_args(a, m) <= hints_in_args(a, n),
    decreases n - m,
{
    if m < n {
        lemma_args_monotone(a, m, n - 1);
    }
}

/// Counting over more attributes never counts fewer.
pub proof fn lemma_attrs_monotone(attrs: Seq<Attr>, m: int, n: int)
    requires
        m <= n,
    ensures
        hints_in_attrs(attrs, m) <= hints_in_attrs(attrs, n),
    decreases n - m,
{
    if m < n {
        lemma_attrs_monotone(attrs, m, n - 1);
    }
}

/// A primitive-bearing item is counted after all those written before it.
pub proof fn lemma_hint_counted(attrs: Seq<Attr>, i: int, j: int)
    requires
        is_hint_at(attrs, i, j),
    ensures
        hint_count(attrs) >= hints_before(attrs, i, j) + 1,
{
    let a = attrs[i];
    lemma_args_monotone(a, j + 1, a.args@.len() as int);
    lemma_attrs_monotone(attrs, i + 1, attrs.len() as int);
}

/// Finds the one integer primitive named by the `repr` attributes among
/// `attrs`, scanning them in source order.
pub fn get_enum_repr_prim(attrs: &Vec<Attr>) -> (r: Result<ReprHint, DeriveError>)
    ensures
        layout_outcome(attrs@, r),
{
    let mut found: Option<ReprHint> = None;
    let mut i: usize = 0;
    while i < attrs.len()
        invariant
            0 <= i <= attrs@.len(),
            hints_in_attrs(attrs@, i as int) <= 1,
            found is None <==> hints_in_attrs(attrs@, i as int) == 0,
            found matches Some(h) ==> {
                &&& h.attr < i
                &&& is_hint_at(attrs@, h.attr as int, h.item as int)
                &&& item_prim(attrs@[h.attr as int].args@[h.item as int]) == Some(h.prim)
            },
        decreases attrs@.len() - i,
    {
        let a = &attrs[i];
        if a.is_repr() {
            let mut j: usize = 0;
            while j < a.args.len()
                invariant
                    0 <= i < attrs@.len(),
                    *a == attrs@[i as int],
                    a.spec_is_repr(),
                    0 <= j <= a.args@.len(),
                    hints_before(attrs@, i as int, j as int) <= 1,
                    found is None <==> hints_before(attrs@, i as int, j as int) == 0,
                    found matches Some(h) ==> {
                        &&& h.attr < i || (h.attr == i && h.item < j)
                        &&& is_hint_at(attrs@, h.attr as int, h.item as int)
                        &&& item_prim(attrs@[h.attr as int].args@[h.item as int]) == Some(h.prim)
                    },
                decreases a.args@.len() - j,
            {
                if let Some(id) = &a.args[j] {
                    if let Some(p) = prim_of(id) {
                        if found.is_some() {
                            return Err(DeriveError::ConflictingLayout { attr: i, item: j });
                        }
                        found = Some(ReprHint { prim: p, attr: i, item: j });
                    }
                }
                j += 1;
            }
        } else {
            proof {
                lemma_no_hints_outside_repr(*a, a.args@.len() as int);
            }
        }
        i += 1;
    }
    match found {
        Some(h) => Ok(h),
        None => Err(DeriveError::MissingLayout),
    }
}

} // verus!
