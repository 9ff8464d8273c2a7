use vstd::prelude::*;

verus! {

/// Why the derive refuses a declaration.
#[derive(Debug, PartialEq, Eq)]
pub enum DeriveError {
    /// No `repr` attribute names an integer primitive.
    MissingLayout,
    /// A second primitive was named, at nested item `item` of attribute
    /// `attr`.
    ConflictingLayout { attr: usize, item: usize },
    /// The variants at these positions, in source order, have no explicit
    /// discriminant.
    MissingTag { variants: Vec<usize> },
    /// An attribute other than `repr` sits on the declaration.
    ForeignAttribute,
}

} // verus!
