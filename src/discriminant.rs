use vstd::prelude::*;

verus! {

/// Access to the integer tag of an enum value.
///
/// An implementation is sound only for an enum with a primitive
/// representation (`#[repr(u8)]`, `#[repr(i64)]`, ...) whose variants all
/// carry explicit discriminants: then the first bytes of every value are its
/// tag. The derive checks exactly these conditions before it emits one.
pub trait Discriminant {
    /// The integer type named in the enum's `#[repr(..)]`.
    type Selector: Copy;

    /// The tag of the variant that `self` holds.
    fn discriminant(&self) -> Self::Selector;
}

} // verus!
