use vstd::prelude::*;

verus! {

/// An outer attribute of the declaration, as far as the derive reads it.
pub struct Attr {
    /// The attribute's path when that path is a single identifier.
    pub ident: Option<String>,
    /// For a `repr` attribute, the paths of its nested items in source
    /// order, each given as its identifier when it is a single one.
    pub args: Vec<Option<String>>,
}

/// A variant of the declaration.
pub struct VariantDecl {
    /// Whether the variant is written with an explicit `= tag`.
    pub has_tag: bool,
}

/// The parts of an enum declaration that decide what the derive emits.
pub struct EnumDecl {
    /// Outer attributes, in source order.
    pub attrs: Vec<Attr>,
    /// Variants, in source order.
    pub variants: Vec<VariantDecl>,
}

/// Whether a path, given by its identifier when it has a single one, is
/// exactly the identifier `name`.
pub open spec fn path_is(p: Option<String>, name: Seq<char>) -> bool {
    match p {
        Some(id) => id@ == name,
        None => false,
    }
}

impl Attr {
    /// Whether this is a layout hint, `#[repr(..)]`.
    pub open spec fn spec_is_repr(&self) -> bool {
        path_is(self.ident, "repr"@)
    }

    #[verifier::when_used_as_spec(spec_is_repr)]
    pub fn is_repr(&self) -> (r: bool)
        ensures
            r == self.spec_is_repr(),
    {
        match &self.ident {
            Some(id) => *id == String::from_str("repr"),
            None => false,
        }
    }
}

} // verus!
