use safe_discriminant::derive::contains_attribute_macros;
use safe_discriminant::diagnostic::missing_layout_message;
use safe_discriminant::layout::get_enum_repr_prim;
use safe_discriminant::prim::prim_of;
use safe_discriminant::variants::validate_all_variants;
use safe_discriminant::{
    derive_discriminant_inner, Anchor, Attr, DeriveError, EnumDecl, PrimInt, ReprHint, VariantDecl,
};

const ACCEPTED: [&str; 10] = [
    "u8", "i8", "u16", "i16", "u32", "i32", "u64", "i64", "u128", "i128",
];

fn repr(items: &[&str]) -> Attr {
    Attr {
        ident: Some("repr".to_string()),
        args: items.iter().map(|s| Some(s.to_string())).collect(),
    }
}

fn other(name: &str) -> Attr {
    Attr {
        ident: Some(name.to_string()),
        args: Vec::new(),
    }
}

fn tags(tagged: &[bool]) -> Vec<VariantDecl> {
    tagged.iter().map(|&has_tag| VariantDecl { has_tag }).collect()
}

fn decl(attrs: Vec<Attr>, tagged: &[bool]) -> EnumDecl {
    EnumDecl {
        attrs,
        variants: tags(tagged),
    }
}

fn hint(prim: PrimInt, attr: usize, item: usize) -> ReprHint {
    ReprHint { prim, attr, item }
}

/// The compile fixtures of the derive: those that must derive and those
/// that must be refused, each reduced to what the derive reads.
#[test]
fn test_discriminant() {
    // basic_enum: #[repr(u8)] enum Foo { A = 0, B = 1 }
    let basic = decl(vec![repr(&["u8"])], &[true, true]);
    assert_eq!(derive_discriminant_inner(&basic), Ok(hint(PrimInt::U8, 0, 0)));
    // do_nothing_first: the pass-through attribute has run before the derive.
    let first = decl(vec![repr(&["u8"])], &[true, true]);
    assert!(derive_discriminant_inner(&first).is_ok());
    // generics_enum, generics_with_lifetimes_enum: #[repr(i64)]
    let generic = decl(vec![repr(&["i64"])], &[true, true]);
    assert_eq!(derive_discriminant_inner(&generic), Ok(hint(PrimInt::I64, 0, 0)));
    // mixed_enum: #[repr(C, i64)]
    let mixed = decl(vec![repr(&["C", "i64"])], &[true, true, true]);
    assert_eq!(derive_discriminant_inner(&mixed), Ok(hint(PrimInt::I64, 0, 1)));
    // struct_enums: #[repr(i64)]
    let structs = decl(vec![repr(&["i64"])], &[true, true]);
    assert!(derive_discriminant_inner(&structs).is_ok());
    // tuple_enums: #[repr(i8)]
    let tuples = decl(vec![repr(&["i8"])], &[true, true]);
    assert_eq!(derive_discriminant_inner(&tuples), Ok(hint(PrimInt::I8, 0, 0)));

    // do_nothing_last: #[repr(u8)] #[derive(..)] #[do_nothing]
    let last = decl(vec![repr(&["u8"]), other("do_nothing")], &[true, true]);
    assert_eq!(derive_discriminant_inner(&last), Err(DeriveError::ForeignAttribute));
    // remove_repr_disc1: the repr was stripped before the derive ran.
    let stripped = decl(vec![], &[true, true]);
    assert_eq!(derive_discriminant_inner(&stripped), Err(DeriveError::MissingLayout));
    // remove_repr_disc2: the stripping attribute follows the derive.
    let pending = decl(vec![other("remove_repr"), repr(&["u8"])], &[true, true]);
    assert_eq!(derive_discriminant_inner(&pending), Err(DeriveError::ForeignAttribute));
}

#[test]
fn basic_enum_is_accepted_with_u8() {
    let d = decl(vec![repr(&["u8"])], &[true, true]);
    let h = derive_discriminant_inner(&d).unwrap();
    assert_eq!(h.prim, PrimInt::U8);
    assert_eq!(h.prim.name(), "u8");
}

#[test]
fn generic_enum_is_accepted_with_i64() {
    let d = decl(vec![repr(&["i64"])], &[true, true]);
    assert_eq!(derive_discriminant_inner(&d), Ok(hint(PrimInt::I64, 0, 0)));
}

#[test]
fn c_layout_beside_primitive_is_accepted() {
    let d = decl(vec![repr(&["C", "i64"])], &[true, true, true]);
    let h = derive_discriminant_inner(&d).unwrap();
    assert_eq!(h, hint(PrimInt::I64, 0, 1));
    assert_eq!(h.prim.name(), "i64");
}

#[test]
fn struct_variants_with_wide_tags_are_accepted() {
    let d = decl(vec![repr(&["i64"])], &[true, true]);
    assert_eq!(derive_discriminant_inner(&d), Ok(hint(PrimInt::I64, 0, 0)));
}

#[test]
fn foreign_attribute_after_derive_is_refused() {
    let d = decl(vec![repr(&["u8"]), other("noop")], &[true, true]);
    let e = derive_discriminant_inner(&d).unwrap_err();
    assert_eq!(e, DeriveError::ForeignAttribute);
    let ds = e.diagnostics();
    assert_eq!(ds.len(), 1);
    assert_eq!(ds[0].anchor, Anchor::Ident);
    assert_eq!(
        ds[0].message,
        "Discriminant is not compatible with any top-level `#[attr]` except `#[repr(_)]`."
    );
}

#[test]
fn foreign_attribute_before_repr_is_refused() {
    let d = decl(vec![other("noop"), repr(&["u8"])], &[true, true]);
    assert_eq!(derive_discriminant_inner(&d), Err(DeriveError::ForeignAttribute));
}

#[test]
fn foreign_attribute_with_qualified_path_is_refused() {
    let qualified = Attr {
        ident: None,
        args: Vec::new(),
    };
    let d = decl(vec![repr(&["u8"]), qualified], &[true]);
    assert_eq!(derive_discriminant_inner(&d), Err(DeriveError::ForeignAttribute));
}

#[test]
fn stripped_repr_is_missing_layout() {
    let d = decl(vec![], &[true, true]);
    let e = derive_discriminant_inner(&d).unwrap_err();
    assert_eq!(e, DeriveError::MissingLayout);
    let ds = e.diagnostics();
    assert_eq!(ds.len(), 1);
    assert_eq!(ds[0].anchor, Anchor::Ident);
    for name in ACCEPTED {
        assert!(ds[0].message.contains(name), "{name} missing");
    }
}

#[test]
fn missing_layout_message_is_exact() {
    assert_eq!(
        missing_layout_message(),
        "Discriminant requires a `#[repr(x)]` where x is one of \
         u8, i8, u16, i16, u32, i32, u64, i64, u128, i128."
    );
}

#[test]
fn repr_without_primitive_is_missing_layout() {
    let d = decl(vec![repr(&["C"]), repr(&["align"])], &[true]);
    assert_eq!(derive_discriminant_inner(&d), Err(DeriveError::MissingLayout));
}

#[test]
fn untagged_first_variant_is_reported_at_it() {
    let d = decl(vec![repr(&["u8"])], &[false, true]);
    let e = derive_discriminant_inner(&d).unwrap_err();
    assert_eq!(e, DeriveError::MissingTag { variants: vec![0] });
    let ds = e.diagnostics();
    assert_eq!(ds.len(), 1);
    assert_eq!(ds[0].anchor, Anchor::Variant(0));
    assert!(ds[0].message.starts_with("Missing explicit discriminant."));
    assert!(ds[0].message.contains("`core::mem::Discriminant`"));
}

#[test]
fn every_untagged_variant_gets_its_own_diagnostic() {
    let d = decl(vec![repr(&["u16"])], &[false, true, false, false, true]);
    let e = derive_discriminant_inner(&d).unwrap_err();
    assert_eq!(e, DeriveError::MissingTag { variants: vec![0, 2, 3] });
    let anchors: Vec<Anchor> = e.diagnostics().iter().map(|d| d.anchor).collect();
    assert_eq!(
        anchors,
        vec![Anchor::Variant(0), Anchor::Variant(2), Anchor::Variant(3)]
    );
}

#[test]
fn two_primitives_in_one_repr_conflict() {
    let d = decl(vec![repr(&["u8", "i32"])], &[true]);
    let e = derive_discriminant_inner(&d).unwrap_err();
    assert_eq!(e, DeriveError::ConflictingLayout { attr: 0, item: 1 });
    let ds = e.diagnostics();
    assert_eq!(ds.len(), 1);
    assert_eq!(ds[0].anchor, Anchor::MetaItem { attr: 0, item: 1 });
    assert_eq!(ds[0].message, "conflicting representation hints");
    assert!(ds[0].message.contains("conflicting"));
}

#[test]
fn primitives_in_two_reprs_conflict_at_the_second() {
    let d = decl(
        vec![repr(&["C", "u64"]), repr(&["align"]), repr(&["u8", "i8"])],
        &[true],
    );
    assert_eq!(
        derive_discriminant_inner(&d),
        Err(DeriveError::ConflictingLayout { attr: 2, item: 0 })
    );
}

#[test]
fn layout_errors_come_before_tag_errors() {
    let d = decl(vec![], &[false]);
    assert_eq!(derive_discriminant_inner(&d), Err(DeriveError::MissingLayout));
    let d = decl(vec![repr(&["u8", "u8"])], &[false]);
    assert_eq!(
        derive_discriminant_inner(&d),
        Err(DeriveError::ConflictingLayout { attr: 0, item: 1 })
    );
}

#[test]
fn tag_errors_come_before_foreign_attributes() {
    let d = decl(vec![other("noop"), repr(&["u8"])], &[true, false]);
    assert_eq!(
        derive_discriminant_inner(&d),
        Err(DeriveError::MissingTag { variants: vec![1] })
    );
}

#[test]
fn enum_without_variants_is_accepted() {
    let d = decl(vec![repr(&["u128"])], &[]);
    assert_eq!(derive_discriminant_inner(&d), Ok(hint(PrimInt::U128, 0, 0)));
}

#[test]
fn primitive_outside_repr_is_ignored() {
    let not_repr = Attr {
        ident: Some("serde".to_string()),
        args: vec![Some("u8".to_string())],
    };
    let attrs = vec![not_repr, repr(&["i16"])];
    assert_eq!(get_enum_repr_prim(&attrs), Ok(hint(PrimInt::I16, 1, 0)));
}

#[test]
fn qualified_nested_path_is_not_a_primitive() {
    let attrs = vec![Attr {
        ident: Some("repr".to_string()),
        args: vec![None, Some("u32".to_string())],
    }];
    assert_eq!(get_enum_repr_prim(&attrs), Ok(hint(PrimInt::U32, 0, 1)));
}

#[test]
fn every_accepted_name_is_recognised() {
    let prims = [
        PrimInt::U8,
        PrimInt::I8,
        PrimInt::U16,
        PrimInt::I16,
        PrimInt::U32,
        PrimInt::I32,
        PrimInt::U64,
        PrimInt::I64,
        PrimInt::U128,
        PrimInt::I128,
    ];
    for (name, prim) in ACCEPTED.iter().zip(prims) {
        assert_eq!(prim_of(&name.to_string()), Some(prim));
        assert_eq!(prim.name(), *name);
    }
}

#[test]
fn other_names_are_not_primitives() {
    for name in ["C", "usize", "isize", "U8", "u8 ", "transparent", ""] {
        assert_eq!(prim_of(&name.to_string()), None);
    }
}

#[test]
fn variants_are_collected_in_order() {
    assert_eq!(validate_all_variants(&tags(&[])), Vec::<usize>::new());
    assert_eq!(validate_all_variants(&tags(&[true, true])), Vec::<usize>::new());
    assert_eq!(validate_all_variants(&tags(&[true, false, false])), vec![1, 2]);
}

#[test]
fn foreign_attributes_are_detected() {
    assert!(!contains_attribute_macros(&vec![]));
    assert!(!contains_attribute_macros(&vec![repr(&["u8"]), repr(&["C"])]));
    assert!(contains_attribute_macros(&vec![repr(&["u8"]), other("reprx")]));
    assert!(contains_attribute_macros(&vec![other("doc")]));
}
