//! Scenarios of the whole annotation pipeline, on real token streams.

use public_fields::parse_struct_decl;
use public_fields::public_fields;
use public_fields::FieldList;
use public_fields::RewriteError;

fn tokens(src: &str) -> proc_macro2::TokenStream {
    src.parse::<proc_macro2::TokenStream>().unwrap()
}

/// Normalize a struct declaration's tokens through syn's own printer, so
/// that two structurally equal declarations compare equal as text.
fn norm(ts: proc_macro2::TokenStream) -> String {
    let item = syn::parse2::<syn::ItemStruct>(ts).unwrap();
    quote::ToTokens::to_token_stream(&item).to_string()
}

fn rewritten(src: &str) -> proc_macro2::TokenStream {
    public_fields(proc_macro2::TokenStream::new(), tokens(src)).unwrap()
}

#[test]
fn private_struct_and_members_become_public() {
    let out = rewritten("struct Point { x: i32, y: i32 }");
    assert_eq!(norm(out), norm(tokens("pub struct Point { pub x: i32, pub y: i32 }")));
}

#[test]
fn already_public_input_is_unchanged() {
    let src = "pub struct Point { pub x: i32, pub y: i32 }";
    let out = rewritten(src);
    assert_eq!(norm(out), norm(tokens(src)));
}

#[test]
fn already_public_tokens_are_identical() {
    let src = "pub struct Point { pub x: i32, pub y: i32 }";
    let out = rewritten(src);
    assert_eq!(out.to_string(), tokens(src).to_string());
}

#[test]
fn trailing_comma_is_preserved() {
    let out = rewritten("struct Point { x: i32, y: i32, }");
    assert_eq!(norm(out), norm(tokens("pub struct Point { pub x: i32, pub y: i32, }")));
    let none = rewritten("struct Point { x: i32, y: i32 }");
    assert_eq!(norm(none), norm(tokens("pub struct Point { pub x: i32, pub y: i32 }")));
}

#[test]
fn crate_and_path_scoped_markers_become_public() {
    let out = rewritten(
        "pub(crate) struct S { pub(super) a: u8, pub(in crate::m) b: u8, pub c: u8 }",
    );
    assert_eq!(norm(out), norm(tokens("pub struct S { pub a: u8, pub b: u8, pub c: u8 }")));
}

#[test]
fn non_struct_input_is_malformed() {
    let r = public_fields(proc_macro2::TokenStream::new(), tokens("fn point() -> i32 { 4 }"));
    match r {
        Err(RewriteError::MalformedInput(msg)) => assert!(!msg.is_empty()),
        Ok(_) => panic!("a non-structure construct must be rejected"),
    }
}

#[test]
fn enum_input_is_malformed() {
    let r = public_fields(proc_macro2::TokenStream::new(), tokens("enum E { A, B }"));
    assert!(matches!(r, Err(RewriteError::MalformedInput(_))));
}

#[test]
fn configuration_text_has_no_effect() {
    let with_attr = public_fields(tokens("ignored, text = \"x\""), tokens("struct P { x: i32 }"))
        .unwrap();
    let without_attr = rewritten("struct P { x: i32 }");
    assert_eq!(norm(with_attr), norm(without_attr));
}

#[test]
fn pipeline_is_idempotent() {
    let once = rewritten("struct Point { x: i32, y: i32 }");
    let twice = public_fields(proc_macro2::TokenStream::new(), once.clone()).unwrap();
    assert_eq!(norm(twice), norm(once));
}

#[test]
fn tuple_struct_members_are_untouched() {
    let out = rewritten("struct Pair(i32, pub u8);");
    let item = syn::parse2::<syn::ItemStruct>(out).unwrap();
    assert!(matches!(item.vis, syn::Visibility::Public(_)));
    match &item.fields {
        syn::Fields::Unnamed(fs) => {
            let fields: Vec<&syn::Field> = fs.unnamed.iter().collect();
            assert_eq!(fields.len(), 2);
            assert!(matches!(fields[0].vis, syn::Visibility::Inherited));
            assert!(matches!(fields[1].vis, syn::Visibility::Public(_)));
        }
        _ => panic!("body shape changed"),
    }
    assert_eq!(norm(rewritten("struct Pair(i32, pub u8);")), norm(tokens("pub struct Pair(i32, pub u8);")));
}

#[test]
fn unit_struct_marker_changes() {
    let out = rewritten("struct Marker;");
    assert_eq!(norm(out), norm(tokens("pub struct Marker;")));
}

#[test]
fn empty_named_body_is_kept() {
    let out = rewritten("struct Empty {}");
    assert_eq!(norm(out), norm(tokens("pub struct Empty {}")));
}

#[test]
fn token_attributes_generics_and_where_are_kept() {
    let out = rewritten(
        "#[derive(Clone)] #[repr(C)] struct Holder<T, U: Copy> where T: Clone { #[cfg(test)] inner: T, other: U }",
    );
    assert_eq!(
        norm(out),
        norm(tokens(
            "#[derive(Clone)] #[repr(C)] pub struct Holder<T, U: Copy> where T: Clone { #[cfg(test)] pub inner: T, pub other: U }",
        )),
    );
}

#[test]
fn lifetimes_and_nested_types_are_kept() {
    let out = rewritten("struct View<'a, T> { items: &'a [Vec<T>], len: usize }");
    assert_eq!(
        norm(out),
        norm(tokens("pub struct View<'a, T> { pub items: &'a [Vec<T>], pub len: usize }")),
    );
}

#[test]
fn parsed_model_holds_the_declaration() {
    let d = parse_struct_decl(tokens("struct Point { x: i32, y: i32 }")).unwrap();
    assert_eq!(d.vis, "");
    assert_eq!(d.name, "Point");
    assert_eq!(d.generics, "");
    assert_eq!(d.where_clause, "");
    assert!(!d.trailing_comma);
    match d.fields {
        FieldList::Named(ms) => {
            assert_eq!(ms.len(), 2);
            assert_eq!(ms[0].name, "x");
            assert_eq!(ms[0].vis, "");
            assert_eq!(ms[0].ty, "i32");
            assert_eq!(ms[1].name, "y");
        }
        _ => panic!("expected the named-member form"),
    }
}

#[test]
fn parsed_model_sees_trailing_comma() {
    let d = parse_struct_decl(tokens("struct P { x: i32, }")).unwrap();
    assert!(d.trailing_comma);
}

#[test]
fn parsed_model_sees_tuple_form() {
    let d = parse_struct_decl(tokens("pub struct Pair(i32, pub u8);")).unwrap();
    assert_eq!(d.vis, "pub");
    assert!(!d.trailing_comma);
    match d.fields {
        FieldList::Tuple(ms) => {
            assert_eq!(ms.len(), 2);
            assert_eq!(ms[0].vis, "");
            assert_eq!(ms[0].ty, "i32");
            assert_eq!(ms[1].vis, "pub");
            assert_eq!(ms[1].ty, "u8");
        }
        _ => panic!("expected the positional-tuple form"),
    }
}

#[test]
fn unit_struct_with_where_clause_is_kept() {
    let out = rewritten("struct Marker<T> where T: Copy;");
    assert_eq!(norm(out), norm(tokens("pub struct Marker<T> where T: Copy;")));
}

#[test]
fn tuple_struct_with_where_clause_is_kept() {
    let out = rewritten("struct Wrap<T>(pub T, u8) where T: Copy;");
    assert_eq!(norm(out), norm(tokens("pub struct Wrap<T>(pub T, u8) where T: Copy;")));
}
