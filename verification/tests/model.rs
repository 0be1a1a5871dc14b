//! Scenarios of the rewrite on the syntax model.

use public_fields::make_public;
use public_fields::rewrite_source;
use public_fields::FieldList;
use public_fields::NamedField;
use public_fields::StructDecl;
use public_fields::TupleField;

fn named(vis: &str, name: &str, ty: &str) -> NamedField {
    NamedField {
        attrs: Vec::new(),
        vis: String::from(vis),
        name: String::from(name),
        ty: String::from(ty),
    }
}

fn decl(vis: &str, name: &str, fields: FieldList) -> StructDecl {
    StructDecl {
        attrs: Vec::new(),
        vis: String::from(vis),
        name: String::from(name),
        generics: String::new(),
        where_clause: String::new(),
        trailing_comma: false,
        fields,
    }
}

#[test]
fn two_private_named_members_become_public() {
    let input = decl(
        "",
        "Point",
        FieldList::Named(vec![named("", "x", "i32"), named("", "y", "i32")]),
    );
    let out = make_public(input);
    assert_eq!(out.vis, "pub");
    assert_eq!(out.name, "Point");
    match out.fields {
        FieldList::Named(ms) => {
            assert_eq!(ms.len(), 2);
            assert_eq!(ms[0].vis, "pub");
            assert_eq!(ms[0].name, "x");
            assert_eq!(ms[0].ty, "i32");
            assert_eq!(ms[1].vis, "pub");
            assert_eq!(ms[1].name, "y");
            assert_eq!(ms[1].ty, "i32");
        }
        _ => panic!("body shape changed"),
    }
}

#[test]
fn already_public_is_unchanged() {
    let input = decl(
        "pub",
        "Point",
        FieldList::Named(vec![named("pub", "x", "i32"), named("pub", "y", "i32")]),
    );
    let out = make_public(input.clone());
    assert_eq!(out, input);
}

#[test]
fn crate_scoped_markers_become_public() {
    let input = decl(
        "pub (crate)",
        "Token",
        FieldList::Named(vec![named("pub (crate)", "kind", "u8")]),
    );
    let out = make_public(input);
    assert_eq!(out.vis, "pub");
    match out.fields {
        FieldList::Named(ms) => assert_eq!(ms[0].vis, "pub"),
        _ => panic!("body shape changed"),
    }
}

#[test]
fn tuple_members_are_untouched() {
    let input = decl(
        "",
        "Pair",
        FieldList::Tuple(vec![
            TupleField { attrs: Vec::new(), vis: String::new(), ty: String::from("i32") },
            TupleField { attrs: Vec::new(), vis: String::from("pub"), ty: String::from("u8") },
        ]),
    );
    let out = make_public(input.clone());
    assert_eq!(out.vis, "pub");
    assert_eq!(out.fields, input.fields);
}

#[test]
fn unit_body_only_marker_changes() {
    let input = decl("", "Marker", FieldList::Unit);
    let out = make_public(input);
    assert_eq!(out.vis, "pub");
    assert_eq!(out.fields, FieldList::Unit);
}

#[test]
fn rewrite_is_idempotent_on_model() {
    let input = decl(
        "",
        "Point",
        FieldList::Named(vec![named("", "x", "i32"), named("pub (crate)", "y", "i32")]),
    );
    let once = make_public(input);
    let twice = make_public(once.clone());
    assert_eq!(twice, once);
}

#[test]
fn attributes_generics_and_where_are_kept() {
    let input = StructDecl {
        attrs: vec![String::from("# [derive (Clone)]")],
        vis: String::new(),
        name: String::from("Holder"),
        generics: String::from("< T >"),
        where_clause: String::from("where T : Clone"),
        trailing_comma: false,
        fields: FieldList::Named(vec![NamedField {
            attrs: vec![String::from("# [cfg (test)]")],
            vis: String::new(),
            name: String::from("inner"),
            ty: String::from("T"),
        }]),
    };
    let out = make_public(input.clone());
    assert_eq!(out.attrs, input.attrs);
    assert_eq!(out.name, input.name);
    assert_eq!(out.generics, input.generics);
    assert_eq!(out.where_clause, input.where_clause);
    match (out.fields, input.fields) {
        (FieldList::Named(o), FieldList::Named(i)) => {
            assert_eq!(o[0].attrs, i[0].attrs);
            assert_eq!(o[0].name, i[0].name);
            assert_eq!(o[0].ty, i[0].ty);
            assert_eq!(o[0].vis, "pub");
        }
        _ => panic!("body shape changed"),
    }
}

#[test]
fn rendered_text_is_exact() {
    let input = decl("", "P", FieldList::Named(vec![named("", "x", "i32")]));
    let out = rewrite_source(input);
    assert_eq!(out, "pub struct P   { pub x : i32 }");
}

#[test]
fn rendered_text_with_trailing_comma_is_exact() {
    let mut input = decl("", "P", FieldList::Named(vec![named("", "x", "i32")]));
    input.trailing_comma = true;
    let out = rewrite_source(input);
    assert_eq!(out, "pub struct P   { pub x : i32 , }");
}

#[test]
fn rendered_unit_text_is_exact() {
    let input = decl("", "U", FieldList::Unit);
    let out = rewrite_source(input);
    assert_eq!(out, "pub struct U   ;");
}
