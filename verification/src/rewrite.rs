//! The visibility rewrite itself: force the declaration's marker and, for a
//! named-member body, every member's marker to `pub`, and change nothing
//! else.

use vstd::prelude::*;
use vstd::string::StringExecFns;

use crate::ast::FieldList;
use crate::ast::FieldListV;
use crate::ast::NamedField;
use crate::ast::NamedFieldV;
use crate::ast::StructDecl;
use crate::ast::StructDeclV;

verus! {

/// The fully-public visibility marker.
pub open spec fn pub_marker() -> Seq<char> {
    "pub"@
}

/// What the rewrite does to one named member: only the visibility changes.
pub open spec fn publicized_named_field(m: NamedFieldV) -> NamedFieldV {
    NamedFieldV { vis: pub_marker(), ..m }
}

/// What the rewrite does to a body: members of the named form are made
/// public; a tuple or unit body is left untouched.
pub open spec fn publicized_fields(fs: FieldListV) -> FieldListV {
    match fs {
        FieldListV::Named(ms) => FieldListV::Named(
            ms.map_values(|m: NamedFieldV| publicized_named_field(m)),
        ),
        FieldListV::Tuple(ms) => FieldListV::Tuple(ms),
        FieldListV::Unit => FieldListV::Unit,
    }
}

/// What the rewrite does to a whole declaration: its own marker becomes
/// `pub`, its body is rewritten as `publicized_fields` says, and every
/// other part is copied unchanged.
pub open spec fn publicized(d: StructDeclV) -> StructDeclV {
    StructDeclV { vis: pub_marker(), fields: publicized_fields(d.fields), ..d }
}

/// The marker `pub`, as an executable string.
fn pub_string() -> (r: String)
    ensures
        r@ == pub_marker(),
{
    String::from_str("pub")
}

/// Rewrite one named member: keep its attributes, name and type, set its
/// visibility to `pub`.
fn make_named_field_public(m: NamedField) -> (r: NamedField)
    ensures
        r@ == publicized_named_field(m@),
{
    let NamedField { attrs, vis: _, name, ty } = m;
    NamedField { attrs, vis: pub_string(), name, ty }
}

/// Rewrite a named-member list: every member's visibility becomes `pub`;
/// count, order, names, attributes and types are unchanged.
fn make_named_fields_public(ms: Vec<NamedField>) -> (r: Vec<NamedField>)
    ensures
        r@.map_values(|m: NamedField| m@) == ms@.map_values(|m: NamedField| m@).map_values(
            |m: NamedFieldV| publicized_named_field(m),
        ),
{
    let ghost orig: Seq<NamedFieldV> = ms@.map_values(|m: NamedField| m@);
    let mut rest = ms;
    let mut out: Vec<NamedField> = Vec::new();
    let n = rest.len();
    for i in 0..n
        invariant
            rest@.len() + i == n,
            n == orig.len(),
            out@.len() == i,
            forall|j: int| 0 <= j < i ==> out@[j]@ == publicized_named_field(orig[j]),
            forall|j: int| 0 <= j < rest@.len() ==> rest@[j]@ == orig[i + j],
    {
        let m = rest.remove(0);
        out.push(make_named_field_public(m));
    }
    proof {
        assert(out@.map_values(|m: NamedField| m@) =~= orig.map_values(
            |m: NamedFieldV| publicized_named_field(m),
        ));
    }
    out
}

/// The Visibility Rewriter's core: given a structure declaration, return the
/// same declaration with its own visibility marker, and — when the body is
/// the named-member form — every member's visibility marker, set to `pub`.
/// Everything else (attributes, name, generics, `where` clause, member
/// names, member types, member order, a tuple or unit body) is unchanged.
pub fn make_public(d: StructDecl) -> (r: StructDecl)
    ensures
        r@ == publicized(d@),
{
    let StructDecl { attrs, vis: _, name, generics, where_clause, trailing_comma, fields } = d;
    let new_fields = match fields {
        FieldList::Named(ms) => FieldList::Named(make_named_fields_public(ms)),
        FieldList::Tuple(ms) => FieldList::Tuple(ms),
        FieldList::Unit => FieldList::Unit,
    };
    StructDecl {
        attrs,
        vis: pub_string(),
        name,
        generics,
        where_clause,
        trailing_comma,
        fields: new_fields,
    }
}

/// Declaration-visibility law: whatever the input marker, the output
/// declaration's marker is fully public.
pub proof fn lemma_decl_vis_public(d: StructDeclV)
    ensures
        publicized(d).vis == pub_marker(),
{
}

/// Named-form law: when the body is the named-member form, the output keeps
/// the member count and every output member's marker is fully public,
/// whatever each input marker was.
pub proof fn lemma_named_fields_public(d: StructDeclV)
    requires
        d.fields is Named,
    ensures
        publicized(d).fields is Named,
        publicized(d).fields->Named_0.len() == d.fields->Named_0.len(),
        forall|i: int|
            0 <= i < d.fields->Named_0.len() ==> publicized(d).fields->Named_0[i].vis
                == pub_marker(),
{
}

/// Non-named-form law: for a tuple or unit body, the body — member markers
/// included — is exactly the input body; only the declaration's own marker
/// changes.
pub proof fn lemma_non_named_fields_untouched(d: StructDeclV)
    requires
        !(d.fields is Named),
    ensures
        publicized(d).fields == d.fields,
{
}

/// Structural-preservation law: the rewrite keeps the declaration's
/// attributes, name, generic parameters and `where` clause, and — for every
/// body shape — the member count, member order, member names, member
/// attributes and member types.
pub proof fn lemma_structure_preserved(d: StructDeclV)
    ensures
        publicized(d).attrs == d.attrs,
        publicized(d).name == d.name,
        publicized(d).generics == d.generics,
        publicized(d).where_clause == d.where_clause,
        publicized(d).trailing_comma == d.trailing_comma,
        publicized(d).fields is Named <==> d.fields is Named,
        publicized(d).fields is Tuple <==> d.fields is Tuple,
        publicized(d).fields is Unit <==> d.fields is Unit,
        d.fields is Named ==> {
            &&& publicized(d).fields->Named_0.len() == d.fields->Named_0.len()
            &&& forall|i: int|
                0 <= i < d.fields->Named_0.len() ==> {
                    &&& publicized(d).fields->Named_0[i].attrs == d.fields->Named_0[i].attrs
                    &&& publicized(d).fields->Named_0[i].name == d.fields->Named_0[i].name
                    &&& publicized(d).fields->Named_0[i].ty == d.fields->Named_0[i].ty
                }
        },
        d.fields is Tuple ==> publicized(d).fields->Tuple_0 == d.fields->Tuple_0,
{
}

/// Already-public law: a declaration whose own marker and whose named
/// members' markers are all already fully public is the rewrite's fixpoint:
/// the output is the input.
pub proof fn lemma_already_public_fixed(d: StructDeclV)
    requires
        d.vis == pub_marker(),
        d.fields matches FieldListV::Named(ms) ==> forall|i: int|
            0 <= i < ms.len() ==> #[trigger] ms[i].vis == pub_marker(),
    ensures
        publicized(d) == d,
{
    match d.fields {
        FieldListV::Named(ms) => {
            let pf = |m: NamedFieldV| publicized_named_field(m);
            assert forall|i: int| 0 <= i < ms.len() implies ms.map_values(pf)[i] == ms[i] by {
                assert(ms[i].vis == pub_marker());
                assert(publicized_named_field(ms[i]) =~= ms[i]);
            }
            assert(ms.map_values(pf) =~= ms);
        },
        FieldListV::Tuple(_) => {},
        FieldListV::Unit => {},
    }
    assert(publicized(d) =~= d);
}

/// Idempotence law: applying the rewrite to its own output yields that
/// output again; on the second pass everything is already fully public.
pub proof fn lemma_publicized_idempotent(d: StructDeclV)
    ensures
        publicized(publicized(d)) == publicized(d),
{
    let once = publicized(d);
    let twice = publicized(once);
    match d.fields {
        FieldListV::Named(ms) => {
            let pf = |m: NamedFieldV| publicized_named_field(m);
            assert forall|i: int| 0 <= i < ms.len() implies ms.map_values(pf).map_values(pf)[i]
                == ms.map_values(pf)[i] by {
                assert(publicized_named_field(publicized_named_field(ms[i]))
                    == publicized_named_field(ms[i]));
            }
            assert(ms.map_values(pf).map_values(pf) =~= ms.map_values(pf));
            assert(twice.fields == once.fields);
        },
        FieldListV::Tuple(_) => {},
        FieldListV::Unit => {},
    }
    assert(twice =~= once);
}

} // verus!
