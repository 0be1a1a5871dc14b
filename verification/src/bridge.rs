//! The boundary to the host syntax crates: `syn` parses the annotated
//! tokens, `proc-macro2` lexes the rendered output, and `quote`'s
//! `ToTokens` gives each copied part its token text. Each outside call
//! stands behind one trusted wrapper; everything that walks or builds the
//! model around those calls is verified. The names below tie the opaque
//! values together, so that the model a parse returns is pinned, part by
//! part, to the declaration the tokens parse as.

use vstd::prelude::*;
use vstd::string::StringExecFns;

use crate::ast::FieldList;
use crate::ast::FieldListV;
use crate::ast::NamedField;
use crate::ast::NamedFieldV;
use crate::ast::RewriteError;
use crate::ast::StructDecl;
use crate::ast::StructDeclV;
use crate::ast::TupleField;
use crate::ast::TupleFieldV;
use crate::ast::texts_view;
use crate::render::rendered;
use crate::rewrite::pub_marker;

verus! {

/// `proc_macro2::TokenStream`, opaque: a value is only carried through.
#[verifier::external_type_specification]
#[verifier::external_body]
pub struct ExTokenStream(proc_macro2::TokenStream);

/// `syn::ItemStruct`, opaque: what the rewrite reads of it comes out
/// through the wrappers below, as plain values.
#[verifier::external_type_specification]
#[verifier::external_body]
pub struct ExItemStruct(syn::ItemStruct);

/// `syn::Attribute`, opaque.
#[verifier::external_type_specification]
#[verifier::external_body]
pub struct ExAttribute(syn::Attribute);

/// `syn::Field`, opaque.
#[verifier::external_type_specification]
#[verifier::external_body]
pub struct ExField(syn::Field);

/// Whether the tokens parse as one structure declaration: the verdict of
/// `syn::parse2::<syn::ItemStruct>` on them, a function of the tokens alone.
pub uninterp spec fn parses_as_struct(t: proc_macro2::TokenStream) -> bool;

/// The declaration the tokens parse as, as a model value: what
/// `syn::parse2::<syn::ItemStruct>` reads out of them, a function of the
/// tokens alone; meaningful only where `parses_as_struct` holds.
pub uninterp spec fn model_of(t: proc_macro2::TokenStream) -> StructDeclV;

/// The model of one parsed `syn::ItemStruct`, part by part as the printers
/// write each part: the accessor wrappers below each pin one part of it.
pub uninterp spec fn item_model(i: syn::ItemStruct) -> StructDeclV;

/// The token text `quote::ToTokens` emits for one `syn::Attribute`.
pub uninterp spec fn attr_model(a: syn::Attribute) -> Seq<char>;

/// The token text `quote::ToTokens` emits for one member's visibility.
pub uninterp spec fn field_vis_model(f: syn::Field) -> Seq<char>;

/// The member's name (`syn::Field::ident`), `None` for a positional member.
pub uninterp spec fn field_name_model(f: syn::Field) -> Option<Seq<char>>;

/// The token text `quote::ToTokens` emits for one member's type.
pub uninterp spec fn field_ty_model(f: syn::Field) -> Seq<char>;

/// The token texts of one member's attributes, in source order.
pub uninterp spec fn field_attrs_model(f: syn::Field) -> Seq<Seq<char>>;

/// Whether a text is printer-made token text: what the syntax crates'
/// printers (`quote::ToTokens` with `proc_macro2`'s `Display`) emit for some
/// syntax value — a complete, balanced, comment-free token stream's text,
/// the empty text included.
pub uninterp spec fn printed(s: Seq<char>) -> bool;

/// That the lexer reads a text as exactly these tokens: the successful
/// result of `str::parse::<proc_macro2::TokenStream>`, a function of the
/// text alone.
pub uninterp spec fn lexes_to(s: Seq<char>, t: proc_macro2::TokenStream) -> bool;

/// A visibility marker the renderer may be handed: printer-made token text,
/// or the marker `pub` that the rewrite writes.
pub open spec fn vis_ready(v: Seq<char>) -> bool {
    printed(v) || v == pub_marker()
}

/// The model of one named member, assembled from the per-part names.
pub open spec fn named_member_model(f: syn::Field) -> NamedFieldV {
    NamedFieldV {
        attrs: field_attrs_model(f),
        vis: field_vis_model(f),
        name: match field_name_model(f) {
            Some(n) => n,
            None => Seq::empty(),
        },
        ty: field_ty_model(f),
    }
}

/// The model of one tuple member, assembled from the per-part names.
pub open spec fn tuple_member_model(f: syn::Field) -> TupleFieldV {
    TupleFieldV { attrs: field_attrs_model(f), vis: field_vis_model(f), ty: field_ty_model(f) }
}

/// Every part of a named member is printer-made token text (its marker:
/// that, or `pub`).
pub open spec fn named_field_ready(m: NamedFieldV) -> bool {
    &&& forall|j: int| 0 <= j < m.attrs.len() ==> printed(#[trigger] m.attrs[j])
    &&& vis_ready(m.vis)
    &&& printed(m.name)
    &&& printed(m.ty)
}

/// Every part of a tuple member is printer-made token text (its marker:
/// that, or `pub`).
pub open spec fn tuple_field_ready(m: TupleFieldV) -> bool {
    &&& forall|j: int| 0 <= j < m.attrs.len() ==> printed(#[trigger] m.attrs[j])
    &&& vis_ready(m.vis)
    &&& printed(m.ty)
}

/// Every part of the declaration is printer-made token text (each
/// visibility marker: that, or `pub`). The rendering of such a declaration
/// joins complete, balanced, comment-free token texts with spaces around a
/// fixed skeleton, so it lexes.
pub open spec fn emit_ready(d: StructDeclV) -> bool {
    &&& forall|j: int| 0 <= j < d.attrs.len() ==> printed(#[trigger] d.attrs[j])
    &&& vis_ready(d.vis)
    &&& printed(d.name)
    &&& printed(d.generics)
    &&& printed(d.where_clause)
    &&& match d.fields {
        FieldListV::Unit => true,
        FieldListV::Tuple(ms) => forall|j: int|
            0 <= j < ms.len() ==> tuple_field_ready(#[trigger] ms[j]),
        FieldListV::Named(ms) => forall|j: int|
            0 <= j < ms.len() ==> named_field_ready(#[trigger] ms[j]),
    }
}

/// A parsed body, with the members still in `syn`'s form.
pub enum RawFieldList {
    Unit,
    Tuple(Vec<syn::Field>),
    Named(Vec<syn::Field>),
}

/// Relies on `syn::parse2::<syn::ItemStruct>`: `Ok` exactly when the tokens
/// parse as one structure declaration (`parses_as_struct`), and then the
/// parsed item's model is the tokens' own (`model_of`); `Err` with the
/// diagnostic text otherwise.
#[verifier::external_body]
fn parse_item_struct(item: proc_macro2::TokenStream) -> (r: Result<syn::ItemStruct, String>)
    ensures
        r is Ok <==> parses_as_struct(item),
        r matches Ok(i) ==> item_model(i) == model_of(item),
{
    match syn::parse2::<syn::ItemStruct>(item) {
        Ok(parsed) => Ok(parsed),
        Err(e) => Err(e.to_string()),
    }
}

/// Relies on the field `syn::ItemStruct::attrs`: the declaration's
/// attributes, in source order; their texts are the model's.
#[verifier::external_body]
fn item_attrs(item: &syn::ItemStruct) -> (r: &Vec<syn::Attribute>)
    ensures
        r@.len() == item_model(*item).attrs.len(),
        forall|j: int|
            0 <= j < r@.len() ==> #[trigger] attr_model(r@[j]) == item_model(*item).attrs[j],
{
    &item.attrs
}

/// Relies on `quote::ToTokens` for `syn::Visibility` (field
/// `syn::ItemStruct::vis`): the token text of the declaration's visibility
/// marker, empty for inherited (private) visibility; printer output.
#[verifier::external_body]
fn item_vis_text(item: &syn::ItemStruct) -> (r: String)
    ensures
        r@ == item_model(*item).vis,
        printed(r@),
{
    quote::ToTokens::to_token_stream(&item.vis).to_string()
}

/// Relies on `proc_macro2::Ident`'s `Display` (field
/// `syn::ItemStruct::ident`): the declaration's name, one identifier token;
/// printer output.
#[verifier::external_body]
fn item_name_text(item: &syn::ItemStruct) -> (r: String)
    ensures
        r@ == item_model(*item).name,
        printed(r@),
{
    item.ident.to_string()
}

/// Relies on `quote::ToTokens` for `syn::Generics` (field
/// `syn::ItemStruct::generics`): the token text of the generic parameter
/// list `<...>` without the `where` clause, empty when there are no
/// parameters; printer output.
#[verifier::external_body]
fn item_generics_text(item: &syn::ItemStruct) -> (r: String)
    ensures
        r@ == item_model(*item).generics,
        printed(r@),
{
    quote::ToTokens::to_token_stream(&item.generics).to_string()
}

/// Relies on `quote::ToTokens` for `syn::WhereClause` (field
/// `syn::Generics::where_clause`): the token text `where ...`, empty when
/// the declaration has no `where` clause; printer output or empty.
#[verifier::external_body]
fn item_where_text(item: &syn::ItemStruct) -> (r: String)
    ensures
        r@ == item_model(*item).where_clause,
        printed(r@),
{
    match &item.generics.where_clause {
        Some(w) => quote::ToTokens::to_token_stream(w).to_string(),
        None => String::new(),
    }
}

/// Relies on the field `syn::ItemStruct::fields`: the three body shapes of
/// `syn::Fields`, with the members of `syn::FieldsNamed::named` or
/// `syn::FieldsUnnamed::unnamed` in source order, each the model's member.
/// Members of the named form all carry names (`syn::Field::ident` is
/// `Some`): syn parses them with `Field::parse_named`, which always sets
/// the name.
#[verifier::external_body]
fn item_raw_fields(item: &syn::ItemStruct) -> (r: RawFieldList)
    ensures
        r is Unit ==> item_model(*item).fields is Unit,
        r matches RawFieldList::Tuple(fs) ==> {
            &&& item_model(*item).fields is Tuple
            &&& item_model(*item).fields->Tuple_0.len() == fs@.len()
            &&& forall|j: int|
                0 <= j < fs@.len() ==> item_model(*item).fields->Tuple_0[j]
                    == tuple_member_model(#[trigger] fs@[j])
        },
        r matches RawFieldList::Named(fs) ==> {
            &&& item_model(*item).fields is Named
            &&& item_model(*item).fields->Named_0.len() == fs@.len()
            &&& forall|j: int|
                0 <= j < fs@.len() ==> #[trigger] field_name_model(fs@[j]) is Some
            &&& forall|j: int|
                0 <= j < fs@.len() ==> item_model(*item).fields->Named_0[j]
                    == named_member_model(#[trigger] fs@[j])
        },
{
    match &item.fields {
        syn::Fields::Unit => RawFieldList::Unit,
        syn::Fields::Unnamed(fs) => RawFieldList::Tuple(fs.unnamed.iter().cloned().collect()),
        syn::Fields::Named(fs) => RawFieldList::Named(fs.named.iter().cloned().collect()),
    }
}

/// Relies on `syn::punctuated::Punctuated::trailing_punct` (fields
/// `syn::FieldsNamed::named` / `syn::FieldsUnnamed::unnamed`): whether the
/// member list ends with a trailing comma; a unit body has none.
#[verifier::external_body]
fn item_trailing_comma(item: &syn::ItemStruct) -> (r: bool)
    ensures
        r == item_model(*item).trailing_comma,
{
    match &item.fields {
        syn::Fields::Named(fs) => fs.named.trailing_punct(),
        syn::Fields::Unnamed(fs) => fs.unnamed.trailing_punct(),
        syn::Fields::Unit => false,
    }
}

/// Relies on `quote::ToTokens` for `syn::Attribute`: the attribute's token
/// text, `# [...]`; printer output.
#[verifier::external_body]
fn attr_text(attr: &syn::Attribute) -> (r: String)
    ensures
        r@ == attr_model(*attr),
        printed(r@),
{
    quote::ToTokens::to_token_stream(attr).to_string()
}

/// Relies on `quote::ToTokens` for `syn::Visibility` (field
/// `syn::Field::vis`): the token text of the member's visibility marker,
/// empty for inherited (private) visibility; printer output.
#[verifier::external_body]
fn field_vis_text(field: &syn::Field) -> (r: String)
    ensures
        r@ == field_vis_model(*field),
        printed(r@),
{
    quote::ToTokens::to_token_stream(&field.vis).to_string()
}

/// Relies on the field `syn::Field::ident` and `proc_macro2::Ident`'s
/// `Display`: the member's name — `Some` of an identifier token exactly when
/// the member carries a name, `None` for a positional member.
#[verifier::external_body]
fn field_name_text(field: &syn::Field) -> (r: Option<String>)
    ensures
        r is Some <==> field_name_model(*field) is Some,
        r matches Some(n) ==> field_name_model(*field) == Some(n@) && printed(n@),
{
    match &field.ident {
        Some(name) => Some(name.to_string()),
        None => None,
    }
}

/// Relies on `quote::ToTokens` for `syn::Type` (field `syn::Field::ty`):
/// the token text of the member's type; printer output.
#[verifier::external_body]
fn field_ty_text(field: &syn::Field) -> (r: String)
    ensures
        r@ == field_ty_model(*field),
        printed(r@),
{
    quote::ToTokens::to_token_stream(&field.ty).to_string()
}

/// Relies on the field `syn::Field::attrs`: the member's attributes, in
/// source order; their texts are the member model's.
#[verifier::external_body]
fn field_attrs(field: &syn::Field) -> (r: &Vec<syn::Attribute>)
    ensures
        r@.len() == field_attrs_model(*field).len(),
        forall|j: int|
            0 <= j < r@.len() ==> #[trigger] attr_model(r@[j]) == field_attrs_model(*field)[j],
{
    &field.attrs
}

/// Relies on `str::parse::<proc_macro2::TokenStream>`: the rendering of a
/// declaration whose every part is printer-made token text (or the marker
/// `pub`) joins complete, balanced, comment-free token streams with spaces
/// around a fixed skeleton, so it is itself valid token text, lexing it
/// cannot fail, and the result is the tokens the lexer reads out of that
/// text (`lexes_to`).
#[verifier::external_body]
pub(crate) fn lex_rendered(src: &str) -> (r: proc_macro2::TokenStream)
    requires
        exists|d: StructDeclV| src@ == rendered(d) && emit_ready(d),
    ensures
        lexes_to(src@, r),
{
    src.parse::<proc_macro2::TokenStream>().unwrap()
}

/// The token text of every attribute in a list, in order.
fn attr_texts(attrs: &Vec<syn::Attribute>) -> (r: Vec<String>)
    ensures
        r@.len() == attrs@.len(),
        forall|j: int| 0 <= j < r@.len() ==> #[trigger] r@[j]@ == attr_model(attrs@[j]),
        forall|j: int| 0 <= j < r@.len() ==> printed(#[trigger] r@[j]@),
{
    let mut out: Vec<String> = Vec::new();
    let n = attrs.len();
    for i in 0..n
        invariant
            n == attrs@.len(),
            out@.len() == i,
            forall|j: int| 0 <= j < i ==> #[trigger] out@[j]@ == attr_model(attrs@[j]),
            forall|j: int| 0 <= j < i ==> printed(#[trigger] out@[j]@),
    {
        out.push(attr_text(&attrs[i]));
    }
    out
}

/// Read a named-member list out of `syn`'s members: each member's model,
/// in order. A member without a name cannot belong to the named form, so
/// one is reported as malformed input; when every member carries a name —
/// as every member of a parsed named body does — the read succeeds, and
/// every part of the result is printer-made.
fn named_fields_from(fs: &Vec<syn::Field>) -> (r: Result<Vec<NamedField>, RewriteError>)
    ensures
        r matches Ok(ms) ==> ms@.len() == fs@.len(),
        (forall|j: int| 0 <= j < fs@.len() ==> #[trigger] field_name_model(fs@[j]) is Some)
            ==> r is Ok,
        r matches Ok(ms) ==> forall|j: int|
            0 <= j < ms@.len() ==> #[trigger] ms@[j]@ == named_member_model(fs@[j]),
        r matches Ok(ms) ==> forall|j: int|
            0 <= j < ms@.len() ==> named_field_ready(#[trigger] ms@[j]@),
{
    let mut out: Vec<NamedField> = Vec::new();
    let n = fs.len();
    for i in 0..n
        invariant
            n == fs@.len(),
            out@.len() == i,
            forall|j: int| 0 <= j < i ==> #[trigger] out@[j]@ == named_member_model(fs@[j]),
            forall|j: int| 0 <= j < i ==> named_field_ready(#[trigger] out@[j]@),
    {
        let name = match field_name_text(&fs[i]) {
            Some(name) => name,
            None => {
                return Err(
                    RewriteError::MalformedInput(
                        String::from_str("expected a name on every member of a named-member body"),
                    ),
                );
            },
        };
        let member = NamedField {
            attrs: attr_texts(field_attrs(&fs[i])),
            vis: field_vis_text(&fs[i]),
            name,
            ty: field_ty_text(&fs[i]),
        };
        proof {
            assert(member@.attrs =~= field_attrs_model(fs@[i as int]));
            assert(member@ =~= named_member_model(fs@[i as int]));
            assert forall|k: int| 0 <= k < member@.attrs.len() implies printed(
                #[trigger] member@.attrs[k],
            ) by {
                assert(member@.attrs[k] == member.attrs@[k]@);
            }
            assert(named_field_ready(member@));
        }
        out.push(member);
    }
    Ok(out)
}

/// Read a positional-tuple member list out of `syn`'s members: each
/// member's model, in order; every part of the result is printer-made.
fn tuple_fields_from(fs: &Vec<syn::Field>) -> (r: Vec<TupleField>)
    ensures
        r@.len() == fs@.len(),
        forall|j: int| 0 <= j < r@.len() ==> #[trigger] r@[j]@ == tuple_member_model(fs@[j]),
        forall|j: int| 0 <= j < r@.len() ==> tuple_field_ready(#[trigger] r@[j]@),
{
    let mut out: Vec<TupleField> = Vec::new();
    let n = fs.len();
    for i in 0..n
        invariant
            n == fs@.len(),
            out@.len() == i,
            forall|j: int| 0 <= j < i ==> #[trigger] out@[j]@ == tuple_member_model(fs@[j]),
            forall|j: int| 0 <= j < i ==> tuple_field_ready(#[trigger] out@[j]@),
    {
        let member = TupleField {
            attrs: attr_texts(field_attrs(&fs[i])),
            vis: field_vis_text(&fs[i]),
            ty: field_ty_text(&fs[i]),
        };
        proof {
            assert(member@.attrs =~= field_attrs_model(fs@[i as int]));
            assert(member@ =~= tuple_member_model(fs@[i as int]));
            assert forall|k: int| 0 <= k < member@.attrs.len() implies printed(
                #[trigger] member@.attrs[k],
            ) by {
                assert(member@.attrs[k] == member.attrs@[k]@);
            }
            assert(tuple_field_ready(member@));
        }
        out.push(member);
    }
    out
}

/// Parse the annotated tokens into the library's model of a structure
/// declaration: exactly the declaration the tokens parse as (`model_of`)
/// when they parse as one, the malformed-input diagnostic otherwise. Every
/// part of a returned model is printer-made token text, so its rendering
/// lexes again.
pub fn parse_struct_decl(item: proc_macro2::TokenStream) -> (r: Result<StructDecl, RewriteError>)
    ensures
        r is Ok <==> parses_as_struct(item),
        r matches Ok(d) ==> d@ == model_of(item) && emit_ready(d@),
{
    let ghost im: StructDeclV = model_of(item);
    let parsed = match parse_item_struct(item) {
        Ok(parsed) => parsed,
        Err(m) => {
            return Err(RewriteError::MalformedInput(m));
        },
    };
    let fields = match item_raw_fields(&parsed) {
        RawFieldList::Unit => FieldList::Unit,
        RawFieldList::Tuple(fs) => FieldList::Tuple(tuple_fields_from(&fs)),
        RawFieldList::Named(fs) => match named_fields_from(&fs) {
            Ok(ms) => FieldList::Named(ms),
            Err(e) => {
                return Err(e);
            },
        },
    };
    let out = StructDecl {
        attrs: attr_texts(item_attrs(&parsed)),
        vis: item_vis_text(&parsed),
        name: item_name_text(&parsed),
        generics: item_generics_text(&parsed),
        where_clause: item_where_text(&parsed),
        trailing_comma: item_trailing_comma(&parsed),
        fields,
    };
    proof {
        assert(out@.attrs =~= im.attrs);
        assert forall|j: int| 0 <= j < out@.attrs.len() implies printed(
            #[trigger] out@.attrs[j],
        ) by {
            assert(out@.attrs[j] == out.attrs@[j]@);
        }
        match &out.fields {
            FieldList::Unit => {},
            FieldList::Tuple(ms) => {
                assert forall|j: int| 0 <= j < out@.fields->Tuple_0.len() implies {
                    &&& out@.fields->Tuple_0[j] == im.fields->Tuple_0[j]
                    &&& tuple_field_ready(#[trigger] out@.fields->Tuple_0[j])
                } by {
                    assert(out@.fields->Tuple_0[j] == ms@[j]@);
                }
                assert(out@.fields->Tuple_0 =~= im.fields->Tuple_0);
            },
            FieldList::Named(ms) => {
                assert forall|j: int| 0 <= j < out@.fields->Named_0.len() implies {
                    &&& out@.fields->Named_0[j] == im.fields->Named_0[j]
                    &&& named_field_ready(#[trigger] out@.fields->Named_0[j])
                } by {
                    assert(out@.fields->Named_0[j] == ms@[j]@);
                }
                assert(out@.fields->Named_0 =~= im.fields->Named_0);
            },
        }
        assert(out@ =~= im);
        assert(emit_ready(out@));
    }
    Ok(out)
}

} // verus!
