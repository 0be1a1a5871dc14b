//! The syntax model that the rewrite works on.
//!
//! A structure declaration is held as plain values: every part that the
//! rewrite copies verbatim (attributes, generic parameters, a `where`
//! clause, member types) is kept as its token text, and the parts the
//! rewrite touches (the declaration's visibility marker and each member's
//! visibility marker) are token text too, so that "fully public" is the
//! marker `pub`.

use vstd::prelude::*;

verus! {

/// A member of a named-member body: `attrs vis name : ty`.
#[derive(Clone, Debug, PartialEq)]
pub struct NamedField {
    /// Token text of each attribute on the member, in order.
    pub attrs: Vec<String>,
    /// Token text of the member's visibility marker (empty for private).
    pub vis: String,
    /// The member's name.
    pub name: String,
    /// Token text of the member's type.
    pub ty: String,
}

/// A member of a positional-tuple body: `attrs vis ty`.
#[derive(Clone, Debug, PartialEq)]
pub struct TupleField {
    /// Token text of each attribute on the member, in order.
    pub attrs: Vec<String>,
    /// Token text of the member's visibility marker (empty for private).
    pub vis: String,
    /// Token text of the member's type.
    pub ty: String,
}

/// The three body shapes a structure declaration can have.
#[derive(Clone, Debug, PartialEq)]
pub enum FieldList {
    /// An empty/unit body, `struct S;`.
    Unit,
    /// A positional-tuple body, `struct S(A, B);`.
    Tuple(Vec<TupleField>),
    /// A named-member body, `struct S { a: A, b: B }`.
    Named(Vec<NamedField>),
}

/// A structure declaration: `attrs vis struct name generics where_clause body`.
#[derive(Clone, Debug, PartialEq)]
pub struct StructDecl {
    /// Token text of each attribute on the declaration, in order.
    pub attrs: Vec<String>,
    /// Token text of the declaration's visibility marker (empty for private).
    pub vis: String,
    /// The declaration's name.
    pub name: String,
    /// Token text of the generic parameter list, `<...>`, or empty.
    pub generics: String,
    /// Token text of the `where` clause, `where ...`, or empty.
    pub where_clause: String,
    /// Whether the member list ends with a trailing comma.
    pub trailing_comma: bool,
    /// The body.
    pub fields: FieldList,
}

/// Mathematical view of a named member.
#[verifier::ext_equal]
pub struct NamedFieldV {
    pub attrs: Seq<Seq<char>>,
    pub vis: Seq<char>,
    pub name: Seq<char>,
    pub ty: Seq<char>,
}

/// Mathematical view of a tuple member.
#[verifier::ext_equal]
pub struct TupleFieldV {
    pub attrs: Seq<Seq<char>>,
    pub vis: Seq<char>,
    pub ty: Seq<char>,
}

/// Mathematical view of a body.
#[verifier::ext_equal]
pub enum FieldListV {
    Unit,
    Tuple(Seq<TupleFieldV>),
    Named(Seq<NamedFieldV>),
}

/// Mathematical view of a structure declaration.
#[verifier::ext_equal]
pub struct StructDeclV {
    pub attrs: Seq<Seq<char>>,
    pub vis: Seq<char>,
    pub name: Seq<char>,
    pub generics: Seq<char>,
    pub where_clause: Seq<char>,
    pub trailing_comma: bool,
    pub fields: FieldListV,
}

/// The view of a list of strings: the sequence of their character sequences.
pub open spec fn texts_view(v: Seq<String>) -> Seq<Seq<char>> {
    v.map_values(|s: String| s@)
}

impl View for NamedField {
    type V = NamedFieldV;

    open spec fn view(&self) -> NamedFieldV {
        NamedFieldV {
            attrs: texts_view(self.attrs@),
            vis: self.vis@,
            name: self.name@,
            ty: self.ty@,
        }
    }
}

impl View for TupleField {
    type V = TupleFieldV;

    open spec fn view(&self) -> TupleFieldV {
        TupleFieldV { attrs: texts_view(self.attrs@), vis: self.vis@, ty: self.ty@ }
    }
}

impl View for FieldList {
    type V = FieldListV;

    open spec fn view(&self) -> FieldListV {
        match self {
            FieldList::Unit => FieldListV::Unit,
            FieldList::Tuple(ms) => FieldListV::Tuple(ms@.map_values(|m: TupleField| m@)),
            FieldList::Named(ms) => FieldListV::Named(ms@.map_values(|m: NamedField| m@)),
        }
    }
}

impl View for StructDecl {
    type V = StructDeclV;

    open spec fn view(&self) -> StructDeclV {
        StructDeclV {
            attrs: texts_view(self.attrs@),
            vis: self.vis@,
            name: self.name@,
            generics: self.generics@,
            where_clause: self.where_clause@,
            trailing_comma: self.trailing_comma,
            fields: self.fields@,
        }
    }
}

/// The one error kind: the annotated construct is not a parseable
/// structure declaration. The payload is the diagnostic text.
#[derive(Clone, Debug, PartialEq)]
pub enum RewriteError {
    MalformedInput(String),
}

} // verus!
