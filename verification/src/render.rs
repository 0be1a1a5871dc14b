//! Re-serialization of the syntax model: turn a `StructDecl` back into
//! source text whose tokens are the declaration. Every part is already held
//! as token text, so rendering is concatenation with single-space and comma
//! separators; a trailing comma appears exactly where the declaration had
//! one.

use vstd::prelude::*;
use vstd::string::StringExecFns;

use crate::ast::FieldList;
use crate::ast::FieldListV;
use crate::ast::NamedField;
use crate::ast::NamedFieldV;
use crate::ast::StructDecl;
use crate::ast::StructDeclV;
use crate::ast::TupleField;
use crate::ast::TupleFieldV;
use crate::ast::texts_view;

verus! {

/// Concatenation of `parts`, each part followed by one copy of `sep`.
pub open spec fn cat_texts(parts: Seq<Seq<char>>, sep: Seq<char>) -> Seq<char>
    decreases parts.len(),
{
    if parts.len() == 0 {
        Seq::empty()
    } else {
        cat_texts(parts.drop_last(), sep) + parts.last() + sep
    }
}

/// Concatenation of `parts` with one copy of `sep` between neighbours and
/// none at the ends.
pub open spec fn cat_between(parts: Seq<Seq<char>>, sep: Seq<char>) -> Seq<char>
    decreases parts.len(),
{
    if parts.len() == 0 {
        Seq::empty()
    } else if parts.len() == 1 {
        parts[0]
    } else {
        cat_between(parts.drop_last(), sep) + sep + parts.last()
    }
}

/// What follows the last member: the trailing comma when the declaration
/// had one and there is a member to follow, a plain space otherwise.
pub open spec fn members_tail(trailing: bool, n: nat) -> Seq<char> {
    if trailing && n > 0 {
        " , "@
    } else {
        " "@
    }
}

/// Text of one named member: `attrs vis name : ty`.
pub open spec fn rendered_named_field(m: NamedFieldV) -> Seq<char> {
    cat_texts(m.attrs, " "@) + m.vis + " "@ + m.name + " : "@ + m.ty
}

/// Text of one tuple member: `attrs vis ty`.
pub open spec fn rendered_tuple_field(m: TupleFieldV) -> Seq<char> {
    cat_texts(m.attrs, " "@) + m.vis + " "@ + m.ty
}

/// Text of a whole declaration: attributes, visibility, `struct`, name,
/// generics, then the body in its shape's concrete syntax (`;` for a unit
/// body, parentheses before the `where` clause and `;` for a tuple body,
/// braces after the `where` clause for a named body).
pub open spec fn rendered(d: StructDeclV) -> Seq<char> {
    let head = cat_texts(d.attrs, " "@) + d.vis + " struct "@ + d.name + " "@ + d.generics + " "@;
    match d.fields {
        FieldListV::Unit => head + d.where_clause + " ;"@,
        FieldListV::Tuple(ms) => head + "( "@ + cat_between(
            ms.map_values(|m: TupleFieldV| rendered_tuple_field(m)),
            " , "@,
        ) + members_tail(d.trailing_comma, ms.len()) + ") "@ + d.where_clause + " ;"@,
        FieldListV::Named(ms) => head + d.where_clause + " { "@ + cat_between(
            ms.map_values(|m: NamedFieldV| rendered_named_field(m)),
            " , "@,
        ) + members_tail(d.trailing_comma, ms.len()) + "}"@,
    }
}

/// Append every part of `parts`, each followed by `sep`, to `acc`.
fn append_texts(acc: &mut String, parts: &Vec<String>, sep: &str)
    ensures
        final(acc)@ == old(acc)@ + cat_texts(texts_view(parts@), sep@),
{
    let ghost acc0: Seq<char> = acc@;
    let ghost tv: Seq<Seq<char>> = texts_view(parts@);
    let n = parts.len();
    for i in 0..n
        invariant
            n == parts@.len(),
            tv == texts_view(parts@),
            acc@ == acc0 + cat_texts(tv.take(i as int), sep@),
    {
        acc.append(parts[i].as_str());
        acc.append(sep);
        proof {
            let upto = tv.take(i + 1);
            assert(upto.drop_last() =~= tv.take(i as int));
            assert(upto.last() == parts@[i as int]@);
            assert(acc@ =~= acc0 + cat_texts(upto, sep@));
        }
    }
    proof {
        assert(tv.take(n as int) =~= tv);
    }
}

/// Append every part of `parts` to `acc`, with `sep` between neighbours.
fn append_separated(acc: &mut String, parts: &Vec<String>, sep: &str)
    ensures
        final(acc)@ == old(acc)@ + cat_between(texts_view(parts@), sep@),
{
    let ghost acc0: Seq<char> = acc@;
    let ghost tv: Seq<Seq<char>> = texts_view(parts@);
    let n = parts.len();
    for i in 0..n
        invariant
            n == parts@.len(),
            tv == texts_view(parts@),
            acc@ == acc0 + cat_between(tv.take(i as int), sep@),
    {
        if i > 0 {
            acc.append(sep);
        }
        acc.append(parts[i].as_str());
        proof {
            let upto = tv.take(i + 1);
            assert(upto.drop_last() =~= tv.take(i as int));
            assert(upto.last() == parts@[i as int]@);
            assert(acc@ =~= acc0 + cat_between(upto, sep@));
        }
    }
    proof {
        assert(tv.take(n as int) =~= tv);
    }
}

/// Append the tail after the last member: the trailing comma or a space.
fn append_members_tail(acc: &mut String, trailing: bool, n: usize)
    ensures
        final(acc)@ == old(acc)@ + members_tail(trailing, n as nat),
{
    if trailing && n > 0 {
        acc.append(" , ");
    } else {
        acc.append(" ");
    }
}

/// Render one named member.
fn render_named_field(m: &NamedField) -> (r: String)
    ensures
        r@ == rendered_named_field(m@),
{
    let mut s = String::new();
    append_texts(&mut s, &m.attrs, " ");
    s.append(m.vis.as_str());
    s.append(" ");
    s.append(m.name.as_str());
    s.append(" : ");
    s.append(m.ty.as_str());
    proof {
        assert(s@ =~= rendered_named_field(m@));
    }
    s
}

/// Render one tuple member.
fn render_tuple_field(m: &TupleField) -> (r: String)
    ensures
        r@ == rendered_tuple_field(m@),
{
    let mut s = String::new();
    append_texts(&mut s, &m.attrs, " ");
    s.append(m.vis.as_str());
    s.append(" ");
    s.append(m.ty.as_str());
    proof {
        assert(s@ =~= rendered_tuple_field(m@));
    }
    s
}

/// Render every named member, in order.
fn render_named_fields(ms: &Vec<NamedField>) -> (r: Vec<String>)
    ensures
        texts_view(r@) == ms@.map_values(|m: NamedField| m@).map_values(
            |m: NamedFieldV| rendered_named_field(m),
        ),
{
    let ghost goal: Seq<Seq<char>> = ms@.map_values(|m: NamedField| m@).map_values(
        |m: NamedFieldV| rendered_named_field(m),
    );
    let mut out: Vec<String> = Vec::new();
    let n = ms.len();
    for i in 0..n
        invariant
            n == ms@.len(),
            goal == ms@.map_values(|m: NamedField| m@).map_values(
                |m: NamedFieldV| rendered_named_field(m),
            ),
            out@.len() == i,
            forall|j: int| 0 <= j < i ==> out@[j]@ == goal[j],
    {
        out.push(render_named_field(&ms[i]));
    }
    proof {
        assert(texts_view(out@) =~= goal);
    }
    out
}

/// Render every tuple member, in order.
fn render_tuple_fields(ms: &Vec<TupleField>) -> (r: Vec<String>)
    ensures
        texts_view(r@) == ms@.map_values(|m: TupleField| m@).map_values(
            |m: TupleFieldV| rendered_tuple_field(m),
        ),
{
    let ghost goal: Seq<Seq<char>> = ms@.map_values(|m: TupleField| m@).map_values(
        |m: TupleFieldV| rendered_tuple_field(m),
    );
    let mut out: Vec<String> = Vec::new();
    let n = ms.len();
    for i in 0..n
        invariant
            n == ms@.len(),
            goal == ms@.map_values(|m: TupleField| m@).map_values(
                |m: TupleFieldV| rendered_tuple_field(m),
            ),
            out@.len() == i,
            forall|j: int| 0 <= j < i ==> out@[j]@ == goal[j],
    {
        out.push(render_tuple_field(&ms[i]));
    }
    proof {
        assert(texts_view(out@) =~= goal);
    }
    out
}

/// Render a whole declaration to source text whose tokens are exactly the
/// declaration `rendered` describes.
pub fn render_struct(d: &StructDecl) -> (r: String)
    ensures
        r@ == rendered(d@),
{
    let mut s = String::new();
    append_texts(&mut s, &d.attrs, " ");
    s.append(d.vis.as_str());
    s.append(" struct ");
    s.append(d.name.as_str());
    s.append(" ");
    s.append(d.generics.as_str());
    s.append(" ");
    match &d.fields {
        FieldList::Unit => {
            s.append(d.where_clause.as_str());
            s.append(" ;");
        },
        FieldList::Tuple(ms) => {
            s.append("( ");
            let parts = render_tuple_fields(ms);
            append_separated(&mut s, &parts, " , ");
            append_members_tail(&mut s, d.trailing_comma, parts.len());
            s.append(") ");
            s.append(d.where_clause.as_str());
            s.append(" ;");
        },
        FieldList::Named(ms) => {
            s.append(d.where_clause.as_str());
            s.append(" { ");
            let parts = render_named_fields(ms);
            append_separated(&mut s, &parts, " , ");
            append_members_tail(&mut s, d.trailing_comma, parts.len());
            s.append("}");
        },
    }
    proof {
        assert(s@ =~= rendered(d@));
    }
    s
}

} // verus!
