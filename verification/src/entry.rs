//! The annotation's whole job, parse to emit, in one place.

use vstd::prelude::*;

use crate::ast::FieldListV;
use crate::ast::NamedFieldV;
use crate::ast::RewriteError;
use crate::ast::StructDecl;
use crate::ast::StructDeclV;
use crate::bridge::emit_ready;
use crate::bridge::lex_rendered;
use crate::bridge::lexes_to;
use crate::bridge::model_of;
use crate::bridge::named_field_ready;
use crate::bridge::parse_struct_decl;
use crate::bridge::parses_as_struct;
use crate::bridge::vis_ready;
use crate::render::render_struct;
use crate::render::rendered;
use crate::rewrite::make_public;
use crate::rewrite::publicized;
use crate::rewrite::publicized_named_field;

verus! {

/// The rewrite keeps a declaration fit for emission: it only writes the
/// marker `pub`, which the renderer accepts wherever a marker stands.
proof fn lemma_publicized_emit_ready(d: StructDeclV)
    requires
        emit_ready(d),
    ensures
        emit_ready(publicized(d)),
{
    match d.fields {
        FieldListV::Named(ms) => {
            let pf = |m: NamedFieldV| publicized_named_field(m);
            assert forall|j: int| 0 <= j < ms.map_values(pf).len() implies named_field_ready(
                #[trigger] ms.map_values(pf)[j],
            ) by {
                assert(named_field_ready(ms[j]));
                assert(vis_ready(publicized_named_field(ms[j]).vis));
            }
        },
        FieldListV::Tuple(_) => {},
        FieldListV::Unit => {},
    }
}

/// The rewrite from model to output text: the source text of the
/// declaration with its own marker and, for a named-member body, every
/// member's marker set to `pub`, and everything else unchanged.
pub fn rewrite_source(d: StructDecl) -> (r: String)
    ensures
        r@ == rendered(publicized(d@)),
{
    let out = make_public(d);
    render_struct(&out)
}

/// The annotation's entry point: parse the annotated tokens as a structure
/// declaration, force the declaration and every named member fully public,
/// and hand back the replacement tokens — `Ok` exactly when the tokens parse
/// as a structure declaration, and then the tokens that the rewritten,
/// re-rendered declaration lexes to; the single malformed-input diagnostic
/// otherwise. The accompanying configuration tokens `_attr` are accepted and
/// have no effect.
pub fn public_fields(
    _attr: proc_macro2::TokenStream,
    item: proc_macro2::TokenStream,
) -> (r: Result<proc_macro2::TokenStream, RewriteError>)
    ensures
        r is Ok <==> parses_as_struct(item),
        r matches Ok(t) ==> lexes_to(rendered(publicized(model_of(item))), t),
{
    let ghost target: StructDeclV = model_of(item);
    let decl = match parse_struct_decl(item) {
        Ok(decl) => decl,
        Err(e) => {
            return Err(e);
        },
    };
    let ghost dv: StructDeclV = decl@;
    let src = rewrite_source(decl);
    proof {
        lemma_publicized_emit_ready(dv);
        assert(exists|m: StructDeclV| src@ == rendered(m) && emit_ready(m)) by {
            assert(src@ == rendered(publicized(dv)) && emit_ready(publicized(dv)));
        }
    }
    let out = lex_rendered(src.as_str());
    proof {
        assert(dv == target);
        assert(lexes_to(rendered(publicized(target)), out));
    }
    Ok(out)
}

} // verus!
