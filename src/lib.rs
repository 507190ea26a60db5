//! Schema-driven generation of CRUD access interfaces and request handlers.
//!
//! A schema names a repository and declares objects of six kinds (root,
//! ordered and unordered child collections, batches, singletons and
//! singleton families). [`compile_schema`] parses and validates it; the
//! resulting model gives, for every object, the methods of its interface
//! ([`surface::Method`]) and the names they are emitted under, and
//! [`handler::plan_request`] decides what a generated request handler does
//! with each request envelope. [`generate`] renders all of it as source
//! text: the repository trait, each object's interface and forwarding
//! implementation, and the request handlers.
use vstd::prelude::*;

pub mod emit;
pub mod handler;
pub mod ident;
pub mod model;
pub mod schema;
pub mod surface;
pub mod text;

use crate::emit::generated_source;
use crate::model::{
    ConfigModel, ConfigModelView, build_model, dangling, lemma_built_objects_wf, model_spans_in, references, resolves,
};
use crate::schema::{ConfigAst, SchemaError, SchemaErrorKind, parse_schema};

verus! {

/// The model that schema text describes before its names are resolved, or
/// the first parse or declaration error.
pub open spec fn built(text: Seq<char>) -> Result<ConfigModelView, SchemaError> {
    match parse_schema(text) {
        Err(e) => Err(e),
        Ok(ast) => build_model(ast),
    }
}

/// Parses and validates schema text. Succeeds exactly when the text parses,
/// every declaration is valid for its kind, and every parent and child name
/// is declared; a dangling name is reported at one of its occurrences.
pub fn compile_schema(text: &str) -> (r: Result<ConfigModel, SchemaError>)
    ensures
        match r {
            Ok(m) => built(text@) == Ok::<ConfigModelView, SchemaError>(m@) && resolves(m@) && model_spans_in(m@)
                && forall|i: int| 0 <= i < m@.objects.len() ==> (#[trigger] m@.objects[i]).wf(),
            Err(e) => built(text@) == Err::<ConfigModelView, SchemaError>(e) || (built(text@) is Ok && ({
                let m = built(text@)->Ok_0;
                &&& e.kind == SchemaErrorKind::UnknownObject
                &&& exists|i: int, k: int| dangling(m, i, k) && references(m.objects[i])[k].start == e.pos
            })),
        },
{
    let ast = match ConfigAst::parse(text) {
        Err(e) => {
            return Err(e);
        },
        Ok(ast) => ast,
    };
    let ghost av = ast@;
    let m = match ConfigModel::try_from(ast) {
        Err(e) => {
            return Err(e);
        },
        Ok(m) => m,
    };
    match m.check_references() {
        Err(e) => {
            assert(built(text@)->Ok_0 == m@);
            Err(e)
        },
        Ok(()) => {
            proof {
                lemma_built_objects_wf(av.objects, av.objects.len());
            }
            Ok(m)
        },
    }
}

/// Compiles schema text and renders everything it generates: the source of
/// the interfaces, their forwarding implementations, the repository trait
/// and the request handlers, or the schema error of [`compile_schema`].
pub fn generate(text: &str) -> (r: Result<String, SchemaError>)
    ensures
        match r {
            Ok(src) => built(text@) is Ok && resolves(built(text@)->Ok_0) && src@ == generated_source(
                built(text@)->Ok_0,
            ),
            Err(e) => built(text@) == Err::<ConfigModelView, SchemaError>(e) || (built(text@) is Ok && ({
                let m = built(text@)->Ok_0;
                &&& e.kind == SchemaErrorKind::UnknownObject
                &&& exists|i: int, k: int| dangling(m, i, k) && references(m.objects[i])[k].start == e.pos
            })),
        },
{
    match compile_schema(text) {
        Err(e) => Err(e),
        Ok(m) => Ok(m.generate()),
    }
}

} // verus!
