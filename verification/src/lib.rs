//! Rewrites function bodies so that move-closures and move-async-blocks own a
//! duplicate of each captured variable: every identifier used beneath such a
//! capturing boundary is cloned into a fresh shadowing binding placed just
//! before the boundary, so the original variable stays usable afterwards.

use vstd::prelude::*;

pub mod ast;
pub mod clone_on_capture;
pub mod idents;
pub mod laws;
pub mod rewrite;
pub mod scope;

pub use ast::Arm;
pub use ast::ConfigEntry;
pub use ast::Expr;
pub use ast::FnDef;
pub use ast::Pat;
pub use ast::Seg;
pub use ast::Stmt;
pub use ast::Tok;
pub use ast::TransformError;
pub use idents::IdentSet;
pub use scope::Data;
pub use scope::NestBlock;
pub use clone_on_capture::clone_on_capture_impl;
pub use clone_on_capture::cloned_idents_expression;
pub use clone_on_capture::extract_pat;
pub use clone_on_capture::extract_token_stream;
pub use clone_on_capture::parse_generic_expression;
pub use clone_on_capture::parse_generic_statement;
pub use clone_on_capture::parse_statements;

use ast::configs_view;
use rewrite::debug_flag_v;
use rewrite::rewrite_body_v;

verus! {

/// Rewrites a function so that each of its move-closures and
/// move-async-blocks duplicates the variables it captures before capture.
/// The traversal is total over the modeled grammar, so the structured
/// failure of the underlying engine cannot occur.
pub fn clone_on_capture(args: Vec<ConfigEntry>, item: FnDef) -> (r: FnDef)
    ensures
        r@.body == rewrite_body_v(debug_flag_v(configs_view(args@)), item@.body),
{
    match clone_on_capture_impl(args, item) {
        Ok(f) => f,
        Err(_) => {
            proof {
                assert(false);
            }
            FnDef { body: Vec::new() }
        },
    }
}

} // verus!
