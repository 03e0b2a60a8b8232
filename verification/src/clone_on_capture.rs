//! The executable walker: a total, depth-first rewrite of every statement and
//! expression shape, proved equal to the ghost model in [`crate::rewrite`].
//!
//! Each `parse_*` function handles one node shape: it rewrites the children
//! by recursion, attributes identifier uses to scope frames at reference
//! sites, and replaces each move-capturing boundary with a block that first
//! duplicates every identifier the boundary uses.

use vstd::prelude::*;
use vstd::string::StringExecFns;
use crate::ast::Arm;
use crate::ast::ConfigEntry;
use crate::ast::Expr;
use crate::ast::FnDef;
use crate::ast::Pat;
use crate::ast::Seg;
use crate::ast::Stmt;
use crate::ast::Tok;
use crate::ast::TransformError;
use crate::ast::arm_view;
use crate::ast::arms_view;
use crate::ast::config_view;
use crate::ast::configs_view;
use crate::ast::expr_view;
use crate::ast::exprs_view;
use crate::ast::opt_expr_view;
use crate::ast::pat_view;
use crate::ast::pats_view;
use crate::ast::seg_view;
use crate::ast::segs_view;
use crate::ast::stmt_view;
use crate::ast::stmts_view;
use crate::ast::tok_view;
use crate::ast::toks_view;
use crate::ast::ArmV;
use crate::ast::ExprV;
use crate::ast::SegV;
use crate::ast::StmtV;
use crate::idents::IdentSet;
use crate::idents::is_reserved_name;
use crate::idents::names_view;
use crate::rewrite::bind_pats_v;
use crate::rewrite::ci_v;
use crate::rewrite::clone_init_v;
use crate::rewrite::clone_stmt_v;
use crate::rewrite::debug_flag_v;
use crate::rewrite::debug_word_v;
use crate::rewrite::extract_pat_v;
use crate::rewrite::extract_pats_v;
use crate::rewrite::is_debug_entry_v;
use crate::rewrite::lemma_bind_pats_len;
use crate::rewrite::lemma_walk_expr_len;
use crate::rewrite::lemma_walk_opt_len;
use crate::rewrite::lemma_walk_stmts_len;
use crate::rewrite::record_segs_v;
use crate::rewrite::rewrite_body_v;
use crate::rewrite::synth_v;
use crate::rewrite::token_idents_v;
use crate::rewrite::walk_arm_v;
use crate::rewrite::walk_arms_v;
use crate::rewrite::walk_expr_v;
use crate::rewrite::walk_exprs_v;
use crate::rewrite::walk_opt_v;
use crate::rewrite::walk_stmt_v;
use crate::rewrite::walk_stmts_v;
use crate::scope::Data;
use crate::scope::NestBlock;
use crate::scope::bind_v;
use crate::scope::pop_frame_v;
use crate::scope::push_frame_v;
use crate::scope::record_names_v;

verus! {

broadcast use {
    crate::ast::lemma_push_parts,
    crate::ast::lemma_stmts_view_len,
    crate::ast::lemma_stmts_view_index,
    crate::ast::lemma_exprs_view_len,
    crate::ast::lemma_exprs_view_index,
    crate::ast::lemma_pats_view_len,
    crate::ast::lemma_pats_view_index,
    crate::ast::lemma_toks_view_len,
    crate::ast::lemma_toks_view_index,
    crate::ast::lemma_arms_view_len,
    crate::ast::lemma_arms_view_index,
};

// ----------------------------------------------------------------------------
// Pattern and token extraction.
// ----------------------------------------------------------------------------

/// The identifiers a pattern introduces, honoring the reserved-prefix and
/// mutability opt-outs.
pub fn extract_pat(pat: &Pat) -> (r: IdentSet)
    ensures
        r@ == extract_pat_v(pat_view(*pat)),
    decreases *pat,
{
    match pat {
        Pat::Name { name, mutable, sub } => {
            let mut result = IdentSet::new();
            let ignore = is_reserved_name(name) || *mutable;
            if !ignore {
                result.insert(name.clone());
                proof {
                    assert(result@ =~= seq![name@]);
                }
            }
            match sub {
                Some(sp) => {
                    let inner = extract_pat(sp);
                    result.union_with(&inner);
                },
                None => {},
            }
            result
        },
        Pat::Struct(ps) => extract_pat_list(ps),
        Pat::Tuple(ps) => extract_pat_list(ps),
        Pat::TupleStruct(ps) => extract_pat_list(ps),
        Pat::Typed(b) => extract_pat(b),
        Pat::Other => IdentSet::new(),
    }
}

/// The union of the identifiers of a list of patterns, left to right.
pub fn extract_pat_list(ps: &Vec<Pat>) -> (r: IdentSet)
    ensures
        r@ == extract_pats_v(pats_view(ps@)),
    decreases ps@,
{
    let mut result = IdentSet::new();
    let mut i: usize = 0;
    while i < ps.len()
        invariant
            i <= ps.len(),
            result@ == extract_pats_v(pats_view(ps@.subrange(0, i as int))),
        decreases ps.len() - i,
    {
        let ghost pre = ps@.subrange(0, i as int);
        proof {
            assert(decreases_to!(ps@ => ps@[i as int]));
        }
        let inner = extract_pat(&ps[i]);
        result.union_with(&inner);
        proof {
            let cur = ps@.subrange(0, i as int + 1);
            assert(cur == pre.push(ps@[i as int]));
            assert(pats_view(cur) == pats_view(pre).push(pat_view(ps@[i as int])));
        }
        i = i + 1;
    }
    proof {
        assert(ps@.subrange(0, ps.len() as int) =~= ps@);
    }
    result
}

/// Every bare identifier token of a macro token stream, groups included.
pub fn extract_token_stream(stream: &Vec<Tok>) -> (r: IdentSet)
    ensures
        r@ == token_idents_v(toks_view(stream@)),
    decreases stream@,
{
    let mut result = IdentSet::new();
    let mut i: usize = 0;
    while i < stream.len()
        invariant
            i <= stream.len(),
            result@ == token_idents_v(toks_view(stream@.subrange(0, i as int))),
        decreases stream.len() - i,
    {
        let ghost pre = stream@.subrange(0, i as int);
        proof {
            let cur = stream@.subrange(0, i as int + 1);
            assert(cur == pre.push(stream@[i as int]));
            assert(toks_view(cur) == toks_view(pre).push(tok_view(stream@[i as int])));
        }
        match &stream[i] {
            Tok::Group(g) => {
                proof {
                    assert(decreases_to!(stream@ => stream@[i as int]));
                    assert(decreases_to!(stream@ => g@));
                }
                let inner = extract_token_stream(g);
                result.union_with(&inner);
            },
            Tok::Name(s) => {
                result.insert(s.clone());
            },
            Tok::Other => {},
        }
        i = i + 1;
    }
    proof {
        assert(stream@.subrange(0, stream.len() as int) =~= stream@);
    }
    result
}

// ----------------------------------------------------------------------------
// Attribution helpers.
// ----------------------------------------------------------------------------

/// Records a use of every name of the list, in order.
fn push_usage_names(data: &mut Data, names: &Vec<String>)
    ensures
        final(data)@ == record_names_v(old(data)@, names_view(names@)),
{
    let mut i: usize = 0;
    while i < names.len()
        invariant
            i <= names.len(),
            data@ == record_names_v(old(data)@, names_view(names@).subrange(0, i as int)),
        decreases names.len() - i,
    {
        let ghost pre = names_view(names@).subrange(0, i as int);
        let _r = data.push_usage(names[i].clone());
        proof {
            let full = names_view(names@);
            let cur = full.subrange(0, i as int + 1);
            assert(cur == pre.push(full[i as int]));
        }
        i = i + 1;
    }
    proof {
        assert(names_view(names@).subrange(0, names.len() as int) =~= names_view(names@));
    }
}

/// Binds the parameters of a closure, one pattern after the other.
fn bind_params(data: &mut Data, params: &Vec<Pat>)
    ensures
        final(data)@ == bind_pats_v(old(data)@, pats_view(params@)),
{
    let mut i: usize = 0;
    while i < params.len()
        invariant
            i <= params.len(),
            data@ == bind_pats_v(old(data)@, pats_view(params@.subrange(0, i as int))),
        decreases params.len() - i,
    {
        let ghost pre = params@.subrange(0, i as int);
        let ids = extract_pat(&params[i]);
        data.push_idents(&ids);
        proof {
            let cur = params@.subrange(0, i as int + 1);
            assert(cur == pre.push(params@[i as int]));
            assert(pats_view(cur) == pats_view(pre).push(pat_view(params@[i as int])));
        }
        i = i + 1;
    }
    proof {
        assert(params@.subrange(0, params.len() as int) =~= params@);
    }
}

// ----------------------------------------------------------------------------
// Duplication synthesis.
// ----------------------------------------------------------------------------

/// Wraps a capturing boundary in a block that first duplicates every used
/// identifier (`let <n> = <n>.clone();`, in set order) and ends with the
/// boundary itself.  A boundary with no used identifier is returned as it is.
pub fn cloned_idents_expression(idents: &IdentSet, expr: Expr) -> (r: Expr)
    ensures
        expr_view(r) == synth_v(idents@, expr_view(expr)),
{
    if idents.len() == 0 {
        return expr;
    }
    let ghost target = Seq::new(idents@.len(), |i: int| clone_stmt_v(idents@[i]));
    let mut stmts: Vec<Stmt> = Vec::new();
    let mut i: usize = 0;
    while i < idents.items.len()
        invariant
            i <= idents.items.len(),
            stmts@.len() == i,
            target == Seq::new(idents@.len(), |k: int| clone_stmt_v(idents@[k])),
            forall|k: int| 0 <= k < i ==> stmt_view(#[trigger] stmts@[k]) == target[k],
        decreases idents.items.len() - i,
    {
        let name = idents.items[i].clone();
        let mut segments: Vec<Seg> = Vec::new();
        segments.push(Seg { name: name.clone(), extra: Vec::new() });
        let receiver = Expr::Path { leading_colon: false, segments };
        proof {
            let n = idents@[i as int];
            assert(segments@[0].name@ == n);
            assert(segments@[0].extra@ =~= Seq::<String>::empty());
            assert(seg_view(segments@[0]).extra =~= Seq::<Seq<char>>::empty());
            assert(segs_view(segments@) =~= seq![SegV { name: n, extra: Seq::empty() }]);
        }
        let ghost rv = expr_view(receiver);
        let init = Expr::MethodCall {
            receiver: Box::new(receiver),
            method: String::from_str("clone"),
            args: Vec::new(),
        };
        let ghost iv = expr_view(init);
        proof {
            let n = idents@[i as int];
            assert(rv == (ExprV::Path {
                leading_colon: false,
                segments: seq![SegV { name: n, extra: Seq::empty() }],
            }));
            assert(exprs_view(Seq::<Expr>::empty()) =~= Seq::<ExprV>::empty());
            assert(iv == clone_init_v(n));
        }
        let stmt = Stmt::Local {
            pat: Pat::Name { name, mutable: false, sub: None },
            init: Some(Box::new(init)),
        };
        proof {
            let n = idents@[i as int];
            assert(stmt_view(stmt) == clone_stmt_v(n));
        }
        stmts.push(stmt);
        i = i + 1;
    }
    let ghost ev = expr_view(expr);
    stmts.push(Stmt::Expr(expr));
    let ghost full = stmts@;
    let out = Expr::Block(stmts);
    proof {
        assert(stmts_view(full) =~= target.push(StmtV::Expr(ev)));
        assert(expr_view(out) == synth_v(idents@, ev));
    }
    out
}


// ----------------------------------------------------------------------------
// The walk: lists, options and arms.
// ----------------------------------------------------------------------------

#[verifier::loop_isolation(false)]
pub fn parse_statements(data: &mut Data, stmts: Vec<Stmt>) -> (r: Vec<Stmt>)
    ensures
        final(data)@ == walk_stmts_v(old(data)@, stmts_view(stmts@)).0,
        stmts_view(r@) == walk_stmts_v(old(data)@, stmts_view(stmts@)).1,
    decreases stmts, 0int,
{
    let ghost ss0 = stmts;
    let ghost ov = stmts_view(stmts@);
    let mut v = stmts;
    let mut out: Vec<Stmt> = Vec::new();
    while v.len() > 0
        invariant
            out@.len() + v@.len() == ss0@.len(),
            v@ == ss0@.subrange(out@.len() as int, ss0@.len() as int),
            ov == stmts_view(ss0@),
            data@ == walk_stmts_v(old(data)@, ov.subrange(0, out@.len() as int)).0,
            stmts_view(out@) == walk_stmts_v(old(data)@, ov.subrange(0, out@.len() as int)).1,
        decreases v.len(),
    {
        let ghost k = out@.len() as int;
        let first = v.remove(0);
        proof {
            assert(first == ss0@[k]);
            assert(decreases_to!(ss0@ => ss0@[k]));
            assert(decreases_to!(ss0 => first));
            assert(ov[k] == stmt_view(first));
        }
        let s2 = parse_generic_statement(data, first);
        out.push(s2);
        proof {
            let pre = ov.subrange(0, k);
            let cur = ov.subrange(0, k + 1);
            assert(cur.drop_last() =~= pre);
            assert(cur.last() == ov[k]);
            assert(v@ =~= ss0@.subrange(out@.len() as int, ss0@.len() as int));
        }
    }
    proof {
        assert(ov.subrange(0, out@.len() as int) =~= ov);
    }
    out
}

#[verifier::loop_isolation(false)]
pub fn parse_expr_list(data: &mut Data, exprs: Vec<Expr>) -> (r: Vec<Expr>)
    ensures
        final(data)@ == walk_exprs_v(old(data)@, exprs_view(exprs@)).0,
        exprs_view(r@) == walk_exprs_v(old(data)@, exprs_view(exprs@)).1,
    decreases exprs, 0int,
{
    let ghost es0 = exprs;
    let ghost ov = exprs_view(exprs@);
    let mut v = exprs;
    let mut out: Vec<Expr> = Vec::new();
    while v.len() > 0
        invariant
            out@.len() + v@.len() == es0@.len(),
            v@ == es0@.subrange(out@.len() as int, es0@.len() as int),
            ov == exprs_view(es0@),
            data@ == walk_exprs_v(old(data)@, ov.subrange(0, out@.len() as int)).0,
            exprs_view(out@) == walk_exprs_v(old(data)@, ov.subrange(0, out@.len() as int)).1,
        decreases v.len(),
    {
        let ghost k = out@.len() as int;
        let first = v.remove(0);
        proof {
            assert(first == es0@[k]);
            assert(decreases_to!(es0@ => es0@[k]));
            assert(decreases_to!(es0 => first));
            assert(ov[k] == expr_view(first));
        }
        let e2 = parse_generic_expression(data, first);
        out.push(e2);
        proof {
            let pre = ov.subrange(0, k);
            let cur = ov.subrange(0, k + 1);
            assert(cur.drop_last() =~= pre);
            assert(cur.last() == ov[k]);
            assert(v@ =~= es0@.subrange(out@.len() as int, es0@.len() as int));
        }
    }
    proof {
        assert(ov.subrange(0, out@.len() as int) =~= ov);
    }
    out
}

#[verifier::loop_isolation(false)]
pub fn parse_opt_expression(data: &mut Data, opt: Option<Box<Expr>>) -> (r: Option<Box<Expr>>)
    ensures
        final(data)@ == walk_opt_v(old(data)@, opt_expr_view(opt)).0,
        opt_expr_view(r) == walk_opt_v(old(data)@, opt_expr_view(opt)).1,
    decreases opt, 0int,
{
    match opt {
        Some(b) => {
            let e2 = parse_generic_expression(data, *b);
            Some(Box::new(e2))
        },
        None => None,
    }
}

#[verifier::loop_isolation(false)]
#[verifier::rlimit(60)]
pub fn parse_arms(data: &mut Data, arms: Vec<Arm>) -> (r: Vec<Arm>)
    ensures
        final(data)@ == walk_arms_v(old(data)@, arms_view(arms@)).0,
        arms_view(r@) == walk_arms_v(old(data)@, arms_view(arms@)).1,
    decreases arms, 0int,
{
    let ghost as0 = arms;
    let ghost ov = arms_view(arms@);
    let mut v = arms;
    let mut out: Vec<Arm> = Vec::new();
    while v.len() > 0
        invariant
            out@.len() + v@.len() == as0@.len(),
            v@ == as0@.subrange(out@.len() as int, as0@.len() as int),
            ov == arms_view(as0@),
            data@ == walk_arms_v(old(data)@, ov.subrange(0, out@.len() as int)).0,
            arms_view(out@) == walk_arms_v(old(data)@, ov.subrange(0, out@.len() as int)).1,
        decreases v.len(),
    {
        let ghost k = out@.len() as int;
        let first = v.remove(0);
        proof {
            assert(first == as0@[k]);
            assert(decreases_to!(as0@ => as0@[k]));
            assert(decreases_to!(as0 => first));
            assert(ov[k] == arm_view(first));
        }
        let ghost da = data@;
        let Arm { pat, guard, body } = first;
        let ghost pv = pat_view(pat);
        let ghost gv = opt_expr_view(guard);
        let ghost bv = expr_view(*body);
        data.push_nested_block(false);
        let ids = extract_pat(&pat);
        data.push_idents(&ids);
        let ghost d2v = data@;
        proof {
            assert(decreases_to!(as0 => guard));
        }
        let g2 = parse_opt_expression(data, guard);
        let ghost d3v = data@;
        proof {
            assert(decreases_to!(as0 => body));
        }
        let b2 = parse_generic_expression(data, *body);
        let ghost d4v = data@;
        proof {
            lemma_walk_opt_len(d2v, gv);
            lemma_walk_expr_len(d3v, bv);
        }
        let _p = data.pop_nested_block();
        let ghost g2v = opt_expr_view(g2);
        let ghost b2v = expr_view(b2);
        out.push(Arm { pat, guard: g2, body: Box::new(b2) });
        proof {
            let av = ov[k];
            assert(av.pat == pv);
            assert(av.guard == gv);
            assert(*av.body == bv);
            assert(d2v == bind_v(push_frame_v(da, false), extract_pat_v(av.pat)));
            assert((d3v, g2v) == walk_opt_v(d2v, av.guard));
            assert((d4v, b2v) == walk_expr_v(d3v, *av.body));
            assert(data@ == pop_frame_v(d4v));
            assert(arm_view(out@.last()) == (ArmV { pat: pv, guard: g2v, body: Box::new(b2v) }));
            assert((data@, arm_view(out@.last())) == walk_arm_v(da, av));
            let pre = ov.subrange(0, k);
            let cur = ov.subrange(0, k + 1);
            assert(cur.drop_last() =~= pre);
            assert(cur.last() == ov[k]);
            assert(v@ =~= as0@.subrange(out@.len() as int, as0@.len() as int));
        }
    }
    proof {
        assert(ov.subrange(0, out@.len() as int) =~= ov);
    }
    out
}

// ----------------------------------------------------------------------------
// Statements.
// ----------------------------------------------------------------------------

#[verifier::loop_isolation(false)]
pub fn parse_generic_statement(data: &mut Data, stmt: Stmt) -> (r: Stmt)
    ensures
        final(data)@ == walk_stmt_v(old(data)@, stmt_view(stmt)).0,
        stmt_view(r) == walk_stmt_v(old(data)@, stmt_view(stmt)).1,
    decreases stmt, 0int,
{
    match stmt {
        Stmt::Local { pat, init } => {
            let i2 = parse_opt_expression(data, init);
            let ids = extract_pat(&pat);
            data.push_idents(&ids);
            Stmt::Local { pat, init: i2 }
        },
        Stmt::ItemConst { value } => {
            let v2 = parse_generic_expression(data, *value);
            Stmt::ItemConst { value: Box::new(v2) }
        },
        Stmt::ItemFn { body } => {
            let ghost b0 = body@;
            data.push_nested_block(false);
            let ghost d1 = data@;
            let b2 = parse_statements(data, body);
            proof {
                lemma_walk_stmts_len(d1, stmts_view(b0));
            }
            let _p = data.pop_nested_block();
            Stmt::ItemFn { body: b2 }
        },
        Stmt::ItemOther => Stmt::ItemOther,
        Stmt::Expr(e) => {
            let e2 = parse_generic_expression(data, e);
            Stmt::Expr(e2)
        },
        Stmt::Macro(ts) => {
            let ids = extract_token_stream(&ts);
            push_usage_names(data, &ids.items);
            Stmt::Macro(ts)
        },
    }
}

// ----------------------------------------------------------------------------
// Expression dispatch.
// ----------------------------------------------------------------------------

pub fn parse_generic_expression(data: &mut Data, expr: Expr) -> (r: Expr)
    ensures
        final(data)@ == walk_expr_v(old(data)@, expr_view(expr)).0,
        expr_view(r) == walk_expr_v(old(data)@, expr_view(expr)).1,
    decreases expr, 1int,
{
    match expr {
        Expr::Array(..) => parse_array_expression(data, expr),
        Expr::Assign { .. } => parse_assign_expression(data, expr),
        Expr::Async { .. } => parse_async_expression(data, expr),
        Expr::Await(..) => parse_await_expression(data, expr),
        Expr::Binary { .. } => parse_binary_expression(data, expr),
        Expr::Block(..) => parse_block_expression(data, expr),
        Expr::Break(..) => parse_break_expression(data, expr),
        Expr::Call { .. } => parse_call_expression(data, expr),
        Expr::Cast(..) => parse_cast_expression(data, expr),
        Expr::Closure { .. } => parse_closure_expression(data, expr),
        Expr::Continue => parse_continue_expression(data, expr),
        Expr::Field(..) => parse_field_expression(data, expr),
        Expr::ForLoop { .. } => parse_for_loop_expression(data, expr),
        Expr::Group(..) => parse_group_expression(data, expr),
        Expr::If { .. } => parse_if_expression(data, expr),
        Expr::Index { .. } => parse_index_expression(data, expr),
        Expr::Let { .. } => parse_let_expression(data, expr),
        Expr::Lit => parse_lit_expression(data, expr),
        Expr::Loop(..) => parse_loop_expression(data, expr),
        Expr::Macro(..) => parse_macro_expression(data, expr),
        Expr::Match { .. } => parse_match_expression(data, expr),
        Expr::MethodCall { .. } => parse_method_call_expression(data, expr),
        Expr::Paren(..) => parse_paren_expression(data, expr),
        Expr::Path { .. } => parse_path_expression(data, expr),
        Expr::Range { .. } => parse_range_expression(data, expr),
        Expr::Reference(..) => parse_reference_expression(data, expr),
        Expr::Repeat { .. } => parse_repeat_expression(data, expr),
        Expr::Return(..) => parse_return_expression(data, expr),
        Expr::Struct { .. } => parse_struct_expression(data, expr),
        Expr::Try(..) => parse_try_expression(data, expr),
        Expr::TryBlock(..) => parse_try_block_expression(data, expr),
        Expr::Tuple(..) => parse_tuple_expression(data, expr),
        Expr::Unary(..) => parse_unary_expression(data, expr),
        Expr::Unsafe(..) => parse_unsafe_expression(data, expr),
        Expr::Verbatim => parse_verbatim_expression(data, expr),
        Expr::While { .. } => parse_while_expression(data, expr),
        Expr::Yield(..) => parse_yield_expression(data, expr),
    }
}

// ----------------------------------------------------------------------------
// One function per expression shape.
// ----------------------------------------------------------------------------

pub fn parse_array_expression(data: &mut Data, expr: Expr) -> (r: Expr)
    requires
        expr is Array,
    ensures
        final(data)@ == walk_expr_v(old(data)@, expr_view(expr)).0,
        expr_view(r) == walk_expr_v(old(data)@, expr_view(expr)).1,
    decreases expr, 0int,
{
    match expr {
        Expr::Array(elems) => {
            let es2 = parse_expr_list(data, elems);
            Expr::Array(es2)
        },
        _ => {
            proof {
                assert(false);
            }
            Expr::Continue
        },
    }
}

pub fn parse_assign_expression(data: &mut Data, expr: Expr) -> (r: Expr)
    requires
        expr is Assign,
    ensures
        final(data)@ == walk_expr_v(old(data)@, expr_view(expr)).0,
        expr_view(r) == walk_expr_v(old(data)@, expr_view(expr)).1,
    decreases expr, 0int,
{
    match expr {
        Expr::Assign { left, right } => {
            let l2 = parse_generic_expression(data, *left);
            let r2 = parse_generic_expression(data, *right);
            Expr::Assign { left: Box::new(l2), right: Box::new(r2) }
        },
        _ => {
            proof {
                assert(false);
            }
            Expr::Continue
        },
    }
}

pub fn parse_async_expression(data: &mut Data, expr: Expr) -> (r: Expr)
    requires
        expr is Async,
    ensures
        final(data)@ == walk_expr_v(old(data)@, expr_view(expr)).0,
        expr_view(r) == walk_expr_v(old(data)@, expr_view(expr)).1,
    decreases expr, 0int,
{
    match expr {
        Expr::Async { capture, body } => {
            let ghost b0 = body@;
            data.push_nested_block(capture);
            let ghost d1 = data@;
            let b2 = parse_statements(data, body);
            proof {
                lemma_walk_stmts_len(d1, stmts_view(b0));
            }
            let frame = match data.pop_nested_block() {
                Ok(Some(f)) => f,
                _ => {
                    proof {
                        assert(false);
                    }
                    NestBlock { idents: IdentSet::new(), usage: IdentSet::new(), capture: false }
                },
            };
            let out = Expr::Async { capture, body: b2 };
            if capture {
                cloned_idents_expression(&frame.usage, out)
            } else {
                out
            }
        },
        _ => {
            proof {
                assert(false);
            }
            Expr::Continue
        },
    }
}

pub fn parse_await_expression(data: &mut Data, expr: Expr) -> (r: Expr)
    requires
        expr is Await,
    ensures
        final(data)@ == walk_expr_v(old(data)@, expr_view(expr)).0,
        expr_view(r) == walk_expr_v(old(data)@, expr_view(expr)).1,
    decreases expr, 0int,
{
    match expr {
        Expr::Await(b) => {
            let e2 = parse_generic_expression(data, *b);
            Expr::Await(Box::new(e2))
        },
        _ => {
            proof {
                assert(false);
            }
            Expr::Continue
        },
    }
}

pub fn parse_binary_expression(data: &mut Data, expr: Expr) -> (r: Expr)
    requires
        expr is Binary,
    ensures
        final(data)@ == walk_expr_v(old(data)@, expr_view(expr)).0,
        expr_view(r) == walk_expr_v(old(data)@, expr_view(expr)).1,
    decreases expr, 0int,
{
    match expr {
        Expr::Binary { left, right } => {
            let l2 = parse_generic_expression(data, *left);
            let r2 = parse_generic_expression(data, *right);
            Expr::Binary { left: Box::new(l2), right: Box::new(r2) }
        },
        _ => {
            proof {
                assert(false);
            }
            Expr::Continue
        },
    }
}

pub fn parse_block_expression(data: &mut Data, expr: Expr) -> (r: Expr)
    requires
        expr is Block,
    ensures
        final(data)@ == walk_expr_v(old(data)@, expr_view(expr)).0,
        expr_view(r) == walk_expr_v(old(data)@, expr_view(expr)).1,
    decreases expr, 0int,
{
    match expr {
        Expr::Block(ss) => {
            let ghost b0 = ss@;
            data.push_nested_block(false);
            let ghost d1 = data@;
            let ss2 = parse_statements(data, ss);
            proof {
                lemma_walk_stmts_len(d1, stmts_view(b0));
            }
            let _p = data.pop_nested_block();
            Expr::Block(ss2)
        },
        _ => {
            proof {
                assert(false);
            }
            Expr::Continue
        },
    }
}

pub fn parse_break_expression(data: &mut Data, expr: Expr) -> (r: Expr)
    requires
        expr is Break,
    ensures
        final(data)@ == walk_expr_v(old(data)@, expr_view(expr)).0,
        expr_view(r) == walk_expr_v(old(data)@, expr_view(expr)).1,
    decreases expr, 0int,
{
    match expr {
        Expr::Break(o) => {
            let o2 = parse_opt_expression(data, o);
            Expr::Break(o2)
        },
        _ => {
            proof {
                assert(false);
            }
            Expr::Continue
        },
    }
}

pub fn parse_call_expression(data: &mut Data, expr: Expr) -> (r: Expr)
    requires
        expr is Call,
    ensures
        final(data)@ == walk_expr_v(old(data)@, expr_view(expr)).0,
        expr_view(r) == walk_expr_v(old(data)@, expr_view(expr)).1,
    decreases expr, 0int,
{
    match expr {
        Expr::Call { func, args } => {
            let f2 = parse_generic_expression(data, *func);
            let a2 = parse_expr_list(data, args);
            Expr::Call { func: Box::new(f2), args: a2 }
        },
        _ => {
            proof {
                assert(false);
            }
            Expr::Continue
        },
    }
}

pub fn parse_cast_expression(data: &mut Data, expr: Expr) -> (r: Expr)
    requires
        expr is Cast,
    ensures
        final(data)@ == walk_expr_v(old(data)@, expr_view(expr)).0,
        expr_view(r) == walk_expr_v(old(data)@, expr_view(expr)).1,
    decreases expr, 0int,
{
    match expr {
        Expr::Cast(b) => {
            let e2 = parse_generic_expression(data, *b);
            Expr::Cast(Box::new(e2))
        },
        _ => {
            proof {
                assert(false);
            }
            Expr::Continue
        },
    }
}

pub fn parse_closure_expression(data: &mut Data, expr: Expr) -> (r: Expr)
    requires
        expr is Closure,
    ensures
        final(data)@ == walk_expr_v(old(data)@, expr_view(expr)).0,
        expr_view(r) == walk_expr_v(old(data)@, expr_view(expr)).1,
    decreases expr, 0int,
{
    match expr {
        Expr::Closure { capture, params, body } => {
            data.push_nested_block(capture);
            bind_params(data, &params);
            let ghost d2 = data@;
            let ghost bv = expr_view(*body);
            let b2 = parse_generic_expression(data, *body);
            proof {
                lemma_bind_pats_len(push_frame_v(old(data)@, capture), pats_view(params@));
                lemma_walk_expr_len(d2, bv);
                assert(data@.nested.len() > 0);
            }
            let frame = match data.pop_nested_block() {
                Ok(Some(f)) => f,
                _ => {
                    proof {
                        assert(false);
                    }
                    NestBlock { idents: IdentSet::new(), usage: IdentSet::new(), capture: false }
                },
            };
            let out = Expr::Closure { capture, params, body: Box::new(b2) };
            if capture {
                cloned_idents_expression(&frame.usage, out)
            } else {
                out
            }
        },
        _ => {
            proof {
                assert(false);
            }
            Expr::Continue
        },
    }
}

pub fn parse_continue_expression(data: &mut Data, expr: Expr) -> (r: Expr)
    requires
        expr is Continue,
    ensures
        final(data)@ == walk_expr_v(old(data)@, expr_view(expr)).0,
        expr_view(r) == walk_expr_v(old(data)@, expr_view(expr)).1,
    decreases expr, 0int,
{
    Expr::Continue
}

pub fn parse_field_expression(data: &mut Data, expr: Expr) -> (r: Expr)
    requires
        expr is Field,
    ensures
        final(data)@ == walk_expr_v(old(data)@, expr_view(expr)).0,
        expr_view(r) == walk_expr_v(old(data)@, expr_view(expr)).1,
    decreases expr, 0int,
{
    match expr {
        Expr::Field(b) => {
            let e2 = parse_generic_expression(data, *b);
            Expr::Field(Box::new(e2))
        },
        _ => {
            proof {
                assert(false);
            }
            Expr::Continue
        },
    }
}

pub fn parse_for_loop_expression(data: &mut Data, expr: Expr) -> (r: Expr)
    requires
        expr is ForLoop,
    ensures
        final(data)@ == walk_expr_v(old(data)@, expr_view(expr)).0,
        expr_view(r) == walk_expr_v(old(data)@, expr_view(expr)).1,
    decreases expr, 0int,
{
    match expr {
        Expr::ForLoop { pat, iter, body } => {
            let i2 = parse_generic_expression(data, *iter);
            data.push_nested_block(false);
            let ids = extract_pat(&pat);
            data.push_idents(&ids);
            let ghost b0 = body@;
            let ghost d3 = data@;
            let b2 = parse_statements(data, body);
            proof {
                lemma_walk_stmts_len(d3, stmts_view(b0));
            }
            let _p = data.pop_nested_block();
            Expr::ForLoop { pat, iter: Box::new(i2), body: b2 }
        },
        _ => {
            proof {
                assert(false);
            }
            Expr::Continue
        },
    }
}

pub fn parse_group_expression(data: &mut Data, expr: Expr) -> (r: Expr)
    requires
        expr is Group,
    ensures
        final(data)@ == walk_expr_v(old(data)@, expr_view(expr)).0,
        expr_view(r) == walk_expr_v(old(data)@, expr_view(expr)).1,
    decreases expr, 0int,
{
    match expr {
        Expr::Group(b) => {
            let e2 = parse_generic_expression(data, *b);
            Expr::Group(Box::new(e2))
        },
        _ => {
            proof {
                assert(false);
            }
            Expr::Continue
        },
    }
}

pub fn parse_if_expression(data: &mut Data, expr: Expr) -> (r: Expr)
    requires
        expr is If,
    ensures
        final(data)@ == walk_expr_v(old(data)@, expr_view(expr)).0,
        expr_view(r) == walk_expr_v(old(data)@, expr_view(expr)).1,
    decreases expr, 0int,
{
    match expr {
        Expr::If { cond, then_body, else_body } => {
            let c2 = parse_generic_expression(data, *cond);
            let ghost t0 = then_body@;
            data.push_nested_block(false);
            let ghost d2 = data@;
            let t2 = parse_statements(data, then_body);
            proof {
                lemma_walk_stmts_len(d2, stmts_view(t0));
            }
            let _p = data.pop_nested_block();
            let e2 = parse_opt_expression(data, else_body);
            Expr::If { cond: Box::new(c2), then_body: t2, else_body: e2 }
        },
        _ => {
            proof {
                assert(false);
            }
            Expr::Continue
        },
    }
}

pub fn parse_index_expression(data: &mut Data, expr: Expr) -> (r: Expr)
    requires
        expr is Index,
    ensures
        final(data)@ == walk_expr_v(old(data)@, expr_view(expr)).0,
        expr_view(r) == walk_expr_v(old(data)@, expr_view(expr)).1,
    decreases expr, 0int,
{
    match expr {
        Expr::Index { base, index } => {
            let i2 = parse_generic_expression(data, *index);
            let b2 = parse_generic_expression(data, *base);
            Expr::Index { base: Box::new(b2), index: Box::new(i2) }
        },
        _ => {
            proof {
                assert(false);
            }
            Expr::Continue
        },
    }
}

pub fn parse_let_expression(data: &mut Data, expr: Expr) -> (r: Expr)
    requires
        expr is Let,
    ensures
        final(data)@ == walk_expr_v(old(data)@, expr_view(expr)).0,
        expr_view(r) == walk_expr_v(old(data)@, expr_view(expr)).1,
    decreases expr, 0int,
{
    match expr {
        Expr::Let { value } => {
            let v2 = parse_generic_expression(data, *value);
            Expr::Let { value: Box::new(v2) }
        },
        _ => {
            proof {
                assert(false);
            }
            Expr::Continue
        },
    }
}

pub fn parse_lit_expression(data: &mut Data, expr: Expr) -> (r: Expr)
    requires
        expr is Lit,
    ensures
        final(data)@ == walk_expr_v(old(data)@, expr_view(expr)).0,
        expr_view(r) == walk_expr_v(old(data)@, expr_view(expr)).1,
    decreases expr, 0int,
{
    Expr::Lit
}

pub fn parse_loop_expression(data: &mut Data, expr: Expr) -> (r: Expr)
    requires
        expr is Loop,
    ensures
        final(data)@ == walk_expr_v(old(data)@, expr_view(expr)).0,
        expr_view(r) == walk_expr_v(old(data)@, expr_view(expr)).1,
    decreases expr, 0int,
{
    match expr {
        Expr::Loop(ss) => {
            let ghost b0 = ss@;
            data.push_nested_block(false);
            let ghost d1 = data@;
            let ss2 = parse_statements(data, ss);
            proof {
                lemma_walk_stmts_len(d1, stmts_view(b0));
            }
            let _p = data.pop_nested_block();
            Expr::Loop(ss2)
        },
        _ => {
            proof {
                assert(false);
            }
            Expr::Continue
        },
    }
}

pub fn parse_macro_expression(data: &mut Data, expr: Expr) -> (r: Expr)
    requires
        expr is Macro,
    ensures
        final(data)@ == walk_expr_v(old(data)@, expr_view(expr)).0,
        expr_view(r) == walk_expr_v(old(data)@, expr_view(expr)).1,
    decreases expr, 0int,
{
    match expr {
        Expr::Macro(ts) => {
            let ids = extract_token_stream(&ts);
            push_usage_names(data, &ids.items);
            Expr::Macro(ts)
        },
        _ => {
            proof {
                assert(false);
            }
            Expr::Continue
        },
    }
}

pub fn parse_match_expression(data: &mut Data, expr: Expr) -> (r: Expr)
    requires
        expr is Match,
    ensures
        final(data)@ == walk_expr_v(old(data)@, expr_view(expr)).0,
        expr_view(r) == walk_expr_v(old(data)@, expr_view(expr)).1,
    decreases expr, 0int,
{
    match expr {
        Expr::Match { scrutinee, arms } => {
            let s2 = parse_generic_expression(data, *scrutinee);
            let a2 = parse_arms(data, arms);
            Expr::Match { scrutinee: Box::new(s2), arms: a2 }
        },
        _ => {
            proof {
                assert(false);
            }
            Expr::Continue
        },
    }
}

pub fn parse_method_call_expression(data: &mut Data, expr: Expr) -> (r: Expr)
    requires
        expr is MethodCall,
    ensures
        final(data)@ == walk_expr_v(old(data)@, expr_view(expr)).0,
        expr_view(r) == walk_expr_v(old(data)@, expr_view(expr)).1,
    decreases expr, 0int,
{
    match expr {
        Expr::MethodCall { receiver, method, args } => {
            let r2 = parse_generic_expression(data, *receiver);
            let a2 = parse_expr_list(data, args);
            Expr::MethodCall { receiver: Box::new(r2), method, args: a2 }
        },
        _ => {
            proof {
                assert(false);
            }
            Expr::Continue
        },
    }
}

pub fn parse_paren_expression(data: &mut Data, expr: Expr) -> (r: Expr)
    requires
        expr is Paren,
    ensures
        final(data)@ == walk_expr_v(old(data)@, expr_view(expr)).0,
        expr_view(r) == walk_expr_v(old(data)@, expr_view(expr)).1,
    decreases expr, 0int,
{
    match expr {
        Expr::Paren(b) => {
            let e2 = parse_generic_expression(data, *b);
            Expr::Paren(Box::new(e2))
        },
        _ => {
            proof {
                assert(false);
            }
            Expr::Continue
        },
    }
}

/// A use site: every bare segment of a path without root qualification is
/// attributed, but only when some frame is active.
#[verifier::loop_isolation(false)]
pub fn parse_path_expression(data: &mut Data, expr: Expr) -> (r: Expr)
    requires
        expr is Path,
    ensures
        final(data)@ == walk_expr_v(old(data)@, expr_view(expr)).0,
        expr_view(r) == walk_expr_v(old(data)@, expr_view(expr)).1,
    decreases expr, 0int,
{
    match expr {
        Expr::Path { leading_colon, segments } => {
            if data.nested.len() > 0 && !leading_colon {
                parse_path_segments(data, &segments);
            }
            Expr::Path { leading_colon, segments }
        },
        _ => {
            proof {
                assert(false);
            }
            Expr::Continue
        },
    }
}

/// Records the identifier of each segment, then the bare identifier tokens of
/// its generic arguments.
#[verifier::loop_isolation(false)]
fn parse_path_segments(data: &mut Data, segs: &Vec<Seg>)
    ensures
        final(data)@ == record_segs_v(old(data)@, segs_view(segs@)),
{
    let mut i: usize = 0;
    while i < segs.len()
        invariant
            i <= segs.len(),
            data@ == record_segs_v(old(data)@, segs_view(segs@).subrange(0, i as int)),
        decreases segs.len() - i,
    {
        let ghost full = segs_view(segs@);
        let ghost pre = full.subrange(0, i as int);
        let _r = data.push_usage(segs[i].name.clone());
        push_usage_names(data, &segs[i].extra);
        proof {
            let cur = full.subrange(0, i as int + 1);
            assert(cur.drop_last() =~= pre);
            assert(cur.last() == full[i as int]);
            assert(full[i as int] == seg_view(segs@[i as int]));
        }
        i = i + 1;
    }
    proof {
        assert(segs_view(segs@).subrange(0, segs.len() as int) =~= segs_view(segs@));
    }
}

pub fn parse_range_expression(data: &mut Data, expr: Expr) -> (r: Expr)
    requires
        expr is Range,
    ensures
        final(data)@ == walk_expr_v(old(data)@, expr_view(expr)).0,
        expr_view(r) == walk_expr_v(old(data)@, expr_view(expr)).1,
    decreases expr, 0int,
{
    match expr {
        Expr::Range { start, end } => {
            let s2 = parse_opt_expression(data, start);
            let e2 = parse_opt_expression(data, end);
            Expr::Range { start: s2, end: e2 }
        },
        _ => {
            proof {
                assert(false);
            }
            Expr::Continue
        },
    }
}

pub fn parse_reference_expression(data: &mut Data, expr: Expr) -> (r: Expr)
    requires
        expr is Reference,
    ensures
        final(data)@ == walk_expr_v(old(data)@, expr_view(expr)).0,
        expr_view(r) == walk_expr_v(old(data)@, expr_view(expr)).1,
    decreases expr, 0int,
{
    match expr {
        Expr::Reference(b) => {
            let e2 = parse_generic_expression(data, *b);
            Expr::Reference(Box::new(e2))
        },
        _ => {
            proof {
                assert(false);
            }
            Expr::Continue
        },
    }
}

pub fn parse_repeat_expression(data: &mut Data, expr: Expr) -> (r: Expr)
    requires
        expr is Repeat,
    ensures
        final(data)@ == walk_expr_v(old(data)@, expr_view(expr)).0,
        expr_view(r) == walk_expr_v(old(data)@, expr_view(expr)).1,
    decreases expr, 0int,
{
    match expr {
        Expr::Repeat { value, len } => {
            let v2 = parse_generic_expression(data, *value);
            let l2 = parse_generic_expression(data, *len);
            Expr::Repeat { value: Box::new(v2), len: Box::new(l2) }
        },
        _ => {
            proof {
                assert(false);
            }
            Expr::Continue
        },
    }
}

pub fn parse_return_expression(data: &mut Data, expr: Expr) -> (r: Expr)
    requires
        expr is Return,
    ensures
        final(data)@ == walk_expr_v(old(data)@, expr_view(expr)).0,
        expr_view(r) == walk_expr_v(old(data)@, expr_view(expr)).1,
    decreases expr, 0int,
{
    match expr {
        Expr::Return(o) => {
            let o2 = parse_opt_expression(data, o);
            Expr::Return(o2)
        },
        _ => {
            proof {
                assert(false);
            }
            Expr::Continue
        },
    }
}

pub fn parse_struct_expression(data: &mut Data, expr: Expr) -> (r: Expr)
    requires
        expr is Struct,
    ensures
        final(data)@ == walk_expr_v(old(data)@, expr_view(expr)).0,
        expr_view(r) == walk_expr_v(old(data)@, expr_view(expr)).1,
    decreases expr, 0int,
{
    match expr {
        Expr::Struct { fields, rest } => {
            let f2 = parse_expr_list(data, fields);
            let r2 = parse_opt_expression(data, rest);
            Expr::Struct { fields: f2, rest: r2 }
        },
        _ => {
            proof {
                assert(false);
            }
            Expr::Continue
        },
    }
}

pub fn parse_try_expression(data: &mut Data, expr: Expr) -> (r: Expr)
    requires
        expr is Try,
    ensures
        final(data)@ == walk_expr_v(old(data)@, expr_view(expr)).0,
        expr_view(r) == walk_expr_v(old(data)@, expr_view(expr)).1,
    decreases expr, 0int,
{
    match expr {
        Expr::Try(b) => {
            let e2 = parse_generic_expression(data, *b);
            Expr::Try(Box::new(e2))
        },
        _ => {
            proof {
                assert(false);
            }
            Expr::Continue
        },
    }
}

pub fn parse_try_block_expression(data: &mut Data, expr: Expr) -> (r: Expr)
    requires
        expr is TryBlock,
    ensures
        final(data)@ == walk_expr_v(old(data)@, expr_view(expr)).0,
        expr_view(r) == walk_expr_v(old(data)@, expr_view(expr)).1,
    decreases expr, 0int,
{
    match expr {
        Expr::TryBlock(ss) => {
            let ghost b0 = ss@;
            data.push_nested_block(false);
            let ghost d1 = data@;
            let ss2 = parse_statements(data, ss);
            proof {
                lemma_walk_stmts_len(d1, stmts_view(b0));
            }
            let _p = data.pop_nested_block();
            Expr::TryBlock(ss2)
        },
        _ => {
            proof {
                assert(false);
            }
            Expr::Continue
        },
    }
}

pub fn parse_tuple_expression(data: &mut Data, expr: Expr) -> (r: Expr)
    requires
        expr is Tuple,
    ensures
        final(data)@ == walk_expr_v(old(data)@, expr_view(expr)).0,
        expr_view(r) == walk_expr_v(old(data)@, expr_view(expr)).1,
    decreases expr, 0int,
{
    match expr {
        Expr::Tuple(es) => {
            let es2 = parse_expr_list(data, es);
            Expr::Tuple(es2)
        },
        _ => {
            proof {
                assert(false);
            }
            Expr::Continue
        },
    }
}

pub fn parse_unary_expression(data: &mut Data, expr: Expr) -> (r: Expr)
    requires
        expr is Unary,
    ensures
        final(data)@ == walk_expr_v(old(data)@, expr_view(expr)).0,
        expr_view(r) == walk_expr_v(old(data)@, expr_view(expr)).1,
    decreases expr, 0int,
{
    match expr {
        Expr::Unary(b) => {
            let e2 = parse_generic_expression(data, *b);
            Expr::Unary(Box::new(e2))
        },
        _ => {
            proof {
                assert(false);
            }
            Expr::Continue
        },
    }
}

pub fn parse_unsafe_expression(data: &mut Data, expr: Expr) -> (r: Expr)
    requires
        expr is Unsafe,
    ensures
        final(data)@ == walk_expr_v(old(data)@, expr_view(expr)).0,
        expr_view(r) == walk_expr_v(old(data)@, expr_view(expr)).1,
    decreases expr, 0int,
{
    match expr {
        Expr::Unsafe(ss) => {
            let ghost b0 = ss@;
            data.push_nested_block(false);
            let ghost d1 = data@;
            let ss2 = parse_statements(data, ss);
            proof {
                lemma_walk_stmts_len(d1, stmts_view(b0));
            }
            let _p = data.pop_nested_block();
            Expr::Unsafe(ss2)
        },
        _ => {
            proof {
                assert(false);
            }
            Expr::Continue
        },
    }
}

pub fn parse_verbatim_expression(data: &mut Data, expr: Expr) -> (r: Expr)
    requires
        expr is Verbatim,
    ensures
        final(data)@ == walk_expr_v(old(data)@, expr_view(expr)).0,
        expr_view(r) == walk_expr_v(old(data)@, expr_view(expr)).1,
    decreases expr, 0int,
{
    Expr::Verbatim
}

pub fn parse_while_expression(data: &mut Data, expr: Expr) -> (r: Expr)
    requires
        expr is While,
    ensures
        final(data)@ == walk_expr_v(old(data)@, expr_view(expr)).0,
        expr_view(r) == walk_expr_v(old(data)@, expr_view(expr)).1,
    decreases expr, 0int,
{
    match expr {
        Expr::While { cond, body } => {
            let c2 = parse_generic_expression(data, *cond);
            let ghost b0 = body@;
            data.push_nested_block(false);
            let ghost d2 = data@;
            let b2 = parse_statements(data, body);
            proof {
                lemma_walk_stmts_len(d2, stmts_view(b0));
            }
            let _p = data.pop_nested_block();
            Expr::While { cond: Box::new(c2), body: b2 }
        },
        _ => {
            proof {
                assert(false);
            }
            Expr::Continue
        },
    }
}

pub fn parse_yield_expression(data: &mut Data, expr: Expr) -> (r: Expr)
    requires
        expr is Yield,
    ensures
        final(data)@ == walk_expr_v(old(data)@, expr_view(expr)).0,
        expr_view(r) == walk_expr_v(old(data)@, expr_view(expr)).1,
    decreases expr, 0int,
{
    match expr {
        Expr::Yield(o) => {
            let o2 = parse_opt_expression(data, o);
            Expr::Yield(o2)
        },
        _ => {
            proof {
                assert(false);
            }
            Expr::Continue
        },
    }
}

// ----------------------------------------------------------------------------
// The entry point.
// ----------------------------------------------------------------------------

fn ci_char(c: char, l: char) -> (r: bool)
    ensures
        r == ci_v(c, l),
{
    c == l || (c as u64) + 32 == (l as u64)
}

/// Whether a flag spells `debug`, compared case-insensitively over ASCII.
fn is_debug_word(s: &String) -> (r: bool)
    ensures
        r == debug_word_v(s@),
{
    let st = s.as_str();
    if st.unicode_len() != 5 {
        return false;
    }
    ci_char(st.get_char(0), 'd') && ci_char(st.get_char(1), 'e') && ci_char(st.get_char(2), 'b')
        && ci_char(st.get_char(3), 'u') && ci_char(st.get_char(4), 'g')
}

/// Rewrites every top-level statement of a function body, threading one
/// scope tracker across all of them, so top-level bindings accumulate in the
/// root set.  The recognized `debug` flag only toggles the tracing switch of
/// the tracker; every other configuration entry is ignored.  The traversal is
/// total, so the result is always `Ok`.
#[verifier::loop_isolation(false)]
pub fn clone_on_capture_impl(args: Vec<ConfigEntry>, input: FnDef) -> (r: Result<
    FnDef,
    TransformError,
>)
    ensures
        r matches Ok(f) && f@.body == rewrite_body_v(
            debug_flag_v(configs_view(args@)),
            input@.body,
        ),
{
    let mut debug = false;
    let mut i: usize = 0;
    while i < args.len()
        invariant
            i <= args.len(),
            debug == debug_flag_v(configs_view(args@).subrange(0, i as int)),
        decreases args.len() - i,
    {
        let ghost full = configs_view(args@);
        let ghost pre = full.subrange(0, i as int);
        let ghost cur = full.subrange(0, i as int + 1);
        let mut hit = false;
        match &args[i] {
            ConfigEntry::Flag(s) => {
                if is_debug_word(s) {
                    hit = true;
                }
            },
            ConfigEntry::List => {},
            ConfigEntry::NameValue => {},
        }
        proof {
            assert(full[i as int] == config_view(args@[i as int]));
            assert(hit == is_debug_entry_v(full[i as int]));
            assert(debug_flag_v(cur) == (debug_flag_v(pre) || hit)) by {
                if debug_flag_v(pre) {
                    let j = choose|j: int| 0 <= j < pre.len() && is_debug_entry_v(#[trigger] pre[j]);
                    assert(cur[j] == pre[j]);
                    assert(debug_flag_v(cur));
                }
                if hit {
                    assert(is_debug_entry_v(cur[i as int]));
                    assert(debug_flag_v(cur));
                }
                if debug_flag_v(cur) {
                    let j = choose|j: int| 0 <= j < cur.len() && is_debug_entry_v(#[trigger] cur[j]);
                    if j < i as int {
                        assert(pre[j] == cur[j]);
                        assert(debug_flag_v(pre));
                    }
                }
            }
        }
        if hit {
            debug = true;
        }
        proof {
            assert(debug == debug_flag_v(cur));
        }
        i = i + 1;
    }
    proof {
        assert(configs_view(args@).subrange(0, args.len() as int) =~= configs_view(args@));
    }
    let mut data = Data::new(debug);
    let body2 = parse_statements(&mut data, input.body);
    Ok(FnDef { body: body2 })
}

} // verus!
