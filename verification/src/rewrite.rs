//! The ghost model of the rewrite.
//!
//! [`walk_expr_v`] and its companions define, as one total function over the
//! ghost syntax tree, exactly what the executable walker does: which names a
//! pattern binds, which uses are attributed to which frame, and what each
//! capturing boundary is replaced with.  The executable walker's contracts
//! equate it with this model; every law of the library is proved about it.

use vstd::prelude::*;
use crate::ast::ArmV;
use crate::ast::ConfigV;
use crate::ast::ExprV;
use crate::ast::PatV;
use crate::ast::SegV;
use crate::ast::StmtV;
use crate::ast::TokV;
use crate::idents::ins;
use crate::idents::reserved_name;
use crate::idents::uni;
use crate::scope::DataV;
use crate::scope::bind_v;
use crate::scope::pop_frame_v;
use crate::scope::push_frame_v;
use crate::scope::record_names_v;
use crate::scope::record_usage_v;

verus! {

// ----------------------------------------------------------------------------
// Pattern extraction and token scanning.
// ----------------------------------------------------------------------------

/// The identifiers a pattern introduces, honoring the two opt-outs: a name
/// with the reserved prefix and a name declared mutable contribute nothing.
pub open spec fn extract_pat_v(p: PatV) -> Seq<Seq<char>>
    decreases p,
{
    match p {
        PatV::Name { name, mutable, sub } => {
            let base = if reserved_name(name) || mutable {
                Seq::<Seq<char>>::empty()
            } else {
                seq![name]
            };
            match sub {
                Some(sp) => uni(base, extract_pat_v(*sp)),
                None => base,
            }
        },
        PatV::Struct(ps) => extract_pats_v(ps),
        PatV::Tuple(ps) => extract_pats_v(ps),
        PatV::TupleStruct(ps) => extract_pats_v(ps),
        PatV::Typed(b) => extract_pat_v(*b),
        PatV::Other => Seq::empty(),
    }
}

pub open spec fn extract_pats_v(ps: Seq<PatV>) -> Seq<Seq<char>>
    decreases ps,
{
    if ps.len() == 0 {
        Seq::empty()
    } else {
        uni(extract_pats_v(ps.drop_last()), extract_pat_v(ps.last()))
    }
}

/// Every bare identifier token of a macro argument stream, groups included,
/// in token order.
pub open spec fn token_idents_v(ts: Seq<TokV>) -> Seq<Seq<char>>
    decreases ts,
{
    if ts.len() == 0 {
        Seq::empty()
    } else {
        let acc = token_idents_v(ts.drop_last());
        match ts.last() {
            TokV::Group(g) => uni(acc, token_idents_v(g)),
            TokV::Name(s) => ins(acc, s),
            TokV::Other => acc,
        }
    }
}

// ----------------------------------------------------------------------------
// Derived scope operations.
// ----------------------------------------------------------------------------

/// Binding the parameters of a closure, left to right.
pub open spec fn bind_pats_v(d: DataV, ps: Seq<PatV>) -> DataV
    decreases ps,
{
    if ps.len() == 0 {
        d
    } else {
        bind_v(bind_pats_v(d, ps.drop_last()), extract_pat_v(ps.last()))
    }
}

/// A use of one path segment: its identifier, then the bare identifier
/// tokens of its generic arguments.
pub open spec fn record_seg_v(d: DataV, s: SegV) -> DataV {
    record_names_v(record_usage_v(d, s.name), s.extra)
}

/// A use of every segment of a path, left to right.
pub open spec fn record_segs_v(d: DataV, ss: Seq<SegV>) -> DataV
    decreases ss,
{
    if ss.len() == 0 {
        d
    } else {
        record_seg_v(record_segs_v(d, ss.drop_last()), ss.last())
    }
}

// ----------------------------------------------------------------------------
// Duplication synthesis.
// ----------------------------------------------------------------------------

/// The initializer of a duplication binding: `<n>.clone()`.
pub open spec fn clone_init_v(n: Seq<char>) -> ExprV {
    ExprV::MethodCall {
        receiver: Box::new(
            ExprV::Path {
                leading_colon: false,
                segments: seq![SegV { name: n, extra: Seq::empty() }],
            },
        ),
        method: "clone"@,
        args: Seq::empty(),
    }
}

/// One duplication binding: `let <n> = <n>.clone();`.
pub open spec fn clone_stmt_v(n: Seq<char>) -> StmtV {
    StmtV::Local {
        pat: PatV::Name { name: n, mutable: false, sub: None },
        init: Some(Box::new(clone_init_v(n))),
    }
}

/// Wrapping a capturing boundary: a block whose statements duplicate every
/// used identifier, in set order, and whose trailing expression is the
/// boundary itself.  A boundary that uses nothing is left unchanged.
pub open spec fn synth_v(used: Seq<Seq<char>>, e: ExprV) -> ExprV {
    if used.len() == 0 {
        e
    } else {
        ExprV::Block(Seq::new(used.len(), |i: int| clone_stmt_v(used[i])).push(StmtV::Expr(e)))
    }
}

// ----------------------------------------------------------------------------
// The walk.
// ----------------------------------------------------------------------------

pub open spec fn walk_opt_v(d: DataV, o: Option<Box<ExprV>>) -> (DataV, Option<Box<ExprV>>)
    decreases o,
{
    match o {
        Some(b) => {
            let (d1, e2) = walk_expr_v(d, *b);
            (d1, Some(Box::new(e2)))
        },
        None => (d, None),
    }
}

pub open spec fn walk_exprs_v(d: DataV, es: Seq<ExprV>) -> (DataV, Seq<ExprV>)
    decreases es,
{
    if es.len() == 0 {
        (d, es)
    } else {
        let (d1, rs) = walk_exprs_v(d, es.drop_last());
        let (d2, r) = walk_expr_v(d1, es.last());
        (d2, rs.push(r))
    }
}

pub open spec fn walk_arm_v(d: DataV, a: ArmV) -> (DataV, ArmV)
    decreases a,
{
    let d1 = push_frame_v(d, false);
    let d2 = bind_v(d1, extract_pat_v(a.pat));
    let (d3, g2) = walk_opt_v(d2, a.guard);
    let (d4, b2) = walk_expr_v(d3, *a.body);
    (pop_frame_v(d4), ArmV { pat: a.pat, guard: g2, body: Box::new(b2) })
}

pub open spec fn walk_arms_v(d: DataV, arms: Seq<ArmV>) -> (DataV, Seq<ArmV>)
    decreases arms,
{
    if arms.len() == 0 {
        (d, arms)
    } else {
        let (d1, rs) = walk_arms_v(d, arms.drop_last());
        let (d2, r) = walk_arm_v(d1, arms.last());
        (d2, rs.push(r))
    }
}

pub open spec fn walk_expr_v(d: DataV, e: ExprV) -> (DataV, ExprV)
    decreases e,
{
    match e {
        ExprV::Array(es) => {
            let (d1, es2) = walk_exprs_v(d, es);
            (d1, ExprV::Array(es2))
        },
        ExprV::Assign { left, right } => {
            let (d1, l2) = walk_expr_v(d, *left);
            let (d2, r2) = walk_expr_v(d1, *right);
            (d2, ExprV::Assign { left: Box::new(l2), right: Box::new(r2) })
        },
        ExprV::Async { capture, body } => {
            let d1 = push_frame_v(d, capture);
            let (d2, b2) = walk_stmts_v(d1, body);
            let frame = d2.nested.last();
            let d3 = pop_frame_v(d2);
            let out = ExprV::Async { capture, body: b2 };
            (d3, if capture {
                synth_v(frame.usage, out)
            } else {
                out
            })
        },
        ExprV::Await(b) => {
            let (d1, e2) = walk_expr_v(d, *b);
            (d1, ExprV::Await(Box::new(e2)))
        },
        ExprV::Binary { left, right } => {
            let (d1, l2) = walk_expr_v(d, *left);
            let (d2, r2) = walk_expr_v(d1, *right);
            (d2, ExprV::Binary { left: Box::new(l2), right: Box::new(r2) })
        },
        ExprV::Block(ss) => {
            let d1 = push_frame_v(d, false);
            let (d2, ss2) = walk_stmts_v(d1, ss);
            (pop_frame_v(d2), ExprV::Block(ss2))
        },
        ExprV::Break(o) => {
            let (d1, o2) = walk_opt_v(d, o);
            (d1, ExprV::Break(o2))
        },
        ExprV::Call { func, args } => {
            let (d1, f2) = walk_expr_v(d, *func);
            let (d2, a2) = walk_exprs_v(d1, args);
            (d2, ExprV::Call { func: Box::new(f2), args: a2 })
        },
        ExprV::Cast(b) => {
            let (d1, e2) = walk_expr_v(d, *b);
            (d1, ExprV::Cast(Box::new(e2)))
        },
        ExprV::Closure { capture, params, body } => {
            let d1 = push_frame_v(d, capture);
            let d2 = bind_pats_v(d1, params);
            let (d3, b2) = walk_expr_v(d2, *body);
            let frame = d3.nested.last();
            let d4 = pop_frame_v(d3);
            let out = ExprV::Closure { capture, params, body: Box::new(b2) };
            (d4, if capture {
                synth_v(frame.usage, out)
            } else {
                out
            })
        },
        ExprV::Continue => (d, e),
        ExprV::Field(b) => {
            let (d1, e2) = walk_expr_v(d, *b);
            (d1, ExprV::Field(Box::new(e2)))
        },
        ExprV::ForLoop { pat, iter, body } => {
            let (d1, i2) = walk_expr_v(d, *iter);
            let d2 = push_frame_v(d1, false);
            let d3 = bind_v(d2, extract_pat_v(pat));
            let (d4, b2) = walk_stmts_v(d3, body);
            (pop_frame_v(d4), ExprV::ForLoop { pat, iter: Box::new(i2), body: b2 })
        },
        ExprV::Group(b) => {
            let (d1, e2) = walk_expr_v(d, *b);
            (d1, ExprV::Group(Box::new(e2)))
        },
        ExprV::If { cond, then_body, else_body } => {
            let (d1, c2) = walk_expr_v(d, *cond);
            let d2 = push_frame_v(d1, false);
            let (d3, t2) = walk_stmts_v(d2, then_body);
            let d4 = pop_frame_v(d3);
            let (d5, e2) = walk_opt_v(d4, else_body);
            (d5, ExprV::If { cond: Box::new(c2), then_body: t2, else_body: e2 })
        },
        ExprV::Index { base, index } => {
            let (d1, i2) = walk_expr_v(d, *index);
            let (d2, b2) = walk_expr_v(d1, *base);
            (d2, ExprV::Index { base: Box::new(b2), index: Box::new(i2) })
        },
        ExprV::Let { value } => {
            let (d1, v2) = walk_expr_v(d, *value);
            (d1, ExprV::Let { value: Box::new(v2) })
        },
        ExprV::Lit => (d, e),
        ExprV::Loop(ss) => {
            let d1 = push_frame_v(d, false);
            let (d2, ss2) = walk_stmts_v(d1, ss);
            (pop_frame_v(d2), ExprV::Loop(ss2))
        },
        ExprV::Macro(ts) => (record_names_v(d, token_idents_v(ts)), e),
        ExprV::Match { scrutinee, arms } => {
            let (d1, s2) = walk_expr_v(d, *scrutinee);
            let (d2, a2) = walk_arms_v(d1, arms);
            (d2, ExprV::Match { scrutinee: Box::new(s2), arms: a2 })
        },
        ExprV::MethodCall { receiver, method, args } => {
            let (d1, r2) = walk_expr_v(d, *receiver);
            let (d2, a2) = walk_exprs_v(d1, args);
            (d2, ExprV::MethodCall { receiver: Box::new(r2), method, args: a2 })
        },
        ExprV::Paren(b) => {
            let (d1, e2) = walk_expr_v(d, *b);
            (d1, ExprV::Paren(Box::new(e2)))
        },
        ExprV::Path { leading_colon, segments } => {
            (
                if d.nested.len() > 0 && !leading_colon {
                    record_segs_v(d, segments)
                } else {
                    d
                },
                e,
            )
        },
        ExprV::Range { start, end } => {
            let (d1, s2) = walk_opt_v(d, start);
            let (d2, e2) = walk_opt_v(d1, end);
            (d2, ExprV::Range { start: s2, end: e2 })
        },
        ExprV::Reference(b) => {
            let (d1, e2) = walk_expr_v(d, *b);
            (d1, ExprV::Reference(Box::new(e2)))
        },
        ExprV::Repeat { value, len } => {
            let (d1, v2) = walk_expr_v(d, *value);
            let (d2, l2) = walk_expr_v(d1, *len);
            (d2, ExprV::Repeat { value: Box::new(v2), len: Box::new(l2) })
        },
        ExprV::Return(o) => {
            let (d1, o2) = walk_opt_v(d, o);
            (d1, ExprV::Return(o2))
        },
        ExprV::Struct { fields, rest } => {
            let (d1, f2) = walk_exprs_v(d, fields);
            let (d2, r2) = walk_opt_v(d1, rest);
            (d2, ExprV::Struct { fields: f2, rest: r2 })
        },
        ExprV::Try(b) => {
            let (d1, e2) = walk_expr_v(d, *b);
            (d1, ExprV::Try(Box::new(e2)))
        },
        ExprV::TryBlock(ss) => {
            let d1 = push_frame_v(d, false);
            let (d2, ss2) = walk_stmts_v(d1, ss);
            (pop_frame_v(d2), ExprV::TryBlock(ss2))
        },
        ExprV::Tuple(es) => {
            let (d1, es2) = walk_exprs_v(d, es);
            (d1, ExprV::Tuple(es2))
        },
        ExprV::Unary(b) => {
            let (d1, e2) = walk_expr_v(d, *b);
            (d1, ExprV::Unary(Box::new(e2)))
        },
        ExprV::Unsafe(ss) => {
            let d1 = push_frame_v(d, false);
            let (d2, ss2) = walk_stmts_v(d1, ss);
            (pop_frame_v(d2), ExprV::Unsafe(ss2))
        },
        ExprV::Verbatim => (d, e),
        ExprV::While { cond, body } => {
            let (d1, c2) = walk_expr_v(d, *cond);
            let d2 = push_frame_v(d1, false);
            let (d3, b2) = walk_stmts_v(d2, body);
            (pop_frame_v(d3), ExprV::While { cond: Box::new(c2), body: b2 })
        },
        ExprV::Yield(o) => {
            let (d1, o2) = walk_opt_v(d, o);
            (d1, ExprV::Yield(o2))
        },
    }
}

pub open spec fn walk_stmt_v(d: DataV, s: StmtV) -> (DataV, StmtV)
    decreases s,
{
    match s {
        StmtV::Local { pat, init } => {
            let (d1, i2) = walk_opt_v(d, init);
            (bind_v(d1, extract_pat_v(pat)), StmtV::Local { pat, init: i2 })
        },
        StmtV::ItemConst { value } => {
            let (d1, v2) = walk_expr_v(d, *value);
            (d1, StmtV::ItemConst { value: Box::new(v2) })
        },
        StmtV::ItemFn { body } => {
            let d1 = push_frame_v(d, false);
            let (d2, b2) = walk_stmts_v(d1, body);
            (pop_frame_v(d2), StmtV::ItemFn { body: b2 })
        },
        StmtV::ItemOther => (d, s),
        StmtV::Expr(e) => {
            let (d1, e2) = walk_expr_v(d, e);
            (d1, StmtV::Expr(e2))
        },
        StmtV::Macro(ts) => (record_names_v(d, token_idents_v(ts)), s),
    }
}

pub open spec fn walk_stmts_v(d: DataV, ss: Seq<StmtV>) -> (DataV, Seq<StmtV>)
    decreases ss,
{
    if ss.len() == 0 {
        (d, ss)
    } else {
        let (d1, rs) = walk_stmts_v(d, ss.drop_last());
        let (d2, r) = walk_stmt_v(d1, ss.last());
        (d2, rs.push(r))
    }
}

// ----------------------------------------------------------------------------
// The entry point's model.
// ----------------------------------------------------------------------------

/// The tracker a fresh traversal starts from.
pub open spec fn initial_data_v(debug: bool) -> DataV {
    DataV { debug, root: Seq::empty(), nested: Seq::empty() }
}

/// The rewritten body of a whole function: its top-level statements walked in
/// order with one shared tracker and no frame, so top-level bindings
/// accumulate in the root set.
pub open spec fn rewrite_body_v(debug: bool, ss: Seq<StmtV>) -> Seq<StmtV> {
    walk_stmts_v(initial_data_v(debug), ss).1
}

/// Case-insensitive ASCII comparison of one character against a lower-case
/// letter.
pub open spec fn ci_v(c: char, l: char) -> bool {
    c == l || c as int + 32 == l as int
}

/// Whether a flag spells `debug`, compared case-insensitively over ASCII.
pub open spec fn debug_word_v(s: Seq<char>) -> bool {
    s.len() == 5 && ci_v(s[0], 'd') && ci_v(s[1], 'e') && ci_v(s[2], 'b') && ci_v(s[3], 'u')
        && ci_v(s[4], 'g')
}

pub open spec fn is_debug_entry_v(c: ConfigV) -> bool {
    c matches ConfigV::Flag(s) && debug_word_v(s)
}

/// Whether any configuration entry enables tracing.
pub open spec fn debug_flag_v(args: Seq<ConfigV>) -> bool {
    exists|i: int| 0 <= i < args.len() && is_debug_entry_v(#[trigger] args[i])
}

// ----------------------------------------------------------------------------
// Frame balance: the walk preserves the depth of the scope stack.
// ----------------------------------------------------------------------------

pub proof fn lemma_record_names_len(d: DataV, names: Seq<Seq<char>>)
    ensures
        record_names_v(d, names).nested.len() == d.nested.len(),
        record_names_v(d, names).debug == d.debug,
    decreases names,
{
    if names.len() > 0 {
        lemma_record_names_len(d, names.drop_last());
    }
}

pub proof fn lemma_bind_len(d: DataV, names: Seq<Seq<char>>)
    ensures
        bind_v(d, names).nested.len() == d.nested.len(),
        bind_v(d, names).debug == d.debug,
{
}

pub proof fn lemma_bind_pats_len(d: DataV, ps: Seq<PatV>)
    ensures
        bind_pats_v(d, ps).nested.len() == d.nested.len(),
        bind_pats_v(d, ps).debug == d.debug,
    decreases ps,
{
    if ps.len() > 0 {
        lemma_bind_pats_len(d, ps.drop_last());
        lemma_bind_len(bind_pats_v(d, ps.drop_last()), extract_pat_v(ps.last()));
    }
}

pub proof fn lemma_record_segs_len(d: DataV, ss: Seq<SegV>)
    ensures
        record_segs_v(d, ss).nested.len() == d.nested.len(),
        record_segs_v(d, ss).debug == d.debug,
    decreases ss,
{
    if ss.len() > 0 {
        lemma_record_segs_len(d, ss.drop_last());
        let d1 = record_segs_v(d, ss.drop_last());
        lemma_record_names_len(record_usage_v(d1, ss.last().name), ss.last().extra);
    }
}

pub proof fn lemma_walk_opt_len(d: DataV, o: Option<Box<ExprV>>)
    ensures
        walk_opt_v(d, o).0.nested.len() == d.nested.len(),
        walk_opt_v(d, o).0.debug == d.debug,
    decreases o,
{
    match o {
        Some(b) => lemma_walk_expr_len(d, *b),
        None => (),
    }
}

pub proof fn lemma_walk_exprs_len(d: DataV, es: Seq<ExprV>)
    ensures
        walk_exprs_v(d, es).0.nested.len() == d.nested.len(),
        walk_exprs_v(d, es).0.debug == d.debug,
    decreases es,
{
    if es.len() > 0 {
        lemma_walk_exprs_len(d, es.drop_last());
        lemma_walk_expr_len(walk_exprs_v(d, es.drop_last()).0, es.last());
    }
}

pub proof fn lemma_walk_arm_len(d: DataV, a: ArmV)
    ensures
        walk_arm_v(d, a).0.nested.len() == d.nested.len(),
        walk_arm_v(d, a).0.debug == d.debug,
    decreases a,
{
    let d1 = push_frame_v(d, false);
    let d2 = bind_v(d1, extract_pat_v(a.pat));
    lemma_bind_len(d1, extract_pat_v(a.pat));
    lemma_walk_opt_len(d2, a.guard);
    let d3 = walk_opt_v(d2, a.guard).0;
    lemma_walk_expr_len(d3, *a.body);
}

pub proof fn lemma_walk_arms_len(d: DataV, arms: Seq<ArmV>)
    ensures
        walk_arms_v(d, arms).0.nested.len() == d.nested.len(),
        walk_arms_v(d, arms).0.debug == d.debug,
    decreases arms,
{
    if arms.len() > 0 {
        lemma_walk_arms_len(d, arms.drop_last());
        lemma_walk_arm_len(walk_arms_v(d, arms.drop_last()).0, arms.last());
    }
}

pub proof fn lemma_walk_expr_len(d: DataV, e: ExprV)
    ensures
        walk_expr_v(d, e).0.nested.len() == d.nested.len(),
        walk_expr_v(d, e).0.debug == d.debug,
    decreases e,
{
    match e {
        ExprV::Array(es) => lemma_walk_exprs_len(d, es),
        ExprV::Assign { left, right } => {
            lemma_walk_expr_len(d, *left);
            lemma_walk_expr_len(walk_expr_v(d, *left).0, *right);
        },
        ExprV::Async { capture, body } => {
            lemma_walk_stmts_len(push_frame_v(d, capture), body);
        },
        ExprV::Await(b) => lemma_walk_expr_len(d, *b),
        ExprV::Binary { left, right } => {
            lemma_walk_expr_len(d, *left);
            lemma_walk_expr_len(walk_expr_v(d, *left).0, *right);
        },
        ExprV::Block(ss) => lemma_walk_stmts_len(push_frame_v(d, false), ss),
        ExprV::Break(o) => lemma_walk_opt_len(d, o),
        ExprV::Call { func, args } => {
            lemma_walk_expr_len(d, *func);
            lemma_walk_exprs_len(walk_expr_v(d, *func).0, args);
        },
        ExprV::Cast(b) => lemma_walk_expr_len(d, *b),
        ExprV::Closure { capture, params, body } => {
            let d1 = push_frame_v(d, capture);
            lemma_bind_pats_len(d1, params);
            lemma_walk_expr_len(bind_pats_v(d1, params), *body);
        },
        ExprV::Continue => (),
        ExprV::Field(b) => lemma_walk_expr_len(d, *b),
        ExprV::ForLoop { pat, iter, body } => {
            lemma_walk_expr_len(d, *iter);
            let d1 = walk_expr_v(d, *iter).0;
            let d2 = push_frame_v(d1, false);
            lemma_bind_len(d2, extract_pat_v(pat));
            lemma_walk_stmts_len(bind_v(d2, extract_pat_v(pat)), body);
        },
        ExprV::Group(b) => lemma_walk_expr_len(d, *b),
        ExprV::If { cond, then_body, else_body } => {
            lemma_walk_expr_len(d, *cond);
            let d1 = walk_expr_v(d, *cond).0;
            lemma_walk_stmts_len(push_frame_v(d1, false), then_body);
            let d4 = pop_frame_v(walk_stmts_v(push_frame_v(d1, false), then_body).0);
            lemma_walk_opt_len(d4, else_body);
        },
        ExprV::Index { base, index } => {
            lemma_walk_expr_len(d, *index);
            lemma_walk_expr_len(walk_expr_v(d, *index).0, *base);
        },
        ExprV::Let { value } => lemma_walk_expr_len(d, *value),
        ExprV::Lit => (),
        ExprV::Loop(ss) => lemma_walk_stmts_len(push_frame_v(d, false), ss),
        ExprV::Macro(ts) => lemma_record_names_len(d, token_idents_v(ts)),
        ExprV::Match { scrutinee, arms } => {
            lemma_walk_expr_len(d, *scrutinee);
            lemma_walk_arms_len(walk_expr_v(d, *scrutinee).0, arms);
        },
        ExprV::MethodCall { receiver, method, args } => {
            lemma_walk_expr_len(d, *receiver);
            lemma_walk_exprs_len(walk_expr_v(d, *receiver).0, args);
        },
        ExprV::Paren(b) => lemma_walk_expr_len(d, *b),
        ExprV::Path { leading_colon, segments } => {
            if d.nested.len() > 0 && !leading_colon {
                lemma_record_segs_len(d, segments);
            }
        },
        ExprV::Range { start, end } => {
            lemma_walk_opt_len(d, start);
            lemma_walk_opt_len(walk_opt_v(d, start).0, end);
        },
        ExprV::Reference(b) => lemma_walk_expr_len(d, *b),
        ExprV::Repeat { value, len } => {
            lemma_walk_expr_len(d, *value);
            lemma_walk_expr_len(walk_expr_v(d, *value).0, *len);
        },
        ExprV::Return(o) => lemma_walk_opt_len(d, o),
        ExprV::Struct { fields, rest } => {
            lemma_walk_exprs_len(d, fields);
            lemma_walk_opt_len(walk_exprs_v(d, fields).0, rest);
        },
        ExprV::Try(b) => lemma_walk_expr_len(d, *b),
        ExprV::TryBlock(ss) => lemma_walk_stmts_len(push_frame_v(d, false), ss),
        ExprV::Tuple(es) => lemma_walk_exprs_len(d, es),
        ExprV::Unary(b) => lemma_walk_expr_len(d, *b),
        ExprV::Unsafe(ss) => lemma_walk_stmts_len(push_frame_v(d, false), ss),
        ExprV::Verbatim => (),
        ExprV::While { cond, body } => {
            lemma_walk_expr_len(d, *cond);
            let d1 = walk_expr_v(d, *cond).0;
            lemma_walk_stmts_len(push_frame_v(d1, false), body);
        },
        ExprV::Yield(o) => lemma_walk_opt_len(d, o),
    }
}

pub proof fn lemma_walk_stmt_len(d: DataV, s: StmtV)
    ensures
        walk_stmt_v(d, s).0.nested.len() == d.nested.len(),
        walk_stmt_v(d, s).0.debug == d.debug,
    decreases s,
{
    match s {
        StmtV::Local { pat, init } => {
            lemma_walk_opt_len(d, init);
            lemma_bind_len(walk_opt_v(d, init).0, extract_pat_v(pat));
        },
        StmtV::ItemConst { value } => lemma_walk_expr_len(d, *value),
        StmtV::ItemFn { body } => lemma_walk_stmts_len(push_frame_v(d, false), body),
        StmtV::ItemOther => (),
        StmtV::Expr(e) => lemma_walk_expr_len(d, e),
        StmtV::Macro(ts) => lemma_record_names_len(d, token_idents_v(ts)),
    }
}

pub proof fn lemma_walk_stmts_len(d: DataV, ss: Seq<StmtV>)
    ensures
        walk_stmts_v(d, ss).0.nested.len() == d.nested.len(),
        walk_stmts_v(d, ss).0.debug == d.debug,
    decreases ss,
{
    if ss.len() > 0 {
        lemma_walk_stmts_len(d, ss.drop_last());
        lemma_walk_stmt_len(walk_stmts_v(d, ss.drop_last()).0, ss.last());
    }
}

} // verus!
