//! Laws of the rewrite, proved against the ghost model: idempotence on
//! bodies without capturing boundaries, the exact shape and breadth of the
//! synthesized duplications, the frame-by-frame attribution rule, the
//! binding-after-initializer order that makes `let x = x;` sound, and the
//! reserved-prefix opt-out.

use vstd::prelude::*;
use crate::ast::ArmV;
use crate::ast::ExprV;
use crate::ast::PatV;
use crate::ast::StmtV;
use crate::idents::ins;
use crate::idents::lemma_ins_nodup;
use crate::idents::lemma_ins_reserved_free;
use crate::idents::nodup;
use crate::idents::reserved_free;
use crate::idents::reserved_name;
use crate::rewrite::bind_pats_v;
use crate::rewrite::clone_stmt_v;
use crate::rewrite::extract_pat_v;
use crate::rewrite::rewrite_body_v;
use crate::rewrite::synth_v;
use crate::rewrite::walk_arm_v;
use crate::rewrite::walk_arms_v;
use crate::rewrite::walk_expr_v;
use crate::rewrite::walk_exprs_v;
use crate::rewrite::walk_opt_v;
use crate::rewrite::walk_stmt_v;
use crate::rewrite::walk_stmts_v;
use crate::scope::DataV;
use crate::scope::NestV;
use crate::scope::bind_v;
use crate::scope::innermost_v;
use crate::scope::lemma_innermost_props;
use crate::scope::record_names_v;
use crate::scope::record_usage_v;
use crate::scope::usage_target_v;

verus! {

// ----------------------------------------------------------------------------
// Idempotence of non-capture: a tree without move-closures and
// move-async-blocks passes through the rewrite unchanged.
// ----------------------------------------------------------------------------

pub open spec fn no_capture_opt(o: Option<Box<ExprV>>) -> bool
    decreases o,
{
    match o {
        Some(b) => no_capture_expr(*b),
        None => true,
    }
}

pub open spec fn no_capture_exprs(es: Seq<ExprV>) -> bool
    decreases es,
{
    if es.len() == 0 {
        true
    } else {
        no_capture_exprs(es.drop_last()) && no_capture_expr(es.last())
    }
}

pub open spec fn no_capture_arms(arms: Seq<ArmV>) -> bool
    decreases arms,
{
    if arms.len() == 0 {
        true
    } else {
        no_capture_arms(arms.drop_last()) && no_capture_opt(arms.last().guard) && no_capture_expr(
            *arms.last().body,
        )
    }
}

pub open spec fn no_capture_expr(e: ExprV) -> bool
    decreases e,
{
    match e {
        ExprV::Array(es) => no_capture_exprs(es),
        ExprV::Assign { left, right } => no_capture_expr(*left) && no_capture_expr(*right),
        ExprV::Async { capture, body } => !capture && no_capture_stmts(body),
        ExprV::Await(b) => no_capture_expr(*b),
        ExprV::Binary { left, right } => no_capture_expr(*left) && no_capture_expr(*right),
        ExprV::Block(ss) => no_capture_stmts(ss),
        ExprV::Break(o) => no_capture_opt(o),
        ExprV::Call { func, args } => no_capture_expr(*func) && no_capture_exprs(args),
        ExprV::Cast(b) => no_capture_expr(*b),
        ExprV::Closure { capture, params, body } => !capture && no_capture_expr(*body),
        ExprV::Continue => true,
        ExprV::Field(b) => no_capture_expr(*b),
        ExprV::ForLoop { pat, iter, body } => no_capture_expr(*iter) && no_capture_stmts(body),
        ExprV::Group(b) => no_capture_expr(*b),
        ExprV::If { cond, then_body, else_body } => no_capture_expr(*cond) && no_capture_stmts(
            then_body,
        ) && no_capture_opt(else_body),
        ExprV::Index { base, index } => no_capture_expr(*base) && no_capture_expr(*index),
        ExprV::Let { value } => no_capture_expr(*value),
        ExprV::Lit => true,
        ExprV::Loop(ss) => no_capture_stmts(ss),
        ExprV::Macro(ts) => true,
        ExprV::Match { scrutinee, arms } => no_capture_expr(*scrutinee) && no_capture_arms(arms),
        ExprV::MethodCall { receiver, method, args } => no_capture_expr(*receiver)
            && no_capture_exprs(args),
        ExprV::Paren(b) => no_capture_expr(*b),
        ExprV::Path { leading_colon, segments } => true,
        ExprV::Range { start, end } => no_capture_opt(start) && no_capture_opt(end),
        ExprV::Reference(b) => no_capture_expr(*b),
        ExprV::Repeat { value, len } => no_capture_expr(*value) && no_capture_expr(*len),
        ExprV::Return(o) => no_capture_opt(o),
        ExprV::Struct { fields, rest } => no_capture_exprs(fields) && no_capture_opt(rest),
        ExprV::Try(b) => no_capture_expr(*b),
        ExprV::TryBlock(ss) => no_capture_stmts(ss),
        ExprV::Tuple(es) => no_capture_exprs(es),
        ExprV::Unary(b) => no_capture_expr(*b),
        ExprV::Unsafe(ss) => no_capture_stmts(ss),
        ExprV::Verbatim => true,
        ExprV::While { cond, body } => no_capture_expr(*cond) && no_capture_stmts(body),
        ExprV::Yield(o) => no_capture_opt(o),
    }
}

pub open spec fn no_capture_stmt(s: StmtV) -> bool
    decreases s,
{
    match s {
        StmtV::Local { pat, init } => no_capture_opt(init),
        StmtV::ItemConst { value } => no_capture_expr(*value),
        StmtV::ItemFn { body } => no_capture_stmts(body),
        StmtV::ItemOther => true,
        StmtV::Expr(e) => no_capture_expr(e),
        StmtV::Macro(ts) => true,
    }
}

pub open spec fn no_capture_stmts(ss: Seq<StmtV>) -> bool
    decreases ss,
{
    if ss.len() == 0 {
        true
    } else {
        no_capture_stmts(ss.drop_last()) && no_capture_stmt(ss.last())
    }
}

proof fn lemma_id_opt(d: DataV, o: Option<Box<ExprV>>)
    requires
        no_capture_opt(o),
    ensures
        walk_opt_v(d, o).1 == o,
    decreases o,
{
    match o {
        Some(b) => {
            lemma_id_expr(d, *b);
        },
        None => {},
    }
}

proof fn lemma_id_exprs(d: DataV, es: Seq<ExprV>)
    requires
        no_capture_exprs(es),
    ensures
        walk_exprs_v(d, es).1 == es,
    decreases es,
{
    if es.len() > 0 {
        lemma_id_exprs(d, es.drop_last());
        lemma_id_expr(walk_exprs_v(d, es.drop_last()).0, es.last());
        assert(walk_exprs_v(d, es).1 =~= es.drop_last().push(es.last()));
        assert(es.drop_last().push(es.last()) =~= es);
    }
}

proof fn lemma_id_arms(d: DataV, arms: Seq<ArmV>)
    requires
        no_capture_arms(arms),
    ensures
        walk_arms_v(d, arms).1 == arms,
    decreases arms,
{
    if arms.len() > 0 {
        lemma_id_arms(d, arms.drop_last());
        let d1 = walk_arms_v(d, arms.drop_last()).0;
        let a = arms.last();
        let e1 = bind_v(crate::scope::push_frame_v(d1, false), extract_pat_v(a.pat));
        lemma_id_opt(e1, a.guard);
        lemma_id_expr(walk_opt_v(e1, a.guard).0, *a.body);
        assert(walk_arm_v(d1, a).1 == a);
        assert(walk_arms_v(d, arms).1 =~= arms.drop_last().push(arms.last()));
        assert(arms.drop_last().push(arms.last()) =~= arms);
    }
}

proof fn lemma_id_expr(d: DataV, e: ExprV)
    requires
        no_capture_expr(e),
    ensures
        walk_expr_v(d, e).1 == e,
    decreases e,
{
    match e {
        ExprV::Array(es) => lemma_id_exprs(d, es),
        ExprV::Assign { left, right } => {
            lemma_id_expr(d, *left);
            lemma_id_expr(walk_expr_v(d, *left).0, *right);
        },
        ExprV::Async { capture, body } => {
            lemma_id_stmts(crate::scope::push_frame_v(d, capture), body);
        },
        ExprV::Await(b) => lemma_id_expr(d, *b),
        ExprV::Binary { left, right } => {
            lemma_id_expr(d, *left);
            lemma_id_expr(walk_expr_v(d, *left).0, *right);
        },
        ExprV::Block(ss) => lemma_id_stmts(crate::scope::push_frame_v(d, false), ss),
        ExprV::Break(o) => lemma_id_opt(d, o),
        ExprV::Call { func, args } => {
            lemma_id_expr(d, *func);
            lemma_id_exprs(walk_expr_v(d, *func).0, args);
        },
        ExprV::Cast(b) => lemma_id_expr(d, *b),
        ExprV::Closure { capture, params, body } => {
            let d2 = bind_pats_v(crate::scope::push_frame_v(d, capture), params);
            lemma_id_expr(d2, *body);
        },
        ExprV::Continue => {},
        ExprV::Field(b) => lemma_id_expr(d, *b),
        ExprV::ForLoop { pat, iter, body } => {
            lemma_id_expr(d, *iter);
            let d1 = walk_expr_v(d, *iter).0;
            lemma_id_stmts(
                bind_v(crate::scope::push_frame_v(d1, false), extract_pat_v(pat)),
                body,
            );
        },
        ExprV::Group(b) => lemma_id_expr(d, *b),
        ExprV::If { cond, then_body, else_body } => {
            lemma_id_expr(d, *cond);
            let d1 = walk_expr_v(d, *cond).0;
            lemma_id_stmts(crate::scope::push_frame_v(d1, false), then_body);
            let d4 = crate::scope::pop_frame_v(
                walk_stmts_v(crate::scope::push_frame_v(d1, false), then_body).0,
            );
            lemma_id_opt(d4, else_body);
        },
        ExprV::Index { base, index } => {
            lemma_id_expr(d, *index);
            lemma_id_expr(walk_expr_v(d, *index).0, *base);
        },
        ExprV::Let { value } => lemma_id_expr(d, *value),
        ExprV::Lit => {},
        ExprV::Loop(ss) => lemma_id_stmts(crate::scope::push_frame_v(d, false), ss),
        ExprV::Macro(ts) => {},
        ExprV::Match { scrutinee, arms } => {
            lemma_id_expr(d, *scrutinee);
            lemma_id_arms(walk_expr_v(d, *scrutinee).0, arms);
        },
        ExprV::MethodCall { receiver, method, args } => {
            lemma_id_expr(d, *receiver);
            lemma_id_exprs(walk_expr_v(d, *receiver).0, args);
        },
        ExprV::Paren(b) => lemma_id_expr(d, *b),
        ExprV::Path { leading_colon, segments } => {},
        ExprV::Range { start, end } => {
            lemma_id_opt(d, start);
            lemma_id_opt(walk_opt_v(d, start).0, end);
        },
        ExprV::Reference(b) => lemma_id_expr(d, *b),
        ExprV::Repeat { value, len } => {
            lemma_id_expr(d, *value);
            lemma_id_expr(walk_expr_v(d, *value).0, *len);
        },
        ExprV::Return(o) => lemma_id_opt(d, o),
        ExprV::Struct { fields, rest } => {
            lemma_id_exprs(d, fields);
            lemma_id_opt(walk_exprs_v(d, fields).0, rest);
        },
        ExprV::Try(b) => lemma_id_expr(d, *b),
        ExprV::TryBlock(ss) => lemma_id_stmts(crate::scope::push_frame_v(d, false), ss),
        ExprV::Tuple(es) => lemma_id_exprs(d, es),
        ExprV::Unary(b) => lemma_id_expr(d, *b),
        ExprV::Unsafe(ss) => lemma_id_stmts(crate::scope::push_frame_v(d, false), ss),
        ExprV::Verbatim => {},
        ExprV::While { cond, body } => {
            lemma_id_expr(d, *cond);
            let d1 = walk_expr_v(d, *cond).0;
            lemma_id_stmts(crate::scope::push_frame_v(d1, false), body);
        },
        ExprV::Yield(o) => lemma_id_opt(d, o),
    }
}

proof fn lemma_id_stmt(d: DataV, s: StmtV)
    requires
        no_capture_stmt(s),
    ensures
        walk_stmt_v(d, s).1 == s,
    decreases s,
{
    match s {
        StmtV::Local { pat, init } => lemma_id_opt(d, init),
        StmtV::ItemConst { value } => lemma_id_expr(d, *value),
        StmtV::ItemFn { body } => lemma_id_stmts(crate::scope::push_frame_v(d, false), body),
        StmtV::ItemOther => {},
        StmtV::Expr(e) => lemma_id_expr(d, e),
        StmtV::Macro(ts) => {},
    }
}

proof fn lemma_id_stmts(d: DataV, ss: Seq<StmtV>)
    requires
        no_capture_stmts(ss),
    ensures
        walk_stmts_v(d, ss).1 == ss,
    decreases ss,
{
    if ss.len() > 0 {
        lemma_id_stmts(d, ss.drop_last());
        lemma_id_stmt(walk_stmts_v(d, ss.drop_last()).0, ss.last());
        assert(walk_stmts_v(d, ss).1 =~= ss.drop_last().push(ss.last()));
        assert(ss.drop_last().push(ss.last()) =~= ss);
    }
}

/// Idempotence of non-capture: a function body that contains no
/// move-closure and no move-async-block is rewritten to itself, whatever the
/// tracing switch says.
pub proof fn lemma_idempotence_without_boundaries(debug: bool, body: Seq<StmtV>)
    requires
        no_capture_stmts(body),
    ensures
        rewrite_body_v(debug, body) == body,
{
    lemma_id_stmts(crate::rewrite::initial_data_v(debug), body);
}

// ----------------------------------------------------------------------------
// Duplication breadth: what the synthesizer emits, and how a use of a
// root-bound variable is attributed.
// ----------------------------------------------------------------------------

/// The synthesizer wraps a boundary that uses at least one identifier in a
/// block holding exactly one duplication statement per used identifier, in
/// set order, followed by the boundary itself; when the used set holds no
/// name twice, no name is duplicated twice.
pub proof fn lemma_synth_one_clone_each(used: Seq<Seq<char>>, e: ExprV)
    requires
        used.len() > 0,
    ensures
        synth_v(used, e) matches ExprV::Block(ss) && ss.len() == used.len() + 1 && (forall|i: int|
            0 <= i < used.len() ==> ss[i] == clone_stmt_v(used[i])) && ss.last() == StmtV::Expr(e)
            && (nodup(used) ==> forall|i: int, j: int|
            0 <= i < j < used.len() ==> ss[i] != ss[j]),
{
    let ss = Seq::new(used.len(), |i: int| clone_stmt_v(used[i])).push(StmtV::Expr(e));
    assert(forall|i: int| 0 <= i < used.len() ==> ss[i] == clone_stmt_v(used[i]));
    if nodup(used) {
        assert forall|i: int, j: int| 0 <= i < j < used.len() implies ss[i] != ss[j] by {
            assert(ss[i] == clone_stmt_v(used[i]));
            assert(ss[j] == clone_stmt_v(used[j]));
            assert(used[i] != used[j]);
        }
    }
}

/// A use of a variable that is bound only at the root of the function body is
/// attributed to every active frame: each one's usage set gains the name.
pub proof fn lemma_root_usage_breadth(d: DataV, n: Seq<char>)
    requires
        innermost_v(d.nested, n) is None,
        d.root.contains(n),
    ensures
        record_usage_v(d, n).nested.len() == d.nested.len(),
        forall|j: int|
            0 <= j < d.nested.len() ==> (#[trigger] record_usage_v(d, n).nested[j]) == (NestV {
                usage: ins(d.nested[j].usage, n),
                ..d.nested[j]
            }),
        record_usage_v(d, n).root == d.root,
{
    assert(forall|j: int| 0 <= j < d.nested.len() ==> usage_target_v(d, n, j));
}

/// The attribution rule, characterized frame by frame: a use of `n` charges
/// exactly the capturing frames strictly inside the innermost frame that
/// binds `n`; when only the root binds `n`, every frame; and no frame at all
/// when `n` is not visible.  Bound sets, the root set and the tracing switch
/// never change.
pub proof fn lemma_attribution(d: DataV, n: Seq<char>)
    ensures
        record_usage_v(d, n).nested.len() == d.nested.len(),
        record_usage_v(d, n).root == d.root,
        record_usage_v(d, n).debug == d.debug,
        forall|j: int|
            0 <= j < d.nested.len() ==> (#[trigger] record_usage_v(d, n).nested[j]).idents
                == d.nested[j].idents,
        forall|j: int|
            0 <= j < d.nested.len() ==> (#[trigger] record_usage_v(d, n).nested[j]).usage == (
            if usage_target_v(d, n, j) {
                ins(d.nested[j].usage, n)
            } else {
                d.nested[j].usage
            }),
        forall|j: int, m: Seq<char>|
            0 <= j < d.nested.len() ==> ((#[trigger] record_usage_v(d, n).nested[j].usage.contains(
                m,
            )) <==> (d.nested[j].usage.contains(m) || (m == n && usage_target_v(d, n, j)))),
{
    assert forall|j: int, m: Seq<char>|
        0 <= j < d.nested.len() implies ((#[trigger] record_usage_v(d, n).nested[j].usage.contains(
        m,
    )) <==> (d.nested[j].usage.contains(m) || (m == n && usage_target_v(d, n, j)))) by {
        if usage_target_v(d, n, j) {
            crate::idents::lemma_ins_contains(d.nested[j].usage, n, m);
        }
    }
}

// ----------------------------------------------------------------------------
// Shadowing without self-usage: the initializer of a binding is attributed
// before the binding itself registers, so `let x = x;` charges the use of the
// outer `x`, and the fresh `x` is only bound afterwards.
// ----------------------------------------------------------------------------

/// Walking `let x = x;` first attributes the initializer's `x` in the state
/// *before* the new binding exists, then binds `x`; the statement itself is
/// returned unchanged, and no duplication is synthesized for it.
pub proof fn lemma_shadowing_binding_order(d: DataV, pat: PatV, init: Option<Box<ExprV>>)
    ensures
        walk_stmt_v(d, StmtV::Local { pat, init }) == {
            let (d1, i2) = walk_opt_v(d, init);
            (bind_v(d1, extract_pat_v(pat)), StmtV::Local { pat, init: i2 })
        },
{
}


// ----------------------------------------------------------------------------
// Opt-out correctness.
//
// A name with the reserved prefix is never registered as bound (the
// extractor filters it), so a use of it is never attributed, so no boundary
// ever duplicates it.  `tracker_wf` is the invariant: every set of the
// tracker is free of reserved names and holds no name twice; the walk
// preserves it, and `cloned_names_stmts` collects every name any boundary
// hands to the synthesizer during a walk.
// ----------------------------------------------------------------------------

pub open spec fn tracker_wf(d: DataV) -> bool {
    reserved_free(d.root) && nodup(d.root) && forall|j: int|
        0 <= j < d.nested.len() ==> (reserved_free((#[trigger] d.nested[j]).idents)
            && reserved_free(d.nested[j].usage) && nodup(d.nested[j].idents) && nodup(
            d.nested[j].usage,
        ))
}

proof fn lemma_member_not_reserved(s: Seq<Seq<char>>, n: Seq<char>)
    requires
        reserved_free(s),
        s.contains(n),
    ensures
        !reserved_name(n),
{
    let i = choose|i: int| 0 <= i < s.len() && s[i] == n;
    assert(!reserved_name(s[i]));
}

proof fn lemma_record_usage_wf(d: DataV, n: Seq<char>)
    requires
        tracker_wf(d),
    ensures
        tracker_wf(record_usage_v(d, n)),
{
    lemma_innermost_props(d.nested, n);
    let d2 = record_usage_v(d, n);
    assert forall|j: int|
        0 <= j < d2.nested.len() implies (reserved_free((#[trigger] d2.nested[j]).idents)
        && reserved_free(d2.nested[j].usage) && nodup(d2.nested[j].idents) && nodup(
        d2.nested[j].usage,
    )) by {
        if usage_target_v(d, n, j) {
            match innermost_v(d.nested, n) {
                Some(off) => {
                    lemma_member_not_reserved(d.nested[off].idents, n);
                },
                None => {
                    lemma_member_not_reserved(d.root, n);
                },
            }
            lemma_ins_reserved_free(d.nested[j].usage, n);
            lemma_ins_nodup(d.nested[j].usage, n);
        }
    }
}

proof fn lemma_record_names_wf(d: DataV, names: Seq<Seq<char>>)
    requires
        tracker_wf(d),
    ensures
        tracker_wf(record_names_v(d, names)),
    decreases names,
{
    if names.len() > 0 {
        lemma_record_names_wf(d, names.drop_last());
        lemma_record_usage_wf(record_names_v(d, names.drop_last()), names.last());
    }
}

proof fn lemma_bind_wf(d: DataV, names: Seq<Seq<char>>)
    requires
        tracker_wf(d),
        reserved_free(names),
    ensures
        tracker_wf(bind_v(d, names)),
{
    if d.nested.len() > 0 {
        let k = d.nested.len() - 1;
        crate::idents::lemma_uni_reserved_free(d.nested[k].idents, names);
        crate::idents::lemma_uni_nodup(d.nested[k].idents, names);
        let d2 = bind_v(d, names);
        assert forall|j: int|
            0 <= j < d2.nested.len() implies (reserved_free((#[trigger] d2.nested[j]).idents)
            && reserved_free(d2.nested[j].usage) && nodup(d2.nested[j].idents) && nodup(
            d2.nested[j].usage,
        )) by {
            if j != k {
                assert(d2.nested[j] == d.nested[j]);
            }
        }
    } else {
        crate::idents::lemma_uni_reserved_free(d.root, names);
        crate::idents::lemma_uni_nodup(d.root, names);
    }
}

proof fn lemma_extract_rf(p: PatV)
    ensures
        reserved_free(extract_pat_v(p)),
    decreases p,
{
    match p {
        PatV::Name { name, mutable, sub } => {
            let base = if reserved_name(name) || mutable {
                Seq::<Seq<char>>::empty()
            } else {
                seq![name]
            };
            assert(reserved_free(base));
            match sub {
                Some(sp) => {
                    lemma_extract_rf(*sp);
                    crate::idents::lemma_uni_reserved_free(base, extract_pat_v(*sp));
                },
                None => {},
            }
        },
        PatV::Struct(ps) => lemma_extracts_rf(ps),
        PatV::Tuple(ps) => lemma_extracts_rf(ps),
        PatV::TupleStruct(ps) => lemma_extracts_rf(ps),
        PatV::Typed(b) => lemma_extract_rf(*b),
        PatV::Other => {},
    }
}

proof fn lemma_extracts_rf(ps: Seq<PatV>)
    ensures
        reserved_free(crate::rewrite::extract_pats_v(ps)),
    decreases ps,
{
    if ps.len() > 0 {
        lemma_extracts_rf(ps.drop_last());
        lemma_extract_rf(ps.last());
        crate::idents::lemma_uni_reserved_free(
            crate::rewrite::extract_pats_v(ps.drop_last()),
            extract_pat_v(ps.last()),
        );
    }
}

proof fn lemma_bind_pats_wf(d: DataV, ps: Seq<PatV>)
    requires
        tracker_wf(d),
    ensures
        tracker_wf(bind_pats_v(d, ps)),
    decreases ps,
{
    if ps.len() > 0 {
        lemma_bind_pats_wf(d, ps.drop_last());
        lemma_extract_rf(ps.last());
        lemma_bind_wf(bind_pats_v(d, ps.drop_last()), extract_pat_v(ps.last()));
    }
}

proof fn lemma_record_segs_wf(d: DataV, ss: Seq<crate::ast::SegV>)
    requires
        tracker_wf(d),
    ensures
        tracker_wf(crate::rewrite::record_segs_v(d, ss)),
    decreases ss,
{
    if ss.len() > 0 {
        lemma_record_segs_wf(d, ss.drop_last());
        let d1 = crate::rewrite::record_segs_v(d, ss.drop_last());
        lemma_record_usage_wf(d1, ss.last().name);
        lemma_record_names_wf(record_usage_v(d1, ss.last().name), ss.last().extra);
    }
}

proof fn lemma_push_frame_wf(d: DataV, capture: bool)
    requires
        tracker_wf(d),
    ensures
        tracker_wf(crate::scope::push_frame_v(d, capture)),
{
    let d2 = crate::scope::push_frame_v(d, capture);
    assert forall|j: int|
        0 <= j < d2.nested.len() implies (reserved_free((#[trigger] d2.nested[j]).idents)
        && reserved_free(d2.nested[j].usage) && nodup(d2.nested[j].idents) && nodup(
        d2.nested[j].usage,
    )) by {
        if j < d.nested.len() {
            assert(d2.nested[j] == d.nested[j]);
        } else {
            assert(d2.nested[j] == crate::scope::empty_frame_v(capture));
        }
    }
}

proof fn lemma_pop_frame_wf(d: DataV)
    requires
        tracker_wf(d),
        d.nested.len() > 0,
    ensures
        tracker_wf(crate::scope::pop_frame_v(d)),
{
    let d2 = crate::scope::pop_frame_v(d);
    assert forall|j: int|
        0 <= j < d2.nested.len() implies (reserved_free((#[trigger] d2.nested[j]).idents)
        && reserved_free(d2.nested[j].usage) && nodup(d2.nested[j].idents) && nodup(
        d2.nested[j].usage,
    )) by {
        assert(d2.nested[j] == d.nested[j]);
    }
}

proof fn lemma_wf_opt(d: DataV, o: Option<Box<ExprV>>)
    requires
        tracker_wf(d),
    ensures
        tracker_wf(walk_opt_v(d, o).0),
    decreases o,
{
    match o {
        Some(b) => lemma_wf_expr(d, *b),
        None => {},
    }
}

proof fn lemma_wf_exprs(d: DataV, es: Seq<ExprV>)
    requires
        tracker_wf(d),
    ensures
        tracker_wf(walk_exprs_v(d, es).0),
    decreases es,
{
    if es.len() > 0 {
        lemma_wf_exprs(d, es.drop_last());
        lemma_wf_expr(walk_exprs_v(d, es.drop_last()).0, es.last());
    }
}

proof fn lemma_wf_arm(d: DataV, a: ArmV)
    requires
        tracker_wf(d),
    ensures
        tracker_wf(walk_arm_v(d, a).0),
    decreases a,
{
    lemma_push_frame_wf(d, false);
    let d1 = crate::scope::push_frame_v(d, false);
    lemma_extract_rf(a.pat);
    lemma_bind_wf(d1, extract_pat_v(a.pat));
    let d2 = bind_v(d1, extract_pat_v(a.pat));
    lemma_wf_opt(d2, a.guard);
    let d3 = walk_opt_v(d2, a.guard).0;
    lemma_wf_expr(d3, *a.body);
    crate::rewrite::lemma_bind_len(d1, extract_pat_v(a.pat));
    crate::rewrite::lemma_walk_opt_len(d2, a.guard);
    crate::rewrite::lemma_walk_expr_len(d3, *a.body);
    lemma_pop_frame_wf(walk_expr_v(d3, *a.body).0);
}

proof fn lemma_wf_arms(d: DataV, arms: Seq<ArmV>)
    requires
        tracker_wf(d),
    ensures
        tracker_wf(walk_arms_v(d, arms).0),
    decreases arms,
{
    if arms.len() > 0 {
        lemma_wf_arms(d, arms.drop_last());
        lemma_wf_arm(walk_arms_v(d, arms.drop_last()).0, arms.last());
    }
}

proof fn lemma_wf_expr(d: DataV, e: ExprV)
    requires
        tracker_wf(d),
    ensures
        tracker_wf(walk_expr_v(d, e).0),
    decreases e,
{
    match e {
        ExprV::Array(es) => lemma_wf_exprs(d, es),
        ExprV::Assign { left, right } => {
            lemma_wf_expr(d, *left);
            lemma_wf_expr(walk_expr_v(d, *left).0, *right);
        },
        ExprV::Async { capture, body } => {
            lemma_push_frame_wf(d, capture);
            lemma_wf_stmts(crate::scope::push_frame_v(d, capture), body);
            crate::rewrite::lemma_walk_stmts_len(crate::scope::push_frame_v(d, capture), body);
            lemma_pop_frame_wf(walk_stmts_v(crate::scope::push_frame_v(d, capture), body).0);
        },
        ExprV::Await(b) => lemma_wf_expr(d, *b),
        ExprV::Binary { left, right } => {
            lemma_wf_expr(d, *left);
            lemma_wf_expr(walk_expr_v(d, *left).0, *right);
        },
        ExprV::Block(ss) => {
            lemma_push_frame_wf(d, false);
            lemma_wf_stmts(crate::scope::push_frame_v(d, false), ss);
            crate::rewrite::lemma_walk_stmts_len(crate::scope::push_frame_v(d, false), ss);
            lemma_pop_frame_wf(walk_stmts_v(crate::scope::push_frame_v(d, false), ss).0);
        },
        ExprV::Break(o) => lemma_wf_opt(d, o),
        ExprV::Call { func, args } => {
            lemma_wf_expr(d, *func);
            lemma_wf_exprs(walk_expr_v(d, *func).0, args);
        },
        ExprV::Cast(b) => lemma_wf_expr(d, *b),
        ExprV::Closure { capture, params, body } => {
            lemma_push_frame_wf(d, capture);
            let d1 = crate::scope::push_frame_v(d, capture);
            lemma_bind_pats_wf(d1, params);
            let d2 = bind_pats_v(d1, params);
            lemma_wf_expr(d2, *body);
            crate::rewrite::lemma_bind_pats_len(d1, params);
            crate::rewrite::lemma_walk_expr_len(d2, *body);
            lemma_pop_frame_wf(walk_expr_v(d2, *body).0);
        },
        ExprV::Continue => {},
        ExprV::Field(b) => lemma_wf_expr(d, *b),
        ExprV::ForLoop { pat, iter, body } => {
            lemma_wf_expr(d, *iter);
            let d1 = walk_expr_v(d, *iter).0;
            lemma_push_frame_wf(d1, false);
            let d2 = crate::scope::push_frame_v(d1, false);
            lemma_extract_rf(pat);
            lemma_bind_wf(d2, extract_pat_v(pat));
            let d3 = bind_v(d2, extract_pat_v(pat));
            lemma_wf_stmts(d3, body);
            crate::rewrite::lemma_bind_len(d2, extract_pat_v(pat));
            crate::rewrite::lemma_walk_stmts_len(d3, body);
            lemma_pop_frame_wf(walk_stmts_v(d3, body).0);
        },
        ExprV::Group(b) => lemma_wf_expr(d, *b),
        ExprV::If { cond, then_body, else_body } => {
            lemma_wf_expr(d, *cond);
            let d1 = walk_expr_v(d, *cond).0;
            lemma_push_frame_wf(d1, false);
            lemma_wf_stmts(crate::scope::push_frame_v(d1, false), then_body);
            crate::rewrite::lemma_walk_stmts_len(crate::scope::push_frame_v(d1, false), then_body);
            let d3 = walk_stmts_v(crate::scope::push_frame_v(d1, false), then_body).0;
            lemma_pop_frame_wf(d3);
            lemma_wf_opt(crate::scope::pop_frame_v(d3), else_body);
        },
        ExprV::Index { base, index } => {
            lemma_wf_expr(d, *index);
            lemma_wf_expr(walk_expr_v(d, *index).0, *base);
        },
        ExprV::Let { value } => lemma_wf_expr(d, *value),
        ExprV::Lit => {},
        ExprV::Loop(ss) => {
            lemma_push_frame_wf(d, false);
            lemma_wf_stmts(crate::scope::push_frame_v(d, false), ss);
            crate::rewrite::lemma_walk_stmts_len(crate::scope::push_frame_v(d, false), ss);
            lemma_pop_frame_wf(walk_stmts_v(crate::scope::push_frame_v(d, false), ss).0);
        },
        ExprV::Macro(ts) => lemma_record_names_wf(d, crate::rewrite::token_idents_v(ts)),
        ExprV::Match { scrutinee, arms } => {
            lemma_wf_expr(d, *scrutinee);
            lemma_wf_arms(walk_expr_v(d, *scrutinee).0, arms);
        },
        ExprV::MethodCall { receiver, method, args } => {
            lemma_wf_expr(d, *receiver);
            lemma_wf_exprs(walk_expr_v(d, *receiver).0, args);
        },
        ExprV::Paren(b) => lemma_wf_expr(d, *b),
        ExprV::Path { leading_colon, segments } => {
            if d.nested.len() > 0 && !leading_colon {
                lemma_record_segs_wf(d, segments);
            }
        },
        ExprV::Range { start, end } => {
            lemma_wf_opt(d, start);
            lemma_wf_opt(walk_opt_v(d, start).0, end);
        },
        ExprV::Reference(b) => lemma_wf_expr(d, *b),
        ExprV::Repeat { value, len } => {
            lemma_wf_expr(d, *value);
            lemma_wf_expr(walk_expr_v(d, *value).0, *len);
        },
        ExprV::Return(o) => lemma_wf_opt(d, o),
        ExprV::Struct { fields, rest } => {
            lemma_wf_exprs(d, fields);
            lemma_wf_opt(walk_exprs_v(d, fields).0, rest);
        },
        ExprV::Try(b) => lemma_wf_expr(d, *b),
        ExprV::TryBlock(ss) => {
            lemma_push_frame_wf(d, false);
            lemma_wf_stmts(crate::scope::push_frame_v(d, false), ss);
            crate::rewrite::lemma_walk_stmts_len(crate::scope::push_frame_v(d, false), ss);
            lemma_pop_frame_wf(walk_stmts_v(crate::scope::push_frame_v(d, false), ss).0);
        },
        ExprV::Tuple(es) => lemma_wf_exprs(d, es),
        ExprV::Unary(b) => lemma_wf_expr(d, *b),
        ExprV::Unsafe(ss) => {
            lemma_push_frame_wf(d, false);
            lemma_wf_stmts(crate::scope::push_frame_v(d, false), ss);
            crate::rewrite::lemma_walk_stmts_len(crate::scope::push_frame_v(d, false), ss);
            lemma_pop_frame_wf(walk_stmts_v(crate::scope::push_frame_v(d, false), ss).0);
        },
        ExprV::Verbatim => {},
        ExprV::While { cond, body } => {
            lemma_wf_expr(d, *cond);
            let d1 = walk_expr_v(d, *cond).0;
            lemma_push_frame_wf(d1, false);
            lemma_wf_stmts(crate::scope::push_frame_v(d1, false), body);
            crate::rewrite::lemma_walk_stmts_len(crate::scope::push_frame_v(d1, false), body);
            lemma_pop_frame_wf(walk_stmts_v(crate::scope::push_frame_v(d1, false), body).0);
        },
        ExprV::Yield(o) => lemma_wf_opt(d, o),
    }
}

proof fn lemma_wf_stmt(d: DataV, s: StmtV)
    requires
        tracker_wf(d),
    ensures
        tracker_wf(walk_stmt_v(d, s).0),
    decreases s,
{
    match s {
        StmtV::Local { pat, init } => {
            lemma_wf_opt(d, init);
            lemma_extract_rf(pat);
            lemma_bind_wf(walk_opt_v(d, init).0, extract_pat_v(pat));
        },
        StmtV::ItemConst { value } => lemma_wf_expr(d, *value),
        StmtV::ItemFn { body } => {
            lemma_push_frame_wf(d, false);
            lemma_wf_stmts(crate::scope::push_frame_v(d, false), body);
            crate::rewrite::lemma_walk_stmts_len(crate::scope::push_frame_v(d, false), body);
            lemma_pop_frame_wf(walk_stmts_v(crate::scope::push_frame_v(d, false), body).0);
        },
        StmtV::ItemOther => {},
        StmtV::Expr(e) => lemma_wf_expr(d, e),
        StmtV::Macro(ts) => lemma_record_names_wf(d, crate::rewrite::token_idents_v(ts)),
    }
}

proof fn lemma_wf_stmts(d: DataV, ss: Seq<StmtV>)
    requires
        tracker_wf(d),
    ensures
        tracker_wf(walk_stmts_v(d, ss).0),
    decreases ss,
{
    if ss.len() > 0 {
        lemma_wf_stmts(d, ss.drop_last());
        lemma_wf_stmt(walk_stmts_v(d, ss.drop_last()).0, ss.last());
    }
}


// ----------------------------------------------------------------------------
// The data model's invariant: usage is confined to visible identifiers.
//
// A use is only ever attributed to a frame that can see the name: the name
// is bound in the root set or in that frame or one enclosing it.  Every
// scope operation keeps this, and so does the whole walk.
// ----------------------------------------------------------------------------

pub open spec fn visible_at(d: DataV, j: int, n: Seq<char>) -> bool {
    d.root.contains(n) || exists|i: int|
        0 <= i <= j && (#[trigger] d.nested[i]).idents.contains(n)
}

pub open spec fn usage_visible(d: DataV) -> bool {
    forall|j: int, n: Seq<char>|
        0 <= j < d.nested.len() && #[trigger] d.nested[j].usage.contains(n) ==> visible_at(d, j, n)
}

proof fn lemma_record_usage_uv(d: DataV, n: Seq<char>)
    requires
        usage_visible(d),
    ensures
        usage_visible(record_usage_v(d, n)),
{
    lemma_innermost_props(d.nested, n);
    let d2 = record_usage_v(d, n);
    assert forall|j: int, m: Seq<char>|
        0 <= j < d2.nested.len() && #[trigger] d2.nested[j].usage.contains(m) implies visible_at(
        d2,
        j,
        m,
    ) by {
        let in_old = if usage_target_v(d, n, j) {
            crate::idents::lemma_ins_contains(d.nested[j].usage, n, m);
            d.nested[j].usage.contains(m)
        } else {
            true
        };
        if in_old {
            assert(d.nested[j].usage.contains(m));
            assert(visible_at(d, j, m));
            if !d.root.contains(m) {
                let i = choose|i: int|
                    0 <= i <= j && (#[trigger] d.nested[i]).idents.contains(m);
                assert(d2.nested[i].idents.contains(m));
            }
        } else {
            match innermost_v(d.nested, n) {
                Some(off) => {
                    assert(off < j);
                    assert(d2.nested[off].idents.contains(n));
                },
                None => {
                    assert(d.root.contains(n));
                },
            }
        }
    }
}

proof fn lemma_record_names_uv(d: DataV, names: Seq<Seq<char>>)
    requires
        usage_visible(d),
    ensures
        usage_visible(record_names_v(d, names)),
    decreases names,
{
    if names.len() > 0 {
        lemma_record_names_uv(d, names.drop_last());
        lemma_record_usage_uv(record_names_v(d, names.drop_last()), names.last());
    }
}

proof fn lemma_bind_uv(d: DataV, names: Seq<Seq<char>>)
    requires
        usage_visible(d),
    ensures
        usage_visible(bind_v(d, names)),
{
    if d.nested.len() > 0 {
        let k = d.nested.len() - 1;
        let d2 = bind_v(d, names);
        assert forall|j: int, m: Seq<char>|
            0 <= j < d2.nested.len() && #[trigger] d2.nested[j].usage.contains(m) implies
            visible_at(d2, j, m) by {
            assert(d.nested[j].usage.contains(m));
            assert(visible_at(d, j, m));
            if !d.root.contains(m) {
                let i = choose|i: int|
                    0 <= i <= j && (#[trigger] d.nested[i]).idents.contains(m);
                if i == k {
                    crate::idents::lemma_uni_contains(d.nested[k].idents, names, m);
                    assert(d2.nested[i].idents.contains(m));
                } else {
                    assert(d2.nested[i].idents.contains(m));
                }
            }
        }
    }
}

proof fn lemma_record_segs_uv(d: DataV, ss: Seq<crate::ast::SegV>)
    requires
        usage_visible(d),
    ensures
        usage_visible(crate::rewrite::record_segs_v(d, ss)),
    decreases ss,
{
    if ss.len() > 0 {
        lemma_record_segs_uv(d, ss.drop_last());
        let d1 = crate::rewrite::record_segs_v(d, ss.drop_last());
        lemma_record_usage_uv(d1, ss.last().name);
        lemma_record_names_uv(record_usage_v(d1, ss.last().name), ss.last().extra);
    }
}

proof fn lemma_push_frame_uv(d: DataV, capture: bool)
    requires
        usage_visible(d),
    ensures
        usage_visible(crate::scope::push_frame_v(d, capture)),
{
    let d2 = crate::scope::push_frame_v(d, capture);
    assert forall|j: int, m: Seq<char>|
        0 <= j < d2.nested.len() && #[trigger] d2.nested[j].usage.contains(m) implies visible_at(
        d2,
        j,
        m,
    ) by {
        assert(j < d.nested.len());
        assert(d.nested[j].usage.contains(m));
        assert(visible_at(d, j, m));
        if !d.root.contains(m) {
            let i = choose|i: int| 0 <= i <= j && (#[trigger] d.nested[i]).idents.contains(m);
            assert(d2.nested[i].idents.contains(m));
        }
    }
}

proof fn lemma_pop_frame_uv(d: DataV)
    requires
        usage_visible(d),
        d.nested.len() > 0,
    ensures
        usage_visible(crate::scope::pop_frame_v(d)),
{
    let d2 = crate::scope::pop_frame_v(d);
    assert forall|j: int, m: Seq<char>|
        0 <= j < d2.nested.len() && #[trigger] d2.nested[j].usage.contains(m) implies visible_at(
        d2,
        j,
        m,
    ) by {
        assert(d2.nested[j] == d.nested[j]);
        assert(d.nested[j].usage.contains(m));
        assert(visible_at(d, j, m));
        if !d.root.contains(m) {
            let i = choose|i: int| 0 <= i <= j && (#[trigger] d.nested[i]).idents.contains(m);
            assert(d2.nested[i].idents.contains(m));
        }
    }
}

proof fn lemma_bind_pats_uv(d: DataV, ps: Seq<PatV>)
    requires
        usage_visible(d),
    ensures
        usage_visible(bind_pats_v(d, ps)),
    decreases ps,
{
    if ps.len() > 0 {
        lemma_bind_pats_uv(d, ps.drop_last());
        lemma_bind_uv(bind_pats_v(d, ps.drop_last()), extract_pat_v(ps.last()));
    }
}

proof fn lemma_uv_opt(d: DataV, o: Option<Box<ExprV>>)
    requires
        usage_visible(d),
    ensures
        usage_visible(walk_opt_v(d, o).0),
    decreases o,
{
    match o {
        Some(b) => lemma_uv_expr(d, *b),
        None => {},
    }
}

proof fn lemma_uv_exprs(d: DataV, es: Seq<ExprV>)
    requires
        usage_visible(d),
    ensures
        usage_visible(walk_exprs_v(d, es).0),
    decreases es,
{
    if es.len() > 0 {
        lemma_uv_exprs(d, es.drop_last());
        lemma_uv_expr(walk_exprs_v(d, es.drop_last()).0, es.last());
    }
}

proof fn lemma_uv_arm(d: DataV, a: ArmV)
    requires
        usage_visible(d),
    ensures
        usage_visible(walk_arm_v(d, a).0),
    decreases a,
{
    lemma_push_frame_uv(d, false);
    let d1 = crate::scope::push_frame_v(d, false);
    lemma_bind_uv(d1, extract_pat_v(a.pat));
    let d2 = bind_v(d1, extract_pat_v(a.pat));
    lemma_uv_opt(d2, a.guard);
    let d3 = walk_opt_v(d2, a.guard).0;
    lemma_uv_expr(d3, *a.body);
    crate::rewrite::lemma_bind_len(d1, extract_pat_v(a.pat));
    crate::rewrite::lemma_walk_opt_len(d2, a.guard);
    crate::rewrite::lemma_walk_expr_len(d3, *a.body);
    lemma_pop_frame_uv(walk_expr_v(d3, *a.body).0);
}

proof fn lemma_uv_arms(d: DataV, arms: Seq<ArmV>)
    requires
        usage_visible(d),
    ensures
        usage_visible(walk_arms_v(d, arms).0),
    decreases arms,
{
    if arms.len() > 0 {
        lemma_uv_arms(d, arms.drop_last());
        lemma_uv_arm(walk_arms_v(d, arms.drop_last()).0, arms.last());
    }
}

proof fn lemma_uv_expr(d: DataV, e: ExprV)
    requires
        usage_visible(d),
    ensures
        usage_visible(walk_expr_v(d, e).0),
    decreases e,
{
    match e {
        ExprV::Array(es) => lemma_uv_exprs(d, es),
        ExprV::Assign { left, right } => {
            lemma_uv_expr(d, *left);
            lemma_uv_expr(walk_expr_v(d, *left).0, *right);
        },
        ExprV::Async { capture, body } => {
            lemma_push_frame_uv(d, capture);
            lemma_uv_stmts(crate::scope::push_frame_v(d, capture), body);
            crate::rewrite::lemma_walk_stmts_len(crate::scope::push_frame_v(d, capture), body);
            lemma_pop_frame_uv(walk_stmts_v(crate::scope::push_frame_v(d, capture), body).0);
        },
        ExprV::Await(b) => lemma_uv_expr(d, *b),
        ExprV::Binary { left, right } => {
            lemma_uv_expr(d, *left);
            lemma_uv_expr(walk_expr_v(d, *left).0, *right);
        },
        ExprV::Block(ss) => {
            lemma_push_frame_uv(d, false);
            lemma_uv_stmts(crate::scope::push_frame_v(d, false), ss);
            crate::rewrite::lemma_walk_stmts_len(crate::scope::push_frame_v(d, false), ss);
            lemma_pop_frame_uv(walk_stmts_v(crate::scope::push_frame_v(d, false), ss).0);
        },
        ExprV::Break(o) => lemma_uv_opt(d, o),
        ExprV::Call { func, args } => {
            lemma_uv_expr(d, *func);
            lemma_uv_exprs(walk_expr_v(d, *func).0, args);
        },
        ExprV::Cast(b) => lemma_uv_expr(d, *b),
        ExprV::Closure { capture, params, body } => {
            lemma_push_frame_uv(d, capture);
            let d1 = crate::scope::push_frame_v(d, capture);
            lemma_bind_pats_uv(d1, params);
            let d2 = bind_pats_v(d1, params);
            lemma_uv_expr(d2, *body);
            crate::rewrite::lemma_bind_pats_len(d1, params);
            crate::rewrite::lemma_walk_expr_len(d2, *body);
            lemma_pop_frame_uv(walk_expr_v(d2, *body).0);
        },
        ExprV::Continue => {},
        ExprV::Field(b) => lemma_uv_expr(d, *b),
        ExprV::ForLoop { pat, iter, body } => {
            lemma_uv_expr(d, *iter);
            let d1 = walk_expr_v(d, *iter).0;
            lemma_push_frame_uv(d1, false);
            let d2 = crate::scope::push_frame_v(d1, false);
            lemma_bind_uv(d2, extract_pat_v(pat));
            let d3 = bind_v(d2, extract_pat_v(pat));
            lemma_uv_stmts(d3, body);
            crate::rewrite::lemma_bind_len(d2, extract_pat_v(pat));
            crate::rewrite::lemma_walk_stmts_len(d3, body);
            lemma_pop_frame_uv(walk_stmts_v(d3, body).0);
        },
        ExprV::Group(b) => lemma_uv_expr(d, *b),
        ExprV::If { cond, then_body, else_body } => {
            lemma_uv_expr(d, *cond);
            let d1 = walk_expr_v(d, *cond).0;
            lemma_push_frame_uv(d1, false);
            lemma_uv_stmts(crate::scope::push_frame_v(d1, false), then_body);
            crate::rewrite::lemma_walk_stmts_len(crate::scope::push_frame_v(d1, false), then_body);
            let d3 = walk_stmts_v(crate::scope::push_frame_v(d1, false), then_body).0;
            lemma_pop_frame_uv(d3);
            lemma_uv_opt(crate::scope::pop_frame_v(d3), else_body);
        },
        ExprV::Index { base, index } => {
            lemma_uv_expr(d, *index);
            lemma_uv_expr(walk_expr_v(d, *index).0, *base);
        },
        ExprV::Let { value } => lemma_uv_expr(d, *value),
        ExprV::Lit => {},
        ExprV::Loop(ss) => {
            lemma_push_frame_uv(d, false);
            lemma_uv_stmts(crate::scope::push_frame_v(d, false), ss);
            crate::rewrite::lemma_walk_stmts_len(crate::scope::push_frame_v(d, false), ss);
            lemma_pop_frame_uv(walk_stmts_v(crate::scope::push_frame_v(d, false), ss).0);
        },
        ExprV::Macro(ts) => lemma_record_names_uv(d, crate::rewrite::token_idents_v(ts)),
        ExprV::Match { scrutinee, arms } => {
            lemma_uv_expr(d, *scrutinee);
            lemma_uv_arms(walk_expr_v(d, *scrutinee).0, arms);
        },
        ExprV::MethodCall { receiver, method, args } => {
            lemma_uv_expr(d, *receiver);
            lemma_uv_exprs(walk_expr_v(d, *receiver).0, args);
        },
        ExprV::Paren(b) => lemma_uv_expr(d, *b),
        ExprV::Path { leading_colon, segments } => {
            if d.nested.len() > 0 && !leading_colon {
                lemma_record_segs_uv(d, segments);
            }
        },
        ExprV::Range { start, end } => {
            lemma_uv_opt(d, start);
            lemma_uv_opt(walk_opt_v(d, start).0, end);
        },
        ExprV::Reference(b) => lemma_uv_expr(d, *b),
        ExprV::Repeat { value, len } => {
            lemma_uv_expr(d, *value);
            lemma_uv_expr(walk_expr_v(d, *value).0, *len);
        },
        ExprV::Return(o) => lemma_uv_opt(d, o),
        ExprV::Struct { fields, rest } => {
            lemma_uv_exprs(d, fields);
            lemma_uv_opt(walk_exprs_v(d, fields).0, rest);
        },
        ExprV::Try(b) => lemma_uv_expr(d, *b),
        ExprV::TryBlock(ss) => {
            lemma_push_frame_uv(d, false);
            lemma_uv_stmts(crate::scope::push_frame_v(d, false), ss);
            crate::rewrite::lemma_walk_stmts_len(crate::scope::push_frame_v(d, false), ss);
            lemma_pop_frame_uv(walk_stmts_v(crate::scope::push_frame_v(d, false), ss).0);
        },
        ExprV::Tuple(es) => lemma_uv_exprs(d, es),
        ExprV::Unary(b) => lemma_uv_expr(d, *b),
        ExprV::Unsafe(ss) => {
            lemma_push_frame_uv(d, false);
            lemma_uv_stmts(crate::scope::push_frame_v(d, false), ss);
            crate::rewrite::lemma_walk_stmts_len(crate::scope::push_frame_v(d, false), ss);
            lemma_pop_frame_uv(walk_stmts_v(crate::scope::push_frame_v(d, false), ss).0);
        },
        ExprV::Verbatim => {},
        ExprV::While { cond, body } => {
            lemma_uv_expr(d, *cond);
            let d1 = walk_expr_v(d, *cond).0;
            lemma_push_frame_uv(d1, false);
            lemma_uv_stmts(crate::scope::push_frame_v(d1, false), body);
            crate::rewrite::lemma_walk_stmts_len(crate::scope::push_frame_v(d1, false), body);
            lemma_pop_frame_uv(walk_stmts_v(crate::scope::push_frame_v(d1, false), body).0);
        },
        ExprV::Yield(o) => lemma_uv_opt(d, o),
    }
}

proof fn lemma_uv_stmt(d: DataV, s: StmtV)
    requires
        usage_visible(d),
    ensures
        usage_visible(walk_stmt_v(d, s).0),
    decreases s,
{
    match s {
        StmtV::Local { pat, init } => {
            lemma_uv_opt(d, init);
            lemma_bind_uv(walk_opt_v(d, init).0, extract_pat_v(pat));
        },
        StmtV::ItemConst { value } => lemma_uv_expr(d, *value),
        StmtV::ItemFn { body } => {
            lemma_push_frame_uv(d, false);
            lemma_uv_stmts(crate::scope::push_frame_v(d, false), body);
            crate::rewrite::lemma_walk_stmts_len(crate::scope::push_frame_v(d, false), body);
            lemma_pop_frame_uv(walk_stmts_v(crate::scope::push_frame_v(d, false), body).0);
        },
        StmtV::ItemOther => {},
        StmtV::Expr(e) => lemma_uv_expr(d, e),
        StmtV::Macro(ts) => lemma_record_names_uv(d, crate::rewrite::token_idents_v(ts)),
    }
}

proof fn lemma_uv_stmts(d: DataV, ss: Seq<StmtV>)
    requires
        usage_visible(d),
    ensures
        usage_visible(walk_stmts_v(d, ss).0),
    decreases ss,
{
    if ss.len() > 0 {
        lemma_uv_stmts(d, ss.drop_last());
        lemma_uv_stmt(walk_stmts_v(d, ss.drop_last()).0, ss.last());
    }
}


/// The data model's invariant, over a whole walk: from a fresh tracker,
/// every state the traversal reaches confines each frame's usage set to
/// identifiers visible to that frame — bound in the root set or in that
/// frame or one enclosing it.  A reference never produces a usage record in
/// a frame that cannot see the name.
pub proof fn lemma_usage_confined_to_visible(debug: bool, body: Seq<StmtV>)
    ensures
        usage_visible(walk_stmts_v(crate::rewrite::initial_data_v(debug), body).0),
{
    let d0 = crate::rewrite::initial_data_v(debug);
    assert(usage_visible(d0));
    lemma_uv_stmts(d0, body);
}

/// The walk keeps the tracker well formed: every bound and usage set stays
/// free of reserved names and never holds a name twice.  In particular every
/// usage set a boundary hands to the synthesizer is such a set, so each
/// boundary duplicates each identifier at most once.
pub proof fn lemma_walk_preserves_tracker_wf(d: DataV, ss: Seq<StmtV>)
    requires
        tracker_wf(d),
    ensures
        tracker_wf(walk_stmts_v(d, ss).0),
{
    lemma_wf_stmts(d, ss);
}

// ----------------------------------------------------------------------------
// The names the synthesizer ever receives during a walk.
// ----------------------------------------------------------------------------

pub open spec fn cloned_names_opt(d: DataV, o: Option<Box<ExprV>>) -> Seq<Seq<char>>
    decreases o,
{
    match o {
        Some(b) => cloned_names_expr(d, *b),
        None => Seq::empty(),
    }
}

pub open spec fn cloned_names_exprs(d: DataV, es: Seq<ExprV>) -> Seq<Seq<char>>
    decreases es,
{
    if es.len() == 0 {
        Seq::empty()
    } else {
        cloned_names_exprs(d, es.drop_last()) + cloned_names_expr(
            walk_exprs_v(d, es.drop_last()).0,
            es.last(),
        )
    }
}

pub open spec fn cloned_names_arm(d: DataV, a: ArmV) -> Seq<Seq<char>>
    decreases a,
{
    let d2 = bind_v(crate::scope::push_frame_v(d, false), extract_pat_v(a.pat));
    cloned_names_opt(d2, a.guard) + cloned_names_expr(walk_opt_v(d2, a.guard).0, *a.body)
}

pub open spec fn cloned_names_arms(d: DataV, arms: Seq<ArmV>) -> Seq<Seq<char>>
    decreases arms,
{
    if arms.len() == 0 {
        Seq::empty()
    } else {
        cloned_names_arms(d, arms.drop_last()) + cloned_names_arm(
            walk_arms_v(d, arms.drop_last()).0,
            arms.last(),
        )
    }
}

pub open spec fn cloned_names_expr(d: DataV, e: ExprV) -> Seq<Seq<char>>
    decreases e,
{
    match e {
        ExprV::Array(es) => cloned_names_exprs(d, es),
        ExprV::Assign { left, right } => cloned_names_expr(d, *left) + cloned_names_expr(
            walk_expr_v(d, *left).0,
            *right,
        ),
        ExprV::Async { capture, body } => {
            let d1 = crate::scope::push_frame_v(d, capture);
            let inner = cloned_names_stmts(d1, body);
            let d2 = walk_stmts_v(d1, body).0;
            if capture {
                inner + d2.nested.last().usage
            } else {
                inner
            }
        },
        ExprV::Await(b) => cloned_names_expr(d, *b),
        ExprV::Binary { left, right } => cloned_names_expr(d, *left) + cloned_names_expr(
            walk_expr_v(d, *left).0,
            *right,
        ),
        ExprV::Block(ss) => cloned_names_stmts(crate::scope::push_frame_v(d, false), ss),
        ExprV::Break(o) => cloned_names_opt(d, o),
        ExprV::Call { func, args } => cloned_names_expr(d, *func) + cloned_names_exprs(
            walk_expr_v(d, *func).0,
            args,
        ),
        ExprV::Cast(b) => cloned_names_expr(d, *b),
        ExprV::Closure { capture, params, body } => {
            let d2 = bind_pats_v(crate::scope::push_frame_v(d, capture), params);
            let inner = cloned_names_expr(d2, *body);
            let d3 = walk_expr_v(d2, *body).0;
            if capture {
                inner + d3.nested.last().usage
            } else {
                inner
            }
        },
        ExprV::Continue => Seq::empty(),
        ExprV::Field(b) => cloned_names_expr(d, *b),
        ExprV::ForLoop { pat, iter, body } => {
            let d1 = walk_expr_v(d, *iter).0;
            let d3 = bind_v(crate::scope::push_frame_v(d1, false), extract_pat_v(pat));
            cloned_names_expr(d, *iter) + cloned_names_stmts(d3, body)
        },
        ExprV::Group(b) => cloned_names_expr(d, *b),
        ExprV::If { cond, then_body, else_body } => {
            let d1 = walk_expr_v(d, *cond).0;
            let d2 = crate::scope::push_frame_v(d1, false);
            let d4 = crate::scope::pop_frame_v(walk_stmts_v(d2, then_body).0);
            cloned_names_expr(d, *cond) + cloned_names_stmts(d2, then_body) + cloned_names_opt(
                d4,
                else_body,
            )
        },
        ExprV::Index { base, index } => cloned_names_expr(d, *index) + cloned_names_expr(
            walk_expr_v(d, *index).0,
            *base,
        ),
        ExprV::Let { value } => cloned_names_expr(d, *value),
        ExprV::Lit => Seq::empty(),
        ExprV::Loop(ss) => cloned_names_stmts(crate::scope::push_frame_v(d, false), ss),
        ExprV::Macro(ts) => Seq::empty(),
        ExprV::Match { scrutinee, arms } => cloned_names_expr(d, *scrutinee) + cloned_names_arms(
            walk_expr_v(d, *scrutinee).0,
            arms,
        ),
        ExprV::MethodCall { receiver, method, args } => cloned_names_expr(d, *receiver)
            + cloned_names_exprs(walk_expr_v(d, *receiver).0, args),
        ExprV::Paren(b) => cloned_names_expr(d, *b),
        ExprV::Path { leading_colon, segments } => Seq::empty(),
        ExprV::Range { start, end } => cloned_names_opt(d, start) + cloned_names_opt(
            walk_opt_v(d, start).0,
            end,
        ),
        ExprV::Reference(b) => cloned_names_expr(d, *b),
        ExprV::Repeat { value, len } => cloned_names_expr(d, *value) + cloned_names_expr(
            walk_expr_v(d, *value).0,
            *len,
        ),
        ExprV::Return(o) => cloned_names_opt(d, o),
        ExprV::Struct { fields, rest } => cloned_names_exprs(d, fields) + cloned_names_opt(
            walk_exprs_v(d, fields).0,
            rest,
        ),
        ExprV::Try(b) => cloned_names_expr(d, *b),
        ExprV::TryBlock(ss) => cloned_names_stmts(crate::scope::push_frame_v(d, false), ss),
        ExprV::Tuple(es) => cloned_names_exprs(d, es),
        ExprV::Unary(b) => cloned_names_expr(d, *b),
        ExprV::Unsafe(ss) => cloned_names_stmts(crate::scope::push_frame_v(d, false), ss),
        ExprV::Verbatim => Seq::empty(),
        ExprV::While { cond, body } => cloned_names_expr(d, *cond) + cloned_names_stmts(
            crate::scope::push_frame_v(walk_expr_v(d, *cond).0, false),
            body,
        ),
        ExprV::Yield(o) => cloned_names_opt(d, o),
    }
}

pub open spec fn cloned_names_stmt(d: DataV, s: StmtV) -> Seq<Seq<char>>
    decreases s,
{
    match s {
        StmtV::Local { pat, init } => cloned_names_opt(d, init),
        StmtV::ItemConst { value } => cloned_names_expr(d, *value),
        StmtV::ItemFn { body } => cloned_names_stmts(crate::scope::push_frame_v(d, false), body),
        StmtV::ItemOther => Seq::empty(),
        StmtV::Expr(e) => cloned_names_expr(d, e),
        StmtV::Macro(ts) => Seq::empty(),
    }
}

pub open spec fn cloned_names_stmts(d: DataV, ss: Seq<StmtV>) -> Seq<Seq<char>>
    decreases ss,
{
    if ss.len() == 0 {
        Seq::empty()
    } else {
        cloned_names_stmts(d, ss.drop_last()) + cloned_names_stmt(
            walk_stmts_v(d, ss.drop_last()).0,
            ss.last(),
        )
    }
}

proof fn lemma_concat_rf(a: Seq<Seq<char>>, b: Seq<Seq<char>>)
    requires
        reserved_free(a),
        reserved_free(b),
    ensures
        reserved_free(a + b),
{
    assert forall|i: int| 0 <= i < (a + b).len() implies !reserved_name(#[trigger] (a + b)[i]) by {
        if i < a.len() {
            assert((a + b)[i] == a[i]);
        } else {
            assert((a + b)[i] == b[i - a.len()]);
        }
    }
}

proof fn lemma_nr_opt(d: DataV, o: Option<Box<ExprV>>)
    requires
        tracker_wf(d),
    ensures
        reserved_free(cloned_names_opt(d, o)),
    decreases o,
{
    match o {
        Some(b) => lemma_nr_expr(d, *b),
        None => {},
    }
}

proof fn lemma_nr_exprs(d: DataV, es: Seq<ExprV>)
    requires
        tracker_wf(d),
    ensures
        reserved_free(cloned_names_exprs(d, es)),
    decreases es,
{
    if es.len() > 0 {
        lemma_nr_exprs(d, es.drop_last());
        lemma_wf_exprs(d, es.drop_last());
        lemma_nr_expr(walk_exprs_v(d, es.drop_last()).0, es.last());
        lemma_concat_rf(
            cloned_names_exprs(d, es.drop_last()),
            cloned_names_expr(walk_exprs_v(d, es.drop_last()).0, es.last()),
        );
    }
}

proof fn lemma_nr_arm(d: DataV, a: ArmV)
    requires
        tracker_wf(d),
    ensures
        reserved_free(cloned_names_arm(d, a)),
    decreases a,
{
    lemma_push_frame_wf(d, false);
    let d1 = crate::scope::push_frame_v(d, false);
    lemma_extract_rf(a.pat);
    lemma_bind_wf(d1, extract_pat_v(a.pat));
    let d2 = bind_v(d1, extract_pat_v(a.pat));
    lemma_nr_opt(d2, a.guard);
    lemma_wf_opt(d2, a.guard);
    lemma_nr_expr(walk_opt_v(d2, a.guard).0, *a.body);
    lemma_concat_rf(
        cloned_names_opt(d2, a.guard),
        cloned_names_expr(walk_opt_v(d2, a.guard).0, *a.body),
    );
}

proof fn lemma_nr_arms(d: DataV, arms: Seq<ArmV>)
    requires
        tracker_wf(d),
    ensures
        reserved_free(cloned_names_arms(d, arms)),
    decreases arms,
{
    if arms.len() > 0 {
        lemma_nr_arms(d, arms.drop_last());
        lemma_wf_arms(d, arms.drop_last());
        lemma_nr_arm(walk_arms_v(d, arms.drop_last()).0, arms.last());
        lemma_concat_rf(
            cloned_names_arms(d, arms.drop_last()),
            cloned_names_arm(walk_arms_v(d, arms.drop_last()).0, arms.last()),
        );
    }
}

proof fn lemma_boundary_usage_rf(d1: DataV, d2: DataV)
    requires
        tracker_wf(d2),
        d2.nested.len() == d1.nested.len(),
        d1.nested.len() > 0,
    ensures
        reserved_free(d2.nested.last().usage),
{
    assert(reserved_free(d2.nested[d2.nested.len() - 1].usage));
}

proof fn lemma_nr_expr(d: DataV, e: ExprV)
    requires
        tracker_wf(d),
    ensures
        reserved_free(cloned_names_expr(d, e)),
    decreases e,
{
    match e {
        ExprV::Array(es) => lemma_nr_exprs(d, es),
        ExprV::Assign { left, right } => {
            lemma_nr_expr(d, *left);
            lemma_wf_expr(d, *left);
            lemma_nr_expr(walk_expr_v(d, *left).0, *right);
            lemma_concat_rf(
                cloned_names_expr(d, *left),
                cloned_names_expr(walk_expr_v(d, *left).0, *right),
            );
        },
        ExprV::Async { capture, body } => {
            lemma_push_frame_wf(d, capture);
            let d1 = crate::scope::push_frame_v(d, capture);
            lemma_nr_stmts(d1, body);
            if capture {
                lemma_wf_stmts(d1, body);
                let d2 = walk_stmts_v(d1, body).0;
                crate::rewrite::lemma_walk_stmts_len(d1, body);
                lemma_boundary_usage_rf(d1, d2);
                lemma_concat_rf(cloned_names_stmts(d1, body), d2.nested.last().usage);
            }
        },
        ExprV::Await(b) => lemma_nr_expr(d, *b),
        ExprV::Binary { left, right } => {
            lemma_nr_expr(d, *left);
            lemma_wf_expr(d, *left);
            lemma_nr_expr(walk_expr_v(d, *left).0, *right);
            lemma_concat_rf(
                cloned_names_expr(d, *left),
                cloned_names_expr(walk_expr_v(d, *left).0, *right),
            );
        },
        ExprV::Block(ss) => {
            lemma_push_frame_wf(d, false);
            lemma_nr_stmts(crate::scope::push_frame_v(d, false), ss);
        },
        ExprV::Break(o) => lemma_nr_opt(d, o),
        ExprV::Call { func, args } => {
            lemma_nr_expr(d, *func);
            lemma_wf_expr(d, *func);
            lemma_nr_exprs(walk_expr_v(d, *func).0, args);
            lemma_concat_rf(
                cloned_names_expr(d, *func),
                cloned_names_exprs(walk_expr_v(d, *func).0, args),
            );
        },
        ExprV::Cast(b) => lemma_nr_expr(d, *b),
        ExprV::Closure { capture, params, body } => {
            lemma_push_frame_wf(d, capture);
            let d1 = crate::scope::push_frame_v(d, capture);
            lemma_bind_pats_wf(d1, params);
            let d2 = bind_pats_v(d1, params);
            lemma_nr_expr(d2, *body);
            if capture {
                lemma_wf_expr(d2, *body);
                let d3 = walk_expr_v(d2, *body).0;
                crate::rewrite::lemma_bind_pats_len(d1, params);
                crate::rewrite::lemma_walk_expr_len(d2, *body);
                lemma_boundary_usage_rf(d2, d3);
                lemma_concat_rf(cloned_names_expr(d2, *body), d3.nested.last().usage);
            }
        },
        ExprV::Continue => {},
        ExprV::Field(b) => lemma_nr_expr(d, *b),
        ExprV::ForLoop { pat, iter, body } => {
            lemma_nr_expr(d, *iter);
            lemma_wf_expr(d, *iter);
            let d1 = walk_expr_v(d, *iter).0;
            lemma_push_frame_wf(d1, false);
            let d2 = crate::scope::push_frame_v(d1, false);
            lemma_extract_rf(pat);
            lemma_bind_wf(d2, extract_pat_v(pat));
            let d3 = bind_v(d2, extract_pat_v(pat));
            lemma_nr_stmts(d3, body);
            lemma_concat_rf(cloned_names_expr(d, *iter), cloned_names_stmts(d3, body));
        },
        ExprV::Group(b) => lemma_nr_expr(d, *b),
        ExprV::If { cond, then_body, else_body } => {
            lemma_nr_expr(d, *cond);
            lemma_wf_expr(d, *cond);
            let d1 = walk_expr_v(d, *cond).0;
            lemma_push_frame_wf(d1, false);
            let d2 = crate::scope::push_frame_v(d1, false);
            lemma_nr_stmts(d2, then_body);
            lemma_wf_stmts(d2, then_body);
            crate::rewrite::lemma_walk_stmts_len(d2, then_body);
            let d4 = crate::scope::pop_frame_v(walk_stmts_v(d2, then_body).0);
            lemma_pop_frame_wf(walk_stmts_v(d2, then_body).0);
            lemma_nr_opt(d4, else_body);
            lemma_concat_rf(cloned_names_expr(d, *cond), cloned_names_stmts(d2, then_body));
            lemma_concat_rf(
                cloned_names_expr(d, *cond) + cloned_names_stmts(d2, then_body),
                cloned_names_opt(d4, else_body),
            );
        },
        ExprV::Index { base, index } => {
            lemma_nr_expr(d, *index);
            lemma_wf_expr(d, *index);
            lemma_nr_expr(walk_expr_v(d, *index).0, *base);
            lemma_concat_rf(
                cloned_names_expr(d, *index),
                cloned_names_expr(walk_expr_v(d, *index).0, *base),
            );
        },
        ExprV::Let { value } => lemma_nr_expr(d, *value),
        ExprV::Lit => {},
        ExprV::Loop(ss) => {
            lemma_push_frame_wf(d, false);
            lemma_nr_stmts(crate::scope::push_frame_v(d, false), ss);
        },
        ExprV::Macro(ts) => {},
        ExprV::Match { scrutinee, arms } => {
            lemma_nr_expr(d, *scrutinee);
            lemma_wf_expr(d, *scrutinee);
            lemma_nr_arms(walk_expr_v(d, *scrutinee).0, arms);
            lemma_concat_rf(
                cloned_names_expr(d, *scrutinee),
                cloned_names_arms(walk_expr_v(d, *scrutinee).0, arms),
            );
        },
        ExprV::MethodCall { receiver, method, args } => {
            lemma_nr_expr(d, *receiver);
            lemma_wf_expr(d, *receiver);
            lemma_nr_exprs(walk_expr_v(d, *receiver).0, args);
            lemma_concat_rf(
                cloned_names_expr(d, *receiver),
                cloned_names_exprs(walk_expr_v(d, *receiver).0, args),
            );
        },
        ExprV::Paren(b) => lemma_nr_expr(d, *b),
        ExprV::Path { leading_colon, segments } => {},
        ExprV::Range { start, end } => {
            lemma_nr_opt(d, start);
            lemma_wf_opt(d, start);
            lemma_nr_opt(walk_opt_v(d, start).0, end);
            lemma_concat_rf(
                cloned_names_opt(d, start),
                cloned_names_opt(walk_opt_v(d, start).0, end),
            );
        },
        ExprV::Reference(b) => lemma_nr_expr(d, *b),
        ExprV::Repeat { value, len } => {
            lemma_nr_expr(d, *value);
            lemma_wf_expr(d, *value);
            lemma_nr_expr(walk_expr_v(d, *value).0, *len);
            lemma_concat_rf(
                cloned_names_expr(d, *value),
                cloned_names_expr(walk_expr_v(d, *value).0, *len),
            );
        },
        ExprV::Return(o) => lemma_nr_opt(d, o),
        ExprV::Struct { fields, rest } => {
            lemma_nr_exprs(d, fields);
            lemma_wf_exprs(d, fields);
            lemma_nr_opt(walk_exprs_v(d, fields).0, rest);
            lemma_concat_rf(
                cloned_names_exprs(d, fields),
                cloned_names_opt(walk_exprs_v(d, fields).0, rest),
            );
        },
        ExprV::Try(b) => lemma_nr_expr(d, *b),
        ExprV::TryBlock(ss) => {
            lemma_push_frame_wf(d, false);
            lemma_nr_stmts(crate::scope::push_frame_v(d, false), ss);
        },
        ExprV::Tuple(es) => lemma_nr_exprs(d, es),
        ExprV::Unary(b) => lemma_nr_expr(d, *b),
        ExprV::Unsafe(ss) => {
            lemma_push_frame_wf(d, false);
            lemma_nr_stmts(crate::scope::push_frame_v(d, false), ss);
        },
        ExprV::Verbatim => {},
        ExprV::While { cond, body } => {
            lemma_nr_expr(d, *cond);
            lemma_wf_expr(d, *cond);
            let d1 = walk_expr_v(d, *cond).0;
            lemma_push_frame_wf(d1, false);
            lemma_nr_stmts(crate::scope::push_frame_v(d1, false), body);
            lemma_concat_rf(
                cloned_names_expr(d, *cond),
                cloned_names_stmts(crate::scope::push_frame_v(d1, false), body),
            );
        },
        ExprV::Yield(o) => lemma_nr_opt(d, o),
    }
}

proof fn lemma_nr_stmt(d: DataV, s: StmtV)
    requires
        tracker_wf(d),
    ensures
        reserved_free(cloned_names_stmt(d, s)),
    decreases s,
{
    match s {
        StmtV::Local { pat, init } => lemma_nr_opt(d, init),
        StmtV::ItemConst { value } => lemma_nr_expr(d, *value),
        StmtV::ItemFn { body } => {
            lemma_push_frame_wf(d, false);
            lemma_nr_stmts(crate::scope::push_frame_v(d, false), body);
        },
        StmtV::ItemOther => {},
        StmtV::Expr(e) => lemma_nr_expr(d, e),
        StmtV::Macro(ts) => {},
    }
}

proof fn lemma_nr_stmts(d: DataV, ss: Seq<StmtV>)
    requires
        tracker_wf(d),
    ensures
        reserved_free(cloned_names_stmts(d, ss)),
    decreases ss,
{
    if ss.len() > 0 {
        lemma_nr_stmts(d, ss.drop_last());
        lemma_wf_stmts(d, ss.drop_last());
        lemma_nr_stmt(walk_stmts_v(d, ss.drop_last()).0, ss.last());
        lemma_concat_rf(
            cloned_names_stmts(d, ss.drop_last()),
            cloned_names_stmt(walk_stmts_v(d, ss.drop_last()).0, ss.last()),
        );
    }
}

/// Opt-out correctness: over a whole function body walked from a fresh
/// tracker, no boundary ever hands the synthesizer an identifier carrying
/// the reserved prefix — every name in the collected duplication sets
/// (`cloned_names_stmts` follows the walk boundary by boundary) is free of
/// it, whatever the input tree and wherever the identifier is referenced.
pub proof fn lemma_opt_out_no_reserved_duplication(debug: bool, body: Seq<StmtV>)
    ensures
        reserved_free(cloned_names_stmts(crate::rewrite::initial_data_v(debug), body)),
{
    let d0 = crate::rewrite::initial_data_v(debug);
    assert(tracker_wf(d0));
    lemma_nr_stmts(d0, body);
}

} // verus!
