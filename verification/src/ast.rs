//! The syntax-tree model that the rewriting engine works on.
//!
//! A function body is an ordered sequence of statements over a closed set of
//! statement and expression shapes.  Each node keeps exactly the structure the
//! capture analysis needs: child nodes, binding patterns, bare identifier
//! names of paths and macro token streams, and the `move` flag of closures and
//! async blocks.  Every executable type has a ghost mirror (the `*V` types)
//! over `Seq` and `Seq<char>`, connected by the view functions below; all
//! contracts are stated over the mirrors.

use vstd::prelude::*;

verus! {

/// A binding pattern, reduced to the identifiers it can introduce.
#[derive(Debug, PartialEq, Eq)]
pub enum Pat {
    /// A simple name, possibly `mut`, possibly with a bound sub-pattern
    /// (`name @ subpattern`).
    Name { name: String, mutable: bool, sub: Option<Box<Pat>> },
    /// A struct destructuring; the element patterns of its fields.
    Struct(Vec<Pat>),
    /// A tuple pattern.
    Tuple(Vec<Pat>),
    /// A tuple-struct pattern.
    TupleStruct(Vec<Pat>),
    /// A type-annotated pattern.
    Typed(Box<Pat>),
    /// Any pattern form that introduces no tracked identifier (wildcards,
    /// literals, references, rest and or-patterns).
    Other,
}

/// One token of an uninterpreted macro argument stream.
#[derive(Debug, PartialEq, Eq)]
pub enum Tok {
    /// A delimited group of tokens.
    Group(Vec<Tok>),
    /// A bare identifier token.
    Name(String),
    /// Any other token (punctuation, literals).
    Other,
}

/// One segment of a path expression: its identifier and the bare identifier
/// tokens of its generic arguments, in token order.
#[derive(Debug, PartialEq, Eq)]
pub struct Seg {
    pub name: String,
    pub extra: Vec<String>,
}

/// One arm of a match expression.
#[derive(Debug, PartialEq, Eq)]
pub struct Arm {
    pub pat: Pat,
    pub guard: Option<Box<Expr>>,
    pub body: Box<Expr>,
}

/// An expression, covering every shape the walker distinguishes.
#[derive(Debug, PartialEq, Eq)]
#[allow(inconsistent_fields)]
pub enum Expr {
    Array(Vec<Expr>),
    Assign { left: Box<Expr>, right: Box<Expr> },
    Async { capture: bool, body: Vec<Stmt> },
    Await(Box<Expr>),
    Binary { left: Box<Expr>, right: Box<Expr> },
    Block(Vec<Stmt>),
    Break(Option<Box<Expr>>),
    Call { func: Box<Expr>, args: Vec<Expr> },
    Cast(Box<Expr>),
    Closure { capture: bool, params: Vec<Pat>, body: Box<Expr> },
    Continue,
    Field(Box<Expr>),
    ForLoop { pat: Pat, iter: Box<Expr>, body: Vec<Stmt> },
    Group(Box<Expr>),
    If { cond: Box<Expr>, then_body: Vec<Stmt>, else_body: Option<Box<Expr>> },
    Index { base: Box<Expr>, index: Box<Expr> },
    Let { value: Box<Expr> },
    Lit,
    Loop(Vec<Stmt>),
    Macro(Vec<Tok>),
    Match { scrutinee: Box<Expr>, arms: Vec<Arm> },
    MethodCall { receiver: Box<Expr>, method: String, args: Vec<Expr> },
    Paren(Box<Expr>),
    Path { leading_colon: bool, segments: Vec<Seg> },
    Range { start: Option<Box<Expr>>, end: Option<Box<Expr>> },
    Reference(Box<Expr>),
    Repeat { value: Box<Expr>, len: Box<Expr> },
    Return(Option<Box<Expr>>),
    Struct { fields: Vec<Expr>, rest: Option<Box<Expr>> },
    Try(Box<Expr>),
    TryBlock(Vec<Stmt>),
    Tuple(Vec<Expr>),
    Unary(Box<Expr>),
    Unsafe(Vec<Stmt>),
    Verbatim,
    While { cond: Box<Expr>, body: Vec<Stmt> },
    Yield(Option<Box<Expr>>),
}

/// A statement of a function body or block.
#[derive(Debug, PartialEq, Eq)]
pub enum Stmt {
    /// A `let` binding with an optional initializer.
    Local { pat: Pat, init: Option<Box<Expr>> },
    /// A nested `const` item; only its value expression is walked.
    ItemConst { value: Box<Expr> },
    /// A nested `fn` item; its body statements are walked.
    ItemFn { body: Vec<Stmt> },
    /// Any other nested item, left untouched.
    ItemOther,
    /// A bare expression statement.
    Expr(Expr),
    /// A macro invocation statement with its raw token stream.
    Macro(Vec<Tok>),
}

/// A function definition, reduced to its body statements.
#[derive(Debug, PartialEq, Eq)]
pub struct FnDef {
    pub body: Vec<Stmt>,
}

/// One configuration entry handed to the entry point.  Only a bare flag
/// spelling `debug` (compared case-insensitively over ASCII) has defined
/// behavior; every other entry is accepted and ignored.
#[derive(Debug, PartialEq, Eq)]
pub enum ConfigEntry {
    Flag(String),
    List,
    NameValue,
}

/// The one failure the engine can surface: a scope frame was popped with none
/// pushed.  This indicates an internal traversal fault, never a user error.
/// The other failure modes of such a rewrite cannot arise here by
/// construction: the grammar is a closed set of shapes, so no statement or
/// expression can be unhandled, and duplication statements are built as
/// nodes rather than re-parsed text, so synthesis cannot fail to parse.
#[derive(Debug, PartialEq, Eq)]
pub enum TransformError {
    ScopeUnderflow,
}

// ----------------------------------------------------------------------------
// Ghost mirrors.
// ----------------------------------------------------------------------------

pub enum PatV {
    Name { name: Seq<char>, mutable: bool, sub: Option<Box<PatV>> },
    Struct(Seq<PatV>),
    Tuple(Seq<PatV>),
    TupleStruct(Seq<PatV>),
    Typed(Box<PatV>),
    Other,
}

pub enum TokV {
    Group(Seq<TokV>),
    Name(Seq<char>),
    Other,
}

pub struct SegV {
    pub name: Seq<char>,
    pub extra: Seq<Seq<char>>,
}

pub struct ArmV {
    pub pat: PatV,
    pub guard: Option<Box<ExprV>>,
    pub body: Box<ExprV>,
}

#[allow(inconsistent_fields)]
pub enum ExprV {
    Array(Seq<ExprV>),
    Assign { left: Box<ExprV>, right: Box<ExprV> },
    Async { capture: bool, body: Seq<StmtV> },
    Await(Box<ExprV>),
    Binary { left: Box<ExprV>, right: Box<ExprV> },
    Block(Seq<StmtV>),
    Break(Option<Box<ExprV>>),
    Call { func: Box<ExprV>, args: Seq<ExprV> },
    Cast(Box<ExprV>),
    Closure { capture: bool, params: Seq<PatV>, body: Box<ExprV> },
    Continue,
    Field(Box<ExprV>),
    ForLoop { pat: PatV, iter: Box<ExprV>, body: Seq<StmtV> },
    Group(Box<ExprV>),
    If { cond: Box<ExprV>, then_body: Seq<StmtV>, else_body: Option<Box<ExprV>> },
    Index { base: Box<ExprV>, index: Box<ExprV> },
    Let { value: Box<ExprV> },
    Lit,
    Loop(Seq<StmtV>),
    Macro(Seq<TokV>),
    Match { scrutinee: Box<ExprV>, arms: Seq<ArmV> },
    MethodCall { receiver: Box<ExprV>, method: Seq<char>, args: Seq<ExprV> },
    Paren(Box<ExprV>),
    Path { leading_colon: bool, segments: Seq<SegV> },
    Range { start: Option<Box<ExprV>>, end: Option<Box<ExprV>> },
    Reference(Box<ExprV>),
    Repeat { value: Box<ExprV>, len: Box<ExprV> },
    Return(Option<Box<ExprV>>),
    Struct { fields: Seq<ExprV>, rest: Option<Box<ExprV>> },
    Try(Box<ExprV>),
    TryBlock(Seq<StmtV>),
    Tuple(Seq<ExprV>),
    Unary(Box<ExprV>),
    Unsafe(Seq<StmtV>),
    Verbatim,
    While { cond: Box<ExprV>, body: Seq<StmtV> },
    Yield(Option<Box<ExprV>>),
}

pub enum StmtV {
    Local { pat: PatV, init: Option<Box<ExprV>> },
    ItemConst { value: Box<ExprV> },
    ItemFn { body: Seq<StmtV> },
    ItemOther,
    Expr(ExprV),
    Macro(Seq<TokV>),
}

pub struct FnDefV {
    pub body: Seq<StmtV>,
}

pub enum ConfigV {
    Flag(Seq<char>),
    List,
    NameValue,
}

// ----------------------------------------------------------------------------
// View functions.
// ----------------------------------------------------------------------------

pub open spec fn pat_view(p: Pat) -> PatV
    decreases p,
{
    match p {
        Pat::Name { name, mutable, sub } => PatV::Name {
            name: name@,
            mutable,
            sub: match sub {
                Some(b) => Some(Box::new(pat_view(*b))),
                None => None,
            },
        },
        Pat::Struct(ps) => PatV::Struct(pats_view(ps@)),
        Pat::Tuple(ps) => PatV::Tuple(pats_view(ps@)),
        Pat::TupleStruct(ps) => PatV::TupleStruct(pats_view(ps@)),
        Pat::Typed(b) => PatV::Typed(Box::new(pat_view(*b))),
        Pat::Other => PatV::Other,
    }
}

pub open spec fn pats_view(ps: Seq<Pat>) -> Seq<PatV>
    decreases ps,
{
    if ps.len() == 0 {
        Seq::empty()
    } else {
        pats_view(ps.drop_last()).push(pat_view(ps.last()))
    }
}

pub open spec fn tok_view(t: Tok) -> TokV
    decreases t,
{
    match t {
        Tok::Group(ts) => TokV::Group(toks_view(ts@)),
        Tok::Name(s) => TokV::Name(s@),
        Tok::Other => TokV::Other,
    }
}

pub open spec fn toks_view(ts: Seq<Tok>) -> Seq<TokV>
    decreases ts,
{
    if ts.len() == 0 {
        Seq::empty()
    } else {
        toks_view(ts.drop_last()).push(tok_view(ts.last()))
    }
}

pub open spec fn seg_view(s: Seg) -> SegV {
    SegV { name: s.name@, extra: crate::idents::names_view(s.extra@) }
}

pub open spec fn segs_view(ss: Seq<Seg>) -> Seq<SegV> {
    Seq::new(ss.len(), |i: int| seg_view(ss[i]))
}

pub open spec fn opt_expr_view(o: Option<Box<Expr>>) -> Option<Box<ExprV>>
    decreases o,
{
    match o {
        Some(b) => Some(Box::new(expr_view(*b))),
        None => None,
    }
}

pub open spec fn arm_view(a: Arm) -> ArmV
    decreases a,
{
    ArmV { pat: pat_view(a.pat), guard: opt_expr_view(a.guard), body: Box::new(expr_view(*a.body)) }
}

pub open spec fn arms_view(arms: Seq<Arm>) -> Seq<ArmV>
    decreases arms,
{
    if arms.len() == 0 {
        Seq::empty()
    } else {
        arms_view(arms.drop_last()).push(arm_view(arms.last()))
    }
}

pub open spec fn exprs_view(es: Seq<Expr>) -> Seq<ExprV>
    decreases es,
{
    if es.len() == 0 {
        Seq::empty()
    } else {
        exprs_view(es.drop_last()).push(expr_view(es.last()))
    }
}

pub open spec fn expr_view(e: Expr) -> ExprV
    decreases e,
{
    match e {
        Expr::Array(es) => ExprV::Array(exprs_view(es@)),
        Expr::Assign { left, right } => ExprV::Assign {
            left: Box::new(expr_view(*left)),
            right: Box::new(expr_view(*right)),
        },
        Expr::Async { capture, body } => ExprV::Async { capture, body: stmts_view(body@) },
        Expr::Await(b) => ExprV::Await(Box::new(expr_view(*b))),
        Expr::Binary { left, right } => ExprV::Binary {
            left: Box::new(expr_view(*left)),
            right: Box::new(expr_view(*right)),
        },
        Expr::Block(ss) => ExprV::Block(stmts_view(ss@)),
        Expr::Break(o) => ExprV::Break(opt_expr_view(o)),
        Expr::Call { func, args } => ExprV::Call {
            func: Box::new(expr_view(*func)),
            args: exprs_view(args@),
        },
        Expr::Cast(b) => ExprV::Cast(Box::new(expr_view(*b))),
        Expr::Closure { capture, params, body } => ExprV::Closure {
            capture,
            params: pats_view(params@),
            body: Box::new(expr_view(*body)),
        },
        Expr::Continue => ExprV::Continue,
        Expr::Field(b) => ExprV::Field(Box::new(expr_view(*b))),
        Expr::ForLoop { pat, iter, body } => ExprV::ForLoop {
            pat: pat_view(pat),
            iter: Box::new(expr_view(*iter)),
            body: stmts_view(body@),
        },
        Expr::Group(b) => ExprV::Group(Box::new(expr_view(*b))),
        Expr::If { cond, then_body, else_body } => ExprV::If {
            cond: Box::new(expr_view(*cond)),
            then_body: stmts_view(then_body@),
            else_body: opt_expr_view(else_body),
        },
        Expr::Index { base, index } => ExprV::Index {
            base: Box::new(expr_view(*base)),
            index: Box::new(expr_view(*index)),
        },
        Expr::Let { value } => ExprV::Let { value: Box::new(expr_view(*value)) },
        Expr::Lit => ExprV::Lit,
        Expr::Loop(ss) => ExprV::Loop(stmts_view(ss@)),
        Expr::Macro(ts) => ExprV::Macro(toks_view(ts@)),
        Expr::Match { scrutinee, arms } => ExprV::Match {
            scrutinee: Box::new(expr_view(*scrutinee)),
            arms: arms_view(arms@),
        },
        Expr::MethodCall { receiver, method, args } => ExprV::MethodCall {
            receiver: Box::new(expr_view(*receiver)),
            method: method@,
            args: exprs_view(args@),
        },
        Expr::Paren(b) => ExprV::Paren(Box::new(expr_view(*b))),
        Expr::Path { leading_colon, segments } => ExprV::Path {
            leading_colon,
            segments: segs_view(segments@),
        },
        Expr::Range { start, end } => ExprV::Range {
            start: opt_expr_view(start),
            end: opt_expr_view(end),
        },
        Expr::Reference(b) => ExprV::Reference(Box::new(expr_view(*b))),
        Expr::Repeat { value, len } => ExprV::Repeat {
            value: Box::new(expr_view(*value)),
            len: Box::new(expr_view(*len)),
        },
        Expr::Return(o) => ExprV::Return(opt_expr_view(o)),
        Expr::Struct { fields, rest } => ExprV::Struct {
            fields: exprs_view(fields@),
            rest: opt_expr_view(rest),
        },
        Expr::Try(b) => ExprV::Try(Box::new(expr_view(*b))),
        Expr::TryBlock(ss) => ExprV::TryBlock(stmts_view(ss@)),
        Expr::Tuple(es) => ExprV::Tuple(exprs_view(es@)),
        Expr::Unary(b) => ExprV::Unary(Box::new(expr_view(*b))),
        Expr::Unsafe(ss) => ExprV::Unsafe(stmts_view(ss@)),
        Expr::Verbatim => ExprV::Verbatim,
        Expr::While { cond, body } => ExprV::While {
            cond: Box::new(expr_view(*cond)),
            body: stmts_view(body@),
        },
        Expr::Yield(o) => ExprV::Yield(opt_expr_view(o)),
    }
}

pub open spec fn stmt_view(s: Stmt) -> StmtV
    decreases s,
{
    match s {
        Stmt::Local { pat, init } => StmtV::Local { pat: pat_view(pat), init: opt_expr_view(init) },
        Stmt::ItemConst { value } => StmtV::ItemConst { value: Box::new(expr_view(*value)) },
        Stmt::ItemFn { body } => StmtV::ItemFn { body: stmts_view(body@) },
        Stmt::ItemOther => StmtV::ItemOther,
        Stmt::Expr(e) => StmtV::Expr(expr_view(e)),
        Stmt::Macro(ts) => StmtV::Macro(toks_view(ts@)),
    }
}

pub open spec fn stmts_view(ss: Seq<Stmt>) -> Seq<StmtV>
    decreases ss,
{
    if ss.len() == 0 {
        Seq::empty()
    } else {
        stmts_view(ss.drop_last()).push(stmt_view(ss.last()))
    }
}

impl View for FnDef {
    type V = FnDefV;

    open spec fn view(&self) -> FnDefV {
        FnDefV { body: stmts_view(self.body@) }
    }
}

pub open spec fn config_view(c: ConfigEntry) -> ConfigV {
    match c {
        ConfigEntry::Flag(s) => ConfigV::Flag(s@),
        ConfigEntry::List => ConfigV::List,
        ConfigEntry::NameValue => ConfigV::NameValue,
    }
}

pub open spec fn configs_view(cs: Seq<ConfigEntry>) -> Seq<ConfigV> {
    Seq::new(cs.len(), |i: int| config_view(cs[i]))
}

// ----------------------------------------------------------------------------
// Facts about the view functions.
// ----------------------------------------------------------------------------

/// Destructing a push: handy for stepping the sequence folds above.
pub broadcast proof fn lemma_push_parts<T>(s: Seq<T>, x: T)
    ensures
        (#[trigger] s.push(x)).drop_last() == s,
        s.push(x).last() == x,
{
    assert(s.push(x).drop_last() =~= s);
}

pub broadcast proof fn lemma_stmts_view_len(ss: Seq<Stmt>)
    ensures
        (#[trigger] stmts_view(ss)).len() == ss.len(),
    decreases ss,
{
    if ss.len() > 0 {
        lemma_stmts_view_len(ss.drop_last());
    }
}

pub broadcast proof fn lemma_stmts_view_index(ss: Seq<Stmt>, i: int)
    requires
        0 <= i < ss.len(),
    ensures
        #[trigger] stmts_view(ss)[i] == stmt_view(ss[i]),
    decreases ss,
{
    lemma_stmts_view_len(ss);
    if ss.len() > 0 {
        lemma_stmts_view_len(ss.drop_last());
        if i < ss.len() - 1 {
            lemma_stmts_view_index(ss.drop_last(), i);
        }
    }
}

pub broadcast proof fn lemma_exprs_view_len(es: Seq<Expr>)
    ensures
        (#[trigger] exprs_view(es)).len() == es.len(),
    decreases es,
{
    if es.len() > 0 {
        lemma_exprs_view_len(es.drop_last());
    }
}

pub broadcast proof fn lemma_exprs_view_index(es: Seq<Expr>, i: int)
    requires
        0 <= i < es.len(),
    ensures
        #[trigger] exprs_view(es)[i] == expr_view(es[i]),
    decreases es,
{
    lemma_exprs_view_len(es);
    if es.len() > 0 {
        lemma_exprs_view_len(es.drop_last());
        if i < es.len() - 1 {
            lemma_exprs_view_index(es.drop_last(), i);
        }
    }
}

pub broadcast proof fn lemma_pats_view_len(ps: Seq<Pat>)
    ensures
        (#[trigger] pats_view(ps)).len() == ps.len(),
    decreases ps,
{
    if ps.len() > 0 {
        lemma_pats_view_len(ps.drop_last());
    }
}

pub broadcast proof fn lemma_pats_view_index(ps: Seq<Pat>, i: int)
    requires
        0 <= i < ps.len(),
    ensures
        #[trigger] pats_view(ps)[i] == pat_view(ps[i]),
    decreases ps,
{
    lemma_pats_view_len(ps);
    if ps.len() > 0 {
        lemma_pats_view_len(ps.drop_last());
        if i < ps.len() - 1 {
            lemma_pats_view_index(ps.drop_last(), i);
        }
    }
}

pub broadcast proof fn lemma_toks_view_len(ts: Seq<Tok>)
    ensures
        (#[trigger] toks_view(ts)).len() == ts.len(),
    decreases ts,
{
    if ts.len() > 0 {
        lemma_toks_view_len(ts.drop_last());
    }
}

pub broadcast proof fn lemma_toks_view_index(ts: Seq<Tok>, i: int)
    requires
        0 <= i < ts.len(),
    ensures
        #[trigger] toks_view(ts)[i] == tok_view(ts[i]),
    decreases ts,
{
    lemma_toks_view_len(ts);
    if ts.len() > 0 {
        lemma_toks_view_len(ts.drop_last());
        if i < ts.len() - 1 {
            lemma_toks_view_index(ts.drop_last(), i);
        }
    }
}

pub broadcast proof fn lemma_arms_view_len(arms: Seq<Arm>)
    ensures
        (#[trigger] arms_view(arms)).len() == arms.len(),
    decreases arms,
{
    if arms.len() > 0 {
        lemma_arms_view_len(arms.drop_last());
    }
}

pub broadcast proof fn lemma_arms_view_index(arms: Seq<Arm>, i: int)
    requires
        0 <= i < arms.len(),
    ensures
        #[trigger] arms_view(arms)[i] == arm_view(arms[i]),
    decreases arms,
{
    lemma_arms_view_len(arms);
    if arms.len() > 0 {
        lemma_arms_view_len(arms.drop_last());
        if i < arms.len() - 1 {
            lemma_arms_view_index(arms.drop_last(), i);
        }
    }
}

} // verus!
