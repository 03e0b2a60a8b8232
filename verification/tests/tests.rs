use clone_on_capture::clone_on_capture_impl;
use clone_on_capture::cloned_idents_expression;
use clone_on_capture::extract_pat;
use clone_on_capture::extract_token_stream;
use clone_on_capture::ConfigEntry;
use clone_on_capture::Data;
use clone_on_capture::Expr;
use clone_on_capture::FnDef;
use clone_on_capture::IdentSet;
use clone_on_capture::Pat;
use clone_on_capture::Seg;
use clone_on_capture::Stmt;
use clone_on_capture::Tok;
use clone_on_capture::TransformError;

fn name_pat(n: &str) -> Pat {
    Pat::Name { name: n.to_string(), mutable: false, sub: None }
}

fn path(n: &str) -> Expr {
    Expr::Path { leading_colon: false, segments: vec![Seg { name: n.to_string(), extra: Vec::new() }] }
}

fn call0(recv: Expr, m: &str) -> Expr {
    Expr::MethodCall { receiver: Box::new(recv), method: m.to_string(), args: Vec::new() }
}

fn local(p: Pat, e: Expr) -> Stmt {
    Stmt::Local { pat: p, init: Some(Box::new(e)) }
}

fn clone_stmt(n: &str) -> Stmt {
    local(name_pat(n), call0(path(n), "clone"))
}

fn move_closure(body: Expr) -> Expr {
    Expr::Closure { capture: true, params: Vec::new(), body: Box::new(body) }
}

fn rewrite(body: Vec<Stmt>) -> Vec<Stmt> {
    let out = clone_on_capture_impl(Vec::new(), FnDef { body }).unwrap();
    out.body
}

// A move-closure reading a top-level binding gets a block that first clones
// the variable and the address binding named in the macro tokens, so the
// originals stay usable outside.
#[test]
fn check_addresses() {
    let closure_body = Expr::Block(vec![
        local(name_pat("b"), path("a")),
        local(name_pat("b_address"), call0(path("b"), "as_ptr")),
        Stmt::Macro(vec![
            Tok::Name("a_address".to_string()),
            Tok::Other,
            Tok::Name("b_address".to_string()),
        ]),
    ]);
    let input = vec![
        local(name_pat("a"), call0(Expr::Lit, "to_string")),
        local(name_pat("a_address"), call0(path("a"), "as_ptr")),
        local(name_pat("closure"), move_closure(closure_body.clone_model())),
        Stmt::Expr(Expr::Call { func: Box::new(path("closure")), args: Vec::new() }),
    ];
    let expected = vec![
        local(name_pat("a"), call0(Expr::Lit, "to_string")),
        local(name_pat("a_address"), call0(path("a"), "as_ptr")),
        local(
            name_pat("closure"),
            Expr::Block(vec![
                clone_stmt("a"),
                clone_stmt("a_address"),
                Stmt::Expr(move_closure(closure_body)),
            ]),
        ),
        Stmt::Expr(Expr::Call { func: Box::new(path("closure")), args: Vec::new() }),
    ];
    assert_eq!(rewrite(input), expected);
}

// Reserved-prefix bindings are never tracked: the closure is left untouched.
#[test]
fn do_not_clone_prefix() {
    let closure_body = Expr::Block(vec![
        local(name_pat("b"), path("dc_a")),
        local(name_pat("b_address"), call0(path("b"), "as_ptr")),
        Stmt::Macro(vec![
            Tok::Name("dc_a_address".to_string()),
            Tok::Other,
            Tok::Name("b_address".to_string()),
        ]),
    ]);
    let input = vec![
        local(name_pat("dc_a"), call0(Expr::Lit, "to_string")),
        local(name_pat("dc_a_address"), call0(path("dc_a"), "as_ptr")),
        local(name_pat("closure"), move_closure(closure_body)),
        Stmt::Expr(Expr::Call { func: Box::new(path("closure")), args: Vec::new() }),
    ];
    let expected = input.clone_model();
    assert_eq!(rewrite(input), expected);
}

// A use inside a macro invocation in the closure body counts; the later
// top-level macro use of `a` needs no duplication.
#[test]
fn simple_closure_with_format() {
    let format_tokens = vec![Tok::Other, Tok::Other, Tok::Name("a".to_string())];
    let closure_body = Expr::Block(vec![Stmt::Macro(format_tokens.clone_model())]);
    let input = vec![
        local(name_pat("a"), call0(Expr::Lit, "to_string")),
        local(name_pat("_closure"), move_closure(closure_body.clone_model())),
        Stmt::Macro(format_tokens.clone_model()),
    ];
    let expected = vec![
        local(name_pat("a"), call0(Expr::Lit, "to_string")),
        local(
            name_pat("_closure"),
            Expr::Block(vec![clone_stmt("a"), Stmt::Expr(move_closure(closure_body))]),
        ),
        Stmt::Macro(format_tokens),
    ];
    assert_eq!(rewrite(input), expected);
}

// A plain move of a top-level binding into the closure is duplicated, so the
// assignment after the closure still works.
#[test]
fn simple_closure_with_assign() {
    let closure_body = Expr::Block(vec![local(name_pat("_b"), path("a"))]);
    let input = vec![
        local(name_pat("a"), call0(Expr::Lit, "to_string")),
        local(name_pat("_closure"), move_closure(closure_body.clone_model())),
        local(name_pat("_c"), path("a")),
    ];
    let expected = vec![
        local(name_pat("a"), call0(Expr::Lit, "to_string")),
        local(
            name_pat("_closure"),
            Expr::Block(vec![clone_stmt("a"), Stmt::Expr(move_closure(closure_body))]),
        ),
        local(name_pat("_c"), path("a")),
    ];
    assert_eq!(rewrite(input), expected);
}

// A move-closure whose body references no visible identifier is returned
// unchanged: no duplication statements, no wrapping block.
#[test]
fn none_with_type_hinting() {
    let none_path = Expr::Path {
        leading_colon: false,
        segments: vec![Seg { name: "None".to_string(), extra: vec!["String".to_string()] }],
    };
    let input = vec![local(name_pat("_closure"), move_closure(none_path))];
    let expected = input.clone_model();
    assert_eq!(rewrite(input), expected);
}

// An iterator-chain closure parameter referenced inside a nested move-closure
// is duplicated at that inner boundary only; the outer closure is not a move
// boundary and stays unwrapped, so the later use of the parameter is sound.
#[test]
fn method_expr() {
    let inner_move = move_closure(path("x"));
    let outer_body = |inner: Expr| {
        Expr::Block(vec![local(name_pat("_a"), inner), local(name_pat("_b"), path("x"))])
    };
    let outer_closure = |inner: Expr| Expr::Closure {
        capture: false,
        params: vec![name_pat("x")],
        body: Box::new(outer_body(inner)),
    };
    let chain = |inner: Expr| {
        call0(
            Expr::MethodCall {
                receiver: Box::new(call0(path("arr"), "into_iter")),
                method: "map".to_string(),
                args: vec![outer_closure(inner)],
            },
            "collect",
        )
    };
    let vec_new = Expr::Call {
        func: Box::new(Expr::Path {
            leading_colon: false,
            segments: vec![
                Seg { name: "Vec".to_string(), extra: Vec::new() },
                Seg { name: "new".to_string(), extra: Vec::new() },
            ],
        }),
        args: Vec::new(),
    };
    let input = vec![
        local(Pat::Typed(Box::new(name_pat("arr"))), vec_new.clone_model()),
        local(Pat::Typed(Box::new(name_pat("_vec"))), chain(inner_move.clone_model())),
    ];
    let wrapped_inner =
        Expr::Block(vec![clone_stmt("x"), Stmt::Expr(inner_move)]);
    let expected = vec![
        local(Pat::Typed(Box::new(name_pat("arr"))), vec_new),
        local(Pat::Typed(Box::new(name_pat("_vec"))), chain(wrapped_inner)),
    ];
    assert_eq!(rewrite(input), expected);
}

// A body without move boundaries is rewritten to itself, non-move closures,
// blocks, loops and conditionals included.
#[test]
fn idempotent_without_move_boundaries() {
    let input = vec![
        local(name_pat("a"), Expr::Lit),
        Stmt::Expr(Expr::If {
            cond: Box::new(path("a")),
            then_body: vec![Stmt::Expr(call0(path("a"), "bump"))],
            else_body: Some(Box::new(Expr::Block(vec![Stmt::Expr(Expr::Lit)]))),
        }),
        local(
            name_pat("f"),
            Expr::Closure {
                capture: false,
                params: vec![name_pat("y")],
                body: Box::new(Expr::Binary {
                    left: Box::new(path("y")),
                    right: Box::new(path("a")),
                }),
            },
        ),
        Stmt::Expr(Expr::While {
            cond: Box::new(path("a")),
            body: vec![Stmt::Expr(Expr::Continue)],
        }),
    ];
    let expected = input.clone_model();
    assert_eq!(rewrite(input), expected);
}

// A variable bound at the top level and read only inside the innermost of two
// nested move-closures is duplicated at each boundary: every capturing
// boundary needs its own copy.
#[test]
fn nested_move_boundaries_each_get_a_copy() {
    let inner = move_closure(Expr::Block(vec![local(name_pat("b"), path("a"))]));
    let outer = move_closure(Expr::Block(vec![local(name_pat("g"), inner.clone_model())]));
    let input = vec![
        local(name_pat("a"), call0(Expr::Lit, "to_string")),
        local(name_pat("f"), outer),
    ];
    let wrapped_inner = Expr::Block(vec![clone_stmt("a"), Stmt::Expr(inner)]);
    let rewritten_outer =
        move_closure(Expr::Block(vec![local(name_pat("g"), wrapped_inner)]));
    let expected = vec![
        local(name_pat("a"), call0(Expr::Lit, "to_string")),
        local(
            name_pat("f"),
            Expr::Block(vec![clone_stmt("a"), Stmt::Expr(rewritten_outer)]),
        ),
    ];
    assert_eq!(rewrite(input), expected);
}

// `let x = x;` inside a move-closure charges the outer `x` once: one
// duplication, no self-reference of the fresh binding.
#[test]
fn shadowing_let_self_is_cloned_once() {
    let closure_body = Expr::Block(vec![local(name_pat("x"), path("x"))]);
    let input = vec![
        local(name_pat("x"), call0(Expr::Lit, "to_string")),
        local(name_pat("c"), move_closure(closure_body.clone_model())),
    ];
    let expected = vec![
        local(name_pat("x"), call0(Expr::Lit, "to_string")),
        local(
            name_pat("c"),
            Expr::Block(vec![clone_stmt("x"), Stmt::Expr(move_closure(closure_body))]),
        ),
    ];
    assert_eq!(rewrite(input), expected);
}

// A move-async-block behaves like a move-closure: its used identifiers are
// duplicated in front of it.
#[test]
fn async_block_is_a_boundary() {
    let input = vec![
        local(name_pat("a"), call0(Expr::Lit, "to_string")),
        Stmt::Expr(Expr::Async {
            capture: true,
            body: vec![local(name_pat("b"), path("a"))],
        }),
    ];
    let expected = vec![
        local(name_pat("a"), call0(Expr::Lit, "to_string")),
        Stmt::Expr(Expr::Block(vec![
            clone_stmt("a"),
            Stmt::Expr(Expr::Async {
                capture: true,
                body: vec![local(name_pat("b"), path("a"))],
            }),
        ])),
    ];
    assert_eq!(rewrite(input), expected);
}

// Mutable bindings opt out of tracking just like reserved names.
#[test]
fn mutable_binding_not_cloned() {
    let mut_pat = Pat::Name { name: "m".to_string(), mutable: true, sub: None };
    let input = vec![
        local(mut_pat, call0(Expr::Lit, "to_string")),
        local(name_pat("c"), move_closure(path("m"))),
    ];
    let expected = input.clone_model();
    assert_eq!(rewrite(input), expected);
}

// The tracing flag is recognized case-insensitively among the configuration
// entries and changes nothing about the rewritten tree; other entries are
// ignored.
#[test]
fn config_entries_ignored_but_debug() {
    let args = vec![
        ConfigEntry::List,
        ConfigEntry::NameValue,
        ConfigEntry::Flag("other".to_string()),
        ConfigEntry::Flag("DeBuG".to_string()),
    ];
    let input = vec![
        local(name_pat("a"), call0(Expr::Lit, "to_string")),
        local(name_pat("c"), move_closure(path("a"))),
    ];
    let expected = vec![
        local(name_pat("a"), call0(Expr::Lit, "to_string")),
        local(
            name_pat("c"),
            Expr::Block(vec![clone_stmt("a"), Stmt::Expr(move_closure(path("a")))]),
        ),
    ];
    let got = clone_on_capture_impl(args, FnDef { body: input.clone_model() }).unwrap();
    assert_eq!(got.body, expected);
    let got2 = clone_on_capture::clone_on_capture(Vec::new(), FnDef { body: input });
    assert_eq!(got2.body, expected);
}

// Tuple, struct and `@`-bound patterns contribute all their names; wildcards,
// reserved names and mutable names contribute none.
#[test]
fn pattern_extraction() {
    let pat = Pat::Tuple(vec![
        name_pat("p"),
        Pat::Name {
            name: "q".to_string(),
            mutable: false,
            sub: Some(Box::new(Pat::TupleStruct(vec![name_pat("r"), Pat::Other]))),
        },
        Pat::Struct(vec![name_pat("dc_skip"), name_pat("s")]),
        Pat::Name { name: "m".to_string(), mutable: true, sub: None },
    ]);
    let ids = extract_pat(&pat);
    assert_eq!(
        ids.items,
        vec!["p".to_string(), "q".to_string(), "r".to_string(), "s".to_string()]
    );
}

// Identifier tokens are collected from the whole stream, nested groups
// included, each name once, in first appearance order.
#[test]
fn token_stream_extraction() {
    let stream = vec![
        Tok::Name("a".to_string()),
        Tok::Other,
        Tok::Group(vec![Tok::Name("b".to_string()), Tok::Name("a".to_string())]),
        Tok::Name("b".to_string()),
    ];
    let ids = extract_token_stream(&stream);
    assert_eq!(ids.items, vec!["a".to_string(), "b".to_string()]);
}

// The identifier set keeps first-insertion order and never repeats a name.
#[test]
fn ident_set_order_and_dedup() {
    let mut s = IdentSet::new();
    s.insert("b".to_string());
    s.insert("a".to_string());
    s.insert("b".to_string());
    assert_eq!(s.items, vec!["b".to_string(), "a".to_string()]);
    assert!(s.contains(&"a".to_string()));
    assert!(!s.contains(&"c".to_string()));
    assert_eq!(s.len(), 2);
}

// A use of a root-bound name is charged to every frame; a use of a
// frame-bound name only to capturing frames strictly inside its frame.
#[test]
fn usage_attribution() {
    let mut data = Data::new(false);
    let mut root = IdentSet::new();
    root.insert("a".to_string());
    data.push_idents(&root);
    data.push_nested_block(true);
    data.push_nested_block(false);
    let mut inner = IdentSet::new();
    inner.insert("b".to_string());
    data.push_idents(&inner);
    data.push_nested_block(true);

    data.push_usage("a".to_string()).unwrap();
    data.push_usage("b".to_string()).unwrap();
    data.push_usage("unbound".to_string()).unwrap();

    assert_eq!(data.nested[0].usage.items, vec!["a".to_string()]);
    assert_eq!(data.nested[1].usage.items, vec!["a".to_string()]);
    assert_eq!(data.nested[2].usage.items, vec!["a".to_string(), "b".to_string()]);
}

// Popping with no frame active is the one structured failure.
#[test]
fn pop_underflow() {
    let mut data = Data::new(false);
    data.push_nested_block(true);
    assert!(data.pop_nested_block().unwrap().is_some());
    assert_eq!(data.pop_nested_block(), Err(TransformError::ScopeUnderflow));
}

// Diagnostic text: names joined with a comma and a space, in set order.
#[test]
fn string_idents_joins() {
    let mut s = IdentSet::new();
    assert_eq!(Data::string_idents(&s), "");
    s.insert("a".to_string());
    assert_eq!(Data::string_idents(&s), "a");
    s.insert("b".to_string());
    s.insert("c".to_string());
    assert_eq!(Data::string_idents(&s), "a, b, c");
}

// The synthesizer emits one duplication per used identifier, in set order,
// and leaves an expression with an empty used set alone.
#[test]
fn synthesizer_output() {
    let mut used = IdentSet::new();
    used.insert("a".to_string());
    used.insert("b".to_string());
    let wrapped = cloned_idents_expression(&used, Expr::Continue);
    assert_eq!(
        wrapped,
        Expr::Block(vec![clone_stmt("a"), clone_stmt("b"), Stmt::Expr(Expr::Continue)])
    );
    let empty = IdentSet::new();
    assert_eq!(cloned_idents_expression(&empty, Expr::Continue), Expr::Continue);
}

// A root-qualified path is never a use; a bare one inside a boundary is.
#[test]
fn leading_colon_path_not_a_use() {
    let qualified = Expr::Path {
        leading_colon: true,
        segments: vec![Seg { name: "a".to_string(), extra: Vec::new() }],
    };
    let input = vec![
        local(name_pat("a"), call0(Expr::Lit, "to_string")),
        local(name_pat("c"), move_closure(qualified)),
    ];
    let expected = input.clone_model();
    assert_eq!(rewrite(input), expected);
}

// Deep copies for building inputs and expectations from shared parts; the
// library's node types deliberately do not implement `Clone`.
trait CloneModel {
    fn clone_model(&self) -> Self;
}

impl<T: CloneModel> CloneModel for Vec<T> {
    fn clone_model(&self) -> Vec<T> {
        self.iter().map(|x| x.clone_model()).collect()
    }
}

impl<T: CloneModel> CloneModel for Option<Box<T>> {
    fn clone_model(&self) -> Option<Box<T>> {
        self.as_ref().map(|b| Box::new((**b).clone_model()))
    }
}

impl CloneModel for Seg {
    fn clone_model(&self) -> Seg {
        Seg { name: self.name.clone(), extra: self.extra.clone() }
    }
}

impl CloneModel for Tok {
    fn clone_model(&self) -> Tok {
        match self {
            Tok::Group(ts) => Tok::Group(ts.clone_model()),
            Tok::Name(s) => Tok::Name(s.clone()),
            Tok::Other => Tok::Other,
        }
    }
}

impl CloneModel for Pat {
    fn clone_model(&self) -> Pat {
        match self {
            Pat::Name { name, mutable, sub } => Pat::Name {
                name: name.clone(),
                mutable: *mutable,
                sub: sub.clone_model(),
            },
            Pat::Struct(ps) => Pat::Struct(ps.clone_model()),
            Pat::Tuple(ps) => Pat::Tuple(ps.clone_model()),
            Pat::TupleStruct(ps) => Pat::TupleStruct(ps.clone_model()),
            Pat::Typed(b) => Pat::Typed(Box::new((**b).clone_model())),
            Pat::Other => Pat::Other,
        }
    }
}

impl CloneModel for clone_on_capture::Arm {
    fn clone_model(&self) -> clone_on_capture::Arm {
        clone_on_capture::Arm {
            pat: self.pat.clone_model(),
            guard: self.guard.clone_model(),
            body: Box::new((*self.body).clone_model()),
        }
    }
}

impl CloneModel for Stmt {
    fn clone_model(&self) -> Stmt {
        match self {
            Stmt::Local { pat, init } => Stmt::Local {
                pat: pat.clone_model(),
                init: init.clone_model(),
            },
            Stmt::ItemConst { value } => Stmt::ItemConst {
                value: Box::new((**value).clone_model()),
            },
            Stmt::ItemFn { body } => Stmt::ItemFn { body: body.clone_model() },
            Stmt::ItemOther => Stmt::ItemOther,
            Stmt::Expr(e) => Stmt::Expr(e.clone_model()),
            Stmt::Macro(ts) => Stmt::Macro(ts.clone_model()),
        }
    }
}

impl CloneModel for Expr {
    fn clone_model(&self) -> Expr {
        match self {
            Expr::Array(es) => Expr::Array(es.clone_model()),
            Expr::Assign { left, right } => Expr::Assign {
                left: Box::new((**left).clone_model()),
                right: Box::new((**right).clone_model()),
            },
            Expr::Async { capture, body } => Expr::Async {
                capture: *capture,
                body: body.clone_model(),
            },
            Expr::Await(b) => Expr::Await(Box::new((**b).clone_model())),
            Expr::Binary { left, right } => Expr::Binary {
                left: Box::new((**left).clone_model()),
                right: Box::new((**right).clone_model()),
            },
            Expr::Block(ss) => Expr::Block(ss.clone_model()),
            Expr::Break(o) => Expr::Break(o.clone_model()),
            Expr::Call { func, args } => Expr::Call {
                func: Box::new((**func).clone_model()),
                args: args.clone_model(),
            },
            Expr::Cast(b) => Expr::Cast(Box::new((**b).clone_model())),
            Expr::Closure { capture, params, body } => Expr::Closure {
                capture: *capture,
                params: params.clone_model(),
                body: Box::new((**body).clone_model()),
            },
            Expr::Continue => Expr::Continue,
            Expr::Field(b) => Expr::Field(Box::new((**b).clone_model())),
            Expr::ForLoop { pat, iter, body } => Expr::ForLoop {
                pat: pat.clone_model(),
                iter: Box::new((**iter).clone_model()),
                body: body.clone_model(),
            },
            Expr::Group(b) => Expr::Group(Box::new((**b).clone_model())),
            Expr::If { cond, then_body, else_body } => Expr::If {
                cond: Box::new((**cond).clone_model()),
                then_body: then_body.clone_model(),
                else_body: else_body.clone_model(),
            },
            Expr::Index { base, index } => Expr::Index {
                base: Box::new((**base).clone_model()),
                index: Box::new((**index).clone_model()),
            },
            Expr::Let { value } => Expr::Let { value: Box::new((**value).clone_model()) },
            Expr::Lit => Expr::Lit,
            Expr::Loop(ss) => Expr::Loop(ss.clone_model()),
            Expr::Macro(ts) => Expr::Macro(ts.clone_model()),
            Expr::Match { scrutinee, arms } => Expr::Match {
                scrutinee: Box::new((**scrutinee).clone_model()),
                arms: arms.clone_model(),
            },
            Expr::MethodCall { receiver, method, args } => Expr::MethodCall {
                receiver: Box::new((**receiver).clone_model()),
                method: method.clone(),
                args: args.clone_model(),
            },
            Expr::Paren(b) => Expr::Paren(Box::new((**b).clone_model())),
            Expr::Path { leading_colon, segments } => Expr::Path {
                leading_colon: *leading_colon,
                segments: segments.clone_model(),
            },
            Expr::Range { start, end } => Expr::Range {
                start: start.clone_model(),
                end: end.clone_model(),
            },
            Expr::Reference(b) => Expr::Reference(Box::new((**b).clone_model())),
            Expr::Repeat { value, len } => Expr::Repeat {
                value: Box::new((**value).clone_model()),
                len: Box::new((**len).clone_model()),
            },
            Expr::Return(o) => Expr::Return(o.clone_model()),
            Expr::Struct { fields, rest } => Expr::Struct {
                fields: fields.clone_model(),
                rest: rest.clone_model(),
            },
            Expr::Try(b) => Expr::Try(Box::new((**b).clone_model())),
            Expr::TryBlock(ss) => Expr::TryBlock(ss.clone_model()),
            Expr::Tuple(es) => Expr::Tuple(es.clone_model()),
            Expr::Unary(b) => Expr::Unary(Box::new((**b).clone_model())),
            Expr::Unsafe(ss) => Expr::Unsafe(ss.clone_model()),
            Expr::Verbatim => Expr::Verbatim,
            Expr::While { cond, body } => Expr::While {
                cond: Box::new((**cond).clone_model()),
                body: body.clone_model(),
            },
            Expr::Yield(o) => Expr::Yield(o.clone_model()),
        }
    }
}
