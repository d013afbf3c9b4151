use next_transform_dynamic::ast::{
    BinaryOp, CallExpr, Expr, Id, Ident, ImportDecl, ImportSpecifier, ModuleItem, Prop, Span, Stmt,
    Str, SyntaxContext, UnaryOp,
};
use next_transform_dynamic::state::TurbopackImport;
use next_transform_dynamic::syntax::{
    import_items, module_id_options, module_key, pure_import, pure_loader, resolve_weak,
    stringified_ids, webpack_options, wrap_expr_with_client_only_cond,
};

fn dummy() -> Span {
    Span { lo: 0, hi: 0 }
}

fn plain(sym: &str) -> Ident {
    Ident { sym: sym.to_string(), span: dummy(), ctxt: SyntaxContext::Source(0) }
}

fn plain_str(value: &str) -> Expr {
    Expr::Str(Str { value: value.to_string(), span: dummy() })
}

fn private(sym: &str, serial: usize) -> Ident {
    Ident { sym: sym.to_string(), span: Span { lo: 3, hi: 9 }, ctxt: SyntaxContext::Private(serial) }
}

#[test]
fn module_id_options_wrap_the_id_in_a_list() {
    assert_eq!(
        module_id_options(Expr::Null),
        vec![Prop::KeyValue {
            key: Expr::Ident(plain("modules")),
            computed: false,
            value: Expr::Array(vec![Expr::Null]),
        }]
    );
}

#[test]
fn webpack_options_defer_the_id() {
    assert_eq!(
        webpack_options(Expr::Bool(true)),
        vec![Prop::KeyValue {
            key: Expr::Ident(plain("webpack")),
            computed: false,
            value: Expr::Arrow {
                is_async: false,
                params: vec![],
                body: Box::new(Expr::Array(vec![Expr::Bool(true)])),
            },
        }]
    );
}

#[test]
fn module_key_joins_file_and_specifier() {
    assert_eq!(
        module_key("pages/index.js".to_string(), "./hello".to_string()),
        Expr::Bin {
            op: BinaryOp::Add,
            left: Box::new(plain_str("pages/index.js -> ")),
            right: Box::new(plain_str("./hello")),
        }
    );
}

#[test]
fn resolve_weak_calls_the_resolver() {
    assert_eq!(
        resolve_weak("./hello".to_string()),
        Expr::Call(CallExpr {
            callee: Box::new(Expr::Member {
                obj: Box::new(Expr::Ident(plain("require"))),
                prop: plain("resolveWeak"),
            }),
            args: vec![plain_str("./hello")],
        })
    );
}

#[test]
fn stringified_ids_name_id_and_chunks() {
    assert_eq!(
        stringified_ids(private("id", 4), private("chunks", 5)),
        Expr::Call(CallExpr {
            callee: Box::new(Expr::Member {
                obj: Box::new(Expr::Ident(plain("JSON"))),
                prop: plain("stringify"),
            }),
            args: vec![Expr::Object(vec![
                Prop::KeyValue {
                    key: Expr::Ident(plain("id")),
                    computed: false,
                    value: Expr::Ident(private("id", 4)),
                },
                Prop::KeyValue {
                    key: Expr::Ident(plain("chunks")),
                    computed: false,
                    value: Expr::Ident(private("chunks", 5)),
                },
            ])],
        })
    );
}

#[test]
fn pure_loader_is_an_async_function_that_calls_the_helper() {
    assert_eq!(
        pure_loader(Expr::Ident(plain("load"))),
        Expr::ArrowBlock {
            is_async: true,
            params: vec![],
            body: vec![Stmt::Expr(Expr::Call(CallExpr {
                callee: Box::new(Expr::Ident(plain("__nextjs_pure"))),
                args: vec![Expr::Ident(plain("load"))],
            }))],
        }
    );
}

#[test]
fn client_only_condition_tests_for_a_window() {
    assert_eq!(
        wrap_expr_with_client_only_cond(&Expr::Ident(plain("x"))),
        Expr::Bin {
            op: BinaryOp::LogicalAnd,
            left: Box::new(Expr::Bin {
                op: BinaryOp::NotEqEq,
                left: Box::new(Expr::Unary {
                    op: UnaryOp::TypeOf,
                    arg: Box::new(Expr::Ident(plain("window"))),
                }),
                right: Box::new(plain_str("undefined")),
            }),
            right: Box::new(Expr::Ident(plain("x"))),
        }
    );
}

#[test]
fn pure_import_names_the_helper_module() {
    assert_eq!(
        pure_import(),
        ModuleItem::Import(ImportDecl {
            specifiers: vec![ImportSpecifier::Named {
                local: plain("__nextjs_pure"),
                imported: None,
            }],
            src: Str { value: "next/dist/build/swc/helpers".to_string(), span: dummy() },
        })
    );
}

#[test]
fn import_items_are_marker_then_declaration() {
    let name = "my-transition".to_string();
    let transition = ModuleItem::Stmt(Stmt::Expr(plain_str("TURBOPACK { transition: my-transition }")));
    let no_chunking = ModuleItem::Stmt(Stmt::Expr(plain_str("TURBOPACK { chunking-type: none }")));
    let id_import = |local: Ident| {
        ModuleItem::Import(ImportDecl {
            specifiers: vec![ImportSpecifier::Named {
                local,
                imported: Some(plain("__turbopack_module_id__")),
            }],
            src: Str { value: "./m".to_string(), span: dummy() },
        })
    };
    let development_transition = import_items(
        &name,
        TurbopackImport::DevelopmentTransition {
            id_ident: private("id", 0),
            chunks_ident: private("chunks", 1),
            specifier: "./m".to_string(),
        },
    );
    assert_eq!(development_transition.0, transition);
    assert_eq!(
        development_transition.1,
        ModuleItem::Import(ImportDecl {
            specifiers: vec![
                ImportSpecifier::Default { local: private("id", 0) },
                ImportSpecifier::Named {
                    local: private("chunks", 1),
                    imported: Some(plain("chunks")),
                },
            ],
            src: Str { value: "./m".to_string(), span: dummy() },
        })
    );
    let development_id = import_items(
        &name,
        TurbopackImport::DevelopmentId { id_ident: private("id", 2), specifier: "./m".to_string() },
    );
    assert_eq!(development_id, (no_chunking, id_import(private("id", 2))));
    let build_transition = import_items(
        &name,
        TurbopackImport::BuildTransition { id_ident: private("id", 3), specifier: "./m".to_string() },
    );
    assert_eq!(build_transition.0, transition);
    assert_eq!(build_transition.1, id_import(private("id", 3)));
    let build_id = import_items(
        &name,
        TurbopackImport::BuildId { id_ident: private("id", 4), specifier: "./m".to_string() },
    );
    assert_eq!(build_id.1, id_import(private("id", 4)));
    assert_eq!(build_id.0, ModuleItem::Stmt(Stmt::Expr(plain_str("TURBOPACK { chunking-type: none }"))));
}

#[test]
fn identifier_helpers_keep_name_and_scope() {
    let ident = Ident { sym: "dynamic".to_string(), span: Span { lo: 1, hi: 8 }, ctxt: SyntaxContext::Source(7) };
    assert_eq!(ident.duplicate(), ident);
    assert_eq!(ident.to_id(), Id { sym: "dynamic".to_string(), ctxt: SyntaxContext::Source(7) });
    assert!(ident.to_id().same(&Id { sym: "dynamic".to_string(), ctxt: SyntaxContext::Source(7) }));
    assert!(!ident.to_id().same(&Id { sym: "dynamic".to_string(), ctxt: SyntaxContext::Source(8) }));
    assert!(!ident.to_id().same(&Id { sym: "dynamic".to_string(), ctxt: SyntaxContext::Private(7) }));
    assert!(!ident.to_id().same(&Id { sym: "lazy".to_string(), ctxt: SyntaxContext::Source(7) }));
    assert_eq!(Ident::plain("x"), plain("x"));
    assert_eq!(Span::dummy(), dummy());
    assert_eq!(Str::plain("s".to_string()), Str { value: "s".to_string(), span: dummy() });
}

#[test]
fn copy_of_an_expression_equals_it() {
    let build = || Expr::Other {
        tag: 9,
        exprs: vec![
            Expr::Call(CallExpr {
                callee: Box::new(Expr::Import),
                args: vec![plain_str("./a"), Expr::Null, Expr::Bool(true), Expr::Super],
            }),
            Expr::Tpl {
                exprs: vec![Expr::Ident(private("id", 3))],
                quasis: vec![
                    next_transform_dynamic::ast::TplElement { raw: "a".to_string(), span: dummy() },
                    next_transform_dynamic::ast::TplElement {
                        raw: "b".to_string(),
                        span: Span { lo: 4, hi: 5 },
                    },
                ],
            },
            Expr::Object(vec![
                Prop::KeyValue { key: plain_str("k"), computed: true, value: Expr::Array(vec![]) },
                Prop::Shorthand(plain("s")),
                Prop::Spread(Expr::Member { obj: Box::new(Expr::Ident(plain("o"))), prop: plain("p") }),
            ]),
            Expr::Arrow {
                is_async: true,
                params: vec![plain("x"), plain("y")],
                body: Box::new(Expr::Unary { op: UnaryOp::Bang, arg: Box::new(Expr::Ident(plain("x"))) }),
            },
            Expr::Bin {
                op: BinaryOp::NullishCoalescing,
                left: Box::new(Expr::Null),
                right: Box::new(Expr::ArrowBlock {
                    is_async: false,
                    params: vec![],
                    body: vec![Stmt::Block(vec![Stmt::Expr(Expr::Null)])],
                }),
            },
        ],
        stmts: vec![Stmt::Other { tag: 2, exprs: vec![Expr::Bool(false)], stmts: vec![] }],
    };
    assert_eq!(build().duplicate(), build());
}
