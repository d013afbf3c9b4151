use next_transform_dynamic::ast::{
    BinaryOp, CallExpr, Expr, Ident, ImportDecl, ImportSpecifier, Module, ModuleItem, Prop, Span,
    Stmt, Str, SyntaxContext, TplElement,
};
use next_transform_dynamic::filename::FileName;
use next_transform_dynamic::state::{
    Diagnostic, NextDynamicPatcherState, PendingSpecifier, TurbopackImport,
};
use next_transform_dynamic::{next_dynamic, NextDynamicMode, NextDynamicPatcher};

const SPECIFIER: &str = "../components/hello";

fn dummy() -> Span {
    Span { lo: 0, hi: 0 }
}

fn specifier_span() -> Span {
    Span { lo: 70, hi: 91 }
}

fn callee_span() -> Span {
    Span { lo: 40, hi: 47 }
}

fn plain(sym: &str) -> Ident {
    Ident { sym: sym.to_string(), span: dummy(), ctxt: SyntaxContext::Source(0) }
}

fn private(sym: &str, serial: usize) -> Ident {
    Ident { sym: sym.to_string(), span: specifier_span(), ctxt: SyntaxContext::Private(serial) }
}

fn dynamic_ident() -> Ident {
    Ident { sym: "dynamic".to_string(), span: callee_span(), ctxt: SyntaxContext::Source(1) }
}

fn str_at(value: &str, span: Span) -> Expr {
    Expr::Str(Str { value: value.to_string(), span })
}

fn plain_str(value: &str) -> Expr {
    str_at(value, dummy())
}

fn import_of(specifier: &str) -> Expr {
    Expr::Call(CallExpr {
        callee: Box::new(Expr::Import),
        args: vec![str_at(specifier, specifier_span())],
    })
}

fn loader_of(specifier: &str) -> Expr {
    Expr::Arrow { is_async: false, params: vec![], body: Box::new(import_of(specifier)) }
}

fn loader() -> Expr {
    loader_of(SPECIFIER)
}

fn dynamic_call(args: Vec<Expr>) -> CallExpr {
    CallExpr { callee: Box::new(Expr::Ident(dynamic_ident())), args }
}

fn key_value(key: &str, value: Expr) -> Prop {
    Prop::KeyValue { key: Expr::Ident(plain(key)), computed: false, value }
}

fn ssr(value: bool) -> Prop {
    key_value("ssr", Expr::Bool(value))
}

fn loading() -> Prop {
    key_value("loading", Expr::Ident(plain("Spinner")))
}

fn generated(members: Vec<Prop>) -> Prop {
    key_value("loadableGenerated", Expr::Object(members))
}

fn modules(module_id: Expr) -> Vec<Prop> {
    vec![key_value("modules", Expr::Array(vec![module_id]))]
}

fn module_key(file: &str, specifier: &str) -> Expr {
    Expr::Bin {
        op: BinaryOp::Add,
        left: Box::new(plain_str(&format!("{} -> ", file))),
        right: Box::new(plain_str(specifier)),
    }
}

fn method_call(obj: &str, prop: &str, arg: Expr) -> Expr {
    Expr::Call(CallExpr {
        callee: Box::new(Expr::Member { obj: Box::new(Expr::Ident(plain(obj))), prop: plain(prop) }),
        args: vec![arg],
    })
}

fn pure_loader(loader: Expr) -> Expr {
    Expr::ArrowBlock {
        is_async: true,
        params: vec![],
        body: vec![Stmt::Expr(Expr::Call(CallExpr {
            callee: Box::new(Expr::Ident(plain("__nextjs_pure"))),
            args: vec![loader],
        }))],
    }
}

fn import_dynamic() -> ModuleItem {
    ModuleItem::Import(ImportDecl {
        specifiers: vec![ImportSpecifier::Default { local: dynamic_ident() }],
        src: Str { value: "next/dynamic".to_string(), span: Span { lo: 20, hi: 34 } },
    })
}

fn pure_import() -> ModuleItem {
    ModuleItem::Import(ImportDecl {
        specifiers: vec![ImportSpecifier::Named { local: plain("__nextjs_pure"), imported: None }],
        src: Str { value: "next/dist/build/swc/helpers".to_string(), span: dummy() },
    })
}

fn marker(text: &str) -> ModuleItem {
    ModuleItem::Stmt(Stmt::Expr(plain_str(text)))
}

fn module_id_import(local: Ident, specifier: &str) -> ModuleItem {
    ModuleItem::Import(ImportDecl {
        specifiers: vec![ImportSpecifier::Named {
            local,
            imported: Some(plain("__turbopack_module_id__")),
        }],
        src: Str { value: specifier.to_string(), span: dummy() },
    })
}

/// `const Component = <call>;`
fn declare(call: CallExpr) -> ModuleItem {
    ModuleItem::Stmt(Stmt::Other { tag: 1, exprs: vec![Expr::Call(call)], stmts: vec![] })
}

fn webpack(is_development: bool, is_server: bool, is_rsc_server_layer: bool) -> NextDynamicPatcher {
    let mut patcher = next_dynamic(
        is_development,
        is_server,
        is_rsc_server_layer,
        NextDynamicMode::Webpack,
        FileName::Real("/some-project/src/some-file.js".to_string()),
        Some("/some-project/src".to_string()),
    );
    track(&mut patcher);
    patcher
}

fn turbopack(is_development: bool, is_server: bool) -> NextDynamicPatcher {
    let mut patcher = next_dynamic(
        is_development,
        is_server,
        false,
        NextDynamicMode::Turbopack { dynamic_transition_name: "next-dynamic".to_string() },
        FileName::Real("/some-project/src/some-file.js".to_string()),
        Some("/some-project/src".to_string()),
    );
    track(&mut patcher);
    patcher
}

fn track(patcher: &mut NextDynamicPatcher) {
    match import_dynamic() {
        ModuleItem::Import(decl) => {
            patcher.fold_import_decl(decl);
        }
        _ => unreachable!(),
    }
}

fn pending(patcher: &NextDynamicPatcher) -> Vec<TurbopackImport> {
    match patcher.state() {
        NextDynamicPatcherState::Turbopack { imports, .. } => imports.clone(),
        NextDynamicPatcherState::Webpack => vec![],
    }
}

// ----- binding tracker -----

#[test]
fn default_import_of_the_loader_is_tracked() {
    let mut patcher =
        next_dynamic(true, false, false, NextDynamicMode::Webpack, FileName::Custom("x".into()), None);
    assert!(!patcher.is_tracked(&dynamic_ident()));
    track(&mut patcher);
    assert!(patcher.is_tracked(&dynamic_ident()));
}

#[test]
fn tracking_goes_by_name_and_scope() {
    let patcher = webpack(true, false, false);
    let other_scope =
        Ident { sym: "dynamic".to_string(), span: callee_span(), ctxt: SyntaxContext::Source(2) };
    let other_name =
        Ident { sym: "lazy".to_string(), span: callee_span(), ctxt: SyntaxContext::Source(1) };
    let other_place =
        Ident { sym: "dynamic".to_string(), span: dummy(), ctxt: SyntaxContext::Source(1) };
    assert!(!patcher.is_tracked(&other_scope));
    assert!(!patcher.is_tracked(&other_name));
    assert!(patcher.is_tracked(&other_place));
}

#[test]
fn named_and_namespace_imports_are_not_tracked() {
    let mut patcher =
        next_dynamic(true, false, false, NextDynamicMode::Webpack, FileName::Custom("x".into()), None);
    let named = Ident { sym: "a".to_string(), span: dummy(), ctxt: SyntaxContext::Source(1) };
    let star = Ident { sym: "b".to_string(), span: dummy(), ctxt: SyntaxContext::Source(1) };
    let first = Ident { sym: "c".to_string(), span: dummy(), ctxt: SyntaxContext::Source(1) };
    let second = Ident { sym: "d".to_string(), span: dummy(), ctxt: SyntaxContext::Source(1) };
    let decl = ImportDecl {
        specifiers: vec![
            ImportSpecifier::Default { local: first.clone() },
            ImportSpecifier::Named { local: named.clone(), imported: Some(plain("default")) },
            ImportSpecifier::Namespace { local: star.clone() },
            ImportSpecifier::Default { local: second.clone() },
        ],
        src: Str { value: "next/dynamic".to_string(), span: dummy() },
    };
    let copy = ImportDecl {
        specifiers: vec![
            ImportSpecifier::Default { local: first.clone() },
            ImportSpecifier::Named { local: named.clone(), imported: Some(plain("default")) },
            ImportSpecifier::Namespace { local: star.clone() },
            ImportSpecifier::Default { local: second.clone() },
        ],
        src: Str { value: "next/dynamic".to_string(), span: dummy() },
    };
    assert_eq!(patcher.fold_import_decl(decl), copy);
    assert!(patcher.is_tracked(&first));
    assert!(patcher.is_tracked(&second));
    assert!(!patcher.is_tracked(&named));
    assert!(!patcher.is_tracked(&star));
}

#[test]
fn imports_of_other_modules_are_not_tracked() {
    let mut patcher =
        next_dynamic(true, false, false, NextDynamicMode::Webpack, FileName::Custom("x".into()), None);
    let decl = ImportDecl {
        specifiers: vec![ImportSpecifier::Default { local: dynamic_ident() }],
        src: Str { value: "next/dynamic.js".to_string(), span: dummy() },
    };
    patcher.fold_import_decl(decl);
    assert!(!patcher.is_tracked(&dynamic_ident()));
    let call = patcher.fold_call_expr(dynamic_call(vec![loader()]));
    assert_eq!(call, dynamic_call(vec![loader()]));
}

// ----- validation -----

#[test]
fn call_without_arguments_is_reported_and_kept() {
    let mut patcher = webpack(true, false, false);
    let call = patcher.fold_call_expr(dynamic_call(vec![]));
    assert_eq!(call, dynamic_call(vec![]));
    assert_eq!(
        patcher.diagnostics(),
        &vec![Diagnostic {
            span: callee_span(),
            message: "next/dynamic requires at least one argument".to_string(),
        }]
    );
}

#[test]
fn call_with_three_arguments_is_reported_and_kept() {
    let mut patcher = webpack(true, false, false);
    let args = || vec![loader(), Expr::Object(vec![ssr(false)]), Expr::Null];
    let call = patcher.fold_call_expr(dynamic_call(args()));
    assert_eq!(call, dynamic_call(args()));
    assert_eq!(
        patcher.diagnostics(),
        &vec![Diagnostic {
            span: callee_span(),
            message: "next/dynamic only accepts 2 arguments".to_string(),
        }]
    );
    assert!(!patcher.added_nextjs_pure_import());
}

#[test]
fn options_that_are_no_object_literal_are_reported() {
    let mut patcher = webpack(true, true, false);
    let args = || vec![loader(), Expr::Ident(plain("options"))];
    let call = patcher.fold_call_expr(dynamic_call(args()));
    assert_eq!(call, dynamic_call(args()));
    assert_eq!(
        patcher.diagnostics(),
        &vec![Diagnostic {
            span: callee_span(),
            message: "next/dynamic options must be an object literal.\nRead more: https://nextjs.org/docs/messages/invalid-dynamic-options-type".to_string(),
        }]
    );
}

#[test]
fn reported_call_does_not_stop_the_pass() {
    let mut patcher = webpack(true, false, false);
    let module = Module {
        body: vec![declare(dynamic_call(vec![])), declare(dynamic_call(vec![loader()]))],
    };
    let out = patcher.fold_module(module);
    assert_eq!(out.body.len(), 2);
    assert_eq!(out.body[0], declare(dynamic_call(vec![])));
    assert_ne!(out.body[1], declare(dynamic_call(vec![loader()])));
    assert_eq!(patcher.diagnostics().len(), 1);
}

#[test]
fn diagnostics_are_handed_out_once() {
    let mut patcher = webpack(true, false, false);
    patcher.fold_call_expr(dynamic_call(vec![]));
    patcher.fold_call_expr(dynamic_call(vec![Expr::Null, Expr::Null, Expr::Null]));
    let taken = patcher.take_diagnostics();
    assert_eq!(taken.len(), 2);
    assert_eq!(taken[0].message, "next/dynamic requires at least one argument");
    assert_eq!(taken[1].message, "next/dynamic only accepts 2 arguments");
    assert!(patcher.diagnostics().is_empty());
    assert!(patcher.is_tracked(&dynamic_ident()));
}

#[test]
fn valid_loader_call_has_one_or_two_arguments() {
    let patcher = webpack(true, false, false);
    assert!(!patcher.is_valid_loader_call(&dynamic_call(vec![])));
    assert!(patcher.is_valid_loader_call(&dynamic_call(vec![loader()])));
    assert!(patcher.is_valid_loader_call(&dynamic_call(vec![loader(), Expr::Object(vec![])])));
    assert!(!patcher.is_valid_loader_call(&dynamic_call(vec![loader(), Expr::Array(vec![])])));
    assert!(!patcher.is_valid_loader_call(&dynamic_call(vec![
        loader(),
        Expr::Object(vec![]),
        Expr::Null
    ])));
    let other = CallExpr { callee: Box::new(Expr::Ident(plain("dynamic"))), args: vec![loader()] };
    assert!(!patcher.is_valid_loader_call(&other));
    let member = CallExpr {
        callee: Box::new(Expr::Member {
            obj: Box::new(Expr::Ident(dynamic_ident())),
            prop: plain("call"),
        }),
        args: vec![loader()],
    };
    assert!(!patcher.is_valid_loader_call(&member));
}

// ----- specifier capture -----

#[test]
fn computed_specifier_is_skipped_in_silence() {
    let mut patcher = webpack(true, false, false);
    let dynamic_loader = || Expr::Arrow {
        is_async: false,
        params: vec![],
        body: Box::new(Expr::Call(CallExpr {
            callee: Box::new(Expr::Import),
            args: vec![Expr::Ident(plain("path"))],
        })),
    };
    let call = patcher.fold_call_expr(dynamic_call(vec![dynamic_loader()]));
    assert_eq!(call, dynamic_call(vec![dynamic_loader()]));
    assert!(patcher.diagnostics().is_empty());
}

#[test]
fn template_without_interpolation_is_a_specifier() {
    let mut patcher = webpack(false, false, false);
    let template_loader = || Expr::Arrow {
        is_async: false,
        params: vec![],
        body: Box::new(Expr::Call(CallExpr {
            callee: Box::new(Expr::Import),
            args: vec![Expr::Tpl {
                exprs: vec![],
                quasis: vec![TplElement { raw: "./tpl".to_string(), span: specifier_span() }],
            }],
        })),
    };
    let call = patcher.fold_call_expr(dynamic_call(vec![template_loader()]));
    let expected = dynamic_call(vec![
        template_loader(),
        Expr::Object(vec![generated(vec![key_value(
            "webpack",
            Expr::Arrow {
                is_async: false,
                params: vec![],
                body: Box::new(Expr::Array(vec![method_call(
                    "require",
                    "resolveWeak",
                    plain_str("./tpl"),
                )])),
            },
        )])]),
    ]);
    assert_eq!(call, expected);
}

#[test]
fn template_with_interpolation_is_no_specifier() {
    let mut patcher = webpack(false, false, false);
    let template_loader = || Expr::Arrow {
        is_async: false,
        params: vec![],
        body: Box::new(Expr::Call(CallExpr {
            callee: Box::new(Expr::Import),
            args: vec![Expr::Tpl {
                exprs: vec![Expr::Ident(plain("name"))],
                quasis: vec![
                    TplElement { raw: "./".to_string(), span: specifier_span() },
                    TplElement { raw: "".to_string(), span: specifier_span() },
                ],
            }],
        })),
    };
    let call = patcher.fold_call_expr(dynamic_call(vec![template_loader()]));
    assert_eq!(call, dynamic_call(vec![template_loader()]));
    assert!(patcher.diagnostics().is_empty());
}

#[test]
fn import_without_arguments_is_no_specifier() {
    let call = CallExpr { callee: Box::new(Expr::Import), args: vec![] };
    assert_eq!(next_transform_dynamic::capture::import_specifier(&call), None);
    let empty = CallExpr {
        callee: Box::new(Expr::Import),
        args: vec![Expr::Tpl { exprs: vec![], quasis: vec![] }],
    };
    assert_eq!(next_transform_dynamic::capture::import_specifier(&empty), None);
    let required = CallExpr {
        callee: Box::new(Expr::Ident(plain("require"))),
        args: vec![plain_str("./a")],
    };
    assert_eq!(next_transform_dynamic::capture::import_specifier(&required), None);
}

#[test]
fn last_import_in_the_loader_wins() {
    // () => import('./a').then(() => import('./b'))
    let first = Expr::Call(CallExpr {
        callee: Box::new(Expr::Import),
        args: vec![str_at("./a", Span { lo: 1, hi: 2 })],
    });
    let second = Expr::Call(CallExpr {
        callee: Box::new(Expr::Import),
        args: vec![str_at("./b", Span { lo: 3, hi: 4 })],
    });
    let chained = Expr::Arrow {
        is_async: false,
        params: vec![],
        body: Box::new(Expr::Call(CallExpr {
            callee: Box::new(Expr::Member { obj: Box::new(first), prop: plain("then") }),
            args: vec![Expr::Arrow { is_async: false, params: vec![], body: Box::new(second) }],
        })),
    };
    assert_eq!(
        next_transform_dynamic::capture::find_specifier(&chained),
        Some(PendingSpecifier { value: "./b".to_string(), span: Span { lo: 3, hi: 4 } })
    );
}

#[test]
fn specifier_is_found_in_a_block_body() {
    // async () => { const m = await import('./a'); return m.default }
    let block = Expr::ArrowBlock {
        is_async: true,
        params: vec![],
        body: vec![
            Stmt::Other {
                tag: 7,
                exprs: vec![Expr::Other { tag: 8, exprs: vec![import_of("./a")], stmts: vec![] }],
                stmts: vec![],
            },
            Stmt::Block(vec![Stmt::Expr(Expr::Unary {
                op: next_transform_dynamic::ast::UnaryOp::Void,
                arg: Box::new(Expr::Array(vec![Expr::Object(vec![
                    Prop::Spread(Expr::Ident(plain("m"))),
                    Prop::Shorthand(plain("n")),
                ])])),
            })]),
        ],
    };
    assert_eq!(
        next_transform_dynamic::capture::find_specifier(&block),
        Some(PendingSpecifier { value: "./a".to_string(), span: specifier_span() })
    );
    assert_eq!(next_transform_dynamic::capture::find_specifier(&Expr::Ident(plain("load"))), None);
}

#[test]
fn outer_import_is_replaced_by_one_in_its_argument_list() {
    // import('./outer', import('./inner'))
    let nested = Expr::Call(CallExpr {
        callee: Box::new(Expr::Import),
        args: vec![
            str_at("./outer", Span { lo: 1, hi: 2 }),
            Expr::Call(CallExpr {
                callee: Box::new(Expr::Import),
                args: vec![str_at("./inner", Span { lo: 3, hi: 4 })],
            }),
        ],
    });
    assert_eq!(
        next_transform_dynamic::capture::find_specifier(&nested),
        Some(PendingSpecifier { value: "./inner".to_string(), span: Span { lo: 3, hi: 4 } })
    );
}

// ----- webpack mode -----

#[test]
fn webpack_development_client_gets_module_key() {
    let mut patcher = webpack(true, false, false);
    let call = patcher.fold_call_expr(dynamic_call(vec![loader()]));
    let expected = dynamic_call(vec![
        loader(),
        Expr::Object(vec![generated(modules(module_key("some-file.js", SPECIFIER)))]),
    ]);
    assert_eq!(call, expected);
    assert!(patcher.diagnostics().is_empty());
}

#[test]
fn webpack_build_server_gets_module_key() {
    let mut patcher = webpack(false, true, false);
    let call = patcher.fold_call_expr(dynamic_call(vec![loader()]));
    let expected = dynamic_call(vec![
        loader(),
        Expr::Object(vec![generated(modules(module_key("some-file.js", SPECIFIER)))]),
    ]);
    assert_eq!(call, expected);
}

#[test]
fn webpack_build_client_gets_weak_resolve() {
    let mut patcher = webpack(false, false, false);
    let call = patcher.fold_call_expr(dynamic_call(vec![loader()]));
    let expected = dynamic_call(vec![
        loader(),
        Expr::Object(vec![generated(vec![key_value(
            "webpack",
            Expr::Arrow {
                is_async: false,
                params: vec![],
                body: Box::new(Expr::Array(vec![method_call(
                    "require",
                    "resolveWeak",
                    plain_str(SPECIFIER),
                )])),
            },
        )])]),
    ]);
    assert_eq!(call, expected);
}

#[test]
fn module_key_is_relative_to_the_pages_directory() {
    let mut patcher = next_dynamic(
        true,
        true,
        false,
        NextDynamicMode::Webpack,
        FileName::Real("pages/about.js".to_string()),
        Some("pages".to_string()),
    );
    track(&mut patcher);
    let call = patcher.fold_call_expr(dynamic_call(vec![loader()]));
    match &call.args[1] {
        Expr::Object(props) => {
            assert_eq!(props, &vec![generated(modules(module_key("about.js", SPECIFIER)))]);
        }
        other => panic!("{:?}", other),
    }
}

#[test]
fn options_follow_the_generated_property_in_their_order() {
    let mut patcher = webpack(true, false, false);
    let options = || {
        vec![
            loading(),
            Prop::Spread(Expr::Ident(plain("rest"))),
            ssr(true),
            Prop::Shorthand(plain("suspense")),
        ]
    };
    let call = patcher.fold_call_expr(dynamic_call(vec![loader(), Expr::Object(options())]));
    let mut props = vec![generated(modules(module_key("some-file.js", SPECIFIER)))];
    props.extend(options());
    assert_eq!(call, dynamic_call(vec![loader(), Expr::Object(props)]));
    assert!(!patcher.added_nextjs_pure_import());
}

#[test]
fn second_pass_adds_second_generated_property() {
    let mut first = webpack(true, false, false);
    let once = first.fold_call_expr(dynamic_call(vec![loader(), Expr::Object(vec![loading()])]));
    let mut second = webpack(true, false, false);
    let twice = second.fold_call_expr(once);
    let expected = dynamic_call(vec![
        loader(),
        Expr::Object(vec![
            generated(modules(module_key("some-file.js", SPECIFIER))),
            generated(modules(module_key("some-file.js", SPECIFIER))),
            loading(),
        ]),
    ]);
    assert_eq!(twice, expected);
}

// ----- ssr: false -----

#[test]
fn ssr_false_on_the_server_wraps_the_loader() {
    let mut patcher = webpack(false, true, false);
    let call =
        patcher.fold_call_expr(dynamic_call(vec![loader(), Expr::Object(vec![ssr(false)])]));
    let expected = dynamic_call(vec![
        pure_loader(loader()),
        Expr::Object(vec![
            generated(modules(module_key("some-file.js", SPECIFIER))),
            ssr(false),
        ]),
    ]);
    assert_eq!(call, expected);
    assert!(patcher.added_nextjs_pure_import());
}

#[test]
fn ssr_false_in_the_server_component_layer_keeps_the_loader() {
    let mut patcher = webpack(false, true, true);
    let call =
        patcher.fold_call_expr(dynamic_call(vec![loader(), Expr::Object(vec![ssr(false)])]));
    let expected = dynamic_call(vec![
        loader(),
        Expr::Object(vec![
            generated(modules(module_key("some-file.js", SPECIFIER))),
            ssr(false),
        ]),
    ]);
    assert_eq!(call, expected);
    assert!(!patcher.added_nextjs_pure_import());
}

#[test]
fn ssr_false_on_the_client_keeps_the_loader() {
    let mut patcher = webpack(true, false, false);
    let call =
        patcher.fold_call_expr(dynamic_call(vec![loader(), Expr::Object(vec![ssr(false)])]));
    assert_eq!(call.args[0], loader());
    assert!(!patcher.added_nextjs_pure_import());
}

#[test]
fn only_a_plain_ssr_false_member_counts() {
    let quoted = Prop::KeyValue { key: plain_str("ssr"), computed: false, value: Expr::Bool(false) };
    let computed =
        Prop::KeyValue { key: Expr::Ident(plain("ssr")), computed: true, value: Expr::Bool(false) };
    let not_literal = key_value("ssr", Expr::Ident(plain("no")));
    let null = key_value("ssr", Expr::Null);
    let other = key_value("suspense", Expr::Bool(false));
    let props =
        vec![quoted, computed, not_literal, null, other, ssr(true), Prop::Shorthand(plain("ssr"))];
    assert!(!next_transform_dynamic::patcher::has_ssr_false(&props));
    assert!(!next_transform_dynamic::patcher::has_ssr_false(&vec![]));
    assert!(next_transform_dynamic::patcher::has_ssr_false(&vec![loading(), ssr(false)]));
    assert!(next_transform_dynamic::patcher::is_ssr_false(&ssr(false)));
    assert!(!next_transform_dynamic::patcher::is_ssr_false(&ssr(true)));
    let resolved = Prop::KeyValue {
        key: Expr::Ident(Ident {
            sym: "ssr".to_string(),
            span: Span { lo: 5, hi: 8 },
            ctxt: SyntaxContext::Source(3),
        }),
        computed: false,
        value: Expr::Bool(false),
    };
    assert!(next_transform_dynamic::patcher::is_ssr_false(&resolved));
}

#[test]
fn module_gets_the_pure_import_once() {
    let mut patcher = webpack(false, true, false);
    let site = || declare(dynamic_call(vec![loader(), Expr::Object(vec![ssr(false)])]));
    let module = Module { body: vec![import_dynamic(), site(), site()] };
    let out = patcher.fold_module(module);
    let rewritten = || {
        declare(dynamic_call(vec![
            pure_loader(loader()),
            Expr::Object(vec![
                generated(modules(module_key("some-file.js", SPECIFIER))),
                ssr(false),
            ]),
        ]))
    };
    assert_eq!(out, Module { body: vec![pure_import(), import_dynamic(), rewritten(), rewritten()] });
}

#[test]
fn module_without_wrapped_loader_gets_no_import() {
    let mut patcher = webpack(false, true, false);
    let module = Module { body: vec![import_dynamic(), declare(dynamic_call(vec![loader()]))] };
    let out = patcher.fold_module(module);
    assert_eq!(out.body.len(), 2);
    assert_eq!(out.body[0], import_dynamic());
}

#[test]
fn pure_import_goes_before_everything_in_the_module() {
    let mut patcher = next_dynamic(
        false,
        true,
        false,
        NextDynamicMode::Webpack,
        FileName::Custom("input.js".to_string()),
        Some("/pages".to_string()),
    );
    let directive = || ModuleItem::Stmt(Stmt::Expr(str_at("use client", Span { lo: 0, hi: 12 })));
    let site = declare(dynamic_call(vec![loader(), Expr::Object(vec![ssr(false)])]));
    let module = Module { body: vec![directive(), directive(), import_dynamic(), site] };
    let out = patcher.fold_module(module);
    assert_eq!(out.body.len(), 5);
    assert_eq!(out.body[0], pure_import());
    assert_eq!(out.body[1], directive());
    assert_eq!(out.body[2], directive());
    assert_eq!(out.body[3], import_dynamic());
    match &out.body[4] {
        ModuleItem::Stmt(Stmt::Other { exprs, .. }) => match &exprs[0] {
            Expr::Call(call) => match &call.args[1] {
                Expr::Object(props) => assert_eq!(
                    props[0],
                    generated(modules(module_key("input.js", SPECIFIER)))
                ),
                other => panic!("{:?}", other),
            },
            other => panic!("{:?}", other),
        },
        other => panic!("{:?}", other),
    }
}

// ----- turbopack mode -----

#[test]
fn turbopack_development_server_queues_id_and_chunks() {
    let mut patcher = turbopack(true, true);
    let call = patcher.fold_call_expr(dynamic_call(vec![loader()]));
    let key = method_call(
        "JSON",
        "stringify",
        Expr::Object(vec![
            key_value("id", Expr::Ident(private("id", 0))),
            key_value("chunks", Expr::Ident(private("chunks", 1))),
        ]),
    );
    assert_eq!(call, dynamic_call(vec![loader(), Expr::Object(vec![generated(modules(key))])]));
    assert_eq!(
        pending(&patcher),
        vec![TurbopackImport::DevelopmentTransition {
            id_ident: private("id", 0),
            chunks_ident: private("chunks", 1),
            specifier: SPECIFIER.to_string(),
        }]
    );
    assert_eq!(patcher.issued(), &vec![private("id", 0), private("chunks", 1)]);
}

#[test]
fn turbopack_development_client_queues_id() {
    let mut patcher = turbopack(true, false);
    let call = patcher.fold_call_expr(dynamic_call(vec![loader()]));
    assert_eq!(
        call,
        dynamic_call(vec![
            loader(),
            Expr::Object(vec![generated(modules(Expr::Ident(private("id", 0))))]),
        ])
    );
    assert_eq!(
        pending(&patcher),
        vec![TurbopackImport::DevelopmentId {
            id_ident: private("id", 0),
            specifier: SPECIFIER.to_string(),
        }]
    );
}

#[test]
fn turbopack_build_server_queues_id_through_transition() {
    let mut patcher = turbopack(false, true);
    let call = patcher.fold_call_expr(dynamic_call(vec![loader()]));
    assert_eq!(
        call,
        dynamic_call(vec![
            loader(),
            Expr::Object(vec![generated(modules(Expr::Ident(private("id", 0))))]),
        ])
    );
    assert_eq!(
        pending(&patcher),
        vec![TurbopackImport::BuildTransition {
            id_ident: private("id", 0),
            specifier: SPECIFIER.to_string(),
        }]
    );
}

#[test]
fn turbopack_build_client_queues_id() {
    let mut patcher = turbopack(false, false);
    let call = patcher.fold_call_expr(dynamic_call(vec![loader()]));
    assert_eq!(
        call,
        dynamic_call(vec![
            loader(),
            Expr::Object(vec![generated(modules(Expr::Ident(private("id", 0))))]),
        ])
    );
    assert_eq!(
        pending(&patcher),
        vec![TurbopackImport::BuildId {
            id_ident: private("id", 0),
            specifier: SPECIFIER.to_string(),
        }]
    );
}

#[test]
fn turbopack_imports_come_first_in_call_site_order() {
    let mut patcher = turbopack(false, true);
    let module = Module {
        body: vec![
            import_dynamic(),
            declare(dynamic_call(vec![loader_of("./a")])),
            declare(dynamic_call(vec![loader_of("./b")])),
        ],
    };
    let out = patcher.fold_module(module);
    let rewritten = |specifier: &str, serial: usize| {
        declare(dynamic_call(vec![
            loader_of(specifier),
            Expr::Object(vec![generated(modules(Expr::Ident(private("id", serial))))]),
        ]))
    };
    assert_eq!(
        out,
        Module {
            body: vec![
                marker("TURBOPACK { transition: next-dynamic }"),
                module_id_import(private("id", 0), "./a"),
                marker("TURBOPACK { transition: next-dynamic }"),
                module_id_import(private("id", 1), "./b"),
                import_dynamic(),
                rewritten("./a", 0),
                rewritten("./b", 1),
            ],
        }
    );
    assert_eq!(pending(&patcher), vec![]);
    assert_eq!(patcher.issued().len(), 2);
}

#[test]
fn turbopack_development_server_import_binds_id_and_chunks() {
    let mut patcher = turbopack(true, true);
    let module = Module { body: vec![import_dynamic(), declare(dynamic_call(vec![loader()]))] };
    let out = patcher.fold_module(module);
    assert_eq!(out.body.len(), 4);
    assert_eq!(out.body[0], marker("TURBOPACK { transition: next-dynamic }"));
    assert_eq!(
        out.body[1],
        ModuleItem::Import(ImportDecl {
            specifiers: vec![
                ImportSpecifier::Default { local: private("id", 0) },
                ImportSpecifier::Named {
                    local: private("chunks", 1),
                    imported: Some(plain("chunks")),
                },
            ],
            src: Str { value: SPECIFIER.to_string(), span: dummy() },
        })
    );
    assert_eq!(out.body[2], import_dynamic());
}

#[test]
fn turbopack_client_import_is_kept_out_of_chunking() {
    for is_development in [true, false] {
        let mut patcher = turbopack(is_development, false);
        let mut items = vec![declare(patcher.fold_call_expr(dynamic_call(vec![loader()])))];
        let kept = declare(dynamic_call(vec![
            loader(),
            Expr::Object(vec![generated(modules(Expr::Ident(private("id", 0))))]),
        ]));
        patcher.maybe_add_dynamically_imported_specifier(&mut items);
        assert_eq!(
            items,
            vec![
                marker("TURBOPACK { chunking-type: none }"),
                module_id_import(private("id", 0), SPECIFIER),
                kept,
            ]
        );
        assert_eq!(pending(&patcher), vec![]);
        patcher.maybe_add_dynamically_imported_specifier(&mut items);
        assert_eq!(items.len(), 3);
    }
}

#[test]
fn injection_does_nothing_in_webpack_mode() {
    let mut patcher = webpack(true, true, false);
    let mut items = vec![declare(patcher.fold_call_expr(dynamic_call(vec![loader()])))];
    patcher.maybe_add_dynamically_imported_specifier(&mut items);
    assert_eq!(items.len(), 1);
    assert_eq!(patcher.state(), &NextDynamicPatcherState::Webpack);
    assert!(patcher.issued().is_empty());
}

#[test]
fn private_identifiers_of_one_pass_differ() {
    let mut patcher = turbopack(true, true);
    patcher.fold_call_expr(dynamic_call(vec![loader()]));
    patcher.fold_call_expr(dynamic_call(vec![loader()]));
    patcher.fold_call_expr(dynamic_call(vec![loader()]));
    let issued = patcher.issued();
    assert_eq!(issued.len(), 6);
    for i in 0..issued.len() {
        assert_eq!(issued[i].ctxt, SyntaxContext::Private(i));
        for j in 0..i {
            assert_ne!(issued[i].to_id(), issued[j].to_id());
        }
    }
    assert_eq!(pending(&patcher).len(), 3);
}

#[test]
fn turbopack_with_wrapped_loader_keeps_each_marker_next_to_its_import() {
    let mut patcher = turbopack(false, true);
    let site = || declare(dynamic_call(vec![loader(), Expr::Object(vec![ssr(false)])]));
    let out = patcher.fold_module(Module { body: vec![import_dynamic(), site()] });
    let rewritten = declare(dynamic_call(vec![
        pure_loader(loader()),
        Expr::Object(vec![generated(modules(Expr::Ident(private("id", 0)))), ssr(false)]),
    ]));
    assert_eq!(
        out,
        Module {
            body: vec![
                pure_import(),
                marker("TURBOPACK { transition: next-dynamic }"),
                module_id_import(private("id", 0), SPECIFIER),
                import_dynamic(),
                rewritten,
            ],
        }
    );
}

#[test]
fn module_of_directives_alone_stays_as_it_is() {
    let mut patcher = webpack(false, true, false);
    let directive = || marker("use strict");
    let out = patcher.fold_module(Module { body: vec![directive(), directive()] });
    assert_eq!(out, Module { body: vec![directive(), directive()] });
}

// ----- traversal -----

#[test]
fn calls_are_found_wherever_they_stand() {
    let mut patcher = webpack(false, false, false);
    let site = || Expr::Call(dynamic_call(vec![loader()]));
    let rewritten = || {
        Expr::Call(dynamic_call(vec![
            loader(),
            Expr::Object(vec![generated(vec![key_value(
                "webpack",
                Expr::Arrow {
                    is_async: false,
                    params: vec![],
                    body: Box::new(Expr::Array(vec![method_call(
                        "require",
                        "resolveWeak",
                        plain_str(SPECIFIER),
                    )])),
                },
            )])]),
        ]))
    };
    let build = |leaf: &dyn Fn() -> Expr| {
        Stmt::Block(vec![
            Stmt::Expr(Expr::Array(vec![leaf(), Expr::Null])),
            Stmt::Expr(Expr::Object(vec![
                Prop::KeyValue { key: leaf(), computed: true, value: leaf() },
                Prop::Spread(leaf()),
                Prop::Shorthand(plain("x")),
            ])),
            Stmt::Expr(Expr::Bin {
                op: BinaryOp::LogicalOr,
                left: Box::new(leaf()),
                right: Box::new(Expr::Unary {
                    op: next_transform_dynamic::ast::UnaryOp::Bang,
                    arg: Box::new(leaf()),
                }),
            }),
            Stmt::Expr(Expr::Member { obj: Box::new(leaf()), prop: plain("displayName") }),
            Stmt::Expr(Expr::Tpl {
                exprs: vec![leaf()],
                quasis: vec![
                    TplElement { raw: "a".to_string(), span: dummy() },
                    TplElement { raw: "b".to_string(), span: dummy() },
                ],
            }),
            Stmt::Expr(Expr::Arrow { is_async: false, params: vec![plain("p")], body: Box::new(leaf()) }),
            Stmt::Expr(Expr::ArrowBlock {
                is_async: true,
                params: vec![],
                body: vec![Stmt::Other { tag: 3, exprs: vec![leaf()], stmts: vec![Stmt::Expr(leaf())] }],
            }),
            Stmt::Expr(Expr::Other { tag: 4, exprs: vec![leaf()], stmts: vec![Stmt::Expr(leaf())] }),
            Stmt::Expr(Expr::Call(CallExpr {
                callee: Box::new(Expr::Member { obj: Box::new(leaf()), prop: plain("then") }),
                args: vec![leaf()],
            })),
        ])
    };
    let out = patcher.fold_stmt(build(&site));
    assert_eq!(out, build(&rewritten));
}

#[test]
fn a_name_that_is_no_computed_key_is_not_rewritten() {
    let mut patcher = webpack(false, false, false);
    let object = || {
        Expr::Object(vec![Prop::KeyValue {
            key: Expr::Call(dynamic_call(vec![loader()])),
            computed: false,
            value: Expr::Null,
        }])
    };
    assert_eq!(patcher.fold_expr(object()), object());
}

#[test]
fn inner_call_in_the_options_is_rewritten_before_the_outer() {
    let mut patcher = turbopack(false, false);
    let inner = dynamic_call(vec![loader_of("./inner")]);
    let outer = dynamic_call(vec![
        loader_of("./outer"),
        Expr::Object(vec![key_value("loading", Expr::Call(inner))]),
    ]);
    let out = patcher.fold_call_expr(outer);
    let inner_out = dynamic_call(vec![
        loader_of("./inner"),
        Expr::Object(vec![generated(modules(Expr::Ident(private("id", 0))))]),
    ]);
    let expected = dynamic_call(vec![
        loader_of("./outer"),
        Expr::Object(vec![
            generated(modules(Expr::Ident(private("id", 1)))),
            key_value("loading", Expr::Call(inner_out)),
        ]),
    ]);
    assert_eq!(out, expected);
    assert_eq!(
        pending(&patcher),
        vec![
            TurbopackImport::BuildId { id_ident: private("id", 0), specifier: "./inner".to_string() },
            TurbopackImport::BuildId { id_ident: private("id", 1), specifier: "./outer".to_string() },
        ]
    );
}

#[test]
fn rewrite_call_takes_the_specifier_it_is_given() {
    let mut patcher = webpack(true, false, false);
    let opaque = || Expr::Other { tag: 42, exprs: vec![], stmts: vec![] };
    let found = Some(PendingSpecifier { value: "./given".to_string(), span: specifier_span() });
    let out = patcher.rewrite_call(dynamic_call(vec![opaque()]), found);
    assert_eq!(
        out,
        dynamic_call(vec![
            opaque(),
            Expr::Object(vec![generated(modules(module_key("some-file.js", "./given")))]),
        ])
    );
    let kept = patcher.rewrite_call(dynamic_call(vec![opaque()]), None);
    assert_eq!(kept, dynamic_call(vec![opaque()]));
    let other = CallExpr { callee: Box::new(Expr::Ident(plain("lazy"))), args: vec![] };
    let found = Some(PendingSpecifier { value: "./given".to_string(), span: specifier_span() });
    assert_eq!(
        patcher.rewrite_call(other, found),
        CallExpr { callee: Box::new(Expr::Ident(plain("lazy"))), args: vec![] }
    );
    assert!(patcher.diagnostics().is_empty());
}

#[test]
fn empty_module_stays_empty() {
    let mut patcher = turbopack(true, true);
    assert_eq!(patcher.fold_module(Module { body: vec![] }), Module { body: vec![] });
    assert_eq!(patcher.fold_module_items(vec![]), vec![]);
}

#[test]
fn a_literal_import_replaces_what_the_search_holds() {
    let held = Some(PendingSpecifier { value: "./held".to_string(), span: Span { lo: 1, hi: 2 } });
    let import = match import_of("./met") {
        Expr::Call(call) => call,
        other => panic!("{:?}", other),
    };
    assert_eq!(
        next_transform_dynamic::capture::note_import(held.clone(), &import),
        Some(PendingSpecifier { value: "./met".to_string(), span: specifier_span() })
    );
    assert_eq!(next_transform_dynamic::capture::note_import(None, &dynamic_call(vec![])), None);
    assert_eq!(
        next_transform_dynamic::capture::note_import(held.clone(), &dynamic_call(vec![loader()])),
        held
    );
}

#[test]
fn helper_import_is_added_only_where_a_loader_was_wrapped() {
    let mut patcher = webpack(false, true, false);
    let mut body = vec![marker("use strict"), import_dynamic()];
    patcher.add_pure_import(&mut body);
    assert_eq!(body, vec![marker("use strict"), import_dynamic()]);
    patcher.fold_call_expr(dynamic_call(vec![loader(), Expr::Object(vec![ssr(false)])]));
    patcher.add_pure_import(&mut body);
    assert_eq!(body, vec![pure_import(), marker("use strict"), import_dynamic()]);
    let mut empty: Vec<ModuleItem> = vec![];
    patcher.add_pure_import(&mut empty);
    assert_eq!(empty, vec![pure_import()]);
}
