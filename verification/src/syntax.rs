//! The pieces of syntax that the pass writes into a module.

use vstd::prelude::*;
use vstd::string::StringExecFns;
use crate::ast::{
    expr_view, exprs_view, idents_view, lemma_props_view_push, plain_ident, plain_str, props_view,
    stmts_view, BinaryOp, CallExpr, CallExprView, Expr, ExprView, Ident, IdentView, ImportDecl,
    ImportDeclView, ImportSpecifier, ImportSpecifierView, ModuleItem, ModuleItemView, Prop,
    PropView, Stmt, StmtView, Str, UnaryOp,
};
use crate::state::{TurbopackImport, TurbopackImportView};

verus! {

/// The property `key: value`.
pub open spec fn key_value_of(key: Seq<char>, value: ExprView) -> PropView {
    PropView::KeyValue { key: ExprView::Ident(plain_ident(key)), computed: false, value }
}

/// The call `obj.prop(arg)`.
pub open spec fn method_call_of(obj: Seq<char>, prop: Seq<char>, arg: ExprView) -> ExprView {
    ExprView::Call(
        CallExprView {
            callee: Box::new(
                ExprView::Member {
                    obj: Box::new(ExprView::Ident(plain_ident(obj))),
                    prop: plain_ident(prop),
                },
            ),
            args: seq![arg],
        },
    )
}

/// `modules: [module_id]`
pub open spec fn module_id_options_of(module_id: ExprView) -> Seq<PropView> {
    seq![key_value_of("modules"@, ExprView::Array(seq![module_id]))]
}

/// `webpack: () => [module_id]`
pub open spec fn webpack_options_of(module_id: ExprView) -> Seq<PropView> {
    seq![
        key_value_of(
            "webpack"@,
            ExprView::Arrow {
                is_async: false,
                params: Seq::empty(),
                body: Box::new(ExprView::Array(seq![module_id])),
            },
        ),
    ]
}

/// `"{rel_filename} -> " + "{specifier}"`
pub open spec fn module_key_of(rel_filename: Seq<char>, specifier: Seq<char>) -> ExprView {
    ExprView::Bin {
        op: BinaryOp::Add,
        left: Box::new(ExprView::Str(plain_str(rel_filename + " -> "@))),
        right: Box::new(ExprView::Str(plain_str(specifier))),
    }
}

/// `require.resolveWeak("{specifier}")`
pub open spec fn resolve_weak_of(specifier: Seq<char>) -> ExprView {
    method_call_of("require"@, "resolveWeak"@, ExprView::Str(plain_str(specifier)))
}

/// `JSON.stringify({ id: id, chunks: chunks })`
pub open spec fn stringified_ids_of(id: IdentView, chunks: IdentView) -> ExprView {
    method_call_of(
        "JSON"@,
        "stringify"@,
        ExprView::Object(
            seq![
                key_value_of("id"@, ExprView::Ident(id)),
                key_value_of("chunks"@, ExprView::Ident(chunks)),
            ],
        ),
    )
}

/// `async () => { __nextjs_pure(loader) }`
pub open spec fn pure_loader_of(loader: ExprView) -> ExprView {
    ExprView::ArrowBlock {
        is_async: true,
        params: Seq::empty(),
        body: seq![
            StmtView::Expr(
                ExprView::Call(
                    CallExprView {
                        callee: Box::new(ExprView::Ident(plain_ident("__nextjs_pure"@))),
                        args: seq![loader],
                    },
                ),
            ),
        ],
    }
}

/// `typeof window !== "undefined" && wrapped`
pub open spec fn client_only_of(wrapped: ExprView) -> ExprView {
    ExprView::Bin {
        op: BinaryOp::LogicalAnd,
        left: Box::new(
            ExprView::Bin {
                op: BinaryOp::NotEqEq,
                left: Box::new(
                    ExprView::Unary {
                        op: UnaryOp::TypeOf,
                        arg: Box::new(ExprView::Ident(plain_ident("window"@))),
                    },
                ),
                right: Box::new(ExprView::Str(plain_str("undefined"@))),
            },
        ),
        right: Box::new(wrapped),
    }
}

/// `import { __nextjs_pure } from 'next/dist/build/swc/helpers';`
pub open spec fn pure_import_of() -> ModuleItemView {
    ModuleItemView::Import(
        ImportDeclView {
            specifiers: seq![
                ImportSpecifierView::Named {
                    local: plain_ident("__nextjs_pure"@),
                    imported: None,
                },
            ],
            src: plain_str("next/dist/build/swc/helpers"@),
        },
    )
}

/// The text of the marker that sends the import after it through the
/// transition `name`.
pub open spec fn transition_marker(name: Seq<char>) -> Seq<char> {
    "TURBOPACK { transition: "@ + name + " }"@
}

/// The text of the marker that keeps the import after it out of chunking.
pub open spec fn chunking_marker() -> Seq<char> {
    "TURBOPACK { chunking-type: none }"@
}

/// The statement that consists of the string literal `text`.
pub open spec fn marker_of(text: Seq<char>) -> ModuleItemView {
    ModuleItemView::Stmt(StmtView::Expr(ExprView::Str(plain_str(text))))
}

/// The marker that goes before the import of `import`.
pub open spec fn import_marker_of(name: Seq<char>, import: TurbopackImportView) -> ModuleItemView {
    match import {
        TurbopackImportView::DevelopmentTransition { .. } => marker_of(transition_marker(name)),
        TurbopackImportView::DevelopmentId { .. } => marker_of(chunking_marker()),
        TurbopackImportView::BuildTransition { .. } => marker_of(transition_marker(name)),
        TurbopackImportView::BuildId { .. } => marker_of(chunking_marker()),
    }
}

/// `import { __turbopack_module_id__ as id_ident } from "{specifier}";`
pub open spec fn module_id_import_of(id_ident: IdentView, specifier: Seq<char>) -> ModuleItemView {
    ModuleItemView::Import(
        ImportDeclView {
            specifiers: seq![
                ImportSpecifierView::Named {
                    local: id_ident,
                    imported: Some(plain_ident("__turbopack_module_id__"@)),
                },
            ],
            src: plain_str(specifier),
        },
    )
}

/// The import declaration for `import`: for the id together with the chunks,
/// `import id_ident, { chunks as chunks_ident } from "{specifier}";`
/// and for the id alone the import of `module_id_import_of`.
pub open spec fn import_decl_of(import: TurbopackImportView) -> ModuleItemView {
    match import {
        TurbopackImportView::DevelopmentTransition { id_ident, chunks_ident, specifier } => {
            ModuleItemView::Import(
                ImportDeclView {
                    specifiers: seq![
                        ImportSpecifierView::Default { local: id_ident },
                        ImportSpecifierView::Named {
                            local: chunks_ident,
                            imported: Some(plain_ident("chunks"@)),
                        },
                    ],
                    src: plain_str(specifier),
                },
            )
        },
        TurbopackImportView::DevelopmentId { id_ident, specifier } => module_id_import_of(
            id_ident,
            specifier,
        ),
        TurbopackImportView::BuildTransition { id_ident, specifier } => module_id_import_of(
            id_ident,
            specifier,
        ),
        TurbopackImportView::BuildId { id_ident, specifier } => module_id_import_of(
            id_ident,
            specifier,
        ),
    }
}

/// The list that holds `e` alone.
pub fn one_expr(e: Expr) -> (v: Vec<Expr>)
    ensures
        exprs_view(v@) == seq![e@],
{
    let mut v: Vec<Expr> = Vec::new();
    v.push(e);
    v
}

/// The list that holds `p` alone.
pub fn one_prop(p: Prop) -> (v: Vec<Prop>)
    ensures
        props_view(v@) == seq![p@],
{
    let mut v: Vec<Prop> = Vec::new();
    v.push(p);
    v
}

/// The list that holds `s` alone.
pub fn one_stmt(s: Stmt) -> (v: Vec<Stmt>)
    ensures
        stmts_view(v@) == seq![s@],
{
    let mut v: Vec<Stmt> = Vec::new();
    v.push(s);
    v
}

/// The property `key: value`.
pub fn key_value(key: &str, value: Expr) -> (p: Prop)
    ensures
        p@ == key_value_of(key@, value@),
{
    Prop::KeyValue { key: Expr::Ident(Ident::plain(key)), computed: false, value }
}

/// The call `obj.prop(arg)`.
pub fn method_call(obj: &str, prop: &str, arg: Expr) -> (e: Expr)
    ensures
        e@ == method_call_of(obj@, prop@, arg@),
{
    proof {
        reveal_with_fuel(expr_view, 4);
    }
    let callee = Expr::Member {
        obj: Box::new(Expr::Ident(Ident::plain(obj))),
        prop: Ident::plain(prop),
    };
    Expr::Call(CallExpr { callee: Box::new(callee), args: one_expr(arg) })
}

/// The properties that identify a module by `module_id`:
/// `modules: [module_id]`.
pub fn module_id_options(module_id: Expr) -> (props: Vec<Prop>)
    ensures
        props_view(props@) == module_id_options_of(module_id@),
{
    one_prop(key_value("modules", Expr::Array(one_expr(module_id))))
}

/// The properties that identify a module by what `module_id` resolves to when
/// the call runs: `webpack: () => [module_id]`.
pub fn webpack_options(module_id: Expr) -> (props: Vec<Prop>)
    ensures
        props_view(props@) == webpack_options_of(module_id@),
{
    proof {
        reveal_with_fuel(expr_view, 4);
    }
    let params: Vec<Ident> = Vec::new();
    assert(idents_view(params@) =~= Seq::empty());
    let arrow = Expr::Arrow {
        is_async: false,
        params,
        body: Box::new(Expr::Array(one_expr(module_id))),
    };
    one_prop(key_value("webpack", arrow))
}

/// The key of a module in the manifest of loadable modules:
/// `"{rel_filename} -> " + "{specifier}"`.
pub fn module_key(rel_filename: String, specifier: String) -> (e: Expr)
    ensures
        e@ == module_key_of(rel_filename@, specifier@),
{
    proof {
        reveal_with_fuel(expr_view, 4);
    }
    let left = rel_filename.concat(" -> ");
    Expr::Bin {
        op: BinaryOp::Add,
        left: Box::new(Expr::Str(Str::plain(left))),
        right: Box::new(Expr::Str(Str::plain(specifier))),
    }
}

/// `require.resolveWeak("{specifier}")`
pub fn resolve_weak(specifier: String) -> (e: Expr)
    ensures
        e@ == resolve_weak_of(specifier@),
{
    method_call("require", "resolveWeak", Expr::Str(Str::plain(specifier)))
}

/// `JSON.stringify({ id: id, chunks: chunks })`
pub fn stringified_ids(id: Ident, chunks: Ident) -> (e: Expr)
    ensures
        e@ == stringified_ids_of(id@, chunks@),
{
    let first = key_value("id", Expr::Ident(id));
    let second = key_value("chunks", Expr::Ident(chunks));
    let mut props = one_prop(first);
    proof {
        lemma_props_view_push(props@, second);
        assert(seq![first@].push(second@) =~= seq![first@, second@]);
    }
    props.push(second);
    method_call("JSON", "stringify", Expr::Object(props))
}

/// Wraps a loader so that it stays in the module but is never run:
/// `async () => { __nextjs_pure(loader) }`. The call of the helper has no
/// effect of its own, so the whole wrapper can be dropped from a bundle.
pub fn pure_loader(loader: Expr) -> (e: Expr)
    ensures
        e@ == pure_loader_of(loader@),
{
    let callee = Expr::Ident(Ident::plain("__nextjs_pure"));
    let call = CallExpr { callee: Box::new(callee), args: one_expr(loader) };
    let stmt = Stmt::Expr(Expr::Call(call));
    assert(stmt@ == StmtView::Expr(ExprView::Call(call@)));
    let params: Vec<Ident> = Vec::new();
    Expr::ArrowBlock { is_async: true, params, body: one_stmt(stmt) }
}

/// Makes an expression that is only evaluated in a browser:
/// `typeof window !== "undefined" && wrapped_expr`.
pub fn wrap_expr_with_client_only_cond(wrapped_expr: &Expr) -> (e: Expr)
    ensures
        e@ == client_only_of(wrapped_expr@),
{
    proof {
        reveal_with_fuel(expr_view, 4);
    }
    let typeof_expr = Expr::Unary {
        op: UnaryOp::TypeOf,
        arg: Box::new(Expr::Ident(Ident::plain("window"))),
    };
    let undefined_literal = Expr::Str(Str::plain("undefined".to_owned()));
    let inequality_expr = Expr::Bin {
        op: BinaryOp::NotEqEq,
        left: Box::new(typeof_expr),
        right: Box::new(undefined_literal),
    };
    Expr::Bin {
        op: BinaryOp::LogicalAnd,
        left: Box::new(inequality_expr),
        right: Box::new(wrapped_expr.duplicate()),
    }
}

/// The import of the helper that `pure_loader` calls.
pub fn pure_import() -> (item: ModuleItem)
    ensures
        item@ == pure_import_of(),
{
    let mut specifiers: Vec<ImportSpecifier> = Vec::new();
    specifiers.push(
        ImportSpecifier::Named { local: Ident::plain("__nextjs_pure"), imported: None },
    );
    let decl = ImportDecl {
        specifiers,
        src: Str::plain("next/dist/build/swc/helpers".to_owned()),
    };
    ModuleItem::Import(decl)
}

/// The statement that consists of the string literal `text`.
pub fn marker(text: String) -> (item: ModuleItem)
    ensures
        item@ == marker_of(text@),
{
    ModuleItem::Stmt(Stmt::Expr(Expr::Str(Str::plain(text))))
}

/// The marker that sends the next import through the transition `name`.
pub fn transition_marker_item(name: &String) -> (item: ModuleItem)
    ensures
        item@ == marker_of(transition_marker(name@)),
{
    let text = "TURBOPACK { transition: ".to_owned().concat(name.as_str()).concat(" }");
    marker(text)
}

/// The marker that keeps the next import out of chunking.
pub fn chunking_marker_item() -> (item: ModuleItem)
    ensures
        item@ == marker_of(chunking_marker()),
{
    marker("TURBOPACK { chunking-type: none }".to_owned())
}

/// `import { __turbopack_module_id__ as id_ident } from "{specifier}";`
/// The bundler puts the id of the imported module in place of the imported
/// name.
pub fn module_id_import(id_ident: Ident, specifier: String) -> (item: ModuleItem)
    ensures
        item@ == module_id_import_of(id_ident@, specifier@),
{
    let mut specifiers: Vec<ImportSpecifier> = Vec::new();
    specifiers.push(
        ImportSpecifier::Named {
            local: id_ident,
            imported: Some(Ident::plain("__turbopack_module_id__")),
        },
    );
    let decl = ImportDecl { specifiers, src: Str::plain(specifier) };
    ModuleItem::Import(decl)
}

/// The two items that bring `import` into a module: its marker, then its
/// import declaration.
pub fn import_items(name: &String, import: TurbopackImport) -> (items: (ModuleItem, ModuleItem))
    ensures
        items.0@ == import_marker_of(name@, import@),
        items.1@ == import_decl_of(import@),
{
    match import {
        TurbopackImport::DevelopmentTransition { id_ident, chunks_ident, specifier } => {
            let mut specifiers: Vec<ImportSpecifier> = Vec::new();
            specifiers.push(ImportSpecifier::Default { local: id_ident });
            specifiers.push(
                ImportSpecifier::Named {
                    local: chunks_ident,
                    imported: Some(Ident::plain("chunks")),
                },
            );
            let decl = ImportDecl { specifiers, src: Str::plain(specifier) };
            (transition_marker_item(name), ModuleItem::Import(decl))
        },
        TurbopackImport::DevelopmentId { id_ident, specifier } => {
            (chunking_marker_item(), module_id_import(id_ident, specifier))
        },
        TurbopackImport::BuildTransition { id_ident, specifier } => {
            (transition_marker_item(name), module_id_import(id_ident, specifier))
        },
        TurbopackImport::BuildId { id_ident, specifier } => {
            (chunking_marker_item(), module_id_import(id_ident, specifier))
        },
    }
}

} // verus!
