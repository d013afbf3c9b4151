//! What the pass computes, as mathematical functions on views.
//!
//! The state of a pass is a `PatcherView`. Every step of the pass is a
//! function from a state and a piece of syntax to the next state and the
//! rewritten syntax; the executable pass is proved to compute these functions.

use vstd::prelude::*;
use crate::ast::{
    id_of, private_ident, CallExprView, ExprView, IdView, IdentView, ImportDeclView,
    ImportSpecifierView, ModuleItemView, ModuleView, PropView, StmtView, SyntaxContext,
};
use crate::filename::{rel_filename_of, FileNameView};
use crate::state::{
    initial_state, DiagnosticView, NextDynamicModeView, SpecifierView, StateView,
    TurbopackImportView,
};
use crate::syntax::{
    import_decl_of, import_marker_of, key_value_of, module_id_options_of, module_key_of,
    pure_import_of, pure_loader_of, resolve_weak_of, stringified_ids_of, webpack_options_of,
};

verus! {

/// The state of a pass.
#[verifier::ext_equal]
pub struct PatcherView {
    pub is_development: bool,
    pub is_server: bool,
    pub is_rsc_server_layer: bool,
    /// The directory that file names in generated keys are relative to.
    pub pages_dir: Option<Seq<char>>,
    /// The file under compilation.
    pub filename: FileNameView,
    /// The identifiers that are bound to the loader, in the order in which
    /// their imports were seen.
    pub dynamic_bindings: Seq<IdView>,
    pub state: StateView,
    /// Whether some call seen so far had its loader wrapped.
    pub added_nextjs_pure_import: bool,
    /// The complaints made so far, oldest first.
    pub diagnostics: Seq<DiagnosticView>,
    /// The private identifiers made so far, oldest first.
    pub issued: Seq<IdentView>,
}

/// The state in which a pass starts.
pub open spec fn initial(
    is_development: bool,
    is_server: bool,
    is_rsc_server_layer: bool,
    mode: NextDynamicModeView,
    filename: FileNameView,
    pages_dir: Option<Seq<char>>,
) -> PatcherView {
    PatcherView {
        is_development,
        is_server,
        is_rsc_server_layer,
        pages_dir,
        filename,
        dynamic_bindings: Seq::empty(),
        state: initial_state(mode),
        added_nextjs_pure_import: false,
        diagnostics: Seq::empty(),
        issued: Seq::empty(),
    }
}

/// Every private identifier in `issued` has its place in the list as its
/// serial number.
pub open spec fn serials_in_order(issued: Seq<IdentView>) -> bool {
    forall|i: int|
        0 <= i < issued.len() ==> (#[trigger] issued[i]).ctxt == SyntaxContext::Private(i as usize)
}

// ----- Binding tracker -----

/// The module whose default export is the loader.
pub open spec fn loader_module() -> Seq<char> {
    "next/dynamic"@
}

/// The binding that a specifier makes for the default export, if it makes one.
pub open spec fn default_local(s: ImportSpecifierView) -> Option<IdView> {
    match s {
        ImportSpecifierView::Default { local } => Some(id_of(local)),
        _ => None,
    }
}

/// `default_local` as a function value.
pub open spec fn default_local_fn() -> spec_fn(ImportSpecifierView) -> Option<IdView> {
    |s: ImportSpecifierView| default_local(s)
}

/// The bindings that specifiers make for the default export of the module
/// they import from, in the order of the specifiers.
pub open spec fn default_locals(specifiers: Seq<ImportSpecifierView>) -> Seq<IdView> {
    specifiers.filter_map(default_local_fn())
}

/// The state after an import declaration was seen: where it imports the loader
/// module, the bindings of its default export are tracked from now on.
pub open spec fn track_import(p: PatcherView, decl: ImportDeclView) -> PatcherView {
    if decl.src.value == loader_module() {
        PatcherView {
            dynamic_bindings: p.dynamic_bindings + default_locals(decl.specifiers),
            ..p
        }
    } else {
        p
    }
}

// ----- Validation -----

/// The callee of `c` where the call is a call of the loader.
pub open spec fn loader_callee(p: PatcherView, c: CallExprView) -> Option<IdentView> {
    match *c.callee {
        ExprView::Ident(i) => if p.dynamic_bindings.contains(id_of(i)) {
            Some(i)
        } else {
            None
        },
        _ => None,
    }
}

pub open spec fn no_argument_message() -> Seq<char> {
    "next/dynamic requires at least one argument"@
}

pub open spec fn too_many_arguments_message() -> Seq<char> {
    "next/dynamic only accepts 2 arguments"@
}

pub open spec fn options_shape_message() -> Seq<char> {
    "next/dynamic options must be an object literal.\nRead more: https://nextjs.org/docs/messages/invalid-dynamic-options-type"@
}

/// What is wrong with the arguments of a loader call, if anything is.
pub open spec fn call_defect(c: CallExprView) -> Option<Seq<char>> {
    if c.args.len() == 0 {
        Some(no_argument_message())
    } else if c.args.len() > 2 {
        Some(too_many_arguments_message())
    } else if c.args.len() == 2 && !(c.args[1] is Object) {
        Some(options_shape_message())
    } else {
        None
    }
}

/// Whether `c` is a call of the loader with nothing wrong with its arguments.
pub open spec fn is_valid_loader_call(p: PatcherView, c: CallExprView) -> bool {
    loader_callee(p, c) is Some && call_defect(c) is None
}

// ----- Specifier capture -----

/// The specifier of a dynamic import: the call must be an `import(...)` whose
/// first argument is a string literal or a template literal without
/// interpolation.
pub open spec fn import_specifier(c: CallExprView) -> Option<SpecifierView> {
    if *c.callee is Import && c.args.len() > 0 {
        match c.args[0] {
            ExprView::Str(s) => Some(SpecifierView { value: s.value, span: s.span }),
            ExprView::Tpl { exprs, quasis } => if exprs.len() == 0 && quasis.len() > 0 {
                Some(SpecifierView { value: quasis[0].raw, span: quasis[0].span })
            } else {
                None
            },
            _ => None,
        }
    } else {
        None
    }
}

/// The specifier that is held after `e` was searched, when `found` was held
/// before: every dynamic import with a literal specifier replaces what is held,
/// a call before its own callee and arguments, and the parts of each node in
/// their order.
pub open spec fn capture_expr(found: Option<SpecifierView>, e: ExprView) -> Option<SpecifierView>
    decreases e, 0nat,
{
    match e {
        ExprView::Tpl { exprs, .. } => capture_exprs(found, exprs, exprs.len()),
        ExprView::Call(c) => capture_call(found, c),
        ExprView::Object(props) => capture_props(found, props, props.len()),
        ExprView::Array(elems) => capture_exprs(found, elems, elems.len()),
        ExprView::Arrow { body, .. } => capture_expr(found, *body),
        ExprView::ArrowBlock { body, .. } => capture_stmts(found, body, body.len()),
        ExprView::Bin { left, right, .. } => capture_expr(capture_expr(found, *left), *right),
        ExprView::Unary { arg, .. } => capture_expr(found, *arg),
        ExprView::Member { obj, .. } => capture_expr(found, *obj),
        ExprView::Other { exprs, stmts, .. } => capture_stmts(
            capture_exprs(found, exprs, exprs.len()),
            stmts,
            stmts.len(),
        ),
        _ => found,
    }
}

/// `capture_expr` over the first `n` expressions of `es`.
pub open spec fn capture_exprs(found: Option<SpecifierView>, es: Seq<ExprView>, n: nat) -> Option<
    SpecifierView,
>
    decreases es, n,
{
    if n == 0 || n > es.len() {
        found
    } else {
        capture_expr(capture_exprs(found, es, (n - 1) as nat), es[n - 1])
    }
}

/// What the search holds once it has met the call `c`, when it held `found`
/// before: the specifier of the call where it is a dynamic import with a
/// literal specifier, and `found` where it is not.
pub open spec fn note_import(found: Option<SpecifierView>, c: CallExprView) -> Option<
    SpecifierView,
> {
    let own = import_specifier(c);
    if own is Some {
        own
    } else {
        found
    }
}

/// `capture_expr` over a call: the call itself is met first, then its callee
/// is searched, then its arguments.
pub open spec fn capture_call(found: Option<SpecifierView>, c: CallExprView) -> Option<
    SpecifierView,
>
    decreases c, 0nat,
{
    capture_exprs(capture_expr(note_import(found, c), *c.callee), c.args, c.args.len())
}

pub open spec fn capture_prop(found: Option<SpecifierView>, prop: PropView) -> Option<
    SpecifierView,
>
    decreases prop, 0nat,
{
    match prop {
        PropView::KeyValue { key, computed, value } => {
            let held = if computed {
                capture_expr(found, key)
            } else {
                found
            };
            capture_expr(held, value)
        },
        PropView::Shorthand(_) => found,
        PropView::Spread(e) => capture_expr(found, e),
    }
}

/// `capture_prop` over the first `n` members of `props`.
pub open spec fn capture_props(found: Option<SpecifierView>, props: Seq<PropView>, n: nat) -> Option<
    SpecifierView,
>
    decreases props, n,
{
    if n == 0 || n > props.len() {
        found
    } else {
        capture_prop(capture_props(found, props, (n - 1) as nat), props[n - 1])
    }
}

pub open spec fn capture_stmt(found: Option<SpecifierView>, s: StmtView) -> Option<SpecifierView>
    decreases s, 0nat,
{
    match s {
        StmtView::Expr(e) => capture_expr(found, e),
        StmtView::Block(stmts) => capture_stmts(found, stmts, stmts.len()),
        StmtView::Other { exprs, stmts, .. } => capture_stmts(
            capture_exprs(found, exprs, exprs.len()),
            stmts,
            stmts.len(),
        ),
    }
}

/// `capture_stmt` over the first `n` statements of `ss`.
pub open spec fn capture_stmts(found: Option<SpecifierView>, ss: Seq<StmtView>, n: nat) -> Option<
    SpecifierView,
>
    decreases ss, n,
{
    if n == 0 || n > ss.len() {
        found
    } else {
        capture_stmt(capture_stmts(found, ss, (n - 1) as nat), ss[n - 1])
    }
}

/// The specifier of the module that the loader `loader` loads: that of the
/// last dynamic import with a literal specifier in it.
pub open spec fn find_specifier(loader: ExprView) -> Option<SpecifierView> {
    capture_expr(None, loader)
}

/// The specifier found in the first argument of `c`.
pub open spec fn loaded_specifier(c: CallExprView) -> Option<SpecifierView> {
    if c.args.len() > 0 {
        find_specifier(c.args[0])
    } else {
        None
    }
}

// ----- Metadata strategy -----

/// The state after the private identifiers `minted` were made and `import`
/// was put at the end of the queue of pending imports.
pub open spec fn enqueue(
    p: PatcherView,
    minted: Seq<IdentView>,
    import: TurbopackImportView,
) -> PatcherView {
    PatcherView {
        issued: p.issued + minted,
        state: match p.state {
            StateView::Webpack => StateView::Webpack,
            StateView::Turbopack { dynamic_transition_name, imports } => StateView::Turbopack {
                dynamic_transition_name,
                imports: imports.push(import),
            },
        },
        ..p
    }
}

/// What identifies the module that a call loads: the next state and the
/// members of the object that becomes the value of `loadableGenerated`.
pub open spec fn generate(p: PatcherView, specifier: SpecifierView) -> (
    PatcherView,
    Seq<PropView>,
) {
    match p.state {
        StateView::Webpack => {
            if p.is_development || p.is_server {
                (
                    p,
                    module_id_options_of(
                        module_key_of(rel_filename_of(p.pages_dir, p.filename), specifier.value),
                    ),
                )
            } else {
                (p, webpack_options_of(resolve_weak_of(specifier.value)))
            }
        },
        StateView::Turbopack { .. } => {
            let id = private_ident("id"@, specifier.span, p.issued.len());
            if p.is_development && p.is_server {
                let chunks = private_ident("chunks"@, specifier.span, p.issued.len() + 1);
                let import = TurbopackImportView::DevelopmentTransition {
                    id_ident: id,
                    chunks_ident: chunks,
                    specifier: specifier.value,
                };
                (
                    enqueue(p, seq![id, chunks], import),
                    module_id_options_of(stringified_ids_of(id, chunks)),
                )
            } else {
                let import = if p.is_development {
                    TurbopackImportView::DevelopmentId { id_ident: id, specifier: specifier.value }
                } else if p.is_server {
                    TurbopackImportView::BuildTransition {
                        id_ident: id,
                        specifier: specifier.value,
                    }
                } else {
                    TurbopackImportView::BuildId { id_ident: id, specifier: specifier.value }
                };
                (enqueue(p, seq![id], import), module_id_options_of(ExprView::Ident(id)))
            }
        },
    }
}

// ----- Call rewriter -----

/// Whether a member of an options object is `ssr: false`.
pub open spec fn is_ssr_false(prop: PropView) -> bool {
    &&& prop matches PropView::KeyValue { key, computed, value }
    &&& !computed
    &&& key matches ExprView::Ident(name)
    &&& name.sym == "ssr"@
    &&& value == ExprView::Bool(false)
}

/// Whether some member of an options object is `ssr: false`.
pub open spec fn has_ssr_false(props: Seq<PropView>) -> bool {
    exists|i: int| 0 <= i < props.len() && is_ssr_false(#[trigger] props[i])
}

/// The members of the options object of a call; none where the call has no
/// second argument.
pub open spec fn options_of(c: CallExprView) -> Seq<PropView> {
    if c.args.len() == 2 {
        match c.args[1] {
            ExprView::Object(props) => props,
            _ => Seq::empty(),
        }
    } else {
        Seq::empty()
    }
}

/// Whether the loader of a call is to be wrapped so that it does not run:
/// the call says `ssr: false`, the module is compiled for the server, and not
/// for the layer of server components.
pub open spec fn wraps_loader(p: PatcherView, c: CallExprView) -> bool {
    has_ssr_false(options_of(c)) && p.is_server && !p.is_rsc_server_layer
}

/// The key of the property that the pass adds to the options of a call.
pub open spec fn generated_key() -> Seq<char> {
    "loadableGenerated"@
}

/// A valid loader call with its metadata added: the options begin with
/// `loadableGenerated`, the members that were there follow in their order, and
/// the loader is wrapped where `wraps_loader` says so.
pub open spec fn annotate(p: PatcherView, c: CallExprView, specifier: SpecifierView) -> (
    PatcherView,
    CallExprView,
) {
    let (p1, generated) = generate(p, specifier);
    let meta = key_value_of(generated_key(), ExprView::Object(generated));
    let wrap = wraps_loader(p, c);
    let loader = if wrap {
        pure_loader_of(c.args[0])
    } else {
        c.args[0]
    };
    (
        PatcherView { added_nextjs_pure_import: p1.added_nextjs_pure_import || wrap, ..p1 },
        CallExprView {
            callee: c.callee,
            args: seq![loader, ExprView::Object(seq![meta] + options_of(c))],
        },
    )
}

/// The state after `message` was reported at `callee`.
pub open spec fn report(p: PatcherView, callee: IdentView, message: Seq<char>) -> PatcherView {
    PatcherView {
        diagnostics: p.diagnostics.push(DiagnosticView { span: callee.span, message }),
        ..p
    }
}

/// One call site, its parts already rewritten, with `found` the specifier
/// that was captured from its first argument:
/// * a call of anything but the loader is left as it is;
/// * a loader call with a defect is reported and left as it is;
/// * a valid loader call without a captured specifier is left as it is;
/// * any other is annotated.
pub open spec fn rewrite_call(p: PatcherView, c: CallExprView, found: Option<SpecifierView>) -> (
    PatcherView,
    CallExprView,
) {
    match loader_callee(p, c) {
        None => (p, c),
        Some(callee) => match call_defect(c) {
            Some(message) => (report(p, callee, message), c),
            None => match found {
                None => (p, c),
                Some(specifier) => annotate(p, c, specifier),
            },
        },
    }
}

// ----- Traversal -----

/// The pass over an expression: its parts are rewritten first, in their
/// order, and a call is rewritten after its callee and arguments.
pub open spec fn fold_expr(p: PatcherView, e: ExprView) -> (PatcherView, ExprView)
    decreases e, 0nat,
{
    match e {
        ExprView::Tpl { exprs, quasis } => {
            let (p1, exprs1) = fold_exprs(p, exprs, exprs.len());
            (p1, ExprView::Tpl { exprs: exprs1, quasis })
        },
        ExprView::Call(c) => {
            let (p1, c1) = fold_call_expr(p, c);
            (p1, ExprView::Call(c1))
        },
        ExprView::Object(props) => {
            let (p1, props1) = fold_props(p, props, props.len());
            (p1, ExprView::Object(props1))
        },
        ExprView::Array(elems) => {
            let (p1, elems1) = fold_exprs(p, elems, elems.len());
            (p1, ExprView::Array(elems1))
        },
        ExprView::Arrow { is_async, params, body } => {
            let (p1, body1) = fold_expr(p, *body);
            (p1, ExprView::Arrow { is_async, params, body: Box::new(body1) })
        },
        ExprView::ArrowBlock { is_async, params, body } => {
            let (p1, body1) = fold_stmts(p, body, body.len());
            (p1, ExprView::ArrowBlock { is_async, params, body: body1 })
        },
        ExprView::Bin { op, left, right } => {
            let (p1, left1) = fold_expr(p, *left);
            let (p2, right1) = fold_expr(p1, *right);
            (p2, ExprView::Bin { op, left: Box::new(left1), right: Box::new(right1) })
        },
        ExprView::Unary { op, arg } => {
            let (p1, arg1) = fold_expr(p, *arg);
            (p1, ExprView::Unary { op, arg: Box::new(arg1) })
        },
        ExprView::Member { obj, prop } => {
            let (p1, obj1) = fold_expr(p, *obj);
            (p1, ExprView::Member { obj: Box::new(obj1), prop })
        },
        ExprView::Other { tag, exprs, stmts } => {
            let (p1, exprs1) = fold_exprs(p, exprs, exprs.len());
            let (p2, stmts1) = fold_stmts(p1, stmts, stmts.len());
            (p2, ExprView::Other { tag, exprs: exprs1, stmts: stmts1 })
        },
        _ => (p, e),
    }
}

/// The pass over the first `n` expressions of `es`, one after the other.
pub open spec fn fold_exprs(p: PatcherView, es: Seq<ExprView>, n: nat) -> (
    PatcherView,
    Seq<ExprView>,
)
    decreases es, n,
{
    if n == 0 || n > es.len() {
        (p, Seq::empty())
    } else {
        let (p1, done) = fold_exprs(p, es, (n - 1) as nat);
        let (p2, e) = fold_expr(p1, es[n - 1]);
        (p2, done.push(e))
    }
}

/// The pass over a call: over its callee, then over its arguments, then over
/// the call site itself.
pub open spec fn fold_call_expr(p: PatcherView, c: CallExprView) -> (PatcherView, CallExprView)
    decreases c, 0nat,
{
    let (p1, callee) = fold_expr(p, *c.callee);
    let (p2, args) = fold_exprs(p1, c.args, c.args.len());
    let c1 = CallExprView { callee: Box::new(callee), args };
    rewrite_call(p2, c1, loaded_specifier(c1))
}

/// The pass over a member of an object literal. A key is rewritten only where
/// it is computed.
pub open spec fn fold_prop(p: PatcherView, prop: PropView) -> (PatcherView, PropView)
    decreases prop, 0nat,
{
    match prop {
        PropView::KeyValue { key, computed, value } => {
            let (p1, key1) = if computed {
                fold_expr(p, key)
            } else {
                (p, key)
            };
            let (p2, value1) = fold_expr(p1, value);
            (p2, PropView::KeyValue { key: key1, computed, value: value1 })
        },
        PropView::Shorthand(_) => (p, prop),
        PropView::Spread(e) => {
            let (p1, e1) = fold_expr(p, e);
            (p1, PropView::Spread(e1))
        },
    }
}

/// The pass over the first `n` members of `props`, one after the other.
pub open spec fn fold_props(p: PatcherView, props: Seq<PropView>, n: nat) -> (
    PatcherView,
    Seq<PropView>,
)
    decreases props, n,
{
    if n == 0 || n > props.len() {
        (p, Seq::empty())
    } else {
        let (p1, done) = fold_props(p, props, (n - 1) as nat);
        let (p2, prop) = fold_prop(p1, props[n - 1]);
        (p2, done.push(prop))
    }
}

/// The pass over a statement.
pub open spec fn fold_stmt(p: PatcherView, s: StmtView) -> (PatcherView, StmtView)
    decreases s, 0nat,
{
    match s {
        StmtView::Expr(e) => {
            let (p1, e1) = fold_expr(p, e);
            (p1, StmtView::Expr(e1))
        },
        StmtView::Block(stmts) => {
            let (p1, stmts1) = fold_stmts(p, stmts, stmts.len());
            (p1, StmtView::Block(stmts1))
        },
        StmtView::Other { tag, exprs, stmts } => {
            let (p1, exprs1) = fold_exprs(p, exprs, exprs.len());
            let (p2, stmts1) = fold_stmts(p1, stmts, stmts.len());
            (p2, StmtView::Other { tag, exprs: exprs1, stmts: stmts1 })
        },
    }
}

/// The pass over the first `n` statements of `ss`, one after the other.
pub open spec fn fold_stmts(p: PatcherView, ss: Seq<StmtView>, n: nat) -> (
    PatcherView,
    Seq<StmtView>,
)
    decreases ss, n,
{
    if n == 0 || n > ss.len() {
        (p, Seq::empty())
    } else {
        let (p1, done) = fold_stmts(p, ss, (n - 1) as nat);
        let (p2, s) = fold_stmt(p1, ss[n - 1]);
        (p2, done.push(s))
    }
}

/// The pass over an import declaration: it stays as it is, and its bindings
/// of the loader are tracked.
pub open spec fn fold_import_decl(p: PatcherView, decl: ImportDeclView) -> (
    PatcherView,
    ImportDeclView,
) {
    (track_import(p, decl), decl)
}

/// The pass over an item of a module body.
pub open spec fn fold_module_item(p: PatcherView, item: ModuleItemView) -> (
    PatcherView,
    ModuleItemView,
) {
    match item {
        ModuleItemView::Import(decl) => {
            let (p1, decl1) = fold_import_decl(p, decl);
            (p1, ModuleItemView::Import(decl1))
        },
        ModuleItemView::Stmt(s) => {
            let (p1, s1) = fold_stmt(p, s);
            (p1, ModuleItemView::Stmt(s1))
        },
    }
}

/// The pass over the first `n` items of `items`, one after the other.
pub open spec fn fold_items(p: PatcherView, items: Seq<ModuleItemView>, n: nat) -> (
    PatcherView,
    Seq<ModuleItemView>,
)
    decreases n,
{
    if n == 0 || n > items.len() {
        (p, Seq::empty())
    } else {
        let (p1, done) = fold_items(p, items, (n - 1) as nat);
        let (p2, item) = fold_module_item(p1, items[n - 1]);
        (p2, done.push(item))
    }
}

// ----- Import injector -----

/// The items that bring the pending imports into a module: for each import,
/// in the order of the queue, its marker and then its declaration.
pub open spec fn import_block(name: Seq<char>, imports: Seq<TurbopackImportView>) -> Seq<
    ModuleItemView,
> {
    Seq::new(
        2 * imports.len(),
        |i: int|
            if i % 2 == 0 {
                import_marker_of(name, imports[i / 2])
            } else {
                import_decl_of(imports[i / 2])
            },
    )
}

/// The pending imports are put before `items`, and the queue is emptied.
pub open spec fn inject_imports(p: PatcherView, items: Seq<ModuleItemView>) -> (
    PatcherView,
    Seq<ModuleItemView>,
) {
    match p.state {
        StateView::Webpack => (p, items),
        StateView::Turbopack { dynamic_transition_name, imports } => (
            PatcherView {
                state: StateView::Turbopack { dynamic_transition_name, imports: Seq::empty() },
                ..p
            },
            import_block(dynamic_transition_name, imports) + items,
        ),
    }
}

/// The pass over a list of module items: over each item, and then the imports
/// that the rewritten calls rely on are put before them.
pub open spec fn fold_module_items(p: PatcherView, items: Seq<ModuleItemView>) -> (
    PatcherView,
    Seq<ModuleItemView>,
) {
    let (p1, items1) = fold_items(p, items, items.len());
    inject_imports(p1, items1)
}

// ----- Pure-call import -----

/// The items `body` with the import of the helper before them where `p` has
/// noted that some loader was wrapped, and as they are where it has not.
pub open spec fn with_pure_import(p: PatcherView, body: Seq<ModuleItemView>) -> Seq<
    ModuleItemView,
> {
    if p.added_nextjs_pure_import {
        seq![pure_import_of()] + body
    } else {
        body
    }
}

/// The pass over a module: over its body, and then, where some loader was
/// wrapped, the import of the helper that the wrappers call is put before the
/// whole body, the imports that the pass has put there included.
pub open spec fn fold_module(p: PatcherView, m: ModuleView) -> (PatcherView, ModuleView) {
    let (p1, body) = fold_module_items(p, m.body);
    (p1, ModuleView { body: with_pure_import(p1, body) })
}

} // verus!
