//! What holds of the pass on every input.
//!
//! Each law is a theorem about the functions of `model`, which the executable
//! pass is proved to compute.

use vstd::prelude::*;
use crate::ast::{
    CallExprView, ExprView, IdView, IdentView, ImportSpecifierView, ModuleItemView, ModuleView,
    PropView, StmtView, SyntaxContext,
};
use crate::filename::{diff_paths_result, display, rel_filename_of, FileNameView};
use crate::model::{
    call_defect, capture_call, capture_expr, capture_exprs, capture_prop, capture_props,
    capture_stmt, capture_stmts, find_specifier, fold_call_expr, fold_expr, fold_exprs,
    fold_module, fold_module_items, fold_prop, fold_props, fold_stmt, fold_stmts, generate,
    generated_key, has_ssr_false, import_block, import_specifier, inject_imports,
    is_valid_loader_call, loader_callee, no_argument_message, options_of, options_shape_message,
    report, rewrite_call, serials_in_order, too_many_arguments_message, PatcherView,
};
use crate::state::{SpecifierView, StateView, TurbopackImportView};
use crate::syntax::{
    import_decl_of, import_marker_of, key_value_of, module_key_of, pure_import_of,
    pure_loader_of, resolve_weak_of,
};

verus! {

// ----- Validation -----

/// A loader call without arguments, or with more than two, is left as it is,
/// and exactly one complaint is made about it, at its callee.
pub proof fn law_wrong_arity_is_reported(
    p: PatcherView,
    c: CallExprView,
    found: Option<SpecifierView>,
)
    requires
        loader_callee(p, c) is Some,
        c.args.len() == 0 || c.args.len() > 2,
    ensures
        rewrite_call(p, c, found).1 == c,
        rewrite_call(p, c, found).0 == report(
            p,
            loader_callee(p, c)->0,
            if c.args.len() == 0 {
                no_argument_message()
            } else {
                too_many_arguments_message()
            },
        ),
        rewrite_call(p, c, found).0.diagnostics.len() == p.diagnostics.len() + 1,
{
}

/// A loader call with two arguments of which the second is no object literal
/// is left as it is, and exactly one complaint is made about it, at its
/// callee.
pub proof fn law_options_shape_is_reported(
    p: PatcherView,
    c: CallExprView,
    found: Option<SpecifierView>,
)
    requires
        loader_callee(p, c) is Some,
        c.args.len() == 2,
        !(c.args[1] is Object),
    ensures
        rewrite_call(p, c, found).1 == c,
        rewrite_call(p, c, found).0 == report(p, loader_callee(p, c)->0, options_shape_message()),
        rewrite_call(p, c, found).0.diagnostics.len() == p.diagnostics.len() + 1,
{
}

/// A call of anything but the loader, and a valid loader call in whose first
/// argument no specifier is found, are left as they are, and so is the state.
pub proof fn law_other_calls_are_kept(p: PatcherView, c: CallExprView, found: Option<SpecifierView>)
    requires
        loader_callee(p, c) is None || (call_defect(c) is None && found is None),
    ensures
        rewrite_call(p, c, found) == (p, c),
{
}

// ----- Metadata strategy -----

/// In `Webpack` mode, in development or on the server, the generated member
/// is `modules: ["{file} -> " + "{specifier}"]`, where the file is the one
/// under compilation relative to the pages directory. The state stays as it
/// is.
pub proof fn law_webpack_key(p: PatcherView, specifier: SpecifierView)
    requires
        p.state is Webpack,
        p.is_development || p.is_server,
    ensures
        generate(p, specifier).0 == p,
        generate(p, specifier).1 == seq![
            key_value_of(
                "modules"@,
                ExprView::Array(
                    seq![
                        module_key_of(rel_filename_of(p.pages_dir, p.filename), specifier.value),
                    ],
                ),
            ),
        ],
{
}

/// In `Webpack` mode, in a client build, the generated member is
/// `webpack: () => [require.resolveWeak("{specifier}")]`, a function without
/// parameters. The state stays as it is.
pub proof fn law_webpack_client_build(p: PatcherView, specifier: SpecifierView)
    requires
        p.state is Webpack,
        !p.is_development,
        !p.is_server,
    ensures
        generate(p, specifier).0 == p,
        generate(p, specifier).1 == seq![
            key_value_of(
                "webpack"@,
                ExprView::Arrow {
                    is_async: false,
                    params: Seq::empty(),
                    body: Box::new(ExprView::Array(seq![resolve_weak_of(specifier.value)])),
                },
            ),
        ],
{
}

/// The import that a call in `Turbopack` mode relies on, by the kind of the
/// compilation.
pub open spec fn import_kind_matches(p: PatcherView, import: TurbopackImportView) -> bool {
    if p.is_development && p.is_server {
        import is DevelopmentTransition
    } else if p.is_development {
        import is DevelopmentId
    } else if p.is_server {
        import is BuildTransition
    } else {
        import is BuildId
    }
}

/// In `Turbopack` mode every generated member is `modules: [...]`, and
/// exactly one import is put at the end of the queue: of the kind that goes
/// with the compilation, and for the given specifier.
pub proof fn law_turbopack_queues_one_import(p: PatcherView, specifier: SpecifierView)
    requires
        p.state is Turbopack,
    ensures
        generate(p, specifier).0.state is Turbopack,
        generate(p, specifier).0.state->imports.len() == p.state->imports.len() + 1,
        generate(p, specifier).0.state->imports.drop_last() == p.state->imports,
        import_kind_matches(p, generate(p, specifier).0.state->imports.last()),
        specifier_of(generate(p, specifier).0.state->imports.last()) == specifier.value,
        generate(p, specifier).1.len() == 1,
        generate(p, specifier).1[0] matches PropView::KeyValue { key, computed, value }
            && key == ExprView::Ident(crate::ast::plain_ident("modules"@)) && !computed,
{
}

/// The specifier of a pending import.
pub open spec fn specifier_of(import: TurbopackImportView) -> Seq<char> {
    match import {
        TurbopackImportView::DevelopmentTransition { specifier, .. } => specifier,
        TurbopackImportView::DevelopmentId { specifier, .. } => specifier,
        TurbopackImportView::BuildTransition { specifier, .. } => specifier,
        TurbopackImportView::BuildId { specifier, .. } => specifier,
    }
}

/// The private identifiers that a pending import binds.
pub open spec fn bound_by(import: TurbopackImportView) -> Seq<IdentView> {
    match import {
        TurbopackImportView::DevelopmentTransition { id_ident, chunks_ident, .. } => seq![
            id_ident,
            chunks_ident,
        ],
        TurbopackImportView::DevelopmentId { id_ident, .. } => seq![id_ident],
        TurbopackImportView::BuildTransition { id_ident, .. } => seq![id_ident],
        TurbopackImportView::BuildId { id_ident, .. } => seq![id_ident],
    }
}

/// In `Turbopack` mode the identifiers that the queued import binds are
/// private identifiers made for this call and for no other: they are named
/// `id` and `chunks`, stand where the specifier stands, and are entered, in
/// this order, at the end of the list of private identifiers, where their
/// places are their serial numbers.
pub proof fn law_turbopack_import_binds_fresh_identifiers(p: PatcherView, specifier: SpecifierView)
    requires
        p.state is Turbopack,
    ensures
        ({
            let q = generate(p, specifier).0;
            let bound = bound_by(q.state->imports.last());
            &&& q.issued == p.issued + bound
            &&& bound[0] == crate::ast::private_ident("id"@, specifier.span, p.issued.len())
            &&& bound.len() == 2 ==> bound[1] == crate::ast::private_ident(
                "chunks"@,
                specifier.span,
                p.issued.len() + 1,
            )
        }),
{
}

/// The block that brings a queue of imports into a module holds, for the
/// import at each place of the queue, its marker and right after it its
/// declaration, and the places come in the order of the queue.
pub proof fn law_import_block_in_queue_order(
    name: Seq<char>,
    imports: Seq<TurbopackImportView>,
    k: int,
)
    requires
        0 <= k < imports.len(),
    ensures
        import_block(name, imports).len() == 2 * imports.len(),
        import_block(name, imports)[2 * k] == import_marker_of(name, imports[k]),
        import_block(name, imports)[2 * k + 1] == import_decl_of(imports[k]),
{
}

/// Injection puts the block for the whole queue before the items, keeps the
/// items in their order, and leaves the queue empty.
pub proof fn law_injection_drains_queue(p: PatcherView, items: Seq<ModuleItemView>)
    requires
        p.state is Turbopack,
    ensures
        inject_imports(p, items).1 == import_block(
            p.state->dynamic_transition_name,
            p.state->imports,
        ) + items,
        inject_imports(p, items).0.state == (StateView::Turbopack {
            dynamic_transition_name: p.state->dynamic_transition_name,
            imports: Seq::empty(),
        }),
{
}

/// The pass over a list of module items puts one block of imports before the
/// items: the block for the queue as it is after the pass over the items,
/// which holds the imports of the rewritten calls in the order in which the
/// calls were rewritten.
pub proof fn law_imports_come_first(p: PatcherView, items: Seq<ModuleItemView>)
    requires
        p.state is Turbopack,
    ensures
        ({
            let (q, folded) = crate::model::fold_items(p, items, items.len());
            &&& q.state is Turbopack
            &&& fold_module_items(p, items).1 == import_block(
                q.state->dynamic_transition_name,
                q.state->imports,
            ) + folded
            &&& fold_module_items(p, items).1.len() == 2 * q.state->imports.len() + folded.len()
        }),
{
    law_fold_items_only_adds(p, items, items.len());
}

// ----- Call rewriter -----

/// A valid loader call in whose first argument a specifier was found gets two
/// arguments: its options become an object literal that begins with
/// `loadableGenerated` and goes on with the members that were there, in their
/// order. Nothing is taken away, so a call that has the property already gets
/// it a second time.
pub proof fn law_annotation_adds_a_property(
    p: PatcherView,
    c: CallExprView,
    specifier: SpecifierView,
)
    requires
        is_valid_loader_call(p, c),
    ensures
        rewrite_call(p, c, Some(specifier)).1.callee == c.callee,
        rewrite_call(p, c, Some(specifier)).1.args.len() == 2,
        rewrite_call(p, c, Some(specifier)).1.args[1] == ExprView::Object(
            seq![
                key_value_of(generated_key(), ExprView::Object(generate(p, specifier).1)),
            ] + options_of(c),
        ),
        options_of(rewrite_call(p, c, Some(specifier)).1).len() == options_of(c).len() + 1,
{
}

/// The pass is not idempotent: a call that was annotated is still a valid
/// loader call, and when it is annotated again its options begin with two
/// `loadableGenerated` members.
pub proof fn law_second_pass_adds_second_property(
    p: PatcherView,
    c: CallExprView,
    specifier: SpecifierView,
    again: PatcherView,
    specifier_again: SpecifierView,
)
    requires
        is_valid_loader_call(p, c),
        again.dynamic_bindings == p.dynamic_bindings,
    ensures
        ({
            let once = rewrite_call(p, c, Some(specifier)).1;
            let twice = rewrite_call(again, once, Some(specifier_again)).1;
            &&& is_valid_loader_call(again, once)
            &&& options_of(twice).len() == options_of(c).len() + 2
            &&& options_of(twice)[0] matches PropView::KeyValue { key, .. } && key
                == ExprView::Ident(crate::ast::plain_ident(generated_key()))
            &&& options_of(twice)[1] matches PropView::KeyValue { key, .. } && key
                == ExprView::Ident(crate::ast::plain_ident(generated_key()))
        }),
{
}

/// Where a valid loader call says `ssr: false`, and the module is compiled
/// for the server and not for the layer of server components, the loader
/// becomes `async () => { __nextjs_pure(loader) }`, and the pass remembers that
/// the module needs the import of the helper.
pub proof fn law_ssr_false_wraps_loader(p: PatcherView, c: CallExprView, specifier: SpecifierView)
    requires
        is_valid_loader_call(p, c),
        has_ssr_false(options_of(c)),
        p.is_server,
        !p.is_rsc_server_layer,
    ensures
        rewrite_call(p, c, Some(specifier)).1.args[0] == pure_loader_of(c.args[0]),
        rewrite_call(p, c, Some(specifier)).0.added_nextjs_pure_import,
{
}

/// Where the module is compiled for the layer of server components, or for
/// the client, or the call does not say `ssr: false`, the loader of a valid
/// loader call stays as it is, and what the pass remembers of the import of
/// the helper does not change.
pub proof fn law_loader_is_kept(p: PatcherView, c: CallExprView, specifier: SpecifierView)
    requires
        is_valid_loader_call(p, c),
        p.is_rsc_server_layer || !p.is_server || !has_ssr_false(options_of(c)),
    ensures
        rewrite_call(p, c, Some(specifier)).1.args[0] == c.args[0],
        rewrite_call(p, c, Some(specifier)).0.added_nextjs_pure_import
            == p.added_nextjs_pure_import,
{
}

// ----- Pure-call import -----

/// Whatever the number of calls whose loader was wrapped, the module gets the
/// import of the helper once if there was such a call, and not at all if
/// there was none. The import becomes the first item of the module, before
/// the imports that the pass has put there and before everything the module
/// held.
pub proof fn law_pure_import_once(p: PatcherView, m: ModuleView)
    ensures
        ({
            let (q, body) = fold_module_items(p, m.body);
            let out = fold_module(p, m).1.body;
            &&& fold_module(p, m).0 == q
            &&& !q.added_nextjs_pure_import ==> out == body
            &&& q.added_nextjs_pure_import ==> {
                &&& out == seq![pure_import_of()] + body
                &&& out.len() == body.len() + 1
                &&& out[0] == pure_import_of()
                &&& forall|i: int| 0 <= i < body.len() ==> out[i + 1] == body[i]
            }
        }),
{
}

// ----- File names -----

/// Without a base directory the relative name of a file is the text that
/// stands for the file.
pub proof fn law_rel_filename_without_base(file: FileNameView)
    ensures
        rel_filename_of(None, file) == display(file),
{
}

/// The relative name of a source that is no real file is the text that
/// stands for it, whatever the base directory.
pub proof fn law_rel_filename_of_other_source(base: Option<Seq<char>>, text: Seq<char>)
    ensures
        rel_filename_of(base, FileNameView::Custom(text)) == text,
{
}

/// Where no path leads from the base directory to a real file, the relative
/// name of the file is its whole path; where one does, it is that path.
pub proof fn law_rel_filename_of_real_file(base: Seq<char>, path: Seq<char>)
    ensures
        diff_paths_result(path, base) is None ==> rel_filename_of(
            Some(base),
            FileNameView::Real(path),
        ) == path,
        diff_paths_result(path, base) is Some ==> rel_filename_of(
            Some(base),
            FileNameView::Real(path),
        ) == diff_paths_result(path, base)->0,
{
}

// ----- What a pass accumulates -----

/// `b` begins with `a`.
pub open spec fn begins_with<A>(b: Seq<A>, a: Seq<A>) -> bool {
    a.len() <= b.len() && forall|i: int| 0 <= i < a.len() ==> b[i] == a[i]
}

/// The queue of `b` begins with the queue of `a`, in the same mode.
pub open spec fn queue_begins_with(b: StateView, a: StateView) -> bool {
    match (a, b) {
        (StateView::Webpack, StateView::Webpack) => true,
        (
            StateView::Turbopack { dynamic_transition_name: name_a, imports: imports_a },
            StateView::Turbopack { dynamic_transition_name: name_b, imports: imports_b },
        ) => name_a == name_b && begins_with(imports_b, imports_a),
        _ => false,
    }
}

/// The private identifiers that the imports of a queue bind, in the order of
/// the queue.
pub open spec fn bound_by_all(imports: Seq<TurbopackImportView>) -> Seq<IdentView>
    decreases imports.len(),
{
    if imports.len() == 0 {
        Seq::empty()
    } else {
        bound_by_all(imports.drop_last()) + bound_by(imports.last())
    }
}

/// The imports that are pending; none in `Webpack` mode.
pub open spec fn pending(state: StateView) -> Seq<TurbopackImportView> {
    match state {
        StateView::Webpack => Seq::empty(),
        StateView::Turbopack { imports, .. } => imports,
    }
}

/// The identifiers that the pending imports bind are the private identifiers
/// made last, in the order in which they were made.
pub open spec fn pending_are_latest(p: PatcherView) -> bool {
    let bound = bound_by_all(pending(p.state));
    bound.len() <= p.issued.len() && p.issued.skip(p.issued.len() - bound.len()) == bound
}

/// `q` is `p` with more added: the configuration and the bindings of the
/// loader are the same; complaints, private identifiers and pending imports
/// were only added at the end; what was noted of the helper import was not
/// taken back; and the serial numbers are in order in `q`, and the pending
/// imports bind the identifiers made last, if that was so in `p`.
pub open spec fn only_adds(p: PatcherView, q: PatcherView) -> bool {
    &&& q.is_development == p.is_development
    &&& q.is_server == p.is_server
    &&& q.is_rsc_server_layer == p.is_rsc_server_layer
    &&& q.pages_dir == p.pages_dir
    &&& q.filename == p.filename
    &&& q.dynamic_bindings == p.dynamic_bindings
    &&& queue_begins_with(q.state, p.state)
    &&& p.added_nextjs_pure_import ==> q.added_nextjs_pure_import
    &&& begins_with(q.diagnostics, p.diagnostics)
    &&& begins_with(q.issued, p.issued)
    &&& serials_in_order(p.issued) ==> serials_in_order(q.issued)
    &&& pending_are_latest(p) ==> pending_are_latest(q)
}

/// Adding is transitive.
pub proof fn law_only_adds_is_transitive(p: PatcherView, q: PatcherView, r: PatcherView)
    requires
        only_adds(p, q),
        only_adds(q, r),
    ensures
        only_adds(p, r),
{
}

/// Identifying the module of a call only adds to the state.
pub proof fn law_generate_only_adds(p: PatcherView, specifier: SpecifierView)
    ensures
        only_adds(p, generate(p, specifier).0),
{
    let q = generate(p, specifier).0;
    if p.state is Turbopack && pending_are_latest(p) {
        let import = q.state->imports.last();
        let before = bound_by_all(pending(p.state));
        assert(pending(q.state).drop_last() =~= pending(p.state));
        assert(bound_by_all(pending(q.state)) == before + bound_by(import));
        assert(q.issued == p.issued + bound_by(import));
        assert(q.issued.skip(q.issued.len() - (before + bound_by(import)).len()) =~= before
            + bound_by(import)) by {
            assert(p.issued.skip(p.issued.len() - before.len()) == before);
            assert forall|j: int| 0 <= j < before.len() implies q.issued[p.issued.len()
                - before.len() + j] == before[j] by {
                assert(p.issued.skip(p.issued.len() - before.len())[j] == before[j]);
            }
        }
    }
}

/// Rewriting a call site only adds to the state.
pub proof fn law_rewrite_call_only_adds(
    p: PatcherView,
    c: CallExprView,
    found: Option<SpecifierView>,
)
    ensures
        only_adds(p, rewrite_call(p, c, found).0),
{
    match found {
        Some(specifier) => {
            law_generate_only_adds(p, specifier);
        },
        None => {},
    }
}

/// The pass over an expression only adds to the state.
pub proof fn law_fold_expr_only_adds(p: PatcherView, e: ExprView)
    ensures
        only_adds(p, fold_expr(p, e).0),
    decreases e, 0nat,
{
    match e {
        ExprView::Tpl { exprs, .. } => {
            law_fold_exprs_only_adds(p, exprs, exprs.len());
        },
        ExprView::Call(c) => {
            law_fold_call_expr_only_adds(p, c);
        },
        ExprView::Object(props) => {
            law_fold_props_only_adds(p, props, props.len());
        },
        ExprView::Array(elems) => {
            law_fold_exprs_only_adds(p, elems, elems.len());
        },
        ExprView::Arrow { body, .. } => {
            law_fold_expr_only_adds(p, *body);
        },
        ExprView::ArrowBlock { body, .. } => {
            law_fold_stmts_only_adds(p, body, body.len());
        },
        ExprView::Bin { left, right, .. } => {
            let p1 = fold_expr(p, *left).0;
            law_fold_expr_only_adds(p, *left);
            law_fold_expr_only_adds(p1, *right);
        },
        ExprView::Unary { arg, .. } => {
            law_fold_expr_only_adds(p, *arg);
        },
        ExprView::Member { obj, .. } => {
            law_fold_expr_only_adds(p, *obj);
        },
        ExprView::Other { exprs, stmts, .. } => {
            let p1 = fold_exprs(p, exprs, exprs.len()).0;
            law_fold_exprs_only_adds(p, exprs, exprs.len());
            law_fold_stmts_only_adds(p1, stmts, stmts.len());
        },
        _ => {},
    }
}

/// The pass over a list of expressions only adds to the state.
pub proof fn law_fold_exprs_only_adds(p: PatcherView, es: Seq<ExprView>, n: nat)
    ensures
        only_adds(p, fold_exprs(p, es, n).0),
    decreases es, n,
{
    if !(n == 0 || n > es.len()) {
        let p1 = fold_exprs(p, es, (n - 1) as nat).0;
        law_fold_exprs_only_adds(p, es, (n - 1) as nat);
        law_fold_expr_only_adds(p1, es[n - 1]);
    }
}

/// The pass over a call only adds to the state.
pub proof fn law_fold_call_expr_only_adds(p: PatcherView, c: CallExprView)
    ensures
        only_adds(p, fold_call_expr(p, c).0),
    decreases c, 0nat,
{
    let (p1, callee) = fold_expr(p, *c.callee);
    let (p2, args) = fold_exprs(p1, c.args, c.args.len());
    let c1 = CallExprView { callee: Box::new(callee), args };
    law_fold_expr_only_adds(p, *c.callee);
    law_fold_exprs_only_adds(p1, c.args, c.args.len());
    law_rewrite_call_only_adds(p2, c1, crate::model::loaded_specifier(c1));
}

/// The pass over a member of an object literal only adds to the state.
pub proof fn law_fold_prop_only_adds(p: PatcherView, prop: PropView)
    ensures
        only_adds(p, fold_prop(p, prop).0),
    decreases prop, 0nat,
{
    match prop {
        PropView::KeyValue { key, computed, value } => {
            let p1 = if computed {
                fold_expr(p, key).0
            } else {
                p
            };
            if computed {
                law_fold_expr_only_adds(p, key);
            }
            law_fold_expr_only_adds(p1, value);
        },
        PropView::Shorthand(_) => {},
        PropView::Spread(e) => {
            law_fold_expr_only_adds(p, e);
        },
    }
}

/// The pass over the members of an object literal only adds to the state.
pub proof fn law_fold_props_only_adds(p: PatcherView, props: Seq<PropView>, n: nat)
    ensures
        only_adds(p, fold_props(p, props, n).0),
    decreases props, n,
{
    if !(n == 0 || n > props.len()) {
        let p1 = fold_props(p, props, (n - 1) as nat).0;
        law_fold_props_only_adds(p, props, (n - 1) as nat);
        law_fold_prop_only_adds(p1, props[n - 1]);
    }
}

/// The pass over a statement only adds to the state.
pub proof fn law_fold_stmt_only_adds(p: PatcherView, s: StmtView)
    ensures
        only_adds(p, fold_stmt(p, s).0),
    decreases s, 0nat,
{
    match s {
        StmtView::Expr(e) => {
            law_fold_expr_only_adds(p, e);
        },
        StmtView::Block(stmts) => {
            law_fold_stmts_only_adds(p, stmts, stmts.len());
        },
        StmtView::Other { exprs, stmts, .. } => {
            let p1 = fold_exprs(p, exprs, exprs.len()).0;
            law_fold_exprs_only_adds(p, exprs, exprs.len());
            law_fold_stmts_only_adds(p1, stmts, stmts.len());
        },
    }
}

/// The pass over a list of statements only adds to the state.
pub proof fn law_fold_stmts_only_adds(p: PatcherView, ss: Seq<StmtView>, n: nat)
    ensures
        only_adds(p, fold_stmts(p, ss, n).0),
    decreases ss, n,
{
    if !(n == 0 || n > ss.len()) {
        let p1 = fold_stmts(p, ss, (n - 1) as nat).0;
        law_fold_stmts_only_adds(p, ss, (n - 1) as nat);
        law_fold_stmt_only_adds(p1, ss[n - 1]);
    }
}

/// Private identifiers whose serial numbers are in order are pairwise
/// different: no two places of the list hold the same binding.
pub proof fn law_private_identifiers_differ(issued: Seq<IdentView>, i: int, j: int)
    requires
        serials_in_order(issued),
        issued.len() <= usize::MAX,
        0 <= i < j < issued.len(),
    ensures
        crate::ast::id_of(issued[i]) != crate::ast::id_of(issued[j]),
{
}

/// `q` is `p` after more of a module was seen: as `only_adds`, but for the
/// bindings of the loader, to which some may have been added at the end, and
/// for the queue of pending imports, which may have been emptied into the
/// module.
pub open spec fn module_only_adds(p: PatcherView, q: PatcherView) -> bool {
    &&& q.is_development == p.is_development
    &&& q.is_server == p.is_server
    &&& q.is_rsc_server_layer == p.is_rsc_server_layer
    &&& q.pages_dir == p.pages_dir
    &&& q.filename == p.filename
    &&& begins_with(q.dynamic_bindings, p.dynamic_bindings)
    &&& (p.state is Webpack) == (q.state is Webpack)
    &&& p.added_nextjs_pure_import ==> q.added_nextjs_pure_import
    &&& begins_with(q.diagnostics, p.diagnostics)
    &&& begins_with(q.issued, p.issued)
    &&& serials_in_order(p.issued) ==> serials_in_order(q.issued)
    &&& pending_are_latest(p) ==> pending_are_latest(q)
}

/// The pass over an item of a module body only adds to the state.
pub proof fn law_fold_module_item_only_adds(p: PatcherView, item: ModuleItemView)
    ensures
        module_only_adds(p, crate::model::fold_module_item(p, item).0),
{
    match item {
        ModuleItemView::Import(_) => {},
        ModuleItemView::Stmt(s) => {
            law_fold_stmt_only_adds(p, s);
        },
    }
}

/// The pass over the first items of a module body only adds to the state.
pub proof fn law_fold_items_only_adds(p: PatcherView, items: Seq<ModuleItemView>, n: nat)
    ensures
        module_only_adds(p, crate::model::fold_items(p, items, n).0),
    decreases n,
{
    if !(n == 0 || n > items.len()) {
        let p1 = crate::model::fold_items(p, items, (n - 1) as nat).0;
        law_fold_items_only_adds(p, items, (n - 1) as nat);
        law_fold_module_item_only_adds(p1, items[n - 1]);
    }
}

/// The pass over a module only adds to the state, and leaves no import
/// pending.
pub proof fn law_fold_module_only_adds(p: PatcherView, m: ModuleView)
    ensures
        module_only_adds(p, fold_module(p, m).0),
        fold_module(p, m).0.state is Turbopack ==> fold_module(p, m).0.state->imports.len() == 0,
{
    let p1 = crate::model::fold_items(p, m.body, m.body.len()).0;
    let q = fold_module(p, m).0;
    law_fold_items_only_adds(p, m.body, m.body.len());
    assert(bound_by_all(pending(q.state)) =~= Seq::empty());
    assert(q.issued.skip(q.issued.len() as int) =~= Seq::empty());
    assert(q.issued == p1.issued);
}

/// The pass over a list of expressions gives as many expressions as it was
/// given.
pub proof fn lemma_fold_exprs_len(p: PatcherView, es: Seq<ExprView>, n: nat)
    requires
        n <= es.len(),
    ensures
        fold_exprs(p, es, n).1.len() == n,
    decreases n,
{
    if n > 0 {
        lemma_fold_exprs_len(p, es, (n - 1) as nat);
    }
}

/// A call of the loader without arguments, with more than two, or with a
/// second argument that is no object literal after the pass over it, comes
/// out of the pass as the same call of its rewritten arguments, with exactly
/// one complaint added to those made within the arguments.
pub proof fn law_defective_call_is_reported_and_kept(p: PatcherView, c: CallExprView)
    requires
        *c.callee matches ExprView::Ident(callee) && p.dynamic_bindings.contains(
            crate::ast::id_of(callee),
        ),
        c.args.len() == 0 || c.args.len() > 2 || (c.args.len() == 2 && !(fold_exprs(
            p,
            c.args,
            2,
        ).1[1] is Object)),
    ensures
        ({
            let (q, args) = fold_exprs(p, c.args, c.args.len());
            &&& fold_call_expr(p, c).1 == CallExprView { callee: c.callee, args }
            &&& args.len() == c.args.len()
            &&& fold_call_expr(p, c).0 == report(
                q,
                c.callee->Ident_0,
                call_defect(CallExprView { callee: c.callee, args })->0,
            )
            &&& fold_call_expr(p, c).0.diagnostics.len() == q.diagnostics.len() + 1
        }),
{
    law_fold_exprs_only_adds(p, c.args, c.args.len());
    lemma_fold_exprs_len(p, c.args, c.args.len());
}

// ----- Private identifiers and the identifiers of the input -----

/// Whether the identifier `i` occurs in the expression `e`: as a name, as the
/// property of a member access, as a parameter, or in one of its parts.
pub open spec fn occurs_in_expr(i: IdentView, e: ExprView) -> bool
    decreases e, 0nat,
{
    match e {
        ExprView::Ident(name) => name == i,
        ExprView::Tpl { exprs, .. } => occurs_in_exprs(i, exprs, exprs.len()),
        ExprView::Call(c) => occurs_in_call(i, c),
        ExprView::Object(props) => occurs_in_props(i, props, props.len()),
        ExprView::Array(elems) => occurs_in_exprs(i, elems, elems.len()),
        ExprView::Arrow { params, body, .. } => params.contains(i) || occurs_in_expr(i, *body),
        ExprView::ArrowBlock { params, body, .. } => params.contains(i) || occurs_in_stmts(
            i,
            body,
            body.len(),
        ),
        ExprView::Bin { left, right, .. } => occurs_in_expr(i, *left) || occurs_in_expr(i, *right),
        ExprView::Unary { arg, .. } => occurs_in_expr(i, *arg),
        ExprView::Member { obj, prop } => prop == i || occurs_in_expr(i, *obj),
        ExprView::Other { exprs, stmts, .. } => occurs_in_exprs(i, exprs, exprs.len())
            || occurs_in_stmts(i, stmts, stmts.len()),
        _ => false,
    }
}

/// Whether `i` occurs in one of the first `n` expressions of `es`.
pub open spec fn occurs_in_exprs(i: IdentView, es: Seq<ExprView>, n: nat) -> bool
    decreases es, n,
{
    if n == 0 || n > es.len() {
        false
    } else {
        occurs_in_exprs(i, es, (n - 1) as nat) || occurs_in_expr(i, es[n - 1])
    }
}

/// Whether `i` occurs in the callee or in an argument of `c`.
pub open spec fn occurs_in_call(i: IdentView, c: CallExprView) -> bool
    decreases c, 0nat,
{
    occurs_in_expr(i, *c.callee) || occurs_in_exprs(i, c.args, c.args.len())
}

/// Whether `i` occurs in a member of an object literal, its key included.
pub open spec fn occurs_in_prop(i: IdentView, prop: PropView) -> bool
    decreases prop, 0nat,
{
    match prop {
        PropView::KeyValue { key, value, .. } => occurs_in_expr(i, key) || occurs_in_expr(
            i,
            value,
        ),
        PropView::Shorthand(name) => name == i,
        PropView::Spread(e) => occurs_in_expr(i, e),
    }
}

/// Whether `i` occurs in one of the first `n` members of `props`.
pub open spec fn occurs_in_props(i: IdentView, props: Seq<PropView>, n: nat) -> bool
    decreases props, n,
{
    if n == 0 || n > props.len() {
        false
    } else {
        occurs_in_props(i, props, (n - 1) as nat) || occurs_in_prop(i, props[n - 1])
    }
}

/// Whether `i` occurs in the statement `s`.
pub open spec fn occurs_in_stmt(i: IdentView, s: StmtView) -> bool
    decreases s, 0nat,
{
    match s {
        StmtView::Expr(e) => occurs_in_expr(i, e),
        StmtView::Block(stmts) => occurs_in_stmts(i, stmts, stmts.len()),
        StmtView::Other { exprs, stmts, .. } => occurs_in_exprs(i, exprs, exprs.len())
            || occurs_in_stmts(i, stmts, stmts.len()),
    }
}

/// Whether `i` occurs in one of the first `n` statements of `ss`.
pub open spec fn occurs_in_stmts(i: IdentView, ss: Seq<StmtView>, n: nat) -> bool
    decreases ss, n,
{
    if n == 0 || n > ss.len() {
        false
    } else {
        occurs_in_stmts(i, ss, (n - 1) as nat) || occurs_in_stmt(i, ss[n - 1])
    }
}

/// Whether a specifier of an import binds `i` or names it as what is
/// imported.
pub open spec fn occurs_in_specifier(i: IdentView, s: ImportSpecifierView) -> bool {
    match s {
        ImportSpecifierView::Default { local } => local == i,
        ImportSpecifierView::Named { local, imported } => local == i || imported == Some(i),
        ImportSpecifierView::Namespace { local } => local == i,
    }
}

/// Whether `i` occurs in an item of a module body.
pub open spec fn occurs_in_item(i: IdentView, item: ModuleItemView) -> bool {
    match item {
        ModuleItemView::Import(decl) => exists|k: int|
            0 <= k < decl.specifiers.len() && occurs_in_specifier(i, #[trigger] decl.specifiers[k]),
        ModuleItemView::Stmt(s) => occurs_in_stmt(i, s),
    }
}

/// Whether `i` occurs anywhere in the module `m`.
pub open spec fn occurs_in_module(i: IdentView, m: ModuleView) -> bool {
    exists|k: int| 0 <= k < m.body.len() && occurs_in_item(i, #[trigger] m.body[k])
}

/// No identifier of the module has a private context: every identifier that
/// occurs in it has a context that name resolution gave.
pub open spec fn has_no_private_identifier(m: ModuleView) -> bool {
    forall|i: IdentView| #[trigger] occurs_in_module(i, m) ==> i.ctxt is Source
}

/// Every identifier that a pass makes while it goes over a module has a
/// private context, whose number is its place in the list of the identifiers
/// made.
pub proof fn law_minted_identifiers_are_private(p: PatcherView, m: ModuleView, k: int)
    requires
        serials_in_order(p.issued),
        p.issued.len() <= k < fold_module(p, m).0.issued.len(),
    ensures
        fold_module(p, m).0.issued[k].ctxt == SyntaxContext::Private(k as usize),
{
    law_fold_module_only_adds(p, m);
}

/// Where no identifier of a module has a private context, every identifier
/// that the pass makes while it goes over the module differs from every
/// identifier of the module: the two never denote the same binding.
pub proof fn law_minted_identifiers_differ_from_input(
    p: PatcherView,
    m: ModuleView,
    k: int,
    i: IdentView,
)
    requires
        has_no_private_identifier(m),
        occurs_in_module(i, m),
        serials_in_order(p.issued),
        p.issued.len() <= k < fold_module(p, m).0.issued.len(),
    ensures
        crate::ast::id_of(fold_module(p, m).0.issued[k]) != crate::ast::id_of(i),
{
    law_minted_identifiers_are_private(p, m, k);
}

// ----- Expressions without a loader call -----

/// Whether the callee of `c` is one of the identifiers `b` that are bound to
/// the loader.
pub open spec fn calls_loader(b: Seq<IdView>, c: CallExprView) -> bool {
    *c.callee matches ExprView::Ident(callee) && b.contains(crate::ast::id_of(callee))
}

/// Whether no call within the expression `e` is a call of a function bound to
/// the loader in `b`. Keys of object literals count only where they are
/// computed.
pub open spec fn has_no_loader_call(b: Seq<IdView>, e: ExprView) -> bool
    decreases e, 0nat,
{
    match e {
        ExprView::Tpl { exprs, .. } => have_no_loader_call(b, exprs, exprs.len()),
        ExprView::Call(c) => call_has_no_loader_call(b, c),
        ExprView::Object(props) => props_have_no_loader_call(b, props, props.len()),
        ExprView::Array(elems) => have_no_loader_call(b, elems, elems.len()),
        ExprView::Arrow { body, .. } => has_no_loader_call(b, *body),
        ExprView::ArrowBlock { body, .. } => stmts_have_no_loader_call(b, body, body.len()),
        ExprView::Bin { left, right, .. } => has_no_loader_call(b, *left) && has_no_loader_call(b,
            *right,
        ),
        ExprView::Unary { arg, .. } => has_no_loader_call(b, *arg),
        ExprView::Member { obj, .. } => has_no_loader_call(b, *obj),
        ExprView::Other { exprs, stmts, .. } => have_no_loader_call(b, exprs, exprs.len())
            && stmts_have_no_loader_call(b, stmts, stmts.len()),
        _ => true,
    }
}

/// `has_no_loader_call` of each of the first `n` expressions of `es`.
pub open spec fn have_no_loader_call(b: Seq<IdView>, es: Seq<ExprView>, n: nat) -> bool
    decreases es, n,
{
    if n == 0 || n > es.len() {
        true
    } else {
        have_no_loader_call(b, es, (n - 1) as nat) && has_no_loader_call(b, es[n - 1])
    }
}

/// The call `c` is no call of the loader, and there is none in its callee or
/// in its arguments.
pub open spec fn call_has_no_loader_call(b: Seq<IdView>, c: CallExprView) -> bool
    decreases c, 0nat,
{
    &&& !calls_loader(b, c)
    &&& has_no_loader_call(b, *c.callee)
    &&& have_no_loader_call(b, c.args, c.args.len())
}

/// `has_no_loader_call` of the parts of a member of an object literal.
pub open spec fn prop_has_no_loader_call(b: Seq<IdView>, prop: PropView) -> bool
    decreases prop, 0nat,
{
    match prop {
        PropView::KeyValue { key, computed, value } => (computed ==> has_no_loader_call(b, key))
            && has_no_loader_call(b, value),
        PropView::Shorthand(_) => true,
        PropView::Spread(e) => has_no_loader_call(b, e),
    }
}

/// `prop_has_no_loader_call` of each of the first `n` members of `props`.
pub open spec fn props_have_no_loader_call(b: Seq<IdView>, props: Seq<PropView>, n: nat) -> bool
    decreases props, n,
{
    if n == 0 || n > props.len() {
        true
    } else {
        props_have_no_loader_call(b, props, (n - 1) as nat) && prop_has_no_loader_call(b,
            props[n - 1],
        )
    }
}

/// `has_no_loader_call` of the parts of a statement.
pub open spec fn stmt_has_no_loader_call(b: Seq<IdView>, s: StmtView) -> bool
    decreases s, 0nat,
{
    match s {
        StmtView::Expr(e) => has_no_loader_call(b, e),
        StmtView::Block(stmts) => stmts_have_no_loader_call(b, stmts, stmts.len()),
        StmtView::Other { exprs, stmts, .. } => have_no_loader_call(b, exprs, exprs.len())
            && stmts_have_no_loader_call(b, stmts, stmts.len()),
    }
}

/// `stmt_has_no_loader_call` of each of the first `n` statements of `ss`.
pub open spec fn stmts_have_no_loader_call(b: Seq<IdView>, ss: Seq<StmtView>, n: nat) -> bool
    decreases ss, n,
{
    if n == 0 || n > ss.len() {
        true
    } else {
        stmts_have_no_loader_call(b, ss, (n - 1) as nat) && stmt_has_no_loader_call(b, ss[n - 1])
    }
}

/// The pass leaves an expression without a loader call as it is, and the
/// state too.
pub proof fn law_fold_expr_keeps_other_code(p: PatcherView, e: ExprView)
    requires
        has_no_loader_call(p.dynamic_bindings, e),
    ensures
        fold_expr(p, e) == (p, e),
    decreases e, 0nat,
{
    match e {
        ExprView::Tpl { exprs, .. } => {
            law_fold_exprs_keeps_other_code(p, exprs, exprs.len());
            assert(exprs.take(exprs.len() as int) =~= exprs);
        },
        ExprView::Call(c) => {
            law_fold_call_expr_keeps_other_code(p, c);
        },
        ExprView::Object(props) => {
            law_fold_props_keeps_other_code(p, props, props.len());
            assert(props.take(props.len() as int) =~= props);
        },
        ExprView::Array(elems) => {
            law_fold_exprs_keeps_other_code(p, elems, elems.len());
            assert(elems.take(elems.len() as int) =~= elems);
        },
        ExprView::Arrow { body, .. } => {
            law_fold_expr_keeps_other_code(p, *body);
        },
        ExprView::ArrowBlock { body, .. } => {
            law_fold_stmts_keeps_other_code(p, body, body.len());
            assert(body.take(body.len() as int) =~= body);
        },
        ExprView::Bin { left, right, .. } => {
            law_fold_expr_keeps_other_code(p, *left);
            law_fold_expr_keeps_other_code(p, *right);
        },
        ExprView::Unary { arg, .. } => {
            law_fold_expr_keeps_other_code(p, *arg);
        },
        ExprView::Member { obj, .. } => {
            law_fold_expr_keeps_other_code(p, *obj);
        },
        ExprView::Other { exprs, stmts, .. } => {
            law_fold_exprs_keeps_other_code(p, exprs, exprs.len());
            law_fold_stmts_keeps_other_code(p, stmts, stmts.len());
            assert(exprs.take(exprs.len() as int) =~= exprs);
            assert(stmts.take(stmts.len() as int) =~= stmts);
        },
        _ => {},
    }
}

/// The pass leaves expressions without a loader call as they are.
pub proof fn law_fold_exprs_keeps_other_code(p: PatcherView, es: Seq<ExprView>, n: nat)
    requires
        n <= es.len(),
        have_no_loader_call(p.dynamic_bindings, es, n),
    ensures
        fold_exprs(p, es, n) == (p, es.take(n as int)),
    decreases es, n,
{
    if n > 0 {
        law_fold_exprs_keeps_other_code(p, es, (n - 1) as nat);
        law_fold_expr_keeps_other_code(p, es[n - 1]);
        assert(es.take(n - 1).push(es[n - 1]) =~= es.take(n as int));
    } else {
        assert(es.take(0) =~= Seq::empty());
    }
}

/// The pass leaves a call that is no loader call, and has none in it, as it
/// is.
pub proof fn law_fold_call_expr_keeps_other_code(p: PatcherView, c: CallExprView)
    requires
        call_has_no_loader_call(p.dynamic_bindings, c),
    ensures
        fold_call_expr(p, c) == (p, c),
    decreases c, 0nat,
{
    law_fold_expr_keeps_other_code(p, *c.callee);
    law_fold_exprs_keeps_other_code(p, c.args, c.args.len());
    assert(c.args.take(c.args.len() as int) =~= c.args);
    assert(CallExprView { callee: Box::new(*c.callee), args: c.args } == c);
}

/// The pass leaves a member of an object literal without a loader call as it
/// is.
pub proof fn law_fold_prop_keeps_other_code(p: PatcherView, prop: PropView)
    requires
        prop_has_no_loader_call(p.dynamic_bindings, prop),
    ensures
        fold_prop(p, prop) == (p, prop),
    decreases prop, 0nat,
{
    match prop {
        PropView::KeyValue { key, computed, value } => {
            if computed {
                law_fold_expr_keeps_other_code(p, key);
            }
            law_fold_expr_keeps_other_code(p, value);
        },
        PropView::Shorthand(_) => {},
        PropView::Spread(e) => {
            law_fold_expr_keeps_other_code(p, e);
        },
    }
}

/// The pass leaves members of an object literal without a loader call as
/// they are.
pub proof fn law_fold_props_keeps_other_code(p: PatcherView, props: Seq<PropView>, n: nat)
    requires
        n <= props.len(),
        props_have_no_loader_call(p.dynamic_bindings, props, n),
    ensures
        fold_props(p, props, n) == (p, props.take(n as int)),
    decreases props, n,
{
    if n > 0 {
        law_fold_props_keeps_other_code(p, props, (n - 1) as nat);
        law_fold_prop_keeps_other_code(p, props[n - 1]);
        assert(props.take(n - 1).push(props[n - 1]) =~= props.take(n as int));
    } else {
        assert(props.take(0) =~= Seq::empty());
    }
}

/// The pass leaves a statement without a loader call as it is.
pub proof fn law_fold_stmt_keeps_other_code(p: PatcherView, s: StmtView)
    requires
        stmt_has_no_loader_call(p.dynamic_bindings, s),
    ensures
        fold_stmt(p, s) == (p, s),
    decreases s, 0nat,
{
    match s {
        StmtView::Expr(e) => {
            law_fold_expr_keeps_other_code(p, e);
        },
        StmtView::Block(stmts) => {
            law_fold_stmts_keeps_other_code(p, stmts, stmts.len());
            assert(stmts.take(stmts.len() as int) =~= stmts);
        },
        StmtView::Other { exprs, stmts, .. } => {
            law_fold_exprs_keeps_other_code(p, exprs, exprs.len());
            law_fold_stmts_keeps_other_code(p, stmts, stmts.len());
            assert(exprs.take(exprs.len() as int) =~= exprs);
            assert(stmts.take(stmts.len() as int) =~= stmts);
        },
    }
}

/// The pass leaves statements without a loader call as they are.
pub proof fn law_fold_stmts_keeps_other_code(p: PatcherView, ss: Seq<StmtView>, n: nat)
    requires
        n <= ss.len(),
        stmts_have_no_loader_call(p.dynamic_bindings, ss, n),
    ensures
        fold_stmts(p, ss, n) == (p, ss.take(n as int)),
    decreases ss, n,
{
    if n > 0 {
        law_fold_stmts_keeps_other_code(p, ss, (n - 1) as nat);
        law_fold_stmt_keeps_other_code(p, ss[n - 1]);
        assert(ss.take(n - 1).push(ss[n - 1]) =~= ss.take(n as int));
    } else {
        assert(ss.take(0) =~= Seq::empty());
    }
}

// ----- The dynamic imports of a loader -----

/// What is held after a search that held `found` and then met the specifiers
/// of `met`, one after the other: the last of them, if there is one.
pub open spec fn last_or(found: Option<SpecifierView>, met: Seq<SpecifierView>) -> Option<
    SpecifierView,
> {
    if met.len() == 0 {
        found
    } else {
        Some(met.last())
    }
}

/// The specifier of the call itself, where it is a dynamic import with a
/// literal specifier, as a list of one; else the empty list.
pub open spec fn own_import(c: CallExprView) -> Seq<SpecifierView> {
    match import_specifier(c) {
        Some(s) => seq![s],
        None => Seq::empty(),
    }
}

/// The literal specifiers of the dynamic imports within the expression `e`,
/// in the order of the source but for a call, whose own specifier comes
/// before those within its callee and arguments.
pub open spec fn literal_imports(e: ExprView) -> Seq<SpecifierView>
    decreases e, 0nat,
{
    match e {
        ExprView::Tpl { exprs, .. } => literal_imports_of_exprs(exprs, exprs.len()),
        ExprView::Call(c) => literal_imports_of_call(c),
        ExprView::Object(props) => literal_imports_of_props(props, props.len()),
        ExprView::Array(elems) => literal_imports_of_exprs(elems, elems.len()),
        ExprView::Arrow { body, .. } => literal_imports(*body),
        ExprView::ArrowBlock { body, .. } => literal_imports_of_stmts(body, body.len()),
        ExprView::Bin { left, right, .. } => literal_imports(*left) + literal_imports(*right),
        ExprView::Unary { arg, .. } => literal_imports(*arg),
        ExprView::Member { obj, .. } => literal_imports(*obj),
        ExprView::Other { exprs, stmts, .. } => literal_imports_of_exprs(exprs, exprs.len())
            + literal_imports_of_stmts(stmts, stmts.len()),
        _ => Seq::empty(),
    }
}

/// `literal_imports` of the first `n` expressions of `es`, one after the
/// other.
pub open spec fn literal_imports_of_exprs(es: Seq<ExprView>, n: nat) -> Seq<SpecifierView>
    decreases es, n,
{
    if n == 0 || n > es.len() {
        Seq::empty()
    } else {
        literal_imports_of_exprs(es, (n - 1) as nat) + literal_imports(es[n - 1])
    }
}

/// `literal_imports` of a call: its own, then those of its callee, then those
/// of its arguments.
pub open spec fn literal_imports_of_call(c: CallExprView) -> Seq<SpecifierView>
    decreases c, 0nat,
{
    own_import(c) + literal_imports(*c.callee) + literal_imports_of_exprs(
        c.args,
        c.args.len(),
    )
}

/// `literal_imports` of a member of an object literal; its key counts only
/// where it is computed.
pub open spec fn literal_imports_of_prop(prop: PropView) -> Seq<SpecifierView>
    decreases prop, 0nat,
{
    match prop {
        PropView::KeyValue { key, computed, value } => (if computed {
            literal_imports(key)
        } else {
            Seq::empty()
        }) + literal_imports(value),
        PropView::Shorthand(_) => Seq::empty(),
        PropView::Spread(e) => literal_imports(e),
    }
}

/// `literal_imports_of_prop` of the first `n` members of `props`, one after
/// the other.
pub open spec fn literal_imports_of_props(props: Seq<PropView>, n: nat) -> Seq<SpecifierView>
    decreases props, n,
{
    if n == 0 || n > props.len() {
        Seq::empty()
    } else {
        literal_imports_of_props(props, (n - 1) as nat) + literal_imports_of_prop(props[n - 1])
    }
}

/// `literal_imports` of the parts of a statement.
pub open spec fn literal_imports_of_stmt(s: StmtView) -> Seq<SpecifierView>
    decreases s, 0nat,
{
    match s {
        StmtView::Expr(e) => literal_imports(e),
        StmtView::Block(stmts) => literal_imports_of_stmts(stmts, stmts.len()),
        StmtView::Other { exprs, stmts, .. } => literal_imports_of_exprs(exprs, exprs.len())
            + literal_imports_of_stmts(stmts, stmts.len()),
    }
}

/// `literal_imports_of_stmt` of the first `n` statements of `ss`, one after
/// the other.
pub open spec fn literal_imports_of_stmts(ss: Seq<StmtView>, n: nat) -> Seq<SpecifierView>
    decreases ss, n,
{
    if n == 0 || n > ss.len() {
        Seq::empty()
    } else {
        literal_imports_of_stmts(ss, (n - 1) as nat) + literal_imports_of_stmt(ss[n - 1])
    }
}

/// Meeting two lists of specifiers one after the other is meeting the two
/// joined.
pub proof fn lemma_last_or_join(
    found: Option<SpecifierView>,
    a: Seq<SpecifierView>,
    b: Seq<SpecifierView>,
)
    ensures
        last_or(last_or(found, a), b) == last_or(found, a + b),
{
    if b.len() == 0 {
        assert(a + b =~= a);
    } else {
        assert((a + b).last() == b.last());
    }
}

/// The search over an expression ends with the last of its literal imports,
/// and with what it held before where there is none.
pub proof fn law_capture_expr_finds_last_import(found: Option<SpecifierView>, e: ExprView)
    ensures
        capture_expr(found, e) == last_or(found, literal_imports(e)),
    decreases e, 0nat,
{
    match e {
        ExprView::Tpl { exprs, .. } => {
            law_capture_exprs_finds_last_import(found, exprs, exprs.len());
        },
        ExprView::Call(c) => {
            law_capture_call_finds_last_import(found, c);
        },
        ExprView::Object(props) => {
            law_capture_props_finds_last_import(found, props, props.len());
        },
        ExprView::Array(elems) => {
            law_capture_exprs_finds_last_import(found, elems, elems.len());
        },
        ExprView::Arrow { body, .. } => {
            law_capture_expr_finds_last_import(found, *body);
        },
        ExprView::ArrowBlock { body, .. } => {
            law_capture_stmts_finds_last_import(found, body, body.len());
        },
        ExprView::Bin { left, right, .. } => {
            law_capture_expr_finds_last_import(found, *left);
            law_capture_expr_finds_last_import(capture_expr(found, *left), *right);
            lemma_last_or_join(found, literal_imports(*left), literal_imports(*right));
        },
        ExprView::Unary { arg, .. } => {
            law_capture_expr_finds_last_import(found, *arg);
        },
        ExprView::Member { obj, .. } => {
            law_capture_expr_finds_last_import(found, *obj);
        },
        ExprView::Other { exprs, stmts, .. } => {
            law_capture_exprs_finds_last_import(found, exprs, exprs.len());
            law_capture_stmts_finds_last_import(
                capture_exprs(found, exprs, exprs.len()),
                stmts,
                stmts.len(),
            );
            lemma_last_or_join(
                found,
                literal_imports_of_exprs(exprs, exprs.len()),
                literal_imports_of_stmts(stmts, stmts.len()),
            );
        },
        _ => {},
    }
}

/// As `law_capture_expr_finds_last_import`, over the first `n` expressions
/// of `es`.
pub proof fn law_capture_exprs_finds_last_import(
    found: Option<SpecifierView>,
    es: Seq<ExprView>,
    n: nat,
)
    ensures
        capture_exprs(found, es, n) == last_or(found, literal_imports_of_exprs(es, n)),
    decreases es, n,
{
    if !(n == 0 || n > es.len()) {
        law_capture_exprs_finds_last_import(found, es, (n - 1) as nat);
        law_capture_expr_finds_last_import(capture_exprs(found, es, (n - 1) as nat), es[n - 1]);
        lemma_last_or_join(
            found,
            literal_imports_of_exprs(es, (n - 1) as nat),
            literal_imports(es[n - 1]),
        );
    }
}

/// As `law_capture_expr_finds_last_import`, over a call.
pub proof fn law_capture_call_finds_last_import(found: Option<SpecifierView>, c: CallExprView)
    ensures
        capture_call(found, c) == last_or(found, literal_imports_of_call(c)),
    decreases c, 0nat,
{
    let held = crate::model::note_import(found, c);
    assert(held == last_or(found, own_import(c)));
    let after_callee = capture_expr(held, *c.callee);
    law_capture_expr_finds_last_import(held, *c.callee);
    law_capture_exprs_finds_last_import(after_callee, c.args, c.args.len());
    lemma_last_or_join(found, own_import(c), literal_imports(*c.callee));
    lemma_last_or_join(
        found,
        own_import(c) + literal_imports(*c.callee),
        literal_imports_of_exprs(c.args, c.args.len()),
    );
}

/// As `law_capture_expr_finds_last_import`, over a member of an object
/// literal.
pub proof fn law_capture_prop_finds_last_import(found: Option<SpecifierView>, prop: PropView)
    ensures
        capture_prop(found, prop) == last_or(found, literal_imports_of_prop(prop)),
    decreases prop, 0nat,
{
    match prop {
        PropView::KeyValue { key, computed, value } => {
            let in_key = if computed {
                literal_imports(key)
            } else {
                Seq::empty()
            };
            if computed {
                law_capture_expr_finds_last_import(found, key);
            }
            law_capture_expr_finds_last_import(last_or(found, in_key), value);
            lemma_last_or_join(found, in_key, literal_imports(value));
        },
        PropView::Shorthand(_) => {},
        PropView::Spread(e) => {
            law_capture_expr_finds_last_import(found, e);
        },
    }
}

/// As `law_capture_expr_finds_last_import`, over the first `n` members of
/// `props`.
pub proof fn law_capture_props_finds_last_import(
    found: Option<SpecifierView>,
    props: Seq<PropView>,
    n: nat,
)
    ensures
        capture_props(found, props, n) == last_or(found, literal_imports_of_props(props, n)),
    decreases props, n,
{
    if !(n == 0 || n > props.len()) {
        law_capture_props_finds_last_import(found, props, (n - 1) as nat);
        law_capture_prop_finds_last_import(
            capture_props(found, props, (n - 1) as nat),
            props[n - 1],
        );
        lemma_last_or_join(
            found,
            literal_imports_of_props(props, (n - 1) as nat),
            literal_imports_of_prop(props[n - 1]),
        );
    }
}

/// As `law_capture_expr_finds_last_import`, over a statement.
pub proof fn law_capture_stmt_finds_last_import(found: Option<SpecifierView>, s: StmtView)
    ensures
        capture_stmt(found, s) == last_or(found, literal_imports_of_stmt(s)),
    decreases s, 0nat,
{
    match s {
        StmtView::Expr(e) => {
            law_capture_expr_finds_last_import(found, e);
        },
        StmtView::Block(stmts) => {
            law_capture_stmts_finds_last_import(found, stmts, stmts.len());
        },
        StmtView::Other { exprs, stmts, .. } => {
            law_capture_exprs_finds_last_import(found, exprs, exprs.len());
            law_capture_stmts_finds_last_import(
                capture_exprs(found, exprs, exprs.len()),
                stmts,
                stmts.len(),
            );
            lemma_last_or_join(
                found,
                literal_imports_of_exprs(exprs, exprs.len()),
                literal_imports_of_stmts(stmts, stmts.len()),
            );
        },
    }
}

/// As `law_capture_expr_finds_last_import`, over the first `n` statements of
/// `ss`.
pub proof fn law_capture_stmts_finds_last_import(
    found: Option<SpecifierView>,
    ss: Seq<StmtView>,
    n: nat,
)
    ensures
        capture_stmts(found, ss, n) == last_or(found, literal_imports_of_stmts(ss, n)),
    decreases ss, n,
{
    if !(n == 0 || n > ss.len()) {
        law_capture_stmts_finds_last_import(found, ss, (n - 1) as nat);
        law_capture_stmt_finds_last_import(capture_stmts(found, ss, (n - 1) as nat), ss[n - 1]);
        lemma_last_or_join(
            found,
            literal_imports_of_stmts(ss, (n - 1) as nat),
            literal_imports_of_stmt(ss[n - 1]),
        );
    }
}

/// The specifier of the module that a loader loads is that of the last of
/// the dynamic imports with a literal specifier in it; a loader without such
/// an import has none. In particular a loader with exactly one such import
/// loads the module of that import.
pub proof fn law_find_specifier_is_last_import(loader: ExprView)
    ensures
        literal_imports(loader).len() == 0 ==> find_specifier(loader) is None,
        literal_imports(loader).len() > 0 ==> find_specifier(loader) == Some(
            literal_imports(loader).last(),
        ),
        forall|s: SpecifierView| literal_imports(loader) == seq![s] ==> find_specifier(loader) == Some(s),
{
    law_capture_expr_finds_last_import(None, loader);
}

/// The loader `() => import("...")`, with the specifier a string literal,
/// loads the module that the literal names.
pub proof fn law_plain_loader_loads_its_import(
    is_async: bool,
    params: Seq<IdentView>,
    literal: crate::ast::StrView,
)
    ensures
        find_specifier(
            ExprView::Arrow {
                is_async,
                params,
                body: Box::new(
                    ExprView::Call(
                        CallExprView {
                            callee: Box::new(ExprView::Import),
                            args: seq![ExprView::Str(literal)],
                        },
                    ),
                ),
            },
        ) == Some(SpecifierView { value: literal.value, span: literal.span }),
{
    let call = CallExprView {
        callee: Box::new(ExprView::Import),
        args: seq![ExprView::Str(literal)],
    };
    let body = ExprView::Call(call);
    let loader = ExprView::Arrow { is_async, params, body: Box::new(body) };
    law_capture_expr_finds_last_import(None, loader);
    assert(literal_imports_of_exprs(call.args, 1) =~= Seq::empty()) by {
        reveal_with_fuel(literal_imports_of_exprs, 2);
    }
    assert(literal_imports(*call.callee) =~= Seq::empty());
    assert(own_import(call) =~= seq![SpecifierView { value: literal.value, span: literal.span }]);
    assert(literal_imports_of_call(call) =~= own_import(call));
    assert(literal_imports(body) == literal_imports_of_call(call));
    assert(literal_imports(loader) == literal_imports(body));
}

// ----- The pass over a loader call, from the shape of the call -----

/// A call of the loader as the pass expects it: its callee is one of the
/// identifiers `b` bound to the loader; it has one argument, or two of which the second is an
/// object literal; no argument holds a further loader call; and the first
/// argument, the loader, holds a dynamic import with a literal specifier.
pub open spec fn is_plain_loader_call(b: Seq<IdView>, c: CallExprView) -> bool {
    &&& calls_loader(b, c)
    &&& 1 <= c.args.len() <= 2
    &&& c.args.len() == 2 ==> c.args[1] is Object
    &&& have_no_loader_call(b, c.args, c.args.len())
    &&& literal_imports(c.args[0]).len() > 0
}

/// The specifier of the module that a plain loader call loads: that of the
/// last dynamic import with a literal specifier in its first argument, which
/// is the only one where there is one.
pub open spec fn loaded(c: CallExprView) -> SpecifierView {
    literal_imports(c.args[0]).last()
}

/// What identifies a module in `Turbopack` mode, by the import that the call
/// relies on: `modules: [JSON.stringify({ id, chunks })]` where the import
/// binds the id and the chunks, and `modules: [id]` where it binds the id
/// alone, with the identifiers of that import and no others.
pub open spec fn metadata_for(import: TurbopackImportView) -> Seq<PropView> {
    match import {
        TurbopackImportView::DevelopmentTransition { id_ident, chunks_ident, .. } => {
            crate::syntax::module_id_options_of(
                crate::syntax::stringified_ids_of(id_ident, chunks_ident),
            )
        },
        TurbopackImportView::DevelopmentId { id_ident, .. } => crate::syntax::module_id_options_of(
            ExprView::Ident(id_ident),
        ),
        TurbopackImportView::BuildTransition { id_ident, .. } => {
            crate::syntax::module_id_options_of(ExprView::Ident(id_ident))
        },
        TurbopackImportView::BuildId { id_ident, .. } => crate::syntax::module_id_options_of(
            ExprView::Ident(id_ident),
        ),
    }
}

/// A call of the loader that has no argument, or more than two, or a second
/// argument that is no object literal, and in whose arguments there is no
/// further loader call, comes out of the pass as it went in, arguments and
/// all; exactly one complaint is made, at its callee, and nothing else of the
/// state changes.
pub proof fn law_defective_call_comes_out_as_it_went_in(p: PatcherView, c: CallExprView)
    requires
        calls_loader(p.dynamic_bindings, c),
        have_no_loader_call(p.dynamic_bindings, c.args, c.args.len()),
        call_defect(c) is Some,
    ensures
        fold_call_expr(p, c).1 == c,
        fold_call_expr(p, c).0 == report(p, c.callee->Ident_0, call_defect(c)->0),
        fold_call_expr(p, c).0.diagnostics.len() == p.diagnostics.len() + 1,
{
    law_fold_exprs_keeps_other_code(p, c.args, c.args.len());
    assert(c.args.take(c.args.len() as int) =~= c.args);
    let c1 = CallExprView { callee: Box::new(*c.callee), args: c.args };
    assert(c1 == c);
}

/// The pass over a plain loader call annotates it for the specifier it
/// loads: the arguments are otherwise left as they are, no complaint is made,
/// the call gets two arguments, and its options begin with
/// `loadableGenerated` and go on with the members that were there, in their
/// order.
pub proof fn law_plain_loader_call_is_annotated(p: PatcherView, c: CallExprView)
    requires
        is_plain_loader_call(p.dynamic_bindings, c),
    ensures
        fold_call_expr(p, c) == rewrite_call(p, c, Some(loaded(c))),
        fold_call_expr(p, c) == crate::model::annotate(p, c, loaded(c)),
        fold_call_expr(p, c).0.diagnostics == p.diagnostics,
        fold_call_expr(p, c).0.dynamic_bindings == p.dynamic_bindings,
        fold_call_expr(p, c).1.callee == c.callee,
        fold_call_expr(p, c).1.args.len() == 2,
        fold_call_expr(p, c).1.args[1] == ExprView::Object(
            seq![
                key_value_of(generated_key(), ExprView::Object(generate(p, loaded(c)).1)),
            ] + options_of(c),
        ),
{
    law_fold_exprs_keeps_other_code(p, c.args, c.args.len());
    assert(c.args.take(c.args.len() as int) =~= c.args);
    let c1 = CallExprView { callee: Box::new(*c.callee), args: c.args };
    assert(c1 == c);
    law_find_specifier_is_last_import(c.args[0]);
}

/// In `Webpack` mode, in development or on the server, a plain loader call
/// gets `loadableGenerated: { modules: ["{file} -> " + "{specifier}"] }` as
/// the first of its options: one key, a list of one element, the sum of two
/// string literals, of which the first is the name of the file under
/// compilation relative to the pages directory followed by ` -> ` and the
/// second the specifier. No complaint is made.
pub proof fn law_plain_call_gets_webpack_key(p: PatcherView, c: CallExprView)
    requires
        is_plain_loader_call(p.dynamic_bindings, c),
        p.state is Webpack,
        p.is_development || p.is_server,
    ensures
        fold_call_expr(p, c).1.args.len() == 2,
        fold_call_expr(p, c).1.args[1] == ExprView::Object(
            seq![
                key_value_of(
                    generated_key(),
                    ExprView::Object(
                        seq![
                            key_value_of(
                                "modules"@,
                                ExprView::Array(
                                    seq![
                                        module_key_of(
                                            rel_filename_of(p.pages_dir, p.filename),
                                            loaded(c).value,
                                        ),
                                    ],
                                ),
                            ),
                        ],
                    ),
                ),
            ] + options_of(c),
        ),
        fold_call_expr(p, c).0.diagnostics == p.diagnostics,
        fold_call_expr(p, c).0.state == p.state,
{
    law_plain_loader_call_is_annotated(p, c);
    law_webpack_key(p, loaded(c));
}

/// In `Webpack` mode, in a client build, a plain loader call gets
/// `loadableGenerated: { webpack: () => [require.resolveWeak("{specifier}")] }`
/// as the first of its options: the one key `webpack`, and as its value an
/// arrow function without parameters that is not async and whose body is the
/// list of the one call.
pub proof fn law_plain_call_gets_weak_resolve(p: PatcherView, c: CallExprView)
    requires
        is_plain_loader_call(p.dynamic_bindings, c),
        p.state is Webpack,
        !p.is_development,
        !p.is_server,
    ensures
        fold_call_expr(p, c).1.args.len() == 2,
        fold_call_expr(p, c).1.args[1] == ExprView::Object(
            seq![
                key_value_of(
                    generated_key(),
                    ExprView::Object(
                        seq![
                            key_value_of(
                                "webpack"@,
                                ExprView::Arrow {
                                    is_async: false,
                                    params: Seq::empty(),
                                    body: Box::new(
                                        ExprView::Array(seq![resolve_weak_of(loaded(c).value)]),
                                    ),
                                },
                            ),
                        ],
                    ),
                ),
            ] + options_of(c),
        ),
        fold_call_expr(p, c).0.diagnostics == p.diagnostics,
{
    law_plain_loader_call_is_annotated(p, c);
    law_webpack_client_build(p, loaded(c));
}

/// In `Turbopack` mode the pass over a plain loader call puts exactly one
/// import at the end of the queue and leaves the imports before it as they
/// are. The import is for the specifier of the call and of the kind that
/// goes with the compilation, and what the call gets as its
/// `loadableGenerated` names the identifiers of that import and no others.
pub proof fn law_plain_call_queues_its_import(p: PatcherView, c: CallExprView)
    requires
        is_plain_loader_call(p.dynamic_bindings, c),
        p.state is Turbopack,
    ensures
        ({
            let q = fold_call_expr(p, c).0;
            let import = q.state->imports.last();
            &&& q.state is Turbopack
            &&& q.state->imports == p.state->imports.push(import)
            &&& specifier_of(import) == loaded(c).value
            &&& import_kind_matches(p, import)
            &&& bound_by(import)[0] == crate::ast::private_ident(
                "id"@,
                loaded(c).span,
                p.issued.len(),
            )
            &&& q.issued == p.issued + bound_by(import)
            &&& fold_call_expr(p, c).1.args[1] == ExprView::Object(
                seq![key_value_of(generated_key(), ExprView::Object(metadata_for(import)))]
                    + options_of(c),
            )
        }),
{
    law_plain_loader_call_is_annotated(p, c);
    law_turbopack_queues_one_import(p, loaded(c));
    law_turbopack_import_binds_fresh_identifiers(p, loaded(c));
    let q = fold_call_expr(p, c).0;
    assert(q.state->imports =~= p.state->imports.push(q.state->imports.last()));
}

/// Where a plain loader call says `ssr: false`, and the module is compiled
/// for the server and not for the layer of server components, the loader
/// becomes an async arrow function without parameters whose body is the one
/// statement `__nextjs_pure(loader)`; the pass remembers that the module
/// needs the import of the helper; and the options still say `ssr: false`,
/// behind `loadableGenerated`.
pub proof fn law_plain_call_with_ssr_false_is_wrapped(p: PatcherView, c: CallExprView)
    requires
        is_plain_loader_call(p.dynamic_bindings, c),
        has_ssr_false(options_of(c)),
        p.is_server,
        !p.is_rsc_server_layer,
    ensures
        fold_call_expr(p, c).1.args[0] == (ExprView::ArrowBlock {
            is_async: true,
            params: Seq::empty(),
            body: seq![
                StmtView::Expr(
                    ExprView::Call(
                        CallExprView {
                            callee: Box::new(
                                ExprView::Ident(crate::ast::plain_ident("__nextjs_pure"@)),
                            ),
                            args: seq![c.args[0]],
                        },
                    ),
                ),
            ],
        }),
        fold_call_expr(p, c).0.added_nextjs_pure_import,
        options_of(fold_call_expr(p, c).1).drop_first() == options_of(c),
        has_ssr_false(options_of(fold_call_expr(p, c).1)),
{
    law_plain_loader_call_is_annotated(p, c);
    law_ssr_false_wraps_loader(p, c, loaded(c));
    let before = options_of(c);
    let after = options_of(fold_call_expr(p, c).1);
    assert(after.drop_first() =~= before);
    let k = choose|k: int| 0 <= k < before.len() && crate::model::is_ssr_false(#[trigger] before[k]);
    assert(after[k + 1] == before[k]);
}

/// Where the module is compiled for the layer of server components, or for
/// the client, the loader of a plain loader call stays as it is, whatever the
/// options say; what the pass remembers of the import of the helper does not
/// change; and the options are `loadableGenerated` followed by every member
/// that was there, unchanged and in its order.
pub proof fn law_plain_call_keeps_its_loader(p: PatcherView, c: CallExprView)
    requires
        is_plain_loader_call(p.dynamic_bindings, c),
        p.is_rsc_server_layer || !p.is_server,
    ensures
        fold_call_expr(p, c).1.args[0] == c.args[0],
        fold_call_expr(p, c).0.added_nextjs_pure_import == p.added_nextjs_pure_import,
        options_of(fold_call_expr(p, c).1) == seq![
            key_value_of(generated_key(), ExprView::Object(generate(p, loaded(c)).1)),
        ] + options_of(c),
{
    law_plain_loader_call_is_annotated(p, c);
    law_loader_is_kept(p, c, loaded(c));
}

// ----- The pass over a module, from the shape of the module -----

/// The identifiers that are bound to the loader once the first `n` items of
/// a module body were seen, when `b` were bound before: every import of the
/// loader module adds the bindings it makes for the default export.
pub open spec fn bindings_after(b: Seq<IdView>, items: Seq<ModuleItemView>, n: nat) -> Seq<IdView>
    decreases n,
{
    if n == 0 || n > items.len() {
        b
    } else {
        let before = bindings_after(b, items, (n - 1) as nat);
        match items[n - 1] {
            ModuleItemView::Import(decl) => if decl.src.value == crate::model::loader_module() {
                before + crate::model::default_locals(decl.specifiers)
            } else {
                before
            },
            ModuleItemView::Stmt(_) => before,
        }
    }
}

/// The call that a statement consists of: the statement is the call, or it
/// is a statement of another kind whose one part is the call, as a
/// declaration of one variable is.
pub open spec fn call_of(item: ModuleItemView) -> Option<CallExprView> {
    match item {
        ModuleItemView::Stmt(StmtView::Expr(ExprView::Call(c))) => Some(c),
        ModuleItemView::Stmt(StmtView::Other { exprs, stmts, .. }) => if exprs.len() == 1
            && stmts.len() == 0 {
            match exprs[0] {
                ExprView::Call(c) => Some(c),
                _ => None,
            }
        } else {
            None
        },
        _ => None,
    }
}

/// Whether an item consists of a plain loader call, with `b` bound to the
/// loader.
pub open spec fn is_plain_call_item(b: Seq<IdView>, item: ModuleItemView) -> bool {
    call_of(item) matches Some(c) && is_plain_loader_call(b, c)
}

/// Whether an item is an import, a statement without a loader call, or a
/// statement that consists of a plain loader call.
pub open spec fn is_plain_item(b: Seq<IdView>, item: ModuleItemView) -> bool {
    match item {
        ModuleItemView::Import(_) => true,
        ModuleItemView::Stmt(s) => stmt_has_no_loader_call(b, s) || is_plain_call_item(b, item),
    }
}

/// Whether each of the first `n` items of a module body is a plain item, with
/// the bindings of the loader as they are when the pass comes to it.
pub open spec fn is_plain_body(b: Seq<IdView>, items: Seq<ModuleItemView>, n: nat) -> bool
    decreases n,
{
    if n == 0 || n > items.len() {
        true
    } else {
        is_plain_body(b, items, (n - 1) as nat) && is_plain_item(
            bindings_after(b, items, (n - 1) as nat),
            items[n - 1],
        )
    }
}

/// The specifiers that the plain loader calls among the first `n` items load,
/// in the order of the items.
pub open spec fn loaded_by(b: Seq<IdView>, items: Seq<ModuleItemView>, n: nat) -> Seq<
    SpecifierView,
>
    decreases n,
{
    if n == 0 || n > items.len() {
        Seq::empty()
    } else {
        let before = loaded_by(b, items, (n - 1) as nat);
        if is_plain_call_item(bindings_after(b, items, (n - 1) as nat), items[n - 1]) {
            before.push(loaded(call_of(items[n - 1])->0))
        } else {
            before
        }
    }
}

/// The pass tracks the bindings of the loader as `bindings_after` says.
pub proof fn law_bindings_follow_the_imports(p: PatcherView, items: Seq<ModuleItemView>, n: nat)
    ensures
        crate::model::fold_items(p, items, n).0.dynamic_bindings == bindings_after(
            p.dynamic_bindings,
            items,
            n,
        ),
    decreases n,
{
    if !(n == 0 || n > items.len()) {
        let p1 = crate::model::fold_items(p, items, (n - 1) as nat).0;
        law_bindings_follow_the_imports(p, items, (n - 1) as nat);
        match items[n - 1] {
            ModuleItemView::Import(_) => {},
            ModuleItemView::Stmt(s) => {
                law_fold_stmt_only_adds(p1, s);
            },
        }
    }
}

/// The pass over the first `n` items of a module body gives `n` items.
pub proof fn lemma_fold_items_len(p: PatcherView, items: Seq<ModuleItemView>, n: nat)
    requires
        n <= items.len(),
    ensures
        crate::model::fold_items(p, items, n).1.len() == n,
    decreases n,
{
    if n > 0 {
        lemma_fold_items_len(p, items, (n - 1) as nat);
    }
}

/// The pass over an item that consists of a plain loader call changes the
/// state as the pass over the call does.
pub proof fn law_plain_call_item_is_annotated(p: PatcherView, item: ModuleItemView)
    requires
        is_plain_call_item(p.dynamic_bindings, item),
    ensures
        crate::model::fold_module_item(p, item).0 == fold_call_expr(p, call_of(item)->0).0,
        call_of(crate::model::fold_module_item(p, item).1) == Some(
            fold_call_expr(p, call_of(item)->0).1,
        ),
{
    let c = call_of(item)->0;
    match item {
        ModuleItemView::Stmt(StmtView::Other { tag, exprs, stmts }) => {
            reveal_with_fuel(fold_exprs, 2);
            reveal_with_fuel(fold_stmts, 1);
            assert(fold_exprs(p, exprs, 1).1 =~= seq![ExprView::Call(fold_call_expr(p, c).1)]);
            assert(fold_stmts(fold_call_expr(p, c).0, stmts, 0).1 =~= Seq::empty());
        },
        _ => {},
    }
}

/// The pass over an item that is an import or a statement without a loader
/// call leaves the queue of pending imports, the private identifiers, the
/// complaints and what is noted of the helper import as they are; a
/// statement stays as it is.
pub proof fn law_other_item_is_kept(p: PatcherView, item: ModuleItemView)
    requires
        is_plain_item(p.dynamic_bindings, item),
        !is_plain_call_item(p.dynamic_bindings, item),
    ensures
        crate::model::fold_module_item(p, item).1 == item,
        crate::model::fold_module_item(p, item).0 == (PatcherView {
            dynamic_bindings: crate::model::fold_module_item(p, item).0.dynamic_bindings,
            ..p
        }),
{
    match item {
        ModuleItemView::Import(_) => {},
        ModuleItemView::Stmt(s) => {
            law_fold_stmt_keeps_other_code(p, s);
        },
    }
}

/// In `Turbopack` mode the pass over a body of plain items queues one import
/// for each plain loader call, in the order of the calls: the imports that
/// were pending stay, and behind them come, call by call, an import for the
/// specifier that the call loads, of the kind that goes with the compilation.
pub proof fn law_plain_body_queues_imports_in_call_order(
    p: PatcherView,
    items: Seq<ModuleItemView>,
    n: nat,
)
    requires
        p.state is Turbopack,
        n <= items.len(),
        is_plain_body(p.dynamic_bindings, items, n),
    ensures
        ({
            let q = crate::model::fold_items(p, items, n).0;
            let calls = loaded_by(p.dynamic_bindings, items, n);
            let old_len = p.state->imports.len() as int;
            &&& q.state is Turbopack
            &&& q.state->dynamic_transition_name == p.state->dynamic_transition_name
            &&& q.state->imports.len() == old_len + calls.len()
            &&& forall|j: int| 0 <= j < old_len ==> q.state->imports[j] == p.state->imports[j]
            &&& forall|j: int|
                0 <= j < calls.len() ==> specifier_of(#[trigger] q.state->imports[old_len + j])
                    == calls[j].value && import_kind_matches(p, q.state->imports[old_len + j])
        }),
    decreases n,
{
    if n > 0 {
        let b = p.dynamic_bindings;
        let p1 = crate::model::fold_items(p, items, (n - 1) as nat).0;
        let item = items[n - 1];
        law_plain_body_queues_imports_in_call_order(p, items, (n - 1) as nat);
        law_bindings_follow_the_imports(p, items, (n - 1) as nat);
        law_fold_items_only_adds(p, items, (n - 1) as nat);
        let q = crate::model::fold_items(p, items, n).0;
        let old_len = p.state->imports.len() as int;
        let before = loaded_by(b, items, (n - 1) as nat);
        let calls = loaded_by(b, items, n);
        assert(q == crate::model::fold_module_item(p1, item).0);
        if is_plain_call_item(p1.dynamic_bindings, item) {
            let c = call_of(item)->0;
            law_plain_call_item_is_annotated(p1, item);
            law_plain_call_queues_its_import(p1, c);
            law_fold_call_expr_only_adds(p1, c);
            assert(calls == before.push(loaded(c)));
            let import = q.state->imports.last();
            assert(q.state->imports == p1.state->imports.push(import));
            assert(import_kind_matches(p, import));
            assert forall|j: int| 0 <= j < calls.len() implies specifier_of(
                #[trigger] q.state->imports[old_len + j],
            ) == calls[j].value && import_kind_matches(p, q.state->imports[old_len + j]) by {
                if j < before.len() {
                    assert(q.state->imports[old_len + j] == p1.state->imports[old_len + j]);
                    assert(calls[j] == before[j]);
                } else {
                    assert(q.state->imports[old_len + j] == import);
                }
            }
        } else {
            law_other_item_is_kept(p1, item);
            assert(calls == before);
            assert(q.state == p1.state);
        }
    }
}

/// The whole of it for a module in `Turbopack` mode whose body is of plain
/// items, when no import is pending: the body that the pass gives begins
/// with one marker and one import declaration for each plain loader call, in
/// the order of the calls, and goes on with the items of the module, as many
/// as there were.
pub proof fn law_plain_module_gets_one_import_per_call(p: PatcherView, items: Seq<ModuleItemView>)
    requires
        p.state is Turbopack,
        p.state->imports.len() == 0,
        is_plain_body(p.dynamic_bindings, items, items.len()),
    ensures
        ({
            let calls = loaded_by(p.dynamic_bindings, items, items.len());
            let queue = crate::model::fold_items(p, items, items.len()).0.state->imports;
            let name = p.state->dynamic_transition_name;
            let out = fold_module_items(p, items).1;
            &&& queue.len() == calls.len()
            &&& out.len() == 2 * calls.len() + items.len()
            &&& forall|j: int|
                0 <= j < calls.len() ==> {
                    &&& out[2 * j] == import_marker_of(name, #[trigger] queue[j])
                    &&& out[2 * j + 1] == import_decl_of(queue[j])
                    &&& specifier_of(queue[j]) == calls[j].value
                    &&& import_kind_matches(p, queue[j])
                }
            &&& forall|i: int|
                0 <= i < items.len() ==> out[2 * calls.len() + i] == crate::model::fold_items(
                    p,
                    items,
                    items.len(),
                ).1[i]
        }),
{
    law_plain_body_queues_imports_in_call_order(p, items, items.len());
    lemma_fold_items_len(p, items, items.len());
    let q = crate::model::fold_items(p, items, items.len()).0;
    let queue = q.state->imports;
    assert forall|j: int| 0 <= j < queue.len() implies specifier_of(#[trigger] queue[j])
        == loaded_by(p.dynamic_bindings, items, items.len())[j].value && import_kind_matches(
        p,
        queue[j],
    ) by {
        assert(queue[0 + j] == queue[j]);
    }
}

/// Once the pass has come past an item that consists of a plain loader call
/// which says `ssr: false`, in a module compiled for the server and not for
/// the layer of server components, it has noted that the module needs the
/// import of the helper.
pub proof fn lemma_wrapped_call_is_noted(
    p: PatcherView,
    items: Seq<ModuleItemView>,
    k: int,
    n: nat,
)
    requires
        p.is_server,
        !p.is_rsc_server_layer,
        0 <= k < n <= items.len(),
        is_plain_call_item(bindings_after(p.dynamic_bindings, items, k as nat), items[k]),
        has_ssr_false(options_of(call_of(items[k])->0)),
    ensures
        crate::model::fold_items(p, items, n).0.added_nextjs_pure_import,
    decreases n,
{
    let p1 = crate::model::fold_items(p, items, (n - 1) as nat).0;
    if n == k + 1 {
        law_bindings_follow_the_imports(p, items, k as nat);
        law_fold_items_only_adds(p, items, k as nat);
        law_plain_call_item_is_annotated(p1, items[k]);
        law_plain_call_with_ssr_false_is_wrapped(p1, call_of(items[k])->0);
    } else {
        lemma_wrapped_call_is_noted(p, items, k, (n - 1) as nat);
        law_fold_module_item_only_adds(p1, items[n - 1]);
    }
}

/// A module compiled for the server, and not for the layer of server
/// components, in which some item consists of a plain loader call that says
/// `ssr: false`, gets the import of the helper as its first item, once, however
/// many such calls it holds. In `Webpack` mode nothing else is added: the
/// module gets exactly one item more, and its own items follow the import in
/// their order.
pub proof fn law_module_with_wrapped_call_gets_helper(p: PatcherView, m: ModuleView, k: int)
    requires
        p.is_server,
        !p.is_rsc_server_layer,
        0 <= k < m.body.len(),
        is_plain_call_item(bindings_after(p.dynamic_bindings, m.body, k as nat), m.body[k]),
        has_ssr_false(options_of(call_of(m.body[k])->0)),
    ensures
        fold_module(p, m).0.added_nextjs_pure_import,
        fold_module(p, m).1.body == seq![pure_import_of()] + fold_module_items(p, m.body).1,
        fold_module(p, m).1.body[0] == pure_import_of(),
        p.state is Webpack ==> fold_module(p, m).1.body.len() == m.body.len() + 1,
        p.state is Webpack ==> forall|i: int|
            0 <= i < m.body.len() ==> #[trigger] fold_module(p, m).1.body[i + 1]
                == crate::model::fold_items(p, m.body, m.body.len()).1[i],
{
    lemma_wrapped_call_is_noted(p, m.body, k, m.body.len());
    lemma_fold_items_len(p, m.body, m.body.len());
    law_fold_items_only_adds(p, m.body, m.body.len());
}

/// The identifier that a specifier of an import binds.
pub open spec fn local_of(s: ImportSpecifierView) -> IdentView {
    match s {
        ImportSpecifierView::Default { local } => local,
        ImportSpecifierView::Named { local, .. } => local,
        ImportSpecifierView::Namespace { local } => local,
    }
}

/// The import declaration for a pending import binds the identifiers of that
/// import, in their order, and no others.
pub proof fn law_import_declaration_binds_its_identifiers(import: TurbopackImportView)
    ensures
        import_decl_of(import) is Import,
        import_decl_of(import)->Import_0.specifiers.len() == bound_by(import).len(),
        forall|j: int|
            0 <= j < bound_by(import).len() ==> local_of(
                #[trigger] import_decl_of(import)->Import_0.specifiers[j],
            ) == bound_by(import)[j],
{
}

/// The identifiers that the imports put before a module bind are private
/// identifiers that the pass made: each has its own serial number, so that no
/// two of them denote the same binding, and none denotes a binding of an
/// identifier of the module where no identifier of the module has a private
/// context.
pub proof fn law_imports_bind_identifiers_of_their_own(p: PatcherView, m: ModuleView)
    requires
        serials_in_order(p.issued),
        pending_are_latest(p),
    ensures
        ({
            let q = crate::model::fold_items(p, m.body, m.body.len()).0;
            let bound = bound_by_all(pending(q.state));
            let first = q.issued.len() - bound.len();
            &&& bound.len() <= q.issued.len()
            &&& forall|j: int|
                0 <= j < bound.len() ==> (#[trigger] bound[j]) == q.issued[first + j] && bound[j].ctxt
                    == SyntaxContext::Private((first + j) as usize)
            &&& q.issued.len() <= usize::MAX ==> forall|i: int, j: int|
                0 <= i < j < bound.len() ==> crate::ast::id_of(#[trigger] bound[i])
                    != crate::ast::id_of(#[trigger] bound[j])
            &&& has_no_private_identifier(m) ==> forall|i: IdentView, j: int|
                #[trigger] occurs_in_module(i, m) && 0 <= j < bound.len() ==> crate::ast::id_of(
                    #[trigger] bound[j],
                ) != crate::ast::id_of(i)
        }),
{
    law_fold_items_only_adds(p, m.body, m.body.len());
    let q = crate::model::fold_items(p, m.body, m.body.len()).0;
    let bound = bound_by_all(pending(q.state));
    let first = q.issued.len() - bound.len();
    assert forall|j: int| 0 <= j < bound.len() implies (#[trigger] bound[j]) == q.issued[first
        + j] && bound[j].ctxt == SyntaxContext::Private((first + j) as usize) by {
        assert(q.issued.skip(first)[j] == q.issued[first + j]);
    }
}

} // verus!
