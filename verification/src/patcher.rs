//! The pass itself: a patcher that is taken over a module once.

use vstd::prelude::*;
use crate::ast::{
    exprs_view, id_of, idents_view, ids_view, items_view, lemma_exprs_view_push,
    lemma_items_view_push, private_ident, props_view, specifiers_view, stmts_view, CallExpr,
    Expr, Id, Ident, ImportDecl, ImportSpecifier, Module, ModuleItem, Prop, Span, Stmt,
};
use crate::capture::find_specifier;
use crate::filename::{rel_filename, text_of, FileName};
use crate::model;
use crate::model::PatcherView;
use crate::names::PrivateIdents;
use crate::state::{
    diagnostics_view, found_view, imports_view, Diagnostic, DiagnosticView, NextDynamicMode,
    NextDynamicPatcherState, PendingSpecifier, TurbopackImport,
};
use crate::syntax::{
    import_items, key_value, module_id_options, module_key, one_prop, pure_import, pure_loader,
    resolve_weak, stringified_ids, webpack_options,
};

verus! {

broadcast use vstd::std_specs::vec::group_vec_axioms;

/// A pass over one module. It is made by `next_dynamic` and taken over the
/// module by `fold_module`.
#[derive(Debug)]
pub struct NextDynamicPatcher {
    is_development: bool,
    is_server: bool,
    is_rsc_server_layer: bool,
    pages_dir: Option<String>,
    filename: FileName,
    dynamic_bindings: Vec<Id>,
    state: NextDynamicPatcherState,
    added_nextjs_pure_import: bool,
    diagnostics: Vec<Diagnostic>,
    issued: PrivateIdents,
}

impl View for NextDynamicPatcher {
    type V = PatcherView;

    closed spec fn view(&self) -> PatcherView {
        PatcherView {
            is_development: self.is_development,
            is_server: self.is_server,
            is_rsc_server_layer: self.is_rsc_server_layer,
            pages_dir: text_of(self.pages_dir),
            filename: self.filename@,
            dynamic_bindings: ids_view(self.dynamic_bindings@),
            state: self.state@,
            added_nextjs_pure_import: self.added_nextjs_pure_import,
            diagnostics: diagnostics_view(self.diagnostics@),
            issued: self.issued@,
        }
    }
}

/// Makes a pass that gives calls of the `next/dynamic` loader their
/// `loadableGenerated` property.
///
/// `filename` is the file under compilation and `pages_dir` the directory that
/// the file names in generated keys are relative to.
pub fn next_dynamic(
    is_development: bool,
    is_server: bool,
    is_rsc_server_layer: bool,
    mode: NextDynamicMode,
    filename: FileName,
    pages_dir: Option<String>,
) -> (r: NextDynamicPatcher)
    ensures
        r@ == model::initial(
            is_development,
            is_server,
            is_rsc_server_layer,
            mode@,
            filename@,
            text_of(pages_dir),
        ),
{
    let state = match mode {
        NextDynamicMode::Webpack => NextDynamicPatcherState::Webpack,
        NextDynamicMode::Turbopack { dynamic_transition_name } => {
            NextDynamicPatcherState::Turbopack { dynamic_transition_name, imports: Vec::new() }
        },
    };
    NextDynamicPatcher {
        is_development,
        is_server,
        is_rsc_server_layer,
        pages_dir,
        filename,
        dynamic_bindings: Vec::new(),
        state,
        added_nextjs_pure_import: false,
        diagnostics: Vec::new(),
        issued: PrivateIdents::new(),
    }
}

/// Whether a member of an options object is `ssr: false`.
pub fn is_ssr_false(prop: &Prop) -> (r: bool)
    ensures
        r == model::is_ssr_false(prop@),
{
    match prop {
        Prop::KeyValue { key, computed, value } => {
            let named = match key {
                Expr::Ident(name) => name.sym == "ssr".to_owned(),
                _ => false,
            };
            let is_false = match value {
                Expr::Bool(b) => !*b,
                _ => false,
            };
            !*computed && named && is_false
        },
        _ => false,
    }
}

/// Whether some member of an options object is `ssr: false`.
pub fn has_ssr_false(props: &Vec<Prop>) -> (r: bool)
    ensures
        r == model::has_ssr_false(props_view(props@)),
{
    let mut i: usize = 0;
    while i < props.len()
        invariant
            i <= props.len(),
            forall|j: int| 0 <= j < i ==> !model::is_ssr_false(#[trigger] props_view(props@)[j]),
        decreases props.len() - i,
    {
        if is_ssr_false(&props[i]) {
            assert(model::is_ssr_false(props_view(props@)[i as int]));
            return true;
        }
        i += 1;
    }
    false
}

impl NextDynamicPatcher {
    /// Whether some call seen so far had its loader wrapped, so that the
    /// module needs the import of the helper that the wrappers call.
    pub fn added_nextjs_pure_import(&self) -> (r: bool)
        ensures
            r == self@.added_nextjs_pure_import,
    {
        self.added_nextjs_pure_import
    }

    /// The complaints made so far, oldest first.
    pub fn diagnostics(&self) -> (r: &Vec<Diagnostic>)
        ensures
            diagnostics_view(r@) == self@.diagnostics,
    {
        &self.diagnostics
    }

    /// Hands out the complaints made so far, oldest first, and forgets them.
    pub fn take_diagnostics(&mut self) -> (r: Vec<Diagnostic>)
        ensures
            diagnostics_view(r@) == old(self)@.diagnostics,
            final(self)@ == (PatcherView { diagnostics: Seq::empty(), ..old(self)@ }),
    {
        let mut taken: Vec<Diagnostic> = Vec::new();
        core::mem::swap(&mut self.diagnostics, &mut taken);
        taken
    }

    /// The state of the strategy that identifies loaded modules; in
    /// `Turbopack` mode it holds the imports that are still to be added.
    pub fn state(&self) -> (r: &NextDynamicPatcherState)
        ensures
            r@ == self@.state,
    {
        &self.state
    }

    /// The private identifiers made so far, oldest first. The place of each
    /// in the list is its serial number, so no two of them are the same.
    pub fn issued(&self) -> (r: &Vec<Ident>)
        ensures
            idents_view(r@) == self@.issued,
            model::serials_in_order(self@.issued),
    {
        self.issued.issued()
    }

    /// Whether `ident` is bound to the loader.
    pub fn is_tracked(&self, ident: &Ident) -> (r: bool)
        ensures
            r == self@.dynamic_bindings.contains(id_of(ident@)),
    {
        let id = ident.to_id();
        let mut i: usize = 0;
        while i < self.dynamic_bindings.len()
            invariant
                i <= self.dynamic_bindings.len(),
                id@ == id_of(ident@),
                forall|j: int| 0 <= j < i ==> ids_view(self.dynamic_bindings@)[j] != id@,
            decreases self.dynamic_bindings.len() - i,
        {
            if self.dynamic_bindings[i].same(&id) {
                assert(ids_view(self.dynamic_bindings@)[i as int] == id@);
                return true;
            }
            i += 1;
        }
        false
    }

    /// Takes note of an import declaration: where it imports `next/dynamic`,
    /// every binding of the default export is tracked as the loader from now
    /// on. The declaration itself stays as it is.
    pub fn fold_import_decl(&mut self, decl: ImportDecl) -> (r: ImportDecl)
        ensures
            final(self)@ == model::fold_import_decl(old(self)@, decl@).0,
            r == decl,
    {
        if decl.src.value == "next/dynamic".to_owned() {
            let ghost specifiers = specifiers_view(decl.specifiers@);
            let mut i: usize = 0;
            while i < decl.specifiers.len()
                invariant
                    i <= decl.specifiers.len(),
                    specifiers == specifiers_view(decl.specifiers@),
                    self@ == (PatcherView {
                        dynamic_bindings: old(self)@.dynamic_bindings + model::default_locals(
                            specifiers.take(i as int),
                        ),
                        ..old(self)@
                    }),
                decreases decl.specifiers.len() - i,
            {
                proof {
                    specifiers.lemma_filter_map_take_succ(model::default_local_fn(), i as int);
                }
                match &decl.specifiers[i] {
                    ImportSpecifier::Default { local } => {
                        let id = local.to_id();
                        assert(ids_view(self.dynamic_bindings@.push(id)) =~= ids_view(
                            self.dynamic_bindings@,
                        ).push(id@));
                        self.dynamic_bindings.push(id);
                    },
                    _ => {},
                }
                i += 1;
            }
            assert(specifiers.take(i as int) =~= specifiers);
        }
        decl
    }

    /// Whether `call` is a call of the loader with nothing wrong with its
    /// arguments: one or two of them, the second an object literal.
    pub fn is_valid_loader_call(&self, call: &CallExpr) -> (r: bool)
        ensures
            r == model::is_valid_loader_call(self@, call@),
    {
        let bound = match &*call.callee {
            Expr::Ident(i) => self.is_tracked(i),
            _ => false,
        };
        if !bound || call.args.len() == 0 || call.args.len() > 2 {
            return false;
        }
        if call.args.len() == 2 {
            assert(call@.args[1] == call.args[1]@);
            match &call.args[1] {
                Expr::Object(_) => true,
                _ => false,
            }
        } else {
            true
        }
    }

    /// Notes a complaint about the call whose callee stands at `span`.
    fn report(&mut self, span: Span, message: &str)
        ensures
            final(self)@ == (PatcherView {
                diagnostics: old(self)@.diagnostics.push(
                    DiagnosticView { span, message: message@ },
                ),
                ..old(self)@
            }),
    {
        let d = Diagnostic { span, message: message.to_owned() };
        self.diagnostics.push(d);
    }

    /// Makes the private identifier named `sym` for the literal at `span`.
    /// Its serial number is the number of private identifiers made before it,
    /// so no two of them are the same.
    fn fresh_ident(&mut self, sym: &str, span: Span) -> (r: Ident)
        ensures
            r@ == private_ident(sym@, span, old(self)@.issued.len()),
            final(self)@ == (PatcherView { issued: old(self)@.issued.push(r@), ..old(self)@ }),
    {
        self.issued.fresh(sym, span)
    }

    /// Puts `import` at the end of the queue of pending imports. In `Webpack`
    /// mode there is no queue and nothing happens.
    fn push_import(&mut self, import: TurbopackImport)
        ensures
            final(self)@ == model::enqueue(old(self)@, Seq::empty(), import@),
    {
        match &mut self.state {
            NextDynamicPatcherState::Webpack => {},
            NextDynamicPatcherState::Turbopack { imports, .. } => {
                imports.push(import);
            },
        }
    }

    /// Makes what identifies the module that a call loads: the members of the
    /// object that becomes the value of `loadableGenerated`.
    ///
    /// In `Webpack` mode this is, in development and on the server, a key for
    /// the manifest of loadable modules,
    /// `modules: ["{file} -> " + "{specifier}"]`, and in a client build
    /// `webpack: () => [require.resolveWeak("{specifier}")]`.
    ///
    /// In `Turbopack` mode it is `modules: [id]` for a private identifier `id`
    /// that an import yet to be added binds to the id of the module; in
    /// development on the server the import also binds the chunks of the
    /// module, and the key is `JSON.stringify({ id, chunks })`, a string, as
    /// it indexes the manifest. The import is put in the queue.
    pub fn generate(&mut self, specifier: PendingSpecifier) -> (props: Vec<Prop>)
        ensures
            final(self)@ == model::generate(old(self)@, specifier@).0,
            props_view(props@) == model::generate(old(self)@, specifier@).1,
    {
        let is_webpack = match &self.state {
            NextDynamicPatcherState::Webpack => true,
            NextDynamicPatcherState::Turbopack { .. } => false,
        };
        if is_webpack {
            if self.is_development || self.is_server {
                let base = match &self.pages_dir {
                    Some(dir) => Some(dir.as_str()),
                    None => None,
                };
                module_id_options(module_key(rel_filename(base, &self.filename), specifier.value))
            } else {
                webpack_options(resolve_weak(specifier.value))
            }
        } else {
            let id_ident = self.fresh_ident("id", specifier.span);
            if self.is_development && self.is_server {
                let chunks_ident = self.fresh_ident("chunks", specifier.span);
                self.push_import(
                    TurbopackImport::DevelopmentTransition {
                        id_ident: id_ident.duplicate(),
                        chunks_ident: chunks_ident.duplicate(),
                        specifier: specifier.value,
                    },
                );
                module_id_options(stringified_ids(id_ident, chunks_ident))
            } else {
                let import = if self.is_development {
                    TurbopackImport::DevelopmentId {
                        id_ident: id_ident.duplicate(),
                        specifier: specifier.value,
                    }
                } else if self.is_server {
                    TurbopackImport::BuildTransition {
                        id_ident: id_ident.duplicate(),
                        specifier: specifier.value,
                    }
                } else {
                    TurbopackImport::BuildId {
                        id_ident: id_ident.duplicate(),
                        specifier: specifier.value,
                    }
                };
                self.push_import(import);
                module_id_options(Expr::Ident(id_ident))
            }
        }
    }

    /// Adds the metadata to a valid loader call that loads `specifier`.
    ///
    /// The options of the call become a new object literal that begins with
    /// `loadableGenerated` and goes on with the members that were there, in
    /// their order. Where the options say `ssr: false` and the module is
    /// compiled for the server, but not for the layer of server components,
    /// the loader is wrapped so that it stays in the module graph and does not
    /// run.
    fn annotate(&mut self, call: CallExpr, specifier: PendingSpecifier) -> (r: CallExpr)
        requires
            model::call_defect(call@) is None,
        ensures
            final(self)@ == model::annotate(old(self)@, call@, specifier@).0,
            r@ == model::annotate(old(self)@, call@, specifier@).1,
    {
        let ghost before = call@;
        let generated = self.generate(specifier);
        let meta = key_value("loadableGenerated", Expr::Object(generated));
        let CallExpr { callee, mut args } = call;
        let mut options: Vec<Prop> = Vec::new();
        if args.len() == 2 {
            assert(before.args[1] == args@[1]@);
            match args.pop() {
                Some(Expr::Object(props)) => {
                    options = props;
                },
                _ => {},
            }
        }
        let loader = match args.pop() {
            Some(loader) => loader,
            None => Expr::Null,
        };
        let wrap = has_ssr_false(&options) && self.is_server && !self.is_rsc_server_layer;
        let mut props = one_prop(meta);
        assert(props_view(props@ + options@) =~= props_view(props@) + props_view(options@));
        props.append(&mut options);
        let loader = if wrap {
            self.added_nextjs_pure_import = true;
            pure_loader(loader)
        } else {
            loader
        };
        let second = Expr::Object(props);
        proof {
            lemma_exprs_view_push(args@, loader);
            lemma_exprs_view_push(args@.push(loader), second);
            assert(exprs_view(args@).push(loader@).push(second@) =~= seq![loader@, second@]);
        }
        args.push(loader);
        args.push(second);
        CallExpr { callee, args }
    }

    /// Rewrites one call site whose parts have been rewritten already.
    /// `found` is the specifier that was captured from the first argument.
    ///
    /// A call of anything but the loader is left as it is. A loader call
    /// without arguments, with more than two, or with a second argument that
    /// is no object literal is reported and left as it is. A valid loader call
    /// is left as it is where no specifier was captured, and gets its metadata
    /// where one was.
    pub fn rewrite_call(&mut self, call: CallExpr, found: Option<PendingSpecifier>) -> (r: CallExpr)
        ensures
            final(self)@ == model::rewrite_call(old(self)@, call@, found_view(found)).0,
            r@ == model::rewrite_call(old(self)@, call@, found_view(found)).1,
    {
        let callee_span = match &*call.callee {
            Expr::Ident(i) => if self.is_tracked(i) {
                Some(i.span)
            } else {
                None
            },
            _ => None,
        };
        let span = match callee_span {
            Some(span) => span,
            None => {
                return call;
            },
        };
        if call.args.len() == 0 {
            self.report(span, "next/dynamic requires at least one argument");
            return call;
        } else if call.args.len() > 2 {
            self.report(span, "next/dynamic only accepts 2 arguments");
            return call;
        }
        if call.args.len() == 2 {
            assert(call@.args[1] == call.args[1]@);
            let is_object = match &call.args[1] {
                Expr::Object(_) => true,
                _ => false,
            };
            if !is_object {
                self.report(
                    span,
                    "next/dynamic options must be an object literal.\nRead more: https://nextjs.org/docs/messages/invalid-dynamic-options-type",
                );
                return call;
            }
        }
        match found {
            Some(specifier) => self.annotate(call, specifier),
            None => call,
        }
    }

    /// The pass over a call: its callee and its arguments are rewritten
    /// first, then the specifier of the module it loads is sought in its first
    /// argument, then the call itself is rewritten.
    pub fn fold_call_expr(&mut self, expr: CallExpr) -> (r: CallExpr)
        ensures
            final(self)@ == model::fold_call_expr(old(self)@, expr@).0,
            r@ == model::fold_call_expr(old(self)@, expr@).1,
        decreases expr, 1nat,
    {
        let CallExpr { callee, args } = expr;
        let callee = self.fold_expr(*callee);
        let args = self.fold_exprs(args);
        let call = CallExpr { callee: Box::new(callee), args };
        let found = if self.is_valid_loader_call(&call) {
            find_specifier(&call.args[0])
        } else {
            None
        };
        self.rewrite_call(call, found)
    }

    /// The pass over an expression.
    pub fn fold_expr(&mut self, e: Expr) -> (r: Expr)
        ensures
            final(self)@ == model::fold_expr(old(self)@, e@).0,
            r@ == model::fold_expr(old(self)@, e@).1,
        decreases e, 1nat,
    {
        match e {
            Expr::Tpl { exprs, quasis } => {
                let exprs = self.fold_exprs(exprs);
                Expr::Tpl { exprs, quasis }
            },
            Expr::Call(c) => Expr::Call(self.fold_call_expr(c)),
            Expr::Object(props) => Expr::Object(self.fold_props(props)),
            Expr::Array(elems) => Expr::Array(self.fold_exprs(elems)),
            Expr::Arrow { is_async, params, body } => {
                let body = self.fold_expr(*body);
                Expr::Arrow { is_async, params, body: Box::new(body) }
            },
            Expr::ArrowBlock { is_async, params, body } => {
                let body = self.fold_stmts(body);
                Expr::ArrowBlock { is_async, params, body }
            },
            Expr::Bin { op, left, right } => {
                let left = self.fold_expr(*left);
                let right = self.fold_expr(*right);
                Expr::Bin { op, left: Box::new(left), right: Box::new(right) }
            },
            Expr::Unary { op, arg } => {
                let arg = self.fold_expr(*arg);
                Expr::Unary { op, arg: Box::new(arg) }
            },
            Expr::Member { obj, prop } => {
                let obj = self.fold_expr(*obj);
                Expr::Member { obj: Box::new(obj), prop }
            },
            Expr::Other { tag, exprs, stmts } => {
                let exprs = self.fold_exprs(exprs);
                let stmts = self.fold_stmts(stmts);
                Expr::Other { tag, exprs, stmts }
            },
            other => other,
        }
    }

    /// The pass over a list of expressions, one after the other.
    #[verifier::loop_isolation(false)]
    pub fn fold_exprs(&mut self, es: Vec<Expr>) -> (r: Vec<Expr>)
        ensures
            final(self)@ == model::fold_exprs(old(self)@, exprs_view(es@), es@.len()).0,
            exprs_view(r@) == model::fold_exprs(old(self)@, exprs_view(es@), es@.len()).1,
        decreases es, 0nat,
    {
        let ghost given = exprs_view(es@);
        let mut out: Vec<Expr> = Vec::new();
        for e in it: es
            invariant
                it.index() <= given.len(),
                self@ == model::fold_exprs(old(self)@, given, it.index() as nat).0,
                exprs_view(out@) == model::fold_exprs(old(self)@, given, it.index() as nat).1,
        {
            let e1 = self.fold_expr(e);
            out.push(e1);
        }
        out
    }

    /// The pass over a member of an object literal.
    pub fn fold_prop(&mut self, prop: Prop) -> (r: Prop)
        ensures
            final(self)@ == model::fold_prop(old(self)@, prop@).0,
            r@ == model::fold_prop(old(self)@, prop@).1,
        decreases prop, 1nat,
    {
        match prop {
            Prop::KeyValue { key, computed, value } => {
                let key = if computed {
                    self.fold_expr(key)
                } else {
                    key
                };
                let value = self.fold_expr(value);
                Prop::KeyValue { key, computed, value }
            },
            Prop::Shorthand(i) => Prop::Shorthand(i),
            Prop::Spread(e) => Prop::Spread(self.fold_expr(e)),
        }
    }

    /// The pass over the members of an object literal, one after the other.
    #[verifier::loop_isolation(false)]
    pub fn fold_props(&mut self, props: Vec<Prop>) -> (r: Vec<Prop>)
        ensures
            final(self)@ == model::fold_props(old(self)@, props_view(props@), props@.len()).0,
            props_view(r@) == model::fold_props(old(self)@, props_view(props@), props@.len()).1,
        decreases props, 0nat,
    {
        let ghost given = props_view(props@);
        let mut out: Vec<Prop> = Vec::new();
        for prop in it: props
            invariant
                it.index() <= given.len(),
                self@ == model::fold_props(old(self)@, given, it.index() as nat).0,
                props_view(out@) == model::fold_props(old(self)@, given, it.index() as nat).1,
        {
            let prop1 = self.fold_prop(prop);
            out.push(prop1);
        }
        out
    }

    /// The pass over a statement.
    pub fn fold_stmt(&mut self, s: Stmt) -> (r: Stmt)
        ensures
            final(self)@ == model::fold_stmt(old(self)@, s@).0,
            r@ == model::fold_stmt(old(self)@, s@).1,
        decreases s, 1nat,
    {
        match s {
            Stmt::Expr(e) => Stmt::Expr(self.fold_expr(e)),
            Stmt::Block(stmts) => Stmt::Block(self.fold_stmts(stmts)),
            Stmt::Other { tag, exprs, stmts } => {
                let exprs = self.fold_exprs(exprs);
                let stmts = self.fold_stmts(stmts);
                Stmt::Other { tag, exprs, stmts }
            },
        }
    }

    /// The pass over a list of statements, one after the other.
    #[verifier::loop_isolation(false)]
    pub fn fold_stmts(&mut self, ss: Vec<Stmt>) -> (r: Vec<Stmt>)
        ensures
            final(self)@ == model::fold_stmts(old(self)@, stmts_view(ss@), ss@.len()).0,
            stmts_view(r@) == model::fold_stmts(old(self)@, stmts_view(ss@), ss@.len()).1,
        decreases ss, 0nat,
    {
        let ghost given = stmts_view(ss@);
        let mut out: Vec<Stmt> = Vec::new();
        for s in it: ss
            invariant
                it.index() <= given.len(),
                self@ == model::fold_stmts(old(self)@, given, it.index() as nat).0,
                stmts_view(out@) == model::fold_stmts(old(self)@, given, it.index() as nat).1,
        {
            let s1 = self.fold_stmt(s);
            out.push(s1);
        }
        out
    }

    /// The pass over an item of a module body.
    pub fn fold_module_item(&mut self, item: ModuleItem) -> (r: ModuleItem)
        ensures
            final(self)@ == model::fold_module_item(old(self)@, item@).0,
            r@ == model::fold_module_item(old(self)@, item@).1,
    {
        match item {
            ModuleItem::Import(decl) => ModuleItem::Import(self.fold_import_decl(decl)),
            ModuleItem::Stmt(s) => ModuleItem::Stmt(self.fold_stmt(s)),
        }
    }

    /// Puts the pending imports before `items`, oldest first, each as its
    /// marker followed by its declaration, and empties the queue. In `Webpack`
    /// mode nothing happens.
    #[verifier::loop_isolation(false)]
    pub fn maybe_add_dynamically_imported_specifier(&mut self, items: &mut Vec<ModuleItem>)
        ensures
            final(self)@ == model::inject_imports(old(self)@, items_view(old(items)@)).0,
            items_view(final(items)@) == model::inject_imports(
                old(self)@,
                items_view(old(items)@),
            ).1,
    {
        let mut pending: Vec<TurbopackImport> = Vec::new();
        let name = match &mut self.state {
            NextDynamicPatcherState::Webpack => {
                return ;
            },
            NextDynamicPatcherState::Turbopack { dynamic_transition_name, imports } => {
                core::mem::swap(imports, &mut pending);
                dynamic_transition_name.clone()
            },
        };
        let ghost queue = imports_view(pending@);
        let mut new_items: Vec<ModuleItem> = Vec::new();
        for import in it: pending
            invariant
                it.index() <= queue.len(),
                items_view(new_items@) == model::import_block(name@, queue.take(it.index() as int)),
        {
            let (first, second) = import_items(&name, import);
            proof {
                lemma_items_view_push(new_items@, first);
                lemma_items_view_push(new_items@.push(first), second);
            }
            new_items.push(first);
            new_items.push(second);
        }
        assert(items_view(new_items@ + items@) =~= items_view(new_items@) + items_view(items@));
        new_items.append(items);
        core::mem::swap(&mut new_items, items);
    }

    /// The pass over a list of module items: over each of them in turn, and
    /// then the imports that the rewritten calls rely on are put before them.
    #[verifier::loop_isolation(false)]
    pub fn fold_module_items(&mut self, items: Vec<ModuleItem>) -> (r: Vec<ModuleItem>)
        ensures
            final(self)@ == model::fold_module_items(old(self)@, items_view(items@)).0,
            items_view(r@) == model::fold_module_items(old(self)@, items_view(items@)).1,
    {
        let ghost given = items_view(items@);
        let mut out: Vec<ModuleItem> = Vec::new();
        for item in it: items
            invariant
                it.index() <= given.len(),
                self@ == model::fold_items(old(self)@, given, it.index() as nat).0,
                items_view(out@) == model::fold_items(old(self)@, given, it.index() as nat).1,
        {
            let item1 = self.fold_module_item(item);
            out.push(item1);
        }
        self.maybe_add_dynamically_imported_specifier(&mut out);
        out
    }

    /// Puts the import of the helper that wrapped loaders call before
    /// `body`, where the loader of some call seen so far was wrapped; else
    /// `body` stays as it is.
    pub fn add_pure_import(&self, body: &mut Vec<ModuleItem>)
        ensures
            items_view(final(body)@) == model::with_pure_import(self@, items_view(old(body)@)),
    {
        if self.added_nextjs_pure_import {
            let import = pure_import();
            assert(items_view(body@.insert(0, import)) =~= seq![import@] + items_view(body@));
            body.insert(0, import);
        }
    }

    /// The pass over a module. Where the loader of some call was wrapped, the
    /// module gets the import of the helper that the wrappers call, once, as
    /// its first item.
    pub fn fold_module(&mut self, m: Module) -> (r: Module)
        ensures
            final(self)@ == model::fold_module(old(self)@, m@).0,
            r@ == model::fold_module(old(self)@, m@).1,
    {
        let Module { body } = m;
        let mut body = self.fold_module_items(body);
        self.add_pure_import(&mut body);
        Module { body }
    }
}

} // verus!
