//! The syntax tree the pass works on.
//!
//! The tree is a small model of an ECMAScript module: it names the node shapes
//! that the pass inspects or builds, and keeps every other shape as a generic
//! node whose parts are still traversed. Each executable type has a
//! mathematical view in which strings are `Seq<char>` and lists are `Seq`;
//! contracts throughout the crate are stated over those views.

use vstd::prelude::*;

verus! {

broadcast use vstd::std_specs::vec::group_vec_axioms;

/// A range of the source text, as byte offsets.
#[derive(Clone, Copy, Debug, PartialEq, Eq, Structural)]
pub struct Span {
    pub lo: u32,
    pub hi: u32,
}

/// The span of a node that does not come from the source text.
pub open spec fn dummy_span() -> Span {
    Span { lo: 0, hi: 0 }
}

impl Span {
    /// The span given to every node the pass builds itself.
    pub fn dummy() -> (r: Span)
        ensures
            r == dummy_span(),
    {
        Span { lo: 0, hi: 0 }
    }
}

/// The scope identity of an identifier: two identifiers denote the same
/// binding exactly when their names and their contexts agree.
#[derive(Clone, Copy, Debug, PartialEq, Eq, Structural)]
pub enum SyntaxContext {
    /// A context that name resolution gave to an identifier of the input.
    /// `Source(0)` is the context of an unresolved name.
    Source(u32),
    /// The context of the private identifier with the given serial number.
    /// Such contexts are for the pass to give: it takes it that no identifier
    /// of its input has one.
    Private(usize),
}

/// The context of an unresolved name.
pub open spec fn empty_ctxt() -> SyntaxContext {
    SyntaxContext::Source(0)
}

/// An identifier.
#[derive(Clone, Debug, PartialEq, Eq)]
pub struct Ident {
    pub sym: String,
    pub span: Span,
    pub ctxt: SyntaxContext,
}

/// The view of `Ident`.
pub struct IdentView {
    pub sym: Seq<char>,
    pub span: Span,
    pub ctxt: SyntaxContext,
}

impl View for Ident {
    type V = IdentView;

    open spec fn view(&self) -> IdentView {
        IdentView { sym: self.sym@, span: self.span, ctxt: self.ctxt }
    }
}

/// An unresolved name that is not part of the source text.
pub open spec fn plain_ident(sym: Seq<char>) -> IdentView {
    IdentView { sym, span: dummy_span(), ctxt: empty_ctxt() }
}

/// The private identifier with serial number `serial`.
pub open spec fn private_ident(sym: Seq<char>, span: Span, serial: nat) -> IdentView {
    IdentView { sym, span, ctxt: SyntaxContext::Private(serial as usize) }
}

impl Ident {
    /// An unresolved name with a dummy span.
    pub fn plain(sym: &str) -> (r: Ident)
        ensures
            r@ == plain_ident(sym@),
    {
        Ident { sym: sym.to_owned(), span: Span::dummy(), ctxt: SyntaxContext::Source(0) }
    }

    /// A copy of this identifier.
    pub fn duplicate(&self) -> (r: Ident)
        ensures
            r@ == self@,
    {
        Ident { sym: self.sym.clone(), span: self.span, ctxt: self.ctxt }
    }

    /// What identifies the binding this identifier refers to.
    pub fn to_id(&self) -> (r: Id)
        ensures
            r@ == id_of(self@),
    {
        Id { sym: self.sym.clone(), ctxt: self.ctxt }
    }
}

/// A name together with its scope identity.
#[derive(Clone, Debug, PartialEq, Eq)]
pub struct Id {
    pub sym: String,
    pub ctxt: SyntaxContext,
}

/// The view of `Id`.
pub struct IdView {
    pub sym: Seq<char>,
    pub ctxt: SyntaxContext,
}

impl View for Id {
    type V = IdView;

    open spec fn view(&self) -> IdView {
        IdView { sym: self.sym@, ctxt: self.ctxt }
    }
}

/// The binding identity of an identifier.
pub open spec fn id_of(ident: IdentView) -> IdView {
    IdView { sym: ident.sym, ctxt: ident.ctxt }
}

/// The views of the elements of a list of `Id`, in their order.
pub open spec fn ids_view(ids: Seq<Id>) -> Seq<IdView> {
    ids.map_values(|id: Id| id@)
}

impl Id {
    /// Whether two identities are the same.
    pub fn same(&self, other: &Id) -> (r: bool)
        ensures
            r == (self@ == other@),
    {
        self.sym == other.sym && self.ctxt == other.ctxt
    }
}

/// A string literal.
#[derive(Clone, Debug, PartialEq, Eq)]
pub struct Str {
    pub value: String,
    pub span: Span,
}

/// The view of `Str`.
pub struct StrView {
    pub value: Seq<char>,
    pub span: Span,
}

impl View for Str {
    type V = StrView;

    open spec fn view(&self) -> StrView {
        StrView { value: self.value@, span: self.span }
    }
}

/// A string literal that is not part of the source text.
pub open spec fn plain_str(value: Seq<char>) -> StrView {
    StrView { value, span: dummy_span() }
}

impl Str {
    /// A string literal with a dummy span.
    pub fn plain(value: String) -> (r: Str)
        ensures
            r@ == plain_str(value@),
    {
        Str { value, span: Span::dummy() }
    }
}

/// One literal chunk of a template literal.
#[derive(Clone, Debug, PartialEq, Eq)]
pub struct TplElement {
    /// The text of the chunk as written in the source.
    pub raw: String,
    pub span: Span,
}

/// The view of `TplElement`.
pub struct TplElementView {
    pub raw: Seq<char>,
    pub span: Span,
}

impl View for TplElement {
    type V = TplElementView;

    open spec fn view(&self) -> TplElementView {
        TplElementView { raw: self.raw@, span: self.span }
    }
}

/// The views of the elements of a list of `TplElement`, in their order.
pub open spec fn quasis_view(quasis: Seq<TplElement>) -> Seq<TplElementView> {
    quasis.map_values(|q: TplElement| q@)
}

/// The views of the elements of a list of `Ident`, in their order.
pub open spec fn idents_view(idents: Seq<Ident>) -> Seq<IdentView> {
    idents.map_values(|i: Ident| i@)
}

/// A binary operator.
#[derive(Clone, Copy, Debug, PartialEq, Eq, Structural)]
pub enum BinaryOp {
    EqEq,
    NotEq,
    EqEqEq,
    NotEqEq,
    Lt,
    LtEq,
    Gt,
    GtEq,
    Add,
    Sub,
    Mul,
    Div,
    Mod,
    LogicalOr,
    LogicalAnd,
    NullishCoalescing,
    In,
    InstanceOf,
}

/// A unary operator.
#[derive(Clone, Copy, Debug, PartialEq, Eq, Structural)]
pub enum UnaryOp {
    Minus,
    Plus,
    Bang,
    Tilde,
    TypeOf,
    Void,
    Delete,
}

/// An expression.
#[derive(Debug, PartialEq, Eq)]
pub enum Expr {
    Ident(Ident),
    Str(Str),
    Bool(bool),
    Null,
    /// A template literal: `quasis` are its literal chunks, `exprs` the
    /// interpolated expressions between them.
    Tpl { exprs: Vec<Expr>, quasis: Vec<TplElement> },
    /// The `import` of a dynamic import; it only occurs as a callee.
    Import,
    /// The `super` of a super call; it only occurs as a callee.
    Super,
    Call(CallExpr),
    Object(Vec<Prop>),
    Array(Vec<Expr>),
    /// An arrow function whose body is an expression.
    Arrow { is_async: bool, params: Vec<Ident>, body: Box<Expr> },
    /// An arrow function whose body is a block.
    ArrowBlock { is_async: bool, params: Vec<Ident>, body: Vec<Stmt> },
    Bin { op: BinaryOp, left: Box<Expr>, right: Box<Expr> },
    Unary { op: UnaryOp, arg: Box<Expr> },
    /// A member access with a static property name.
    Member { obj: Box<Expr>, prop: Ident },
    /// Any other expression. `tag` is for the owner of the tree to tell such
    /// nodes apart; `exprs` and `stmts` are its parts, in source order within
    /// each list.
    Other { tag: u64, exprs: Vec<Expr>, stmts: Vec<Stmt> },
}

/// A call: `callee(args...)`.
#[derive(Debug, PartialEq, Eq)]
pub struct CallExpr {
    pub callee: Box<Expr>,
    pub args: Vec<Expr>,
}

/// A member of an object literal.
#[derive(Debug, PartialEq, Eq)]
pub enum Prop {
    /// `key: value`. When `computed` is false the key is an `Expr::Ident` or
    /// an `Expr::Str` that names the property; when it is true the key is an
    /// expression in brackets.
    KeyValue { key: Expr, computed: bool, value: Expr },
    /// `name`, short for `name: name`.
    Shorthand(Ident),
    /// `...expr`.
    Spread(Expr),
}

/// A statement.
#[derive(Debug, PartialEq, Eq)]
pub enum Stmt {
    Expr(Expr),
    Block(Vec<Stmt>),
    /// Any other statement, with its parts as for `Expr::Other`.
    Other { tag: u64, exprs: Vec<Expr>, stmts: Vec<Stmt> },
}

/// One binding of an import declaration.
#[derive(Debug, PartialEq, Eq)]
pub enum ImportSpecifier {
    /// `import local from ...`
    Default { local: Ident },
    /// `import { imported as local } from ...`, or `import { local } from ...`
    /// when `imported` is absent.
    Named { local: Ident, imported: Option<Ident> },
    /// `import * as local from ...`
    Namespace { local: Ident },
}

/// An import declaration.
#[derive(Debug, PartialEq, Eq)]
pub struct ImportDecl {
    pub specifiers: Vec<ImportSpecifier>,
    pub src: Str,
}

/// An item of a module body.
#[derive(Debug, PartialEq, Eq)]
pub enum ModuleItem {
    Import(ImportDecl),
    Stmt(Stmt),
}

/// A module.
#[derive(Debug, PartialEq, Eq)]
pub struct Module {
    pub body: Vec<ModuleItem>,
}

/// The view of `Expr`.
#[verifier::ext_equal]
pub enum ExprView {
    Ident(IdentView),
    Str(StrView),
    Bool(bool),
    Null,
    Tpl { exprs: Seq<ExprView>, quasis: Seq<TplElementView> },
    Import,
    Super,
    Call(CallExprView),
    Object(Seq<PropView>),
    Array(Seq<ExprView>),
    Arrow { is_async: bool, params: Seq<IdentView>, body: Box<ExprView> },
    ArrowBlock { is_async: bool, params: Seq<IdentView>, body: Seq<StmtView> },
    Bin { op: BinaryOp, left: Box<ExprView>, right: Box<ExprView> },
    Unary { op: UnaryOp, arg: Box<ExprView> },
    Member { obj: Box<ExprView>, prop: IdentView },
    Other { tag: u64, exprs: Seq<ExprView>, stmts: Seq<StmtView> },
}

/// The view of `CallExpr`.
#[verifier::ext_equal]
pub struct CallExprView {
    pub callee: Box<ExprView>,
    pub args: Seq<ExprView>,
}

/// The view of `Prop`.
#[verifier::ext_equal]
pub enum PropView {
    KeyValue { key: ExprView, computed: bool, value: ExprView },
    Shorthand(IdentView),
    Spread(ExprView),
}

/// The view of `Stmt`.
#[verifier::ext_equal]
pub enum StmtView {
    Expr(ExprView),
    Block(Seq<StmtView>),
    Other { tag: u64, exprs: Seq<ExprView>, stmts: Seq<StmtView> },
}

/// The view of `ImportSpecifier`.
#[verifier::ext_equal]
pub enum ImportSpecifierView {
    Default { local: IdentView },
    Named { local: IdentView, imported: Option<IdentView> },
    Namespace { local: IdentView },
}

/// The view of `ImportDecl`.
#[verifier::ext_equal]
pub struct ImportDeclView {
    pub specifiers: Seq<ImportSpecifierView>,
    pub src: StrView,
}

/// The view of `ModuleItem`.
#[verifier::ext_equal]
pub enum ModuleItemView {
    Import(ImportDeclView),
    Stmt(StmtView),
}

/// The view of `Module`.
#[verifier::ext_equal]
pub struct ModuleView {
    pub body: Seq<ModuleItemView>,
}

/// The view of `Expr`.
pub open spec fn expr_view(e: Expr) -> ExprView
    decreases e,
{
    match e {
        Expr::Ident(i) => ExprView::Ident(i@),
        Expr::Str(s) => ExprView::Str(s@),
        Expr::Bool(b) => ExprView::Bool(b),
        Expr::Null => ExprView::Null,
        Expr::Tpl { exprs, quasis } => ExprView::Tpl {
            exprs: exprs_view(exprs@),
            quasis: quasis_view(quasis@),
        },
        Expr::Import => ExprView::Import,
        Expr::Super => ExprView::Super,
        Expr::Call(c) => ExprView::Call(call_view(c)),
        Expr::Object(props) => ExprView::Object(props_view(props@)),
        Expr::Array(elems) => ExprView::Array(exprs_view(elems@)),
        Expr::Arrow { is_async, params, body } => ExprView::Arrow {
            is_async,
            params: idents_view(params@),
            body: Box::new(expr_view(*body)),
        },
        Expr::ArrowBlock { is_async, params, body } => ExprView::ArrowBlock {
            is_async,
            params: idents_view(params@),
            body: stmts_view(body@),
        },
        Expr::Bin { op, left, right } => ExprView::Bin {
            op,
            left: Box::new(expr_view(*left)),
            right: Box::new(expr_view(*right)),
        },
        Expr::Unary { op, arg } => ExprView::Unary { op, arg: Box::new(expr_view(*arg)) },
        Expr::Member { obj, prop } => ExprView::Member {
            obj: Box::new(expr_view(*obj)),
            prop: prop@,
        },
        Expr::Other { tag, exprs, stmts } => ExprView::Other {
            tag,
            exprs: exprs_view(exprs@),
            stmts: stmts_view(stmts@),
        },
    }
}

/// The views of the elements of a list of `Expr`, in their order.
pub open spec fn exprs_view(es: Seq<Expr>) -> Seq<ExprView>
    decreases es,
{
    Seq::new(
        es.len(),
        |i: int|
            if 0 <= i < es.len() {
                expr_view(es[i])
            } else {
                arbitrary()
            },
    )
}

/// The view of `CallExpr`.
pub open spec fn call_view(c: CallExpr) -> CallExprView
    decreases c,
{
    CallExprView { callee: Box::new(expr_view(*c.callee)), args: exprs_view(c.args@) }
}

/// The view of `Prop`.
pub open spec fn prop_view(p: Prop) -> PropView
    decreases p,
{
    match p {
        Prop::KeyValue { key, computed, value } => PropView::KeyValue {
            key: expr_view(key),
            computed,
            value: expr_view(value),
        },
        Prop::Shorthand(i) => PropView::Shorthand(i@),
        Prop::Spread(e) => PropView::Spread(expr_view(e)),
    }
}

/// The views of the elements of a list of `Prop`, in their order.
pub open spec fn props_view(ps: Seq<Prop>) -> Seq<PropView>
    decreases ps,
{
    Seq::new(
        ps.len(),
        |i: int|
            if 0 <= i < ps.len() {
                prop_view(ps[i])
            } else {
                arbitrary()
            },
    )
}

/// The view of `Stmt`.
pub open spec fn stmt_view(s: Stmt) -> StmtView
    decreases s,
{
    match s {
        Stmt::Expr(e) => StmtView::Expr(expr_view(e)),
        Stmt::Block(stmts) => StmtView::Block(stmts_view(stmts@)),
        Stmt::Other { tag, exprs, stmts } => StmtView::Other {
            tag,
            exprs: exprs_view(exprs@),
            stmts: stmts_view(stmts@),
        },
    }
}

/// The views of the elements of a list of `Stmt`, in their order.
pub open spec fn stmts_view(ss: Seq<Stmt>) -> Seq<StmtView>
    decreases ss,
{
    Seq::new(
        ss.len(),
        |i: int|
            if 0 <= i < ss.len() {
                stmt_view(ss[i])
            } else {
                arbitrary()
            },
    )
}

impl View for Expr {
    type V = ExprView;

    open spec fn view(&self) -> ExprView {
        expr_view(*self)
    }
}

impl View for CallExpr {
    type V = CallExprView;

    open spec fn view(&self) -> CallExprView {
        call_view(*self)
    }
}

impl View for Prop {
    type V = PropView;

    open spec fn view(&self) -> PropView {
        prop_view(*self)
    }
}

impl View for Stmt {
    type V = StmtView;

    open spec fn view(&self) -> StmtView {
        stmt_view(*self)
    }
}

impl View for ImportSpecifier {
    type V = ImportSpecifierView;

    open spec fn view(&self) -> ImportSpecifierView {
        match *self {
            ImportSpecifier::Default { local } => ImportSpecifierView::Default { local: local@ },
            ImportSpecifier::Named { local, imported } => ImportSpecifierView::Named {
                local: local@,
                imported: match imported {
                    Some(i) => Some(i@),
                    None => None,
                },
            },
            ImportSpecifier::Namespace { local } => ImportSpecifierView::Namespace {
                local: local@,
            },
        }
    }
}

/// The views of the elements of a list of `ImportSpecifier`, in their order.
pub open spec fn specifiers_view(ss: Seq<ImportSpecifier>) -> Seq<ImportSpecifierView> {
    ss.map_values(|s: ImportSpecifier| s@)
}

impl View for ImportDecl {
    type V = ImportDeclView;

    open spec fn view(&self) -> ImportDeclView {
        ImportDeclView { specifiers: specifiers_view(self.specifiers@), src: self.src@ }
    }
}

impl View for ModuleItem {
    type V = ModuleItemView;

    open spec fn view(&self) -> ModuleItemView {
        match *self {
            ModuleItem::Import(d) => ModuleItemView::Import(d@),
            ModuleItem::Stmt(s) => ModuleItemView::Stmt(s@),
        }
    }
}

/// The views of the elements of a list of `ModuleItem`, in their order.
pub open spec fn items_view(items: Seq<ModuleItem>) -> Seq<ModuleItemView> {
    items.map_values(|i: ModuleItem| i@)
}

impl View for Module {
    type V = ModuleView;

    open spec fn view(&self) -> ModuleView {
        ModuleView { body: items_view(self.body@) }
    }
}

/// The views of a list of expressions with one more at its end are the views
/// of the list with the view of that one at their end.
pub proof fn lemma_exprs_view_push(es: Seq<Expr>, e: Expr)
    ensures
        exprs_view(es.push(e)) == exprs_view(es).push(e@),
{
}

/// As `lemma_exprs_view_push`, for the members of an object literal.
pub proof fn lemma_props_view_push(ps: Seq<Prop>, p: Prop)
    ensures
        props_view(ps.push(p)) == props_view(ps).push(p@),
{
}

/// As `lemma_exprs_view_push`, for the items of a module body.
pub proof fn lemma_items_view_push(items: Seq<ModuleItem>, item: ModuleItem)
    ensures
        items_view(items.push(item)) == items_view(items).push(item@),
{
}

impl Str {
    /// A copy of this literal.
    pub fn duplicate(&self) -> (r: Str)
        ensures
            r@ == self@,
    {
        Str { value: self.value.clone(), span: self.span }
    }
}

impl TplElement {
    /// A copy of this chunk.
    pub fn duplicate(&self) -> (r: TplElement)
        ensures
            r@ == self@,
    {
        TplElement { raw: self.raw.clone(), span: self.span }
    }
}

/// A copy of a list of identifiers.
pub fn duplicate_idents(idents: &Vec<Ident>) -> (r: Vec<Ident>)
    ensures
        idents_view(r@) == idents_view(idents@),
{
    let mut out: Vec<Ident> = Vec::new();
    let mut i: usize = 0;
    while i < idents.len()
        invariant
            i <= idents.len(),
            idents_view(out@) == idents_view(idents@).take(i as int),
        decreases idents.len() - i,
    {
        let copy = idents[i].duplicate();
        assert(idents_view(idents@).take(i + 1) =~= idents_view(idents@).take(i as int).push(
            idents[i as int]@,
        ));
        out.push(copy);
        i += 1;
    }
    out
}

/// A copy of the chunks of a template literal.
pub fn duplicate_quasis(quasis: &Vec<TplElement>) -> (r: Vec<TplElement>)
    ensures
        quasis_view(r@) == quasis_view(quasis@),
{
    let mut out: Vec<TplElement> = Vec::new();
    let mut i: usize = 0;
    while i < quasis.len()
        invariant
            i <= quasis.len(),
            quasis_view(out@) == quasis_view(quasis@).take(i as int),
        decreases quasis.len() - i,
    {
        let copy = quasis[i].duplicate();
        assert(quasis_view(quasis@).take(i + 1) =~= quasis_view(quasis@).take(i as int).push(
            quasis[i as int]@,
        ));
        out.push(copy);
        i += 1;
    }
    out
}

/// A copy of an expression.
pub fn duplicate_expr(e: &Expr) -> (r: Expr)
    ensures
        r@ == e@,
    decreases e, 1nat,
{
    match e {
        Expr::Ident(i) => Expr::Ident(i.duplicate()),
        Expr::Str(s) => Expr::Str(s.duplicate()),
        Expr::Bool(b) => Expr::Bool(*b),
        Expr::Null => Expr::Null,
        Expr::Tpl { exprs, quasis } => Expr::Tpl {
            exprs: duplicate_exprs(exprs),
            quasis: duplicate_quasis(quasis),
        },
        Expr::Import => Expr::Import,
        Expr::Super => Expr::Super,
        Expr::Call(c) => Expr::Call(duplicate_call(c)),
        Expr::Object(props) => Expr::Object(duplicate_props(props)),
        Expr::Array(elems) => Expr::Array(duplicate_exprs(elems)),
        Expr::Arrow { is_async, params, body } => Expr::Arrow {
            is_async: *is_async,
            params: duplicate_idents(params),
            body: Box::new(duplicate_expr(body)),
        },
        Expr::ArrowBlock { is_async, params, body } => Expr::ArrowBlock {
            is_async: *is_async,
            params: duplicate_idents(params),
            body: duplicate_stmts(body),
        },
        Expr::Bin { op, left, right } => Expr::Bin {
            op: *op,
            left: Box::new(duplicate_expr(left)),
            right: Box::new(duplicate_expr(right)),
        },
        Expr::Unary { op, arg } => Expr::Unary { op: *op, arg: Box::new(duplicate_expr(arg)) },
        Expr::Member { obj, prop } => Expr::Member {
            obj: Box::new(duplicate_expr(obj)),
            prop: prop.duplicate(),
        },
        Expr::Other { tag, exprs, stmts } => Expr::Other {
            tag: *tag,
            exprs: duplicate_exprs(exprs),
            stmts: duplicate_stmts(stmts),
        },
    }
}

/// A copy of a list of expressions.
#[verifier::loop_isolation(false)]
pub fn duplicate_exprs(es: &Vec<Expr>) -> (r: Vec<Expr>)
    ensures
        exprs_view(r@) == exprs_view(es@),
    decreases es, 0nat,
{
    let mut out: Vec<Expr> = Vec::new();
    let mut i: usize = 0;
    while i < es.len()
        invariant
            i <= es.len(),
            exprs_view(out@) == exprs_view(es@).take(i as int),
        decreases es.len() - i,
    {
        let copy = duplicate_expr(&es[i]);
        out.push(copy);
        i += 1;
    }
    out
}

/// A copy of a call.
pub fn duplicate_call(c: &CallExpr) -> (r: CallExpr)
    ensures
        r@ == c@,
    decreases c, 1nat,
{
    CallExpr { callee: Box::new(duplicate_expr(&c.callee)), args: duplicate_exprs(&c.args) }
}

/// A copy of a member of an object literal.
pub fn duplicate_prop(p: &Prop) -> (r: Prop)
    ensures
        r@ == p@,
    decreases p, 1nat,
{
    match p {
        Prop::KeyValue { key, computed, value } => Prop::KeyValue {
            key: duplicate_expr(key),
            computed: *computed,
            value: duplicate_expr(value),
        },
        Prop::Shorthand(i) => Prop::Shorthand(i.duplicate()),
        Prop::Spread(e) => Prop::Spread(duplicate_expr(e)),
    }
}

/// A copy of the members of an object literal.
#[verifier::loop_isolation(false)]
pub fn duplicate_props(ps: &Vec<Prop>) -> (r: Vec<Prop>)
    ensures
        props_view(r@) == props_view(ps@),
    decreases ps, 0nat,
{
    let mut out: Vec<Prop> = Vec::new();
    let mut i: usize = 0;
    while i < ps.len()
        invariant
            i <= ps.len(),
            props_view(out@) == props_view(ps@).take(i as int),
        decreases ps.len() - i,
    {
        let copy = duplicate_prop(&ps[i]);
        out.push(copy);
        i += 1;
    }
    out
}

/// A copy of a statement.
pub fn duplicate_stmt(s: &Stmt) -> (r: Stmt)
    ensures
        r@ == s@,
    decreases s, 1nat,
{
    match s {
        Stmt::Expr(e) => Stmt::Expr(duplicate_expr(e)),
        Stmt::Block(stmts) => Stmt::Block(duplicate_stmts(stmts)),
        Stmt::Other { tag, exprs, stmts } => Stmt::Other {
            tag: *tag,
            exprs: duplicate_exprs(exprs),
            stmts: duplicate_stmts(stmts),
        },
    }
}

/// A copy of a list of statements.
#[verifier::loop_isolation(false)]
pub fn duplicate_stmts(ss: &Vec<Stmt>) -> (r: Vec<Stmt>)
    ensures
        stmts_view(r@) == stmts_view(ss@),
    decreases ss, 0nat,
{
    let mut out: Vec<Stmt> = Vec::new();
    let mut i: usize = 0;
    while i < ss.len()
        invariant
            i <= ss.len(),
            stmts_view(out@) == stmts_view(ss@).take(i as int),
        decreases ss.len() - i,
    {
        let copy = duplicate_stmt(&ss[i]);
        out.push(copy);
        i += 1;
    }
    out
}

impl Expr {
    /// A copy of this expression.
    pub fn duplicate(&self) -> (r: Expr)
        ensures
            r@ == self@,
    {
        duplicate_expr(self)
    }
}

} // verus!
