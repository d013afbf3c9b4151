//! Finding the specifier of the module that a loader loads.

use vstd::prelude::*;
use crate::ast::{exprs_view, props_view, stmts_view, CallExpr, Expr, Prop, Stmt};
use crate::model;
use crate::state::{found_view, PendingSpecifier};

verus! {

broadcast use vstd::std_specs::vec::group_vec_axioms;

/// The specifier of a dynamic import: `c` must be an `import(...)` whose first
/// argument is a string literal or a template literal without interpolation.
pub fn import_specifier(c: &CallExpr) -> (r: Option<PendingSpecifier>)
    ensures
        found_view(r) == model::import_specifier(c@),
{
    let is_import = match &*c.callee {
        Expr::Import => true,
        _ => false,
    };
    if is_import && c.args.len() > 0 {
        assert(c@.args[0] == c.args[0]@);
        match &c.args[0] {
            Expr::Str(s) => Some(PendingSpecifier { value: s.value.clone(), span: s.span }),
            Expr::Tpl { exprs, quasis } => {
                assert(exprs_view(exprs@).len() == exprs@.len());
                if exprs.len() == 0 && quasis.len() > 0 {
                    Some(PendingSpecifier { value: quasis[0].raw.clone(), span: quasis[0].span })
                } else {
                    None
                }
            },
            _ => None,
        }
    } else {
        None
    }
}

/// The specifier that is held after `e` was searched, when `found` was held
/// before.
#[verifier::loop_isolation(false)]
pub fn capture_expr(found: Option<PendingSpecifier>, e: &Expr) -> (r: Option<PendingSpecifier>)
    ensures
        found_view(r) == model::capture_expr(found_view(found), e@),
    decreases e, 1nat,
{
    match e {
        Expr::Tpl { exprs, .. } => capture_exprs(found, exprs),
        Expr::Call(c) => capture_call(found, c),
        Expr::Object(props) => capture_props(found, props),
        Expr::Array(elems) => capture_exprs(found, elems),
        Expr::Arrow { body, .. } => capture_expr(found, body),
        Expr::ArrowBlock { body, .. } => capture_stmts(found, body),
        Expr::Bin { left, right, .. } => {
            let held = capture_expr(found, left);
            capture_expr(held, right)
        },
        Expr::Unary { arg, .. } => capture_expr(found, arg),
        Expr::Member { obj, .. } => capture_expr(found, obj),
        Expr::Other { exprs, stmts, .. } => {
            let held = capture_exprs(found, exprs);
            capture_stmts(held, stmts)
        },
        _ => found,
    }
}

/// `capture_expr` over the expressions of `es`, one after the other.
#[verifier::loop_isolation(false)]
pub fn capture_exprs(found: Option<PendingSpecifier>, es: &Vec<Expr>) -> (r: Option<
    PendingSpecifier,
>)
    ensures
        found_view(r) == model::capture_exprs(found_view(found), exprs_view(es@), es@.len()),
    decreases es, 0nat,
{
    let ghost start = found_view(found);
    let mut held = found;
    let mut i: usize = 0;
    while i < es.len()
        invariant
            i <= es.len(),
            found_view(held) == model::capture_exprs(start, exprs_view(es@), i as nat),
        decreases es.len() - i,
    {
        held = capture_expr(held, &es[i]);
        i += 1;
    }
    held
}

/// What the search holds once it has met the call `c`, when it held `found`
/// before: the specifier of the call where it is a dynamic import with a
/// literal specifier, and `found` where it is not.
pub fn note_import(found: Option<PendingSpecifier>, c: &CallExpr) -> (r: Option<PendingSpecifier>)
    ensures
        found_view(r) == model::note_import(found_view(found), c@),
{
    let own = import_specifier(c);
    if own.is_some() {
        own
    } else {
        found
    }
}

/// `capture_expr` over a call: the call itself is met first, then its callee
/// is searched, then its arguments.
pub fn capture_call(found: Option<PendingSpecifier>, c: &CallExpr) -> (r: Option<PendingSpecifier>)
    ensures
        found_view(r) == model::capture_call(found_view(found), c@),
    decreases c, 1nat,
{
    let held = note_import(found, c);
    let held = capture_expr(held, &c.callee);
    capture_exprs(held, &c.args)
}

/// `capture_expr` over a member of an object literal.
pub fn capture_prop(found: Option<PendingSpecifier>, prop: &Prop) -> (r: Option<PendingSpecifier>)
    ensures
        found_view(r) == model::capture_prop(found_view(found), prop@),
    decreases prop, 1nat,
{
    match prop {
        Prop::KeyValue { key, computed, value } => {
            let held = if *computed {
                capture_expr(found, key)
            } else {
                found
            };
            capture_expr(held, value)
        },
        Prop::Shorthand(_) => found,
        Prop::Spread(e) => capture_expr(found, e),
    }
}

/// `capture_prop` over the members of `props`, one after the other.
#[verifier::loop_isolation(false)]
pub fn capture_props(found: Option<PendingSpecifier>, props: &Vec<Prop>) -> (r: Option<
    PendingSpecifier,
>)
    ensures
        found_view(r) == model::capture_props(found_view(found), props_view(props@), props@.len()),
    decreases props, 0nat,
{
    let ghost start = found_view(found);
    let mut held = found;
    let mut i: usize = 0;
    while i < props.len()
        invariant
            i <= props.len(),
            found_view(held) == model::capture_props(start, props_view(props@), i as nat),
        decreases props.len() - i,
    {
        held = capture_prop(held, &props[i]);
        i += 1;
    }
    held
}

/// `capture_expr` over a statement.
pub fn capture_stmt(found: Option<PendingSpecifier>, s: &Stmt) -> (r: Option<PendingSpecifier>)
    ensures
        found_view(r) == model::capture_stmt(found_view(found), s@),
    decreases s, 1nat,
{
    match s {
        Stmt::Expr(e) => capture_expr(found, e),
        Stmt::Block(stmts) => capture_stmts(found, stmts),
        Stmt::Other { exprs, stmts, .. } => {
            let held = capture_exprs(found, exprs);
            capture_stmts(held, stmts)
        },
    }
}

/// `capture_stmt` over the statements of `ss`, one after the other.
#[verifier::loop_isolation(false)]
pub fn capture_stmts(found: Option<PendingSpecifier>, ss: &Vec<Stmt>) -> (r: Option<
    PendingSpecifier,
>)
    ensures
        found_view(r) == model::capture_stmts(found_view(found), stmts_view(ss@), ss@.len()),
    decreases ss, 0nat,
{
    let ghost start = found_view(found);
    let mut held = found;
    let mut i: usize = 0;
    while i < ss.len()
        invariant
            i <= ss.len(),
            found_view(held) == model::capture_stmts(start, stmts_view(ss@), i as nat),
        decreases ss.len() - i,
    {
        held = capture_stmt(held, &ss[i]);
        i += 1;
    }
    held
}

/// The specifier of the module that `loader` loads: that of the last dynamic
/// import with a literal specifier in it, if there is one.
pub fn find_specifier(loader: &Expr) -> (r: Option<PendingSpecifier>)
    ensures
        found_view(r) == model::find_specifier(loader@),
{
    capture_expr(None, loader)
}

} // verus!
