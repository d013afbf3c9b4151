use next_transform_dynamic::ast::{Ident, Span, SyntaxContext};
use next_transform_dynamic::names::PrivateIdents;

#[test]
fn fresh_identifiers_are_numbered_in_order() {
    let mut names = PrivateIdents::new();
    assert!(names.issued().is_empty());
    let span = Span { lo: 7, hi: 19 };
    let first = names.fresh("id", span);
    let second = names.fresh("id", span);
    let third = names.fresh("chunks", Span { lo: 1, hi: 2 });
    assert_eq!(first, Ident { sym: "id".to_string(), span, ctxt: SyntaxContext::Private(0) });
    assert_eq!(second, Ident { sym: "id".to_string(), span, ctxt: SyntaxContext::Private(1) });
    assert_eq!(
        third,
        Ident {
            sym: "chunks".to_string(),
            span: Span { lo: 1, hi: 2 },
            ctxt: SyntaxContext::Private(2),
        }
    );
    assert_eq!(names.issued(), &vec![first, second, third]);
}

#[test]
fn same_name_at_the_same_place_gives_different_bindings() {
    let mut names = PrivateIdents::new();
    let span = Span { lo: 7, hi: 19 };
    let first = names.fresh("id", span);
    let second = names.fresh("id", span);
    assert_ne!(first.to_id(), second.to_id());
    assert!(!first.to_id().same(&second.to_id()));
}
