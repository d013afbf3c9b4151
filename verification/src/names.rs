//! The source of private identifiers.

use vstd::prelude::*;
use crate::ast::{idents_view, private_ident, Ident, IdentView, Span, SyntaxContext};
use crate::model::serials_in_order;

verus! {

/// A source of private identifiers: names for bindings that the pass adds to
/// a module and that nothing else in the module can refer to. It keeps every
/// identifier it has made; the serial number of an identifier is the number
/// of those made before it.
#[derive(Debug)]
pub struct PrivateIdents {
    issued: Vec<Ident>,
}

impl View for PrivateIdents {
    type V = Seq<IdentView>;

    /// The identifiers made so far, oldest first.
    closed spec fn view(&self) -> Seq<IdentView> {
        idents_view(self.issued@)
    }
}

impl PrivateIdents {
    /// The place of each identifier in the list is its serial number.
    #[verifier::type_invariant]
    spec fn in_order(self) -> bool {
        serials_in_order(idents_view(self.issued@))
    }

    /// A source that has made no identifier yet.
    pub fn new() -> (r: PrivateIdents)
        ensures
            r@ == Seq::<IdentView>::empty(),
    {
        let issued: Vec<Ident> = Vec::new();
        PrivateIdents { issued }
    }

    /// Makes the private identifier named `sym` that stands at `span`.
    pub fn fresh(&mut self, sym: &str, span: Span) -> (r: Ident)
        ensures
            r@ == private_ident(sym@, span, old(self)@.len()),
            final(self)@ == old(self)@.push(r@),
    {
        proof {
            use_type_invariant(&*self);
        }
        let mut issued: Vec<Ident> = Vec::new();
        core::mem::swap(&mut self.issued, &mut issued);
        let ident = Ident { sym: sym.to_owned(), span, ctxt: SyntaxContext::Private(issued.len()) };
        let copy = ident.duplicate();
        assert(idents_view(issued@.push(copy)) =~= idents_view(issued@).push(copy@));
        issued.push(copy);
        self.issued = issued;
        ident
    }

    /// The identifiers made so far, oldest first. The place of each in the
    /// list is its serial number, so no two of them are the same.
    pub fn issued(&self) -> (r: &Vec<Ident>)
        ensures
            idents_view(r@) == self@,
            serials_in_order(self@),
    {
        proof {
            use_type_invariant(self);
        }
        &self.issued
    }
}

} // verus!
