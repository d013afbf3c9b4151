//! What the pass is configured with and what it accumulates while it runs.

use vstd::prelude::*;
use crate::ast::{Ident, IdentView, Span};

verus! {

/// How the module that a loader call loads is identified.
#[derive(Debug, Clone, Eq, PartialEq)]
pub enum NextDynamicMode {
    /// Each call gets a key made of the path of the current module, relative
    /// to the pages directory, and the specifier of the loaded module:
    /// `{current module} -> {specifier}`. The key stands for an entry of the
    /// manifest of loadable modules.
    Webpack,
    /// Each call gets an import of its own, through which the bundler hands
    /// in the identity of the loaded module:
    /// * in development on the server, its id together with the chunks it
    ///   needs, imported through the named transition;
    /// * in a server build, its id, imported through the named transition,
    ///   which also enters the module in the manifest;
    /// * on the client, its id alone, by an import that is kept out of
    ///   chunking.
    Turbopack { dynamic_transition_name: String },
}

/// The view of `NextDynamicMode`.
pub enum NextDynamicModeView {
    Webpack,
    Turbopack { dynamic_transition_name: Seq<char> },
}

impl View for NextDynamicMode {
    type V = NextDynamicModeView;

    open spec fn view(&self) -> NextDynamicModeView {
        match *self {
            NextDynamicMode::Webpack => NextDynamicModeView::Webpack,
            NextDynamicMode::Turbopack { dynamic_transition_name } => {
                NextDynamicModeView::Turbopack {
                    dynamic_transition_name: dynamic_transition_name@,
                }
            },
        }
    }
}

/// An import that a rewritten call relies on and that is still to be added to
/// the module.
#[derive(Debug, Clone, Eq, PartialEq)]
pub enum TurbopackImport {
    /// The id and the chunks of the module, through the transition.
    DevelopmentTransition { id_ident: Ident, chunks_ident: Ident, specifier: String },
    /// The id of the module, kept out of chunking.
    DevelopmentId { id_ident: Ident, specifier: String },
    /// The id of the module, through the transition.
    BuildTransition { id_ident: Ident, specifier: String },
    /// The id of the module, kept out of chunking.
    BuildId { id_ident: Ident, specifier: String },
}

/// The view of `TurbopackImport`.
pub enum TurbopackImportView {
    DevelopmentTransition { id_ident: IdentView, chunks_ident: IdentView, specifier: Seq<char> },
    DevelopmentId { id_ident: IdentView, specifier: Seq<char> },
    BuildTransition { id_ident: IdentView, specifier: Seq<char> },
    BuildId { id_ident: IdentView, specifier: Seq<char> },
}

impl View for TurbopackImport {
    type V = TurbopackImportView;

    open spec fn view(&self) -> TurbopackImportView {
        match *self {
            TurbopackImport::DevelopmentTransition { id_ident, chunks_ident, specifier } => {
                TurbopackImportView::DevelopmentTransition {
                    id_ident: id_ident@,
                    chunks_ident: chunks_ident@,
                    specifier: specifier@,
                }
            },
            TurbopackImport::DevelopmentId { id_ident, specifier } => {
                TurbopackImportView::DevelopmentId { id_ident: id_ident@, specifier: specifier@ }
            },
            TurbopackImport::BuildTransition { id_ident, specifier } => {
                TurbopackImportView::BuildTransition { id_ident: id_ident@, specifier: specifier@ }
            },
            TurbopackImport::BuildId { id_ident, specifier } => {
                TurbopackImportView::BuildId { id_ident: id_ident@, specifier: specifier@ }
            },
        }
    }
}

/// The views of the elements of a list of `TurbopackImport`, in their order.
pub open spec fn imports_view(imports: Seq<TurbopackImport>) -> Seq<TurbopackImportView> {
    imports.map_values(|i: TurbopackImport| i@)
}

/// The state of the strategy that identifies loaded modules.
#[derive(Debug, Clone, Eq, PartialEq)]
pub enum NextDynamicPatcherState {
    Webpack,
    /// `imports` are the imports that rewritten calls rely on and that have
    /// not been added to the module yet, oldest first.
    Turbopack { dynamic_transition_name: String, imports: Vec<TurbopackImport> },
}

/// The view of `NextDynamicPatcherState`.
#[verifier::ext_equal]
pub enum StateView {
    Webpack,
    Turbopack { dynamic_transition_name: Seq<char>, imports: Seq<TurbopackImportView> },
}

impl View for NextDynamicPatcherState {
    type V = StateView;

    open spec fn view(&self) -> StateView {
        match *self {
            NextDynamicPatcherState::Webpack => StateView::Webpack,
            NextDynamicPatcherState::Turbopack { dynamic_transition_name, imports } => {
                StateView::Turbopack {
                    dynamic_transition_name: dynamic_transition_name@,
                    imports: imports_view(imports@),
                }
            },
        }
    }
}

/// The state in which a pass in the given mode starts.
pub open spec fn initial_state(mode: NextDynamicModeView) -> StateView {
    match mode {
        NextDynamicModeView::Webpack => StateView::Webpack,
        NextDynamicModeView::Turbopack { dynamic_transition_name } => StateView::Turbopack {
            dynamic_transition_name,
            imports: Seq::empty(),
        },
    }
}

/// The specifier of the module that a loader call loads, as it was found in
/// the first argument of the call.
#[derive(Debug, Clone, Eq, PartialEq)]
pub struct PendingSpecifier {
    /// The text between the quotes.
    pub value: String,
    /// Where the literal stands.
    pub span: Span,
}

/// The view of `PendingSpecifier`.
pub struct SpecifierView {
    pub value: Seq<char>,
    pub span: Span,
}

impl View for PendingSpecifier {
    type V = SpecifierView;

    open spec fn view(&self) -> SpecifierView {
        SpecifierView { value: self.value@, span: self.span }
    }
}

/// The view of an optional specifier.
pub open spec fn found_view(found: Option<PendingSpecifier>) -> Option<SpecifierView> {
    match found {
        Some(s) => Some(s@),
        None => None,
    }
}

/// A complaint about a loader call, for the author of the module.
#[derive(Debug, Clone, Eq, PartialEq)]
pub struct Diagnostic {
    /// The callee of the call.
    pub span: Span,
    pub message: String,
}

/// The view of `Diagnostic`.
pub struct DiagnosticView {
    pub span: Span,
    pub message: Seq<char>,
}

impl View for Diagnostic {
    type V = DiagnosticView;

    open spec fn view(&self) -> DiagnosticView {
        DiagnosticView { span: self.span, message: self.message@ }
    }
}

/// The views of the elements of a list of `Diagnostic`, in their order.
pub open spec fn diagnostics_view(ds: Seq<Diagnostic>) -> Seq<DiagnosticView> {
    ds.map_values(|d: Diagnostic| d@)
}

} // verus!
