//! A rewrite pass for calls of the `next/dynamic` loader.
//!
//! The pass finds every call of a function that a module imports as the
//! default export of `next/dynamic`, checks the shape of the call, and adds to
//! its options the `loadableGenerated` property by which the bundler finds the
//! module that the call loads. Where a call turns server-side rendering off,
//! the loader is wrapped on the server so that it stays in the module graph
//! without being run.
//!
//! The modules, from the leaves up:
//!
//! * `ast`: the syntax tree, and the view of each of its types;
//! * `filename`: the file under compilation and its name relative to a
//!   directory;
//! * `state`: the configuration of a pass and what it accumulates;
//! * `syntax`: the pieces of syntax that the pass writes;
//! * `model`: what the pass computes, as mathematical functions on views;
//! * `names`: the source of private identifiers;
//! * `capture`: the search for the specifier of the module that a call loads;
//! * `patcher`: the pass, proved to compute the functions of `model`;
//! * `laws`: theorems about the functions of `model`.
//!
//! A pass is made by `next_dynamic` and taken over a module by
//! `NextDynamicPatcher::fold_module`. Complaints about calls are not printed:
//! they are kept for `NextDynamicPatcher::take_diagnostics`.

pub mod ast;
pub mod filename;
pub mod state;
pub mod syntax;
pub mod model;
pub mod names;
pub mod capture;
pub mod patcher;
pub mod laws;

pub use patcher::{next_dynamic, NextDynamicPatcher};
pub use state::NextDynamicMode;
