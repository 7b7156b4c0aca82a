//! Lint rules over the syntax tree of JavaScript with embedded markup (JSX).
//!
//! Two rules are here. The one in [`use_jsx_key_in_iterable`] asks for a `key`
//! on each element that an array literal or the callback of an iteration
//! produces. The one in [`no_redundant_alt`] asks that the alternative text
//! of an image does not say that it is an image.
//!
//! The rules read a plain tree, [`syntax`], which holds of a parsed file what
//! they look at and no more. What a rule reports is stated over that tree as
//! a function, in [`key_flags`] and in [`no_redundant_alt`], and the code of
//! the rule is proved to compute it. [`key_laws`] proves what follows for
//! every tree.

pub mod diagnostic;
pub mod key_flags;
pub mod key_laws;
pub mod key_presence;
pub mod no_redundant_alt;
pub mod semantic;
pub mod syntax;
pub mod text;
pub mod text_range;
pub mod use_jsx_key_in_iterable;
