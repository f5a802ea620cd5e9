//! Derives the boilerplate of an error enum: a conversion from each payload
//! type, a display arm, a description arm and a cause arm per variant, all
//! driven by the per-variant markers `skip`, `skip_from` and `desc = "..."`.
//!
//! The crate works on a plain model of the annotated declaration: its name,
//! its generic parameters and its variants, each with a shape and a marker
//! list.  The classifier in [`synth`] turns that model into a plan of the
//! four generated fragments; an unverified front end parses source text into
//! the model and prints the plan back out as code.

pub mod decl;
pub mod policy;
pub mod synth;
pub mod laws;
