//! Decision logic of a directory-scoped thumbnail warmer.
//!
//! The crate holds everything such a tool decides: which directory entries
//! make up the work list, in which order the operating system is asked for
//! what, which failures end a run and which are only logged, and the texts
//! that are shown. Talking to the operating system is left to the caller,
//! who carries out each [`run::Action`] and hands back an [`run::Event`].

pub mod error;
pub mod files;
pub mod laws;
pub mod run;
pub mod text;
