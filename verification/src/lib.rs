//! Compose or edit free-form text in the user's preferred external editor.
//!
//! The crate resolves which editor command to run (following the precedence
//! convention of the `git` family of tools) and models an edit session: the
//! lifecycle of a temporary file, the launch of the editor through a shell,
//! and the classification of the outcome.  All decisions are made here; the
//! host program performs the file, terminal and subprocess actions the
//! session asks for and reports back what happened.

pub mod resolver;
pub mod session;
