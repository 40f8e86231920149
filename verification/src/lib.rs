//! Recent-item history for a code editor, surfaced to an interactive picker.
//!
//! The crate models the editor's "recently opened" list: a tagged union of
//! workspace, folder and file items, a codec between that model and the
//! JSON blob the editor keeps in its state store, path/URL conversions with
//! home-directory contraction, and the state machine that drives one
//! interactive picking session (browse, match, open, delete, autocomplete).
//!
//! Reading and writing the state store itself, spawning the editor and the
//! picker integration are left to the embedding application; the library
//! exchanges plain values (JSON text, paths, event descriptions) with it.

pub mod errors;
pub mod strutil;
pub mod paths;
pub mod location;
pub mod json;
pub mod workspaces;
pub mod store;
pub mod session;
pub mod vscode;
pub mod icons;
