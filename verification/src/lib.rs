//! A package-manager front-end's core, with its behaviour verified.
//!
//! The one component here with real design content is the search
//! dispatcher: it hands a registry query to a background worker and takes
//! the worker's outcome back through a single undelivered slot, polled
//! without blocking on every UI tick.  Submissions carry sequence numbers
//! so that a straggling worker for an abandoned query can never overwrite
//! the newest query's result.
//!
//! Around it stand the plain data the front-end's decisions read and
//! write: registry search records, compile options, the inputs of the
//! new-package form, and a package manifest's displayed metadata.  The
//! UI toolkit, the package-manager library and the registry client stay
//! outside collaborators; the harness around this crate talks to them and
//! hands plain values in.

pub mod dispatcher;
pub mod new_package;
pub mod online_search;
pub mod options;
pub mod package;
pub mod registry;
pub mod util;
