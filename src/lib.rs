//! Materialises a declared set of files on disk.
//!
//! The library holds the logic: the typed model of a fileset, its decoding
//! from a generic tree of tables and strings, content decoding, permission
//! mode parsing, and the per-file reconciliation as a state machine whose
//! actions the caller performs. `laws` states what holds of it over runs.
use vstd::prelude::*;

pub mod file;
pub mod fileset;
pub mod laws;
pub mod mode;
pub mod update;

pub use file::{encoding_identity, ContentError, Encoding, File};
pub use fileset::{parse_fileset, Node, ParseError};
pub use mode::parse_mode;
pub use update::{Action, ApplyError, Content, Event, Stage, Update};
