use vstd::prelude::*;

pub mod num;
pub mod schema;
pub mod value;
pub mod writer;
pub mod reader;
pub mod cli;
pub mod template;
pub mod roundtrip;
pub mod rebuild;
pub mod merge;

verus! {

/// Kinds of failure the configuration layer can report.
///
/// `Parse` is returned when a configuration file's text is not well formed or
/// a key holds a value of the wrong type; `Serialize` when a schema holds a
/// string that the file format cannot carry (one containing a newline or a
/// double quote).
#[derive(Debug, Clone, Copy, PartialEq, Eq, Structural)]
pub enum ConfigError {
    Parse,
    Serialize,
}

} // verus!
