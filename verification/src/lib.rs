//! A declarative command schema and option parsing engine.
//!
//! A command is described once as a schema: a name, a description, a version
//! and an ordered list of typed fields.  From a validated schema the library
//! derives the wire-format descriptor that advertises the command to the
//! platform, and at invocation time converts the untyped bag of name/value
//! pairs delivered by the gateway into typed values, or into a precise error
//! naming the field that failed.

pub mod capability;
pub mod casing;
pub mod commands;
pub mod context;
pub mod descriptor;
pub mod errors;
pub mod parser;
pub mod schema;
pub mod wire;
