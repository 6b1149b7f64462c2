//! The error type every subsystem returns. Variants that carry an error of
//! the operating system or of a file-format parser hold its message.

use vstd::prelude::*;

verus! {

#[derive(Debug, Clone)]
pub enum PowerError {
    Io(String),
    Config(String),
    Hardware(String),
    NotFound(String),
    PermissionDenied,
    Inhibited(Vec<String>),
    InvalidState(String),
    Unsupported(String),
    Serde(String),
    Toml(String),
    InvalidParams(String),
    UnknownMethod(String),
    Internal(String),
}

} // verus!
