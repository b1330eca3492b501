use vstd::prelude::*;
use crate::status::Status;

verus! {

/// Why an operation of the layer did not produce a value.
#[derive(Debug)]
pub enum DeviceError {
    /// A required entry point could not be resolved while loading a table;
    /// carries the entry point's name.
    LoadError(String),
    /// The native call returned a non-success status; carries that code.
    VkError(Status),
    /// An optional entry point that did not resolve was asked for; carries
    /// the entry point's name.
    Unsupported(String),
}

} // verus!
