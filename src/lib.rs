use vstd::prelude::*;

pub mod laws;
pub mod parse;
pub mod session;
pub mod update;

verus! {

/// Why reading a device or a request failed.
#[derive(Debug, Clone, Copy, PartialEq, Eq, Structural)]
pub enum Error {
    /// A file could not be opened, read or written.
    Io,
    /// Text that should hold an integer does not.
    Parse,
    /// The device enumeration could not be set up or run.
    Enumeration,
}

} // verus!
