//! Version of the JSON-RPC protocol.

use vstd::prelude::*;

verus! {

/// Protocol version carried by every JSON-RPC request and response.
#[derive(Debug, Clone, Copy, PartialEq, Eq, Structural)]
pub enum Version {
    /// Version 2.0 of the protocol, written `"2.0"` on the wire.
    V2,
}

impl Version {
    /// The text that stands for the version on the wire.
    pub fn as_str(&self) -> (text: &'static str)
        ensures
            text@ == "2.0"@,
    {
        "2.0"
    }
}

} // verus!
