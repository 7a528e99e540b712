//! The library's failure taxonomy. Every failure is scoped to one session or
//! one request; none is fatal to the service as a whole.

use vstd::prelude::*;

verus! {

/// An error of the bridge, each variant carrying its description.
#[derive(Debug)]
pub enum Error {
    /// An input/output failure at the transport, carried as text.
    Io(String),
    /// A serialization or deserialization failure.
    Json(String),
    /// A failure of the bridge itself, such as an unknown session.
    System(String),
    /// A request body that is not UTF-8 text.
    Utf8(String),
}

} // verus!
