//! The reason phrase of an HTTP/1 response.
use vstd::prelude::*;

use bytes::Bytes;

use crate::buffers::{bytes_as_slice, bytes_view};

verus! {

/// A reason phrase in an HTTP/1 response.
///
/// For clients, a `ReasonPhrase` is present in the extensions of a response
/// when the server's reason phrase differs from the canonical one for the
/// status code: `HTTP/1.1 200 Awesome` carries `Awesome`, `HTTP/1.1 200 OK`
/// carries none.
#[derive(Clone, Debug, PartialEq, Eq, PartialOrd, Ord, Hash)]
pub struct ReasonPhrase(Bytes);

impl View for ReasonPhrase {
    type V = Seq<u8>;

    closed spec fn view(&self) -> Seq<u8> {
        bytes_view(self.0)
    }
}

impl ReasonPhrase {
    /// Converts a `Bytes` directly into a `ReasonPhrase` without validating.
    ///
    /// Use with care; invalid bytes in a reason phrase can cause serious security problems if
    /// emitted in a response.
    pub(crate) fn from_bytes_unchecked(reason: Bytes) -> (r: Self)
        ensures
            r@ == bytes_view(reason),
    {
        ReasonPhrase(reason)
    }

    /// Gets the reason phrase as bytes.
    pub fn as_bytes(&self) -> (r: &[u8])
        ensures
            r@ == self@,
    {
        bytes_as_slice(&self.0)
    }
}

} // verus!
