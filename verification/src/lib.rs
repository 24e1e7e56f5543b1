//! Client library for a locally hosted language-model server.
//!
//! Each operation (chat completion, model pull, embeddings, model listing,
//! model push) builds a JSON request body for a fixed endpoint of the local
//! server. The construction of every body is verified: a spec function gives
//! the exact character sequence of the body, the executable builder is proved
//! to produce it, and a proof shows the encoding is lossless (a body parsed
//! back yields the fields it was built from). Sending the request is plain
//! I/O and lives outside this library; the handling of what comes back is
//! verified here as well.

pub mod body;
pub mod client;
pub mod decode;
pub mod escape;
pub mod response;

use vstd::prelude::*;

verus! {

/// HTTP method of an endpoint.
#[derive(Clone, Copy, Debug, PartialEq, Eq, Structural)]
pub enum HttpMethod {
    Get,
    Post,
}

} // verus!
