//! The request and response envelopes of the command surface.

use vstd::prelude::*;

verus! {

/// One call into the command surface: the endpoint's name and an optional
/// payload.
#[derive(Debug, Clone)]
pub struct ApiRequest {
    pub endpoit: String,
    pub payload: Option<String>,
}

/// One answer out of the command surface: a status code and a body.
#[derive(Debug, Clone)]
pub struct ApiResponse {
    pub status: u16,
    pub body: String,
}

} // verus!
