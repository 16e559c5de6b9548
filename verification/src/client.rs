//! The service handle and the query type of the resource endpoints.
//! Cluster access itself lives outside the library; the handle carries
//! no state of its own.

use vstd::prelude::*;

verus! {

/// The handle the service endpoints share. Stateless: every request
/// builds its cluster connection outside the library.
#[derive(Clone, Copy)]
pub struct K8sClient;

impl K8sClient {
    /// A fresh handle.
    pub fn new() -> (r: Self) {
        K8sClient
    }
}

/// The query parameters of the single-resource endpoints.
pub struct GetResourceQuery {
    pub namespace: Option<String>,
}

} // verus!
