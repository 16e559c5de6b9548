//! A read-only inspection library for Kubernetes clusters.
//!
//! The heart of the library is the resource graph resolver: given a root
//! object and the plain facts read out of it, it plans the follow-up API
//! calls and folds their outcomes into a deduplicated node/edge graph.
//! All network traffic stays outside the library; callers perform the
//! planned calls and hand the results back as plain values.

pub mod client;
pub mod forward;
pub mod graph;
pub mod kinds;
pub mod object;
pub mod plan;
pub mod resolve;
pub mod selector;
