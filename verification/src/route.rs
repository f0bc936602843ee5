//! Classification of an incoming HTTP request by method and path.

use vstd::prelude::*;
use crate::text::{is_prefix_of, str_eq, str_starts_with};

verus! {

/// Where an incoming request is handled.
#[derive(Debug, Clone, Copy, PartialEq, Eq, Structural)]
pub enum BackendRoute {
    Rpc,
    AuthCallback,
    Metrics,
    Gateway,
}

/// The route of a request: `POST /rpc` is the control plane, `GET` under
/// `/auth/callback` the login callback, `GET /metrics` the metrics text, and
/// everything else the gateway data path.
pub open spec fn route_of(method: Seq<char>, path: Seq<char>) -> BackendRoute {
    if method == "POST"@ && path == "/rpc"@ {
        BackendRoute::Rpc
    } else if method == "GET"@ && is_prefix_of("/auth/callback"@, path) {
        BackendRoute::AuthCallback
    } else if method == "GET"@ && path == "/metrics"@ {
        BackendRoute::Metrics
    } else {
        BackendRoute::Gateway
    }
}

/// Classifies a request by its method and path.
pub fn resolve_backend_route(method: &str, path: &str) -> (out: BackendRoute)
    ensures
        out == route_of(method@, path@),
{
    if str_eq(method, "POST") && str_eq(path, "/rpc") {
        return BackendRoute::Rpc;
    }
    if str_eq(method, "GET") && str_starts_with(path, "/auth/callback") {
        return BackendRoute::AuthCallback;
    }
    if str_eq(method, "GET") && str_eq(path, "/metrics") {
        return BackendRoute::Metrics;
    }
    BackendRoute::Gateway
}

} // verus!
