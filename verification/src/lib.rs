//! Core of a local-network dashboard that launches shell scripts as
//! background jobs, tracks their lifecycle status, and cancels them on
//! request, while keeping two invocations of the same script from running
//! at once.
//!
//! The verified library holds the bookkeeping and decision logic: the
//! status store, the kill registry, the lock-gate decisions, and the
//! dispatcher that ties them together. The asynchronous process plumbing
//! (spawning under a process group, racing natural exit against a
//! cancellation signal) lives outside, and reports its outcomes back into
//! the functions here.

use vstd::prelude::*;

pub mod api;
pub mod assoc;
pub mod config;
pub mod dispatch;
pub mod localnet;
pub mod logs;
pub mod routes;
pub mod registry;
pub mod status;
pub mod store;

pub use api::{
    api_query_url, find_endpoint, merge_params, proxy_endpoint_url, ApiProxyParams,
};
pub use assoc::AssocList;
pub use config::{CertMode, SystemConfig};
pub use config::cert_paths;
pub use localnet::{is_local_ip, HostAddr};
pub use logs::{format_log_lines, parse_log_index, select_log_path};
pub use dispatch::{
    already_running_message, exit_status_of, expand_run_paths, lock_failure_message,
    run_started_message, spawn_failure_message, Dispatcher, LockCheck, RunDecision, RunGuard,
    RunPaths, StopOutcome, StopRequest,
};
pub use registry::{FireOutcome, KillRegistry};
pub use routes::{
    build_help_page_html, default_description, default_help_order, route_prefix,
    sort_routes_by_help_order, ApiEndpointConfig, RouteFunction, RouteMeta,
};
pub use status::Status;
pub use store::{AppObj, AppSingleton};

verus! {

/// The paragraph wrapper that the page handlers put around every
/// dispatcher message before handing it to the rendering layer.
pub fn wrap_paragraph(body: &str) -> (r: String)
    ensures
        r@ == "<p>"@ + body@ + "</p>"@,
{
    let mut s = String::from_str("<p>");
    s.append(body);
    s.append("</p>");
    s
}

} // verus!
