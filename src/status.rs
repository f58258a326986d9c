//! The service's status report.

use vstd::prelude::*;
use crate::config::JobsucheConfig;
use crate::text::concat;

verus! {

/// Name under which the service reports itself.
pub const SERVER_NAME: &'static str = "Jobsuche MCP Server";

/// Version the service reports.
pub const SERVER_VERSION: &'static str = "0.3.0";

/// Operations the service exposes: search, get-detail, search-with-details,
/// batch-search and get-status.
pub const TOOLS_COUNT: usize = 5;

/// Server status information.
#[derive(Debug, Clone)]
pub struct JobsucheServerStatus {
    pub server_name: String,
    pub version: String,
    pub uptime_seconds: u64,
    pub api_url: String,
    pub api_connection_status: String,
    pub tools_count: usize,
}

/// How a probe search classifies the upstream connection.
pub open spec fn connection_text(probe: Result<(), String>) -> Seq<char> {
    match probe {
        Ok(()) => "Connected"@,
        Err(e) => "Connection Error: "@ + e@,
    }
}

/// "Connected" when the probe search succeeded, else the error after "Connection Error: ".
pub fn connection_status(probe: &Result<(), String>) -> (r: String)
    ensures
        r@ == connection_text(*probe),
{
    match probe {
        Ok(()) => String::from_str("Connected"),
        Err(e) => concat("Connection Error: ", e.as_str()),
    }
}

/// The status report, from the configuration, the uptime and the outcome of
/// a probe search.
pub fn server_status(config: &JobsucheConfig, uptime_seconds: u64, probe: &Result<(), String>) -> (r: JobsucheServerStatus)
    ensures
        r.server_name@ == SERVER_NAME@,
        r.version@ == SERVER_VERSION@,
        r.uptime_seconds == uptime_seconds,
        r.api_url@ == config.api_url@,
        r.api_connection_status@ == connection_text(*probe),
        r.tools_count == TOOLS_COUNT,
{
    JobsucheServerStatus {
        server_name: String::from_str(SERVER_NAME),
        version: String::from_str(SERVER_VERSION),
        uptime_seconds,
        api_url: config.api_url.clone(),
        api_connection_status: connection_status(probe),
        tools_count: TOOLS_COUNT,
    }
}

} // verus!
