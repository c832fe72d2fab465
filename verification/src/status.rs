//! The status report of the server.
use vstd::prelude::*;

verus! {

/// What `GET /status/` answers with.
pub struct StatusReport {
    pub status: &'static str,
    pub message: &'static str,
    pub version: String,
}

/// The report of a running server of the given version.
pub fn status_report(version: &str) -> (report: StatusReport)
    ensures
        report.status@ == "ok"@,
        report.message@ == "server is running"@,
        report.version@ == version@,
{
    StatusReport { status: "ok", message: "server is running", version: version.to_string() }
}

} // verus!
