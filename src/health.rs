//! Liveness and readiness reports.

use vstd::prelude::*;

verus! {

/// Liveness report.
#[derive(Debug, Clone)]
pub struct HealthResponse {
    pub status: &'static str,
    pub version: &'static str,
    pub service: &'static str,
}

/// Readiness report: whether the resources the service needs are reachable.
#[derive(Debug, Clone)]
pub struct ReadyResponse {
    pub status: &'static str,
    pub music_folder: bool,
    pub users_file: bool,
}

impl HealthResponse {
    /// The report of a running service.
    pub fn healthy(version: &'static str, service: &'static str) -> (r: HealthResponse)
        ensures
            r.status@ == "healthy"@,
            r.version == version,
            r.service == service,
    {
        proof {
            reveal_strlit("healthy");
        }
        HealthResponse { status: "healthy", version, service }
    }
}

impl ReadyResponse {
    /// Ready exactly when both resources are reachable.
    pub fn from_checks(music_folder: bool, users_file: bool) -> (r: ReadyResponse)
        ensures
            r.music_folder == music_folder,
            r.users_file == users_file,
            r.status@ == (if music_folder && users_file { "ready"@ } else { "not_ready"@ }),
    {
        let status = if music_folder && users_file { "ready" } else { "not_ready" };
        ReadyResponse { status, music_folder, users_file }
    }

    pub fn is_ready(&self) -> (r: bool)
        ensures
            r == (self.music_folder && self.users_file),
    {
        self.music_folder && self.users_file
    }
}

} // verus!
