//! The static health-check payload.
use vstd::prelude::*;
use vstd::string::*;
use crate::text::{decimal, decimal_string};

verus! {

pub struct HealthStatus {
    pub status: String,
    pub timestamp: String,
    pub version: String,
}

/// The health payload at `now_secs` seconds since the Unix epoch.
pub fn check(now_secs: u64, version: &str) -> (r: HealthStatus)
    ensures
        r.status@ == "ok"@,
        r.timestamp@ == decimal(now_secs as nat),
        r.version@ == version@,
{
    HealthStatus {
        status: String::from_str("ok"),
        timestamp: decimal_string(now_secs),
        version: String::from_str(version),
    }
}

} // verus!
