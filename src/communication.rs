//! General agent alerts and the endpoint they are delivered to.
use vstd::prelude::*;

verus! {

#[derive(Debug, Clone, Copy, PartialEq, Eq, Structural)]
pub enum AlertLevel {
    Low,
    Medium,
    High,
    Critical,
}

/// An alert of the agent; `timestamp` is in milliseconds since the Unix epoch.
#[derive(Debug, Clone)]
pub struct Alert {
    pub severity: AlertLevel,
    pub message: String,
    pub source: String,
    pub timestamp: i64,
}

/// Where a device's alerts go.
pub struct Communication {
    pub device_id: String,
    pub api_endpoint: String,
}

impl Communication {
    pub fn new(device_id: String, api_endpoint: String) -> (r: Self)
        ensures
            r.device_id@ == device_id@,
            r.api_endpoint@ == api_endpoint@,
    {
        Communication { device_id, api_endpoint }
    }
}

} // verus!
