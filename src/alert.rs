//! Alerts raised by the network detectors.
use vstd::prelude::*;

verus! {

#[derive(Debug, Clone, Copy, PartialEq, Eq, Structural)]
pub enum AlertType {
    Intrusion,
    Malware,
    Anomaly,
    Performance,
    Resource,
    Bandwidth,
    UnauthorizedAccess,
    SuspiciousTraffic,
}

#[derive(Debug, Clone, Copy, PartialEq, Eq, Structural)]
pub enum AlertSeverity {
    Critical,
    High,
    Medium,
    Low,
}

/// What a detector found; it carries the values that the alert's text reports.
#[derive(Debug, Clone, Copy, PartialEq, Eq, Structural)]
pub enum Finding {
    /// Traffic from an address on the blocklist.
    BlockedSource,
    /// One source probed more destination ports than the threshold allows.
    PortScan,
    /// A payload holds a malware signature.
    MalwareSignature,
    /// Bytes accumulated over one roll-up period.
    HighBandwidth { bytes: u64 },
    /// Packets counted since the state was created.
    TrafficSpike { packets: u64 },
    /// One source reached an unusual number of ports.
    UnusualPortAccess,
    /// A recently seen source sent a large volume of data.
    DataBurst { bytes: u64 },
    /// Too many distinct sources.
    HighConnectionCount { count: usize },
}

/// One alert. Addresses are IPv4 addresses as big-endian integers, `protocol`
/// the IPv4 protocol number, `timestamp` milliseconds since the Unix epoch.
#[derive(Debug)]
pub struct NetworkAlert {
    pub device_id: String,
    pub alert_type: AlertType,
    pub severity: AlertSeverity,
    pub finding: Finding,
    pub source_ip: Option<u32>,
    pub destination_ip: Option<u32>,
    pub protocol: Option<u8>,
    pub port: Option<u16>,
    pub timestamp: i64,
}

/// `a` has exactly these contents.
pub open spec fn alert_is(
    a: NetworkAlert,
    device: Seq<char>,
    kind: AlertType,
    severity: AlertSeverity,
    finding: Finding,
    source_ip: Option<u32>,
    destination_ip: Option<u32>,
    protocol: Option<u8>,
    port: Option<u16>,
    now: i64,
) -> bool {
    &&& a.device_id@ == device
    &&& a.alert_type == kind
    &&& a.severity == severity
    &&& a.finding == finding
    &&& a.source_ip == source_ip
    &&& a.destination_ip == destination_ip
    &&& a.protocol == protocol
    &&& a.port == port
    &&& a.timestamp == now
}

} // verus!
