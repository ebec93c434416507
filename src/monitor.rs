//! The detection engine: the ordered detector pipeline, the bandwidth
//! roll-up and the anomaly sweep over one owned detection state.
use vstd::prelude::*;
use crate::alert::{alert_is, AlertSeverity, AlertType, Finding, NetworkAlert};
use crate::decode::{
    be32, decode, ipv4_payload, is_ipv4_frame, tcp_dest_port, DecodedRecord, PROTOCOL_TCP,
};
use crate::signatures::{default_signatures, load_malware_signatures, matches_any, scan_payload};
use crate::stats::{add_port, lemma_add_port_distinct, lemma_ports_of_distinct, ports_of, traffic_recorded, ConnectionInfo, ConnectionView, NetworkStats};
use crate::table::keys_unique;

verus! {

/// A source that probed more distinct ports than this is scanning.
pub const PORT_SCAN_THRESHOLD: usize = 10;

/// Bytes per roll-up period above which bandwidth is reported: the usage
/// metric `bytes / 1_000_000` exceeds 100.
pub const BANDWIDTH_THRESHOLD_BYTES: u64 = 100_000_000;

/// Packet count above which the sweep reports a traffic spike.
pub const PACKET_THRESHOLD: u64 = 10000;

/// Ports reached by one source above which the sweep reports it.
pub const PORT_ACCESS_THRESHOLD: usize = 20;

/// Bytes sent by one source above which a recent source is bursting.
pub const BURST_BYTES: u64 = 1_000_000;

/// How recently, in milliseconds, a bursting source must have been first seen.
pub const BURST_WINDOW_MILLIS: i64 = 60_000;

/// Distinct sources above which the sweep reports the connection count.
pub const CONNECTION_THRESHOLD: usize = 100;

/// Ports that attacks commonly target.
pub open spec fn default_suspicious_ports() -> Seq<u16> {
    seq![21u16, 22, 23, 445, 3389]
}

/// A source that reached an unusual number of ports.
pub open spec fn unusual_ports(c: ConnectionView) -> bool {
    c.ports.len() > PORT_ACCESS_THRESHOLD
}

/// A source first seen less than a minute before `now` that sent over a megabyte.
pub open spec fn data_burst(c: ConnectionView, now: i64) -> bool {
    c.bytes_sent > BURST_BYTES && now - c.first_seen < BURST_WINDOW_MILLIS
}

/// `i` is the first entry of `s` whose history satisfies `unusual_ports`.
pub open spec fn first_unusual(s: Seq<(u32, ConnectionInfo)>, i: int) -> bool {
    &&& 0 <= i < s.len()
    &&& unusual_ports(s[i].1@)
    &&& forall|j: int| 0 <= j < i ==> !unusual_ports(#[trigger] s[j].1@)
}

/// `i` is the first entry of `s` whose history is a data burst at `now`.
pub open spec fn first_burst(s: Seq<(u32, ConnectionInfo)>, i: int, now: i64) -> bool {
    &&& 0 <= i < s.len()
    &&& data_burst(s[i].1@, now)
    &&& forall|j: int| 0 <= j < i ==> !data_burst(#[trigger] s[j].1@, now)
}

/// The detection engine of one device.
pub struct NetworkMonitor {
    pub device_id: String,
    pub stats: NetworkStats,
    /// Source addresses whose traffic is refused.
    pub blocked_ips: Vec<u32>,
    pub known_malware_signatures: Vec<Vec<u8>>,
    pub suspicious_ports: Vec<u16>,
}

/// The pipeline's verdict on one packet with the given fields, from state
/// `before`, at `now`: the first detector that fires, in the order blocklist,
/// port scan, malware signature.
pub open spec fn verdict(
    before: NetworkMonitor,
    src: u32,
    dst: u32,
    proto: u8,
    port: Option<u16>,
    payload: Seq<u8>,
    now: i64,
    r: Option<NetworkAlert>,
) -> bool {
    let device = before.device_id@;
    let probed = ports_of(before.stats.port_scan_attempts@, src);
    if before.blocked_ips@.contains(src) {
        r matches Some(a) && alert_is(
            a,
            device,
            AlertType::UnauthorizedAccess,
            AlertSeverity::High,
            Finding::BlockedSource,
            Some(src),
            Some(dst),
            Some(proto),
            None,
            now,
        )
    } else if port is Some && add_port(probed, port->Some_0).len() > PORT_SCAN_THRESHOLD {
        r matches Some(a) && alert_is(
            a,
            device,
            AlertType::Intrusion,
            AlertSeverity::Critical,
            Finding::PortScan,
            Some(src),
            Some(dst),
            Some(proto),
            port,
            now,
        )
    } else if matches_any(payload, before.known_malware_signatures@) {
        r matches Some(a) && alert_is(
            a,
            device,
            AlertType::Malware,
            AlertSeverity::Critical,
            Finding::MalwareSignature,
            Some(src),
            Some(dst),
            Some(proto),
            None,
            now,
        )
    } else {
        r is None
    }
}

/// The whole effect of evaluating one packet: the verdict, the port-scan
/// tracker (touched only when the source is not blocked and the packet is
/// TCP), and the bookkeeping, which happens whatever the verdict.
pub open spec fn evaluation(
    before: NetworkMonitor,
    after: NetworkMonitor,
    src: u32,
    dst: u32,
    proto: u8,
    port: Option<u16>,
    payload: Seq<u8>,
    now: i64,
    r: Option<NetworkAlert>,
) -> bool {
    &&& verdict(before, src, dst, proto, port, payload, now, r)
    &&& after.stats.wf()
    &&& traffic_recorded(before.stats, after.stats, src, dst, port, payload.len() as int, now)
    &&& if before.blocked_ips@.contains(src) || port is None {
        after.stats.port_scan_attempts == before.stats.port_scan_attempts
    } else {
        &&& ports_of(after.stats.port_scan_attempts@, src) == add_port(
            ports_of(before.stats.port_scan_attempts@, src),
            port->Some_0,
        )
        &&& forall|k: u32|
            k != src ==> ports_of(after.stats.port_scan_attempts@, k) == ports_of(
                before.stats.port_scan_attempts@,
                k,
            )
        &&& keys_unique(after.stats.port_scan_attempts@)
    }
    &&& after.device_id == before.device_id
    &&& after.blocked_ips == before.blocked_ips
    &&& after.known_malware_signatures == before.known_malware_signatures
    &&& after.suspicious_ports == before.suspicious_ports
}

/// What the anomaly sweep reports for state `m` at `now`: the first check
/// that holds, in the order traffic spike, unusual port access, data burst,
/// connection count; sources are visited in table order.
pub open spec fn anomaly_verdict(m: NetworkMonitor, now: i64, r: Option<NetworkAlert>) -> bool {
    let st = m.stats;
    let known = st.known_ips@;
    let device = m.device_id@;
    if st.packet_count > PACKET_THRESHOLD {
        r matches Some(a) && alert_is(
            a,
            device,
            AlertType::Anomaly,
            AlertSeverity::High,
            Finding::TrafficSpike { packets: st.packet_count },
            None,
            None,
            None,
            None,
            now,
        )
    } else if exists|i: int| 0 <= i < known.len() && unusual_ports(#[trigger] known[i].1@) {
        r matches Some(a) && exists|i: int|
            #[trigger] first_unusual(known, i) && alert_is(
                a,
                device,
                AlertType::Anomaly,
                AlertSeverity::High,
                Finding::UnusualPortAccess,
                Some(known[i].0),
                None,
                None,
                None,
                now,
            )
    } else if exists|i: int| 0 <= i < known.len() && data_burst(#[trigger] known[i].1@, now) {
        r matches Some(a) && exists|i: int|
            #[trigger] first_burst(known, i, now) && alert_is(
                a,
                device,
                AlertType::Anomaly,
                AlertSeverity::High,
                Finding::DataBurst { bytes: known[i].1.bytes_sent },
                Some(known[i].0),
                None,
                None,
                None,
                now,
            )
    } else if st.connection_count > CONNECTION_THRESHOLD {
        r matches Some(a) && alert_is(
            a,
            device,
            AlertType::Anomaly,
            AlertSeverity::Medium,
            Finding::HighConnectionCount { count: st.connection_count },
            None,
            None,
            None,
            None,
            now,
        )
    } else {
        r is None
    }
}

/// Ports tracked for one source after it probed `ports` in turn, from no history.
pub open spec fn track_all(ports: Seq<u16>) -> Seq<u16>
    decreases ports.len(),
{
    if ports.len() == 0 {
        Seq::empty()
    } else {
        add_port(track_all(ports.drop_last()), ports.last())
    }
}

/// The tracker holds each probed port once: its length is the number of
/// distinct ports probed.
pub proof fn lemma_track_all_distinct(ports: Seq<u16>)
    ensures
        track_all(ports).no_duplicates(),
        track_all(ports).to_set() == ports.to_set(),
        track_all(ports).len() == ports.to_set().len(),
    decreases ports.len(),
{
    if ports.len() == 0 {
        assert(ports.to_set() =~= Set::<u16>::empty());
        assert(track_all(ports).to_set() =~= Set::<u16>::empty());
    } else {
        let pre = ports.drop_last();
        let p = ports.last();
        lemma_track_all_distinct(pre);
        let t = track_all(pre);
        assert(ports =~= pre + seq![p]);
        Seq::lemma_to_set_insert_commutes(pre, p);
        if t.contains(p) {
            assert(t.to_set().insert(p) =~= t.to_set());
        } else {
            let u = t.push(p);
            assert(u =~= t + seq![p]);
            Seq::lemma_to_set_insert_commutes(t, p);
            assert forall|i: int, j: int| 0 <= i < u.len() && 0 <= j < u.len() && i != j implies u[i]
                != u[j] by {
                if i == t.len() {
                    assert(u[j] == t[j]);
                } else if j == t.len() {
                    assert(u[i] == t[i]);
                }
            }
        }
        track_all(ports).unique_seq_to_set();
    }
}

/// Port-scan threshold from any state: the tracker lists each port that a
/// source probed once, so a TCP packet to port `p` from a source that is not
/// blocked raises the port-scan alert exactly when the distinct ports that
/// the source has probed, this one included, are more than ten. Repeated
/// ports never add to the count.
pub proof fn lemma_port_scan_distinct(
    before: NetworkMonitor,
    after: NetworkMonitor,
    src: u32,
    dst: u32,
    proto: u8,
    p: u16,
    payload: Seq<u8>,
    now: i64,
    r: Option<NetworkAlert>,
)
    requires
        before.wf(),
        !before.blocked_ips@.contains(src),
        evaluation(before, after, src, dst, proto, Some(p), payload, now, r),
    ensures
        ports_of(after.stats.port_scan_attempts@, src).no_duplicates(),
        ports_of(after.stats.port_scan_attempts@, src).to_set() == ports_of(
            before.stats.port_scan_attempts@,
            src,
        ).to_set().insert(p),
        (r matches Some(a) && a.finding == Finding::PortScan) <==> ports_of(
            after.stats.port_scan_attempts@,
            src,
        ).to_set().len() > PORT_SCAN_THRESHOLD,
{
    let probed = ports_of(before.stats.port_scan_attempts@, src);
    lemma_ports_of_distinct(before.stats.port_scan_attempts@, src);
    lemma_add_port_distinct(probed, p);
    add_port(probed, p).unique_seq_to_set();
}

/// Along a run of evaluations of TCP packets from `ip`, to ports `ports[k]`,
/// the tracker for `ip` holds `track_all` of the ports probed so far.
proof fn lemma_run_tracker(
    states: Seq<NetworkMonitor>,
    ip: u32,
    dsts: Seq<u32>,
    ports: Seq<u16>,
    payloads: Seq<Seq<u8>>,
    nows: Seq<i64>,
    alerts: Seq<Option<NetworkAlert>>,
    k: int,
)
    requires
        states.len() == ports.len() + 1,
        dsts.len() == ports.len() && payloads.len() == ports.len() && nows.len() == ports.len()
            && alerts.len() == ports.len(),
        ports_of(states[0].stats.port_scan_attempts@, ip) == Seq::<u16>::empty(),
        !states[0].blocked_ips@.contains(ip),
        forall|j: int|
            0 <= j < ports.len() ==> #[trigger] evaluation(
                states[j],
                states[j + 1],
                ip,
                dsts[j],
                PROTOCOL_TCP,
                Some(ports[j]),
                payloads[j],
                nows[j],
                alerts[j],
            ),
        0 <= k <= ports.len(),
    ensures
        ports_of(states[k].stats.port_scan_attempts@, ip) == track_all(ports.subrange(0, k)),
        states[k].blocked_ips == states[0].blocked_ips,
    decreases k,
{
    if k == 0 {
        assert(ports.subrange(0, 0).len() == 0);
    } else {
        lemma_run_tracker(states, ip, dsts, ports, payloads, nows, alerts, k - 1);
        let j = k - 1;
        assert(evaluation(
            states[j],
            states[j + 1],
            ip,
            dsts[j],
            PROTOCOL_TCP,
            Some(ports[j]),
            payloads[j],
            nows[j],
            alerts[j],
        ));
        assert(ports.subrange(0, k).drop_last() =~= ports.subrange(0, k - 1));
    }
}

/// Port-scan threshold over a run: when a source that is not blocked and has
/// no port history sends TCP packets to `ports[0]`, `ports[1]`, ... in turn,
/// the packet at position `k` raises the port-scan alert exactly when the
/// ports probed up to and including it hold more than ten distinct values.
/// So with distinct ports the eleventh packet and every later one alert,
/// and a run over fewer than eleven distinct ports never does.
pub proof fn lemma_port_scan_run(
    states: Seq<NetworkMonitor>,
    ip: u32,
    dsts: Seq<u32>,
    ports: Seq<u16>,
    payloads: Seq<Seq<u8>>,
    nows: Seq<i64>,
    alerts: Seq<Option<NetworkAlert>>,
)
    requires
        states.len() == ports.len() + 1,
        dsts.len() == ports.len() && payloads.len() == ports.len() && nows.len() == ports.len()
            && alerts.len() == ports.len(),
        ports_of(states[0].stats.port_scan_attempts@, ip) == Seq::<u16>::empty(),
        !states[0].blocked_ips@.contains(ip),
        forall|j: int|
            0 <= j < ports.len() ==> #[trigger] evaluation(
                states[j],
                states[j + 1],
                ip,
                dsts[j],
                PROTOCOL_TCP,
                Some(ports[j]),
                payloads[j],
                nows[j],
                alerts[j],
            ),
    ensures
        forall|k: int|
            0 <= k < ports.len() ==> ((#[trigger] alerts[k] matches Some(a) && a.finding == Finding::PortScan)
                <==> ports.subrange(0, k + 1).to_set().len() > PORT_SCAN_THRESHOLD),
        ports.no_duplicates() ==> forall|k: int|
            0 <= k < ports.len() ==> ((#[trigger] alerts[k] matches Some(a) && a.finding
                == Finding::PortScan) <==> k >= PORT_SCAN_THRESHOLD),
{
    assert forall|k: int| 0 <= k < ports.len() implies ((#[trigger] alerts[k] matches Some(a) && a.finding
        == Finding::PortScan) <==> ports.subrange(0, k + 1).to_set().len()
        > PORT_SCAN_THRESHOLD) by {
        lemma_run_tracker(states, ip, dsts, ports, payloads, nows, alerts, k);
        assert(evaluation(
            states[k],
            states[k + 1],
            ip,
            dsts[k],
            PROTOCOL_TCP,
            Some(ports[k]),
            payloads[k],
            nows[k],
            alerts[k],
        ));
        let run = ports.subrange(0, k + 1);
        assert(run.drop_last() =~= ports.subrange(0, k));
        lemma_track_all_distinct(run);
    }
    if ports.no_duplicates() {
        assert forall|k: int| 0 <= k < ports.len() implies #[trigger] ports.subrange(0, k + 1).to_set().len()
            == k + 1 by {
            let run = ports.subrange(0, k + 1);
            assert(run.no_duplicates());
            run.unique_seq_to_set();
        }
    }
}

fn contains_ip(ips: &Vec<u32>, ip: u32) -> (r: bool)
    ensures
        r == ips@.contains(ip),
{
    let mut i: usize = 0;
    while i < ips.len()
        invariant
            i <= ips@.len(),
            forall|j: int| 0 <= j < i ==> ips@[j] != ip,
        decreases ips@.len() - i,
    {
        if ips[i] == ip {
            assert(ips@[i as int] == ip);
            return true;
        }
        i = i + 1;
    }
    false
}

impl NetworkMonitor {
    /// The detection state's tables hold one entry per address.
    pub open spec fn wf(&self) -> bool {
        self.stats.wf()
    }

    /// A monitor for `device_id` with empty state, no blocked addresses, the
    /// built-in malware signatures and the common attack ports.
    pub fn new(device_id: String) -> (r: Self)
        ensures
            r.wf(),
            r.device_id@ == device_id@,
            r.stats.bandwidth_usage == 0,
            r.stats.connection_count == 0,
            r.stats.packet_count == 0,
            r.stats.last_check == 0,
            r.stats.known_ips@.len() == 0,
            r.stats.port_scan_attempts@.len() == 0,
            r.blocked_ips@.len() == 0,
            r.known_malware_signatures@.len() == default_signatures().len(),
            forall|k: int|
                0 <= k < r.known_malware_signatures@.len()
                    ==> #[trigger] r.known_malware_signatures@[k]@ == default_signatures()[k],
            r.suspicious_ports@ == default_suspicious_ports(),
    {
        let suspicious_ports = vec![21u16, 22, 23, 445, 3389];
        assert(suspicious_ports@ =~= default_suspicious_ports());
        NetworkMonitor {
            device_id,
            stats: NetworkStats::new(),
            blocked_ips: Vec::new(),
            known_malware_signatures: load_malware_signatures(),
            suspicious_ports,
        }
    }

    /// The same monitor with `ips` as its blocklist.
    pub fn with_blocked_ips(self, ips: Vec<u32>) -> (r: Self)
        ensures
            r.blocked_ips@ == ips@,
            r.device_id == self.device_id,
            r.stats == self.stats,
            r.known_malware_signatures == self.known_malware_signatures,
            r.suspicious_ports == self.suspicious_ports,
    {
        NetworkMonitor { blocked_ips: ips, ..self }
    }

    /// The same monitor with `signatures` as its malware signature set.
    pub fn with_malware_signatures(self, signatures: Vec<Vec<u8>>) -> (r: Self)
        ensures
            r.known_malware_signatures@ == signatures@,
            r.device_id == self.device_id,
            r.stats == self.stats,
            r.blocked_ips == self.blocked_ips,
            r.suspicious_ports == self.suspicious_ports,
    {
        NetworkMonitor { known_malware_signatures: signatures, ..self }
    }

    fn make_alert(
        &self,
        kind: AlertType,
        severity: AlertSeverity,
        finding: Finding,
        source_ip: Option<u32>,
        destination_ip: Option<u32>,
        protocol: Option<u8>,
        port: Option<u16>,
        now: i64,
    ) -> (a: NetworkAlert)
        ensures
            alert_is(
                a,
                self.device_id@,
                kind,
                severity,
                finding,
                source_ip,
                destination_ip,
                protocol,
                port,
                now,
            ),
    {
        NetworkAlert {
            device_id: self.device_id.clone(),
            alert_type: kind,
            severity,
            finding,
            source_ip,
            destination_ip,
            protocol,
            port,
            timestamp: now,
        }
    }

    /// Whether any configured signature occurs in `payload` as a contiguous
    /// run of bytes.
    pub fn check_malware_signatures(&self, payload: &[u8]) -> (r: bool)
        ensures
            r == matches_any(payload@, self.known_malware_signatures@),
    {
        scan_payload(payload, &self.known_malware_signatures)
    }

    /// Runs the detector pipeline on one decoded packet at `now` and returns
    /// the first alert raised, if any; accounts for the packet in any case.
    pub fn evaluate(&mut self, rec: &DecodedRecord, now: i64) -> (r: Option<NetworkAlert>)
        requires
            old(self).wf(),
        ensures
            evaluation(
                *old(self),
                *final(self),
                rec.source_ip,
                rec.destination_ip,
                rec.protocol,
                rec.dest_port,
                rec.payload@,
                now,
                r,
            ),
    {
        let src = rec.source_ip;
        let dst = rec.destination_ip;
        let proto = rec.protocol;
        let alert = if contains_ip(&self.blocked_ips, src) {
            Some(
                self.make_alert(
                    AlertType::UnauthorizedAccess,
                    AlertSeverity::High,
                    Finding::BlockedSource,
                    Some(src),
                    Some(dst),
                    Some(proto),
                    None,
                    now,
                ),
            )
        } else {
            let scanned = match rec.dest_port {
                Some(p) => {
                    let n = self.stats.track_port(src, p);
                    n > PORT_SCAN_THRESHOLD
                },
                None => false,
            };
            if scanned {
                Some(
                    self.make_alert(
                        AlertType::Intrusion,
                        AlertSeverity::Critical,
                        Finding::PortScan,
                        Some(src),
                        Some(dst),
                        Some(proto),
                        rec.dest_port,
                        now,
                    ),
                )
            } else if self.check_malware_signatures(rec.payload.as_slice()) {
                Some(
                    self.make_alert(
                        AlertType::Malware,
                        AlertSeverity::Critical,
                        Finding::MalwareSignature,
                        Some(src),
                        Some(dst),
                        Some(proto),
                        None,
                        now,
                    ),
                )
            } else {
                None
            }
        };
        self.stats.record_traffic(rec, now);
        alert
    }

    /// Decodes one captured frame and, when it is IPv4, runs the pipeline on
    /// it at `now`. A frame that does not decode leaves the state unchanged.
    pub fn analyze_packet_at(&mut self, frame: &[u8], now: i64) -> (r: Option<NetworkAlert>)
        requires
            old(self).wf(),
        ensures
            final(self).wf(),
            !is_ipv4_frame(frame@) ==> r is None && *final(self) == *old(self),
            is_ipv4_frame(frame@) ==> evaluation(
                *old(self),
                *final(self),
                be32(frame@, 26) as u32,
                be32(frame@, 30) as u32,
                frame@[23],
                tcp_dest_port(frame@),
                ipv4_payload(frame@),
                now,
                r,
            ),
    {
        match decode(frame) {
            Some(rec) => self.evaluate(&rec, now),
            None => None,
        }
    }

    /// Bandwidth roll-up at `now`: reports the bytes accumulated since the
    /// last roll-up when they exceed the threshold, then resets the
    /// accumulator to zero whether or not it reported.
    pub fn bandwidth_tick_at(&mut self, now: i64) -> (r: Option<NetworkAlert>)
        requires
            old(self).wf(),
        ensures
            final(self).wf(),
            final(self).stats.bandwidth_usage == 0,
            final(self).stats.last_check == now,
            old(self).stats.bandwidth_usage > BANDWIDTH_THRESHOLD_BYTES ==> (r matches Some(a)
                && alert_is(
                a,
                old(self).device_id@,
                AlertType::Bandwidth,
                AlertSeverity::Medium,
                Finding::HighBandwidth { bytes: old(self).stats.bandwidth_usage },
                None,
                None,
                None,
                None,
                now,
            )),
            old(self).stats.bandwidth_usage <= BANDWIDTH_THRESHOLD_BYTES ==> r is None,
            final(self).stats.packet_count == old(self).stats.packet_count,
            final(self).stats.connection_count == old(self).stats.connection_count,
            final(self).stats.known_ips == old(self).stats.known_ips,
            final(self).stats.port_scan_attempts == old(self).stats.port_scan_attempts,
            final(self).device_id == old(self).device_id,
            final(self).blocked_ips == old(self).blocked_ips,
            final(self).known_malware_signatures == old(self).known_malware_signatures,
            final(self).suspicious_ports == old(self).suspicious_ports,
    {
        let bytes = self.stats.bandwidth_usage;
        let r = if bytes > BANDWIDTH_THRESHOLD_BYTES {
            Some(
                self.make_alert(
                    AlertType::Bandwidth,
                    AlertSeverity::Medium,
                    Finding::HighBandwidth { bytes },
                    None,
                    None,
                    None,
                    None,
                    now,
                ),
            )
        } else {
            None
        };
        self.stats.bandwidth_usage = 0;
        self.stats.last_check = now;
        r
    }

    /// Anomaly sweep over the current state at `now`. The checks run in a
    /// fixed order and the first that holds is reported: a traffic spike;
    /// a source that reached an unusual number of ports; a recent source
    /// that sent a data burst; too many distinct sources. Sources are
    /// visited in the order in which they were first seen.
    pub fn detect_anomalies_at(&self, now: i64) -> (r: Option<NetworkAlert>)
        ensures
            anomaly_verdict(*self, now, r),
    {
        if self.stats.packet_count > PACKET_THRESHOLD {
            return Some(
                self.make_alert(
                    AlertType::Anomaly,
                    AlertSeverity::High,
                    Finding::TrafficSpike { packets: self.stats.packet_count },
                    None,
                    None,
                    None,
                    None,
                    now,
                ),
            );
        }
        let known = &self.stats.known_ips;
        let mut i: usize = 0;
        while i < known.len()
            invariant
                known == &self.stats.known_ips,
                self.stats.packet_count <= PACKET_THRESHOLD,
                i <= known@.len(),
                forall|j: int| 0 <= j < i ==> !unusual_ports(#[trigger] known@[j].1@),
            decreases known@.len() - i,
        {
            if known[i].1.ports_accessed.len() > PORT_ACCESS_THRESHOLD {
                let a = self.make_alert(
                    AlertType::Anomaly,
                    AlertSeverity::High,
                    Finding::UnusualPortAccess,
                    Some(known[i].0),
                    None,
                    None,
                    None,
                    now,
                );
                assert(unusual_ports(known@[i as int].1@));
                assert(first_unusual(self.stats.known_ips@, i as int));
                return Some(a);
            }
            i = i + 1;
        }
        let mut i: usize = 0;
        while i < known.len()
            invariant
                known == &self.stats.known_ips,
                self.stats.packet_count <= PACKET_THRESHOLD,
                i <= known@.len(),
                forall|j: int| 0 <= j < known@.len() ==> !unusual_ports(#[trigger] known@[j].1@),
                forall|j: int| 0 <= j < i ==> !data_burst(#[trigger] known@[j].1@, now),
            decreases known@.len() - i,
        {
            let info = &known[i].1;
            if info.bytes_sent > BURST_BYTES && (now as i128) - (info.first_seen as i128)
                < BURST_WINDOW_MILLIS as i128 {
                let a = self.make_alert(
                    AlertType::Anomaly,
                    AlertSeverity::High,
                    Finding::DataBurst { bytes: info.bytes_sent },
                    Some(known[i].0),
                    None,
                    None,
                    None,
                    now,
                );
                assert(data_burst(known@[i as int].1@, now));
                assert(first_burst(self.stats.known_ips@, i as int, now));
                return Some(a);
            }
            i = i + 1;
        }
        if self.stats.connection_count > CONNECTION_THRESHOLD {
            return Some(
                self.make_alert(
                    AlertType::Anomaly,
                    AlertSeverity::Medium,
                    Finding::HighConnectionCount { count: self.stats.connection_count },
                    None,
                    None,
                    None,
                    None,
                    now,
                ),
            );
        }
        None
    }

}

} // verus!
