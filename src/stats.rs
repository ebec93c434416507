//! Detection state: aggregate counters, per-source connection history and
//! port-scan tracking.
use vstd::prelude::*;
use crate::decode::DecodedRecord;
use crate::table::{find_index, has_key, index_of, keys_unique, lemma_push_entry, lemma_update_entry};

verus! {

/// History of one source address. Times are milliseconds since the Unix epoch.
pub struct ConnectionInfo {
    pub first_seen: i64,
    pub last_seen: i64,
    pub bytes_sent: u64,
    pub bytes_received: u64,
    /// Distinct destination ports, in the order first reached.
    pub ports_accessed: Vec<u16>,
}

pub ghost struct ConnectionView {
    pub first_seen: i64,
    pub last_seen: i64,
    pub bytes_sent: u64,
    pub bytes_received: u64,
    pub ports: Seq<u16>,
}

impl View for ConnectionInfo {
    type V = ConnectionView;

    open spec fn view(&self) -> ConnectionView {
        ConnectionView {
            first_seen: self.first_seen,
            last_seen: self.last_seen,
            bytes_sent: self.bytes_sent,
            bytes_received: self.bytes_received,
            ports: self.ports_accessed@,
        }
    }
}

/// `a + b`, held at `u64::MAX`.
pub open spec fn sat_add(a: u64, b: int) -> u64 {
    if a + b > u64::MAX {
        u64::MAX
    } else {
        (a + b) as u64
    }
}

/// A port sequence after `p` is reached: `p` is added when it is new.
pub open spec fn add_port(ports: Seq<u16>, p: u16) -> Seq<u16> {
    if ports.contains(p) {
        ports
    } else {
        ports.push(p)
    }
}

/// A source's history after it sent `len` payload bytes at `now`, to `port` if TCP.
pub open spec fn after_send(
    before: Option<ConnectionView>,
    now: i64,
    len: int,
    port: Option<u16>,
) -> ConnectionView {
    let (first, sent, received, ports) = match before {
        Some(c) => (c.first_seen, c.bytes_sent, c.bytes_received, c.ports),
        None => (now, 0u64, 0u64, Seq::<u16>::empty()),
    };
    ConnectionView {
        first_seen: first,
        last_seen: now,
        bytes_sent: sat_add(sent, len),
        bytes_received: received,
        ports: match port {
            Some(p) => add_port(ports, p),
            None => ports,
        },
    }
}

/// A known address's history after it received `len` payload bytes at `now`.
pub open spec fn after_receive(c: ConnectionView, now: i64, len: int) -> ConnectionView {
    ConnectionView { last_seen: now, bytes_received: sat_add(c.bytes_received, len), ..c }
}

/// History recorded for `ip`, if any.
pub open spec fn info_of(s: Seq<(u32, ConnectionInfo)>, ip: u32) -> Option<ConnectionView> {
    if has_key(s, ip) {
        Some(s[index_of(s, ip)].1@)
    } else {
        None
    }
}

/// Ports tracked for `ip` by the port-scan detector.
pub open spec fn ports_of(s: Seq<(u32, Vec<u16>)>, ip: u32) -> Seq<u16> {
    if has_key(s, ip) {
        s[index_of(s, ip)].1@
    } else {
        Seq::empty()
    }
}

/// Aggregate state, mutated by every decoded packet and reset by the roll-up.
pub struct NetworkStats {
    /// Payload bytes since the last roll-up.
    pub bandwidth_usage: u64,
    /// Distinct source addresses observed.
    pub connection_count: usize,
    pub packet_count: u64,
    /// Time of the last roll-up, in milliseconds since the Unix epoch.
    pub last_check: i64,
    pub known_ips: Vec<(u32, ConnectionInfo)>,
    pub port_scan_attempts: Vec<(u32, Vec<u16>)>,
}

/// `after` is `before` with one packet of `len` payload bytes from `src` to
/// `dst` (to TCP port `port`, if any) accounted at `now`.
pub open spec fn traffic_recorded(
    before: NetworkStats,
    after: NetworkStats,
    src: u32,
    dst: u32,
    port: Option<u16>,
    len: int,
    now: i64,
) -> bool {
    &&& info_of(after.known_ips@, src) == Some(
        after_send(info_of(before.known_ips@, src), now, len, port),
    )
    &&& dst != src ==> info_of(after.known_ips@, dst) == match info_of(before.known_ips@, dst) {
        Some(c) => Some(after_receive(c, now, len)),
        None => None,
    }
    &&& forall|k: u32|
        k != src && k != dst ==> info_of(after.known_ips@, k) == info_of(before.known_ips@, k)
    &&& after.connection_count == if has_key(before.known_ips@, src) || before.connection_count
        == usize::MAX {
        before.connection_count
    } else {
        (before.connection_count + 1) as usize
    }
    &&& after.bandwidth_usage == sat_add(before.bandwidth_usage, len)
    &&& after.packet_count == sat_add(before.packet_count, 1)
    &&& after.last_check == before.last_check
}

/// Adding a port keeps a port sequence free of repeats.
pub proof fn lemma_add_port_distinct(ports: Seq<u16>, p: u16)
    requires
        ports.no_duplicates(),
    ensures
        add_port(ports, p).no_duplicates(),
        add_port(ports, p).to_set() == ports.to_set().insert(p),
{
    if ports.contains(p) {
        assert(ports.to_set().insert(p) =~= ports.to_set());
    } else {
        let u = ports.push(p);
        assert forall|i: int, j: int| 0 <= i < u.len() && 0 <= j < u.len() && i != j implies u[i]
            != u[j] by {
            if i == ports.len() {
                assert(u[j] == ports[j]);
            } else if j == ports.len() {
                assert(u[i] == ports[i]);
            }
        }
        assert(u =~= ports + seq![p]);
        Seq::lemma_to_set_insert_commutes(ports, p);
    }
}

/// Every port list of the port-scan tracker is free of repeats.
pub open spec fn tracker_ports_distinct(s: Seq<(u32, Vec<u16>)>) -> bool {
    forall|i: int| 0 <= i < s.len() ==> (#[trigger] s[i]).1@.no_duplicates()
}

/// Every source's list of accessed ports is free of repeats.
pub open spec fn history_ports_distinct(s: Seq<(u32, ConnectionInfo)>) -> bool {
    forall|i: int| 0 <= i < s.len() ==> (#[trigger] s[i]).1.ports_accessed@.no_duplicates()
}

/// In a tracker whose lists are free of repeats, each source's list is.
pub proof fn lemma_ports_of_distinct(s: Seq<(u32, Vec<u16>)>, ip: u32)
    requires
        tracker_ports_distinct(s),
    ensures
        ports_of(s, ip).no_duplicates(),
{
    if has_key(s, ip) {
        let i = index_of(s, ip);
        assert(s[i].1@.no_duplicates());
    } else {
        assert(Seq::<u16>::empty().no_duplicates());
    }
}

/// Adds `p` to `ports` when it is not there yet.
fn push_new_port(ports: &mut Vec<u16>, p: u16)
    ensures
        final(ports)@ == add_port(old(ports)@, p),
        old(ports)@.no_duplicates() ==> final(ports)@.no_duplicates(),
{
    proof {
        if old(ports)@.no_duplicates() {
            lemma_add_port_distinct(old(ports)@, p);
        }
    }
    let mut i: usize = 0;
    while i < ports.len()
        invariant
            i <= ports@.len(),
            forall|j: int| 0 <= j < i ==> ports@[j] != p,
        decreases ports@.len() - i,
    {
        if ports[i] == p {
            assert(ports@.contains(p));
            return;
        }
        i = i + 1;
    }
    ports.push(p);
}

impl NetworkStats {
    /// One entry per address in each table, and no port listed twice for
    /// one address.
    pub open spec fn wf(&self) -> bool {
        &&& keys_unique(self.known_ips@)
        &&& keys_unique(self.port_scan_attempts@)
        &&& tracker_ports_distinct(self.port_scan_attempts@)
        &&& history_ports_distinct(self.known_ips@)
    }

    /// Empty state: no traffic, no history.
    pub fn new() -> (r: Self)
        ensures
            r.wf(),
            r.bandwidth_usage == 0,
            r.connection_count == 0,
            r.packet_count == 0,
            r.last_check == 0,
            r.known_ips@.len() == 0,
            r.port_scan_attempts@.len() == 0,
    {
        NetworkStats {
            bandwidth_usage: 0,
            connection_count: 0,
            packet_count: 0,
            last_check: 0,
            known_ips: Vec::new(),
            port_scan_attempts: Vec::new(),
        }
    }

    /// Records that `ip` probed `port`; returns how many distinct ports `ip`
    /// has probed. The count is never reset.
    pub fn track_port(&mut self, ip: u32, port: u16) -> (n: usize)
        requires
            old(self).wf(),
        ensures
            final(self).wf(),
            ports_of(final(self).port_scan_attempts@, ip) == add_port(
                ports_of(old(self).port_scan_attempts@, ip),
                port,
            ),
            forall|k: u32|
                k != ip ==> ports_of(final(self).port_scan_attempts@, k) == ports_of(
                    old(self).port_scan_attempts@,
                    k,
                ),
            n == ports_of(final(self).port_scan_attempts@, ip).len(),
            final(self).known_ips == old(self).known_ips,
            final(self).bandwidth_usage == old(self).bandwidth_usage,
            final(self).connection_count == old(self).connection_count,
            final(self).packet_count == old(self).packet_count,
            final(self).last_check == old(self).last_check,
    {
        let ghost s0 = self.port_scan_attempts@;
        match find_index(&self.port_scan_attempts, ip) {
            Some(i) => {
                let (k, mut ports) = self.port_scan_attempts.remove(i);
                push_new_port(&mut ports, port);
                let n = ports.len();
                self.port_scan_attempts.insert(i, (k, ports));
                proof {
                    let v = self.port_scan_attempts@[i as int].1;
                    assert(self.port_scan_attempts@ =~= s0.update(i as int, (s0[i as int].0, v)));
                    lemma_update_entry(s0, i as int, v);
                }
                n
            },
            None => {
                let mut ports: Vec<u16> = Vec::new();
                ports.push(port);
                assert(ports@ =~= add_port(Seq::<u16>::empty(), port));
                self.port_scan_attempts.push((ip, ports));
                proof {
                    lemma_push_entry(s0, ip, ports);
                }
                1
            },
        }
    }

    /// Bookkeeping for one decoded packet: the source's history gains the
    /// payload bytes sent (and the TCP destination port), a known destination
    /// gains the bytes received, and the aggregate counters grow. A new source
    /// adds one to the connection count.
    pub fn record_traffic(&mut self, rec: &DecodedRecord, now: i64)
        requires
            old(self).wf(),
        ensures
            final(self).wf(),
            traffic_recorded(
                *old(self),
                *final(self),
                rec.source_ip,
                rec.destination_ip,
                rec.dest_port,
                rec.payload@.len() as int,
                now,
            ),
            final(self).port_scan_attempts == old(self).port_scan_attempts,
    {
        let len = rec.payload.len() as u64;
        let src = rec.source_ip;
        let dst = rec.destination_ip;
        let ghost s0 = self.known_ips@;
        match find_index(&self.known_ips, src) {
            Some(i) => {
                let (k, mut info) = self.known_ips.remove(i);
                info.last_seen = now;
                info.bytes_sent = info.bytes_sent.saturating_add(len);
                if let Some(p) = rec.dest_port {
                    push_new_port(&mut info.ports_accessed, p);
                }
                self.known_ips.insert(i, (k, info));
                proof {
                    let v = self.known_ips@[i as int].1;
                    assert(self.known_ips@ =~= s0.update(i as int, (s0[i as int].0, v)));
                    lemma_update_entry(s0, i as int, v);
                }
            },
            None => {
                let mut ports: Vec<u16> = Vec::new();
                if let Some(p) = rec.dest_port {
                    ports.push(p);
                    assert(ports@ =~= add_port(Seq::<u16>::empty(), p));
                }
                let info = ConnectionInfo {
                    first_seen: now,
                    last_seen: now,
                    bytes_sent: len,
                    bytes_received: 0,
                    ports_accessed: ports,
                };
                self.known_ips.push((src, info));
                proof {
                    lemma_push_entry(s0, src, info);
                }
                self.connection_count = self.connection_count.saturating_add(1);
            },
        }
        if dst != src {
            let ghost s1 = self.known_ips@;
            if let Some(j) = find_index(&self.known_ips, dst) {
                let (k, mut info) = self.known_ips.remove(j);
                info.last_seen = now;
                info.bytes_received = info.bytes_received.saturating_add(len);
                self.known_ips.insert(j, (k, info));
                proof {
                    let v = self.known_ips@[j as int].1;
                    assert(self.known_ips@ =~= s1.update(j as int, (s1[j as int].0, v)));
                    lemma_update_entry(s1, j as int, v);
                }
            }
        }
        self.update_bandwidth_stats(len);
    }

    /// Counts one packet of `bytes` payload bytes into the traffic accumulator.
    pub fn update_bandwidth_stats(&mut self, bytes: u64)
        ensures
            final(self).bandwidth_usage == sat_add(old(self).bandwidth_usage, bytes as int),
            final(self).packet_count == sat_add(old(self).packet_count, 1),
            final(self).connection_count == old(self).connection_count,
            final(self).last_check == old(self).last_check,
            final(self).known_ips == old(self).known_ips,
            final(self).port_scan_attempts == old(self).port_scan_attempts,
    {
        self.bandwidth_usage = self.bandwidth_usage.saturating_add(bytes);
        self.packet_count = self.packet_count.saturating_add(1);
    }
}

} // verus!
