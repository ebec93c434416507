use network_monitor::alert::{AlertSeverity, AlertType, Finding};
use network_monitor::decode::decode;
use network_monitor::monitor::NetworkMonitor;
use network_monitor::signatures::{contains_signature, load_malware_signatures, scan_payload};
use network_monitor::stats::NetworkStats;

const SRC: u32 = 0x0A00_0001; // 10.0.0.1
const DST: u32 = 0xC0A8_0001; // 192.168.0.1

fn ipv4_frame(src: u32, dst: u32, protocol: u8, transport: &[u8]) -> Vec<u8> {
    let mut f = vec![0u8; 12];
    f.extend_from_slice(&[0x08, 0x00]);
    let total = (20 + transport.len()) as u16;
    f.extend_from_slice(&[0x45, 0, (total >> 8) as u8, total as u8, 0, 0, 0, 0, 64, protocol, 0, 0]);
    f.extend_from_slice(&src.to_be_bytes());
    f.extend_from_slice(&dst.to_be_bytes());
    f.extend_from_slice(transport);
    f
}

fn tcp_segment(dst_port: u16, data: &[u8]) -> Vec<u8> {
    let mut t = vec![0x30, 0x39, (dst_port >> 8) as u8, dst_port as u8];
    t.extend_from_slice(&[0u8; 16]);
    t.extend_from_slice(data);
    t
}

fn monitor() -> NetworkMonitor {
    NetworkMonitor::new("device-1".to_string())
}

#[test]
fn decode_tcp_frame() {
    let f = ipv4_frame(SRC, DST, 6, &tcp_segment(443, b"abc"));
    let r = decode(&f).unwrap();
    assert_eq!(r.source_ip, SRC);
    assert_eq!(r.destination_ip, DST);
    assert_eq!(r.protocol, 6);
    assert_eq!(r.dest_port, Some(443));
    assert_eq!(r.payload.len(), 23);
}

#[test]
fn decode_udp_frame_has_no_port() {
    let f = ipv4_frame(SRC, DST, 17, &[0, 53, 0, 53, 0, 8, 0, 0]);
    let r = decode(&f).unwrap();
    assert_eq!(r.protocol, 17);
    assert_eq!(r.dest_port, None);
    assert_eq!(r.payload, vec![0, 53, 0, 53, 0, 8, 0, 0]);
}

#[test]
fn decode_rejects_other_ethertype() {
    let mut f = ipv4_frame(SRC, DST, 6, &tcp_segment(80, b""));
    f[12] = 0x86;
    f[13] = 0xDD;
    assert!(decode(&f).is_none());
}

#[test]
fn decode_rejects_bad_header_length() {
    let mut f = ipv4_frame(SRC, DST, 6, &tcp_segment(80, b""));
    f[14] = 0x44;
    assert!(decode(&f).is_none());
    f[14] = 0x4F;
    assert!(decode(&f).is_none());
}

#[test]
fn decode_payload_stops_at_total_length() {
    let mut f = ipv4_frame(SRC, DST, 17, &[1, 2, 3, 4]);
    f.extend_from_slice(&[9, 9, 9]);
    let r = decode(&f).unwrap();
    assert_eq!(r.payload, vec![1, 2, 3, 4]);
}

#[test]
fn truncated_frame_is_dropped_without_state_change() {
    let mut m = monitor();
    let frame = [0u8; 10];
    assert!(decode(&frame).is_none());
    assert!(m.analyze_packet_at(&frame, 5).is_none());
    assert_eq!(m.stats.packet_count, 0);
    assert_eq!(m.stats.bandwidth_usage, 0);
    assert!(m.stats.known_ips.is_empty());
    assert!(m.stats.port_scan_attempts.is_empty());
}

#[test]
fn blocked_source_gives_unauthorized_access() {
    let mut m = monitor().with_blocked_ips(vec![SRC]);
    let f = ipv4_frame(SRC, DST, 6, &tcp_segment(22, b"CMD:x"));
    let a = m.analyze_packet_at(&f, 1000).unwrap();
    assert_eq!(a.alert_type, AlertType::UnauthorizedAccess);
    assert_eq!(a.severity, AlertSeverity::High);
    assert_eq!(a.finding, Finding::BlockedSource);
    assert_eq!(a.source_ip, Some(SRC));
    assert_eq!(a.destination_ip, Some(DST));
    assert_eq!(a.port, None);
    assert_eq!(a.timestamp, 1000);
    assert_eq!(a.device_id, "device-1");
    assert!(m.stats.port_scan_attempts.is_empty());
    assert_eq!(m.stats.packet_count, 1);
}

#[test]
fn eleventh_distinct_port_raises_port_scan() {
    let mut m = monitor();
    for p in 1..=10u16 {
        let f = ipv4_frame(SRC, DST, 6, &tcp_segment(p, b""));
        assert!(m.analyze_packet_at(&f, 0).is_none());
    }
    let f = ipv4_frame(SRC, DST, 6, &tcp_segment(11, b""));
    let a = m.analyze_packet_at(&f, 0).unwrap();
    assert_eq!(a.alert_type, AlertType::Intrusion);
    assert_eq!(a.severity, AlertSeverity::Critical);
    assert_eq!(a.finding, Finding::PortScan);
    assert_eq!(a.port, Some(11));
    let f = ipv4_frame(SRC, DST, 6, &tcp_segment(12, b""));
    assert_eq!(m.analyze_packet_at(&f, 0).unwrap().port, Some(12));
}

#[test]
fn repeated_ports_do_not_count_as_a_scan() {
    let mut m = monitor();
    for i in 0..40u16 {
        let f = ipv4_frame(SRC, DST, 6, &tcp_segment(1 + i % 10, b""));
        assert!(m.analyze_packet_at(&f, 0).is_none());
    }
    assert_eq!(m.stats.port_scan_attempts[0].1.len(), 10);
}

#[test]
fn malware_signature_in_payload() {
    let mut m = monitor();
    let f = ipv4_frame(SRC, DST, 17, b"...CMD:shutdown...");
    let a = m.analyze_packet_at(&f, 0).unwrap();
    assert_eq!(a.alert_type, AlertType::Malware);
    assert_eq!(a.severity, AlertSeverity::Critical);
    assert_eq!(a.finding, Finding::MalwareSignature);
}

#[test]
fn reordered_signature_gives_no_alert() {
    let mut m = monitor().with_malware_signatures(vec![b"DMC:".to_vec()]);
    let f = ipv4_frame(SRC, DST, 17, b"...CMD:shutdown...");
    assert!(m.analyze_packet_at(&f, 0).is_none());
    assert!(!m.check_malware_signatures(b"...CMD:shutdown..."));
}

#[test]
fn payload_one_byte_short_of_signature() {
    let sig = b"CMD:".to_vec();
    assert!(!contains_signature(b"CMD", &sig));
    assert!(contains_signature(b"CMD:", &sig));
    assert!(!contains_signature(b"xCMD", &sig));
    assert!(contains_signature(b"xxCMD:", &sig));
    assert!(!scan_payload(b"", &load_malware_signatures()));
}

#[test]
fn default_signatures_are_the_eight_patterns() {
    let s = load_malware_signatures();
    assert_eq!(s.len(), 8);
    assert_eq!(s[0], vec![0x4D, 0x5A]);
    assert_eq!(s[2], b"http://".to_vec());
    assert_eq!(s[4], b".encrypt".to_vec());
    assert_eq!(s[6], b"CMD:".to_vec());
    assert_eq!(s[7], b"BOT:".to_vec());
}

#[test]
fn bookkeeping_happens_even_when_alerting() {
    let mut m = monitor();
    let f = ipv4_frame(SRC, DST, 6, &tcp_segment(80, b"BOT:go"));
    let a = m.analyze_packet_at(&f, 7).unwrap();
    assert_eq!(a.alert_type, AlertType::Malware);
    assert_eq!(m.stats.packet_count, 1);
    assert_eq!(m.stats.bandwidth_usage, 26);
    assert_eq!(m.stats.connection_count, 1);
    let (ip, info) = &m.stats.known_ips[0];
    assert_eq!(*ip, SRC);
    assert_eq!(info.first_seen, 7);
    assert_eq!(info.bytes_sent, 26);
    assert_eq!(info.ports_accessed, vec![80]);
}

#[test]
fn known_destination_counts_bytes_received() {
    let mut m = monitor();
    m.analyze_packet_at(&ipv4_frame(DST, SRC, 17, &[0; 8]), 1);
    m.analyze_packet_at(&ipv4_frame(SRC, DST, 17, &[0; 12]), 2);
    assert_eq!(m.stats.connection_count, 2);
    let (_, dst_info) = &m.stats.known_ips[0];
    assert_eq!(dst_info.bytes_sent, 8);
    assert_eq!(dst_info.bytes_received, 12);
    assert_eq!(dst_info.last_seen, 2);
}

#[test]
fn bandwidth_tick_resets_above_threshold() {
    let mut m = monitor();
    m.stats.bandwidth_usage = 150_000_000;
    let a = m.bandwidth_tick_at(60_000).unwrap();
    assert_eq!(a.alert_type, AlertType::Bandwidth);
    assert_eq!(a.severity, AlertSeverity::Medium);
    assert_eq!(a.finding, Finding::HighBandwidth { bytes: 150_000_000 });
    assert_eq!(m.stats.bandwidth_usage, 0);
    assert_eq!(m.stats.last_check, 60_000);
}

#[test]
fn bandwidth_tick_resets_below_threshold() {
    let mut m = monitor();
    m.stats.bandwidth_usage = 100_000_000;
    assert!(m.bandwidth_tick_at(1).is_none());
    assert_eq!(m.stats.bandwidth_usage, 0);
}

#[test]
fn traffic_spike_takes_priority() {
    let mut m = monitor();
    for p in 1..=25u16 {
        m.analyze_packet_at(&ipv4_frame(SRC, DST, 6, &tcp_segment(p, b"")), 0);
    }
    m.stats.packet_count = 10001;
    let a = m.detect_anomalies_at(0).unwrap();
    assert_eq!(a.alert_type, AlertType::Anomaly);
    assert_eq!(a.severity, AlertSeverity::High);
    assert_eq!(a.finding, Finding::TrafficSpike { packets: 10001 });
    assert_eq!(a.source_ip, None);
}

#[test]
fn unusual_port_access_is_reported() {
    let mut m = monitor();
    for p in 1..=21u16 {
        m.analyze_packet_at(&ipv4_frame(SRC, DST, 6, &tcp_segment(p, b"")), 0);
    }
    let a = m.detect_anomalies_at(0).unwrap();
    assert_eq!(a.finding, Finding::UnusualPortAccess);
    assert_eq!(a.severity, AlertSeverity::High);
    assert_eq!(a.source_ip, Some(SRC));
}

#[test]
fn twenty_ports_are_not_unusual() {
    let mut m = monitor();
    for p in 1..=20u16 {
        m.analyze_packet_at(&ipv4_frame(SRC, DST, 6, &tcp_segment(p, b"")), 0);
    }
    assert!(m.detect_anomalies_at(0).is_none());
}

#[test]
fn data_burst_only_within_a_minute() {
    let mut m = monitor();
    m.analyze_packet_at(&ipv4_frame(SRC, DST, 17, &[0; 8]), 1_000);
    m.stats.known_ips[0].1.bytes_sent = 1_000_001;
    let a = m.detect_anomalies_at(60_999).unwrap();
    assert_eq!(a.finding, Finding::DataBurst { bytes: 1_000_001 });
    assert_eq!(a.source_ip, Some(SRC));
    assert!(m.detect_anomalies_at(61_000).is_none());
}

#[test]
fn connection_count_anomaly_is_medium() {
    let mut m = monitor();
    m.stats.connection_count = 101;
    let a = m.detect_anomalies_at(0).unwrap();
    assert_eq!(a.finding, Finding::HighConnectionCount { count: 101 });
    assert_eq!(a.severity, AlertSeverity::Medium);
    m.stats.connection_count = 100;
    assert!(m.detect_anomalies_at(0).is_none());
}

#[test]
fn alerts_carry_the_given_time() {
    let mut m = monitor().with_blocked_ips(vec![SRC]);
    let a = m.analyze_packet_at(&ipv4_frame(SRC, DST, 17, &[]), 1_700_000_000_123).unwrap();
    assert_eq!(a.timestamp, 1_700_000_000_123);
    m.stats.packet_count = 20000;
    assert_eq!(m.detect_anomalies_at(42).unwrap().timestamp, 42);
    m.stats.bandwidth_usage = 200_000_000;
    assert_eq!(m.bandwidth_tick_at(77).unwrap().timestamp, 77);
    assert_eq!(m.stats.last_check, 77);
}

#[test]
fn track_port_counts_distinct_ports() {
    let mut s = NetworkStats::new();
    assert_eq!(s.track_port(SRC, 80), 1);
    assert_eq!(s.track_port(SRC, 80), 1);
    assert_eq!(s.track_port(SRC, 443), 2);
    assert_eq!(s.track_port(DST, 80), 1);
}
