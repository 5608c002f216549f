use rfc2544::payload::{
    calculate_overhead, copy_streams, drive, save_tg, test_label, Encapsulation, Stream,
    TestKind, TrafficGenData,
};

fn stream(encapsulation: Encapsulation, number_of_lse: Option<u8>, vxlan: bool) -> Stream {
    Stream {
        stream_id: 1,
        frame_size: 64,
        encapsulation,
        number_of_lse,
        traffic_rate: 10_000_000_000,
        vxlan,
    }
}

#[test]
fn overhead_by_encapsulation() {
    assert_eq!(calculate_overhead(&stream(Encapsulation::Plain, None, false)), 0);
    assert_eq!(calculate_overhead(&stream(Encapsulation::Vlan, None, false)), 4);
    assert_eq!(calculate_overhead(&stream(Encapsulation::QinQ, None, false)), 8);
    assert_eq!(calculate_overhead(&stream(Encapsulation::Mpls, Some(3), false)), 12);
    assert_eq!(calculate_overhead(&stream(Encapsulation::Mpls, Some(0), false)), 0);
    assert_eq!(calculate_overhead(&stream(Encapsulation::Mpls, Some(255), false)), 1020);
}

#[test]
fn overhead_inside_a_vxlan_tunnel() {
    assert_eq!(calculate_overhead(&stream(Encapsulation::Plain, None, true)), 50);
    assert_eq!(calculate_overhead(&stream(Encapsulation::Vlan, None, true)), 54);
    assert_eq!(calculate_overhead(&stream(Encapsulation::QinQ, Some(9), true)), 58);
    assert_eq!(calculate_overhead(&stream(Encapsulation::Mpls, Some(255), true)), 1070);
}

#[test]
fn labels_name_the_test_and_the_frame_size() {
    assert_eq!(test_label(TestKind::Throughput, 64), "Throughput - 64 Bytes");
    assert_eq!(test_label(TestKind::Latency, 512), "Latency - 512 Bytes");
    assert_eq!(test_label(TestKind::FrameLoss, 1518), "Frame Loss Rate - 1518 Bytes");
    assert_eq!(test_label(TestKind::Reset, 64), "Reset - 64 Bytes");
    assert_eq!(test_label(TestKind::Reset, 0), "Reset - 0 Bytes");
    assert_eq!(test_label(TestKind::Latency, 7), "Latency - 7 Bytes");
    assert_eq!(test_label(TestKind::Latency, 1000), "Latency - 1000 Bytes");
    assert_eq!(
        test_label(TestKind::Throughput, u32::MAX),
        "Throughput - 4294967295 Bytes"
    );
}

#[test]
fn drive_changes_the_first_stream_only() {
    let first = stream(Encapsulation::Mpls, Some(2), true);
    let mut second = stream(Encapsulation::Vlan, None, false);
    second.stream_id = 2;
    let streams = vec![first, second];
    let driven = drive(&streams, 1518, 42);
    assert_eq!(driven.len(), 2);
    assert_eq!(
        driven[0],
        Stream { frame_size: 1518, traffic_rate: 42, ..first }
    );
    assert_eq!(driven[1], second);
    assert_eq!(streams[0], first);
    assert_eq!(copy_streams(&streams), streams);
}

#[test]
fn save_tg_appends_under_the_name() {
    let mut log = Vec::new();
    let streams = vec![stream(Encapsulation::Plain, None, false)];
    save_tg(&mut log, streams.clone(), "first".to_string());
    save_tg(&mut log, Vec::new(), "second".to_string());
    assert_eq!(
        log,
        vec![
            TrafficGenData { streams, name: Some("first".to_string()) },
            TrafficGenData { streams: Vec::new(), name: Some("second".to_string()) },
        ]
    );
}
