use rfc2544::config::{assign_ports, Config, Mac, PortAssignment, PortMapping, TgPort};

fn config(ports: &[(u32, &str)]) -> Config {
    Config {
        tg_ports: ports
            .iter()
            .map(|(port, mac)| TgPort { port: *port, mac: mac.to_string() })
            .collect(),
    }
}

#[test]
fn config_with_good_ports_is_valid() {
    assert!(config(&[]).validate());
    assert!(config(&[(1, "81:E7:9D:E3:62:C4"), (32, "81-e7-9d-e3-62-c4")]).validate());
    assert!(config(&[(0, "81e7.9de3.62c4")]).validate());
    let ten: Vec<(u32, &str)> = (1..=10).map(|p| (p, "00:00:00:00:00:01")).collect();
    assert!(config(&ten).validate());
}

#[test]
fn config_with_too_many_ports_is_not_valid() {
    let eleven: Vec<(u32, &str)> = (1..=11).map(|p| (p, "00:00:00:00:00:01")).collect();
    assert!(!config(&eleven).validate());
}

#[test]
fn config_with_a_port_above_32_is_not_valid() {
    assert!(!config(&[(33, "00:00:00:00:00:01")]).validate());
    assert!(!config(&[(1, "00:00:00:00:00:01"), (u32::MAX, "00:00:00:00:00:01")]).validate());
}

#[test]
fn config_with_a_bad_address_is_not_valid() {
    assert!(!config(&[(1, "")]).validate());
    assert!(!config(&[(1, "00:00:00:00:00")]).validate());
    assert!(!config(&[(1, "00:00:00:00:00:0g")]).validate());
    assert!(!config(&[(1, "00:00:00:00:00:01\n")]).validate());
    assert!(!config(&[(1, "00:00-00:00:00:01")]).validate());
    assert!(!config(&[(2, "00:00:00:00:00:01"), (1, "port one")]).validate());
}

#[test]
fn addresses_are_parsed() {
    let c = config(&[
        (1, "81:E7:9D:E3:62:C4"),
        (2, "0a-0b-0c-0d-0e-0f"),
        (3, "0102.0304.0506"),
        (4, "01:02:03:04:05:06:07:08"),
    ]);
    assert_eq!(
        c.addresses(),
        Some(vec![
            Mac::V6([0x81, 0xE7, 0x9D, 0xE3, 0x62, 0xC4]),
            Mac::V6([10, 11, 12, 13, 14, 15]),
            Mac::V6([1, 2, 3, 4, 5, 6]),
            Mac::V8([1, 2, 3, 4, 5, 6, 7, 8]),
        ])
    );
    assert_eq!(config(&[]).addresses(), Some(vec![]));
    assert_eq!(config(&[(1, "00:00:00:00:00:01"), (2, "x")]).addresses(), None);
}

#[test]
fn contains_finds_the_configured_ports() {
    let c = config(&[(5, "a"), (7, "b"), (5, "c")]);
    assert!(c.contains(5));
    assert!(c.contains(7));
    assert!(!c.contains(6));
    assert!(!config(&[]).contains(0));
    assert_eq!(c.port_numbers(), vec![5, 7, 5]);
}

#[test]
fn recirculation_ports_are_the_other_front_panel_ports() {
    let all: Vec<u32> = (1..=32).collect();
    assert_eq!(config(&[]).recirculation_ports(), all);
    let c = config(&[(1, "a"), (3, "b"), (32, "c"), (40, "d"), (0, "e"), (3, "f")]);
    let expected: Vec<u32> = (1..=32).filter(|p| ![1, 3, 32].contains(p)).collect();
    assert_eq!(c.recirculation_ports(), expected);
    let every: Vec<(u32, &str)> = (1..=32).map(|p| (p, "a")).collect();
    assert_eq!(config(&every).recirculation_ports(), Vec::<u32>::new());
}

#[test]
fn ports_are_paired_with_two_recirculation_ports_each() {
    let macs = vec![Mac::V6([1; 6]), Mac::V6([2; 6]), Mac::V8([3; 8])];
    let plan = assign_ports(&vec![1, 2, 9], &macs, &vec![11, 12, 13, 14, 15, 16, 17]).unwrap();
    assert_eq!(
        plan,
        vec![
            PortAssignment {
                port: 1,
                mapping: PortMapping { tx_recirculation: 11, rx_recirculation: 12, mac: macs[0] }
            },
            PortAssignment {
                port: 2,
                mapping: PortMapping { tx_recirculation: 13, rx_recirculation: 14, mac: macs[1] }
            },
            PortAssignment {
                port: 9,
                mapping: PortMapping { tx_recirculation: 15, rx_recirculation: 16, mac: macs[2] }
            },
        ]
    );
    assert_eq!(assign_ports(&vec![], &vec![], &vec![]), Some(vec![]));
}

#[test]
fn ports_without_enough_recirculation_ports_are_not_paired() {
    let macs = vec![Mac::V6([1; 6]), Mac::V6([2; 6])];
    assert_eq!(assign_ports(&vec![1, 2], &macs, &vec![11, 12, 13]), None);
    assert_eq!(assign_ports(&vec![1, 2], &macs, &vec![]), None);
    assert_eq!(assign_ports(&vec![1], &macs, &vec![11, 12, 13, 14]), None);
    assert_eq!(assign_ports(&vec![1, 2, 3], &macs, &vec![11, 12, 13, 14, 15, 16]), None);
}

#[test]
fn a_default_sized_config_always_finds_its_recirculation_ports() {
    let ten: Vec<(u32, &str)> = (1..=10).map(|p| (p, "00:00:00:00:00:01")).collect();
    let c = config(&ten);
    assert!(c.validate());
    let plan = assign_ports(
        &c.port_numbers(),
        &c.addresses().unwrap(),
        &c.recirculation_ports(),
    )
    .unwrap();
    assert_eq!(plan.len(), 10);
    assert_eq!(plan[0].mapping.tx_recirculation, 11);
    assert_eq!(plan[0].mapping.rx_recirculation, 12);
    assert_eq!(plan[9].mapping.tx_recirculation, 29);
    assert_eq!(plan[9].mapping.rx_recirculation, 30);
}

#[test]
fn plan_of_a_valid_config() {
    let c = config(&[(3, "00:00:00:00:00:03"), (1, "00:00:00:00:00:01")]);
    assert_eq!(
        c.plan(),
        Some(vec![
            PortAssignment {
                port: 3,
                mapping: PortMapping {
                    tx_recirculation: 2,
                    rx_recirculation: 4,
                    mac: Mac::V6([0, 0, 0, 0, 0, 3])
                }
            },
            PortAssignment {
                port: 1,
                mapping: PortMapping {
                    tx_recirculation: 5,
                    rx_recirculation: 6,
                    mac: Mac::V6([0, 0, 0, 0, 0, 1])
                }
            },
        ])
    );
    assert_eq!(config(&[]).plan(), Some(vec![]));
    let ten: Vec<(u32, &str)> = (23..=32).map(|p| (p, "00:00:00:00:00:01")).collect();
    let plan = config(&ten).plan().unwrap();
    assert_eq!(plan.len(), 10);
    assert_eq!(plan[9].mapping.tx_recirculation, 19);
    assert_eq!(plan[9].mapping.rx_recirculation, 20);
}

#[test]
fn plan_of_an_invalid_config() {
    assert_eq!(config(&[(1, "no address")]).plan(), None);
    assert_eq!(config(&[(33, "00:00:00:00:00:01")]).plan(), None);
    let eleven: Vec<(u32, &str)> = (1..=11).map(|p| (p, "00:00:00:00:00:01")).collect();
    assert_eq!(config(&eleven).plan(), None);
}
