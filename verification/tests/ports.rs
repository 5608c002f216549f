use rfc2544::ports::{max_speed, PortSpeed, GBIT};

#[test]
fn max_speed_is_the_fastest_port() {
    let ports = vec![PortSpeed::Gbit10, PortSpeed::Gbit100, PortSpeed::Gbit40];
    assert_eq!(max_speed(&ports), 100 * GBIT);
    assert_eq!(max_speed(&vec![PortSpeed::Gbit20, PortSpeed::Gbit1]), 20 * GBIT);
    assert_eq!(max_speed(&vec![PortSpeed::Gbit50]), 50 * GBIT);
}

#[test]
fn max_speed_without_ports_is_one_gigabit() {
    assert_eq!(max_speed(&vec![]), GBIT);
}

#[test]
fn port_speed_in_gigabits() {
    assert_eq!(PortSpeed::Gbit1.gbps(), 1);
    assert_eq!(PortSpeed::Gbit10.gbps(), 10);
    assert_eq!(PortSpeed::Gbit20.gbps(), 20);
    assert_eq!(PortSpeed::Gbit40.gbps(), 40);
    assert_eq!(PortSpeed::Gbit50.gbps(), 50);
    assert_eq!(PortSpeed::Gbit100.gbps(), 100);
}

#[test]
fn port_speed_from_gigabits() {
    for g in [1u32, 10, 20, 40, 50, 100] {
        assert_eq!(PortSpeed::from_gbps(g).unwrap().gbps(), g as u64);
    }
    for g in [0u32, 2, 25, 99, 200, 400, u32::MAX] {
        assert_eq!(PortSpeed::from_gbps(g), None);
    }
}
