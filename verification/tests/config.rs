use krustacean::action::Transport;
use krustacean::addr::Ipv4;
use krustacean::config::{
    read_rules, ConfigError, Configs, FileConfig, FileEntry, ForwarderMap, Forwarders,
    RuntimeConfig, Upstream,
};

fn entry(ip: [u8; 4], upstream_port: u16, orig_port: u16) -> FileEntry {
    FileEntry { upstream_ip: Ipv4::from_octets(ip), upstream_port, orig_port }
}

fn rule(ip: &str, upstream_port: u16, orig_port: u16) -> Forwarders {
    Forwarders { upstream_ip: ip.to_string(), upstream_port, orig_port }
}

#[test]
fn parse_takes_canonical_text() {
    assert_eq!(Ipv4::parse("127.0.0.3"), Some(Ipv4::new(127, 0, 0, 3)));
    assert_eq!(Ipv4::parse("0.0.0.0"), Some(Ipv4::new(0, 0, 0, 0)));
    assert_eq!(Ipv4::parse("255.255.255.255"), Some(Ipv4::new(255, 255, 255, 255)));
    assert_eq!(Ipv4::parse("10.0.0.1"), Some(Ipv4::new(10, 0, 0, 1)));
    assert_eq!(Ipv4::parse("1.20.199.200"), Some(Ipv4::new(1, 20, 199, 200)));
}

#[test]
fn parse_refuses_everything_else() {
    for text in [
        "",
        ".",
        "...",
        "1",
        "1.2.3",
        "1.2.3.",
        ".1.2.3",
        "1.2.3.4.",
        "1.2.3.4.5",
        "1..2.3",
        "256.0.0.1",
        "1.2.3.256",
        "999.1.1.1",
        "01.2.3.4",
        "1.02.3.4",
        "1.2.3.04",
        "00.0.0.0",
        "1.2.3.4 ",
        " 1.2.3.4",
        "1.2.3.a",
        "a.b.c.d",
        "1,2,3,4",
        "1.2.3.-4",
        "+1.2.3.4",
        "1234.1.1.1",
        "1.2.3.4444",
        "localhost",
        "::1",
        "127.0.0.1:53",
        "１.2.3.4",
        "1.2.3.4\n",
        "255.255.255.2555",
        "1111111111111111",
    ] {
        assert_eq!(Ipv4::parse(text), None, "{:?}", text);
    }
}

#[test]
fn parse_agrees_with_to_text_on_a_sweep() {
    for a in [0u8, 1, 9, 10, 99, 100, 199, 200, 249, 250, 255] {
        for d in 0u8..=255 {
            let ip = Ipv4::new(a, d, 255 - d, d / 2);
            assert_eq!(Ipv4::parse(&ip.to_text()), Some(ip));
        }
    }
}

#[test]
fn parse_takes_zero_only_as_a_single_digit() {
    assert_eq!(Ipv4::parse("0.1.2.3").map(|ip| ip.octets()), Some([0, 1, 2, 3]));
    assert_eq!(Ipv4::parse("1.0.0.0").map(|ip| ip.octets()), Some([1, 0, 0, 0]));
    assert_eq!(Ipv4::parse("099.1.1.1"), None);
    assert_eq!(Ipv4::parse("1.1.1.000"), None);
}

#[test]
fn empty_table() {
    let map = ForwarderMap::from_entries(&vec![]);
    assert_eq!(map.len(), 0);
    assert_eq!(map.get(0), None);
    assert_eq!(map.get(53), None);
    assert_eq!(map.get(65535), None);
}

#[test]
fn table_lookup() {
    let map = ForwarderMap::from_entries(&vec![
        entry([127, 0, 0, 3], 53, 53),
        entry([10, 0, 0, 1], 8080, 80),
    ]);
    assert_eq!(map.len(), 2);
    assert_eq!(map.get(53), Some(Upstream { ip: Ipv4::new(127, 0, 0, 3), port: 53 }));
    assert_eq!(map.get(80), Some(Upstream { ip: Ipv4::new(10, 0, 0, 1), port: 8080 }));
    assert_eq!(map.get(8080), None);
    assert_eq!(map.get(0), None);
}

#[test]
fn table_serves_port_zero_and_the_last_port() {
    let map = ForwarderMap::from_entries(&vec![entry([1, 1, 1, 1], 1, 0), entry([2, 2, 2, 2], 2, 65535)]);
    assert_eq!(map.get(0), Some(Upstream { ip: Ipv4::new(1, 1, 1, 1), port: 1 }));
    assert_eq!(map.get(65535), Some(Upstream { ip: Ipv4::new(2, 2, 2, 2), port: 2 }));
}

#[test]
fn duplicate_rules_collapse() {
    let once = ForwarderMap::from_entries(&vec![entry([127, 0, 0, 3], 53, 53)]);
    let thrice = ForwarderMap::from_entries(&vec![
        entry([127, 0, 0, 3], 53, 53),
        entry([127, 0, 0, 3], 53, 53),
        entry([127, 0, 0, 3], 53, 53),
    ]);
    assert_eq!(thrice.len(), 1);
    assert!(once.same_as(&thrice));
    assert!(thrice.same_as(&once));
}

#[test]
fn order_of_rules_is_irrelevant() {
    let forward = ForwarderMap::from_entries(&vec![
        entry([10, 0, 0, 1], 80, 80),
        entry([10, 0, 0, 2], 443, 443),
        entry([10, 0, 0, 3], 53, 53),
    ]);
    let backward = ForwarderMap::from_entries(&vec![
        entry([10, 0, 0, 3], 53, 53),
        entry([10, 0, 0, 2], 443, 443),
        entry([10, 0, 0, 1], 80, 80),
        entry([10, 0, 0, 3], 53, 53),
    ]);
    assert!(forward.same_as(&backward));
}

#[test]
fn later_rule_decides_a_contested_port() {
    let map = ForwarderMap::from_entries(&vec![
        entry([10, 0, 0, 1], 80, 80),
        entry([10, 0, 0, 2], 81, 80),
    ]);
    assert_eq!(map.len(), 1);
    assert_eq!(map.get(80), Some(Upstream { ip: Ipv4::new(10, 0, 0, 2), port: 81 }));
}

#[test]
fn tables_differ_by_port_or_upstream() {
    let base = ForwarderMap::from_entries(&vec![entry([10, 0, 0, 1], 80, 80)]);
    let other_ip = ForwarderMap::from_entries(&vec![entry([10, 0, 0, 2], 80, 80)]);
    let other_upstream_port = ForwarderMap::from_entries(&vec![entry([10, 0, 0, 1], 81, 80)]);
    let other_port = ForwarderMap::from_entries(&vec![entry([10, 0, 0, 1], 80, 81)]);
    let more = ForwarderMap::from_entries(&vec![
        entry([10, 0, 0, 1], 80, 80),
        entry([10, 0, 0, 1], 80, 65535),
    ]);
    let empty = ForwarderMap::from_entries(&vec![]);
    assert!(base.same_as(&base));
    assert!(!base.same_as(&other_ip));
    assert!(!base.same_as(&other_upstream_port));
    assert!(!base.same_as(&other_port));
    assert!(!base.same_as(&more));
    assert!(!more.same_as(&base));
    assert!(!base.same_as(&empty));
    assert!(!empty.same_as(&base));
    assert!(empty.same_as(&ForwarderMap::from_entries(&vec![])));
}

#[test]
fn upstream_and_entry_accessors() {
    let e = entry([10, 0, 0, 1], 8080, 80);
    assert_eq!(e.upstream(), Upstream { ip: Ipv4::new(10, 0, 0, 1), port: 8080 });
    assert_eq!(e.upstream().addr().to_text(), "10.0.0.1:8080");
}

#[test]
fn snapshot_from_file() {
    let file = FileConfig {
        port: 10000,
        udp: vec![entry([127, 0, 0, 3], 53, 53)],
        tcp: vec![entry([10, 0, 0, 1], 80, 80)],
    };
    let config = RuntimeConfig::from_file(&file);
    assert_eq!(config.listen_port, 10000);
    assert_eq!(config.udp_map.get(53), Some(Upstream { ip: Ipv4::new(127, 0, 0, 3), port: 53 }));
    assert_eq!(config.udp_map.get(80), None);
    assert_eq!(config.tcp_map.get(80), Some(Upstream { ip: Ipv4::new(10, 0, 0, 1), port: 80 }));
    assert_eq!(config.tcp_map.get(53), None);
}

#[test]
fn snapshot_equality_is_structural() {
    let file = FileConfig {
        port: 10000,
        udp: vec![entry([127, 0, 0, 3], 53, 53)],
        tcp: vec![entry([10, 0, 0, 1], 80, 80)],
    };
    let base = RuntimeConfig::from_file(&file);
    assert!(base.same_as(&RuntimeConfig::from_file(&file)));

    let mut other = file.clone();
    other.port = 10001;
    assert!(!base.same_as(&RuntimeConfig::from_file(&other)));

    let mut other = file.clone();
    other.udp.push(entry([127, 0, 0, 4], 54, 54));
    assert!(!base.same_as(&RuntimeConfig::from_file(&other)));

    let mut other = file.clone();
    other.tcp.clear();
    assert!(!base.same_as(&RuntimeConfig::from_file(&other)));

    let swapped = FileConfig { port: 10000, udp: file.tcp.clone(), tcp: file.udp.clone() };
    assert!(!base.same_as(&RuntimeConfig::from_file(&swapped)));
}

#[test]
fn rule_entry_reads_the_address() {
    assert_eq!(rule("127.0.0.3", 53, 54).entry(), Some(entry([127, 0, 0, 3], 53, 54)));
    assert_eq!(rule("127.0.0.300", 53, 54).entry(), None);
    assert_eq!(rule("", 53, 54).entry(), None);
}

#[test]
fn read_rules_names_the_first_bad_rule() {
    assert_eq!(read_rules(&vec![]), Ok(vec![]));
    assert_eq!(
        read_rules(&vec![rule("1.2.3.4", 1, 2), rule("5.6.7.8", 3, 4)]),
        Ok(vec![entry([1, 2, 3, 4], 1, 2), entry([5, 6, 7, 8], 3, 4)])
    );
    assert_eq!(
        read_rules(&vec![rule("1.2.3.4", 1, 2), rule("nope", 3, 4), rule("also bad", 5, 6)]),
        Err(1)
    );
    assert_eq!(read_rules(&vec![rule("x", 1, 2)]), Err(0));
}

#[test]
fn configs_with_good_addresses_are_taken() {
    let configs = Configs {
        port: 10000,
        udp: vec![rule("127.0.0.3", 53, 53)],
        tcp: vec![rule("10.0.0.1", 80, 80), rule("10.0.0.2", 443, 443)],
    };
    assert_eq!(
        FileConfig::from_configs(&configs),
        Ok(FileConfig {
            port: 10000,
            udp: vec![entry([127, 0, 0, 3], 53, 53)],
            tcp: vec![entry([10, 0, 0, 1], 80, 80), entry([10, 0, 0, 2], 443, 443)],
        })
    );
}

#[test]
fn configs_with_a_bad_udp_address_are_refused() {
    let configs = Configs {
        port: 10000,
        udp: vec![rule("127.0.0.3", 53, 53), rule("127.0.0.256", 54, 54)],
        tcp: vec![rule("bad too", 80, 80)],
    };
    let error = FileConfig::from_configs(&configs).unwrap_err();
    assert_eq!(
        error,
        ConfigError::InvalidUpstreamIp {
            transport: Transport::Udp,
            index: 1,
            text: "127.0.0.256".to_string()
        }
    );
    assert_eq!(error.message(), "Invalid upstream IP address for UDP: 127.0.0.256");
}

#[test]
fn configs_with_a_bad_tcp_address_are_refused() {
    let configs = Configs {
        port: 10000,
        udp: vec![rule("127.0.0.3", 53, 53)],
        tcp: vec![rule("example.org", 80, 80)],
    };
    let error = FileConfig::from_configs(&configs).unwrap_err();
    assert_eq!(
        error,
        ConfigError::InvalidUpstreamIp {
            transport: Transport::Tcp,
            index: 0,
            text: "example.org".to_string()
        }
    );
    assert_eq!(error.message(), "Invalid upstream IP address for TCP: example.org");
}
