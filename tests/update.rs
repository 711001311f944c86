use ddns_update::config::{log_level, target_names, Args, LogLevel};
use ddns_update::credential::{credential_from_decoded, load_credential, ConfigError};
use ddns_update::plan::{plan_run, IpSource};
use ddns_update::record::{
    dns_endpoint, fqdn, kind_of, record_for, AddressRecord, IpAddress, RecordKind, RECORD_TTL,
};
use ddns_update::session::{Action, Session};

fn args(names: Vec<&str>, ip: Option<&str>) -> Args {
    Args {
        server: "203.0.113.1".to_string(),
        origin: "example.com.".to_string(),
        key: "mykey".to_string(),
        names: names.into_iter().map(|n| n.to_string()).collect(),
        ip: ip.map(|i| i.to_string()),
        verbose: 0,
    }
}

const SECRET_32: &str = "AAECAwQFBgcICQoLDA0ODxAREhMUFRYXGBkaGxwdHh8=";

#[test]
fn ipv4_gives_a_record() {
    let ip = IpAddress::V4(0xC633_6407);
    assert_eq!(record_for(ip), AddressRecord::A { content: 0xC633_6407 });
    assert_eq!(kind_of(ip), RecordKind::A);
}

#[test]
fn ipv6_gives_aaaa_record() {
    let ip = IpAddress::V6(0x2001_0db8_0000_0000_0000_0000_0000_0001);
    assert_eq!(
        record_for(ip),
        AddressRecord::Aaaa { content: 0x2001_0db8_0000_0000_0000_0000_0000_0001 }
    );
    assert_eq!(kind_of(ip), RecordKind::Aaaa);
}

#[test]
fn fqdn_joins_with_one_dot() {
    assert_eq!(fqdn("myhost", "example.com."), "myhost.example.com.");
    assert_eq!(fqdn("www", "example.org"), "www.example.org");
    assert_eq!(fqdn("", "zone"), ".zone");
}

#[test]
fn endpoint_uses_port_53() {
    assert_eq!(dns_endpoint("203.0.113.1"), "203.0.113.1:53");
}

#[test]
fn verbosity_levels() {
    assert_eq!(log_level(0), LogLevel::Warn);
    assert_eq!(log_level(1), LogLevel::Info);
    assert_eq!(log_level(2), LogLevel::Debug);
    assert_eq!(log_level(3), LogLevel::Trace);
    assert_eq!(log_level(255), LogLevel::Trace);
}

#[test]
fn no_names_uses_hostname() {
    let r = target_names(vec![], Some("myhost".to_string())).unwrap();
    assert_eq!(r, vec!["myhost".to_string()]);
}

#[test]
fn explicit_names_kept_in_order() {
    let r = target_names(vec!["b".to_string(), "a".to_string()], Some("myhost".to_string()));
    assert_eq!(r.unwrap(), vec!["b".to_string(), "a".to_string()]);
}

#[test]
fn no_names_and_no_hostname_fails() {
    assert_eq!(target_names(vec![], None).err(), Some(ConfigError::MissingHostname));
}

#[test]
fn secret_is_decoded() {
    let c = load_credential("k".to_string(), Some("aGVsbG8=".to_string())).ok().unwrap();
    assert_eq!(c.key_name, "k");
    assert_eq!(c.secret, b"hello".to_vec());
}

#[test]
fn missing_secret_fails() {
    assert_eq!(load_credential("k".to_string(), None).err(), Some(ConfigError::MissingSecret));
}

#[test]
fn invalid_secret_fails() {
    let r = load_credential("k".to_string(), Some("not base64!".to_string()));
    assert_eq!(r.err(), Some(ConfigError::InvalidSecret));
    assert_eq!(
        credential_from_decoded("k".to_string(), None).err(),
        Some(ConfigError::InvalidSecret)
    );
}

#[test]
fn plan_stops_without_secret() {
    let r = plan_run(args(vec![], None), None, Some("myhost".to_string()));
    assert_eq!(r.err(), Some(ConfigError::MissingSecret));
}

#[test]
fn plan_stops_on_invalid_secret() {
    let r = plan_run(args(vec![], None), Some("%%%".to_string()), Some("myhost".to_string()));
    assert_eq!(r.err(), Some(ConfigError::InvalidSecret));
}

#[test]
fn plan_discovers_when_no_ip() {
    let p = plan_run(args(vec!["a"], None), Some(SECRET_32.to_string()), None).ok().unwrap();
    match p.ip_source {
        IpSource::Discover { endpoint } => assert_eq!(endpoint, "203.0.113.1:53"),
        IpSource::Literal(_) => panic!("expected discovery"),
    }
    assert_eq!(p.names, vec!["a".to_string()]);
}

#[test]
fn end_to_end_scenario() {
    let p = plan_run(
        args(vec![], Some("198.51.100.7")),
        Some(SECRET_32.to_string()),
        Some("myhost".to_string()),
    )
    .ok()
    .unwrap();
    assert_eq!(p.credential.key_name, "mykey");
    assert_eq!(p.credential.secret, (0u8..32).collect::<Vec<u8>>());
    match &p.ip_source {
        IpSource::Literal(l) => assert_eq!(l, "198.51.100.7"),
        IpSource::Discover { .. } => panic!("expected a literal"),
    }
    let ip = IpAddress::V4(u32::from_be_bytes([198, 51, 100, 7]));
    let mut s = Session::new(p.names, p.origin, ip);
    match s.next_action() {
        Action::Delete(d) => {
            assert_eq!(d.fqdn, "myhost.example.com.");
            assert_eq!(d.zone, "example.com.");
            assert_eq!(d.kind, RecordKind::A);
        }
        _ => panic!("expected a delete"),
    }
    assert_eq!(s.record_result(true), None);
    match s.next_action() {
        Action::Update(u) => {
            assert_eq!(u.fqdn, "myhost.example.com.");
            assert_eq!(u.zone, "example.com.");
            assert_eq!(u.record, AddressRecord::A { content: 0xC633_6407 });
            assert_eq!(u.ttl, 300);
        }
        _ => panic!("expected an update"),
    }
    assert_eq!(s.record_result(true), Some(true));
    assert!(matches!(s.next_action(), Action::Finish));
    assert!(s.is_finished());
}

#[test]
fn one_failure_among_three_names() {
    let names = vec!["a".to_string(), "b".to_string(), "c".to_string()];
    let mut s = Session::new(names, "zone.".to_string(), IpAddress::V6(1));
    let mut deletes: Vec<String> = Vec::new();
    let mut outcomes: Vec<Option<bool>> = Vec::new();
    loop {
        match s.next_action() {
            Action::Delete(d) => {
                let ok = d.fqdn != "b.zone.";
                deletes.push(d.fqdn);
                outcomes.push(s.record_result(ok));
            }
            Action::Update(u) => {
                assert_eq!(u.ttl, RECORD_TTL);
                assert_eq!(u.kind, RecordKind::Aaaa);
                outcomes.push(s.record_result(true));
            }
            Action::Finish => break,
        }
    }
    assert_eq!(deletes, vec!["a.zone.", "b.zone.", "c.zone."]);
    let ends: Vec<bool> = outcomes.into_iter().flatten().collect();
    assert_eq!(ends, vec![true, false, true]);
    assert_eq!(s.outcomes, vec![true, false, true]);
}

#[test]
fn failed_insert_ends_the_name() {
    let mut s = Session::new(vec!["a".to_string()], "z".to_string(), IpAddress::V4(1));
    assert_eq!(s.record_result(true), None);
    assert_eq!(s.record_result(false), Some(false));
    assert!(s.is_finished());
    assert_eq!(s.record_result(true), None);
    assert_eq!(s.outcomes, vec![false]);
}

#[test]
fn ttl_is_three_hundred() {
    assert_eq!(RECORD_TTL, 300);
}
