use portcheck::resolve::{accept_lookup, ResolutionError, ResolvedAddress};

fn address(ip: &str, port: u16) -> ResolvedAddress {
    ResolvedAddress { ip: ip.to_string(), port }
}

#[test]
fn accept_lookup_keeps_addresses_in_order() {
    let addrs =
        vec![address("2001:db8::1", 443), address("192.0.2.7", 443), address("192.0.2.8", 443)];
    let accepted = accept_lookup("example.org", Ok(addrs));
    assert_eq!(
        accepted,
        Ok(vec![address("2001:db8::1", 443), address("192.0.2.7", 443), address("192.0.2.8", 443)])
    );
}

#[test]
fn accept_lookup_keeps_repeated_addresses() {
    let addrs = vec![address("192.0.2.7", 80), address("192.0.2.7", 80)];
    let accepted = accept_lookup("twice.example", Ok(addrs)).unwrap();
    assert_eq!(accepted.len(), 2);
    assert_eq!(accepted[0], accepted[1]);
}

#[test]
fn accept_lookup_reports_failed_lookup() {
    let accepted = accept_lookup(
        "nowhere.invalid",
        Err("failed to lookup address information: Name or service not known".to_string()),
    );
    assert_eq!(
        accepted,
        Err(ResolutionError::LookupFailed {
            hostname: "nowhere.invalid".to_string(),
            cause: "failed to lookup address information: Name or service not known".to_string(),
        })
    );
}

#[test]
fn accept_lookup_reports_empty_answer() {
    let accepted = accept_lookup("empty.example", Ok(vec![]));
    assert_eq!(
        accepted,
        Err(ResolutionError::NoAddresses { hostname: "empty.example".to_string() })
    );
}

#[test]
fn resolution_messages_name_hostname_and_cause() {
    let failed = ResolutionError::LookupFailed {
        hostname: "nowhere.invalid".to_string(),
        cause: "Name or service not known".to_string(),
    };
    assert_eq!(
        failed.message(),
        "\u{2717} Failed to resolve hostname 'nowhere.invalid': Name or service not known"
    );
    let empty = ResolutionError::NoAddresses { hostname: "empty.example".to_string() };
    assert_eq!(empty.message(), "\u{2717} No addresses found for hostname 'empty.example'");
}

#[test]
fn resolved_address_clone_is_equal() {
    let a = address("127.0.0.1", 22);
    let b = a.clone();
    assert_eq!(a, b);
    assert_eq!(b.ip, "127.0.0.1");
    assert_eq!(b.port, 22);
}
