use portcheck::args::CheckRequest;
use portcheck::probe::CheckOutcome;
use portcheck::report::{checking_line, outcome_line};
use portcheck::resolve::ResolvedAddress;

fn request_for(hostname: &str, port: u16, timeout_secs: u64) -> CheckRequest {
    CheckRequest::new(hostname.to_string(), port, timeout_secs).unwrap()
}

#[test]
fn checking_line_shows_host_port_address_and_timeout() {
    assert_eq!(
        checking_line(&request_for("localhost", 22, 1), "127.0.0.1"),
        "Checking localhost:22 (127.0.0.1) (timeout: 1s)"
    );
    assert_eq!(
        checking_line(&request_for("google.com", 443, 10), "2607:f8b0:4004:c1b::65"),
        "Checking google.com:443 (2607:f8b0:4004:c1b::65) (timeout: 10s)"
    );
}

#[test]
fn checking_line_at_the_limits() {
    assert_eq!(
        checking_line(&request_for("h", 65535, u64::MAX), "::"),
        "Checking h:65535 (::) (timeout: 18446744073709551615s)"
    );
    assert_eq!(checking_line(&request_for("", 1, 1), ""), "Checking :1 () (timeout: 1s)");
}

#[test]
fn success_line_names_the_address_that_accepted() {
    let outcome = CheckOutcome::Succeeded {
        address: ResolvedAddress { ip: "127.0.0.1".to_string(), port: 22 },
    };
    assert_eq!(
        outcome_line(&request_for("localhost", 22, 1), "::1", &outcome),
        "\u{2713} Connection to localhost:22 (127.0.0.1) succeeded - port is open"
    );
}

#[test]
fn failure_line_names_the_primary_address_and_reason() {
    let outcome = CheckOutcome::Failed {
        reason: "port closed or unreachable (connection timed out)".to_string(),
    };
    assert_eq!(
        outcome_line(&request_for("192.0.2.1", 9999, 1), "192.0.2.1", &outcome),
        "\u{2717} Connection to 192.0.2.1:9999 (192.0.2.1) failed - \
         port closed or unreachable (connection timed out)"
    );
}
