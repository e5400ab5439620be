use portcheck::args::{
    parse_args, parse_port, parse_timeout, program_name, same_text, usage_report, usage_text,
    CheckRequest, UsageError, DEFAULT_TIMEOUT_SECS, MAX_PORT,
};

fn arg_list(items: &[&str]) -> Vec<String> {
    items.iter().map(|s| s.to_string()).collect()
}

const USAGE_FOR_CHECK: &str = "Usage: check <hostname> <port> [--timeout <seconds>]\n\
\n\
Arguments:\n\
\x20 <hostname>  The hostname or IP address to check\n\
\x20 <port>      The TCP port number to test\n\
\n\
Options:\n\
\x20 --timeout <seconds>  Connection timeout in seconds (default: 5)\n\
\n\
Examples:\n\
\x20 check google.com 80\n\
\x20 check google.com 443 --timeout 10\n\
\x20 check localhost 22 --timeout 1\n\
\x20 check 192.168.1.1 3389 --timeout 15";

#[test]
fn constants_have_their_values() {
    assert_eq!(DEFAULT_TIMEOUT_SECS, 5);
    assert_eq!(MAX_PORT, 65535);
}

#[test]
fn parse_port_accepts_one_to_65535() {
    assert_eq!(parse_port("1"), Some(1));
    assert_eq!(parse_port("22"), Some(22));
    assert_eq!(parse_port("+443"), Some(443));
    assert_eq!(parse_port("0080"), Some(80));
    assert_eq!(parse_port("65535"), Some(65535));
}

#[test]
fn parse_port_refuses_zero_and_out_of_range() {
    assert_eq!(parse_port("0"), None);
    assert_eq!(parse_port("+0"), None);
    assert_eq!(parse_port("000"), None);
    assert_eq!(parse_port("65536"), None);
    assert_eq!(parse_port("70000"), None);
    assert_eq!(parse_port("4294967318"), None);
    assert_eq!(parse_port("18446744073709551638"), None);
}

#[test]
fn parse_port_refuses_non_numeric() {
    assert_eq!(parse_port(""), None);
    assert_eq!(parse_port("abc"), None);
    assert_eq!(parse_port("http"), None);
    assert_eq!(parse_port("-22"), None);
    assert_eq!(parse_port("22/tcp"), None);
    assert_eq!(parse_port(" 22"), None);
    assert_eq!(parse_port("2 2"), None);
}

#[test]
fn parse_timeout_accepts_positive_numbers() {
    assert_eq!(parse_timeout("1"), Some(1));
    assert_eq!(parse_timeout("5"), Some(5));
    assert_eq!(parse_timeout("+3"), Some(3));
    assert_eq!(parse_timeout("015"), Some(15));
    assert_eq!(parse_timeout("86400"), Some(86400));
    assert_eq!(parse_timeout("18446744073709551615"), Some(u64::MAX));
}

#[test]
fn parse_timeout_refuses_zero_negative_and_text() {
    assert_eq!(parse_timeout("0"), None);
    assert_eq!(parse_timeout("-1"), None);
    assert_eq!(parse_timeout("abc"), None);
    assert_eq!(parse_timeout(""), None);
    assert_eq!(parse_timeout("00"), None);
    assert_eq!(parse_timeout("1.5"), None);
    assert_eq!(parse_timeout("5s"), None);
    assert_eq!(parse_timeout("18446744073709551616"), None);
}

#[test]
fn same_text_compares_characters() {
    assert!(same_text("--timeout", "--timeout"));
    assert!(same_text("", ""));
    assert!(same_text("\u{2713} ok", "\u{2713} ok"));
    assert!(!same_text("--timeout", "--timeou"));
    assert!(!same_text("--timeout", "--timeoux"));
    assert!(!same_text("--timeout", "--Timeout"));
    assert!(!same_text("", "x"));
    assert!(!same_text("\u{2713}", "\u{2717}"));
}

#[test]
fn request_new_refuses_zero_port_and_zero_timeout() {
    assert!(CheckRequest::new("host".to_string(), 0, 5).is_none());
    assert!(CheckRequest::new("host".to_string(), 80, 0).is_none());
    assert!(CheckRequest::new("host".to_string(), 0, 0).is_none());
    let request = CheckRequest::new("host".to_string(), 80, 5).unwrap();
    assert_eq!(request.hostname(), "host");
    assert_eq!(request.port(), 80);
    assert_eq!(request.timeout_secs(), 5);
    let edge = CheckRequest::new(String::new(), 65535, u64::MAX).unwrap();
    assert_eq!(edge.hostname(), "");
    assert_eq!(edge.port(), 65535);
    assert_eq!(edge.timeout_secs(), u64::MAX);
}

#[test]
fn parse_args_hostname_and_port_use_default_timeout() {
    let request = parse_args(&arg_list(&["check", "example.org", "443"])).unwrap();
    assert_eq!(request.hostname(), "example.org");
    assert_eq!(request.port(), 443);
    assert_eq!(request.timeout_secs(), 5);
}

#[test]
fn parse_args_reads_the_timeout_flag() {
    let request = parse_args(&arg_list(&["check", "localhost", "22", "--timeout", "1"])).unwrap();
    assert_eq!(request.hostname(), "localhost");
    assert_eq!(request.port(), 22);
    assert_eq!(request.timeout_secs(), 1);
    let long = parse_args(&arg_list(&["check", "10.0.0.1", "3389", "--timeout", "15"])).unwrap();
    assert_eq!(long.hostname(), "10.0.0.1");
    assert_eq!(long.port(), 3389);
    assert_eq!(long.timeout_secs(), 15);
}

#[test]
fn parse_args_takes_the_hostname_as_it_is() {
    let request = parse_args(&arg_list(&["check", "", "80"])).unwrap();
    assert_eq!(request.hostname(), "");
    let odd = parse_args(&arg_list(&["check", "--timeout", "80"])).unwrap();
    assert_eq!(odd.hostname(), "--timeout");
    let utf = parse_args(&arg_list(&["check", "b\u{00fc}cher.example", "80"])).unwrap();
    assert_eq!(utf.hostname(), "b\u{00fc}cher.example");
}

#[test]
fn parse_args_refuses_wrong_argument_counts() {
    assert_eq!(parse_args(&arg_list(&[])).err(), Some(UsageError::WrongArgumentCount));
    assert_eq!(parse_args(&arg_list(&["check"])).err(), Some(UsageError::WrongArgumentCount));
    assert_eq!(
        parse_args(&arg_list(&["check", "localhost"])).err(),
        Some(UsageError::WrongArgumentCount)
    );
    assert_eq!(
        parse_args(&arg_list(&["check", "localhost", "22", "--timeout", "1", "extra"])).err(),
        Some(UsageError::WrongArgumentCount)
    );
}

#[test]
fn parse_args_refuses_invalid_ports() {
    for port in ["abc", "0", "65536", "-1", "", "22x", "99999999999999999999"] {
        assert_eq!(
            parse_args(&arg_list(&["check", "localhost", port])).err(),
            Some(UsageError::InvalidPort),
            "{:?}",
            port
        );
    }
}

#[test]
fn parse_args_refuses_timeout_flag_without_value() {
    assert_eq!(
        parse_args(&arg_list(&["check", "localhost", "22", "--timeout"])).err(),
        Some(UsageError::MissingTimeoutValue)
    );
}

#[test]
fn parse_args_refuses_invalid_timeouts() {
    for timeout in ["0", "-1", "abc", "", "1.5", "18446744073709551616"] {
        assert_eq!(
            parse_args(&arg_list(&["check", "localhost", "22", "--timeout", timeout])).err(),
            Some(UsageError::InvalidTimeout),
            "{:?}",
            timeout
        );
    }
}

#[test]
fn parse_args_refuses_other_trailing_arguments() {
    assert_eq!(
        parse_args(&arg_list(&["check", "localhost", "22", "10"])).err(),
        Some(UsageError::UnexpectedArguments)
    );
    assert_eq!(
        parse_args(&arg_list(&["check", "localhost", "22", "--time", "10"])).err(),
        Some(UsageError::UnexpectedArguments)
    );
    assert_eq!(
        parse_args(&arg_list(&["check", "localhost", "22", "10", "--timeout"])).err(),
        Some(UsageError::UnexpectedArguments)
    );
    assert_eq!(
        parse_args(&arg_list(&["check", "localhost", "22", "-t", "10"])).err(),
        Some(UsageError::UnexpectedArguments)
    );
}

#[test]
fn parse_args_checks_the_port_before_the_flag() {
    assert_eq!(
        parse_args(&arg_list(&["check", "localhost", "nope", "--timeout", "0"])).err(),
        Some(UsageError::InvalidPort)
    );
    assert_eq!(
        parse_args(&arg_list(&["check", "localhost", "nope", "--timeout"])).err(),
        Some(UsageError::InvalidPort)
    );
    assert_eq!(
        parse_args(&arg_list(&["check", "localhost", "nope", "junk"])).err(),
        Some(UsageError::InvalidPort)
    );
}

#[test]
fn program_name_is_first_argument_or_check() {
    assert_eq!(program_name(&arg_list(&["./portcheck", "a", "1"])), "./portcheck");
    assert_eq!(program_name(&arg_list(&[""])), "");
    assert_eq!(program_name(&arg_list(&[])), "check");
}

#[test]
fn usage_text_lists_arguments_options_and_examples() {
    assert_eq!(usage_text("check"), USAGE_FOR_CHECK);
    let other = usage_text("/usr/bin/pc");
    let expected =
        USAGE_FOR_CHECK.replace("check <", "/usr/bin/pc <").replace("  check ", "  /usr/bin/pc ");
    assert_eq!(other, expected);
    assert!(other.starts_with("Usage: /usr/bin/pc <hostname> <port> [--timeout <seconds>]\n\n"));
    assert!(other.contains("\nArguments:\n  <hostname>  "));
    assert!(other.contains("\nOptions:\n  --timeout <seconds>  "));
    assert!(other.ends_with("\n  /usr/bin/pc 192.168.1.1 3389 --timeout 15"));
    assert_eq!(other.lines().count(), 14);
}

#[test]
fn usage_report_for_wrong_count_is_usage_alone() {
    let args = arg_list(&["check", "localhost"]);
    assert_eq!(usage_report(UsageError::WrongArgumentCount, &args), USAGE_FOR_CHECK);
    assert_eq!(usage_report(UsageError::WrongArgumentCount, &arg_list(&[])), USAGE_FOR_CHECK);
}

#[test]
fn usage_report_names_the_invalid_port() {
    let args = arg_list(&["check", "localhost", "http"]);
    assert_eq!(
        usage_report(UsageError::InvalidPort, &args),
        format!("Error: Invalid port number 'http'\n{}", USAGE_FOR_CHECK)
    );
    let short = arg_list(&["check"]);
    assert_eq!(
        usage_report(UsageError::InvalidPort, &short),
        format!("Error: Invalid port number ''\n{}", USAGE_FOR_CHECK)
    );
}

#[test]
fn usage_report_names_the_other_errors() {
    let args = arg_list(&["check", "localhost", "22", "--timeout"]);
    assert_eq!(
        usage_report(UsageError::MissingTimeoutValue, &args),
        format!("Error: --timeout requires a value\n{}", USAGE_FOR_CHECK)
    );
    assert_eq!(
        usage_report(UsageError::InvalidTimeout, &args),
        format!("Error: Timeout must be a positive number\n{}", USAGE_FOR_CHECK)
    );
    assert_eq!(
        usage_report(UsageError::UnexpectedArguments, &args),
        format!("Error: Invalid arguments\n{}", USAGE_FOR_CHECK)
    );
}
