//! The command line: `<program> <hostname> <port> [--timeout <seconds>]`.
//!
//! The argument list is taken as the operating system hands it over, with the
//! program's own name in front. It either yields a [`CheckRequest`] or one of
//! the [`UsageError`]s, each of which is reported together with the usage text.

use crate::number::{
    decimal_up_to, decimal_value, is_digit, lemma_number_text_shape, parse_decimal,
};
use vstd::prelude::*;
use vstd::string::*;

verus! {

/// The timeout, in seconds, of an invocation that names none.
pub const DEFAULT_TIMEOUT_SECS: u64 = 5;

/// The largest port number.
pub const MAX_PORT: u64 = 65535;

/// The name under which the usage text shows the program when the argument
/// list does not even hold the program's name.
pub open spec fn fallback_program_name() -> Seq<char> {
    "check"@
}

/// The flag that introduces the timeout.
pub open spec fn timeout_flag() -> Seq<char> {
    "--timeout"@
}

/// What one invocation asks for: check `port` on `hostname`, and give each
/// connection attempt `timeout_secs` seconds.
///
/// A request is made once and not changed afterwards. Its port is never 0 and
/// its timeout is never 0.
#[derive(Debug)]
pub struct CheckRequest {
    hostname: String,
    port: u16,
    timeout_secs: u64,
}

/// A [`CheckRequest`] as a mathematical value.
pub struct RequestView {
    pub hostname: Seq<char>,
    pub port: u16,
    pub timeout_secs: u64,
}

impl RequestView {
    /// The port lies in 1..=65535 and the timeout is positive.
    pub open spec fn valid(self) -> bool {
        self.port >= 1 && self.timeout_secs >= 1
    }
}

impl View for CheckRequest {
    type V = RequestView;

    closed spec fn view(&self) -> RequestView {
        RequestView { hostname: self.hostname@, port: self.port, timeout_secs: self.timeout_secs }
    }
}

impl CheckRequest {
    #[verifier::type_invariant]
    spec fn well_formed(&self) -> bool {
        self.port >= 1 && self.timeout_secs >= 1
    }

    /// Makes a request, unless the port or the timeout is 0.
    pub fn new(hostname: String, port: u16, timeout_secs: u64) -> (r: Option<CheckRequest>)
        ensures
            r is Some <==> port >= 1 && timeout_secs >= 1,
            r matches Some(request) ==> request@ == (RequestView {
                hostname: hostname@,
                port,
                timeout_secs,
            }),
    {
        if port >= 1 && timeout_secs >= 1 {
            Some(CheckRequest { hostname, port, timeout_secs })
        } else {
            None
        }
    }

    /// The name or literal address of the host to check.
    pub fn hostname(&self) -> (r: &str)
        ensures
            r@ == self@.hostname,
    {
        self.hostname.as_str()
    }

    /// The TCP port to check, from 1 to 65535.
    pub fn port(&self) -> (r: u16)
        ensures
            r == self@.port,
            r >= 1,
            self@.valid(),
    {
        proof {
            use_type_invariant(self);
        }
        self.port
    }

    /// The seconds granted to each single connection attempt, at least 1.
    pub fn timeout_secs(&self) -> (r: u64)
        ensures
            r == self@.timeout_secs,
            r >= 1,
            self@.valid(),
    {
        proof {
            use_type_invariant(self);
        }
        self.timeout_secs
    }
}

/// Why an argument list is no valid invocation.
#[derive(Clone, Copy, Debug, PartialEq, Eq, Structural)]
pub enum UsageError {
    /// Fewer than two or more than four arguments follow the program's name.
    WrongArgumentCount,
    /// The port is no decimal number from 1 to 65535.
    InvalidPort,
    /// `--timeout` is the last argument.
    MissingTimeoutValue,
    /// The value after `--timeout` is no positive decimal number that fits 64 bits.
    InvalidTimeout,
    /// Something other than `--timeout` follows the port.
    UnexpectedArguments,
}

/// The port that `text` names: a number text that denotes 1 to 65535.
pub open spec fn spec_parse_port(text: Seq<char>) -> Option<u16> {
    match decimal_up_to(text, MAX_PORT) {
        Some(v) => if v >= 1 {
            Some(v as u16)
        } else {
            None
        },
        None => None,
    }
}

/// The timeout that `text` names: a number text that denotes 1 to `u64::MAX`.
pub open spec fn spec_parse_timeout(text: Seq<char>) -> Option<u64> {
    match decimal_up_to(text, u64::MAX) {
        Some(v) => if v >= 1 {
            Some(v)
        } else {
            None
        },
        None => None,
    }
}

/// What an argument list asks for. `args[0]` is the program's name, `args[1]`
/// the hostname, `args[2]` the port; `--timeout` and its value may follow.
///
/// The checks are made in this order, and the first that fails names the error:
/// the number of arguments, the port, the shape of what follows the port, the
/// timeout's value.
pub open spec fn spec_parse_args(args: Seq<Seq<char>>) -> Result<RequestView, UsageError> {
    if args.len() < 3 || args.len() > 5 {
        Err(UsageError::WrongArgumentCount)
    } else if spec_parse_port(args[2]) is None {
        Err(UsageError::InvalidPort)
    } else if args.len() >= 4 && args[3] == timeout_flag() {
        if args.len() != 5 {
            Err(UsageError::MissingTimeoutValue)
        } else if spec_parse_timeout(args[4]) is None {
            Err(UsageError::InvalidTimeout)
        } else {
            Ok(
                RequestView {
                    hostname: args[1],
                    port: spec_parse_port(args[2])->0,
                    timeout_secs: spec_parse_timeout(args[4])->0,
                },
            )
        }
    } else if args.len() == 3 {
        Ok(
            RequestView {
                hostname: args[1],
                port: spec_parse_port(args[2])->0,
                timeout_secs: DEFAULT_TIMEOUT_SECS,
            },
        )
    } else {
        Err(UsageError::UnexpectedArguments)
    }
}

/// A text names a port exactly if it is a number text that denotes a number
/// from 1 to 65535, and then it names that number.
pub proof fn lemma_port_range(text: Seq<char>)
    ensures
        spec_parse_port(text) is Some <==> decimal_value(text) is Some && 1 <= decimal_value(
            text,
        )->0 <= 65535,
        spec_parse_port(text) matches Some(port) ==> decimal_value(text) == Some(port as nat),
{
}

/// A text names a timeout exactly if it is a number text that denotes a
/// number from 1 to `u64::MAX`. So zero is no timeout, nor is a text that
/// begins with a minus sign, nor one that holds any other character that is
/// neither a digit nor a `+` in front.
pub proof fn lemma_timeout_range(text: Seq<char>)
    ensures
        spec_parse_timeout(text) is Some <==> decimal_value(text) is Some && 1 <= decimal_value(
            text,
        )->0 <= u64::MAX,
        spec_parse_timeout(text) matches Some(secs) ==> decimal_value(text) == Some(secs as nat),
        decimal_value(text) == Some(0nat) ==> spec_parse_timeout(text) is None,
        text.len() > 0 && text[0] == '-' ==> spec_parse_timeout(text) is None,
        forall|i: int|
            0 <= i < text.len() && !is_digit(#[trigger] text[i]) && !(i == 0 && text[0] == '+')
                ==> spec_parse_timeout(text) is None,
{
    if decimal_value(text) is Some {
        lemma_number_text_shape(text);
    }
}

/// Reads a port: an optional `+`, then digits that denote 1 to 65535.
pub fn parse_port(text: &str) -> (r: Option<u16>)
    ensures
        r == spec_parse_port(text@),
{
    match parse_decimal(text, MAX_PORT) {
        Some(v) => if v >= 1 {
            Some(v as u16)
        } else {
            None
        },
        None => None,
    }
}

/// Reads a timeout in seconds: an optional `+`, then digits that denote 1 to
/// `u64::MAX`.
pub fn parse_timeout(text: &str) -> (r: Option<u64>)
    ensures
        r == spec_parse_timeout(text@),
{
    match parse_decimal(text, u64::MAX) {
        Some(v) => if v >= 1 {
            Some(v)
        } else {
            None
        },
        None => None,
    }
}

/// Whether two texts hold the same characters.
pub fn same_text(a: &str, b: &str) -> (r: bool)
    ensures
        r == (a@ == b@),
{
    let x = a.as_bytes();
    let y = b.as_bytes();
    if x.len() != y.len() {
        return false;
    }
    let mut i: usize = 0;
    while i < x.len()
        invariant
            x@ == a.spec_bytes(),
            y@ == b.spec_bytes(),
            x@.len() == y@.len(),
            i <= x@.len(),
            forall|j: int| 0 <= j < i ==> x@[j] == y@[j],
        decreases x@.len() - i,
    {
        if x[i] != y[i] {
            return false;
        }
        i += 1;
    }
    proof {
        assert(x@ =~= y@);
        vstd::utf8::encode_utf8_decode_utf8(a@);
        vstd::utf8::encode_utf8_decode_utf8(b@);
    }
    true
}

/// Reads an argument list, program name first.
///
/// Returns the request where the list is a valid invocation, and otherwise the
/// first error that [`spec_parse_args`] finds. A list is valid if it holds a
/// hostname and a port from 1 to 65535, alone or followed by `--timeout` and a
/// positive number of seconds; without the flag the timeout is 5 seconds.
pub fn parse_args(args: &Vec<String>) -> (r: Result<CheckRequest, UsageError>)
    ensures
        match r {
            Ok(request) => spec_parse_args(args.deep_view()) == Ok::<RequestView, UsageError>(
                request@,
            ) && request@.valid(),
            Err(e) => spec_parse_args(args.deep_view()) == Err::<RequestView, UsageError>(e),
        },
{
    let n: usize = args.len();
    if n < 3 || n > 5 {
        return Err(UsageError::WrongArgumentCount);
    }
    let port: u16 = match parse_port(args[2].as_str()) {
        Some(p) => p,
        None => {
            return Err(UsageError::InvalidPort);
        },
    };
    if n >= 4 && same_text(args[3].as_str(), "--timeout") {
        if n != 5 {
            return Err(UsageError::MissingTimeoutValue);
        }
        match parse_timeout(args[4].as_str()) {
            Some(timeout_secs) => Ok(
                CheckRequest { hostname: args[1].clone(), port, timeout_secs },
            ),
            None => Err(UsageError::InvalidTimeout),
        }
    } else if n == 3 {
        Ok(CheckRequest { hostname: args[1].clone(), port, timeout_secs: DEFAULT_TIMEOUT_SECS })
    } else {
        Err(UsageError::UnexpectedArguments)
    }
}

/// The name that the usage text gives the program: the first argument, or
/// `check` where the list is empty.
pub open spec fn spec_program_name(args: Seq<Seq<char>>) -> Seq<char> {
    if args.len() > 0 {
        args[0]
    } else {
        fallback_program_name()
    }
}

/// The text of the port argument, empty where the list has none.
pub open spec fn spec_port_text(args: Seq<Seq<char>>) -> Seq<char> {
    if args.len() > 2 {
        args[2]
    } else {
        Seq::<char>::empty()
    }
}

/// The usage text for a program called `program`: the synopsis, the arguments,
/// the option and four example invocations, as lines separated by `\n`, with
/// no newline after the last.
pub open spec fn spec_usage_text(program: Seq<char>) -> Seq<char> {
    "Usage: "@ + program + " <hostname> <port> [--timeout <seconds>]\n"@
        + "\nArguments:\n"@
        + "  <hostname>  The hostname or IP address to check\n"@
        + "  <port>      The TCP port number to test\n"@
        + "\nOptions:\n"@
        + "  --timeout <seconds>  Connection timeout in seconds (default: 5)\n"@
        + "\nExamples:\n"@
        + "  "@ + program + " google.com 80\n"@
        + "  "@ + program + " google.com 443 --timeout 10\n"@
        + "  "@ + program + " localhost 22 --timeout 1\n"@
        + "  "@ + program + " 192.168.1.1 3389 --timeout 15"@
}

/// The line that names the error, for the errors that have one. A wrong
/// number of arguments is answered with the usage text alone.
pub open spec fn spec_error_line(error: UsageError, args: Seq<Seq<char>>) -> Option<Seq<char>> {
    match error {
        UsageError::WrongArgumentCount => None,
        UsageError::InvalidPort => Some(
            "Error: Invalid port number '"@ + spec_port_text(args) + "'"@,
        ),
        UsageError::MissingTimeoutValue => Some("Error: --timeout requires a value"@),
        UsageError::InvalidTimeout => Some("Error: Timeout must be a positive number"@),
        UsageError::UnexpectedArguments => Some("Error: Invalid arguments"@),
    }
}

/// What is written to standard error for a usage error: the error's line, if
/// it has one, then the usage text.
pub open spec fn spec_usage_report(error: UsageError, args: Seq<Seq<char>>) -> Seq<char> {
    match spec_error_line(error, args) {
        Some(line) => line + "\n"@ + spec_usage_text(spec_program_name(args)),
        None => spec_usage_text(spec_program_name(args)),
    }
}

/// The program's name as the argument list gives it, or `check`.
pub fn program_name(args: &Vec<String>) -> (r: &str)
    ensures
        r@ == spec_program_name(args.deep_view()),
{
    if args.len() > 0 {
        args[0].as_str()
    } else {
        "check"
    }
}

/// The usage text for a program called `program`.
pub fn usage_text(program: &str) -> (r: String)
    ensures
        r@ == spec_usage_text(program@),
{
    let mut s = String::from_str("Usage: ");
    s.append(program);
    s.append(" <hostname> <port> [--timeout <seconds>]\n");
    s.append("\nArguments:\n");
    s.append("  <hostname>  The hostname or IP address to check\n");
    s.append("  <port>      The TCP port number to test\n");
    s.append("\nOptions:\n");
    s.append("  --timeout <seconds>  Connection timeout in seconds (default: 5)\n");
    s.append("\nExamples:\n");
    s.append("  ");
    s.append(program);
    s.append(" google.com 80\n");
    s.append("  ");
    s.append(program);
    s.append(" google.com 443 --timeout 10\n");
    s.append("  ");
    s.append(program);
    s.append(" localhost 22 --timeout 1\n");
    s.append("  ");
    s.append(program);
    s.append(" 192.168.1.1 3389 --timeout 15");
    s
}

/// What to write to standard error when `args` was refused with `error`: the
/// line that names the error, if it has one, and the usage text below it.
pub fn usage_report(error: UsageError, args: &Vec<String>) -> (r: String)
    ensures
        r@ == spec_usage_report(error, args.deep_view()),
{
    let program = program_name(args);
    let usage = usage_text(program);
    let mut line = match error {
        UsageError::WrongArgumentCount => {
            return usage;
        },
        UsageError::InvalidPort => {
            let mut line = String::from_str("Error: Invalid port number '");
            if args.len() > 2 {
                line.append(args[2].as_str());
            }
            line.append("'");
            line
        },
        UsageError::MissingTimeoutValue => String::from_str("Error: --timeout requires a value"),
        UsageError::InvalidTimeout => String::from_str("Error: Timeout must be a positive number"),
        UsageError::UnexpectedArguments => String::from_str("Error: Invalid arguments"),
    };
    line.append("\n");
    line.append(usage.as_str());
    line
}

} // verus!
