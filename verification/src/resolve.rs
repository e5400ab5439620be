//! What a name lookup yields: the addresses to try, in the order the resolver
//! gave them, or the reason why there are none.
//!
//! The lookup itself is the caller's business. This module takes its result
//! as plain values and decides whether there is anything to probe.

use vstd::prelude::*;
use vstd::string::*;

verus! {

/// One candidate for a connection: an IP address, in the text form in which
/// it is shown to the user, and the port.
#[derive(Debug, PartialEq, Eq)]
pub struct ResolvedAddress {
    pub ip: String,
    pub port: u16,
}

/// A [`ResolvedAddress`] as a mathematical value.
pub struct AddressView {
    pub ip: Seq<char>,
    pub port: u16,
}

impl View for ResolvedAddress {
    type V = AddressView;

    open spec fn view(&self) -> AddressView {
        AddressView { ip: self.ip@, port: self.port }
    }
}

impl DeepView for ResolvedAddress {
    type V = AddressView;

    open spec fn deep_view(&self) -> AddressView {
        self@
    }
}

impl Clone for ResolvedAddress {
    fn clone(&self) -> (r: ResolvedAddress)
        ensures
            r@ == self@,
    {
        ResolvedAddress { ip: self.ip.clone(), port: self.port }
    }
}

/// Why a hostname gave no address to probe.
#[derive(Debug, PartialEq, Eq)]
pub enum ResolutionError {
    /// The lookup itself failed, for the reason `cause`.
    LookupFailed { hostname: String, cause: String },
    /// The lookup succeeded and returned nothing.
    NoAddresses { hostname: String },
}

/// A [`ResolutionError`] as a mathematical value.
pub enum ResolutionErrorView {
    LookupFailed { hostname: Seq<char>, cause: Seq<char> },
    NoAddresses { hostname: Seq<char> },
}

impl View for ResolutionError {
    type V = ResolutionErrorView;

    open spec fn view(&self) -> ResolutionErrorView {
        match self {
            ResolutionError::LookupFailed { hostname, cause } => ResolutionErrorView::LookupFailed {
                hostname: hostname@,
                cause: cause@,
            },
            ResolutionError::NoAddresses { hostname } => ResolutionErrorView::NoAddresses {
                hostname: hostname@,
            },
        }
    }
}

/// The result of a lookup, as the caller hands it over, as a mathematical
/// value: the addresses in the resolver's order, or the resolver's complaint.
pub open spec fn lookup_view(lookup: Result<Vec<ResolvedAddress>, String>) -> Result<
    Seq<AddressView>,
    Seq<char>,
> {
    match lookup {
        Ok(addrs) => Ok(addrs.deep_view()),
        Err(cause) => Err(cause@),
    }
}

/// What [`accept_lookup`] returns, as a mathematical value.
pub open spec fn accepted_view(accepted: Result<Vec<ResolvedAddress>, ResolutionError>) -> Result<
    Seq<AddressView>,
    ResolutionErrorView,
> {
    match accepted {
        Ok(addrs) => Ok(addrs.deep_view()),
        Err(e) => Err(e@),
    }
}

/// The addresses to probe for `hostname`, given what the lookup returned.
///
/// They are the resolver's addresses, all of them and in its order, if there
/// is at least one. A failed lookup and an empty answer are the two errors.
pub open spec fn spec_accept_lookup(
    hostname: Seq<char>,
    lookup: Result<Seq<AddressView>, Seq<char>>,
) -> Result<Seq<AddressView>, ResolutionErrorView> {
    match lookup {
        Err(cause) => Err(ResolutionErrorView::LookupFailed { hostname, cause }),
        Ok(addrs) => if addrs.len() == 0 {
            Err(ResolutionErrorView::NoAddresses { hostname })
        } else {
            Ok(addrs)
        },
    }
}

/// The line that reports a resolution error.
pub open spec fn spec_resolution_message(error: ResolutionErrorView) -> Seq<char> {
    match error {
        ResolutionErrorView::LookupFailed { hostname, cause } => {
            "\u{2717} Failed to resolve hostname '"@ + hostname + "': "@ + cause
        },
        ResolutionErrorView::NoAddresses { hostname } => {
            "\u{2717} No addresses found for hostname '"@ + hostname + "'"@
        },
    }
}

/// Decides whether a lookup for `hostname` left anything to probe.
///
/// Returns the addresses untouched where the lookup succeeded with at least
/// one; `LookupFailed` with the resolver's complaint where it failed;
/// `NoAddresses` where it succeeded with none.
pub fn accept_lookup(hostname: &str, lookup: Result<Vec<ResolvedAddress>, String>) -> (r: Result<
    Vec<ResolvedAddress>,
    ResolutionError,
>)
    ensures
        accepted_view(r) == spec_accept_lookup(hostname@, lookup_view(lookup)),
        lookup matches Ok(addrs) ==> addrs.len() > 0 ==> r == Ok::<
            Vec<ResolvedAddress>,
            ResolutionError,
        >(addrs),
{
    match lookup {
        Err(cause) => Err(
            ResolutionError::LookupFailed { hostname: String::from_str(hostname), cause },
        ),
        Ok(addrs) => {
            if addrs.len() == 0 {
                Err(ResolutionError::NoAddresses { hostname: String::from_str(hostname) })
            } else {
                Ok(addrs)
            }
        },
    }
}

impl ResolutionError {
    /// The line that reports this error: it names the hostname and, for a
    /// failed lookup, the resolver's complaint.
    pub fn message(&self) -> (r: String)
        ensures
            r@ == spec_resolution_message(self@),
    {
        match self {
            ResolutionError::LookupFailed { hostname, cause } => {
                let mut s = String::from_str("\u{2717} Failed to resolve hostname '");
                s.append(hostname.as_str());
                s.append("': ");
                s.append(cause.as_str());
                s
            },
            ResolutionError::NoAddresses { hostname } => {
                let mut s = String::from_str("\u{2717} No addresses found for hostname '");
                s.append(hostname.as_str());
                s.append("'");
                s
            },
        }
    }
}

} // verus!
