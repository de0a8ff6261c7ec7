//! The probe for the local address that the host would use to reach the
//! public internet.
//!
//! The probe opens a datagram socket on the wildcard address, associates it
//! with a well-known public address, which sends nothing and only makes the
//! operating system choose a route, and reads back the local address of the
//! socket. The socket work is the caller's; this module decides what to
//! attempt next and what to report. The caller starts with
//! [`first_probe_step`], performs each step, and hands what happened to
//! [`probe_advance`] until that returns a report.

use vstd::prelude::*;
use vstd::string::*;
use crate::text::{decimal, lemma_decimal_digits, push_decimal};

verus! {

/// An IPv4 address, most significant octet first.
#[derive(Clone, Copy, PartialEq, Eq, Structural, Debug)]
pub struct Ipv4Address(pub u8, pub u8, pub u8, pub u8);

/// An address and a port.
#[derive(Clone, Copy, PartialEq, Eq, Structural, Debug)]
pub struct Endpoint {
    pub address: Ipv4Address,
    pub port: u16,
}

/// A piece of socket work.
#[derive(Clone, Copy, PartialEq, Eq, Structural, Debug)]
pub enum ProbeStep {
    /// Open a datagram socket bound to an endpoint.
    Bind,
    /// Associate the socket with a remote endpoint.
    Associate,
    /// Read back the local address of the socket.
    ReadLocalAddress,
}

/// What a piece of socket work gave.
#[derive(Clone, Copy, PartialEq, Eq, Structural, Debug)]
pub enum ProbeEvent {
    /// The work failed.
    Failed,
    /// The work succeeded and gave no address.
    Succeeded,
    /// The work succeeded and gave this local address.
    LocalAddress(Ipv4Address),
}

/// What follows a piece of socket work.
#[derive(Debug, PartialEq, Eq)]
pub enum ProbeVerdict {
    /// The probe goes on with this step.
    Continue(ProbeStep),
    /// The probe is over and reports this text.
    Report(String),
}

/// A verdict as mathematical values.
pub enum VerdictModel {
    Continue(ProbeStep),
    Report(Seq<char>),
}

impl View for ProbeVerdict {
    type V = VerdictModel;

    open spec fn view(&self) -> VerdictModel {
        match self {
            ProbeVerdict::Continue(step) => VerdictModel::Continue(*step),
            ProbeVerdict::Report(text) => VerdictModel::Report(text@),
        }
    }
}

/// The endpoint that the socket is bound to: the wildcard address and a port
/// of the system's choice.
pub open spec fn wildcard_endpoint() -> Endpoint {
    Endpoint { address: Ipv4Address(0, 0, 0, 0), port: 0 }
}

/// The endpoint that the socket is associated with: a public name server, on
/// the port of HTTP.
pub open spec fn remote_endpoint() -> Endpoint {
    Endpoint { address: Ipv4Address(8, 8, 8, 8), port: 80 }
}

/// The endpoint that a step works on.
pub open spec fn step_endpoint(step: ProbeStep) -> Option<Endpoint> {
    match step {
        ProbeStep::Bind => Some(wildcard_endpoint()),
        ProbeStep::Associate => Some(remote_endpoint()),
        ProbeStep::ReadLocalAddress => None,
    }
}

/// The report where no socket could be opened.
pub open spec fn bind_failure_text() -> Seq<char> {
    "Failed to bind to a socket."@
}

/// The report where the socket could not be associated.
pub open spec fn unreachable_text() -> Seq<char> {
    "Network unreachable."@
}

/// The report where the local address could not be read back.
pub open spec fn no_local_address_text() -> Seq<char> {
    "Failed to get local address."@
}

/// An address in dotted decimal notation.
pub open spec fn ipv4_text(address: Ipv4Address) -> Seq<char> {
    decimal(address.0 as nat) + seq!['.'] + decimal(address.1 as nat) + seq!['.'] + decimal(
        address.2 as nat,
    ) + seq!['.'] + decimal(address.3 as nat)
}

/// Whether `text` is an IPv4 address in dotted decimal notation: four
/// numerals below 256 without leading zeros, with a dot between them.
pub open spec fn is_ipv4_literal(text: Seq<char>) -> bool {
    exists|address: Ipv4Address| text == #[trigger] ipv4_text(address)
}

/// What follows `step` when it gave `event`. A failure ends the probe with
/// the report of the step that failed. Reading back the local address ends
/// the probe in any case: with the address, or as a failure where none was
/// given.
pub open spec fn next_verdict(step: ProbeStep, event: ProbeEvent) -> VerdictModel {
    match step {
        ProbeStep::Bind => if event is Failed {
            VerdictModel::Report(bind_failure_text())
        } else {
            VerdictModel::Continue(ProbeStep::Associate)
        },
        ProbeStep::Associate => if event is Failed {
            VerdictModel::Report(unreachable_text())
        } else {
            VerdictModel::Continue(ProbeStep::ReadLocalAddress)
        },
        ProbeStep::ReadLocalAddress => match event {
            ProbeEvent::LocalAddress(address) => VerdictModel::Report(ipv4_text(address)),
            _ => VerdictModel::Report(no_local_address_text()),
        },
    }
}

/// The report of a probe whose three steps would give these events: that of
/// the first failure, else the address.
pub open spec fn probe_report(
    bind: ProbeEvent,
    associate: ProbeEvent,
    read_back: ProbeEvent,
) -> Seq<char> {
    if bind is Failed {
        bind_failure_text()
    } else if associate is Failed {
        unreachable_text()
    } else {
        match read_back {
            ProbeEvent::LocalAddress(address) => ipv4_text(address),
            _ => no_local_address_text(),
        }
    }
}

/// Carried out step by step, the probe ends at the first failure, after three
/// steps at the latest, and reports what `probe_report` says.
pub proof fn lemma_probe_runs_to_report(
    bind: ProbeEvent,
    associate: ProbeEvent,
    read_back: ProbeEvent,
)
    ensures
        ({
            let report = VerdictModel::Report(probe_report(bind, associate, read_back));
            let first = next_verdict(ProbeStep::Bind, bind);
            let second = next_verdict(ProbeStep::Associate, associate);
            let third = next_verdict(ProbeStep::ReadLocalAddress, read_back);
            if bind is Failed {
                first == report
            } else if associate is Failed {
                first == VerdictModel::Continue(ProbeStep::Associate) && second == report
            } else {
                &&& first == VerdictModel::Continue(ProbeStep::Associate)
                &&& second == VerdictModel::Continue(ProbeStep::ReadLocalAddress)
                &&& third == report
            }
        }),
{
}

/// An address in dotted decimal notation starts with a digit.
pub proof fn lemma_ipv4_text_starts_with_digit(address: Ipv4Address)
    ensures
        ipv4_text(address).len() >= 7,
        '0' <= ipv4_text(address)[0] <= '9',
{
    lemma_decimal_digits(address.0 as nat);
    lemma_decimal_digits(address.1 as nat);
    lemma_decimal_digits(address.2 as nat);
    lemma_decimal_digits(address.3 as nat);
    let first = decimal(address.0 as nat);
    assert(ipv4_text(address)[0] == first[0]);
}

/// A probe always reports something; it reports each diagnostic exactly
/// where the step of that diagnostic is the first to fail, and where no step
/// fails it reports an IPv4 address in dotted decimal notation.
pub proof fn lemma_probe_report_classified(
    bind: ProbeEvent,
    associate: ProbeEvent,
    read_back: ProbeEvent,
)
    ensures
        probe_report(bind, associate, read_back).len() > 0,
        probe_report(bind, associate, read_back) == bind_failure_text() <==> bind is Failed,
        probe_report(bind, associate, read_back) == unreachable_text() <==> bind !is Failed
            && associate is Failed,
        probe_report(bind, associate, read_back) == no_local_address_text() <==> bind !is Failed
            && associate !is Failed && read_back !is LocalAddress,
        bind !is Failed && associate !is Failed && read_back is LocalAddress ==> is_ipv4_literal(
            probe_report(bind, associate, read_back),
        ),
{
    reveal_strlit("Failed to bind to a socket.");
    reveal_strlit("Network unreachable.");
    reveal_strlit("Failed to get local address.");
    if let ProbeEvent::LocalAddress(address) = read_back {
        lemma_ipv4_text_starts_with_digit(address);
    }
}

/// The step that a probe starts with.
pub fn first_probe_step() -> (step: ProbeStep)
    ensures
        step == ProbeStep::Bind,
{
    ProbeStep::Bind
}

/// The endpoint that a step works on, where it works on one.
pub fn probe_step_endpoint(step: ProbeStep) -> (endpoint: Option<Endpoint>)
    ensures
        endpoint == step_endpoint(step),
{
    match step {
        ProbeStep::Bind => Some(Endpoint { address: Ipv4Address(0, 0, 0, 0), port: 0 }),
        ProbeStep::Associate => Some(Endpoint { address: Ipv4Address(8, 8, 8, 8), port: 80 }),
        ProbeStep::ReadLocalAddress => None,
    }
}

/// Renders an address in dotted decimal notation.
pub fn ipv4_string(address: Ipv4Address) -> (r: String)
    ensures
        r@ == ipv4_text(address),
{
    proof {
        reveal_strlit(".");
        assert("."@ =~= seq!['.']);
    }
    let mut r = String::new();
    push_decimal(&mut r, address.0 as u64);
    r.append(".");
    push_decimal(&mut r, address.1 as u64);
    r.append(".");
    push_decimal(&mut r, address.2 as u64);
    r.append(".");
    push_decimal(&mut r, address.3 as u64);
    assert(r@ =~= ipv4_text(address));
    r
}

/// Decides what follows a step of the probe, given what the step gave.
pub fn probe_advance(step: ProbeStep, event: ProbeEvent) -> (verdict: ProbeVerdict)
    ensures
        verdict@ == next_verdict(step, event),
{
    match step {
        ProbeStep::Bind => match event {
            ProbeEvent::Failed => ProbeVerdict::Report(
                String::from_str("Failed to bind to a socket."),
            ),
            _ => ProbeVerdict::Continue(ProbeStep::Associate),
        },
        ProbeStep::Associate => match event {
            ProbeEvent::Failed => ProbeVerdict::Report(String::from_str("Network unreachable.")),
            _ => ProbeVerdict::Continue(ProbeStep::ReadLocalAddress),
        },
        ProbeStep::ReadLocalAddress => match event {
            ProbeEvent::LocalAddress(address) => ProbeVerdict::Report(ipv4_string(address)),
            _ => ProbeVerdict::Report(String::from_str("Failed to get local address.")),
        },
    }
}

} // verus!
