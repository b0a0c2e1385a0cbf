//! The bind address and the reaction to the bind outcome.

use vstd::prelude::*;

verus! {

/// The address the listener binds: four IPv4 octets and a port.
#[derive(Clone, Copy, PartialEq, Eq, Structural, Debug)]
pub struct HostPort {
    /// First octet of the IPv4 address.
    pub octet0: u8,
    /// Second octet of the IPv4 address.
    pub octet1: u8,
    /// Third octet of the IPv4 address.
    pub octet2: u8,
    /// Fourth octet of the IPv4 address.
    pub octet3: u8,
    /// The TCP port.
    pub port: u16,
}

/// The fixed bind address of this server: loopback, port 8080. It is
/// constant for the process lifetime and not configurable.
pub fn default_address() -> (h: HostPort)
    ensures
        h == (HostPort { octet0: 127, octet1: 0, octet2: 0, octet3: 1, port: 8080 }),
{
    HostPort { octet0: 127, octet1: 0, octet2: 0, octet3: 1, port: 8080 }
}

/// Why the listening socket could not be created.
#[derive(Clone, Copy, PartialEq, Eq, Structural, Debug)]
pub enum BindError {
    /// The address is already bound by another process.
    AddressInUse,
    /// The process lacks the privilege to bind the address.
    PermissionDenied,
    /// The address is not one this host can bind.
    InvalidAddress,
}

/// The step taken once the bind attempt has resolved: serve forever, or
/// abort the process with the bind error.
#[derive(Clone, Copy, PartialEq, Eq, Structural, Debug)]
pub enum StartStep {
    /// Announce the address, then enter the accept loop.
    Serve,
    /// Terminate at once with this error; there is no retry.
    Abort(BindError),
}

/// The decision the start sequence takes for a given bind outcome.
pub open spec fn start_decision(outcome: Result<(), BindError>) -> StartStep {
    match outcome {
        Ok(()) => StartStep::Serve,
        Err(e) => StartStep::Abort(e),
    }
}

/// Decide what follows the bind attempt. A success leads to serving; a
/// failure is fatal at once, the error surfaced unchanged — the server never
/// retries, queues, or silently carries on without its socket.
pub fn after_bind(outcome: Result<(), BindError>) -> (d: StartStep)
    ensures
        d == start_decision(outcome),
        d is Serve <==> outcome is Ok,
{
    match outcome {
        Ok(()) => StartStep::Serve,
        Err(e) => StartStep::Abort(e),
    }
}

/// Bind failure is fatal: a failed bind never yields the serving decision,
/// and the error it carries is the one the bind attempt reported.
pub proof fn lemma_bind_failure_fatal(e: BindError)
    ensures
        start_decision(Err(e)) == StartStep::Abort(e),
        start_decision(Err(e)) != StartStep::Serve,
{
}

/// The diagnostic text of each bind error.
pub open spec fn bind_error_text(e: BindError) -> Seq<char> {
    match e {
        BindError::AddressInUse => "address already in use"@,
        BindError::PermissionDenied => "permission denied"@,
        BindError::InvalidAddress => "invalid address"@,
    }
}

impl BindError {
    /// The diagnostic that accompanies process termination on this error.
    pub fn message(&self) -> (r: String)
        ensures
            r@ == bind_error_text(*self),
    {
        match self {
            BindError::AddressInUse => "address already in use".to_owned(),
            BindError::PermissionDenied => "permission denied".to_owned(),
            BindError::InvalidAddress => "invalid address".to_owned(),
        }
    }
}

/// The line written to standard output exactly once, after a successful bind
/// and before the accept loop starts.
pub fn announcement() -> (r: String)
    ensures
        r@ == "Server running at http://localhost:8080"@,
{
    "Server running at http://localhost:8080".to_owned()
}

} // verus!
