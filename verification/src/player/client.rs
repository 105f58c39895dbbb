use crate::common::error::Error;
use vstd::prelude::*;

verus! {

/// How long a client waits, in whole seconds, after losing or failing to
/// make its connection before it tries again on its own.
pub const RECONNECT_AFTER_SECS: u64 = 5;

/// Whether a client that has been disconnected for `elapsed_secs` whole
/// seconds tries to connect again now.
pub fn reconnect_due(elapsed_secs: u64) -> (r: bool)
    ensures
        r <==> elapsed_secs >= 5,
{
    elapsed_secs >= RECONNECT_AFTER_SECS
}

/// What happened to a client's connection to the server.
#[derive(PartialEq, Eq, Structural, Clone, Copy, Debug)]
pub enum LinkEvent {
    /// The TCP connection could not be made.
    ConnectFailed,
    /// The TCP connection was made, but the TLS setup or the greeting failed.
    SessionFailed,
    /// The connection is up and the greeting was sent.
    SessionEstablished,
    /// Reading from or writing to the connection failed.
    TransferFailed,
}

/// What a client does on a connection event: whether it is connected
/// afterwards, whether the time since disconnecting starts anew, and the
/// notice shown to the user, if any.
#[derive(Clone, Copy, Debug)]
pub struct LinkStep {
    pub connected: bool,
    pub restart_clock: bool,
    pub notice: Option<&'static str>,
}

/// The client's connection state machine. A connection that is made is
/// announced; a failure to make one is announced unless the server could not
/// even be reached; a connection that breaks is announced as lost. Every
/// failure leaves the client disconnected from now on.
pub fn link_step(event: LinkEvent) -> (r: LinkStep)
    ensures
        r.connected <==> event == LinkEvent::SessionEstablished,
        r.restart_clock <==> event != LinkEvent::SessionEstablished,
        r.notice == match event {
            LinkEvent::ConnectFailed => None,
            LinkEvent::SessionFailed => Some("[mpmp] Failed to connect"),
            LinkEvent::SessionEstablished => Some("[mpmp] Connected"),
            LinkEvent::TransferFailed => Some("[mpmp] Connection lost"),
        },
{
    match event {
        LinkEvent::ConnectFailed => LinkStep { connected: false, restart_clock: true, notice: None },
        LinkEvent::SessionFailed => LinkStep {
            connected: false,
            restart_clock: true,
            notice: Some("[mpmp] Failed to connect"),
        },
        LinkEvent::SessionEstablished => LinkStep {
            connected: true,
            restart_clock: false,
            notice: Some("[mpmp] Connected"),
        },
        LinkEvent::TransferFailed => LinkStep {
            connected: false,
            restart_clock: true,
            notice: Some("[mpmp] Connection lost"),
        },
    }
}

/// The error a client gives when asked to exchange messages while it is not
/// connected.
pub fn not_connected() -> (r: Error)
    ensures
        r matches Error::OtherError(m) && m == "Not connected",
{
    Error::OtherError("Not connected")
}

} // verus!
