//! The streaming endpoint's wire format and per-connection decisions: the
//! handshake, the comma-joined live tuple sent for each snapshot, the fixed
//! keep-alive frame, the configurable error sentinel, and when a connection
//! task sends or closes. The socket itself lives outside this crate: it
//! feeds events in and performs the returned actions.

use vstd::prelude::*;
use vstd::string::StringExecFns;

use crate::snapshot::Snapshot;
use crate::text::{append_decimal, spec_decimal};

verus! {

/// The wire payload for one snapshot: the minimal live-changing subset as a
/// comma-joined textual tuple. Static fields (CPU brand, memory sizes, ...)
/// are delivered once via the page render, not restreamed.
pub open spec fn spec_payload(s: Snapshot) -> Seq<char> {
    spec_decimal(s.network_rx_bytes as nat) + ", "@ + spec_decimal(s.network_tx_bytes as nat)
        + ", "@ + spec_decimal(s.process_count as nat) + ", "@ + spec_decimal(
        s.uptime_seconds as nat,
    )
}

/// Serialize one snapshot as its wire payload.
pub fn snapshot_payload(s: &Snapshot) -> (r: String)
    ensures
        r@ == spec_payload(*s),
{
    let mut out = String::new();
    append_decimal(&mut out, s.network_rx_bytes);
    out.append(", ");
    append_decimal(&mut out, s.network_tx_bytes);
    out.append(", ");
    append_decimal(&mut out, s.process_count as u64);
    out.append(", ");
    append_decimal(&mut out, s.uptime_seconds);
    proof {
        assert(out@ =~= spec_payload(*s));
    }
    out
}

/// The fixed text of a keep-alive frame.
pub open spec fn spec_keep_alive_text() -> Seq<char> {
    "keep-alive"@
}

/// The fixed keep-alive frame, sent periodically to defeat idle-connection
/// timeouts between snapshots.
pub fn keep_alive_text() -> (r: &'static str)
    ensures
        r@ == spec_keep_alive_text(),
{
    "keep-alive"
}

/// Whether the idle keep-alive timer has fired: no frame has been sent for
/// at least the configured interval.
pub fn keep_alive_due(ms_since_last_send: u64, keep_alive_interval_ms: u64) -> (r: bool)
    ensures
        r == (ms_since_last_send >= keep_alive_interval_ms),
{
    ms_since_last_send >= keep_alive_interval_ms
}

/// What one connection task just observed.
pub enum StreamEvent {
    /// The client connected; the handshake is owed.
    Connected,
    /// The subscription yielded a snapshot this subscriber had not seen.
    SnapshotReady(Snapshot),
    /// The idle keep-alive timer fired.
    KeepAliveDue,
    /// An internal error while producing a payload: the stream emits the
    /// configured sentinel rather than closing.
    InternalError,
    /// The hub shut down: wind the connection up.
    HubClosed,
    /// The socket write failed: the client is gone.
    WriteFailed,
}

/// What the connection task must do next.
pub enum StreamAction {
    /// Write this payload to the socket.
    Send(String),
    /// Close the socket, discard the subscription, and report the close to
    /// the connection registry. Never affects any other connection.
    Close,
}

/// The per-connection step: map one observed event to the one action the
/// task performs next. The handshake carries the build identifier; a
/// snapshot is serialized as the wire tuple; internal errors degrade to the
/// sentinel payload; hub shutdown and write failure close this connection
/// (and only this one).
pub fn stream_step(build_id: &str, error_sentinel: &str, event: StreamEvent) -> (a: StreamAction)
    ensures
        event is Connected ==> (a matches StreamAction::Send(p) && p@ == build_id@),
        event matches StreamEvent::SnapshotReady(s) ==> (a matches StreamAction::Send(p) && p@
            == spec_payload(s)),
        event is KeepAliveDue ==> (a matches StreamAction::Send(p) && p@
            == spec_keep_alive_text()),
        event is InternalError ==> (a matches StreamAction::Send(p) && p@ == error_sentinel@),
        event is HubClosed ==> a is Close,
        event is WriteFailed ==> a is Close,
{
    match event {
        StreamEvent::Connected => StreamAction::Send(String::from_str(build_id)),
        StreamEvent::SnapshotReady(s) => StreamAction::Send(snapshot_payload(&s)),
        StreamEvent::KeepAliveDue => StreamAction::Send(String::from_str(keep_alive_text())),
        StreamEvent::InternalError => StreamAction::Send(String::from_str(error_sentinel)),
        StreamEvent::HubClosed => StreamAction::Close,
        StreamEvent::WriteFailed => StreamAction::Close,
    }
}

} // verus!
