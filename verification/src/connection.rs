//! What the console does with each frame a gateway sends over its connection.

use vstd::prelude::*;

verus! {

/// The kinds of frame a gateway sends.
#[derive(PartialEq, Eq, Structural, Clone, Copy, Debug)]
pub enum FrameKind {
    HandshakeRequest,
    HeartbeatPing,
    Ack,
    Close,
    Unknown,
}

/// What the console does with a frame.
#[derive(PartialEq, Eq, Structural, Clone, Copy, Debug)]
pub enum FrameAction {
    /// Check the gateway's signature, agree session keys, answer, record the
    /// gateway, and send it the changes it lacks.
    Handshake,
    /// Read the heartbeat, answer it, store its statistics when the gateway's
    /// cluster is known, and send the gateway the changes it lacks.
    Heartbeat,
    /// Read the acknowledgement.
    ReadAck,
    /// Nothing: no session keys are agreed yet, so the frame cannot be read.
    Ignore,
    /// End the connection.
    Close,
    /// Report that the protocol is not supported.
    Unsupported,
}

/// The action for a frame, given whether session keys are agreed.
pub fn frame_action(kind: FrameKind, has_crypto: bool) -> (r: FrameAction)
    ensures
        kind == FrameKind::HandshakeRequest ==> r == FrameAction::Handshake,
        kind == FrameKind::HeartbeatPing ==> r == (if has_crypto { FrameAction::Heartbeat } else { FrameAction::Ignore }),
        kind == FrameKind::Ack ==> r == (if has_crypto { FrameAction::ReadAck } else { FrameAction::Ignore }),
        kind == FrameKind::Close ==> r == FrameAction::Close,
        kind == FrameKind::Unknown ==> r == FrameAction::Unsupported,
{
    match kind {
        FrameKind::HandshakeRequest => FrameAction::Handshake,
        FrameKind::HeartbeatPing => if has_crypto { FrameAction::Heartbeat } else { FrameAction::Ignore },
        FrameKind::Ack => if has_crypto { FrameAction::ReadAck } else { FrameAction::Ignore },
        FrameKind::Close => FrameAction::Close,
        FrameKind::Unknown => FrameAction::Unsupported,
    }
}

/// A connection keeps reading until a frame ends it: a failed frame is
/// reported and the next one read.
pub fn keeps_reading(handled: Result<bool, ()>) -> (r: bool)
    ensures
        r == !(handled matches Ok(exit) && exit),
{
    match handled {
        Ok(exit) => !exit,
        Err(_) => true,
    }
}

/// What the console knows of a connected gateway.
pub struct ConnectionState {
    pub cluster: Option<String>,
    pub ip: Option<String>,
    pub has_crypto: bool,
}

impl ConnectionState {
    /// A connection that has sent nothing yet.
    pub fn new() -> (r: Self)
        ensures
            r.cluster is None,
            r.ip is None,
            !r.has_crypto,
    {
        ConnectionState { cluster: None, ip: None, has_crypto: false }
    }

    /// After a handshake the connection knows the gateway's cluster and
    /// address, and has session keys.
    pub fn after_handshake(&mut self, cluster: String, ip: String)
        ensures
            final(self).cluster == Some(cluster),
            final(self).ip == Some(ip),
            final(self).has_crypto,
    {
        self.cluster = Some(cluster);
        self.ip = Some(ip);
        self.has_crypto = true;
    }
}

/// Whose statistics a heartbeat carries: the connection's cluster and
/// address (empty when unknown); none before the cluster is known.
pub fn heartbeat_owner(state: &ConnectionState) -> (r: Option<(String, String)>)
    ensures
        state.cluster is None ==> r is None,
        state.cluster matches Some(c) ==> (r matches Some(p) && p.0 == c
            && p.1@ == (match state.ip { Some(i) => i@, None => Seq::empty() })),
{
    match &state.cluster {
        None => None,
        Some(c) => {
            let ip = match &state.ip {
                Some(i) => i.clone(),
                None => String::new(),
            };
            Some((c.clone(), ip))
        }
    }
}

/// Division by a positive number rounding toward zero, as integer division in Rust does.
pub open spec fn div_toward_zero(a: int, b: int) -> int {
    if a >= 0 { a / b } else { -((-a) / b) }
}

/// The time a heartbeat answer carries: Unix milliseconds, from Unix nanoseconds.
pub fn pong_millis(now_nanos: i128) -> (r: i64)
    requires
        i64::MIN <= div_toward_zero(now_nanos as int, 1000000) <= i64::MAX,
    ensures
        r == div_toward_zero(now_nanos as int, 1000000),
{
    if now_nanos >= 0 {
        (now_nanos / 1000000) as i64
    } else {
        assert(now_nanos > i128::MIN) by {
            if now_nanos == i128::MIN {
                assert((-(i128::MIN as int)) / 1000000 > i64::MAX + 1) by (nonlinear_arith);
            }
        }
        let m: i128 = -now_nanos;
        (-(m / 1000000)) as i64
    }
}

} // verus!
