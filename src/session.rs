//! One session attempt as a state machine: the caller performs each action on
//! the transport and hands back what happened as the next event.

use vstd::prelude::*;
use vstd::string::*;

verus! {

/// A failure of the transport; it ends the attempt.
#[derive(Clone, Debug, PartialEq, Eq)]
pub enum TransportError {
    Connect(String),
    Send(String),
    Read(String),
}

/// An inbound WebSocket message.
#[derive(Clone, Debug, PartialEq, Eq)]
pub enum Frame {
    Text(String),
    Binary(Vec<u8>),
    Ping(Vec<u8>),
    Pong(Vec<u8>),
    Close,
}

/// Where an attempt stands.
#[derive(Clone, Copy, Debug, PartialEq, Eq, Structural)]
pub enum Phase {
    Connecting,
    AwaitingAuthConfirmation,
    Streaming,
    Closed,
    Errored,
}

/// What the caller reports back after performing an action.
#[derive(Clone, Debug, PartialEq, Eq)]
pub enum SessionEvent {
    /// The transport handshake completed.
    Connected,
    /// The login frame was sent.
    LoginSent,
    /// A frame was read.
    Received(Frame),
    /// The pong reply was sent.
    PongSent,
    /// The peer ended the inbound stream.
    StreamEnded,
    /// Connecting, reading or sending failed.
    Failed(TransportError),
}

/// What the caller does next.
#[derive(Clone, Debug, PartialEq, Eq)]
pub enum SessionAction {
    /// Build a fresh login request and send it as a text frame.
    SendLogin,
    /// Await the next inbound frame.
    ReadNext,
    /// Send a pong frame carrying these bytes.
    SendPong(Vec<u8>),
    /// Record the confirmation latency of the frame just read, then read on.
    /// The latency runs from that frame's arrival to this report, so it
    /// measures local processing of the confirmation, not the round trip
    /// from the login.
    ReportConfirmation,
    /// Record the latency of the pong just sent, then read on.
    ReportHeartbeat,
    /// The attempt ended cleanly.
    Finish,
    /// The attempt failed with this error.
    Fail(TransportError),
}

/// The `type` member of a text frame, when the text is a JSON object whose
/// `type` is a string.
pub uninterp spec fn json_type_of(text: Seq<char>) -> Option<Seq<char>>;

/// The characters of an optional string.
pub open spec fn chars_of(o: Option<String>) -> Option<Seq<char>> {
    match o {
        Some(s) => Some(s@),
        None => None,
    }
}

/// Relies on serde_json::from_str, Value::get and Value::as_str: the `type`
/// member of the text parsed as JSON when it is a string, none when the text
/// is not JSON or has no such member. A function of the text alone.
#[verifier::external_body]
fn json_type_field(text: &str) -> (r: Option<String>)
    ensures
        chars_of(r) == json_type_of(text@),
{
    let v: serde_json::Value = serde_json::from_str(text).ok()?;
    v.get("type")?.as_str().map(String::from)
}

/// The `type` value that confirms authentication.
pub open spec fn subscribed() -> Seq<char> {
    "subscribed"@
}

/// Holds when a text frame confirms authentication.
pub open spec fn confirms(text: Seq<char>) -> bool {
    json_type_of(text) == Some(subscribed())
}

/// Whether a frame's `type` member is `subscribed`.
pub fn is_subscribed_type(type_field: &Option<String>) -> (r: bool)
    ensures
        r == (chars_of(*type_field) == Some(subscribed())),
{
    match type_field {
        Some(t) => {
            let expected = String::from_str("subscribed");
            *t == expected
        },
        None => false,
    }
}

/// Whether a text frame confirms authentication.
pub fn confirms_subscription(text: &str) -> (r: bool)
    ensures
        r == confirms(text@),
{
    let type_field = json_type_field(text);
    is_subscribed_type(&type_field)
}

/// Holds in the phases in which frames are read.
pub open spec fn is_live(p: Phase) -> bool {
    p == Phase::AwaitingAuthConfirmation || p == Phase::Streaming
}

/// Holds in the phases after which nothing more happens.
pub open spec fn is_terminal(p: Phase) -> bool {
    p == Phase::Closed || p == Phase::Errored
}

/// The phase and action that follow `event` in phase `p`.
pub open spec fn next_step(p: Phase, event: SessionEvent) -> (Phase, SessionAction) {
    if is_terminal(p) {
        (p, SessionAction::Finish)
    } else {
        match event {
            SessionEvent::Failed(e) => (Phase::Errored, SessionAction::Fail(e)),
            SessionEvent::StreamEnded => (Phase::Closed, SessionAction::Finish),
            SessionEvent::Connected => if p == Phase::Connecting {
                (p, SessionAction::SendLogin)
            } else {
                (p, SessionAction::ReadNext)
            },
            SessionEvent::LoginSent => (
                if p == Phase::Connecting {
                    Phase::AwaitingAuthConfirmation
                } else {
                    p
                },
                SessionAction::ReadNext,
            ),
            SessionEvent::PongSent => (p, SessionAction::ReportHeartbeat),
            SessionEvent::Received(f) => match f {
                Frame::Text(t) => if confirms(t@) {
                    (Phase::Streaming, SessionAction::ReportConfirmation)
                } else {
                    (p, SessionAction::ReadNext)
                },
                Frame::Ping(b) => (p, SessionAction::SendPong(b)),
                Frame::Close => (Phase::Closed, SessionAction::Finish),
                _ => (p, SessionAction::ReadNext),
            },
        }
    }
}

/// A ping read while frames are being read is answered by exactly one pong
/// with the same payload, and nothing is read before that pong is sent; the
/// phase is kept throughout.
pub proof fn lemma_heartbeat_echo(p: Phase, payload: Vec<u8>)
    requires
        is_live(p),
    ensures
        next_step(p, SessionEvent::Received(Frame::Ping(payload))) == (
        p,
        SessionAction::SendPong(payload),
        ),
        next_step(p, SessionEvent::PongSent) == (p, SessionAction::ReportHeartbeat),
{
}

/// A text frame that is not JSON, or has no `type` member, or any `type` but
/// `subscribed`, records no latency and does not end the attempt: the next
/// frame is handled exactly as if that text frame had never come.
pub proof fn lemma_unconfirming_text_ignored(p: Phase, text: String, next: SessionEvent)
    requires
        is_live(p),
        json_type_of(text@) != Some(subscribed()),
    ensures
        next_step(p, SessionEvent::Received(Frame::Text(text))) == (p, SessionAction::ReadNext),
        next_step(next_step(p, SessionEvent::Received(Frame::Text(text))).0, next) == next_step(
            p,
            next,
        ),
{
}

/// A transport failure ends an attempt that has not ended yet, and hands
/// the error back.
pub proof fn lemma_failure_ends_attempt(p: Phase, e: TransportError)
    requires
        !is_terminal(p),
    ensures
        next_step(p, SessionEvent::Failed(e)) == (Phase::Errored, SessionAction::Fail(e)),
{
}

/// The state of one session attempt.
pub struct Session {
    phase: Phase,
}

impl Session {
    /// The phase the attempt is in.
    pub closed spec fn view_phase(&self) -> Phase {
        self.phase
    }

    /// A new attempt, about to connect.
    pub fn new() -> (r: Session)
        ensures
            r.view_phase() == Phase::Connecting,
    {
        Session { phase: Phase::Connecting }
    }

    /// The phase the attempt is in.
    pub fn phase(&self) -> (r: Phase)
        ensures
            r == self.view_phase(),
    {
        self.phase
    }

    /// Takes one event and says what to do next.
    pub fn handle(&mut self, event: SessionEvent) -> (r: SessionAction)
        ensures
            (final(self).view_phase(), r) == next_step(old(self).view_phase(), event),
    {
        let p = self.phase;
        if p == Phase::Closed || p == Phase::Errored {
            return SessionAction::Finish;
        }
        match event {
            SessionEvent::Failed(e) => {
                self.phase = Phase::Errored;
                SessionAction::Fail(e)
            },
            SessionEvent::StreamEnded => {
                self.phase = Phase::Closed;
                SessionAction::Finish
            },
            SessionEvent::Connected => {
                if p == Phase::Connecting {
                    SessionAction::SendLogin
                } else {
                    SessionAction::ReadNext
                }
            },
            SessionEvent::LoginSent => {
                if p == Phase::Connecting {
                    self.phase = Phase::AwaitingAuthConfirmation;
                }
                SessionAction::ReadNext
            },
            SessionEvent::PongSent => SessionAction::ReportHeartbeat,
            SessionEvent::Received(f) => match f {
                Frame::Text(t) => {
                    if confirms_subscription(t.as_str()) {
                        self.phase = Phase::Streaming;
                        SessionAction::ReportConfirmation
                    } else {
                        SessionAction::ReadNext
                    }
                },
                Frame::Ping(b) => SessionAction::SendPong(b),
                Frame::Close => {
                    self.phase = Phase::Closed;
                    SessionAction::Finish
                },
                Frame::Binary(_) => SessionAction::ReadNext,
                Frame::Pong(_) => SessionAction::ReadNext,
            },
        }
    }
}

} // verus!
