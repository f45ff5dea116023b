//! The websocket session protocol: a two-phase message exchange layered
//! over the frame streamer, and the fixed JSON schema its messages use.
//!
//! A session opens with the server's `Init` message; the client answers
//! with an `Ok` message carrying its width and height; the server then
//! streams one `Ok` message per tick whose `frame` field carries the
//! rendered escape text. An `Error` message from either side, or a message
//! outside the schema, closes the session. The schema is the four-field
//! object `{code, width?, height?, frame?}` with absent fields omitted on
//! the wire.
//!
//! The library builds and checks the wire bytes itself; the transport only
//! carries them.

use vstd::prelude::*;

verus! {

/// Status code of a schema message.
#[derive(Clone, Copy, Debug, PartialEq, Eq, Structural)]
pub enum StatusCode {
    /// Session opening: the server asks for the client's size.
    Init,
    /// Normal traffic: the client announces its size, or the server
    /// carries a frame.
    Okay,
    /// Failure: the sending side aborts the session.
    Error,
}

/// The numeric code a status carries on the wire.
pub open spec fn code_of(s: StatusCode) -> u8 {
    match s {
        StatusCode::Init => 0,
        StatusCode::Okay => 1,
        StatusCode::Error => 2,
    }
}

impl StatusCode {
    /// Numeric wire code of this status.
    pub fn code(self) -> (r: u8)
        ensures
            r == code_of(self),
    {
        match self {
            StatusCode::Init => 0,
            StatusCode::Okay => 1,
            StatusCode::Error => 2,
        }
    }

    /// Parse a numeric wire code; a code outside the schema yields nothing.
    pub fn from_code(code: u8) -> (r: Option<StatusCode>)
        ensures
            r is Some <==> code <= 2,
            r is Some ==> code_of(r->Some_0) == code,
    {
        if code == 0 {
            Some(StatusCode::Init)
        } else if code == 1 {
            Some(StatusCode::Okay)
        } else if code == 2 {
            Some(StatusCode::Error)
        } else {
            None
        }
    }
}

/// One message of the schema: the status code and the three optional
/// payload fields. The rendered frame text travels as bytes; absent fields
/// are omitted on the wire.
pub struct MessageFrame {
    pub code: StatusCode,
    pub width: Option<u16>,
    pub height: Option<u16>,
    pub frame: Option<Vec<u8>>,
}

/// Build a schema message from decoded wire fields. A code outside the
/// schema fails to parse as a message and is a protocol error: the caller
/// terminates the session.
pub fn message_from_parts(
    code: u8,
    width: Option<u16>,
    height: Option<u16>,
    frame: Option<Vec<u8>>,
) -> (r: Option<MessageFrame>)
    ensures
        r is Some <==> code <= 2,
        r is Some ==> {
            &&& code_of(r->Some_0.code) == code
            &&& r->Some_0.width == width
            &&& r->Some_0.height == height
            &&& r->Some_0.frame == frame
        },
{
    match StatusCode::from_code(code) {
        Some(status) => Some(MessageFrame { code: status, width, height, frame }),
        None => None,
    }
}

/// States of one websocket session, in the order a session passes them.
#[derive(Clone, Copy, Debug, PartialEq, Eq, Structural)]
pub enum SessionState {
    /// The server sent its `Init` message and waits for the client's size.
    Init,
    /// The size is known; the server streams one frame per tick.
    Streaming { width: u16, height: u16 },
    /// Terminal: a side closed, failed, or broke the schema.
    Closed,
}

/// What the transport does after a protocol step.
#[derive(Clone, Copy, Debug, PartialEq, Eq, Structural)]
pub enum SessionAction {
    /// Nothing: the message was ignored.
    Ignore,
    /// Begin the fixed-rate frame loop for the announced size.
    StartStreaming { width: u16, height: u16 },
    /// Tear the session down.
    Abort,
}

/// The protocol's transition function. Waiting for a size, an `Ok` message
/// carrying both width and height starts streaming; an `Ok` message missing
/// either, like an `Error` message, closes the session; an `Init` message is
/// ignored. While streaming, only an `Error` message changes anything: the
/// session closes. A closed session ignores everything.
pub open spec fn spec_session_step(
    state: SessionState,
    code: StatusCode,
    width: Option<u16>,
    height: Option<u16>,
) -> (SessionState, SessionAction) {
    match state {
        SessionState::Init => match code {
            StatusCode::Okay => if width is Some && height is Some {
                (
                    SessionState::Streaming { width: width->0, height: height->0 },
                    SessionAction::StartStreaming { width: width->0, height: height->0 },
                )
            } else {
                (SessionState::Closed, SessionAction::Abort)
            },
            StatusCode::Error => (SessionState::Closed, SessionAction::Abort),
            StatusCode::Init => (SessionState::Init, SessionAction::Ignore),
        },
        SessionState::Streaming { .. } => match code {
            StatusCode::Error => (SessionState::Closed, SessionAction::Abort),
            _ => (state, SessionAction::Ignore),
        },
        SessionState::Closed => (SessionState::Closed, SessionAction::Ignore),
    }
}

/// Apply one inbound message to the session: the returned state replaces
/// the current one and the action tells the transport what to do.
pub fn session_step(state: SessionState, msg: &MessageFrame) -> (r: (SessionState, SessionAction))
    ensures
        r == spec_session_step(state, msg.code, msg.width, msg.height),
{
    match state {
        SessionState::Init => match msg.code {
            StatusCode::Okay => match (msg.width, msg.height) {
                (Some(w), Some(h)) => (
                    SessionState::Streaming { width: w, height: h },
                    SessionAction::StartStreaming { width: w, height: h },
                ),
                _ => (SessionState::Closed, SessionAction::Abort),
            },
            StatusCode::Error => (SessionState::Closed, SessionAction::Abort),
            StatusCode::Init => (SessionState::Init, SessionAction::Ignore),
        },
        SessionState::Streaming { width, height } => match msg.code {
            StatusCode::Error => (SessionState::Closed, SessionAction::Abort),
            _ => (SessionState::Streaming { width, height }, SessionAction::Ignore),
        },
        SessionState::Closed => (SessionState::Closed, SessionAction::Ignore),
    }
}

/// A session only ever moves forward: once closed it stays closed, and no
/// step leads back to the opening state.
pub proof fn lemma_session_no_reopen(
    state: SessionState,
    code: StatusCode,
    width: Option<u16>,
    height: Option<u16>,
)
    ensures
        state is Closed ==> spec_session_step(state, code, width, height).0 is Closed,
        state !is Init ==> !(spec_session_step(state, code, width, height).0 is Init),
{
}

/// Hexadecimal digit of a value below sixteen, lowercase.
pub open spec fn hex_digit(d: int) -> u8 {
    if d < 10 {
        (48 + d) as u8
    } else {
        (87 + d) as u8
    }
}

/// A byte of frame text inside a JSON string: quote and backslash get a
/// backslash escape, a control byte becomes a `\u00..` escape, everything
/// else stands as itself.
pub open spec fn json_escaped_byte(c: u8) -> Seq<u8> {
    if c == 34 {
        seq![92u8, 34u8]
    } else if c == 92 {
        seq![92u8, 92u8]
    } else if c < 32 {
        seq![92u8, 117u8, 48u8, 48u8, hex_digit(c as int / 16), hex_digit(c as int % 16)]
    } else {
        seq![c]
    }
}

/// Frame text escaped for a JSON string, byte by byte.
pub open spec fn json_escaped(s: Seq<u8>) -> Seq<u8>
    decreases s.len(),
{
    if s.len() == 0 {
        Seq::empty()
    } else {
        json_escaped(s.drop_last()) + json_escaped_byte(s.last())
    }
}

/// The wire bytes of the server's opening message: `{"code":0}`.
pub open spec fn init_message_bytes() -> Seq<u8> {
    seq![123u8, 34u8, 99u8, 111u8, 100u8, 101u8, 34u8, 58u8, 48u8, 125u8]
}

/// The wire bytes of one streamed frame: `{"code":1,"frame":"` then the
/// escaped frame text, then the closing quote and brace. Width and height
/// are omitted on outbound frames.
pub open spec fn frame_message_bytes(frame: Seq<u8>) -> Seq<u8> {
    seq![
        123u8, 34u8, 99u8, 111u8, 100u8, 101u8, 34u8, 58u8, 49u8, 44u8, 34u8, 102u8, 114u8,
        97u8, 109u8, 101u8, 34u8, 58u8, 34u8,
    ] + json_escaped(frame) + seq![34u8, 125u8]
}

/// Emit the opening message.
pub fn init_message_json() -> (r: Vec<u8>)
    ensures
        r@ == init_message_bytes(),
{
    let mut r: Vec<u8> = Vec::new();
    r.push(123);
    r.push(34);
    r.push(99);
    r.push(111);
    r.push(100);
    r.push(101);
    r.push(34);
    r.push(58);
    r.push(48);
    r.push(125);
    proof {
        assert(r@ =~= init_message_bytes());
    }
    r
}

/// Hexadecimal digit, as executable code.
fn hex_digit_exec(d: u8) -> (r: u8)
    requires
        d < 16,
    ensures
        r == hex_digit(d as int),
{
    if d < 10 {
        48 + d
    } else {
        87 + d
    }
}

/// Emit one streamed frame as its wire message, escaping the frame text
/// into the JSON string field.
pub fn frame_message_json(frame: &Vec<u8>) -> (r: Vec<u8>)
    ensures
        r@ == frame_message_bytes(frame@),
{
    let mut r: Vec<u8> = Vec::new();
    r.push(123);
    r.push(34);
    r.push(99);
    r.push(111);
    r.push(100);
    r.push(101);
    r.push(34);
    r.push(58);
    r.push(49);
    r.push(44);
    r.push(34);
    r.push(102);
    r.push(114);
    r.push(97);
    r.push(109);
    r.push(101);
    r.push(34);
    r.push(58);
    r.push(34);
    let ghost prefix: Seq<u8> = r@;
    let mut i: usize = 0;
    proof {
        assert(frame@.take(0) =~= Seq::<u8>::empty());
        assert(r@ =~= prefix + json_escaped(frame@.take(0)));
    }
    while i < frame.len()
        invariant
            i <= frame@.len(),
            r@ == prefix + json_escaped(frame@.take(i as int)),
        decreases frame@.len() - i,
    {
        let c: u8 = frame[i];
        if c == 34 {
            r.push(92);
            r.push(34);
        } else if c == 92 {
            r.push(92);
            r.push(92);
        } else if c < 32 {
            r.push(92);
            r.push(117);
            r.push(48);
            r.push(48);
            r.push(hex_digit_exec(c / 16));
            r.push(hex_digit_exec(c % 16));
        } else {
            r.push(c);
        }
        proof {
            assert(frame@.take(i + 1).drop_last() =~= frame@.take(i as int));
            assert(frame@.take(i + 1).last() == c);
            assert(r@ =~= prefix + json_escaped(frame@.take(i + 1)));
        }
        i = i + 1;
    }
    proof {
        assert(frame@.take(frame@.len() as int) =~= frame@);
    }
    r.push(34);
    r.push(125);
    proof {
        assert(r@ =~= frame_message_bytes(frame@));
    }
    r
}

} // verus!
