//! The connection session: handshake and the two unidirectional paths.
//!
//! A session moves `Connecting -> Handshaking -> Established -> Closed`.
//! On connect the client writes a fixed magic token and a length-prefixed
//! supported-version range (neither is field-stream encoded); the server
//! answers with one hello frame; the client then sends the start-of-API
//! request and is established. A handshake failure is fatal to the whole
//! session: no retry happens at this layer.
//!
//! Once established, a reader owns the receive half of the socket and a
//! writer owns the send half, so no lock guards either. The surrounding
//! program runs those two loops and the blocking I/O; the decisions they
//! take per frame and per request live here, as do the ordering laws: the
//! wire image of queued requests is their frames in submission order, and a
//! buffered inbound transcript yields its messages in wire order, stopping
//! for good at the first undecodable frame.

use vstd::prelude::*;

use crate::error::Error;
use crate::frame::encode_frame;
use crate::frame::spec_frame;
use crate::frame::spec_take_frame;
use crate::frame::take_frame;
use crate::message::Hello;
use crate::message::Message;
use crate::message::MessageV;
use crate::message::decode_hello;
use crate::message::decode_message;
use crate::message::spec_decode_hello_frame;
use crate::message::spec_decode_message_frame;
use crate::num::lemma_dec_i64_len;
use crate::num::lemma_dec_u64_len;
use crate::request::Request;
use crate::request::RequestV;
use crate::request::request_wf;
use crate::request::spec_write_request;
use crate::request::to_bytes;

verus! {

/// The magic token that opens the transport handshake.
pub open spec fn spec_magic() -> Seq<u8> {
    seq![65u8, 80u8, 73u8, 0u8]
}

/// The supported-version range, as its wire text.
pub open spec fn spec_version_range() -> Seq<u8> {
    seq![118u8, 49u8, 48u8, 48u8, 46u8, 46u8, 49u8, 53u8, 49u8]
}

/// The whole client greeting: the magic token, then the version range with
/// its own 4-byte length prefix.
pub open spec fn spec_greeting() -> Seq<u8> {
    spec_magic() + spec_frame(spec_version_range())
}

/// The client greeting, `API` and a NUL, then the framed `v100..151`.
pub fn client_greeting() -> (r: Vec<u8>)
    ensures
        r@ == spec_greeting(),
{
    let mut v: Vec<u8> = Vec::new();
    v.push(65);
    v.push(80);
    v.push(73);
    v.push(0);
    let mut range: Vec<u8> = Vec::new();
    range.push(118);
    range.push(49);
    range.push(48);
    range.push(48);
    range.push(46);
    range.push(46);
    range.push(49);
    range.push(53);
    range.push(49);
    assert(range@ =~= spec_version_range());
    let framed = encode_frame(&range);
    let mut i: usize = 0;
    while i < framed.len()
        invariant
            0 <= i <= framed@.len(),
            framed@ == spec_frame(spec_version_range()),
            v@ == spec_magic() + framed@.take(i as int),
        decreases framed@.len() - i,
    {
        v.push(framed[i]);
        assert(v@ =~= spec_magic() + framed@.take(i as int + 1));
        i = i + 1;
    }
    assert(v@ =~= spec_greeting());
    v
}

/// Wraps one request in its frame.
///
/// Returns the frame exactly when the encoded body's length fits the 4-byte
/// prefix; a larger request cannot be framed.
pub fn frame_request(r: &Request) -> (out: Option<Vec<u8>>)
    requires
        request_wf(r@),
    ensures
        match out {
            Option::Some(v) => spec_write_request(r@).len() <= u32::MAX && v@ == spec_frame(
                spec_write_request(r@),
            ),
            Option::None => spec_write_request(r@).len() > u32::MAX,
        },
{
    let body = to_bytes(r);
    if (body.len() as u64) <= (u32::MAX as u64) {
        Option::Some(encode_frame(&body))
    } else {
        Option::None
    }
}

/// The start-of-API request this client sends right after the hello: the
/// caller-chosen client id, with no optional capabilities.
pub open spec fn spec_start_api(client_id: i32) -> Seq<u8> {
    spec_write_request(
        RequestV::StartApi { client_id, optional_capabilities: Seq::empty() },
    )
}

/// A start-of-API request always fits one frame.
pub proof fn lemma_start_api_fits(client_id: i32)
    ensures
        spec_start_api(client_id).len() <= 100,
{
    lemma_dec_u64_len(71u64);
    lemma_dec_u64_len(2u64);
    lemma_dec_i64_len(client_id as i64);
    assert(vstd::utf8::encode_utf8(Seq::<char>::empty()) =~= Seq::<u8>::empty());
}

/// Where a session stands.
#[derive(Clone, Copy, Debug, PartialEq, Eq, Structural)]
pub enum SessionState {
    /// The transport is being opened; nothing has been written yet.
    Connecting,
    /// The greeting is out; the server's hello frame is awaited.
    Handshaking,
    /// The hello was read and the start-of-API request produced; the reader
    /// and writer paths may run.
    Established,
    /// A path ended or the handshake failed; no recovery is attempted.
    Closed,
}

/// The session state machine. It owns no socket: the surrounding program
/// performs the I/O and feeds each received frame body in; the machine
/// decides what each one means and which bytes to send.
pub struct Session {
    /// Where the session stands.
    pub state: SessionState,
    /// The server's hello, once the handshake has read it.
    pub server: Option<Hello>,
}

impl Session {
    /// A fresh session, not yet connected.
    pub fn new() -> (s: Session)
        ensures
            s.state == SessionState::Connecting,
            s.server is None,
    {
        Session { state: SessionState::Connecting, server: Option::None }
    }

    /// The transport is open: hands back the greeting bytes to write and
    /// awaits the hello.
    pub fn on_connected(&mut self) -> (r: Vec<u8>)
        requires
            old(self).state == SessionState::Connecting,
        ensures
            final(self).state == SessionState::Handshaking,
            final(self).server == old(self).server,
            r@ == spec_greeting(),
    {
        self.state = SessionState::Handshaking;
        client_greeting()
    }

    /// The server's hello frame arrived: decodes it, stores the server's
    /// identity, and hands back the framed start-of-API request to write.
    /// The session is established exactly when the hello decodes; any
    /// failure closes it for good.
    pub fn on_hello_frame(&mut self, body: Vec<u8>, client_id: i32) -> (r: Result<Vec<u8>, Error>)
        requires
            old(self).state == SessionState::Handshaking,
        ensures
            match spec_decode_hello_frame(body@) {
                Option::Some(h) => r matches Ok(v) && v@ == spec_frame(spec_start_api(client_id))
                    && final(self).state == SessionState::Established && (final(self).server
                    matches Some(x) && x@ == h),
                Option::None => (r matches Err(e) && e is Handshake) && final(self).state
                    == SessionState::Closed,
            },
    {
        match decode_hello(body) {
            Err(_) => {
                self.state = SessionState::Closed;
                Err(Error::Handshake { detail: String::from_str("the hello frame did not decode") })
            },
            Ok(h) => {
                self.server = Option::Some(h);
                self.state = SessionState::Established;
                let req = Request::StartApi {
                    client_id,
                    optional_capabilities: String::new(),
                };
                proof {
                    lemma_start_api_fits(client_id);
                }
                match frame_request(&req) {
                    Option::Some(v) => Ok(v),
                    Option::None => {
                        proof {
                            assert(false);
                        }
                        Err(Error::Handshake { detail: String::new() })
                    },
                }
            },
        }
    }

    /// One frame body arrived on the reader path: decodes it. An unknown
    /// tag still succeeds, as the fallback message; any other failure closes
    /// the session — the protocol cannot be resynchronized.
    pub fn on_frame(&mut self, body: Vec<u8>) -> (r: Result<Message, Error>)
        requires
            old(self).state == SessionState::Established,
        ensures
            final(self).server == old(self).server,
            match spec_decode_message_frame(body@) {
                Option::Some(m) => r matches Ok(x) && x@ == m && final(self).state
                    == SessionState::Established,
                Option::None => r is Err && final(self).state == SessionState::Closed,
            },
    {
        match decode_message(body) {
            Ok(m) => Ok(m),
            Err(e) => {
                self.state = SessionState::Closed;
                Err(e)
            },
        }
    }

    /// Either path met a transport failure: the session is closed for good.
    pub fn on_transport_error(&mut self)
        ensures
            final(self).state == SessionState::Closed,
            final(self).server == old(self).server,
    {
        self.state = SessionState::Closed;
    }
}

/// The wire image of a request queue: each request's frame, in submission
/// order.
pub open spec fn spec_wire_of(reqs: Seq<RequestV>) -> Seq<u8>
    decreases reqs.len(),
{
    if reqs.len() == 0 {
        Seq::empty()
    } else {
        spec_frame(spec_write_request(reqs[0])) + spec_wire_of(reqs.drop_first())
    }
}

/// The wire image of two queues back to back is the two images back to back.
pub proof fn lemma_wire_of_concat(a: Seq<RequestV>, b: Seq<RequestV>)
    ensures
        spec_wire_of(a + b) == spec_wire_of(a) + spec_wire_of(b),
    decreases a.len(),
{
    if a.len() == 0 {
        assert(a + b =~= b);
        assert(spec_wire_of(a) + spec_wire_of(b) =~= spec_wire_of(b));
    } else {
        assert((a + b)[0] == a[0]);
        assert((a + b).drop_first() =~= a.drop_first() + b);
        lemma_wire_of_concat(a.drop_first(), b);
        assert(spec_frame(spec_write_request(a[0])) + (spec_wire_of(a.drop_first())
            + spec_wire_of(b)) =~= (spec_frame(spec_write_request(a[0])) + spec_wire_of(
            a.drop_first(),
        )) + spec_wire_of(b));
    }
}

/// Outbound ordering: in the wire image of a queue, everything written for
/// the requests before position `i` precedes request `i`'s frame, which
/// precedes everything written for the requests after it. No request is
/// reordered, duplicated or dropped.
pub proof fn lemma_outbound_order(reqs: Seq<RequestV>, i: int)
    requires
        0 <= i < reqs.len(),
    ensures
        spec_wire_of(reqs) == spec_wire_of(reqs.take(i)) + spec_frame(spec_write_request(reqs[i]))
            + spec_wire_of(reqs.skip(i + 1)),
{
    let mid = seq![reqs[i]] + reqs.skip(i + 1);
    assert(reqs =~= reqs.take(i) + mid);
    lemma_wire_of_concat(reqs.take(i), mid);
    assert(mid[0] == reqs[i]);
    assert(mid.drop_first() =~= reqs.skip(i + 1));
    assert(spec_wire_of(mid) == spec_frame(spec_write_request(reqs[i])) + spec_wire_of(
        reqs.skip(i + 1),
    ));
    assert(spec_wire_of(reqs.take(i)) + (spec_frame(spec_write_request(reqs[i])) + spec_wire_of(
        reqs.skip(i + 1),
    )) =~= (spec_wire_of(reqs.take(i)) + spec_frame(spec_write_request(reqs[i]))) + spec_wire_of(
        reqs.skip(i + 1),
    ));
}

/// Frames a whole queue of requests, in submission order: exactly the
/// writer path's output for that queue. Fails only when some request's body
/// cannot fit one frame.
pub fn encode_request_queue(reqs: &Vec<Request>) -> (out: Option<Vec<u8>>)
    requires
        forall|i: int| 0 <= i < reqs@.len() ==> request_wf((#[trigger] reqs@[i])@),
    ensures
        match out {
            Option::Some(v) => v@ == spec_wire_of(reqs@.map_values(|r: Request| r@)),
            Option::None => exists|i: int|
                0 <= i < reqs@.len() && spec_write_request((#[trigger] reqs@[i])@).len()
                    > u32::MAX,
        },
{
    let ghost views = reqs@.map_values(|r: Request| r@);
    let mut acc: Vec<u8> = Vec::new();
    let mut i: usize = 0;
    assert(views.take(0) =~= Seq::<RequestV>::empty());
    while i < reqs.len()
        invariant
            0 <= i <= reqs@.len(),
            views == reqs@.map_values(|r: Request| r@),
            views.len() == reqs@.len(),
            forall|j: int| 0 <= j < reqs@.len() ==> request_wf((#[trigger] reqs@[j])@),
            acc@ == spec_wire_of(views.take(i as int)),
        decreases reqs@.len() - i,
    {
        let framed = match frame_request(&reqs[i]) {
            Option::Some(v) => v,
            Option::None => {
                return Option::None;
            },
        };
        let mut k: usize = 0;
        while k < framed.len()
            invariant
                0 <= k <= framed@.len(),
                acc@ == spec_wire_of(views.take(i as int)) + framed@.take(k as int),
            decreases framed@.len() - k,
        {
            acc.push(framed[k]);
            assert(acc@ =~= spec_wire_of(views.take(i as int)) + framed@.take(k as int + 1));
            k = k + 1;
        }
        proof {
            assert(framed@.take(framed@.len() as int) =~= framed@);
            lemma_wire_of_concat(views.take(i as int), seq![views[i as int]]);
            assert(views.take(i as int) + seq![views[i as int]] =~= views.take(i as int + 1));
            assert(seq![views[i as int]].drop_first() =~= Seq::<RequestV>::empty());
            assert(spec_wire_of(Seq::<RequestV>::empty()) =~= Seq::<u8>::empty());
            assert(spec_wire_of(seq![views[i as int]]) =~= spec_frame(
                spec_write_request(views[i as int]),
            ));
            assert(acc@ =~= spec_wire_of(views.take(i as int + 1)));
        }
        i = i + 1;
    }
    assert(views.take(reqs@.len() as int) =~= views);
    Option::Some(acc)
}

/// The wire image of a message sequence: each message's frame, in order
/// (what a well-behaved server writes).
pub open spec fn spec_frames_of(msgs: Seq<MessageV>) -> Seq<u8>
    decreases msgs.len(),
{
    if msgs.len() == 0 {
        Seq::empty()
    } else {
        spec_frame(crate::message::spec_write_message(msgs[0])) + spec_frames_of(msgs.drop_first())
    }
}

/// Whether a message can be framed and delivered intact: well-formed, not
/// the fallback, shaped to survive a round trip, and small enough for one
/// frame's length prefix.
pub open spec fn deliverable(m: MessageV) -> bool {
    &&& crate::message::message_wf(m)
    &&& !(m is UnknownMessage)
    &&& crate::message::message_rt_form(m)
    &&& crate::message::spec_write_message(m).len() <= u32::MAX
}

/// End-to-end inbound delivery: the reader path turns the wire image of any
/// sequence of deliverable messages into exactly those messages, in wire
/// order, ending cleanly — none duplicated, dropped or reordered.
pub proof fn lemma_inbound_delivery(msgs: Seq<MessageV>)
    requires
        forall|i: int| 0 <= i < msgs.len() ==> deliverable(#[trigger] msgs[i]),
    ensures
        spec_inbound(spec_frames_of(msgs)) == (msgs, true),
    decreases msgs.len(),
{
    if msgs.len() == 0 {
        assert(spec_inbound(spec_frames_of(msgs)).0 =~= msgs);
    } else {
        let body = crate::message::spec_write_message(msgs[0]);
        let rest = spec_frames_of(msgs.drop_first());
        assert(spec_frames_of(msgs) =~= spec_frame(body) + rest);
        assert(deliverable(msgs[0]));
        crate::frame::lemma_frame_round_trip(body, rest);
        crate::message::lemma_message_round_trip(msgs[0]);
        assert(forall|i: int|
            0 <= i < msgs.drop_first().len() ==> deliverable(#[trigger] msgs.drop_first()[i])) by {
            assert(forall|i: int|
                0 <= i < msgs.drop_first().len() ==> msgs.drop_first()[i] == msgs[i + 1]);
        }
        lemma_inbound_delivery(msgs.drop_first());
        assert((spec_frame(body) + rest).len() > 0);
        assert(spec_inbound(spec_frames_of(msgs)).0 =~= seq![msgs[0]] + msgs.drop_first());
        assert(seq![msgs[0]] + msgs.drop_first() =~= msgs);
    }
}

/// What the reader path makes of a buffered inbound transcript: the decoded
/// messages in wire order, and whether the stream ended cleanly between
/// messages (`true`) or the reader had to stop at an undecodable or
/// truncated frame (`false`). Nothing after a failure is ever delivered.
pub open spec fn spec_inbound(s: Seq<u8>) -> (Seq<MessageV>, bool)
    decreases s.len(),
{
    if s.len() == 0 {
        (Seq::empty(), true)
    } else {
        match spec_take_frame(s) {
            Option::None => (Seq::empty(), false),
            Option::Some((body, rest)) => {
                match spec_decode_message_frame(body) {
                    Option::None => (Seq::empty(), false),
                    Option::Some(m) => {
                        let (ms, clean) = spec_inbound(rest);
                        (seq![m] + ms, clean)
                    },
                }
            },
        }
    }
}

/// Runs the reader path's decision over a buffered transcript: decodes
/// frame after frame in order, publishing each message, and stops at the
/// first failure, returning it. A clean end between messages returns no
/// error.
pub fn read_stream(buf: &Vec<u8>) -> (r: (Vec<Message>, Option<Error>))
    ensures
        r.0@.map_values(|m: Message| m@) == spec_inbound(buf@).0,
        r.1 is None <==> spec_inbound(buf@).1,
{
    let mut msgs: Vec<Message> = Vec::new();
    let mut pos: usize = 0;
    assert(msgs@.map_values(|m: Message| m@) =~= Seq::<MessageV>::empty());
    assert(buf@.skip(0) =~= buf@);
    while pos < buf.len()
        invariant
            0 <= pos <= buf@.len(),
            spec_inbound(buf@).0 == msgs@.map_values(|m: Message| m@) + spec_inbound(
                buf@.skip(pos as int),
            ).0,
            spec_inbound(buf@).1 == spec_inbound(buf@.skip(pos as int)).1,
        decreases buf@.len() - pos,
    {
        let ghost cur = buf@.skip(pos as int);
        let ghost acc = msgs@.map_values(|m: Message| m@);
        let (body, next) = match take_frame(buf, pos) {
            Ok(p) => p,
            Err(e) => {
                return (msgs, Option::Some(e));
            },
        };
        let m = match decode_message(body) {
            Ok(m) => m,
            Err(e) => {
                return (msgs, Option::Some(e));
            },
        };
        msgs.push(m);
        pos = next;
        proof {
            let mv = m@;
            assert(msgs@.map_values(|m: Message| m@) =~= acc + seq![mv]);
            let (ms, clean) = spec_inbound(buf@.skip(pos as int));
            assert(spec_inbound(cur).0 =~= seq![mv] + ms);
            assert(acc + (seq![mv] + ms) =~= (acc + seq![mv]) + ms);
        }
    }
    assert(buf@.skip(buf@.len() as int) =~= Seq::<u8>::empty());
    (msgs, Option::None)
}

} // verus!
