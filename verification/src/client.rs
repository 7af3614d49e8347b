//! The control-socket client's side of the protocol: correlation ids, line
//! framing, finding the reply among the frames, and reading it.
//!
//! The socket itself is the shell's.

use vstd::prelude::*;

use crate::ipc::{
    DeviceInfo, DoctorCheck, Event, PresetInfo, Request, RequestPayload, Response, ResponsePayload,
    Status, MAX_LINE_BYTES,
};

verus! {

broadcast use vstd::string::group_string_axioms;

/// Default control-socket path.
pub const DEFAULT_SOCKET: &'static str = "/var/run/kanatabar.sock";

// ── Requests ────────────────────────────────────────────────────────────────

/// Hands out the correlation ids of one connection.
#[derive(Debug, Clone, Copy)]
pub struct RequestIds {
    next_id: u64,
}

impl RequestIds {
    /// The id that the next request gets.
    pub closed spec fn next(self) -> u64 {
        self.next_id
    }

    /// A fresh connection: ids count from 1.
    pub fn new() -> (r: Self)
        ensures
            r.next() == 1,
    {
        RequestIds { next_id: 1 }
    }

    /// Whether every id has been handed out.
    pub fn exhausted(&self) -> (r: bool)
        ensures
            r == (self.next() == u64::MAX),
    {
        self.next_id == u64::MAX
    }

    /// The id that the next request will carry.
    pub fn upcoming(&self) -> (r: u64)
        ensures
            r == self.next(),
    {
        self.next_id
    }

    /// The request frame for a payload, with the next id.
    pub fn request(&mut self, payload: RequestPayload) -> (r: Request)
        requires
            old(self).next() < u64::MAX,
        ensures
            r.id == Some(old(self).next()),
            r.payload == payload,
            final(self).next() == old(self).next() + 1,
    {
        let id: u64 = self.next_id;
        self.next_id = id + 1;
        Request::new(Some(id), payload)
    }
}

/// The frame that opens a connection.
pub fn hello() -> (r: RequestPayload)
    ensures
        r == (RequestPayload::Hello { min_v: 1, max_v: 1 }),
{
    RequestPayload::Hello { min_v: 1, max_v: 1 }
}

/// The daemon that speaks this protocol accepts our opening frame.
pub proof fn hello_is_accepted()
    ensures
        crate::ipc::offers(1, 1, crate::PROTOCOL_VERSION),
{
}

/// One line on the wire: the encoded text and a line feed.
pub open spec fn line_of(encoded: Seq<u8>) -> Seq<u8> {
    encoded.push(10)
}

/// One line on the wire: the encoded request and a line feed.
pub fn framed(encoded: Vec<u8>) -> (r: Vec<u8>)
    ensures
        r@ == line_of(encoded@),
{
    let mut r = encoded;
    r.push(10);
    r
}

// ── Reading lines ───────────────────────────────────────────────────────────

/// Why a line cannot be read as a response.
#[derive(Debug, Clone, Copy, PartialEq, Eq, Structural)]
pub enum LineError {
    /// The stream ended.
    Closed,
    /// The line is longer than the protocol allows.
    Oversize,
}

impl LineError {
    /// What to tell the user.
    pub fn describe(self) -> (r: &'static str)
        ensures
            r@ == match self {
                LineError::Closed => "daemon closed the connection"@,
                LineError::Oversize => "daemon sent an oversize line"@,
            },
    {
        match self {
            LineError::Closed => "daemon closed the connection",
            LineError::Oversize => "daemon sent an oversize line",
        }
    }
}

/// Why a line that was read, line feed and all, may not be decoded.
pub open spec fn line_fault(line: Seq<u8>) -> Option<LineError> {
    if line.len() == 0 {
        Some(LineError::Closed)
    } else if line.len() > MAX_LINE_BYTES + 1 {
        Some(LineError::Oversize)
    } else {
        None
    }
}

/// Whether a line that was read, line feed and all, may be decoded. The daemon
/// frames at the same cap; a longer line is a protocol fault.
pub fn check_line(line: &[u8]) -> (r: Result<(), LineError>)
    ensures
        r == (match line_fault(line@) {
            Some(fault) => Err::<(), LineError>(fault),
            None => Ok::<(), LineError>(()),
        }),
{
    let n: usize = line.len();
    if n == 0 {
        Err(LineError::Closed)
    } else if n > MAX_LINE_BYTES + 1 {
        Err(LineError::Oversize)
    } else {
        Ok(())
    }
}

/// A line that was framed from no more than the cap is accepted by the other
/// side, and one framed from more is refused as oversize.
pub proof fn framed_lines_are_accepted_up_to_the_cap(encoded: Seq<u8>)
    ensures
        line_fault(line_of(encoded)) == (if encoded.len() <= MAX_LINE_BYTES {
            None
        } else {
            Some(LineError::Oversize)
        }),
{
}

// ── Events and replies ──────────────────────────────────────────────────────

/// What a response frame is to a client that waits for one reply.
#[derive(Debug, Clone, PartialEq, Eq)]
pub enum Frame {
    /// Pushed after `Subscribe`; waiting for a reply skips it.
    Event(Event),
    /// The reply: it echoes the id of the request that is waited for.
    Reply(ResponsePayload),
    /// A response that echoes another id or none; skipped.
    Other(ResponsePayload),
}

/// The response is the reply to the request with id `awaiting`: it is no event
/// and echoes that id.
pub open spec fn answers(response: Response, awaiting: u64) -> bool {
    !(response.payload is Event) && response.id == Some(awaiting)
}

/// What the response is to a client that waits for the reply to `awaiting`.
pub open spec fn frame_for(response: Response, awaiting: u64) -> Frame {
    match response.payload {
        ResponsePayload::Event(event) => Frame::Event(event),
        payload => if answers(response, awaiting) {
            Frame::Reply(payload)
        } else {
            Frame::Other(payload)
        },
    }
}

/// Correlate a response with the request with id `awaiting`. An event is an
/// event whatever id it carries. An `Error` without an id answers no request in
/// particular: like every other response that echoes no id, it is not the reply.
pub fn frame_of(response: Response, awaiting: u64) -> (r: Frame)
    ensures
        r == frame_for(response, awaiting),
        response.payload is Error && response.id is None ==> r == Frame::Other(response.payload),
{
    let echoed = match response.id {
        Some(id) => id == awaiting,
        None => false,
    };
    match response.payload {
        ResponsePayload::Event(event) => Frame::Event(event),
        payload => if echoed {
            Frame::Reply(payload)
        } else {
            Frame::Other(payload)
        },
    }
}

/// What a client gets that reads the frames in order until one is the reply.
pub open spec fn reply_among(frames: Seq<Response>, awaiting: u64) -> Option<ResponsePayload>
    decreases frames.len(),
{
    if frames.len() == 0 {
        None
    } else {
        match frame_for(frames[0], awaiting) {
            Frame::Reply(payload) => Some(payload),
            _ => reply_among(frames.skip(1), awaiting),
        }
    }
}

/// Of the frames that arrive, the first that is no event and echoes the id of
/// the request is the one returned, whatever arrives before it.
pub proof fn first_matching_frame_is_the_reply(frames: Seq<Response>, awaiting: u64, i: int)
    requires
        0 <= i < frames.len(),
        answers(frames[i], awaiting),
        forall|j: int| 0 <= j < i ==> !answers(#[trigger] frames[j], awaiting),
    ensures
        reply_among(frames, awaiting) == Some(frames[i].payload),
    decreases i,
{
    if i > 0 {
        assert(!answers(frames[0], awaiting));
        let rest = frames.skip(1);
        assert forall|j: int| 0 <= j < i - 1 implies !answers(#[trigger] rest[j], awaiting) by {
            assert(rest[j] == frames[j + 1]);
        }
        first_matching_frame_is_the_reply(rest, awaiting, i - 1);
    }
}

/// As long as no frame matches, the client keeps waiting.
pub proof fn unmatched_frames_are_skipped(frames: Seq<Response>, awaiting: u64)
    requires
        forall|j: int| 0 <= j < frames.len() ==> !answers(#[trigger] frames[j], awaiting),
    ensures
        reply_among(frames, awaiting) is None,
    decreases frames.len(),
{
    if frames.len() > 0 {
        assert(!answers(frames[0], awaiting));
        let rest = frames.skip(1);
        assert forall|j: int| 0 <= j < rest.len() implies !answers(#[trigger] rest[j], awaiting) by {
            assert(rest[j] == frames[j + 1]);
        }
        unmatched_frames_are_skipped(rest, awaiting);
    }
}

/// On one connection, where each request moves the ids on by one, two requests
/// never carry the same id; so no frame is the reply to both.
pub proof fn no_frame_answers_two_requests(
    states: Seq<RequestIds>,
    i: int,
    j: int,
    response: Response,
)
    requires
        0 <= i < j < states.len(),
        forall|k: int|
            0 <= k < states.len() - 1 ==> (#[trigger] states[k + 1]).next() == states[k].next() + 1,
    ensures
        states[j].next() == states[i].next() + (j - i),
        !(answers(response, states[i].next()) && answers(response, states[j].next())),
    decreases j - i,
{
    assert(states[j - 1 + 1] == states[j]);
    assert(states[j].next() == states[j - 1].next() + 1);
    if j - 1 > i {
        no_frame_answers_two_requests(states, i, j - 1, response);
    }
}

/// What a reply answers.
#[derive(Debug, Clone, PartialEq, Eq)]
pub enum Answer<T> {
    /// What was asked for.
    Granted(T),
    /// The daemon rejected the request, with its message.
    Rejected(String),
    /// A reply to something else.
    Unexpected(ResponsePayload),
}

/// The reply to `Hello`.
pub fn hello_answer(payload: ResponsePayload) -> (r: Answer<()>)
    ensures
        r == (match payload {
            ResponsePayload::HelloAck => Answer::Granted(()),
            ResponsePayload::Error { kind: _, message } => Answer::Rejected(message),
            other => Answer::Unexpected(other),
        }),
{
    match payload {
        ResponsePayload::HelloAck => Answer::Granted(()),
        ResponsePayload::Error { kind: _, message } => Answer::Rejected(message),
        other => Answer::Unexpected(other),
    }
}

/// The reply to a command.
pub fn ack_answer(payload: ResponsePayload) -> (r: Answer<()>)
    ensures
        r == (match payload {
            ResponsePayload::Ack => Answer::Granted(()),
            ResponsePayload::Error { kind: _, message } => Answer::Rejected(message),
            other => Answer::Unexpected(other),
        }),
{
    match payload {
        ResponsePayload::Ack => Answer::Granted(()),
        ResponsePayload::Error { kind: _, message } => Answer::Rejected(message),
        other => Answer::Unexpected(other),
    }
}

/// The reply to `GetStatus`.
pub fn status_answer(payload: ResponsePayload) -> (r: Answer<Status>)
    ensures
        r == (match payload {
            ResponsePayload::Status(status) => Answer::Granted(status),
            ResponsePayload::Error { kind: _, message } => Answer::Rejected(message),
            other => Answer::Unexpected(other),
        }),
{
    match payload {
        ResponsePayload::Status(status) => Answer::Granted(status),
        ResponsePayload::Error { kind: _, message } => Answer::Rejected(message),
        other => Answer::Unexpected(other),
    }
}

/// The reply to `ListPresets`.
pub fn presets_answer(payload: ResponsePayload) -> (r: Answer<Vec<PresetInfo>>)
    ensures
        r == (match payload {
            ResponsePayload::Presets { presets } => Answer::Granted(presets),
            ResponsePayload::Error { kind: _, message } => Answer::Rejected(message),
            other => Answer::Unexpected(other),
        }),
{
    match payload {
        ResponsePayload::Presets { presets } => Answer::Granted(presets),
        ResponsePayload::Error { kind: _, message } => Answer::Rejected(message),
        other => Answer::Unexpected(other),
    }
}

/// The reply to `Doctor`.
pub fn doctor_answer(payload: ResponsePayload) -> (r: Answer<Vec<DoctorCheck>>)
    ensures
        r == (match payload {
            ResponsePayload::DoctorReport { checks } => Answer::Granted(checks),
            ResponsePayload::Error { kind: _, message } => Answer::Rejected(message),
            other => Answer::Unexpected(other),
        }),
{
    match payload {
        ResponsePayload::DoctorReport { checks } => Answer::Granted(checks),
        ResponsePayload::Error { kind: _, message } => Answer::Rejected(message),
        other => Answer::Unexpected(other),
    }
}

/// The reply to `GetDevices`.
pub fn devices_answer(payload: ResponsePayload) -> (r: Answer<Vec<DeviceInfo>>)
    ensures
        r == (match payload {
            ResponsePayload::Devices { devices } => Answer::Granted(devices),
            ResponsePayload::Error { kind: _, message } => Answer::Rejected(message),
            other => Answer::Unexpected(other),
        }),
{
    match payload {
        ResponsePayload::Devices { devices } => Answer::Granted(devices),
        ResponsePayload::Error { kind: _, message } => Answer::Rejected(message),
        other => Answer::Unexpected(other),
    }
}

/// A line of up to 64 KiB, its line feed aside, is read; a longer one, and no line
/// at all, is a fault.
pub proof fn lines_are_read_up_to_the_cap(line: Seq<u8>)
    ensures
        line_fault(line) is None <==> 1 <= line.len() <= 65537,
        line_fault(line) == Some(LineError::Closed) <==> line.len() == 0,
        line_fault(line) == Some(LineError::Oversize) <==> line.len() > 65537,
{
}

/// The reply is what the daemon answered to this very request: it carries the id
/// that was sent, and is no event.
pub proof fn replies_carry_the_id(response: Response, awaiting: u64)
    ensures
        frame_for(response, awaiting) is Reply <==> response.id == Some(awaiting)
            && !(response.payload is Event),
        frame_for(response, awaiting) is Event <==> response.payload is Event,
        frame_for(response, awaiting) matches Frame::Reply(payload) ==> payload
            == response.payload,
        frame_for(response, awaiting) matches Frame::Other(payload) ==> payload
            == response.payload,
{
}

// ── Refusals ────────────────────────────────────────────────────────────────

/// The exchanges whose refusal ends a connection.
#[derive(Debug, Clone, Copy, PartialEq, Eq, Structural)]
pub enum Exchange {
    Hello,
    Subscribe,
    GetStatus,
    ListPresets,
}

impl Exchange {
    /// What stands before the daemon's message.
    pub open spec fn prefix(self) -> Seq<char> {
        match self {
            Exchange::Hello => "daemon rejected handshake: "@,
            Exchange::Subscribe => "subscribe rejected: "@,
            Exchange::GetStatus => "GetStatus failed: "@,
            Exchange::ListPresets => "ListPresets failed: "@,
        }
    }

    /// What is reported where the daemon rejected the request.
    pub fn rejected(self, message: &str) -> (r: String)
        ensures
            r@ == self.prefix() + message@,
    {
        let mut r = match self {
            Exchange::Hello => "daemon rejected handshake: ",
            Exchange::Subscribe => "subscribe rejected: ",
            Exchange::GetStatus => "GetStatus failed: ",
            Exchange::ListPresets => "ListPresets failed: ",
        }.to_owned();
        r.append(message);
        r
    }
}

} // verus!
