//! The messages that travel over a connection, and the frames that carry
//! them.
//!
//! A frame is a header of four bytes, the length of the body as a
//! little-endian number, followed by the body, which has at most
//! `MAX_BODY_LEN` bytes. What the body holds is up to the application: this
//! module only cuts the byte stream into frames.

use crate::error::{Error, RpcErrorKind};
use vstd::prelude::*;

verus! {

/// `serde_json::Value`, a JSON document. The runtime carries payloads of this
/// type from one place to another and never looks inside one.
#[verifier::external_type_specification]
#[verifier::external_body]
pub struct ExValue(serde_json::Value);

/// `Clone::clone` of `serde_json::Value`, which the crate derives: the copy
/// is the same document as the value it was made from.
pub assume_specification[ <serde_json::Value as Clone>::clone ](
    value: &serde_json::Value,
) -> (copy: serde_json::Value)
    ensures
        copy == *value,
;

/// Whether a call succeeded.
#[derive(Clone, Copy, Debug, PartialEq, Eq, Structural)]
pub enum RpcResultKind {
    Success,
    Failure(RpcErrorKind),
}

/// What a procedure hands back: how the call went, and a payload if it has
/// one.
#[derive(Clone, Debug, PartialEq)]
pub struct RpcResult {
    pub kind: RpcResultKind,
    pub payload: Option<serde_json::Value>,
}

impl RpcResult {
    /// Success without a payload.
    pub fn ok() -> (result: RpcResult)
        ensures
            result == (RpcResult { kind: RpcResultKind::Success, payload: None }),
    {
        RpcResult { kind: RpcResultKind::Success, payload: None }
    }

    /// Failure of the given kind, without a payload.
    pub fn error(kind: RpcErrorKind) -> (result: RpcResult)
        ensures
            result == (RpcResult { kind: RpcResultKind::Failure(kind), payload: None }),
    {
        RpcResult { kind: RpcResultKind::Failure(kind), payload: None }
    }

    /// Whether the call succeeded.
    pub fn is_ok(&self) -> (ok: bool)
        ensures
            ok == (self.kind is Success),
    {
        match self.kind {
            RpcResultKind::Success => true,
            RpcResultKind::Failure(_) => false,
        }
    }
}

/// A request to run the procedure `function`. `context` is the identifier of
/// the call: the response carries the same one.
#[derive(Clone, Debug, PartialEq)]
pub struct RpcCall {
    pub function: String,
    pub context: u64,
    pub args: serde_json::Value,
}

/// The answer to the call that was issued as `context`.
#[derive(Clone, Debug, PartialEq)]
pub struct RpcResponse {
    pub context: u64,
    pub result: RpcResult,
}

/// What travels over a connection, in either direction.
#[derive(Clone, Debug, PartialEq)]
pub enum Message {
    RpcCall(RpcCall),
    RpcResponse(RpcResponse),
    /// A payload for every peer. It belongs to no call.
    Broadcast(serde_json::Value),
}

/// A message as contracts see it: a name is the sequence of its characters.
pub enum MessageView {
    RpcCall { function: Seq<char>, context: u64, args: serde_json::Value },
    RpcResponse { context: u64, result: RpcResult },
    Broadcast(serde_json::Value),
}

impl View for Message {
    type V = MessageView;

    open spec fn view(&self) -> MessageView {
        match *self {
            Message::RpcCall(call) => MessageView::RpcCall {
                function: call.function@,
                context: call.context,
                args: call.args,
            },
            Message::RpcResponse(response) => MessageView::RpcResponse {
                context: response.context,
                result: response.result,
            },
            Message::Broadcast(payload) => MessageView::Broadcast(payload),
        }
    }
}

/// The response that answers the call `context` with `result`.
pub open spec fn response_to(context: u64, result: RpcResult) -> MessageView {
    MessageView::RpcResponse { context, result }
}

impl Message {
    /// The response that answers the call `context` with `result`.
    pub fn response(context: u64, result: RpcResult) -> (message: Message)
        ensures
            message@ == response_to(context, result),
    {
        Message::RpcResponse(RpcResponse { context, result })
    }
}

/// Number of bytes in a frame's header.
pub const HEADER_LEN: usize = 4;

/// The longest body that a frame may carry, in bytes. A header that
/// announces more is taken for garbage, before anything is allocated for it.
pub const MAX_BODY_LEN: u32 = 0x0100_0000;

/// The header of a frame whose body has `len` bytes.
pub open spec fn header_of(len: nat) -> Seq<u8> {
    seq![
        (len % 256) as u8,
        (len / 256 % 256) as u8,
        (len / 65536 % 256) as u8,
        (len / 16777216 % 256) as u8,
    ]
}

/// The body length that the first four bytes of `header` announce.
pub open spec fn announced_len(header: Seq<u8>) -> nat
    recommends
        header.len() >= 4,
{
    (header[0] + 256 * header[1] + 65536 * header[2] + 16777216 * header[3]) as nat
}

/// The frame that carries `body`.
pub open spec fn frame_of(body: Seq<u8>) -> Seq<u8> {
    header_of(body.len()) + body
}

/// Whether `buffer` starts with a header that no frame of this runtime has.
pub open spec fn starts_with_garbage(buffer: Seq<u8>) -> bool {
    buffer.len() >= 4 && announced_len(buffer) > MAX_BODY_LEN
}

/// Whether `buffer` starts with a whole frame.
pub open spec fn starts_with_frame(buffer: Seq<u8>) -> bool {
    buffer.len() >= 4 && announced_len(buffer) <= MAX_BODY_LEN && buffer.len() >= 4
        + announced_len(buffer)
}

/// The body of the frame that `buffer` starts with.
pub open spec fn first_body(buffer: Seq<u8>) -> Seq<u8>
    recommends
        starts_with_frame(buffer),
{
    buffer.subrange(4, 4 + announced_len(buffer) as int)
}

/// Puts `body` into a frame. A body that is longer than a frame may carry is
/// refused.
pub fn frame(body: &Vec<u8>) -> (framed: Result<Vec<u8>, Error>)
    ensures
        body@.len() <= MAX_BODY_LEN ==> framed is Ok && framed->Ok_0@ == frame_of(body@),
        body@.len() > MAX_BODY_LEN ==> framed == Err::<Vec<u8>, Error>(Error::InvalidFrame),
{
    let len: usize = body.len();
    if len > MAX_BODY_LEN as usize {
        return Err(Error::InvalidFrame);
    }
    let mut out: Vec<u8> = Vec::new();
    out.push((len % 256) as u8);
    out.push((len / 256 % 256) as u8);
    out.push((len / 65536 % 256) as u8);
    out.push((len / 16777216 % 256) as u8);
    let mut i: usize = 0;
    while i < len
        invariant
            len == body@.len(),
            i <= len,
            out@ == header_of(len as nat) + body@.take(i as int),
        decreases len - i,
    {
        out.push(body[i]);
        i = i + 1;
    }
    Ok(out)
}

/// Reads a frame's header: the number of bytes in the body that follows it.
/// A header that announces more than a frame may carry is refused.
pub fn body_len(header: &[u8; 4]) -> (len: Result<u32, Error>)
    ensures
        announced_len(header@) <= MAX_BODY_LEN ==> len == Ok::<u32, Error>(
            announced_len(header@) as u32,
        ),
        announced_len(header@) > MAX_BODY_LEN ==> len == Err::<u32, Error>(Error::InvalidFrame),
{
    let b0: u32 = header[0] as u32;
    let b1: u32 = header[1] as u32;
    let b2: u32 = header[2] as u32;
    let b3: u32 = header[3] as u32;
    let announced: u32 = b0 + 256 * b1 + 65536 * b2 + 16777216 * b3;
    if announced > MAX_BODY_LEN {
        Err(Error::InvalidFrame)
    } else {
        Ok(announced)
    }
}

/// Takes one frame from the front of `buffer`: its body, and the number of
/// bytes of `buffer` that the frame covers. `None` while the frame is not yet
/// complete; the bytes behind the frame are not looked at.
pub fn take_frame(buffer: &Vec<u8>) -> (taken: Result<Option<(Vec<u8>, usize)>, Error>)
    ensures
        starts_with_garbage(buffer@) ==> taken == Err::<Option<(Vec<u8>, usize)>, Error>(
            Error::InvalidFrame,
        ),
        starts_with_frame(buffer@) ==> taken is Ok && taken->Ok_0 is Some
            && taken->Ok_0->Some_0.0@ == first_body(buffer@) && taken->Ok_0->Some_0.1 == 4
            + announced_len(buffer@),
        !starts_with_garbage(buffer@) && !starts_with_frame(buffer@) ==> taken == Ok::<
            Option<(Vec<u8>, usize)>,
            Error,
        >(None),
{
    if buffer.len() < 4 {
        return Ok(None);
    }
    let header: [u8; 4] = [buffer[0], buffer[1], buffer[2], buffer[3]];
    let announced: u32 = match body_len(&header) {
        Ok(announced) => announced,
        Err(error) => {
            return Err(error);
        },
    };
    let rest: usize = buffer.len() - 4;
    if rest < announced as usize {
        return Ok(None);
    }
    let end: usize = 4 + announced as usize;
    let mut body: Vec<u8> = Vec::new();
    let mut i: usize = 4;
    while i < end
        invariant
            4 <= i <= end,
            end <= buffer@.len(),
            body@ == buffer@.subrange(4, i as int),
        decreases end - i,
    {
        body.push(buffer[i]);
        i = i + 1;
    }
    Ok(Some((body, end)))
}

/// A frame is read back as it was written, whatever follows it in the
/// buffer: the body comes out unchanged, and exactly the frame's bytes are
/// used up.
pub proof fn lemma_frame_round_trip(body: Seq<u8>, rest: Seq<u8>)
    requires
        body.len() <= MAX_BODY_LEN,
    ensures
        announced_len(header_of(body.len())) == body.len(),
        starts_with_frame(frame_of(body) + rest),
        first_body(frame_of(body) + rest) == body,
        4 + announced_len(frame_of(body) + rest) == frame_of(body).len(),
{
}

/// A buffer that holds less than a whole frame yields nothing, so no frame
/// is ever cut short.
pub proof fn lemma_partial_frame_waits(body: Seq<u8>, cut: int)
    requires
        body.len() <= MAX_BODY_LEN,
        0 <= cut < frame_of(body).len(),
    ensures
        !starts_with_frame(frame_of(body).take(cut)),
        !starts_with_garbage(frame_of(body).take(cut)),
{
}

} // verus!
