//! Length-prefixed framing: a 4-byte little-endian length, then the body.
//!
//! Both directions of the relay socket and of the browser's native-messaging
//! pipes use this framing. The body is JSON text; the framing itself does not
//! look into it.

use vstd::prelude::*;
use crate::json::Json;
use crate::json::JsonValue;
use crate::json::json_of_text;
use crate::json::parse_json;
use crate::text::append_bytes;
use crate::text::decimal;
use crate::text::decimal_digits;

verus! {

/// Largest body, in bytes, that a frame may carry.
pub const MAX_MESSAGE_LEN: u32 = 1_048_576;

/// Number of bytes in a frame's length header.
pub const HEADER_LEN: usize = 4;

/// Why a frame could not be written or read.
#[derive(Debug, Clone, Copy, PartialEq, Eq, Structural)]
pub enum WireError {
    /// The input ends before the four bytes of the length.
    LengthUnreadable,
    /// The body is longer than [`MAX_MESSAGE_LEN`].
    MessageTooLarge { len: u32 },
    /// The input ends before the declared number of body bytes.
    BodyUnreadable,
    /// The body is not JSON text.
    MalformedJson,
}

impl WireError {
    /// The text of the error, as it is reported.
    pub open spec fn message_text(self) -> Seq<char> {
        match self {
            WireError::LengthUnreadable => "Failed to read message length"@,
            WireError::MessageTooLarge { len } => "Message too large: "@ + decimal_digits(
                len as nat,
            ) + " bytes"@,
            WireError::BodyUnreadable => "Failed to read message body"@,
            WireError::MalformedJson => "Failed to parse message JSON"@,
        }
    }

    /// The text of the error, as it is reported.
    pub fn message(&self) -> (text: String)
        ensures
            text@ == self.message_text(),
    {
        match self {
            WireError::LengthUnreadable => String::from_str("Failed to read message length"),
            WireError::MessageTooLarge { len } => {
                let mut text = String::from_str("Message too large: ");
                let digits = decimal(*len as u64);
                text.append(digits.as_str());
                text.append(" bytes");
                text
            },
            WireError::BodyUnreadable => String::from_str("Failed to read message body"),
            WireError::MalformedJson => String::from_str("Failed to parse message JSON"),
        }
    }
}

/// The four header bytes that declare the length `len`, least significant first.
pub open spec fn le_bytes(len: u32) -> Seq<u8> {
    seq![
        (len % 0x100) as u8,
        (len / 0x100 % 0x100) as u8,
        (len / 0x1_0000 % 0x100) as u8,
        (len / 0x100_0000) as u8,
    ]
}

/// The length that a 4-byte little-endian header declares.
pub open spec fn header_value(header: Seq<u8>) -> int
    recommends
        header.len() == 4,
{
    header[0] as int + header[1] as int * 0x100 + header[2] as int * 0x1_0000 + header[3] as int
        * 0x100_0000
}

/// The frame that carries `body`: its length header, then the body itself.
pub open spec fn frame(body: Seq<u8>) -> Seq<u8>
    recommends
        body.len() <= MAX_MESSAGE_LEN,
{
    le_bytes(body.len() as u32) + body
}

/// What framing `body` gives: the frame, or the refusal of a body that is
/// longer than [`MAX_MESSAGE_LEN`]. The refusal names the length, or the
/// largest length that a header can declare where the body is longer still.
pub open spec fn framed(body: Seq<u8>) -> Result<Seq<u8>, WireError> {
    if body.len() <= MAX_MESSAGE_LEN {
        Ok(frame(body))
    } else {
        Err(
            WireError::MessageTooLarge {
                len: if body.len() <= u32::MAX {
                    body.len() as u32
                } else {
                    u32::MAX
                },
            },
        )
    }
}

/// What reading one frame from the front of `input` gives: the body and the
/// number of bytes that the frame takes up, or the reason there is none.
///
/// The declared length is judged before the body is looked at, so an
/// oversized declaration is `MessageTooLarge` however few bytes follow it.
pub open spec fn first_frame(input: Seq<u8>) -> Result<(Seq<u8>, int), WireError> {
    if input.len() < 4 {
        Err(WireError::LengthUnreadable)
    } else {
        let len = header_value(input.subrange(0, 4));
        if len > MAX_MESSAGE_LEN {
            Err(WireError::MessageTooLarge { len: len as u32 })
        } else if input.len() < 4 + len {
            Err(WireError::BodyUnreadable)
        } else {
            Ok((input.subrange(4, 4 + len), 4 + len))
        }
    }
}

/// The header bytes for a body of `len` bytes.
pub fn length_header(len: u32) -> (header: [u8; 4])
    ensures
        header@ == le_bytes(len),
{
    let header = [
        (len % 0x100) as u8,
        (len / 0x100 % 0x100) as u8,
        (len / 0x1_0000 % 0x100) as u8,
        (len / 0x100_0000) as u8,
    ];
    assert(header@ =~= le_bytes(len));
    header
}

/// Reads the declared length out of a header.
pub fn declared_len(header: &[u8; 4]) -> (len: u32)
    ensures
        len as int == header_value(header@),
{
    let b0: u32 = header[0] as u32;
    let b1: u32 = header[1] as u32;
    let b2: u32 = header[2] as u32;
    let b3: u32 = header[3] as u32;
    b0 + b1 * 0x100 + b2 * 0x1_0000 + b3 * 0x100_0000
}

/// Judges a header on its own, before any byte of the body is read: the body
/// length if it is within [`MAX_MESSAGE_LEN`], else `MessageTooLarge`.
pub fn check_header(header: &[u8; 4]) -> (body_len: Result<usize, WireError>)
    ensures
        header_value(header@) <= MAX_MESSAGE_LEN ==> body_len == Ok::<usize, WireError>(
            header_value(header@) as usize,
        ),
        header_value(header@) > MAX_MESSAGE_LEN ==> body_len == Err::<usize, WireError>(
            WireError::MessageTooLarge { len: header_value(header@) as u32 },
        ),
{
    let len = declared_len(header);
    if len > MAX_MESSAGE_LEN {
        Err(WireError::MessageTooLarge { len })
    } else {
        Ok(len as usize)
    }
}

/// Frames `body`. A body longer than [`MAX_MESSAGE_LEN`] is not framed.
pub fn encode_frame(body: &[u8]) -> (result: Result<Vec<u8>, WireError>)
    ensures
        match result {
            Ok(bytes) => framed(body@) == Ok::<Seq<u8>, WireError>(bytes@),
            Err(e) => framed(body@) == Err::<Seq<u8>, WireError>(e),
        },
{
    if body.len() > MAX_MESSAGE_LEN as usize {
        let len: u32 = if body.len() <= u32::MAX as usize {
            body.len() as u32
        } else {
            u32::MAX
        };
        return Err(WireError::MessageTooLarge { len });
    }
    let header = length_header(body.len() as u32);
    let mut bytes: Vec<u8> = Vec::new();
    append_bytes(&mut bytes, header.as_slice());
    append_bytes(&mut bytes, body);
    Ok(bytes)
}

/// Splits the first frame off `input`: its body and the number of bytes it
/// takes up.
pub fn split_frame(input: &[u8]) -> (first: Result<(&[u8], usize), WireError>)
    ensures
        match first {
            Ok((body, used)) => first_frame(input@) == Ok::<(Seq<u8>, int), WireError>(
                (body@, used as int),
            ),
            Err(e) => first_frame(input@) == Err::<(Seq<u8>, int), WireError>(e),
        },
{
    if input.len() < 4 {
        return Err(WireError::LengthUnreadable);
    }
    let header: [u8; 4] = [input[0], input[1], input[2], input[3]];
    assert(header@ =~= input@.subrange(0, 4));
    match check_header(&header) {
        Err(e) => Err(e),
        Ok(len) => {
            if input.len() - 4 < len {
                Err(WireError::BodyUnreadable)
            } else {
                let body = vstd::slice::slice_subrange(input, 4, 4 + len);
                Ok((body, 4 + len))
            }
        },
    }
}

/// What [`read_nm_message`] gives on `input`: the first frame's body as a JSON
/// value with the number of bytes the frame takes up, or the reason for none.
pub open spec fn first_message(input: Seq<u8>) -> Result<(JsonValue, int), WireError> {
    match first_frame(input) {
        Err(e) => Err(e),
        Ok((body, used)) => match json_of_text(body) {
            None => Err(WireError::MalformedJson),
            Some(value) => Ok((value, used)),
        },
    }
}

/// Reads one message from the front of `input`: the JSON value of the first
/// frame's body and the number of bytes the frame takes up.
pub fn read_nm_message(input: &[u8]) -> (message: Result<(Json, usize), WireError>)
    ensures
        match message {
            Ok((value, used)) => first_message(input@) == Ok::<(JsonValue, int), WireError>(
                (value@, used as int),
            ),
            Err(e) => first_message(input@) == Err::<(JsonValue, int), WireError>(e),
        },
{
    match split_frame(input) {
        Err(e) => Err(e),
        Ok((body, used)) => match parse_json(body) {
            None => Err(WireError::MalformedJson),
            Some(value) => Ok((value, used)),
        },
    }
}

/// Appends to `out` the frame that carries `body`. Where the body is longer
/// than [`MAX_MESSAGE_LEN`], `out` is left as it was.
pub fn write_nm_message(out: &mut Vec<u8>, body: &[u8]) -> (written: Result<(), WireError>)
    ensures
        match framed(body@) {
            Ok(bytes) => written is Ok && final(out)@ == old(out)@ + bytes,
            Err(e) => written == Err::<(), WireError>(e) && final(out)@ == old(out)@,
        },
{
    match encode_frame(body) {
        Err(e) => Err(e),
        Ok(bytes) => {
            append_bytes(out, bytes.as_slice());
            Ok(())
        },
    }
}

/// A header declares the length it was written for.
pub proof fn lemma_header_round_trip(len: u32)
    ensures
        le_bytes(len).len() == 4,
        header_value(le_bytes(len)) == len,
{
}

/// Reading back what was framed gives the body again, whatever follows the
/// frame in the input.
pub proof fn lemma_frame_round_trip(body: Seq<u8>, rest: Seq<u8>)
    requires
        body.len() <= MAX_MESSAGE_LEN,
    ensures
        first_frame(frame(body) + rest) == Ok::<(Seq<u8>, int), WireError>(
            (body, 4 + body.len() as int),
        ),
{
    let input = frame(body) + rest;
    lemma_header_round_trip(body.len() as u32);
    assert(input.subrange(0, 4) =~= le_bytes(body.len() as u32));
    assert(input.subrange(4, 4 + body.len() as int) =~= body);
}

/// A header that declares more than [`MAX_MESSAGE_LEN`] is refused as too
/// large, whatever follows it and however little of it there is.
pub proof fn lemma_oversized_refused(header: Seq<u8>, rest: Seq<u8>)
    requires
        header.len() == 4,
        header_value(header) > MAX_MESSAGE_LEN,
    ensures
        first_frame(header + rest) == Err::<(Seq<u8>, int), WireError>(
            WireError::MessageTooLarge { len: header_value(header) as u32 },
        ),
{
    assert((header + rest).subrange(0, 4) =~= header);
}

} // verus!
