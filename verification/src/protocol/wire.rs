//! Frames: a 32-bit little-endian length, then that many bytes of payload.
//!
//! A frame that declares more than [`MAX_FRAME_BYTES`], is cut short or carries trailing bytes is
//! refused, so a stream can be taken apart frame by frame in one way only.
use vstd::prelude::*;

use crate::text::{decimal, decimal_string};

verus! {

broadcast use vstd::string::group_string_axioms;

/// Upper bound for the payload of one frame (16 MiB).
pub const MAX_FRAME_BYTES: usize = 16777216;

/// Length of the prefix that declares the payload's length.
pub const PREFIX_BYTES: usize = 4;

/// The four bytes of `n`, the lowest first.
pub open spec fn le_bytes(n: int) -> Seq<u8> {
    seq![
        (n % 256) as u8,
        (n / 256 % 256) as u8,
        (n / 65536 % 256) as u8,
        (n / 16777216 % 256) as u8,
    ]
}

/// The number whose lowest byte comes first.
pub open spec fn le_value(bytes: Seq<u8>) -> int {
    bytes[0] + 256 * bytes[1] + 65536 * bytes[2] + 16777216 * bytes[3]
}

/// The frame of a payload.
pub open spec fn frame_of(body: Seq<u8>) -> Seq<u8> {
    le_bytes(body.len() as int) + body
}

/// Errors from framing a message.
#[derive(Debug, Clone, PartialEq, Eq)]
pub enum WireError {
    /// Frame is shorter than the 4-byte length prefix.
    MissingLengthPrefix,
    /// Declared payload length exceeds the cap.
    FrameTooLarge { declared: usize, max: usize },
    /// Frame length does not match the declared payload length.
    LengthMismatch { declared: usize, actual: usize },
    /// The message could not be turned into a payload, with the serializer's words.
    Serialize(String),
    /// The payload is no message, with the parser's words.
    Deserialize(String),
}

/// The sentence that reports a framing error.
pub open spec fn wire_error_text(error: WireError) -> Seq<char> {
    match error {
        WireError::MissingLengthPrefix => "frame shorter than the 4-byte length prefix"@,
        WireError::FrameTooLarge { declared, max } => "declared payload length "@ + decimal(
            declared as nat,
        ) + " exceeds cap "@ + decimal(max as nat),
        WireError::LengthMismatch { declared, actual } => "frame length "@ + decimal(actual as nat)
            + " does not match declared payload length "@ + decimal(declared as nat),
        WireError::Serialize(reason) => "failed to serialize message body: "@ + reason@,
        WireError::Deserialize(reason) => "failed to deserialize message body: "@ + reason@,
    }
}

impl WireError {
    /// The sentence that reports the error.
    pub fn to_string(&self) -> (text: String)
        ensures
            text@ == wire_error_text(*self),
    {
        let mut text: String;
        match self {
            WireError::MissingLengthPrefix => {
                text = "frame shorter than the 4-byte length prefix".to_owned();
            },
            WireError::FrameTooLarge { declared, max } => {
                text = "declared payload length ".to_owned();
                text.append(decimal_string(*declared as u64).as_str());
                text.append(" exceeds cap ");
                text.append(decimal_string(*max as u64).as_str());
            },
            WireError::LengthMismatch { declared, actual } => {
                text = "frame length ".to_owned();
                text.append(decimal_string(*actual as u64).as_str());
                text.append(" does not match declared payload length ");
                text.append(decimal_string(*declared as u64).as_str());
            },
            WireError::Serialize(reason) => {
                text = "failed to serialize message body: ".to_owned();
                text.append(reason.as_str());
            },
            WireError::Deserialize(reason) => {
                text = "failed to deserialize message body: ".to_owned();
                text.append(reason.as_str());
            },
        }
        text
    }
}

/// A message on its way into or out of a frame.
#[derive(Debug)]
pub struct WireMessage<T> {
    inner: T,
}

impl<T> WireMessage<T> {
    /// The message.
    pub closed spec fn content(self) -> T {
        self.inner
    }

    /// Wraps a message.
    pub fn new(inner: T) -> (message: Self)
        ensures
            message.content() == inner,
    {
        WireMessage { inner }
    }

    /// Unwraps the message.
    pub fn into_inner(self) -> (inner: T)
        ensures
            inner == self.content(),
    {
        self.inner
    }
}

impl WireMessage<Vec<u8>> {
    /// The frame of a serialized message. Refuses a payload over [`MAX_FRAME_BYTES`].
    pub fn encode(&self) -> (frame: Result<Vec<u8>, WireError>)
        ensures
            match frame {
                Ok(frame) => self.content()@.len() <= MAX_FRAME_BYTES && frame@ == frame_of(
                    self.content()@,
                ),
                Err(error) => self.content()@.len() > MAX_FRAME_BYTES && error == (
                WireError::FrameTooLarge {
                    declared: self.content()@.len() as usize,
                    max: MAX_FRAME_BYTES,
                }),
            },
    {
        let len: usize = self.inner.len();
        if len > MAX_FRAME_BYTES {
            return Err(WireError::FrameTooLarge { declared: len, max: MAX_FRAME_BYTES });
        }
        let mut frame: Vec<u8> = Vec::with_capacity(PREFIX_BYTES + len);
        frame.push((len % 256) as u8);
        frame.push((len / 256 % 256) as u8);
        frame.push((len / 65536 % 256) as u8);
        frame.push((len / 16777216 % 256) as u8);
        assert(frame@ =~= le_bytes(len as int));
        let mut i: usize = 0;
        while i < len
            invariant
                i <= len == self.inner@.len(),
                frame@ == le_bytes(len as int) + self.inner@.take(i as int),
            decreases len - i,
        {
            frame.push(self.inner[i]);
            assert(self.inner@.take(i + 1) =~= self.inner@.take(i as int).push(
                self.inner@[i as int],
            ));
            i += 1;
        }
        assert(self.inner@.take(i as int) =~= self.inner@);
        Ok(frame)
    }

    /// The payload of exactly one frame. The declared length is checked against the cap before
    /// it is checked against the bytes that are there.
    pub fn decode(frame: &[u8]) -> (message: Result<Self, WireError>)
        ensures
            match message {
                Ok(message) => frame@.len() >= PREFIX_BYTES && le_value(frame@)
                    <= MAX_FRAME_BYTES && frame@.len() - PREFIX_BYTES == le_value(frame@)
                    && message.content()@ == frame@.skip(PREFIX_BYTES as int),
                Err(error) => decode_fault(frame@, error),
            },
    {
        if frame.len() < PREFIX_BYTES {
            return Err(WireError::MissingLengthPrefix);
        }
        let declared: usize = match declared_length([frame[0], frame[1], frame[2], frame[3]]) {
            Ok(n) => n,
            Err(error) => {
                return Err(error);
            },
        };
        let actual: usize = frame.len() - PREFIX_BYTES;
        if actual != declared {
            return Err(WireError::LengthMismatch { declared, actual });
        }
        let mut body: Vec<u8> = Vec::with_capacity(declared);
        let mut i: usize = PREFIX_BYTES;
        while i < frame.len()
            invariant
                PREFIX_BYTES <= i <= frame@.len(),
                body@ == frame@.subrange(PREFIX_BYTES as int, i as int),
            decreases frame@.len() - i,
        {
            body.push(frame[i]);
            i += 1;
        }
        assert(body@ =~= frame@.skip(PREFIX_BYTES as int));
        Ok(WireMessage { inner: body })
    }
}

/// Why a frame is refused.
pub open spec fn decode_fault(frame: Seq<u8>, error: WireError) -> bool {
    if frame.len() < PREFIX_BYTES {
        error == WireError::MissingLengthPrefix
    } else if le_value(frame) > MAX_FRAME_BYTES {
        error == (WireError::FrameTooLarge {
            declared: le_value(frame) as usize,
            max: MAX_FRAME_BYTES,
        })
    } else {
        &&& frame.len() - PREFIX_BYTES != le_value(frame)
        &&& error == (WireError::LengthMismatch {
            declared: le_value(frame) as usize,
            actual: (frame.len() - PREFIX_BYTES) as usize,
        })
    }
}

/// The payload length that a prefix declares, which is how many bytes a reader goes on to read.
pub fn declared_length(prefix: [u8; 4]) -> (len: Result<usize, WireError>)
    ensures
        match len {
            Ok(len) => len == le_value(prefix@) && len <= MAX_FRAME_BYTES,
            Err(error) => le_value(prefix@) > MAX_FRAME_BYTES && error == (
            WireError::FrameTooLarge {
                declared: le_value(prefix@) as usize,
                max: MAX_FRAME_BYTES,
            }),
        },
{
    let declared: u32 = prefix[0] as u32 + 256 * (prefix[1] as u32) + 65536 * (prefix[2] as u32)
        + 16777216 * (prefix[3] as u32);
    if declared as usize > MAX_FRAME_BYTES {
        return Err(
            WireError::FrameTooLarge { declared: declared as usize, max: MAX_FRAME_BYTES },
        );
    }
    Ok(declared as usize)
}

/// A frame that is being read off a stream: first its prefix, and then, once the length that the
/// prefix declares is found to be within the cap, its payload.
#[derive(Debug)]
pub struct FrameReader {
    declared: Option<usize>,
}

impl FrameReader {
    /// The length of the payload, once the prefix has been read.
    pub closed spec fn expects(self) -> Option<usize> {
        self.declared
    }

    /// A frame of which nothing has been read.
    pub fn new() -> (reader: Self)
        ensures
            reader.expects() is None,
    {
        FrameReader { declared: None }
    }

    /// How many bytes to read next.
    pub fn wanted(&self) -> (len: usize)
        ensures
            len == match self.expects() {
                None => PREFIX_BYTES,
                Some(len) => len,
            },
    {
        match self.declared {
            None => PREFIX_BYTES,
            Some(len) => len,
        }
    }

    /// Takes the bytes that were wanted; returns the payload once it is there.
    pub fn take(&mut self, bytes: Vec<u8>) -> (body: Result<Option<Vec<u8>>, WireError>)
        requires
            bytes@.len() == match old(self).expects() {
                None => PREFIX_BYTES,
                Some(len) => len,
            },
        ensures
            match old(self).expects() {
                None => match body {
                    Ok(None) => le_value(bytes@) <= MAX_FRAME_BYTES && final(self).expects()
                        == Some(le_value(bytes@) as usize),
                    Ok(Some(_)) => false,
                    Err(error) => *final(self) == *old(self) && le_value(bytes@) > MAX_FRAME_BYTES
                        && error == (WireError::FrameTooLarge {
                        declared: le_value(bytes@) as usize,
                        max: MAX_FRAME_BYTES,
                    }),
                },
                Some(_) => body == Ok::<_, WireError>(Some(bytes)) && final(self).expects() is None,
            },
    {
        match self.declared {
            None => {
                let declared: usize = match declared_length(
                    [bytes[0], bytes[1], bytes[2], bytes[3]],
                ) {
                    Ok(len) => len,
                    Err(error) => {
                        return Err(error);
                    },
                };
                self.declared = Some(declared);
                Ok(None)
            },
            Some(_) => {
                self.declared = None;
                Ok(Some(bytes))
            },
        }
    }
}

/// The prefix of a payload within the cap declares the payload's length.
proof fn prefix_reads_back(n: int)
    requires
        0 <= n <= u32::MAX,
    ensures
        le_value(le_bytes(n)) == n,
        le_bytes(n).len() == 4,
{
    let a = n / 256;
    let b = n / 65536;
    let c = n / 16777216;
    assert(a / 256 == b && b / 256 == c);
    assert(n == 256 * a + n % 256);
    assert(a == 256 * b + a % 256);
    assert(b == 256 * c + b % 256);
    assert(0 <= c < 256);
}

/// What went into a frame comes out of it, read as a whole or its prefix first.
pub proof fn frame_reads_back(body: Seq<u8>)
    requires
        body.len() <= MAX_FRAME_BYTES,
    ensures
        frame_of(body).len() == PREFIX_BYTES + body.len(),
        le_value(frame_of(body)) == body.len(),
        le_value(frame_of(body).take(PREFIX_BYTES as int)) == body.len(),
        frame_of(body).skip(PREFIX_BYTES as int) == body,
{
    prefix_reads_back(body.len() as int);
    assert(frame_of(body).skip(4) =~= body);
}

/// A stream of frames comes apart in one way only: if two payloads within the cap, each followed
/// by more bytes, make the same stream, they are the same payload and the same bytes follow.
pub proof fn frames_come_apart(a: Seq<u8>, rest_a: Seq<u8>, b: Seq<u8>, rest_b: Seq<u8>)
    requires
        a.len() <= MAX_FRAME_BYTES,
        b.len() <= MAX_FRAME_BYTES,
        frame_of(a) + rest_a == frame_of(b) + rest_b,
    ensures
        a == b,
        rest_a == rest_b,
{
    frame_reads_back(a);
    frame_reads_back(b);
    let stream = frame_of(a) + rest_a;
    assert(forall|i: int| 0 <= i < 4 ==> stream[i] == frame_of(a)[i]);
    assert(forall|i: int| 0 <= i < 4 ==> (frame_of(b) + rest_b)[i] == frame_of(b)[i]);
    assert(le_value(stream) == a.len() && le_value(stream) == b.len());
    assert(stream.subrange(4, 4 + a.len() as int) =~= a);
    assert((frame_of(b) + rest_b).subrange(4, 4 + b.len() as int) =~= b);
    assert(stream.skip(4 + a.len() as int) =~= rest_a);
    assert((frame_of(b) + rest_b).skip(4 + b.len() as int) =~= rest_b);
}

} // verus!
