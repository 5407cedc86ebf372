//! The two messages of a pairing handshake, with their binary fields in hex.
use vstd::prelude::*;

use crate::pairing::spake::{SpakeError, CONFIRM_TOKEN_LEN, SPAKE_MSG_LEN};
use crate::text::chars_of;

verus! {

broadcast use vstd::string::group_string_axioms;

/// The lower-case hexadecimal digit with value `n`.
pub open spec fn hex_digit(n: int) -> char {
    if n < 10 {
        ('0' as u32 + n) as char
    } else {
        ('a' as u32 + (n - 10)) as char
    }
}

/// The value of a hexadecimal digit of either case.
pub open spec fn hex_digit_value(c: char) -> Option<int> {
    if '0' <= c <= '9' {
        Some(c as u32 - '0' as u32)
    } else if 'a' <= c <= 'f' {
        Some(c as u32 - 'a' as u32 + 10)
    } else if 'A' <= c <= 'F' {
        Some(c as u32 - 'A' as u32 + 10)
    } else {
        None
    }
}

/// Two digits for each byte, the high half first.
pub open spec fn hex_text(bytes: Seq<u8>) -> Seq<char> {
    Seq::new(
        2 * bytes.len(),
        |i: int|
            if i % 2 == 0 {
                hex_digit(bytes[i / 2] as int / 16)
            } else {
                hex_digit(bytes[i / 2] as int % 16)
            },
    )
}

/// Pairs of hexadecimal digits and nothing else.
pub open spec fn is_hex(text: Seq<char>) -> bool {
    &&& text.len() % 2 == 0
    &&& forall|i: int| 0 <= i < text.len() ==> hex_digit_value(#[trigger] text[i]) is Some
}

/// The bytes that pairs of hexadecimal digits denote.
pub open spec fn hex_bytes(text: Seq<char>) -> Seq<u8> {
    Seq::new(
        (text.len() / 2) as nat,
        |i: int|
            (hex_digit_value(text[2 * i])->0 * 16 + hex_digit_value(text[2 * i + 1])->0) as u8,
    )
}

/// A message of the pairing handshake.
#[derive(Debug, Clone, PartialEq, Eq)]
pub enum HandshakeMessage {
    /// First round: the 33-byte message of the key exchange, in hex.
    Spake { msg: String },
    /// Second round: the 16-byte confirmation token, in hex.
    Confirm { token: String },
}

/// What a hex field of `expected` bytes yields.
pub open spec fn field_read(
    text: Seq<char>,
    kind: Seq<char>,
    expected: int,
    out: Result<Seq<u8>, SpakeError>,
) -> bool {
    match out {
        Ok(bytes) => is_hex(text) && bytes == hex_bytes(text) && bytes.len() == expected,
        Err(SpakeError::InvalidHex(value)) => !is_hex(text) && value@ == text,
        Err(SpakeError::BadHandshakeLength { kind: k, expected: e, actual }) => is_hex(text) && k@
            == kind && e == expected && actual == text.len() / 2 && actual != expected,
        Err(_) => false,
    }
}

/// The result with its array taken as a sequence.
pub open spec fn bytes_view<const N: usize>(out: Result<[u8; N], SpakeError>) -> Result<
    Seq<u8>,
    SpakeError,
> {
    match out {
        Ok(bytes) => Ok(bytes@),
        Err(error) => Err(error),
    }
}

impl HandshakeMessage {
    /// A first-round message of exactly 33 bytes.
    pub fn spake(msg: &[u8]) -> (message: Result<Self, SpakeError>)
        ensures
            match message {
                Ok(HandshakeMessage::Spake { msg: text }) => msg@.len() == SPAKE_MSG_LEN && text@
                    == hex_text(msg@),
                Err(SpakeError::BadHandshakeLength { kind, expected, actual }) => msg@.len()
                    != SPAKE_MSG_LEN && kind@ == "spake"@ && expected == SPAKE_MSG_LEN && actual
                    == msg@.len(),
                _ => false,
            },
    {
        if msg.len() != SPAKE_MSG_LEN {
            return Err(
                SpakeError::BadHandshakeLength {
                    kind: "spake",
                    expected: SPAKE_MSG_LEN,
                    actual: msg.len(),
                },
            );
        }
        Ok(HandshakeMessage::Spake { msg: hex_encode(msg) })
    }

    /// A second-round message.
    pub fn confirm(token: [u8; 16]) -> (message: Self)
        ensures
            message matches HandshakeMessage::Confirm { token: text } && text@ == hex_text(token@),
    {
        HandshakeMessage::Confirm { token: hex_encode(token.as_slice()) }
    }

    /// The 33 bytes of a first-round message.
    pub fn into_pake(self) -> (bytes: Result<[u8; 33], SpakeError>)
        ensures
            match self {
                HandshakeMessage::Spake { msg } => field_read(
                    msg@,
                    "spake"@,
                    SPAKE_MSG_LEN as int,
                    bytes_view(bytes),
                ),
                HandshakeMessage::Confirm { .. } => bytes == Err::<[u8; 33], _>(
                    SpakeError::WrongHandshakeKind,
                ),
            },
    {
        match self {
            HandshakeMessage::Spake { msg } => {
                let bytes = hex_decode(msg.as_str())?;
                if bytes.len() != 33 {
                    return Err(
                        SpakeError::BadHandshakeLength {
                            kind: "spake",
                            expected: SPAKE_MSG_LEN,
                            actual: bytes.len(),
                        },
                    );
                }
                let mut out: [u8; 33] = [0u8;33];
                let mut i: usize = 0;
                while i < 33
                    invariant
                        i <= 33,
                        bytes@.len() == 33,
                        forall|j: int| 0 <= j < i ==> out@[j] == bytes@[j],
                    decreases 33 - i,
                {
                    out[i] = bytes[i];
                    i += 1;
                }
                assert(out@ =~= bytes@);
                Ok(out)
            },
            HandshakeMessage::Confirm { .. } => Err(SpakeError::WrongHandshakeKind),
        }
    }

    /// The 16 bytes of a second-round message.
    pub fn into_confirm(self) -> (bytes: Result<[u8; 16], SpakeError>)
        ensures
            match self {
                HandshakeMessage::Confirm { token } => field_read(
                    token@,
                    "confirm"@,
                    CONFIRM_TOKEN_LEN as int,
                    bytes_view(bytes),
                ),
                HandshakeMessage::Spake { .. } => bytes == Err::<[u8; 16], _>(
                    SpakeError::WrongHandshakeKind,
                ),
            },
    {
        match self {
            HandshakeMessage::Confirm { token } => {
                let bytes = hex_decode(token.as_str())?;
                if bytes.len() != 16 {
                    return Err(
                        SpakeError::BadHandshakeLength {
                            kind: "confirm",
                            expected: CONFIRM_TOKEN_LEN,
                            actual: bytes.len(),
                        },
                    );
                }
                let mut out: [u8; 16] = [0u8;16];
                let mut i: usize = 0;
                while i < 16
                    invariant
                        i <= 16,
                        bytes@.len() == 16,
                        forall|j: int| 0 <= j < i ==> out@[j] == bytes@[j],
                    decreases 16 - i,
                {
                    out[i] = bytes[i];
                    i += 1;
                }
                assert(out@ =~= bytes@);
                Ok(out)
            },
            HandshakeMessage::Spake { .. } => Err(SpakeError::WrongHandshakeKind),
        }
    }
}

fn hex_char(n: u8) -> (c: char)
    requires
        n < 16,
    ensures
        c == hex_digit(n as int),
{
    if n < 10 {
        (48 + n) as char
    } else {
        (87 + n) as char
    }
}

/// Two lower-case digits for each byte.
pub fn hex_encode(bytes: &[u8]) -> (text: String)
    ensures
        text@ == hex_text(bytes@),
{
    let mut text = String::new();
    let mut i: usize = 0;
    assert(text@ =~= hex_text(bytes@.take(0)));
    while i < bytes.len()
        invariant
            i <= bytes@.len(),
            text@ == hex_text(bytes@.take(i as int)),
        decreases bytes@.len() - i,
    {
        let byte: u8 = bytes[i];
        text.push(hex_char(byte / 16));
        text.push(hex_char(byte % 16));
        assert(text@ =~= hex_text(bytes@.take(i + 1)));
        i += 1;
    }
    assert(bytes@.take(i as int) =~= bytes@);
    text
}

fn hex_val(c: char) -> (value: Option<u8>)
    ensures
        match value {
            Some(v) => v < 16 && hex_digit_value(c) == Some(v as int),
            None => hex_digit_value(c) is None,
        },
{
    if '0' <= c && c <= '9' {
        Some(c as u8 - 48)
    } else if 'a' <= c && c <= 'f' {
        Some(c as u8 - 87)
    } else if 'A' <= c && c <= 'F' {
        Some(c as u8 - 55)
    } else {
        None
    }
}

/// The bytes that pairs of hexadecimal digits of either case denote.
pub fn hex_decode(hex: &str) -> (bytes: Result<Vec<u8>, SpakeError>)
    ensures
        match bytes {
            Ok(bytes) => is_hex(hex@) && bytes@ == hex_bytes(hex@),
            Err(SpakeError::InvalidHex(value)) => !is_hex(hex@) && value@ == hex@,
            Err(_) => false,
        },
{
    let chars = chars_of(hex);
    if chars.len() % 2 != 0 {
        return Err(SpakeError::InvalidHex(hex.to_owned()));
    }
    let mut out: Vec<u8> = Vec::new();
    let mut i: usize = 0;
    while i < chars.len()
        invariant
            i <= chars@.len(),
            i % 2 == 0,
            chars@.len() % 2 == 0,
            chars@ == hex@,
            forall|j: int| 0 <= j < i ==> hex_digit_value(#[trigger] hex@[j]) is Some,
            out@.len() == i / 2,
            forall|j: int| 0 <= j < i / 2 ==> out@[j] == hex_bytes(hex@)[j],
        decreases chars@.len() - i,
    {
        let hi: u8 = match hex_val(chars[i]) {
            Some(v) => v,
            None => {
                assert(hex_digit_value(hex@[i as int]) is None);
                return Err(SpakeError::InvalidHex(hex.to_owned()));
            },
        };
        let lo: u8 = match hex_val(chars[i + 1]) {
            Some(v) => v,
            None => {
                assert(hex_digit_value(hex@[i + 1]) is None);
                return Err(SpakeError::InvalidHex(hex.to_owned()));
            },
        };
        out.push(hi * 16 + lo);
        i += 2;
    }
    assert(out@ =~= hex_bytes(hex@));
    Ok(out)
}

/// The bytes as an array, if there are 32 of them.
pub(crate) fn array_of_32(bytes: &Vec<u8>) -> (array: Option<[u8; 32]>)
    ensures
        match array {
            Some(array) => bytes@.len() == 32 && array@ == bytes@,
            None => bytes@.len() != 32,
        },
{
    if bytes.len() != 32 {
        return None;
    }
    let mut array: [u8; 32] = [0u8;32];
    let mut i: usize = 0;
    while i < 32
        invariant
            i <= 32,
            bytes@.len() == 32,
            forall|j: int| 0 <= j < i ==> array@[j] == bytes@[j],
        decreases 32 - i,
    {
        array[i] = bytes[i];
        i += 1;
    }
    assert(array@ =~= bytes@);
    Some(array)
}

/// Decoding takes encoding back, for bytes of any length.
pub proof fn hex_reads_back(bytes: Seq<u8>)
    ensures
        is_hex(hex_text(bytes)),
        hex_bytes(hex_text(bytes)) == bytes,
        hex_text(bytes).len() == 2 * bytes.len(),
{
    assert forall|i: int| 0 <= i < 2 * bytes.len() implies hex_digit_value(
        #[trigger] hex_text(bytes)[i],
    ) is Some by {
        let b = bytes[i / 2] as int;
        assert(0 <= b / 16 < 16 && 0 <= b % 16 < 16);
    }
    assert forall|i: int| 0 <= i < bytes.len() implies hex_bytes(hex_text(bytes))[i] == bytes[i] by {
        let b = bytes[i] as int;
        assert((2 * i) / 2 == i && (2 * i) % 2 == 0 && (2 * i + 1) / 2 == i && (2 * i + 1) % 2 == 1);
        assert(hex_digit_value(hex_text(bytes)[2 * i]) == Some(b / 16));
        assert(hex_digit_value(hex_text(bytes)[2 * i + 1]) == Some(b % 16));
    }
    assert(hex_bytes(hex_text(bytes)) =~= bytes);
}

/// A message that went through [`HandshakeMessage::spake`] is read back by
/// [`HandshakeMessage::into_pake`]: whatever the field yields is the bytes that went in.
pub proof fn spake_message_reads_back(msg: Seq<u8>, out: Result<Seq<u8>, SpakeError>)
    requires
        msg.len() == SPAKE_MSG_LEN,
        field_read(hex_text(msg), "spake"@, SPAKE_MSG_LEN as int, out),
    ensures
        out == Ok::<_, SpakeError>(msg),
{
    hex_reads_back(msg);
}

/// A token that went through [`HandshakeMessage::confirm`] is read back by
/// [`HandshakeMessage::into_confirm`].
pub proof fn confirm_message_reads_back(token: Seq<u8>, out: Result<Seq<u8>, SpakeError>)
    requires
        token.len() == CONFIRM_TOKEN_LEN,
        field_read(hex_text(token), "confirm"@, CONFIRM_TOKEN_LEN as int, out),
    ensures
        out == Ok::<_, SpakeError>(token),
{
    hex_reads_back(token);
}

} // verus!
