//! Frames.
use worddrop::protocol::wire::{
    declared_length, FrameReader, WireError, WireMessage, MAX_FRAME_BYTES,
};

/// The JSON of a small message.
fn sample() -> Vec<u8> {
    let mut object = serde_json::Map::new();
    object.insert("id".to_string(), serde_json::Value::from(7));
    object.insert("body".to_string(), serde_json::Value::from("correct-horse-battery"));
    serde_json::to_vec(&object).expect("serializes")
}

fn declared_len(frame: &[u8]) -> u32 {
    u32::from_le_bytes(frame[..4].try_into().expect("frame has a 4-byte prefix"))
}

#[test]
fn encode_decode_roundtrip() {
    let frame = WireMessage::new(sample()).encode().expect("frame encodes");
    assert_eq!(declared_len(&frame) as usize, frame.len() - 4);
    let decoded = WireMessage::<Vec<u8>>::decode(&frame).expect("frame decodes").into_inner();
    assert_eq!(decoded, sample());
}

#[test]
fn decode_rejects_declared_length_over_cap() {
    let frame = (MAX_FRAME_BYTES as u32 + 1).to_le_bytes().to_vec();
    let err = WireMessage::<Vec<u8>>::decode(&frame).unwrap_err();
    assert!(matches!(
        err,
        WireError::FrameTooLarge { declared, max }
            if declared == MAX_FRAME_BYTES + 1 && max == MAX_FRAME_BYTES
    ));
}

#[test]
fn decode_rejects_short_frame() {
    let err = WireMessage::<Vec<u8>>::decode(&[0u8; 2]).unwrap_err();
    assert!(matches!(err, WireError::MissingLengthPrefix));
}

#[test]
fn decode_rejects_length_mismatch() {
    let mut frame = 10u32.to_le_bytes().to_vec();
    frame.extend_from_slice(b"abc");
    let err = WireMessage::<Vec<u8>>::decode(&frame).unwrap_err();
    assert!(matches!(err, WireError::LengthMismatch { declared: 10, actual: 3 }));
}

#[test]
fn decode_rejects_trailing_bytes() {
    let mut frame = WireMessage::new(sample()).encode().expect("frame encodes");
    frame.push(0);
    let err = WireMessage::<Vec<u8>>::decode(&frame).unwrap_err();
    assert!(matches!(err, WireError::LengthMismatch { declared: _, actual: _ }));
}

#[test]
fn decode_rejects_garbage_json() {
    let mut frame = 5u32.to_le_bytes().to_vec();
    frame.extend_from_slice(b"hello");
    let body = WireMessage::<Vec<u8>>::decode(&frame).expect("the frame is sound").into_inner();
    let err = serde_json::from_slice::<serde_json::Value>(&body)
        .map_err(|e| WireError::Deserialize(e.to_string()))
        .unwrap_err();
    assert!(matches!(err, WireError::Deserialize(_)));
    assert!(err.to_string().starts_with("failed to deserialize message body: "));
}

#[test]
fn encode_rejects_payload_over_cap() {
    let big = serde_json::to_vec(&vec![0u8; MAX_FRAME_BYTES + 1]).expect("serializes");
    let err = WireMessage::new(big).encode().unwrap_err();
    assert!(matches!(err, WireError::FrameTooLarge { .. }));
}

#[test]
fn a_payload_at_the_cap_is_framed() {
    let frame = WireMessage::new(vec![1u8; MAX_FRAME_BYTES]).encode().expect("at the cap");
    assert_eq!(frame.len(), MAX_FRAME_BYTES + 4);
    let body = WireMessage::<Vec<u8>>::decode(&frame).expect("decodes").into_inner();
    assert_eq!(body.len(), MAX_FRAME_BYTES);
}

#[test]
fn the_prefix_is_little_endian() {
    let frame = WireMessage::new(vec![9u8; 258]).encode().expect("encodes");
    assert_eq!(&frame[..5], &[2, 1, 0, 0, 9]);
    assert_eq!(declared_length([2, 1, 0, 0]), Ok(258));
    assert!(matches!(
        declared_length([1, 0, 0, 1]),
        Err(WireError::FrameTooLarge { declared: 16777217, max: 16777216 })
    ));
}

#[test]
fn an_empty_payload_is_a_frame() {
    let frame = WireMessage::new(Vec::new()).encode().expect("encodes");
    assert_eq!(frame, vec![0, 0, 0, 0]);
    assert_eq!(
        WireMessage::<Vec<u8>>::decode(&frame).expect("decodes").into_inner(),
        Vec::<u8>::new()
    );
}

#[test]
fn frame_errors_read_as_sentences() {
    assert_eq!(
        WireError::MissingLengthPrefix.to_string(),
        "frame shorter than the 4-byte length prefix"
    );
    assert_eq!(
        WireError::LengthMismatch { declared: 10, actual: 3 }.to_string(),
        "frame length 3 does not match declared payload length 10"
    );
    assert_eq!(
        WireError::FrameTooLarge { declared: 5, max: 4 }.to_string(),
        "declared payload length 5 exceeds cap 4"
    );
    assert_eq!(
        WireError::Serialize("x".to_string()).to_string(),
        "failed to serialize message body: x"
    );
}

#[test]
fn a_frame_is_read_prefix_first() {
    let frame = WireMessage::new(sample()).encode().expect("encodes");
    let mut reader = FrameReader::new();
    assert_eq!(reader.wanted(), 4);
    assert_eq!(reader.take(frame[..4].to_vec()), Ok(None));
    assert_eq!(reader.wanted(), frame.len() - 4);
    assert_eq!(reader.take(frame[4..].to_vec()), Ok(Some(sample())));
    assert_eq!(reader.wanted(), 4, "the next frame starts with its prefix");

    assert_eq!(reader.take(vec![0, 0, 0, 0]), Ok(None));
    assert_eq!(reader.wanted(), 0);
    assert_eq!(reader.take(Vec::new()), Ok(Some(Vec::new())));
}

#[test]
fn nothing_is_read_on_the_word_of_a_prefix_over_the_cap() {
    let mut reader = FrameReader::new();
    assert_eq!(
        reader.take(vec![1, 0, 0, 1]),
        Err(WireError::FrameTooLarge { declared: 16777217, max: 16777216 })
    );
    assert_eq!(reader.wanted(), 4);
    assert_eq!(reader.take(vec![0, 0, 0, 1]), Ok(None));
    assert_eq!(reader.wanted(), MAX_FRAME_BYTES);
}
