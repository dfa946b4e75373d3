use tetris_tui::multiplayer::{decode_message, encode_message, MessageType};

#[test]
fn cleared_rows_encodes_as_tagged_decimal() {
    let bytes = encode_message(&MessageType::ClearedRows(2));
    assert_eq!(bytes, b"ClearedRows: 2".to_vec());
    let bytes = encode_message(&MessageType::ClearedRows(0));
    assert_eq!(bytes, b"ClearedRows: 0".to_vec());
    let bytes = encode_message(&MessageType::ClearedRows(1234));
    assert_eq!(bytes, b"ClearedRows: 1234".to_vec());
}

#[test]
fn notification_encodes_as_tagged_text() {
    let bytes = encode_message(&MessageType::Notification(String::from("YOU WIN!")));
    assert_eq!(bytes, b"Notification: YOU WIN!".to_vec());
}

#[test]
fn decode_reads_cleared_rows_back() {
    match decode_message(b"ClearedRows: 42") {
        Some(MessageType::ClearedRows(rows)) => assert_eq!(rows, 42),
        _ => panic!("expected a cleared-rows message"),
    }
}

#[test]
fn decode_reads_notification_back() {
    match decode_message(b"Notification: YOU WIN!") {
        Some(MessageType::Notification(text)) => assert_eq!(text, "YOU WIN!"),
        _ => panic!("expected a notification message"),
    }
}

#[test]
fn encode_then_decode_round_trips() {
    for rows in [0usize, 1, 4, 9, 10, 255, 100000] {
        let bytes = encode_message(&MessageType::ClearedRows(rows));
        match decode_message(&bytes) {
            Some(MessageType::ClearedRows(back)) => assert_eq!(back, rows),
            _ => panic!("round trip lost the message"),
        }
    }
    for text in ["", "YOU WIN!", "line one", "ünïcode"] {
        let bytes = encode_message(&MessageType::Notification(String::from(text)));
        match decode_message(&bytes) {
            Some(MessageType::Notification(back)) => assert_eq!(back, text),
            _ => panic!("round trip lost the message"),
        }
    }
}

#[test]
fn malformed_frames_are_dropped() {
    // Unknown tag.
    assert!(decode_message(b"Hello: 3").is_none());
    assert!(decode_message(b"").is_none());
    // The cleared-rows tag with no digits, or with non-digits.
    assert!(decode_message(b"ClearedRows: ").is_none());
    assert!(decode_message(b"ClearedRows: 3a").is_none());
    assert!(decode_message(b"ClearedRows: -3").is_none());
    // A count too large for the machine.
    assert!(decode_message(b"ClearedRows: 99999999999999999999999999").is_none());
    // A notification whose payload is not UTF-8.
    let mut bad = b"Notification: ".to_vec();
    bad.push(0xff);
    assert!(decode_message(&bad).is_none());
}
