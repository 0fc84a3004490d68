use scratchpad::error::ToggleError;
use scratchpad::socket::{
    format_message, query_socket, socket_path, Reply, SOCKET_TIMEOUT_SECS,
};

fn split_frame(frame: &[u8]) -> Vec<Vec<u8>> {
    let mut pieces: Vec<Vec<u8>> = Vec::new();
    let mut piece: Vec<u8> = Vec::new();
    for byte in &frame[4..] {
        if *byte == 0 {
            pieces.push(piece);
            piece = Vec::new();
        } else {
            piece.push(*byte);
        }
    }
    pieces.pop();
    pieces
}

#[test]
fn frames_a_query_byte_for_byte() {
    let frame = format_message(&["query", "--windows"]);
    let mut expected: Vec<u8> = vec![17, 0, 0, 0];
    expected.extend_from_slice(b"query\0--windows\0\0");
    assert_eq!(frame, expected);
}

#[test]
fn frames_an_empty_message() {
    let none: [&str; 0] = [];
    assert_eq!(format_message(&none), vec![1u8, 0, 0, 0, 0]);
}

#[test]
fn frame_ends_in_two_zero_bytes() {
    let frame = format_message(&["window", "--focus", "42"]);
    assert_eq!(&frame[frame.len() - 2..], &[0u8, 0u8]);
    assert_eq!(&frame[1..4], &[0u8, 0u8, 0u8]);
    assert_eq!(frame[0] as usize, frame.len() - 4);
}

#[test]
fn short_frame_splits_back_into_its_tokens() {
    let tokens = ["window", "17", "--move", "abs:100:200"];
    let frame = format_message(&tokens);
    assert!(frame.len() - 4 < 256);
    let pieces = split_frame(&frame);
    assert_eq!(pieces.len(), tokens.len());
    for (piece, token) in pieces.iter().zip(tokens.iter()) {
        assert_eq!(std::str::from_utf8(piece).unwrap(), *token);
    }
}

#[test]
fn empty_and_non_ascii_tokens_split_back() {
    let tokens = ["", "caf\u{e9}", "", "\u{1f600}"];
    let frame = format_message(&tokens);
    let pieces = split_frame(&frame);
    assert_eq!(pieces.len(), 4);
    for (piece, token) in pieces.iter().zip(tokens.iter()) {
        assert_eq!(std::str::from_utf8(piece).unwrap(), *token);
    }
}

#[test]
fn long_frame_keeps_the_low_byte_of_its_length() {
    let long = "x".repeat(300);
    let frame = format_message(&[long.as_str()]);
    assert_eq!(frame.len(), 4 + 300 + 2);
    assert_eq!(frame[0], 46);
    assert_eq!(&frame[1..4], &[0u8, 0u8, 0u8]);
    assert_eq!(split_frame(&frame), vec![long.as_bytes().to_vec()]);
}

#[test]
fn length_byte_wraps_at_256() {
    let below = "y".repeat(253);
    assert_eq!(format_message(&[below.as_str()])[0], 255);
    let at = "y".repeat(254);
    assert_eq!(format_message(&[at.as_str()])[0], 0);
    let above = "y".repeat(255);
    assert_eq!(format_message(&[above.as_str()])[0], 1);
}

#[test]
fn answer_is_decoded_as_text() {
    let reply = Reply::Closed(b"[{\"id\":1}]".to_vec());
    assert_eq!(query_socket(reply), Ok(String::from("[{\"id\":1}]")));
    assert_eq!(query_socket(Reply::Closed(Vec::new())), Ok(String::new()));
    let accented = Reply::Closed("caf\u{e9}".as_bytes().to_vec());
    assert_eq!(query_socket(accented), Ok(String::from("caf\u{e9}")));
}

#[test]
fn malformed_answer_is_a_protocol_error() {
    let reply = Reply::Closed(vec![0x66, 0xff, 0x6f]);
    assert_eq!(query_socket(reply), Err(ToggleError::ProtocolError));
    assert_eq!(query_socket(Reply::Closed(vec![0xc3])), Err(ToggleError::ProtocolError));
    assert_eq!(query_socket(Reply::Broken), Err(ToggleError::ProtocolError));
}

#[test]
fn silent_daemon_is_a_timeout_and_nothing_else() {
    let outcome = query_socket(Reply::TimedOut);
    assert_eq!(outcome, Err(ToggleError::Timeout));
    assert_ne!(outcome, Err(ToggleError::DaemonUnavailable));
    assert_ne!(outcome, Err(ToggleError::ProtocolError));
}

#[test]
fn missing_socket_is_daemon_unavailable() {
    assert_eq!(query_socket(Reply::Unavailable), Err(ToggleError::DaemonUnavailable));
}

#[test]
fn socket_path_holds_the_user_name() {
    assert_eq!(socket_path("alice"), "/tmp/yabai_alice.socket");
    assert_eq!(socket_path(""), "/tmp/yabai_.socket");
    assert_eq!(SOCKET_TIMEOUT_SECS, 2);
}
