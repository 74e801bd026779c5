use ts3plugin::conversions::{
    captured_voice_edited, captured_voice_send, connect_status_from_code, read_path_buffer,
    result_from_code, talk_status_from_code, target_mode_from_code, text_from_c, to_c_text,
    visibility_from_code, PathBuffer, PATH_MAX_SIZE, PATH_START_SIZE,
};
use ts3plugin::plugin::{init_result_code, InitError};
use ts3plugin::{ConnectStatus, Error, TalkStatus, TextMessageTargetMode, Visibility};

#[test]
fn voice_send_flag() {
    assert!(captured_voice_send(2));
    assert!(captured_voice_send(3));
    assert!(!captured_voice_send(1));
    assert!(!captured_voice_send(0));
}

#[test]
fn voice_edited_flags() {
    assert_eq!(captured_voice_edited(0, false, false), 0);
    assert_eq!(captured_voice_edited(0, true, true), 3);
    assert_eq!(captured_voice_edited(2, false, false), 0);
    assert_eq!(captured_voice_edited(1, false, true), 3);
    assert_eq!(captured_voice_edited(0b1100, true, false), 0b1101);
    assert_eq!(captured_voice_edited(-1, false, false), -3);
    // Handing back what was read changes nothing.
    for e in [0, 1, 2, 3, 6, 7, -1, i32::MIN] {
        assert_eq!(captured_voice_edited(e, false, captured_voice_send(e)), e);
    }
}

#[test]
fn text_decoding() {
    assert_eq!(text_from_c(b"hello"), "hello");
    assert_eq!(text_from_c(b""), "");
    assert_eq!(text_from_c("gr\u{fc}n".as_bytes()), "gr\u{fc}n");
    assert_eq!(text_from_c(&[0x61, 0xff, 0x62]), "a\u{fffd}b");
}

#[test]
fn path_buffer_done() {
    let mut buf = vec![0u8; 16];
    buf[..4].copy_from_slice(b"/tmp");
    match read_path_buffer(buf) {
        PathBuffer::Done(s) => assert_eq!(s, "/tmp"),
        other => panic!("unexpected {:?}", other),
    }
    // The last byte is treated as zero.
    let mut buf = vec![0u8; 4];
    buf[0] = b'a';
    buf[3] = b'z';
    match read_path_buffer(buf) {
        PathBuffer::Done(s) => assert_eq!(s, "a"),
        other => panic!("unexpected {:?}", other),
    }
    // Invalid UTF-8 is replaced.
    let buf = vec![b'x', 0xfe, 0, 0, 0];
    match read_path_buffer(buf) {
        PathBuffer::Done(s) => assert_eq!(s, "x\u{fffd}"),
        other => panic!("unexpected {:?}", other),
    }
}

#[test]
fn path_buffer_grows() {
    let buf = vec![b'a'; PATH_START_SIZE];
    match read_path_buffer(buf) {
        PathBuffer::Grow(n) => assert_eq!(n, 2 * PATH_START_SIZE),
        other => panic!("unexpected {:?}", other),
    }
    let mut buf = vec![0u8; PATH_MAX_SIZE / 2 + 1];
    let len = buf.len();
    buf[len - 3] = b'a';
    assert!(matches!(read_path_buffer(buf), PathBuffer::TooLong));
    let mut buf = vec![0u8; PATH_MAX_SIZE / 2];
    let len = buf.len();
    buf[len - 3] = b'a';
    match read_path_buffer(buf) {
        PathBuffer::Grow(n) => assert_eq!(n, PATH_MAX_SIZE),
        other => panic!("unexpected {:?}", other),
    }
}

#[test]
fn c_text() {
    assert_eq!(to_c_text("hello"), "hello");
    assert_eq!(to_c_text(""), "");
    assert_eq!(to_c_text("a\0b"), "String contains null character");
}

#[test]
fn init_codes() {
    assert_eq!(init_result_code(Ok(())), 0);
    assert_eq!(init_result_code(Err(InitError::Failure)), 1);
    assert_eq!(init_result_code(Err(InitError::FailureNoMessage)), -2);
}

#[test]
fn error_codes() {
    assert!(Error::ok().is_ok());
    assert_eq!(Error::ok(), Error(0));
    assert!(!Error(0x200).is_ok());
}

#[test]
fn path_attempts_are_bounded() {
    // A path that never fits: every buffer is filled to the end.
    let mut size = PATH_START_SIZE;
    let mut attempts = 0;
    loop {
        attempts += 1;
        match read_path_buffer(vec![b'x'; size]) {
            PathBuffer::Grow(n) => size = n,
            PathBuffer::TooLong => break,
            PathBuffer::Done(_) => panic!("a full buffer is no path"),
        }
    }
    assert_eq!(attempts, 8);
    assert_eq!(size, 65536);
}

#[test]
fn codes() {
    assert_eq!(result_from_code(0, 5u16), Ok(5));
    assert_eq!(result_from_code(0x200, 5u16), Err(Error(0x200)));
    assert_eq!(visibility_from_code(0), Some(Visibility::Enter));
    assert_eq!(visibility_from_code(1), Some(Visibility::Retain));
    assert_eq!(visibility_from_code(2), Some(Visibility::Leave));
    assert_eq!(visibility_from_code(3), None);
    assert_eq!(visibility_from_code(-1), None);
    assert_eq!(connect_status_from_code(0), Some(ConnectStatus::Disconnected));
    assert_eq!(connect_status_from_code(1), Some(ConnectStatus::Connecting));
    assert_eq!(connect_status_from_code(2), Some(ConnectStatus::Connected));
    assert_eq!(connect_status_from_code(3), Some(ConnectStatus::ConnectionEstablishing));
    assert_eq!(connect_status_from_code(4), Some(ConnectStatus::ConnectionEstablished));
    assert_eq!(connect_status_from_code(5), None);
    assert_eq!(talk_status_from_code(0), Some(TalkStatus::NotTalking));
    assert_eq!(talk_status_from_code(1), Some(TalkStatus::Talking));
    assert_eq!(talk_status_from_code(2), Some(TalkStatus::TalkingWhileDisabled));
    assert_eq!(talk_status_from_code(7), None);
    assert_eq!(target_mode_from_code(1), TextMessageTargetMode::Client);
    assert_eq!(target_mode_from_code(2), TextMessageTargetMode::Channel);
    assert_eq!(target_mode_from_code(3), TextMessageTargetMode::Server);
    assert_eq!(target_mode_from_code(4), TextMessageTargetMode::Max);
    assert_eq!(target_mode_from_code(0), TextMessageTargetMode::Max);
}

#[test]
fn path_grows_until_it_fits() {
    // TeamSpeak writes a path of 600 letters into each buffer it is given.
    let mut size = PATH_START_SIZE;
    let mut sizes = Vec::new();
    let path = loop {
        sizes.push(size - 1);
        let mut buf = vec![0u8; size];
        let k = (size - 1).min(600);
        for b in buf.iter_mut().take(k) {
            *b = b'a';
        }
        match read_path_buffer(buf) {
            PathBuffer::Grow(n) => size = n,
            PathBuffer::Done(s) => break s,
            PathBuffer::TooLong => panic!("the path fits"),
        }
    };
    assert_eq!(path, "a".repeat(600));
    assert_eq!(sizes, vec![511, 1023]);
}
