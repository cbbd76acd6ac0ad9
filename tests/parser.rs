use p4_cmd::parser::{
    action, change, depot_file, error, exit, file_size, file_type, newline, rev, text,
    text_from_bytes, time, Action, Change, DepotFile, Error, Exit, FileSize, FileType, Newline,
    Rev, Time,
};

#[test]
fn parse_exit_success() {
    let expected_remaining: &[u8] = b"";
    assert_eq!(exit(b"exit: 0\n"), Some((expected_remaining, Exit { code: 0 })));
}

#[test]
fn parse_exit_positive() {
    let expected_remaining: &[u8] = b"";
    assert_eq!(exit(b"exit: 1\n"), Some((expected_remaining, Exit { code: 1 })));
}

#[test]
fn parse_error() {
    let expected_remaining: &[u8] = b"";
    assert_eq!(
        error(b"error: .tags - no such file(s).\n"),
        Some((expected_remaining, Error { msg: ".tags - no such file(s).".to_owned() }))
    );
}

#[test]
fn parse_depot_file() {
    let expected_remaining: &[u8] = b"";
    assert_eq!(
        depot_file(b"info1: depotFile //depot/dir/file\n"),
        Some((expected_remaining, DepotFile { path: "//depot/dir/file".to_owned() }))
    );
}

#[test]
fn parse_rev() {
    let expected_remaining: &[u8] = b"";
    assert_eq!(rev(b"info1: rev 42\n"), Some((expected_remaining, Rev { rev: 42 })));
}

#[test]
fn parse_change() {
    let expected_remaining: &[u8] = b"";
    assert_eq!(
        change(b"info1: change 42\n"),
        Some((expected_remaining, Change { change: 42 }))
    );
}

#[test]
fn parse_action() {
    let expected_remaining: &[u8] = b"";
    assert_eq!(
        action(b"info1: action move/add\n"),
        Some((expected_remaining, Action { action: "move/add".to_owned() }))
    );
}

#[test]
fn parse_file_type() {
    let expected_remaining: &[u8] = b"";
    assert_eq!(
        file_type(b"info1: type text\n"),
        Some((expected_remaining, FileType { ft: "text".to_owned() }))
    );
}

#[test]
fn exit_negative_code() {
    let expected_remaining: &[u8] = b"";
    assert_eq!(exit(b"exit: -1\n"), Some((expected_remaining, Exit { code: -1 })));
    assert_eq!(
        exit(b"exit: -2147483648\n"),
        Some((expected_remaining, Exit { code: i32::MIN }))
    );
}

#[test]
fn exit_out_of_range_or_malformed() {
    assert_eq!(exit(b"exit: 2147483648\n"), None);
    assert_eq!(exit(b"exit: -2147483649\n"), None);
    assert_eq!(exit(b"exit: \n"), None);
    assert_eq!(exit(b"exit: 1x\n"), None);
    assert_eq!(exit(b"exit: 0"), None);
    assert_eq!(exit(b"error: 0\n"), None);
}

#[test]
fn rev_overflow_fails() {
    assert_eq!(rev(b"info1: rev 99999999999999999999999\n"), None);
    assert_eq!(rev(b"info1: rev -1\n"), None);
}

#[test]
fn leaves_following_input() {
    let expected_remaining: &[u8] = b"info1: rev 3\n";
    assert_eq!(
        change(b"info1: change 7\ninfo1: rev 3\n"),
        Some((expected_remaining, Change { change: 7 }))
    );
}

#[test]
fn newline_encodings() {
    let empty: &[u8] = b"";
    assert_eq!(newline(b"\n"), Some((empty, Newline)));
    assert_eq!(newline(b"\r"), Some((empty, Newline)));
    assert_eq!(newline(b"\r\n"), Some((empty, Newline)));
    assert_eq!(newline(b"\n\r"), Some((empty, Newline)));
    let one: &[u8] = b"\n";
    assert_eq!(newline(b"\n\n"), Some((one, Newline)));
    assert_eq!(newline(b"x"), None);
    let rest: &[u8] = b"info1: rev 1\n";
    assert_eq!(
        change(b"info1: change 5\r\ninfo1: rev 1\n"),
        Some((rest, Change { change: 5 }))
    );
}

#[test]
fn time_and_file_size() {
    let empty: &[u8] = b"";
    assert_eq!(
        time(b"info1: time 1527128624\n"),
        Some((empty, Time { time: 1527128624 }))
    );
    assert_eq!(time(b"info1: time 9223372036854775808\n"), None);
    assert_eq!(file_size(b"info1: fileSize 13\n"), Some((empty, FileSize { size: 13 })));
}

#[test]
fn text_requires_utf8() {
    let empty: &[u8] = b"";
    assert_eq!(text(b"text: h\xc3\xa9\n"), Some((empty, "h\u{e9}".to_owned())));
    assert_eq!(text(b"text: \xff\n"), None);
    assert_eq!(text_from_bytes(b"\xc3\xa9"), Some("\u{e9}".to_owned()));
    assert_eq!(text_from_bytes(b"\xc3"), None);
    assert_eq!(text_from_bytes(b""), Some(String::new()));
}
