use p4_cmd::error::{ErrorKind, Item, MessageLevel, OperationError};
use p4_cmd::files;
use p4_cmd::{Action, BaseFileType};

const TWO_FILES: &[u8] = b"info1: depotFile //depot/a\ninfo1: rev 1\ninfo1: change 10\ninfo1: action add\ninfo1: type text\ninfo1: time 100\ninfo1: depotFile //depot/b\ninfo1: rev 2\ninfo1: change 11\ninfo1: action move/delete\ninfo1: type binary+l\ninfo1: time 200\nexit: 0\n";

#[test]
fn two_records_then_exit() {
    let (items, exit) = files::files(TWO_FILES).unwrap();
    assert_eq!(items.len(), 2);
    let a = items[0].as_data().unwrap();
    let b = items[1].as_data().unwrap();
    assert_eq!(a.depot_file, "//depot/a");
    assert_eq!(b.depot_file, "//depot/b");
    assert_eq!(b.rev, 2);
    assert_eq!(b.change, 11);
    assert_eq!(b.action, Action::MoveDelete);
    assert_eq!(b.file_type.base, BaseFileType::Binary);
    assert!(b.file_type.modifiers.unwrap().exclusive);
    assert_eq!(b.time.timestamp, 200);
    assert_eq!(exit, Item::Error(OperationError::new(0)));
}

#[test]
fn decode_stream_in_order() {
    let mut s = files::decode(TWO_FILES, "p4 files //depot/...").unwrap();
    assert_eq!(s.size_hint(), (3, Some(3)));
    assert_eq!(s.next().unwrap().as_data().unwrap().depot_file, "//depot/a");
    assert_eq!(s.next().unwrap().as_data().unwrap().depot_file, "//depot/b");
    assert_eq!(s.next().unwrap().as_error(), Some(&OperationError::new(0)));
    assert!(s.next().is_none());
    assert_eq!(s.count(), 0);
}

#[test]
fn missing_action_fails_whole_buffer() {
    let output: &[u8] = b"info1: depotFile //depot/a\ninfo1: rev 1\ninfo1: change 10\ninfo1: type text\ninfo1: time 100\nexit: 0\n";
    assert!(files::files(output).is_none());
    let err = files::decode(output, "p4 files //depot/a").err().unwrap();
    assert_eq!(err.kind(), ErrorKind::ParseFailed);
    assert_eq!(err.context.as_deref(), Some("Command: p4 files //depot/a"));
    assert!(err.cause.is_none());
}

#[test]
fn missing_field_after_good_record_fails() {
    let output: &[u8] = b"info1: depotFile //depot/a\ninfo1: rev 1\ninfo1: change 10\ninfo1: action add\ninfo1: type text\ninfo1: time 100\ninfo1: depotFile //depot/b\ninfo1: rev 1\ninfo1: change 10\ninfo1: type text\ninfo1: time 100\nexit: 0\n";
    assert!(files::files(output).is_none());
}

#[test]
fn missing_exit_fails() {
    let output: &[u8] = b"info1: depotFile //depot/a\ninfo1: rev 1\ninfo1: change 10\ninfo1: action add\ninfo1: type text\ninfo1: time 100\n";
    assert!(files::files(output).is_none());
    assert!(files::files(b"").is_none());
}

#[test]
fn messages_interleave_in_order() {
    let output: &[u8] = b"error: .tags - no such file(s).\ninfo: just so you know\nexit: 0\n";
    let (items, exit) = files::files(output).unwrap();
    assert_eq!(items.len(), 2);
    let e = items[0].as_message().unwrap();
    assert_eq!(e.level, MessageLevel::Error);
    assert_eq!(e.msg, ".tags - no such file(s).");
    let w = items[1].as_message().unwrap();
    assert_eq!(w.level, MessageLevel::Warning);
    assert_eq!(w.msg, "just so you know");
    assert_eq!(exit.as_error().unwrap().code, 0);
}

#[test]
fn unknown_action_is_kept() {
    let output: &[u8] = b"info1: depotFile //depot/a\ninfo1: rev 1\ninfo1: change 10\ninfo1: action added\ninfo1: type utf8\ninfo1: time 100\nexit: 0\n";
    let (items, _) = files::files(output).unwrap();
    let a = items[0].as_data().unwrap();
    assert_eq!(a.action, Action::Unknown("added".to_owned()));
    assert_eq!(a.file_type.base, BaseFileType::Utf8);
}

#[test]
fn field_values_round_trip() {
    let output: &[u8] = b"info1: depotFile //depot/caf\xc3\xa9 x\ninfo1: rev 18446744073709551615\ninfo1: change 0\ninfo1: action edit\ninfo1: type text\ninfo1: time 9223372036854775807\nexit: 0\n";
    let (items, _) = files::files(output).unwrap();
    let a = items[0].as_data().unwrap();
    assert_eq!(a.depot_file.as_bytes(), b"//depot/caf\xc3\xa9 x");
    assert_eq!(a.rev, 18446744073709551615usize);
    assert_eq!(a.change, 0);
    assert_eq!(a.time.timestamp, i64::MAX);
}
