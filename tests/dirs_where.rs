use p4_cmd::error::{Item, MessageLevel, OperationError};
use p4_cmd::{dirs, where_};

#[test]
fn dirs_error_line_then_exit() {
    let output: &[u8] = b"error: .tags - no such file(s).\nexit: 0\n";
    let (items, exit) = dirs::dirs(output).unwrap();
    assert_eq!(items.len(), 1);
    let m = items[0].as_message().unwrap();
    assert_eq!(m.level, MessageLevel::Error);
    assert_eq!(m.msg, ".tags - no such file(s).");
    assert_eq!(exit, Item::Error(OperationError::new(0)));
}

#[test]
fn dirs_listing() {
    let output: &[u8] = b"info1: dir //depot/a\ninfo1: dir //depot/b\r\nexit: 0\n";
    let (items, _) = dirs::dirs(output).unwrap();
    assert_eq!(items.len(), 2);
    assert_eq!(items[0].as_data().unwrap().dir, "//depot/a");
    assert_eq!(items[1].as_data().unwrap().dir, "//depot/b");
    assert!(items[0].as_error().is_none());
}

#[test]
fn dirs_takes_no_info_lines() {
    let output: &[u8] = b"info: hello\nexit: 0\n";
    assert!(dirs::dirs(output).is_none());
}

#[test]
fn where_mapping() {
    let output: &[u8] = b"info1: depotFile //depot/a\ninfo1: clientFile //ws/a\ninfo1: path /home/u/ws/a\nexit: 0\n";
    let (items, exit) = where_::where_(output).unwrap();
    let f = items[0].as_data().unwrap();
    assert_eq!(f.depot_file, "//depot/a");
    assert_eq!(f.client_file, "//ws/a");
    assert_eq!(f.path, "/home/u/ws/a");
    assert_eq!(exit.as_error(), Some(&OperationError::new(0)));
    let mut s = where_::decode(output, "p4 where").unwrap();
    assert_eq!(s.size_hint(), (2, Some(2)));
    assert!(s.next().unwrap().as_data().is_some());
}
