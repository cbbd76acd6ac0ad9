use p4_cmd::error::{Item, MessageLevel, OperationError};
use p4_cmd::print::{self, FileContent};
use p4_cmd::{Action, BaseFileType};

#[test]
fn print_text_single() {
    let output: &[u8] = br#"info1: depotFile //depot/dir/file
info1: rev 3
info1: change 42
info1: action edit
info1: type text
info1: time 1527128624
info1: fileSize 494514
text: Hello
text: World
exit: 0
"#;
    let (items, exit) = print::printed_files(output).unwrap();
    let item = items[0].as_data().unwrap();
    assert_eq!(
        item.content,
        FileContent::Text(vec!["Hello".to_owned(), "World".to_owned()])
    );
    assert_eq!(exit.as_error(), Some(&OperationError::new(0)));
}

#[test]
fn print_text_multi() {
    let output: &[u8] = br#"info1: depotFile //depot/dir/file
info1: rev 3
info1: change 42
info1: action edit
info1: type text
info1: time 1527128624
info1: fileSize 494514
text: Hello
text: World
info1: depotFile //depot/dir/file2
info1: rev 3
info1: change 42
info1: action edit
info1: type text
info1: time 1527128624
info1: fileSize 494514
text: Goodbye
text: World
exit: 0
"#;
    let (items, exit) = print::printed_files(output).unwrap();
    let first = items[0].as_data().unwrap();
    let last = items[1].as_data().unwrap();
    assert_eq!(
        first.content,
        FileContent::Text(vec!["Hello".to_owned(), "World".to_owned()])
    );
    assert_eq!(
        last.content,
        FileContent::Text(vec!["Goodbye".to_owned(), "World".to_owned()])
    );
    assert_eq!(exit.as_error(), Some(&OperationError::new(0)));
}

#[test]
fn print_binary_single() {
    let output: &[u8] = b"info1: depotFile //depot/dir/file
info1: rev 3
info1: change 42
info1: action edit
info1: type binary
info1: time 1527128624
info1: fileSize 5
1\02\n3exit: 0
";
    let (items, exit) = print::printed_files(output).unwrap();
    assert_eq!(
        items[0].as_data().unwrap().content,
        FileContent::Binary(b"1\02\n3".to_vec())
    );
    assert_eq!(exit.as_error(), Some(&OperationError::new(0)));
}

#[test]
fn file_binary() {
    let output: &[u8] = b"info1: depotFile //depot/dir/file
info1: rev 3
info1: change 42
info1: action edit
info1: type binary
info1: time 1527128624
info1: fileSize 5
1\02\n3
";
    let (_remains, item) = print::file(output).unwrap();
    assert_eq!(item.content, FileContent::Binary(b"1\02\n3".to_vec()));
}

#[test]
fn print_text_record_fields() {
    let output: &[u8] = b"info1: depotFile //depot/dir/file\ninfo1: rev 3\ninfo1: change 42\ninfo1: action edit\ninfo1: type text\ninfo1: time 1527128624\ninfo1: fileSize 13\ntext: Hello\ntext: World\nexit: 0\n";
    let (items, exit) = print::printed_files(output).unwrap();
    assert_eq!(items.len(), 1);
    let f = items[0].as_data().unwrap();
    assert_eq!(f.content, FileContent::Text(vec!["Hello".to_owned(), "World".to_owned()]));
    assert_eq!(f.content.as_text().unwrap().len(), 2);
    assert_eq!(f.content.as_binary(), None);
    assert_eq!(f.depot_file, "//depot/dir/file");
    assert_eq!(f.rev, 3);
    assert_eq!(f.change, 42);
    assert_eq!(f.action, Action::Edit);
    assert_eq!(f.file_type.base, BaseFileType::Text);
    assert_eq!(f.file_type.modifiers, None);
    assert_eq!(f.time.timestamp, 1527128624);
    assert_eq!(f.file_size, 13);
    assert_eq!(exit, Item::Error(OperationError::new(0)));
}

#[test]
fn binary_payload_is_not_scanned() {
    let output: &[u8] = b"info1: depotFile //d/f\ninfo1: rev 1\ninfo1: change 2\ninfo1: action add\ninfo1: type binary\ninfo1: time 0\ninfo1: fileSize 8\ntext: abexit: 0\n";
    let (items, _exit) = print::printed_files(output).unwrap();
    assert_eq!(
        items[0].as_data().unwrap().content,
        FileContent::Binary(b"text: ab".to_vec())
    );
    assert_eq!(items[0].as_data().unwrap().content.as_binary().unwrap(), b"text: ab");
}

#[test]
fn text_type_without_text_lines_takes_bytes() {
    let output: &[u8] = b"info1: depotFile //d/f\ninfo1: rev 1\ninfo1: change 2\ninfo1: action add\ninfo1: type text\ninfo1: time 0\ninfo1: fileSize 3\nabcexit: 0\n";
    let (items, _exit) = print::printed_files(output).unwrap();
    assert_eq!(
        items[0].as_data().unwrap().content,
        FileContent::Binary(b"abc".to_vec())
    );
}

#[test]
fn binary_payload_too_short_fails() {
    let output: &[u8] = b"info1: depotFile //d/f\ninfo1: rev 1\ninfo1: change 2\ninfo1: action add\ninfo1: type binary\ninfo1: time 0\ninfo1: fileSize 100\nabc";
    assert!(print::printed_files(output).is_none());
}

#[test]
fn print_error_line_then_exit() {
    let output: &[u8] = b"error: //d/f - no such file(s).\nexit: 1\n";
    let (items, exit) = print::printed_files(output).unwrap();
    assert_eq!(items.len(), 1);
    let m = items[0].as_message().unwrap();
    assert_eq!(m.level, MessageLevel::Error);
    assert_eq!(m.msg, "//d/f - no such file(s).");
    assert_eq!(exit.as_error().unwrap().code(), 1);
}

#[test]
fn print_unknown_modifier_fails() {
    let output: &[u8] = b"info1: depotFile //d/f\ninfo1: rev 1\ninfo1: change 2\ninfo1: action add\ninfo1: type text+Z\ninfo1: time 0\ninfo1: fileSize 1\ntext: a\nexit: 0\n";
    assert!(print::printed_files(output).is_none());
}

#[test]
fn binary_payload_starting_with_carriage_return() {
    let output: &[u8] = b"info1: depotFile //d/f\ninfo1: rev 1\ninfo1: change 2\ninfo1: action add\ninfo1: type binary\ninfo1: time 0\ninfo1: fileSize 5\n\r1234exit: 0\n";
    let (items, exit) = print::printed_files(output).unwrap();
    assert_eq!(items.len(), 1);
    let f = items[0].as_data().unwrap();
    assert_eq!(f.content, FileContent::Binary(b"\r1234".to_vec()));
    assert_eq!(f.file_size, 5);
    assert_eq!(exit.as_error(), Some(&OperationError::new(0)));
}

#[test]
fn binary_payload_after_crlf_size_line() {
    let output: &[u8] = b"info1: depotFile //d/f\r\ninfo1: rev 1\r\ninfo1: change 2\r\ninfo1: action add\r\ninfo1: type binary\r\ninfo1: time 0\r\ninfo1: fileSize 3\r\n\n\r\nexit: 0\r\n";
    let (items, _exit) = print::printed_files(output).unwrap();
    assert_eq!(
        items[0].as_data().unwrap().content,
        FileContent::Binary(b"\n\r\n".to_vec())
    );
}

#[test]
fn binary_payload_starting_with_newline() {
    let output: &[u8] = b"info1: depotFile //d/f\ninfo1: rev 1\ninfo1: change 2\ninfo1: action add\ninfo1: type binary\ninfo1: time 0\ninfo1: fileSize 2\n\nxexit: 0\n";
    let (items, _exit) = print::printed_files(output).unwrap();
    assert_eq!(
        items[0].as_data().unwrap().content,
        FileContent::Binary(b"\nx".to_vec())
    );
}
