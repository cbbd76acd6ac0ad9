use p4_cmd::error::OperationError;
use p4_cmd::sync;
use p4_cmd::Action;

#[test]
fn sync_single() {
    let output: &[u8] = br#"info1: depotFile //depot/dir/file
info1: clientFile /home/user/depot/dir/file
info1: rev 1
info1: action added
info1: fileSize 1016
info1: totalFileSize 865153
info1: totalFileCount 24
info1: change 25662947
exit: 0
"#;
    let (items, exit) = sync::synced_files(output).unwrap();
    let first = items[0].as_data().unwrap();
    assert_eq!(first.depot_file, "//depot/dir/file");
    assert_eq!(exit.as_error(), Some(&OperationError::new(0)));
}

#[test]
fn sync_multi() {
    let output: &[u8] = br#"info1: depotFile //depot/dir/file
info1: clientFile /home/user/depot/dir/file
info1: rev 1
info1: action added
info1: fileSize 1016
info1: totalFileSize 865153
info1: totalFileCount 24
info1: change 25662947
info1: depotFile //depot/dir/file1
info1: clientFile /home/user/depot/dir/file1
info1: rev 1
info1: action added
info1: fileSize 729154
exit: 0
"#;
    let (items, exit) = sync::synced_files(output).unwrap();
    let first = items[0].as_data().unwrap();
    let last = items[1].as_data().unwrap();
    assert_eq!(first.depot_file, "//depot/dir/file");
    assert_eq!(last.depot_file, "//depot/dir/file1");
    assert_eq!(exit.as_error(), Some(&OperationError::new(0)));
}

#[test]
fn sync_record_fields() {
    let output: &[u8] = b"info1: depotFile //depot/dir/file1\ninfo1: clientFile /home/user/depot/dir/file1\ninfo1: rev 4\ninfo1: action add\ninfo1: fileSize 729154\ninfo: nothing else\nexit: 0\n";
    let (items, _exit) = sync::synced_files(output).unwrap();
    assert_eq!(items.len(), 2);
    let f = items[0].as_data().unwrap();
    assert_eq!(f.client_file, "/home/user/depot/dir/file1");
    assert_eq!(f.rev, 4);
    assert_eq!(f.action, Action::Add);
    assert_eq!(f.file_size, 729154);
    assert_eq!(items[1].as_message().unwrap().msg, "nothing else");
}
