use p4_cmd::dirs::Dirs;
use p4_cmd::error::{ErrorKind, P4Error};
use p4_cmd::p4::to_decimal;
use p4_cmd::{Action, BaseFileType, FileType, FileTypeModifiers, P4};

#[test]
fn action_text_round_trip() {
    assert_eq!(Action::MoveDelete.as_str(), "move/delete");
    assert_eq!(Action::parse("move/delete"), Action::MoveDelete);
    assert_eq!(Action::parse("bogus"), Action::Unknown("bogus".to_owned()));
    assert_eq!(Action::parse("bogus").as_str(), "bogus");
}

#[test]
fn base_file_type_text() {
    assert_eq!(BaseFileType::Utf8.as_str(), "utf8");
    assert_eq!(BaseFileType::parse("utf8"), BaseFileType::Utf8);
    assert_eq!(BaseFileType::default(), BaseFileType::Text);
}

#[test]
fn modifiers_text() {
    let mut modifiers = FileTypeModifiers::new();
    modifiers.exclusive = true;
    assert_eq!(modifiers.to_text(), "l");
    assert_eq!(FileTypeModifiers::from_bytes(b"l"), Some(modifiers));
    assert_eq!(FileTypeModifiers::from_bytes(b"lQ"), None);
    let mut m = FileTypeModifiers::new();
    m.executable = true;
    m.full_uncompressed = true;
    m.revisions = Some(16);
    assert_eq!(m.to_text(), "xFS16");
}

#[test]
fn file_type_text() {
    let mut modifiers = FileTypeModifiers::default();
    modifiers.exclusive = true;
    let ft = FileType::new()
        .base(BaseFileType::Binary)
        .modifiers(Some(modifiers));
    assert_eq!(ft.to_text(), "binary+l");
    assert_eq!(FileType::parse("binary+l"), Some(ft));
    assert_eq!(FileType::parse("text"), Some(FileType::new()));
    assert_eq!(FileType::parse("text+"), Some(FileType::new().modifiers(Some(FileTypeModifiers::new()))));
    assert_eq!(FileType::parse("text+l+w"), None);
}

#[test]
fn decimal_text() {
    assert_eq!(to_decimal(0), "0");
    assert_eq!(to_decimal(1907), "1907");
    assert_eq!(to_decimal(usize::MAX), usize::MAX.to_string());
}

#[test]
fn global_arguments() {
    let p4 = P4::new()
        .set_port(Some("ssl:perforce:1666".to_owned()))
        .set_client(Some("ws".to_owned()))
        .set_retries(Some(3));
    assert_eq!(p4.program(), "p4");
    assert_eq!(
        p4.global_args(),
        vec!["-Gs", "-C utf8", "-p", "ssl:perforce:1666", "-c", "ws"]
    );
    assert_eq!(
        p4.global_args_with_retries(None),
        vec!["-Gs", "-C utf8", "-p", "ssl:perforce:1666", "-c", "ws", "-r", "3"]
    );
    let p4 = p4.set_p4_cmd(Some("/opt/p4".to_owned()));
    assert_eq!(p4.program(), "/opt/p4");
}

#[test]
fn command_arguments() {
    let p4 = P4::new();
    let dirs = Dirs::new(&p4, "//depot/*").set_stream("//s/main").ignore_case(true).dir("//other/*");
    assert_eq!(
        dirs.args(),
        vec!["-Gs", "-C utf8", "dirs", "-S", "//s/main", "-i", "//depot/*", "//other/*"]
    );
    let files = p4.files("//depot/...").set_max(Some(5)).list_revisions(true);
    assert_eq!(files.args(), vec!["-Gs", "-C utf8", "files", "-a", "-m 5", "//depot/..."]);
    let print = p4.print("//depot/f").keyword_expansion(false).max_files(2);
    assert_eq!(print.args(), vec!["-Gs", "-C utf8", "print", "-k", "-m", "2", "//depot/f"]);
    let sync = p4.sync("//depot/...").preview(true).parallel(4);
    assert_eq!(sync.args(), vec!["-Gs", "-C utf8", "sync", "-n", "--parallel", "4", "//depot/..."]);
    let where_ = p4.where_().file("//depot/a");
    assert_eq!(where_.args(), vec!["-Gs", "-C utf8", "where", "//depot/a"]);
}

#[test]
fn error_report() {
    let e = ErrorKind::SpawnFailed
        .error()
        .set_context("Command: p4 dirs".to_owned())
        .set_cause("not found".to_owned());
    assert_eq!(e.kind(), ErrorKind::SpawnFailed);
    assert_eq!(
        e.message(),
        "Operation failed: Failed to launch P4 command.\nCommand: p4 dirs\nCause: not found\n"
    );
    let p = P4Error::new(ErrorKind::ParseFailed);
    assert_eq!(p.message(), "Operation failed: Failed to parse P4 output.\n");
}
