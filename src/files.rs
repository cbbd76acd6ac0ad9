//! `p4 files`: list files in the depot.
use vstd::prelude::*;
use vstd::string::StringExecFns;
use vstd::utf8::encode_utf8;

use crate::error::{Item, P4Error};
use crate::p4::{
    action_of, decimal_text, file_type_of, flag, push_all, push_flag, push_text, strs, texts,
    to_decimal, Action, ActionView, FileType, FileTypeView, Time, P4,
};
use crate::parser::{error_tag, info_tag, lemma_tags_exclusive, tagged_line, lemma_not_exit, lemma_tagged_line_shape, 
    self, action_tag, change_tag, depot_file_tag, i64_field, rev_tag, text_field, time_tag,
    type_tag, usize_field,
};
use crate::stream::{self, spec_decode, spec_entries, spec_entry, views, ItemStream, Record};

verus! {

/// List files in the depot.
///
/// List details about specified files: depot file name, revision,
/// file, type, change action and changelist number of the current
/// head revision. If client syntax is used to specify the file
/// argument, the client view mapping is used to determine the
/// corresponding depot files.
///
/// By default, the head revision is listed.  If the file argument
/// specifies a revision, then all files at that revision are listed.
/// If the file argument specifies a revision range, the highest revision
/// in the range is used for each file.
#[derive(Debug, Clone)]
pub struct Files<'p, 'f> {
    connection: &'p P4,
    file: Vec<&'f str>,
    list_revisions: bool,
    syncable_only: bool,
    ignore_case: bool,
    max: Option<usize>,
}

impl<'p, 'f> Files<'p, 'f> {
    pub closed spec fn spec_connection(&self) -> P4 {
        *self.connection
    }

    pub closed spec fn spec_file(&self) -> Seq<Seq<char>> {
        strs(self.file@)
    }

    pub closed spec fn spec_list_revisions(&self) -> bool {
        self.list_revisions
    }

    pub closed spec fn spec_syncable_only(&self) -> bool {
        self.syncable_only
    }

    pub closed spec fn spec_ignore_case(&self) -> bool {
        self.ignore_case
    }

    pub closed spec fn spec_max(&self) -> Option<usize> {
        self.max
    }

    /// The arguments the client program is run with.
    pub open spec fn spec_args(&self) -> Seq<Seq<char>> {
        self.spec_connection().spec_global_args()
            + seq!["files"@]
            + flag("-a"@, self.spec_list_revisions())
            + flag("-e"@, self.spec_syncable_only())
            + flag("-i"@, self.spec_ignore_case())
            + match self.spec_max() {
                Some(n) => seq!["-m "@ + decimal_text(n as nat)],
                None => Seq::empty(),
            }
            + self.spec_file()
    }

    pub fn new(connection: &'p P4, file: &'f str) -> (r: Self)
        ensures
            r.spec_connection() == *connection,
            r.spec_file() == seq![file@],
            r.spec_list_revisions() == false,
            r.spec_syncable_only() == false,
            r.spec_ignore_case() == false,
            r.spec_max() == None::<usize>,
    {
        let mut v: Vec<&'f str> = Vec::new();
        v.push(file);
        assert(strs(v@) =~= seq![file@]);
        Self {
            connection,
            file: v,
            list_revisions: false,
            syncable_only: false,
            ignore_case: false,
            max: None,
        }
    }

    pub fn file(self, file: &'f str) -> (r: Self)
        ensures
            r.spec_file() == self.spec_file().push(file@),
            r.spec_list_revisions() == self.spec_list_revisions(),
            r.spec_syncable_only() == self.spec_syncable_only(),
            r.spec_ignore_case() == self.spec_ignore_case(),
            r.spec_max() == self.spec_max(),
            r.spec_connection() == self.spec_connection(),
    {
        let mut s = self;
        let ghost before = s.file@;
        s.file.push(file);
        assert(strs(s.file@) =~= strs(before).push(file@));
        s
    }

    /// The -a flag displays all revisions within the specific range, rather
    /// than just the highest revision in the range.
    pub fn list_revisions(self, list_revisions: bool) -> (r: Self)
        ensures
            r.spec_list_revisions() == list_revisions,
            r.spec_file() == self.spec_file(),
            r.spec_syncable_only() == self.spec_syncable_only(),
            r.spec_ignore_case() == self.spec_ignore_case(),
            r.spec_max() == self.spec_max(),
            r.spec_connection() == self.spec_connection(),
    {
        Self { list_revisions, ..self }
    }

    /// The -e flag displays files with an action of anything other than
    /// deleted, purged or archived.  Typically this revision is always
    /// available to sync or integrate from.
    pub fn syncable_only(self, syncable_only: bool) -> (r: Self)
        ensures
            r.spec_syncable_only() == syncable_only,
            r.spec_file() == self.spec_file(),
            r.spec_list_revisions() == self.spec_list_revisions(),
            r.spec_ignore_case() == self.spec_ignore_case(),
            r.spec_max() == self.spec_max(),
            r.spec_connection() == self.spec_connection(),
    {
        Self { syncable_only, ..self }
    }

    /// The -i flag is used to ignore the case of the file argument when
    /// listing files in a case sensitive server.
    pub fn ignore_case(self, ignore_case: bool) -> (r: Self)
        ensures
            r.spec_ignore_case() == ignore_case,
            r.spec_file() == self.spec_file(),
            r.spec_list_revisions() == self.spec_list_revisions(),
            r.spec_syncable_only() == self.spec_syncable_only(),
            r.spec_max() == self.spec_max(),
            r.spec_connection() == self.spec_connection(),
    {
        Self { ignore_case, ..self }
    }

    /// The -m flag limits files to the first 'max' number of files.
    pub fn set_max(self, max: Option<usize>) -> (r: Self)
        ensures
            r.spec_max() == max,
            r.spec_file() == self.spec_file(),
            r.spec_list_revisions() == self.spec_list_revisions(),
            r.spec_syncable_only() == self.spec_syncable_only(),
            r.spec_ignore_case() == self.spec_ignore_case(),
            r.spec_connection() == self.spec_connection(),
    {
        Self { max, ..self }
    }

    /// The arguments to run the client program with.
    pub fn args(&self) -> (r: Vec<String>)
        ensures
            texts(r@) == self.spec_args(),
    {
        let mut args = self.connection.global_args();
        push_text(&mut args, "files");
        push_flag(&mut args, "-a", self.list_revisions);
        push_flag(&mut args, "-e", self.syncable_only);
        push_flag(&mut args, "-i", self.ignore_case);
        let ghost before = texts(args@);
        match self.max {
            Some(n) => {
                let d = to_decimal(n);
                let m = String::from_str("-m ").concat(d.as_str());
                args.push(m);
                assert(texts(args@) =~= before + seq!["-m "@ + decimal_text(n as nat)]);
            },
            None => {
                assert(texts(args@) =~= before + Seq::<Seq<char>>::empty());
            },
        }
        push_all(&mut args, &self.file);
        assert(texts(args@) =~= self.spec_args());
        args
    }

    /// The client program to run.
    pub fn program(&self) -> (r: String)
        ensures
            r@ == self.spec_connection().spec_program(),
    {
        self.connection.program()
    }
}

pub type FileItem = Item<File>;

pub type FilesIter = ItemStream<File>;

/// A file revision in the depot.
#[derive(Debug, Clone, PartialEq, Eq)]
#[non_exhaustive]
pub struct File {
    pub depot_file: String,
    pub rev: usize,
    pub change: usize,
    pub action: Action,
    pub file_type: FileType,
    pub time: Time,
}

pub struct FileView {
    pub depot_file: Seq<char>,
    pub rev: usize,
    pub change: usize,
    pub action: ActionView,
    pub file_type: FileTypeView,
    pub time: i64,
}

impl View for File {
    type V = FileView;

    open spec fn view(&self) -> FileView {
        FileView {
            depot_file: self.depot_file@,
            rev: self.rev,
            change: self.change,
            action: self.action@,
            file_type: self.file_type@,
            time: self.time.timestamp,
        }
    }
}

/// The fields `depotFile`, `rev`, `change`, `action`, `type` and `time`, in
/// this order, at the start of `s`.
pub open spec fn spec_file_fields(s: Seq<u8>) -> Option<(FileView, Seq<u8>)> {
    match text_field(s, depot_file_tag()) {
        None => None,
        Some((depot_file, s1)) => match usize_field(s1, rev_tag()) {
            None => None,
            Some((rev, s2)) => match usize_field(s2, change_tag()) {
                None => None,
                Some((change, s3)) => match text_field(s3, action_tag()) {
                    None => None,
                    Some((action, s4)) => match text_field(s4, type_tag()) {
                        None => None,
                        Some((ft, s5)) => match file_type_of(encode_utf8(ft)) {
                            None => None,
                            Some(file_type) => match i64_field(s5, time_tag()) {
                                None => None,
                                Some((time, s6)) => Some(
                                    (
                                        FileView {
                                            depot_file,
                                            rev,
                                            change,
                                            action: action_of(action),
                                            file_type,
                                            time,
                                        },
                                        s6,
                                    ),
                                ),
                            },
                        },
                    },
                },
            },
        },
    }
}

/// Decodes the fields of a file revision, in the order the client writes them.
pub fn file_fields(input: &[u8]) -> (r: Option<(&[u8], File)>)
    ensures
        match r {
            Some((rest, f)) => spec_file_fields(input@) == Some((f@, rest@)),
            None => spec_file_fields(input@) is None,
        },
{
    let (s1, depot_file) = parser::depot_file(input)?;
    let (s2, rev) = parser::rev(s1)?;
    let (s3, change) = parser::change(s2)?;
    let (s4, action) = parser::action(s3)?;
    let (s5, ft) = parser::file_type(s4)?;
    let file_type = FileType::parse(ft.ft.as_str())?;
    let (s6, time) = parser::time(s5)?;
    Some(
        (
            s6,
            File {
                depot_file: depot_file.path,
                rev: rev.rev,
                change: change.change,
                action: Action::parse(action.action.as_str()),
                file_type,
                time: Time { timestamp: time.time },
            },
        ),
    )
}

impl Record for File {
    open spec fn spec_record(s: Seq<u8>) -> Option<(FileView, Seq<u8>)> {
        spec_file_fields(s)
    }

    /// Informational lines may stand between records.
    open spec fn spec_takes_info() -> bool {
        true
    }

    fn record<'a>(input: &'a [u8]) -> (r: Option<(&'a [u8], Self)>) {
        file_fields(input)
    }

    fn takes_info() -> (r: bool) {
        true
    }

    proof fn lemma_record_shrinks(s: Seq<u8>) {
        broadcast use lemma_tagged_line_shape;

    }

    proof fn lemma_record_not_exit(s: Seq<u8>) {
        broadcast use lemma_tagged_line_shape;

        if Self::spec_record(s) is Some {
            reveal_strlit("info1: depotFile ");
            lemma_not_exit(s, depot_file_tag());
        }
    }
}

/// Decodes the output of `p4 files` into its entries and the exit entry.
pub fn files(output: &[u8]) -> (r: Option<(Vec<FileItem>, FileItem)>)
    ensures
        match r {
            Some((items, exit)) => spec_decode::<File>(output@) == Some(views(items@).push(exit@)),
            None => spec_decode::<File>(output@) is None,
        },
{
    stream::decode_items::<File>(output)
}

/// Decodes the output of `p4 files` into a stream of entries.
pub fn decode(output: &[u8], command: &str) -> (r: Result<FilesIter, P4Error>)
    ensures
        match r {
            Ok(s) => spec_decode::<File>(output@) == Some(views(s.remaining())),
            Err(e) => spec_decode::<File>(output@) is None && e.is_parse_failure(command@),
        },
{
    stream::decode::<File>(output, command)
}

/// A file record that lacks its `action` line (its `type` line follows
/// `change`) fails the whole buffer: no entries are returned.
pub proof fn law_missing_action_fails(s: Seq<u8>)
    ensures
        text_field(s, depot_file_tag()) matches Some((_, s1)) ==> usize_field(s1, rev_tag()) matches Some((_, s2))
            ==> usize_field(s2, change_tag()) matches Some((_, s3)) ==> tagged_line(s3, type_tag()) is Some
            ==> spec_decode::<File>(s) is None,
{
    broadcast use lemma_tagged_line_shape;

    if let Some((_, s1)) = text_field(s, depot_file_tag()) {
        if let Some((_, s2)) = usize_field(s1, rev_tag()) {
            if let Some((_, s3)) = usize_field(s2, change_tag()) {
                if tagged_line(s3, type_tag()) is Some {
                    reveal_strlit("info1: action ");
                    reveal_strlit("info1: type ");
                    reveal_strlit("info1: depotFile ");
                    reveal_strlit("error: ");
                    reveal_strlit("info: ");
                    lemma_tags_exclusive(s3, action_tag(), type_tag(), 7);
                    lemma_tags_exclusive(s, error_tag(), depot_file_tag(), 0);
                    lemma_tags_exclusive(s, info_tag(), depot_file_tag(), 4);
                    lemma_not_exit(s, depot_file_tag());
                    assert(spec_entry::<File>(s) is None);
                    assert(spec_entries::<File>(s).1 == s);
                }
            }
        }
    }
}

} // verus!
