//! `p4 sync`: bring the client workspace up to date.
use vstd::prelude::*;

use crate::error::{Item, P4Error};
use crate::p4::{
    action_of, flag, opt_arg, opt_decimal, push_all, push_flag, push_opt_decimal, push_text, strs,
    texts, Action, ActionView, P4,
};
use crate::parser::{lemma_not_exit, lemma_tagged_line_shape, 
    self, action_tag, change_tag, client_file_tag, depot_file_tag, file_size_tag, info1_tag,
    rev_tag, tagged_line, text_field, usize_field,
};
use crate::stream::{self, spec_decode, views, ItemStream, Record};

verus! {

/// Synchronize the client with its view of the depot
///
/// Sync updates the client workspace to reflect its current view (if
/// it has changed) and the current contents of the depot (if it has
/// changed). The client view maps client and depot file names and
/// locations.
///
/// By default, sync affects all files in the client workspace. If file
/// arguments are given, sync limits its operation to those files.
/// The file arguments can contain wildcards.
#[derive(Debug, Clone)]
pub struct Sync<'p, 'f> {
    connection: &'p P4,
    file: Vec<&'f str>,
    force: bool,
    preview: bool,
    server_only: bool,
    client_only: bool,
    verify: bool,
    max_files: Option<usize>,
    parallel: Option<usize>,
}

impl<'p, 'f> Sync<'p, 'f> {
    pub closed spec fn spec_connection(&self) -> P4 {
        *self.connection
    }

    pub closed spec fn spec_file(&self) -> Seq<Seq<char>> {
        strs(self.file@)
    }

    pub closed spec fn spec_force(&self) -> bool {
        self.force
    }

    pub closed spec fn spec_preview(&self) -> bool {
        self.preview
    }

    pub closed spec fn spec_server_only(&self) -> bool {
        self.server_only
    }

    pub closed spec fn spec_client_only(&self) -> bool {
        self.client_only
    }

    pub closed spec fn spec_verify(&self) -> bool {
        self.verify
    }

    pub closed spec fn spec_max_files(&self) -> Option<usize> {
        self.max_files
    }

    pub closed spec fn spec_parallel(&self) -> Option<usize> {
        self.parallel
    }

    /// The arguments the client program is run with.
    pub open spec fn spec_args(&self) -> Seq<Seq<char>> {
        self.spec_connection().spec_global_args()
            + seq!["sync"@]
            + flag("-f"@, self.spec_force())
            + flag("-n"@, self.spec_preview())
            + flag("-k"@, self.spec_server_only())
            + flag("-p"@, self.spec_client_only())
            + flag("-s"@, self.spec_verify())
            + opt_arg("-m"@, opt_decimal(self.spec_max_files()))
            + opt_arg("--parallel"@, opt_decimal(self.spec_parallel()))
            + self.spec_file()
    }

    pub fn new(connection: &'p P4, file: &'f str) -> (r: Self)
        ensures
            r.spec_connection() == *connection,
            r.spec_file() == seq![file@],
            r.spec_force() == false,
            r.spec_preview() == false,
            r.spec_server_only() == false,
            r.spec_client_only() == false,
            r.spec_verify() == false,
            r.spec_max_files() == None::<usize>,
            r.spec_parallel() == None::<usize>,
    {
        let mut v: Vec<&'f str> = Vec::new();
        v.push(file);
        assert(strs(v@) =~= seq![file@]);
        Self {
            connection,
            file: v,
            force: false,
            preview: false,
            server_only: false,
            client_only: false,
            verify: false,
            max_files: None,
            parallel: None,
        }
    }

    pub fn file(self, file: &'f str) -> (r: Self)
        ensures
            r.spec_file() == self.spec_file().push(file@),
            r.spec_force() == self.spec_force(),
            r.spec_preview() == self.spec_preview(),
            r.spec_server_only() == self.spec_server_only(),
            r.spec_client_only() == self.spec_client_only(),
            r.spec_verify() == self.spec_verify(),
            r.spec_max_files() == self.spec_max_files(),
            r.spec_parallel() == self.spec_parallel(),
            r.spec_connection() == self.spec_connection(),
    {
        let mut s = self;
        let ghost before = s.file@;
        s.file.push(file);
        assert(strs(s.file@) =~= strs(before).push(file@));
        s
    }

    /// The -f flag forces resynchronization even if the client already
    /// has the file, and overwriting any writable files.  This flag does not
    /// affect open files.
    pub fn force(self, force: bool) -> (r: Self)
        ensures
            r.spec_force() == force,
            r.spec_file() == self.spec_file(),
            r.spec_preview() == self.spec_preview(),
            r.spec_server_only() == self.spec_server_only(),
            r.spec_client_only() == self.spec_client_only(),
            r.spec_verify() == self.spec_verify(),
            r.spec_max_files() == self.spec_max_files(),
            r.spec_parallel() == self.spec_parallel(),
            r.spec_connection() == self.spec_connection(),
    {
        Self { force, ..self }
    }

    /// The -n flag previews the operation without updating the workspace.
    pub fn preview(self, preview: bool) -> (r: Self)
        ensures
            r.spec_preview() == preview,
            r.spec_file() == self.spec_file(),
            r.spec_force() == self.spec_force(),
            r.spec_server_only() == self.spec_server_only(),
            r.spec_client_only() == self.spec_client_only(),
            r.spec_verify() == self.spec_verify(),
            r.spec_max_files() == self.spec_max_files(),
            r.spec_parallel() == self.spec_parallel(),
            r.spec_connection() == self.spec_connection(),
    {
        Self { preview, ..self }
    }

    /// The -k flag updates server metadata without syncing files.
    pub fn server_only(self, server_only: bool) -> (r: Self)
        ensures
            r.spec_server_only() == server_only,
            r.spec_file() == self.spec_file(),
            r.spec_force() == self.spec_force(),
            r.spec_preview() == self.spec_preview(),
            r.spec_client_only() == self.spec_client_only(),
            r.spec_verify() == self.spec_verify(),
            r.spec_max_files() == self.spec_max_files(),
            r.spec_parallel() == self.spec_parallel(),
            r.spec_connection() == self.spec_connection(),
    {
        Self { server_only, ..self }
    }

    /// The -p flag populates the client workspace, but does not update the
    /// server to reflect those updates.
    pub fn client_only(self, client_only: bool) -> (r: Self)
        ensures
            r.spec_client_only() == client_only,
            r.spec_file() == self.spec_file(),
            r.spec_force() == self.spec_force(),
            r.spec_preview() == self.spec_preview(),
            r.spec_server_only() == self.spec_server_only(),
            r.spec_verify() == self.spec_verify(),
            r.spec_max_files() == self.spec_max_files(),
            r.spec_parallel() == self.spec_parallel(),
            r.spec_connection() == self.spec_connection(),
    {
        Self { client_only, ..self }
    }

    /// The -s flag adds a safety check before sending content to the client
    /// workspace.
    pub fn verify(self, verify: bool) -> (r: Self)
        ensures
            r.spec_verify() == verify,
            r.spec_file() == self.spec_file(),
            r.spec_force() == self.spec_force(),
            r.spec_preview() == self.spec_preview(),
            r.spec_server_only() == self.spec_server_only(),
            r.spec_client_only() == self.spec_client_only(),
            r.spec_max_files() == self.spec_max_files(),
            r.spec_parallel() == self.spec_parallel(),
            r.spec_connection() == self.spec_connection(),
    {
        Self { verify, ..self }
    }

    /// The -m flag limits sync to the first 'max' number of files.
    pub fn max_files(self, max_files: usize) -> (r: Self)
        ensures
            r.spec_max_files() == Some(max_files),
            r.spec_file() == self.spec_file(),
            r.spec_force() == self.spec_force(),
            r.spec_preview() == self.spec_preview(),
            r.spec_server_only() == self.spec_server_only(),
            r.spec_client_only() == self.spec_client_only(),
            r.spec_verify() == self.spec_verify(),
            r.spec_parallel() == self.spec_parallel(),
            r.spec_connection() == self.spec_connection(),
    {
        Self { max_files: Some(max_files), ..self }
    }

    /// The --parallel flag specifies options for parallel file transfer.
    pub fn parallel(self, parallel: usize) -> (r: Self)
        ensures
            r.spec_parallel() == Some(parallel),
            r.spec_file() == self.spec_file(),
            r.spec_force() == self.spec_force(),
            r.spec_preview() == self.spec_preview(),
            r.spec_server_only() == self.spec_server_only(),
            r.spec_client_only() == self.spec_client_only(),
            r.spec_verify() == self.spec_verify(),
            r.spec_max_files() == self.spec_max_files(),
            r.spec_connection() == self.spec_connection(),
    {
        Self { parallel: Some(parallel), ..self }
    }

    /// The arguments to run the client program with.
    pub fn args(&self) -> (r: Vec<String>)
        ensures
            texts(r@) == self.spec_args(),
    {
        let mut args = self.connection.global_args();
        push_text(&mut args, "sync");
        push_flag(&mut args, "-f", self.force);
        push_flag(&mut args, "-n", self.preview);
        push_flag(&mut args, "-k", self.server_only);
        push_flag(&mut args, "-p", self.client_only);
        push_flag(&mut args, "-s", self.verify);
        push_opt_decimal(&mut args, "-m", self.max_files);
        push_opt_decimal(&mut args, "--parallel", self.parallel);
        push_all(&mut args, &self.file);
        assert(texts(args@) =~= self.spec_args());
        args
    }

    /// The client program to run.
    pub fn program(&self) -> (r: String)
        ensures
            r@ == self.spec_connection().spec_program(),
    {
        self.connection.program()
    }
}

pub type FileItem = Item<File>;

pub type SyncIter = ItemStream<File>;

/// A file that sync updated (or, in a preview, would update).
#[derive(Debug, Clone, PartialEq, Eq)]
#[non_exhaustive]
pub struct File {
    pub depot_file: String,
    /// The file's place in the workspace, in local syntax.
    pub client_file: String,
    pub rev: usize,
    pub action: Action,
    pub file_size: usize,
}

pub struct FileView {
    pub depot_file: Seq<char>,
    pub client_file: Seq<char>,
    pub rev: usize,
    pub action: ActionView,
    pub file_size: usize,
}

impl View for File {
    type V = FileView;

    open spec fn view(&self) -> FileView {
        FileView {
            depot_file: self.depot_file@,
            client_file: self.client_file@,
            rev: self.rev,
            action: self.action@,
            file_size: self.file_size,
        }
    }
}

/// What follows a synced file's fields: two further `info1: ` lines and a
/// `change` line are skipped when all three are there, else nothing is.
pub open spec fn spec_after_sync_fields(s: Seq<u8>) -> Seq<u8> {
    match tagged_line(s, info1_tag()) {
        Some((_, a)) => match tagged_line(a, info1_tag()) {
            Some((_, b)) => match usize_field(b, change_tag()) {
                Some((_, c)) => c,
                None => s,
            },
            None => s,
        },
        None => s,
    }
}

/// A synced file at the start of `s`: `depotFile`, `clientFile`, `rev`,
/// `action` and `fileSize`, then the optional trailer.
pub open spec fn spec_synced_file(s: Seq<u8>) -> Option<(FileView, Seq<u8>)> {
    match text_field(s, depot_file_tag()) {
        None => None,
        Some((depot_file, s1)) => match text_field(s1, client_file_tag()) {
            None => None,
            Some((client_file, s2)) => match usize_field(s2, rev_tag()) {
                None => None,
                Some((rev, s3)) => match text_field(s3, action_tag()) {
                    None => None,
                    Some((action, s4)) => match usize_field(s4, file_size_tag()) {
                        None => None,
                        Some((file_size, s5)) => Some(
                            (
                                FileView {
                                    depot_file,
                                    client_file,
                                    rev,
                                    action: action_of(action),
                                    file_size,
                                },
                                spec_after_sync_fields(s5),
                            ),
                        ),
                    },
                },
            },
        },
    }
}

fn after_sync_fields(input: &[u8]) -> (r: &[u8])
    ensures
        r@ == spec_after_sync_fields(input@),
{
    match parser::ignore_info1(input) {
        Some(a) => match parser::ignore_info1(a) {
            Some(b) => match parser::change(b) {
                Some((c, _)) => c,
                None => input,
            },
            None => input,
        },
        None => input,
    }
}

/// Decodes one synced file.
pub fn file(input: &[u8]) -> (r: Option<(&[u8], File)>)
    ensures
        match r {
            Some((rest, f)) => spec_synced_file(input@) == Some((f@, rest@)),
            None => spec_synced_file(input@) is None,
        },
{
    let (s1, depot_file) = parser::depot_file(input)?;
    let (s2, client_file) = parser::client_file(s1)?;
    let (s3, rev) = parser::rev(s2)?;
    let (s4, action) = parser::action(s3)?;
    let (s5, size) = parser::file_size(s4)?;
    Some(
        (
            after_sync_fields(s5),
            File {
                depot_file: depot_file.path,
                client_file: client_file.path,
                rev: rev.rev,
                action: Action::parse(action.action.as_str()),
                file_size: size.size,
            },
        ),
    )
}

impl Record for File {
    open spec fn spec_record(s: Seq<u8>) -> Option<(FileView, Seq<u8>)> {
        spec_synced_file(s)
    }

    /// Informational lines may stand between records.
    open spec fn spec_takes_info() -> bool {
        true
    }

    fn record<'a>(input: &'a [u8]) -> (r: Option<(&'a [u8], Self)>) {
        file(input)
    }

    fn takes_info() -> (r: bool) {
        true
    }

    proof fn lemma_record_shrinks(s: Seq<u8>) {
        broadcast use lemma_tagged_line_shape;

    }

    proof fn lemma_record_not_exit(s: Seq<u8>) {
        broadcast use lemma_tagged_line_shape;

        if Self::spec_record(s) is Some {
            reveal_strlit("info1: depotFile ");
            lemma_not_exit(s, depot_file_tag());
        }
    }
}

/// Decodes the output of `p4 sync` into its entries and the exit entry.
pub fn synced_files(output: &[u8]) -> (r: Option<(Vec<FileItem>, FileItem)>)
    ensures
        match r {
            Some((items, exit)) => spec_decode::<File>(output@) == Some(views(items@).push(exit@)),
            None => spec_decode::<File>(output@) is None,
        },
{
    stream::decode_items::<File>(output)
}

/// Decodes the output of `p4 sync` into a stream of entries.
pub fn decode(output: &[u8], command: &str) -> (r: Result<SyncIter, P4Error>)
    ensures
        match r {
            Ok(s) => spec_decode::<File>(output@) == Some(views(s.remaining())),
            Err(e) => spec_decode::<File>(output@) is None && e.is_parse_failure(command@),
        },
{
    stream::decode::<File>(output, command)
}

} // verus!
