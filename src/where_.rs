//! `p4 where`: how the client view maps file names.
use vstd::prelude::*;

use crate::error::{Item, P4Error};
use crate::p4::{push_all, push_text, strs, texts, P4};
use crate::parser::{lemma_not_exit, lemma_tagged_line_shape, self, client_file_tag, depot_file_tag, path_tag, text_field};
use crate::stream::{self, spec_decode, views, ItemStream, Record};

verus! {

/// Show how file names are mapped by the client view
///
/// Where shows how the specified files are mapped by the client view.
/// For each argument, three names are produced: the name in the depot,
/// the name on the client in Perforce syntax, and the name on the client
/// in local syntax.
///
/// If the file parameter is omitted, the mapping for all files in the
/// current directory and below is returned.
#[derive(Debug, Clone)]
pub struct Where<'p, 'f> {
    connection: &'p P4,
    file: Vec<&'f str>,
}

impl<'p, 'f> Where<'p, 'f> {
    pub closed spec fn spec_connection(&self) -> P4 {
        *self.connection
    }

    pub closed spec fn spec_file(&self) -> Seq<Seq<char>> {
        strs(self.file@)
    }

    /// The arguments the client program is run with.
    pub open spec fn spec_args(&self) -> Seq<Seq<char>> {
        self.spec_connection().spec_global_args()
            + seq!["where"@]
            + self.spec_file()
    }

    pub fn new(connection: &'p P4) -> (r: Self)
        ensures
            r.spec_connection() == *connection,
            r.spec_file() == Seq::<Seq<char>>::empty(),
    {
        let v: Vec<&'f str> = Vec::new();
        assert(strs(v@) =~= Seq::<Seq<char>>::empty());
        Self {
            connection,
            file: v,

        }
    }

    /// Restrict the operation to the specified path.
    pub fn file(self, file: &'f str) -> (r: Self)
        ensures
            r.spec_file() == self.spec_file().push(file@),
            r.spec_connection() == self.spec_connection(),
    {
        let mut s = self;
        let ghost before = s.file@;
        s.file.push(file);
        assert(strs(s.file@) =~= strs(before).push(file@));
        s
    }

    /// The arguments to run the client program with.
    pub fn args(&self) -> (r: Vec<String>)
        ensures
            texts(r@) == self.spec_args(),
    {
        let mut args = self.connection.global_args();
        push_text(&mut args, "where");
        push_all(&mut args, &self.file);
        assert(texts(args@) =~= self.spec_args());
        args
    }

    /// The client program to run.
    pub fn program(&self) -> (r: String)
        ensures
            r@ == self.spec_connection().spec_program(),
    {
        self.connection.program()
    }
}

pub type FileItem = Item<File>;

pub type FileIter = ItemStream<File>;

/// One file's name in the depot, in the client's syntax and on the local disk.
#[derive(Debug, Clone, PartialEq, Eq)]
#[non_exhaustive]
pub struct File {
    pub depot_file: String,
    pub client_file: String,
    pub path: String,
}

pub struct FileView {
    pub depot_file: Seq<char>,
    pub client_file: Seq<char>,
    pub path: Seq<char>,
}

impl View for File {
    type V = FileView;

    open spec fn view(&self) -> FileView {
        FileView {
            depot_file: self.depot_file@,
            client_file: self.client_file@,
            path: self.path@,
        }
    }
}

/// A mapping at the start of `s`: `depotFile`, `clientFile`, then `path`.
pub open spec fn spec_mapped_file(s: Seq<u8>) -> Option<(FileView, Seq<u8>)> {
    match text_field(s, depot_file_tag()) {
        None => None,
        Some((depot_file, s1)) => match text_field(s1, client_file_tag()) {
            None => None,
            Some((client_file, s2)) => match text_field(s2, path_tag()) {
                None => None,
                Some((path, s3)) => Some((FileView { depot_file, client_file, path }, s3)),
            },
        },
    }
}

/// Decodes one mapping.
pub fn file(input: &[u8]) -> (r: Option<(&[u8], File)>)
    ensures
        match r {
            Some((rest, f)) => spec_mapped_file(input@) == Some((f@, rest@)),
            None => spec_mapped_file(input@) is None,
        },
{
    let (s1, depot_file) = parser::depot_file(input)?;
    let (s2, client_file) = parser::client_file(s1)?;
    let (s3, path) = parser::path(s2)?;
    Some(
        (
            s3,
            File {
                depot_file: depot_file.path,
                client_file: client_file.path,
                path: path.path,
            },
        ),
    )
}

impl Record for File {
    open spec fn spec_record(s: Seq<u8>) -> Option<(FileView, Seq<u8>)> {
        spec_mapped_file(s)
    }

    open spec fn spec_takes_info() -> bool {
        false
    }

    fn record<'a>(input: &'a [u8]) -> (r: Option<(&'a [u8], Self)>) {
        file(input)
    }

    fn takes_info() -> (r: bool) {
        false
    }

    proof fn lemma_record_shrinks(s: Seq<u8>) {
        broadcast use lemma_tagged_line_shape;

    }

    proof fn lemma_record_not_exit(s: Seq<u8>) {
        broadcast use lemma_tagged_line_shape;

        if Self::spec_record(s) is Some {
            reveal_strlit("info1: depotFile ");
            lemma_not_exit(s, depot_file_tag());
        }
    }
}

/// Decodes the output of `p4 where` into its entries and the exit entry.
pub fn where_(output: &[u8]) -> (r: Option<(Vec<FileItem>, FileItem)>)
    ensures
        match r {
            Some((items, exit)) => spec_decode::<File>(output@) == Some(views(items@).push(exit@)),
            None => spec_decode::<File>(output@) is None,
        },
{
    stream::decode_items::<File>(output)
}

/// Decodes the output of `p4 where` into a stream of entries.
pub fn decode(output: &[u8], command: &str) -> (r: Result<FileIter, P4Error>)
    ensures
        match r {
            Ok(s) => spec_decode::<File>(output@) == Some(views(s.remaining())),
            Err(e) => spec_decode::<File>(output@) is None && e.is_parse_failure(command@),
        },
{
    stream::decode::<File>(output, command)
}

} // verus!
