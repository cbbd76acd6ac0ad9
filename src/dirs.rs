//! `p4 dirs`: list depot subdirectories.
use vstd::prelude::*;

use crate::error::{Item, P4Error};
use crate::p4::{flag, opt_arg, push_all, push_flag, push_opt_str, push_text, strs, texts, P4};
use crate::parser::{lemma_not_exit, lemma_tagged_line_shape, self, dir_tag, text_field};
use crate::stream::{self, spec_decode, views, ItemStream, Record};

verus! {

/// List depot subdirectories
///
/// List directories that match the specified file pattern (dir).
/// This command does not support the recursive wildcard (...).
/// Use the * wildcard instead.
///
/// Perforce does not track directories individually. A path is treated
/// as a directory if there are any undeleted files with that path as a
/// prefix.
///
/// By default, all directories containing files are listed. If the dir
/// argument includes a revision range, only directories containing files
/// in the range are listed.
#[derive(Debug, Clone)]
pub struct Dirs<'p, 'f, 's> {
    connection: &'p P4,
    dir: Vec<&'f str>,
    client_only: bool,
    stream: Option<&'s str>,
    include_deleted: bool,
    include_synced: bool,
    ignore_case: bool,
}

impl<'p, 'f, 's> Dirs<'p, 'f, 's> {
    pub closed spec fn spec_connection(&self) -> P4 {
        *self.connection
    }

    pub closed spec fn spec_dir(&self) -> Seq<Seq<char>> {
        strs(self.dir@)
    }

    pub closed spec fn spec_client_only(&self) -> bool {
        self.client_only
    }

    pub closed spec fn spec_stream(&self) -> Option<Seq<char>> {
        match self.stream {
            Some(s) => Some(s@),
            None => None,
        }
    }

    pub closed spec fn spec_include_deleted(&self) -> bool {
        self.include_deleted
    }

    pub closed spec fn spec_include_synced(&self) -> bool {
        self.include_synced
    }

    pub closed spec fn spec_ignore_case(&self) -> bool {
        self.ignore_case
    }

    /// The arguments the client program is run with.
    pub open spec fn spec_args(&self) -> Seq<Seq<char>> {
        self.spec_connection().spec_global_args()
            + seq!["dirs"@]
            + flag("-C"@, self.spec_client_only())
            + opt_arg("-S"@, self.spec_stream())
            + flag("-D"@, self.spec_include_deleted())
            + flag("-H"@, self.spec_include_synced())
            + flag("-i"@, self.spec_ignore_case())
            + self.spec_dir()
    }

    pub fn new(connection: &'p P4, dir: &'f str) -> (r: Self)
        ensures
            r.spec_connection() == *connection,
            r.spec_dir() == seq![dir@],
            r.spec_client_only() == false,
            r.spec_stream() == None::<Seq<char>>,
            r.spec_include_deleted() == false,
            r.spec_include_synced() == false,
            r.spec_ignore_case() == false,
    {
        let mut v: Vec<&'f str> = Vec::new();
        v.push(dir);
        assert(strs(v@) =~= seq![dir@]);
        Self {
            connection,
            dir: v,
            client_only: false,
            stream: None,
            include_deleted: false,
            include_synced: false,
            ignore_case: false,
        }
    }

    pub fn dir(self, dir: &'f str) -> (r: Self)
        ensures
            r.spec_dir() == self.spec_dir().push(dir@),
            r.spec_client_only() == self.spec_client_only(),
            r.spec_stream() == self.spec_stream(),
            r.spec_include_deleted() == self.spec_include_deleted(),
            r.spec_include_synced() == self.spec_include_synced(),
            r.spec_ignore_case() == self.spec_ignore_case(),
            r.spec_connection() == self.spec_connection(),
    {
        let mut s = self;
        let ghost before = s.dir@;
        s.dir.push(dir);
        assert(strs(s.dir@) =~= strs(before).push(dir@));
        s
    }

    /// The -C flag lists only directories that fall within the current
    /// client view.
    pub fn client_only(self, client_only: bool) -> (r: Self)
        ensures
            r.spec_client_only() == client_only,
            r.spec_dir() == self.spec_dir(),
            r.spec_stream() == self.spec_stream(),
            r.spec_include_deleted() == self.spec_include_deleted(),
            r.spec_include_synced() == self.spec_include_synced(),
            r.spec_ignore_case() == self.spec_ignore_case(),
            r.spec_connection() == self.spec_connection(),
    {
        Self { client_only, ..self }
    }

    /// The -S flag limits output to depot directories mapped in a stream's
    /// client view.
    pub fn set_stream(self, stream: &'s str) -> (r: Self)
        ensures
            r.spec_stream() == Some(stream@),
            r.spec_dir() == self.spec_dir(),
            r.spec_client_only() == self.spec_client_only(),
            r.spec_include_deleted() == self.spec_include_deleted(),
            r.spec_include_synced() == self.spec_include_synced(),
            r.spec_ignore_case() == self.spec_ignore_case(),
            r.spec_connection() == self.spec_connection(),
    {
        Self { stream: Some(stream), ..self }
    }

    /// The -D flag includes directories containing only deleted files.
    pub fn include_deleted(self, include_deleted: bool) -> (r: Self)
        ensures
            r.spec_include_deleted() == include_deleted,
            r.spec_dir() == self.spec_dir(),
            r.spec_client_only() == self.spec_client_only(),
            r.spec_stream() == self.spec_stream(),
            r.spec_include_synced() == self.spec_include_synced(),
            r.spec_ignore_case() == self.spec_ignore_case(),
            r.spec_connection() == self.spec_connection(),
    {
        Self { include_deleted, ..self }
    }

    /// The -H flag lists directories containing files synced to the current
    /// client workspace.
    pub fn include_synced(self, include_synced: bool) -> (r: Self)
        ensures
            r.spec_include_synced() == include_synced,
            r.spec_dir() == self.spec_dir(),
            r.spec_client_only() == self.spec_client_only(),
            r.spec_stream() == self.spec_stream(),
            r.spec_include_deleted() == self.spec_include_deleted(),
            r.spec_ignore_case() == self.spec_ignore_case(),
            r.spec_connection() == self.spec_connection(),
    {
        Self { include_synced, ..self }
    }

    /// The -i flag is used to ignore the case of the file pattern when
    /// listing directories in a case sensitive server. This flag is not
    /// compatible with the -C option.
    pub fn ignore_case(self, ignore_case: bool) -> (r: Self)
        ensures
            r.spec_ignore_case() == ignore_case,
            r.spec_dir() == self.spec_dir(),
            r.spec_client_only() == self.spec_client_only(),
            r.spec_stream() == self.spec_stream(),
            r.spec_include_deleted() == self.spec_include_deleted(),
            r.spec_include_synced() == self.spec_include_synced(),
            r.spec_connection() == self.spec_connection(),
    {
        Self { ignore_case, ..self }
    }

    /// The arguments to run the client program with.
    pub fn args(&self) -> (r: Vec<String>)
        ensures
            texts(r@) == self.spec_args(),
    {
        let mut args = self.connection.global_args();
        push_text(&mut args, "dirs");
        push_flag(&mut args, "-C", self.client_only);
        push_opt_str(&mut args, "-S", self.stream);
        push_flag(&mut args, "-D", self.include_deleted);
        push_flag(&mut args, "-H", self.include_synced);
        push_flag(&mut args, "-i", self.ignore_case);
        push_all(&mut args, &self.dir);
        assert(texts(args@) =~= self.spec_args());
        args
    }

    /// The client program to run.
    pub fn program(&self) -> (r: String)
        ensures
            r@ == self.spec_connection().spec_program(),
    {
        self.connection.program()
    }
}

pub type DirItem = Item<Dir>;

pub type DirsIter = ItemStream<Dir>;

/// A depot directory.
#[derive(Debug, Clone, PartialEq, Eq)]
#[non_exhaustive]
pub struct Dir {
    pub dir: String,
}

impl View for Dir {
    type V = Seq<char>;

    open spec fn view(&self) -> Seq<char> {
        self.dir@
    }
}

impl Record for Dir {
    /// One `info1: dir` line.
    open spec fn spec_record(s: Seq<u8>) -> Option<(Seq<char>, Seq<u8>)> {
        text_field(s, dir_tag())
    }

    open spec fn spec_takes_info() -> bool {
        false
    }

    fn record<'a>(input: &'a [u8]) -> (r: Option<(&'a [u8], Self)>) {
        match parser::dir(input) {
            Some((rest, d)) => Some((rest, Dir { dir: d.dir })),
            None => None,
        }
    }

    fn takes_info() -> (r: bool) {
        false
    }

    proof fn lemma_record_shrinks(s: Seq<u8>) {
        broadcast use lemma_tagged_line_shape;

    }

    proof fn lemma_record_not_exit(s: Seq<u8>) {
        broadcast use lemma_tagged_line_shape;

        if Self::spec_record(s) is Some {
            reveal_strlit("info1: dir ");
            lemma_not_exit(s, dir_tag());
        }
    }
}

/// Decodes the output of `p4 dirs` into its entries and the exit entry.
pub fn dirs(output: &[u8]) -> (r: Option<(Vec<DirItem>, DirItem)>)
    ensures
        match r {
            Some((items, exit)) => spec_decode::<Dir>(output@) == Some(views(items@).push(exit@)),
            None => spec_decode::<Dir>(output@) is None,
        },
{
    stream::decode_items::<Dir>(output)
}

/// Decodes the output of `p4 dirs` into a stream of entries.
pub fn decode(output: &[u8], command: &str) -> (r: Result<DirsIter, P4Error>)
    ensures
        match r {
            Ok(s) => spec_decode::<Dir>(output@) == Some(views(s.remaining())),
            Err(e) => spec_decode::<Dir>(output@) is None && e.is_parse_failure(command@),
        },
{
    stream::decode::<Dir>(output, command)
}

} // verus!
