//! `p4 print`: file records followed by the file's content.
use vstd::prelude::*;

use crate::error::{Item, ItemView, P4Error};
use crate::files::{file_fields, spec_file_fields};
use crate::p4::{
    flag, opt_arg, opt_decimal, push_all, push_flag, push_opt_decimal, push_text, strs, texts,
    Action, ActionView, BaseFileType, BaseFileTypeView, FileType, FileTypeView, Time, P4,
};
use crate::parser::{decimal, exit_tag, i32_field, lemma_content_size_line, lemma_messages_not_exit, content_size_field, lemma_content_size_shrinks, depot_file_tag, lemma_not_exit, lemma_tagged_line_shape, self, file_size_tag, text_field, text_tag, usize_field};
use crate::stream::{self, spec_decode, spec_entries, spec_entry, views, ItemStream, Record};

verus! {

/// Write a depot file to standard output
///
/// Retrieve the contents of a depot file to the client's standard output.
/// The file is not synced.  If file is specified using client syntax,
/// Perforce uses the client view to determine the corresponding depot
/// file.
///
/// By default, the head revision is printed.  If the file argument
/// includes a revision, the specified revision is printed.  If the
/// file argument has a revision range,  then only files selected by
/// that revision range are printed, and the highest revision in the
/// range is printed.
#[derive(Debug, Clone)]
pub struct Print<'p, 'f> {
    connection: &'p P4,
    file: Vec<&'f str>,
    all_revs: bool,
    keyword_expansion: bool,
    max_files: Option<usize>,
}

impl<'p, 'f> Print<'p, 'f> {
    pub closed spec fn spec_connection(&self) -> P4 {
        *self.connection
    }

    pub closed spec fn spec_file(&self) -> Seq<Seq<char>> {
        strs(self.file@)
    }

    pub closed spec fn spec_all_revs(&self) -> bool {
        self.all_revs
    }

    pub closed spec fn spec_keyword_expansion(&self) -> bool {
        self.keyword_expansion
    }

    pub closed spec fn spec_max_files(&self) -> Option<usize> {
        self.max_files
    }

    /// The arguments the client program is run with.
    pub open spec fn spec_args(&self) -> Seq<Seq<char>> {
        self.spec_connection().spec_global_args()
            + seq!["print"@]
            + flag("-a"@, self.spec_all_revs())
            + flag("-k"@, !self.spec_keyword_expansion())
            + opt_arg("-m"@, opt_decimal(self.spec_max_files()))
            + self.spec_file()
    }

    pub fn new(connection: &'p P4, file: &'f str) -> (r: Self)
        ensures
            r.spec_connection() == *connection,
            r.spec_file() == seq![file@],
            r.spec_all_revs() == false,
            r.spec_keyword_expansion() == true,
            r.spec_max_files() == None::<usize>,
    {
        let mut v: Vec<&'f str> = Vec::new();
        v.push(file);
        assert(strs(v@) =~= seq![file@]);
        Self {
            connection,
            file: v,
            all_revs: false,
            keyword_expansion: true,
            max_files: None,
        }
    }

    pub fn file(self, file: &'f str) -> (r: Self)
        ensures
            r.spec_file() == self.spec_file().push(file@),
            r.spec_all_revs() == self.spec_all_revs(),
            r.spec_keyword_expansion() == self.spec_keyword_expansion(),
            r.spec_max_files() == self.spec_max_files(),
            r.spec_connection() == self.spec_connection(),
    {
        let mut s = self;
        let ghost before = s.file@;
        s.file.push(file);
        assert(strs(s.file@) =~= strs(before).push(file@));
        s
    }

    /// The -a flag prints all revisions within the specified range, rather
    /// than just the highest revision in the range.
    pub fn all_revs(self, all_revs: bool) -> (r: Self)
        ensures
            r.spec_all_revs() == all_revs,
            r.spec_file() == self.spec_file(),
            r.spec_keyword_expansion() == self.spec_keyword_expansion(),
            r.spec_max_files() == self.spec_max_files(),
            r.spec_connection() == self.spec_connection(),
    {
        Self { all_revs, ..self }
    }

    /// The -k flag suppresses keyword expansion.
    pub fn keyword_expansion(self, keyword_expansion: bool) -> (r: Self)
        ensures
            r.spec_keyword_expansion() == keyword_expansion,
            r.spec_file() == self.spec_file(),
            r.spec_all_revs() == self.spec_all_revs(),
            r.spec_max_files() == self.spec_max_files(),
            r.spec_connection() == self.spec_connection(),
    {
        Self { keyword_expansion, ..self }
    }

    /// The -m flag limits print to the first 'max' number of files.
    pub fn max_files(self, max_files: usize) -> (r: Self)
        ensures
            r.spec_max_files() == Some(max_files),
            r.spec_file() == self.spec_file(),
            r.spec_all_revs() == self.spec_all_revs(),
            r.spec_keyword_expansion() == self.spec_keyword_expansion(),
            r.spec_connection() == self.spec_connection(),
    {
        Self { max_files: Some(max_files), ..self }
    }

    /// The arguments to run the client program with.
    pub fn args(&self) -> (r: Vec<String>)
        ensures
            texts(r@) == self.spec_args(),
    {
        let mut args = self.connection.global_args();
        push_text(&mut args, "print");
        push_flag(&mut args, "-a", self.all_revs);
        push_flag(&mut args, "-k", !self.keyword_expansion);
        push_opt_decimal(&mut args, "-m", self.max_files);
        push_all(&mut args, &self.file);
        assert(texts(args@) =~= self.spec_args());
        args
    }

    /// The client program to run.
    pub fn program(&self) -> (r: String)
        ensures
            r@ == self.spec_connection().spec_program(),
    {
        self.connection.program()
    }
}

pub type FileItem = Item<File>;

pub type PrintIter = ItemStream<File>;

/// The content of a printed file.
#[derive(Debug, Clone, PartialEq, Eq)]
#[non_exhaustive]
pub enum FileContent {
    /// One string per line, tag and line terminator removed.
    Text(Vec<String>),
    /// The bytes as the client sent them.
    Binary(Vec<u8>),
}

pub enum FileContentView {
    Text(Seq<Seq<char>>),
    Binary(Seq<u8>),
}

impl View for FileContent {
    type V = FileContentView;

    open spec fn view(&self) -> FileContentView {
        match self {
            FileContent::Text(lines) => FileContentView::Text(texts(lines@)),
            FileContent::Binary(bytes) => FileContentView::Binary(bytes@),
        }
    }
}

impl FileContent {
    pub fn as_text(&self) -> (r: Option<&[String]>)
        ensures
            match self {
                FileContent::Text(lines) => r matches Some(s) && s@ == lines@,
                _ => r is None,
            },
    {
        match self {
            FileContent::Text(lines) => Some(lines.as_slice()),
            _ => None,
        }
    }

    pub fn as_binary(&self) -> (r: Option<&[u8]>)
        ensures
            match self {
                FileContent::Binary(bytes) => r matches Some(s) && s@ == bytes@,
                _ => r is None,
            },
    {
        match self {
            FileContent::Binary(bytes) => Some(bytes.as_slice()),
            _ => None,
        }
    }
}

/// A printed file revision: its record and its content.
#[derive(Debug, Clone, PartialEq, Eq)]
#[non_exhaustive]
pub struct File {
    pub content: FileContent,
    pub depot_file: String,
    pub rev: usize,
    pub change: usize,
    pub action: Action,
    pub file_type: FileType,
    pub time: Time,
    pub file_size: usize,
}

pub struct FileView {
    pub content: FileContentView,
    pub depot_file: Seq<char>,
    pub rev: usize,
    pub change: usize,
    pub action: ActionView,
    pub file_type: FileTypeView,
    pub time: i64,
    pub file_size: usize,
}

impl View for File {
    type V = FileView;

    open spec fn view(&self) -> FileView {
        FileView {
            content: self.content@,
            depot_file: self.depot_file@,
            rev: self.rev,
            change: self.change,
            action: self.action@,
            file_type: self.file_type@,
            time: self.time.timestamp,
            file_size: self.file_size,
        }
    }
}

/// The `text: ` lines at the start of `s`, as many as match, and what follows them.
pub open spec fn spec_text_lines(s: Seq<u8>) -> (Seq<Seq<char>>, Seq<u8>)
    decreases s.len(),
{
    match text_field(s, text_tag()) {
        Some((line, rest)) => if rest.len() < s.len() {
            let (more, end) = spec_text_lines(rest);
            (seq![line] + more, end)
        } else {
            (Seq::empty(), s)
        },
        None => (Seq::empty(), s),
    }
}

/// The content that follows a record of declared size `size`. A file whose
/// base type is binary takes exactly `size` raw bytes, never scanned for tags.
/// Any other file takes its `text: ` lines when at least one follows, else
/// `size` raw bytes. The output itself does not mark which form follows: a
/// non-binary file whose raw bytes happen to begin with a well-formed
/// `text: ` line is read as text.
pub open spec fn spec_content(s: Seq<u8>, binary: bool, size: usize) -> Option<
    (FileContentView, Seq<u8>),
> {
    let (lines, rest) = spec_text_lines(s);
    if !binary && lines.len() > 0 {
        Some((FileContentView::Text(lines), rest))
    } else if size <= s.len() {
        Some((FileContentView::Binary(s.subrange(0, size as int)), s.subrange(size as int, s.len() as int)))
    } else {
        None
    }
}

/// A printed file at the start of `s`: the fields of a file revision,
/// `fileSize` (ended by `\n` or `\r\n`), then the content.
pub open spec fn spec_printed_file(s: Seq<u8>) -> Option<(FileView, Seq<u8>)> {
    match spec_file_fields(s) {
        None => None,
        Some((f, s1)) => match content_size_field(s1) {
            None => None,
            Some((file_size, s2)) => match spec_content(
                s2,
                f.file_type.base == BaseFileTypeView::Binary,
                file_size,
            ) {
                None => None,
                Some((content, s3)) => Some(
                    (
                        FileView {
                            content,
                            depot_file: f.depot_file,
                            rev: f.rev,
                            change: f.change,
                            action: f.action,
                            file_type: f.file_type,
                            time: f.time,
                            file_size,
                        },
                        s3,
                    ),
                ),
            },
        },
    }
}

proof fn lemma_text_lines_shrink(s: Seq<u8>)
    ensures
        spec_text_lines(s).1.len() <= s.len(),
    decreases s.len(),
{
    if let Some((line, rest)) = text_field(s, text_tag()) {
        if rest.len() < s.len() {
            lemma_text_lines_shrink(rest);
        }
    }
}

fn text_lines(input: &[u8]) -> (r: (Vec<String>, &[u8]))
    ensures
        spec_text_lines(input@) == (texts(r.0@), r.1@),
{
    let mut lines: Vec<String> = Vec::new();
    let mut rest = input;
    loop
        invariant
            spec_text_lines(input@) == (
                texts(lines@) + spec_text_lines(rest@).0,
                spec_text_lines(rest@).1,
            ),
        ensures
            spec_text_lines(rest@) == (Seq::<Seq<char>>::empty(), rest@),
        decreases rest@.len(),
    {
        match parser::text(rest) {
            Some((next, line)) => {
                if next.len() < rest.len() {
                    proof {
                        assert(texts(lines@.push(line)) =~= texts(lines@).push(line@));
                        assert(texts(lines@) + spec_text_lines(rest@).0 =~= texts(lines@.push(line))
                            + spec_text_lines(next@).0);
                    }
                    lines.push(line);
                    rest = next;
                } else {
                    break ;
                }
            },
            None => {
                break ;
            },
        }
    }
    assert(texts(lines@) + spec_text_lines(rest@).0 =~= texts(lines@));
    (lines, rest)
}

fn content(input: &[u8], binary: bool, size: usize) -> (r: Option<(&[u8], FileContent)>)
    ensures
        match r {
            Some((rest, c)) => spec_content(input@, binary, size) == Some((c@, rest@)),
            None => spec_content(input@, binary, size) is None,
        },
{
    if !binary {
        let (lines, rest) = text_lines(input);
        if lines.len() > 0 {
            return Some((rest, FileContent::Text(lines)));
        }
    }
    if size <= input.len() {
        let bytes = vstd::slice::slice_to_vec(&input[0..size]);
        Some((&input[size..input.len()], FileContent::Binary(bytes)))
    } else {
        None
    }
}

/// Decodes one printed file: its record, its size, then its content.
pub fn file(input: &[u8]) -> (r: Option<(&[u8], File)>)
    ensures
        match r {
            Some((rest, f)) => spec_printed_file(input@) == Some((f@, rest@)),
            None => spec_printed_file(input@) is None,
        },
{
    let (s1, f) = file_fields(input)?;
    let (s2, size) = parser::content_size(s1)?;
    let binary = match f.file_type.base {
        BaseFileType::Binary => true,
        _ => false,
    };
    let (s3, content) = content(s2, binary, size.size)?;
    Some(
        (
            s3,
            File {
                content,
                depot_file: f.depot_file,
                rev: f.rev,
                change: f.change,
                action: f.action,
                file_type: f.file_type,
                time: f.time,
                file_size: size.size,
            },
        ),
    )
}

impl Record for File {
    open spec fn spec_record(s: Seq<u8>) -> Option<(FileView, Seq<u8>)> {
        spec_printed_file(s)
    }

    open spec fn spec_takes_info() -> bool {
        false
    }

    fn record<'a>(input: &'a [u8]) -> (r: Option<(&'a [u8], Self)>) {
        file(input)
    }

    fn takes_info() -> (r: bool) {
        false
    }

    proof fn lemma_record_shrinks(s: Seq<u8>) {
        broadcast use lemma_tagged_line_shape;

        if let Some((f, s1)) = spec_file_fields(s) {
            lemma_content_size_shrinks(s1);
            if let Some((size, s2)) = content_size_field(s1) {
                lemma_text_lines_shrink(s2);
            }
        }
    }

    proof fn lemma_record_not_exit(s: Seq<u8>) {
        broadcast use lemma_tagged_line_shape;

        if Self::spec_record(s) is Some {
            reveal_strlit("info1: depotFile ");
            lemma_not_exit(s, depot_file_tag());
        }
    }
}

/// Decodes the output of `p4 print` into its entries and the exit entry.
pub fn printed_files(output: &[u8]) -> (r: Option<(Vec<FileItem>, FileItem)>)
    ensures
        match r {
            Some((items, exit)) => spec_decode::<File>(output@) == Some(views(items@).push(exit@)),
            None => spec_decode::<File>(output@) is None,
        },
{
    stream::decode_items::<File>(output)
}

/// Decodes the output of `p4 print` into a stream of entries.
pub fn decode(output: &[u8], command: &str) -> (r: Result<PrintIter, P4Error>)
    ensures
        match r {
            Ok(s) => spec_decode::<File>(output@) == Some(views(s.remaining())),
            Err(e) => spec_decode::<File>(output@) is None && e.is_parse_failure(command@),
        },
{
    stream::decode::<File>(output, command)
}

/// File content is kept byte for byte. After a size line that declares
/// `p.len()` bytes and ends in `\n` or `\r\n`, the content of a binary file
/// is exactly `p`, whatever bytes `p` holds (a leading `\r` or `\n`
/// included); so is that of any other file whose content does not start
/// with a `text: ` line. With an exit line after it, the buffer decodes to
/// that one file and the exit entry.
pub proof fn law_raw_content_verbatim(
    s: Seq<u8>,
    d: Seq<u8>,
    nl: Seq<u8>,
    p: Seq<u8>,
    tail: Seq<u8>,
)
    requires
        spec_file_fields(s) is Some,
        (spec_file_fields(s)->Some_0).1 == file_size_tag() + d + nl + p + tail,
        (spec_file_fields(s)->Some_0).0.file_type.base == BaseFileTypeView::Binary || text_field(
            p + tail,
            text_tag(),
        ) is None,
        decimal(d) == Some(p.len()),
        p.len() <= usize::MAX,
        nl == seq![10u8] || nl == seq![13u8, 10u8],
    ensures
        spec_printed_file(s) matches Some((v, rest)) && v.content == FileContentView::Binary(p)
            && v.file_size == p.len() && rest == tail,
        i32_field(tail, exit_tag()) matches Some((code, _)) ==> spec_decode::<File>(s) == Some(
            seq![ItemView::Data((spec_printed_file(s)->Some_0).0), ItemView::Error(code)],
        ),
{
    let (f, s1) = spec_file_fields(s)->Some_0;
    let body = p + tail;
    assert(file_size_tag() + d + nl + p + tail =~= file_size_tag() + d + nl + body);
    lemma_content_size_line(d, nl, body);
    assert(content_size_field(s1) == Some((p.len() as usize, body)));
    assert(body.subrange(0, p.len() as int) =~= p);
    assert(body.subrange(p.len() as int, body.len() as int) =~= tail);
    if f.file_type.base != BaseFileTypeView::Binary {
        assert(spec_text_lines(body) == (Seq::<Seq<char>>::empty(), body));
    }
    if let Some((code, _)) = i32_field(tail, exit_tag()) {
        let v = (spec_printed_file(s)->Some_0).0;
        File::lemma_record_shrinks(s);
        File::lemma_record_not_exit(tail);
        lemma_messages_not_exit(tail);
        assert(spec_entry::<File>(tail) is None);
        assert(spec_entries::<File>(tail) == (Seq::<ItemView<FileView>>::empty(), tail));
        assert(spec_entries::<File>(s).0 =~= seq![ItemView::Data(v)]);
        assert(seq![ItemView::Data(v)].push(ItemView::Error(code)) =~= seq![
            ItemView::Data(v),
            ItemView::Error(code),
        ]);
    }
}

} // verus!
