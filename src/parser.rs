//! Field decoders: one tagged line of scripting-mode output each.
//!
//! A line is `<tag><value><newline>`. The value runs up to the first `\n`
//! or `\r` byte; the newline is `\r\n` or `\n\r` taken whole when present,
//! else a single `\n` or `\r`.
use vstd::prelude::*;
use vstd::utf8::{decode_utf8, encode_utf8, valid_utf8};

verus! {

pub open spec fn ascii(s: Seq<char>) -> Seq<u8> {
    s.map_values(|c: char| c as u8)
}

pub open spec fn is_newline(b: u8) -> bool {
    b == 10 || b == 13
}

/// Length of the line terminator at the start of `s` (0 when there is none).
pub open spec fn newline_len(s: Seq<u8>) -> int {
    if s.len() >= 2 && ((s[0] == 13 && s[1] == 10) || (s[0] == 10 && s[1] == 13)) {
        2
    } else if s.len() >= 1 && is_newline(s[0]) {
        1
    } else {
        0
    }
}

/// Index of the first terminator byte at or after `i`, or the length of `s`.
pub open spec fn line_end(s: Seq<u8>, i: int) -> int
    decreases s.len() - i,
{
    if i >= s.len() {
        s.len() as int
    } else if is_newline(s[i]) {
        i
    } else {
        line_end(s, i + 1)
    }
}

/// A whole line `tag value newline` at the start of `s`: its value and what follows it.
pub open spec fn tagged_line(s: Seq<u8>, tag: Seq<u8>) -> Option<(Seq<u8>, Seq<u8>)> {
    if tag.len() <= s.len() && s.subrange(0, tag.len() as int) == tag {
        let e = line_end(s, tag.len() as int);
        let k = newline_len(s.subrange(e, s.len() as int));
        if k > 0 {
            Some((s.subrange(tag.len() as int, e), s.subrange(e + k, s.len() as int)))
        } else {
            None
        }
    } else {
        None
    }
}

/// Length of the terminator of a line that raw content may follow: `\n`
/// or `\r\n`. Neither is a prefix of the other, so no byte of the content
/// is ever taken as part of the terminator, whatever that byte is.
pub open spec fn content_newline_len(s: Seq<u8>) -> int {
    if s.len() >= 2 && s[0] == 13 && s[1] == 10 {
        2
    } else if s.len() >= 1 && s[0] == 10 {
        1
    } else {
        0
    }
}

/// The `info1: fileSize` line that stands right before a file's content:
/// the declared size, and the content with what follows it.
pub open spec fn content_size_field(s: Seq<u8>) -> Option<(usize, Seq<u8>)> {
    let tag = file_size_tag();
    if tag.len() <= s.len() && s.subrange(0, tag.len() as int) == tag {
        let e = line_end(s, tag.len() as int);
        let k = content_newline_len(s.subrange(e, s.len() as int));
        if k > 0 {
            match decimal(s.subrange(tag.len() as int, e)) {
                Some(n) => if n <= usize::MAX {
                    Some((n as usize, s.subrange(e + k, s.len() as int)))
                } else {
                    None
                },
                None => None,
            }
        } else {
            None
        }
    } else {
        None
    }
}

pub open spec fn is_digit(b: u8) -> bool {
    48 <= b <= 57
}

pub open spec fn digits_value(d: Seq<u8>) -> nat
    decreases d.len(),
{
    if d.len() == 0 {
        0
    } else {
        digits_value(d.drop_last()) * 10 + (d.last() - 48) as nat
    }
}

/// A non-empty run of ASCII digits, read as a decimal number.
pub open spec fn decimal(d: Seq<u8>) -> Option<nat> {
    if d.len() > 0 && forall|i: int| 0 <= i < d.len() ==> is_digit(#[trigger] d[i]) {
        Some(digits_value(d))
    } else {
        None
    }
}

/// A decimal number with an optional leading `-`.
pub open spec fn signed_decimal(d: Seq<u8>) -> Option<int> {
    if d.len() > 0 && d[0] == 45 {
        match decimal(d.drop_first()) {
            Some(v) => Some(-(v as int)),
            None => None,
        }
    } else {
        match decimal(d) {
            Some(v) => Some(v as int),
            None => None,
        }
    }
}

/// A line whose value is text: well-formed UTF-8, decoded.
pub open spec fn text_field(s: Seq<u8>, tag: Seq<u8>) -> Option<(Seq<char>, Seq<u8>)> {
    match tagged_line(s, tag) {
        Some((v, rest)) => if valid_utf8(v) {
            Some((decode_utf8(v), rest))
        } else {
            None
        },
        None => None,
    }
}

/// A line whose value is a decimal number that fits in a `usize`.
pub open spec fn usize_field(s: Seq<u8>, tag: Seq<u8>) -> Option<(usize, Seq<u8>)> {
    match tagged_line(s, tag) {
        Some((v, rest)) => match decimal(v) {
            Some(n) => if n <= usize::MAX {
                Some((n as usize, rest))
            } else {
                None
            },
            None => None,
        },
        None => None,
    }
}

/// A line whose value is a decimal number that fits in an `i64`.
pub open spec fn i64_field(s: Seq<u8>, tag: Seq<u8>) -> Option<(i64, Seq<u8>)> {
    match tagged_line(s, tag) {
        Some((v, rest)) => match decimal(v) {
            Some(n) => if n <= i64::MAX {
                Some((n as i64, rest))
            } else {
                None
            },
            None => None,
        },
        None => None,
    }
}

/// A line whose value is a signed decimal number that fits in an `i32`.
pub open spec fn i32_field(s: Seq<u8>, tag: Seq<u8>) -> Option<(i32, Seq<u8>)> {
    match tagged_line(s, tag) {
        Some((v, rest)) => match signed_decimal(v) {
            Some(n) => if i32::MIN <= n <= i32::MAX {
                Some((n as i32, rest))
            } else {
                None
            },
            None => None,
        },
        None => None,
    }
}

pub open spec fn exit_tag() -> Seq<u8> {
    ascii("exit: "@)
}

pub open spec fn error_tag() -> Seq<u8> {
    ascii("error: "@)
}

pub open spec fn info_tag() -> Seq<u8> {
    ascii("info: "@)
}

pub open spec fn info1_tag() -> Seq<u8> {
    ascii("info1: "@)
}

pub open spec fn text_tag() -> Seq<u8> {
    ascii("text: "@)
}

pub open spec fn depot_file_tag() -> Seq<u8> {
    ascii("info1: depotFile "@)
}

pub open spec fn client_file_tag() -> Seq<u8> {
    ascii("info1: clientFile "@)
}

pub open spec fn path_tag() -> Seq<u8> {
    ascii("info1: path "@)
}

pub open spec fn dir_tag() -> Seq<u8> {
    ascii("info1: dir "@)
}

pub open spec fn rev_tag() -> Seq<u8> {
    ascii("info1: rev "@)
}

pub open spec fn change_tag() -> Seq<u8> {
    ascii("info1: change "@)
}

pub open spec fn action_tag() -> Seq<u8> {
    ascii("info1: action "@)
}

pub open spec fn type_tag() -> Seq<u8> {
    ascii("info1: type "@)
}

pub open spec fn time_tag() -> Seq<u8> {
    ascii("info1: time "@)
}

pub open spec fn file_size_tag() -> Seq<u8> {
    ascii("info1: fileSize "@)
}

/// Relies on `String::from_utf8`: it accepts exactly the well-formed UTF-8
/// byte strings, and the string it returns holds those bytes.
#[verifier::external_body]
fn utf8_string(b: &[u8]) -> (r: Option<String>)
    ensures
        r is Some <==> valid_utf8(b@),
        r matches Some(s) ==> encode_utf8(s@) == b@,
{
    String::from_utf8(b.to_vec()).ok()
}

/// Decodes well-formed UTF-8; `None` for any other bytes.
pub fn text_from_bytes(b: &[u8]) -> (r: Option<String>)
    ensures
        r is Some <==> valid_utf8(b@),
        r matches Some(s) ==> s@ == decode_utf8(b@),
{
    let r = utf8_string(b);
    proof {
        if r is Some {
            vstd::utf8::encode_utf8_decode_utf8(r->Some_0@);
        }
    }
    r
}

fn tag_bytes(t: &str) -> (r: &[u8])
    requires
        vstd::string::is_ascii(t),
    ensures
        r@ == ascii(t@),
{
    proof {
        vstd::string::is_ascii_spec_bytes(t);
    }
    let r = t.as_bytes();
    assert(r@ =~= ascii(t@));
    r
}

fn starts_with(input: &[u8], tag: &[u8]) -> (r: bool)
    ensures
        r == (tag@.len() <= input@.len() && input@.subrange(0, tag@.len() as int) == tag@),
{
    if tag.len() > input.len() {
        return false;
    }
    let mut i: usize = 0;
    while i < tag.len()
        invariant
            tag@.len() <= input@.len(),
            i <= tag@.len(),
            forall|j: int| 0 <= j < i ==> input@[j] == tag@[j],
        decreases tag@.len() - i,
    {
        if input[i] != tag[i] {
            assert(input@.subrange(0, tag@.len() as int)[i as int] != tag@[i as int]);
            return false;
        }
        i = i + 1;
    }
    assert(input@.subrange(0, tag@.len() as int) =~= tag@);
    true
}

fn value_end(input: &[u8], start: usize) -> (e: usize)
    requires
        start <= input@.len(),
    ensures
        start <= e <= input@.len(),
        e == line_end(input@, start as int),
        e < input@.len() ==> is_newline(input@[e as int]),
{
    let n = input.len();
    let mut e: usize = start;
    while e < n && !(input[e] == 10u8 || input[e] == 13u8)
        invariant
            start <= e <= n,
            n == input@.len(),
            line_end(input@, start as int) == line_end(input@, e as int),
        decreases n - e,
    {
        e = e + 1;
    }
    e
}

/// Splits off one line that starts with `tag`: its value and the rest of the input.
pub(crate) fn tagged<'a>(input: &'a [u8], tag: &str) -> (r: Option<(&'a [u8], &'a [u8])>)
    requires
        vstd::string::is_ascii(tag),
    ensures
        match r {
            Some((v, rest)) => tagged_line(input@, ascii(tag@)) == Some((v@, rest@)),
            None => tagged_line(input@, ascii(tag@)) is None,
        },
{
    let t = tag_bytes(tag);
    if !starts_with(input, t) {
        return None;
    }
    let n = input.len();
    let e = value_end(input, t.len());
    let k: usize = if e < n && n - e > 1 && ((input[e] == 13u8 && input[e + 1] == 10u8) || (input[e] == 10u8
        && input[e + 1] == 13u8)) {
        2
    } else if e < n {
        1
    } else {
        0
    };
    proof {
        let tail = input@.subrange(e as int, n as int);
        assert(e < n ==> tail[0] == input@[e as int]);
        assert(e + 1 < n ==> tail[1] == input@[e + 1]);
    }
    if k == 0 {
        return None;
    }
    Some((&input[t.len()..e], &input[e + k..n]))
}

proof fn lemma_digits_prefix_le(d: Seq<u8>, i: int)
    requires
        0 <= i <= d.len(),
    ensures
        digits_value(d.subrange(0, i)) <= digits_value(d),
    decreases d.len() - i,
{
    if i < d.len() {
        lemma_digits_prefix_le(d, i + 1);
        assert(d.subrange(0, i + 1).drop_last() =~= d.subrange(0, i));
    } else {
        assert(d.subrange(0, i) =~= d);
    }
}

/// Reads a non-empty run of ASCII digits whose value is at most `limit`.
fn bounded_decimal(d: &[u8], limit: u64) -> (r: Option<u64>)
    ensures
        match r {
            Some(v) => decimal(d@) == Some(v as nat) && v <= limit,
            None => match decimal(d@) {
                Some(v) => v > limit,
                None => true,
            },
        },
{
    if d.len() == 0 {
        return None;
    }
    let mut v: u64 = 0;
    let mut i: usize = 0;
    while i < d.len()
        invariant
            i <= d@.len(),
            v as nat == digits_value(d@.subrange(0, i as int)),
            v <= limit,
            forall|j: int| 0 <= j < i ==> is_digit(#[trigger] d@[j]),
        decreases d@.len() - i,
    {
        let b = d[i];
        assert(d@.subrange(0, i + 1).drop_last() =~= d@.subrange(0, i as int));
        if b < 48u8 || b > 57u8 {
            assert(!is_digit(d@[i as int]));
            return None;
        }
        let x = (b - 48u8) as u64;
        let next = match v.checked_mul(10) {
            Some(t) => t.checked_add(x),
            None => None,
        };
        match next {
            Some(w) if w <= limit => {
                v = w;
            },
            _ => {
                proof {
                    lemma_digits_prefix_le(d@, i + 1);
                }
                assert(digits_value(d@.subrange(0, i + 1)) > limit);
                return None;
            },
        }
        i = i + 1;
    }
    assert(d@.subrange(0, d@.len() as int) =~= d@);
    Some(v)
}

fn text_line<'a>(input: &'a [u8], tag: &str) -> (r: Option<(&'a [u8], String)>)
    requires
        vstd::string::is_ascii(tag),
    ensures
        match r {
            Some((rest, v)) => text_field(input@, ascii(tag@)) == Some((v@, rest@)),
            None => text_field(input@, ascii(tag@)) is None,
        },
{
    match tagged(input, tag) {
        Some((v, rest)) => match text_from_bytes(v) {
            Some(t) => Some((rest, t)),
            None => None,
        },
        None => None,
    }
}

fn usize_line<'a>(input: &'a [u8], tag: &str) -> (r: Option<(&'a [u8], usize)>)
    requires
        vstd::string::is_ascii(tag),
    ensures
        match r {
            Some((rest, v)) => usize_field(input@, ascii(tag@)) == Some((v, rest@)),
            None => usize_field(input@, ascii(tag@)) is None,
        },
{
    match tagged(input, tag) {
        Some((v, rest)) => match bounded_decimal(v, usize::MAX as u64) {
            Some(n) => Some((rest, n as usize)),
            None => None,
        },
        None => None,
    }
}

fn i64_line<'a>(input: &'a [u8], tag: &str) -> (r: Option<(&'a [u8], i64)>)
    requires
        vstd::string::is_ascii(tag),
    ensures
        match r {
            Some((rest, v)) => i64_field(input@, ascii(tag@)) == Some((v, rest@)),
            None => i64_field(input@, ascii(tag@)) is None,
        },
{
    match tagged(input, tag) {
        Some((v, rest)) => match bounded_decimal(v, i64::MAX as u64) {
            Some(n) => Some((rest, n as i64)),
            None => None,
        },
        None => None,
    }
}

fn i32_line<'a>(input: &'a [u8], tag: &str) -> (r: Option<(&'a [u8], i32)>)
    requires
        vstd::string::is_ascii(tag),
    ensures
        match r {
            Some((rest, v)) => i32_field(input@, ascii(tag@)) == Some((v, rest@)),
            None => i32_field(input@, ascii(tag@)) is None,
        },
{
    match tagged(input, tag) {
        Some((v, rest)) => {
            if v.len() > 0 && v[0] == 45u8 {
                let digits = &v[1..v.len()];
                assert(digits@ =~= v@.drop_first());
                match bounded_decimal(digits, 2147483648u64) {
                    Some(n) => Some((rest, (0i64 - n as i64) as i32)),
                    None => None,
                }
            } else {
                match bounded_decimal(v, 2147483647u64) {
                    Some(n) => Some((rest, n as i32)),
                    None => None,
                }
            }
        },
        None => None,
    }
}

/// A line terminator.
#[derive(Debug, Copy, Clone, PartialEq, Eq)]
pub struct Newline;

/// Decodes one line terminator: `\r\n` or `\n\r` whole, else `\n` or `\r`.
pub fn newline(input: &[u8]) -> (r: Option<(&[u8], Newline)>)
    ensures
        match r {
            Some((rest, _)) => newline_len(input@) > 0 && rest@ == input@.subrange(
                newline_len(input@),
                input@.len() as int,
            ),
            None => newline_len(input@) == 0,
        },
{
    let n = input.len();
    let k: usize = if n > 1 && ((input[0] == 13u8 && input[1] == 10u8) || (input[0] == 10u8
        && input[1] == 13u8)) {
        2
    } else if n > 0 && (input[0] == 10u8 || input[0] == 13u8) {
        1
    } else {
        0
    };
    if k == 0 {
        None
    } else {
        Some((&input[k..n], Newline))
    }
}

/// The exit status of the client process.
#[derive(Debug, Copy, Clone, PartialEq, Eq)]
pub struct Exit {
    pub code: i32,
}

/// Decodes `exit: <code>`; the code may carry a leading `-`.
pub fn exit(input: &[u8]) -> (r: Option<(&[u8], Exit)>)
    ensures
        match r {
            Some((rest, t)) => i32_field(input@, exit_tag()) == Some((t.code, rest@)),
            None => i32_field(input@, exit_tag()) is None,
        },
{
    proof {
        reveal_strlit("exit: ");
    }
    match i32_line(input, "exit: ") {
        Some((rest, code)) => Some((rest, Exit { code })),
        None => None,
    }
}

/// A message line that the client reported as an error.
#[derive(Debug, Clone, PartialEq, Eq)]
pub struct Error {
    pub msg: String,
}

/// Decodes `error: <message>`.
pub fn error(input: &[u8]) -> (r: Option<(&[u8], Error)>)
    ensures
        match r {
            Some((rest, t)) => text_field(input@, error_tag()) == Some((t.msg@, rest@)),
            None => text_field(input@, error_tag()) is None,
        },
{
    proof {
        reveal_strlit("error: ");
    }
    match text_line(input, "error: ") {
        Some((rest, msg)) => Some((rest, Error { msg })),
        None => None,
    }
}

/// An informational message line.
#[derive(Debug, Clone, PartialEq, Eq)]
pub struct Info {
    pub msg: String,
}

/// Decodes `info: <message>`.
pub fn info(input: &[u8]) -> (r: Option<(&[u8], Info)>)
    ensures
        match r {
            Some((rest, t)) => text_field(input@, info_tag()) == Some((t.msg@, rest@)),
            None => text_field(input@, info_tag()) is None,
        },
{
    proof {
        reveal_strlit("info: ");
    }
    match text_line(input, "info: ") {
        Some((rest, msg)) => Some((rest, Info { msg })),
        None => None,
    }
}

/// Skips one `info1: ` line whatever its field, returning what follows it.
pub fn ignore_info1(input: &[u8]) -> (r: Option<&[u8]>)
    ensures
        match r {
            Some(rest) => tagged_line(input@, info1_tag()) matches Some((_, t)) && t == rest@,
            None => tagged_line(input@, info1_tag()) is None,
        },
{
    proof {
        reveal_strlit("info1: ");
    }
    match tagged(input, "info1: ") {
        Some((_, rest)) => Some(rest),
        None => None,
    }
}

/// Decodes `text: <line>`, one line of a text file's content.
pub fn text(input: &[u8]) -> (r: Option<(&[u8], String)>)
    ensures
        match r {
            Some((rest, t)) => text_field(input@, text_tag()) == Some((t@, rest@)),
            None => text_field(input@, text_tag()) is None,
        },
{
    proof {
        reveal_strlit("text: ");
    }
    text_line(input, "text: ")
}

#[derive(Debug, Clone, PartialEq, Eq)]
pub struct DepotFile {
    pub path: String,
}

/// Decodes `info1: depotFile <path>`.
pub fn depot_file(input: &[u8]) -> (r: Option<(&[u8], DepotFile)>)
    ensures
        match r {
            Some((rest, t)) => text_field(input@, depot_file_tag()) == Some((t.path@, rest@)),
            None => text_field(input@, depot_file_tag()) is None,
        },
{
    proof {
        reveal_strlit("info1: depotFile ");
    }
    match text_line(input, "info1: depotFile ") {
        Some((rest, path)) => Some((rest, DepotFile { path })),
        None => None,
    }
}

#[derive(Debug, Clone, PartialEq, Eq)]
pub struct ClientFile {
    pub path: String,
}

/// Decodes `info1: clientFile <path>`.
pub fn client_file(input: &[u8]) -> (r: Option<(&[u8], ClientFile)>)
    ensures
        match r {
            Some((rest, t)) => text_field(input@, client_file_tag()) == Some((t.path@, rest@)),
            None => text_field(input@, client_file_tag()) is None,
        },
{
    proof {
        reveal_strlit("info1: clientFile ");
    }
    match text_line(input, "info1: clientFile ") {
        Some((rest, path)) => Some((rest, ClientFile { path })),
        None => None,
    }
}

#[derive(Debug, Clone, PartialEq, Eq)]
pub struct Path {
    pub path: String,
}

/// Decodes `info1: path <local path>`.
pub fn path(input: &[u8]) -> (r: Option<(&[u8], Path)>)
    ensures
        match r {
            Some((rest, t)) => text_field(input@, path_tag()) == Some((t.path@, rest@)),
            None => text_field(input@, path_tag()) is None,
        },
{
    proof {
        reveal_strlit("info1: path ");
    }
    match text_line(input, "info1: path ") {
        Some((rest, path)) => Some((rest, Path { path })),
        None => None,
    }
}

#[derive(Debug, Clone, PartialEq, Eq)]
pub struct Dir {
    pub dir: String,
}

/// Decodes `info1: dir <path>`.
pub fn dir(input: &[u8]) -> (r: Option<(&[u8], Dir)>)
    ensures
        match r {
            Some((rest, t)) => text_field(input@, dir_tag()) == Some((t.dir@, rest@)),
            None => text_field(input@, dir_tag()) is None,
        },
{
    proof {
        reveal_strlit("info1: dir ");
    }
    match text_line(input, "info1: dir ") {
        Some((rest, dir)) => Some((rest, Dir { dir })),
        None => None,
    }
}

#[derive(Debug, Copy, Clone, PartialEq, Eq)]
pub struct Rev {
    pub rev: usize,
}

/// Decodes `info1: rev <n>`.
pub fn rev(input: &[u8]) -> (r: Option<(&[u8], Rev)>)
    ensures
        match r {
            Some((rest, t)) => usize_field(input@, rev_tag()) == Some((t.rev, rest@)),
            None => usize_field(input@, rev_tag()) is None,
        },
{
    proof {
        reveal_strlit("info1: rev ");
    }
    match usize_line(input, "info1: rev ") {
        Some((rest, rev)) => Some((rest, Rev { rev })),
        None => None,
    }
}

#[derive(Debug, Copy, Clone, PartialEq, Eq)]
pub struct Change {
    pub change: usize,
}

/// Decodes `info1: change <n>`.
pub fn change(input: &[u8]) -> (r: Option<(&[u8], Change)>)
    ensures
        match r {
            Some((rest, t)) => usize_field(input@, change_tag()) == Some((t.change, rest@)),
            None => usize_field(input@, change_tag()) is None,
        },
{
    proof {
        reveal_strlit("info1: change ");
    }
    match usize_line(input, "info1: change ") {
        Some((rest, change)) => Some((rest, Change { change })),
        None => None,
    }
}

#[derive(Debug, Clone, PartialEq, Eq)]
pub struct Action {
    pub action: String,
}

/// Decodes `info1: action <action>`.
pub fn action(input: &[u8]) -> (r: Option<(&[u8], Action)>)
    ensures
        match r {
            Some((rest, t)) => text_field(input@, action_tag()) == Some((t.action@, rest@)),
            None => text_field(input@, action_tag()) is None,
        },
{
    proof {
        reveal_strlit("info1: action ");
    }
    match text_line(input, "info1: action ") {
        Some((rest, action)) => Some((rest, Action { action })),
        None => None,
    }
}

#[derive(Debug, Clone, PartialEq, Eq)]
pub struct FileType {
    pub ft: String,
}

/// Decodes `info1: type <file type>`.
pub fn file_type(input: &[u8]) -> (r: Option<(&[u8], FileType)>)
    ensures
        match r {
            Some((rest, t)) => text_field(input@, type_tag()) == Some((t.ft@, rest@)),
            None => text_field(input@, type_tag()) is None,
        },
{
    proof {
        reveal_strlit("info1: type ");
    }
    match text_line(input, "info1: type ") {
        Some((rest, ft)) => Some((rest, FileType { ft })),
        None => None,
    }
}

#[derive(Debug, Copy, Clone, PartialEq, Eq)]
pub struct Time {
    pub time: i64,
}

/// Decodes `info1: time <seconds since the epoch>`.
pub fn time(input: &[u8]) -> (r: Option<(&[u8], Time)>)
    ensures
        match r {
            Some((rest, t)) => i64_field(input@, time_tag()) == Some((t.time, rest@)),
            None => i64_field(input@, time_tag()) is None,
        },
{
    proof {
        reveal_strlit("info1: time ");
    }
    match i64_line(input, "info1: time ") {
        Some((rest, time)) => Some((rest, Time { time })),
        None => None,
    }
}

#[derive(Debug, Copy, Clone, PartialEq, Eq)]
pub struct FileSize {
    pub size: usize,
}

/// Decodes `info1: fileSize <bytes>`.
pub fn file_size(input: &[u8]) -> (r: Option<(&[u8], FileSize)>)
    ensures
        match r {
            Some((rest, t)) => usize_field(input@, file_size_tag()) == Some((t.size, rest@)),
            None => usize_field(input@, file_size_tag()) is None,
        },
{
    proof {
        reveal_strlit("info1: fileSize ");
    }
    match usize_line(input, "info1: fileSize ") {
        Some((rest, size)) => Some((rest, FileSize { size })),
        None => None,
    }
}

/// Decodes `info1: fileSize <bytes>` as the line right before a file's
/// content: it ends with `\n` or `\r\n`, and the content starts right after.
pub fn content_size(input: &[u8]) -> (r: Option<(&[u8], FileSize)>)
    ensures
        match r {
            Some((rest, t)) => content_size_field(input@) == Some((t.size, rest@)),
            None => content_size_field(input@) is None,
        },
{
    proof {
        reveal_strlit("info1: fileSize ");
    }
    let t = tag_bytes("info1: fileSize ");
    if !starts_with(input, t) {
        return None;
    }
    let n = input.len();
    let e = value_end(input, t.len());
    let k: usize = if e < n && n - e > 1 && input[e] == 13u8 && input[e + 1] == 10u8 {
        2
    } else if e < n && input[e] == 10u8 {
        1
    } else {
        0
    };
    proof {
        let tail = input@.subrange(e as int, n as int);
        assert(e < n ==> tail[0] == input@[e as int]);
        assert(e + 1 < n ==> tail[1] == input@[e + 1]);
    }
    if k == 0 {
        return None;
    }
    let size = bounded_decimal(&input[t.len()..e], usize::MAX as u64)?;
    Some((&input[e + k..n], FileSize { size: size as usize }))
}

/// A decoded line is a whole line at the start of the input: the tag, the
/// value without terminator bytes, one terminator, and what follows.
pub broadcast proof fn lemma_tagged_line_shape(s: Seq<u8>, tag: Seq<u8>)
    ensures
        #[trigger] tagged_line(s, tag) matches Some((v, rest)) ==> {
            &&& tag.len() <= s.len()
            &&& s.subrange(0, tag.len() as int) == tag
            &&& rest.len() < s.len()
            &&& forall|i: int| 0 <= i < v.len() ==> !is_newline(#[trigger] v[i])
            &&& exists|nl: Seq<u8>|
                {
                    &&& s == tag + v + nl + rest
                    &&& 1 <= nl.len() <= 2
                    &&& newline_len(nl) == nl.len()
                }
        },
{
    if let Some((v, rest)) = tagged_line(s, tag) {
        let t = tag.len() as int;
        let e = line_end(s, t);
        lemma_line_end(s, t);
        let k = newline_len(s.subrange(e, s.len() as int));
        let nl = s.subrange(e, e + k);
        assert(newline_len(nl) == k);
        assert(s =~= tag + v + nl + rest);
        assert forall|i: int| 0 <= i < v.len() implies !is_newline(#[trigger] v[i]) by {
            assert(v[i] == s[t + i]);
        }
    }
}

proof fn lemma_line_end(s: Seq<u8>, i: int)
    requires
        0 <= i <= s.len(),
    ensures
        i <= line_end(s, i) <= s.len(),
        line_end(s, i) < s.len() ==> is_newline(s[line_end(s, i)]),
        forall|j: int| i <= j < line_end(s, i) ==> !is_newline(#[trigger] s[j]),
    decreases s.len() - i,
{
    if i < s.len() && !is_newline(s[i]) {
        lemma_line_end(s, i + 1);
    }
}

/// A line's text value re-encodes to exactly the bytes between the tag and
/// the terminator.
pub proof fn lemma_text_field_round_trip(s: Seq<u8>, tag: Seq<u8>)
    ensures
        text_field(s, tag) matches Some((t, rest)) ==> exists|nl: Seq<u8>|
            {
                &&& s == tag + encode_utf8(t) + nl + rest
                &&& 1 <= nl.len() <= 2
                &&& newline_len(nl) == nl.len()
            },
{
    broadcast use lemma_tagged_line_shape;

    if let Some((v, rest)) = tagged_line(s, tag) {
        if valid_utf8(v) {
            vstd::utf8::decode_utf8_encode_utf8(v);
        }
    }
}

/// A line's number is the decimal value of the digits between the tag and
/// the terminator.
pub proof fn lemma_usize_field_round_trip(s: Seq<u8>, tag: Seq<u8>)
    ensures
        usize_field(s, tag) matches Some((n, rest)) ==> exists|d: Seq<u8>, nl: Seq<u8>|
            {
                &&& s == tag + d + nl + rest
                &&& decimal(d) == Some(n as nat)
                &&& 1 <= nl.len() <= 2
                &&& newline_len(nl) == nl.len()
            },
{
    broadcast use lemma_tagged_line_shape;

}

/// The same for a time field.
pub proof fn lemma_i64_field_round_trip(s: Seq<u8>, tag: Seq<u8>)
    ensures
        i64_field(s, tag) matches Some((n, rest)) ==> exists|d: Seq<u8>, nl: Seq<u8>|
            {
                &&& s == tag + d + nl + rest
                &&& decimal(d) == Some(n as nat)
                &&& 1 <= nl.len() <= 2
                &&& newline_len(nl) == nl.len()
            },
{
    broadcast use lemma_tagged_line_shape;

}

/// The same for the exit status, which may carry a leading `-`.
pub proof fn lemma_i32_field_round_trip(s: Seq<u8>, tag: Seq<u8>)
    ensures
        i32_field(s, tag) matches Some((n, rest)) ==> exists|d: Seq<u8>, nl: Seq<u8>|
            {
                &&& s == tag + d + nl + rest
                &&& signed_decimal(d) == Some(n as int)
                &&& 1 <= nl.len() <= 2
                &&& newline_len(nl) == nl.len()
            },
{
    broadcast use lemma_tagged_line_shape;

}

/// Two tags that differ within both their lengths never both start a line of `s`.
pub proof fn lemma_tags_exclusive(s: Seq<u8>, t1: Seq<u8>, t2: Seq<u8>, j: int)
    requires
        0 <= j < t1.len(),
        j < t2.len(),
        t1[j] != t2[j],
    ensures
        !(tagged_line(s, t1) is Some && tagged_line(s, t2) is Some),
{
    broadcast use lemma_tagged_line_shape;

    if tagged_line(s, t1) is Some && tagged_line(s, t2) is Some {
        assert(s.subrange(0, t1.len() as int)[j] == s[j]);
        assert(s.subrange(0, t2.len() as int)[j] == s[j]);
    }
}

/// A line whose tag starts with `i` (an `info1: ` field, say) is never an exit line.
pub proof fn lemma_not_exit(s: Seq<u8>, tag: Seq<u8>)
    requires
        tag.len() > 0,
        tag[0] == 'i' as u8,
        tagged_line(s, tag) is Some,
    ensures
        i32_field(s, exit_tag()) is None,
{
    reveal_strlit("exit: ");
    lemma_tags_exclusive(s, tag, exit_tag(), 0);
}

/// An error line and an informational line are never exit lines.
pub proof fn lemma_messages_not_exit(s: Seq<u8>)
    requires
        i32_field(s, exit_tag()) is Some,
    ensures
        text_field(s, error_tag()) is None,
        text_field(s, info_tag()) is None,
{
    reveal_strlit("exit: ");
    reveal_strlit("error: ");
    reveal_strlit("info: ");
    lemma_tags_exclusive(s, error_tag(), exit_tag(), 1);
    lemma_tags_exclusive(s, info_tag(), exit_tag(), 0);
}

proof fn lemma_line_end_at(s: Seq<u8>, i: int, j: int)
    requires
        0 <= i <= j < s.len(),
        forall|k: int| i <= k < j ==> !is_newline(#[trigger] s[k]),
        is_newline(s[j]),
    ensures
        line_end(s, i) == j,
    decreases j - i,
{
    if i < j {
        lemma_line_end_at(s, i + 1, j);
    }
}

/// The size line takes up at least one byte.
pub proof fn lemma_content_size_shrinks(s: Seq<u8>)
    ensures
        content_size_field(s) matches Some((_, rest)) ==> rest.len() < s.len(),
{
    if content_size_field(s) is Some {
        lemma_line_end(s, file_size_tag().len() as int);
    }
}

/// A size line written as the tag, the digits of the size and `\n` (or
/// `\r\n`) decodes to that size, and leaves all that follows it untouched.
pub proof fn lemma_content_size_line(d: Seq<u8>, nl: Seq<u8>, rest: Seq<u8>)
    requires
        decimal(d) is Some,
        decimal(d)->Some_0 <= usize::MAX,
        nl == seq![10u8] || nl == seq![13u8, 10u8],
    ensures
        content_size_field(file_size_tag() + d + nl + rest) == Some(
            (decimal(d)->Some_0 as usize, rest),
        ),
{
    let tag = file_size_tag();
    let s = tag + d + nl + rest;
    let t = tag.len() as int;
    let e = t + d.len();
    assert(s.subrange(0, t) =~= tag);
    assert forall|k: int| t <= k < e implies !is_newline(#[trigger] s[k]) by {
        assert(s[k] == d[k - t]);
        assert(is_digit(d[k - t]));
    }
    assert(s[e] == nl[0]);
    lemma_line_end_at(s, t, e);
    let tail = s.subrange(e, s.len() as int);
    assert(tail =~= nl + rest);
    assert(tail[0] == nl[0]);
    assert(nl.len() == 2 ==> tail[1] == nl[1]);
    assert(s.subrange(t, e) =~= d);
    assert(s.subrange(e + nl.len(), s.len() as int) =~= rest);
}

} // verus!
