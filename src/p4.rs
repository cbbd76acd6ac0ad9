//! Values that file records carry: action, file type, time.
use vstd::prelude::*;
use vstd::string::StringExecFns;
use vstd::utf8::{decode_utf8, encode_utf8, valid_utf8};

use crate::parser::text_from_bytes;

verus! {

fn bytes_eq(a: &[u8], b: &[u8]) -> (r: bool)
    ensures
        r == (a@ == b@),
{
    if a.len() != b.len() {
        return false;
    }
    let mut i: usize = 0;
    while i < a.len()
        invariant
            a@.len() == b@.len(),
            i <= a@.len(),
            forall|j: int| 0 <= j < i ==> a@[j] == b@[j],
        decreases a@.len() - i,
    {
        if a[i] != b[i] {
            return false;
        }
        i = i + 1;
    }
    assert(a@ =~= b@);
    true
}

/// Whether two strings hold the same characters.
pub fn same_text(a: &str, b: &str) -> (r: bool)
    ensures
        r == (a@ == b@),
{
    proof {
        vstd::utf8::encode_utf8_decode_utf8(a@);
        vstd::utf8::encode_utf8_decode_utf8(b@);
    }
    bytes_eq(a.as_bytes(), b.as_bytes())
}

pub open spec fn digit_char(d: nat) -> char {
    if d == 0 {
        '0'
    } else if d == 1 {
        '1'
    } else if d == 2 {
        '2'
    } else if d == 3 {
        '3'
    } else if d == 4 {
        '4'
    } else if d == 5 {
        '5'
    } else if d == 6 {
        '6'
    } else if d == 7 {
        '7'
    } else if d == 8 {
        '8'
    } else {
        '9'
    }
}

/// The decimal digits of `n`, most significant first.
pub open spec fn decimal_text(n: nat) -> Seq<char>
    decreases n,
{
    if n < 10 {
        seq![digit_char(n)]
    } else {
        decimal_text(n / 10).push(digit_char(n % 10))
    }
}

fn digit_str(d: usize) -> (r: &'static str)
    requires
        d < 10,
    ensures
        r@ == seq![digit_char(d as nat)],
{
    proof {
        reveal_strlit("0");
        reveal_strlit("1");
        reveal_strlit("2");
        reveal_strlit("3");
        reveal_strlit("4");
        reveal_strlit("5");
        reveal_strlit("6");
        reveal_strlit("7");
        reveal_strlit("8");
        reveal_strlit("9");
    }
    let r = if d == 0 {
        "0"
    } else if d == 1 {
        "1"
    } else if d == 2 {
        "2"
    } else if d == 3 {
        "3"
    } else if d == 4 {
        "4"
    } else if d == 5 {
        "5"
    } else if d == 6 {
        "6"
    } else if d == 7 {
        "7"
    } else if d == 8 {
        "8"
    } else {
        "9"
    };
    assert(r@ =~= seq![digit_char(d as nat)]);
    r
}

/// `n` written in decimal.
pub fn to_decimal(n: usize) -> (r: String)
    ensures
        r@ == decimal_text(n as nat),
    decreases n,
{
    if n < 10 {
        String::from_str(digit_str(n))
    } else {
        let mut s = to_decimal(n / 10);
        s.append(digit_str(n % 10));
        s
    }
}

/// Action performed on a file at a given revision.
#[derive(Debug, Clone, PartialEq, Eq)]
#[non_exhaustive]
pub enum Action {
    Add,
    Edit,
    Delete,
    Branch,
    MoveAdd,
    MoveDelete,
    Integrate,
    Import,
    Purge,
    Archive,
    Unknown(String),
}

/// The model of an [`Action`]: the variant, and the text of an unknown one.
pub enum ActionView {
    Add,
    Edit,
    Delete,
    Branch,
    MoveAdd,
    MoveDelete,
    Integrate,
    Import,
    Purge,
    Archive,
    Unknown(Seq<char>),
}

impl View for Action {
    type V = ActionView;

    open spec fn view(&self) -> ActionView {
        match self {
            Action::Add => ActionView::Add,
            Action::Edit => ActionView::Edit,
            Action::Delete => ActionView::Delete,
            Action::Branch => ActionView::Branch,
            Action::MoveAdd => ActionView::MoveAdd,
            Action::MoveDelete => ActionView::MoveDelete,
            Action::Integrate => ActionView::Integrate,
            Action::Import => ActionView::Import,
            Action::Purge => ActionView::Purge,
            Action::Archive => ActionView::Archive,
            Action::Unknown(s) => ActionView::Unknown(s@),
        }
    }
}

/// The action the client names `t`; any other text is kept as unknown.
pub open spec fn action_of(t: Seq<char>) -> ActionView {
    if t == "add"@ {
        ActionView::Add
    } else if t == "edit"@ {
        ActionView::Edit
    } else if t == "delete"@ {
        ActionView::Delete
    } else if t == "branch"@ {
        ActionView::Branch
    } else if t == "move/add"@ {
        ActionView::MoveAdd
    } else if t == "move/delete"@ {
        ActionView::MoveDelete
    } else if t == "integrate"@ {
        ActionView::Integrate
    } else if t == "import"@ {
        ActionView::Import
    } else if t == "purge"@ {
        ActionView::Purge
    } else if t == "archive"@ {
        ActionView::Archive
    } else {
        ActionView::Unknown(t)
    }
}

/// The text the client uses for an action.
pub open spec fn action_text(a: ActionView) -> Seq<char> {
    match a {
        ActionView::Add => "add"@,
        ActionView::Edit => "edit"@,
        ActionView::Delete => "delete"@,
        ActionView::Branch => "branch"@,
        ActionView::MoveAdd => "move/add"@,
        ActionView::MoveDelete => "move/delete"@,
        ActionView::Integrate => "integrate"@,
        ActionView::Import => "import"@,
        ActionView::Purge => "purge"@,
        ActionView::Archive => "archive"@,
        ActionView::Unknown(t) => t,
    }
}

impl Action {
    /// Reads an action; text the client does not define becomes `Unknown`.
    pub fn parse(s: &str) -> (r: Action)
        ensures
            r@ == action_of(s@),
    {
        if same_text(s, "add") {
            Action::Add
        } else if same_text(s, "edit") {
            Action::Edit
        } else if same_text(s, "delete") {
            Action::Delete
        } else if same_text(s, "branch") {
            Action::Branch
        } else if same_text(s, "move/add") {
            Action::MoveAdd
        } else if same_text(s, "move/delete") {
            Action::MoveDelete
        } else if same_text(s, "integrate") {
            Action::Integrate
        } else if same_text(s, "import") {
            Action::Import
        } else if same_text(s, "purge") {
            Action::Purge
        } else if same_text(s, "archive") {
            Action::Archive
        } else {
            Action::Unknown(s.to_owned())
        }
    }

    /// The text the client uses for this action.
    pub fn as_str(&self) -> (r: &str)
        ensures
            r@ == action_text(self@),
    {
        match self {
            Action::Add => "add",
            Action::Edit => "edit",
            Action::Delete => "delete",
            Action::Branch => "branch",
            Action::MoveAdd => "move/add",
            Action::MoveDelete => "move/delete",
            Action::Integrate => "integrate",
            Action::Import => "import",
            Action::Purge => "purge",
            Action::Archive => "archive",
            Action::Unknown(s) => s.as_str(),
        }
    }
}

/// Perforce base file type.
#[derive(Debug, Clone, PartialEq, Eq)]
#[non_exhaustive]
pub enum BaseFileType {
    /// Synced as text, with line-ending translation.
    Text,
    /// Synced as is; stored compressed.
    Binary,
    /// A symbolic link where the platform has them, else a small text file.
    Symlink,
    /// Translated into the client's character set.
    Unicode,
    /// Synced as UTF-8 with a byte order mark.
    Utf8,
    /// Synced as UTF-16 with a byte order mark.
    Utf16,
    Unknown(String),
}

/// The model of a [`BaseFileType`]: the variant, and the text of an unknown one.
pub enum BaseFileTypeView {
    Text,
    Binary,
    Symlink,
    Unicode,
    Utf8,
    Utf16,
    Unknown(Seq<char>),
}

impl View for BaseFileType {
    type V = BaseFileTypeView;

    open spec fn view(&self) -> BaseFileTypeView {
        match self {
            BaseFileType::Text => BaseFileTypeView::Text,
            BaseFileType::Binary => BaseFileTypeView::Binary,
            BaseFileType::Symlink => BaseFileTypeView::Symlink,
            BaseFileType::Unicode => BaseFileTypeView::Unicode,
            BaseFileType::Utf8 => BaseFileTypeView::Utf8,
            BaseFileType::Utf16 => BaseFileTypeView::Utf16,
            BaseFileType::Unknown(s) => BaseFileTypeView::Unknown(s@),
        }
    }
}

pub open spec fn base_file_type_of(t: Seq<char>) -> BaseFileTypeView {
    if t == "text"@ {
        BaseFileTypeView::Text
    } else if t == "binary"@ {
        BaseFileTypeView::Binary
    } else if t == "symlink"@ {
        BaseFileTypeView::Symlink
    } else if t == "unicode"@ {
        BaseFileTypeView::Unicode
    } else if t == "utf8"@ {
        BaseFileTypeView::Utf8
    } else if t == "utf16"@ {
        BaseFileTypeView::Utf16
    } else {
        BaseFileTypeView::Unknown(t)
    }
}

pub open spec fn base_file_type_text(b: BaseFileTypeView) -> Seq<char> {
    match b {
        BaseFileTypeView::Text => "text"@,
        BaseFileTypeView::Binary => "binary"@,
        BaseFileTypeView::Symlink => "symlink"@,
        BaseFileTypeView::Unicode => "unicode"@,
        BaseFileTypeView::Utf8 => "utf8"@,
        BaseFileTypeView::Utf16 => "utf16"@,
        BaseFileTypeView::Unknown(t) => t,
    }
}

impl Default for BaseFileType {
    fn default() -> (r: Self)
        ensures
            r@ == BaseFileTypeView::Text,
    {
        BaseFileType::Text
    }
}

impl BaseFileType {
    /// Reads a base file type; text the client does not define becomes `Unknown`.
    pub fn parse(s: &str) -> (r: BaseFileType)
        ensures
            r@ == base_file_type_of(s@),
    {
        if same_text(s, "text") {
            BaseFileType::Text
        } else if same_text(s, "binary") {
            BaseFileType::Binary
        } else if same_text(s, "symlink") {
            BaseFileType::Symlink
        } else if same_text(s, "unicode") {
            BaseFileType::Unicode
        } else if same_text(s, "utf8") {
            BaseFileType::Utf8
        } else if same_text(s, "utf16") {
            BaseFileType::Utf16
        } else {
            BaseFileType::Unknown(s.to_owned())
        }
    }

    /// The text the client uses for this base type.
    pub fn as_str(&self) -> (r: &str)
        ensures
            r@ == base_file_type_text(self@),
    {
        match self {
            BaseFileType::Text => "text",
            BaseFileType::Binary => "binary",
            BaseFileType::Symlink => "symlink",
            BaseFileType::Unicode => "unicode",
            BaseFileType::Utf8 => "utf8",
            BaseFileType::Utf16 => "utf16",
            BaseFileType::Unknown(s) => s.as_str(),
        }
    }
}

/// Perforce file type modifiers.
#[derive(Debug, Clone, Copy, PartialEq, Eq)]
#[non_exhaustive]
pub struct FileTypeModifiers {
    /// File is always writable on client
    pub always_writeable: bool,
    /// Execute bit set on client
    pub executable: bool,
    /// RCS keyword expansion
    pub rcs_expansion: bool,
    /// Exclusive open (locking)
    pub exclusive: bool,
    /// Perforce stores the full compressed version of each file revision
    pub full: bool,
    /// Perforce stores deltas in RCS format
    pub deltas: bool,
    /// Perforce stores full file per revision, uncompressed
    pub full_uncompressed: bool,
    /// Only the head revision is stored
    pub head: bool,
    /// Only the most recent n revisions are stored
    pub revisions: Option<usize>,
    /// Preserve original modtime
    pub modtime: bool,
    /// Archive trigger required
    pub archive: bool,
}

pub open spec fn no_modifiers() -> FileTypeModifiers {
    FileTypeModifiers {
        always_writeable: false,
        executable: false,
        rcs_expansion: false,
        exclusive: false,
        full: false,
        deltas: false,
        full_uncompressed: false,
        head: false,
        revisions: None,
        modtime: false,
        archive: false,
    }
}

/// `m` with the modifier that the letter `f` names; `None` for any other byte.
pub open spec fn with_modifier(m: FileTypeModifiers, f: u8) -> Option<FileTypeModifiers> {
    if f == 'w' as u8 {
        Some(FileTypeModifiers { always_writeable: true, ..m })
    } else if f == 'x' as u8 {
        Some(FileTypeModifiers { executable: true, ..m })
    } else if f == 'k' as u8 {
        Some(FileTypeModifiers { rcs_expansion: true, ..m })
    } else if f == 'l' as u8 {
        Some(FileTypeModifiers { exclusive: true, ..m })
    } else if f == 'C' as u8 {
        Some(FileTypeModifiers { full: true, ..m })
    } else if f == 'D' as u8 {
        Some(FileTypeModifiers { deltas: true, ..m })
    } else if f == 'F' as u8 {
        Some(FileTypeModifiers { full_uncompressed: true, ..m })
    } else if f == 'S' as u8 {
        Some(FileTypeModifiers { head: true, ..m })
    } else if f == 'm' as u8 {
        Some(FileTypeModifiers { modtime: true, ..m })
    } else if f == 'X' as u8 {
        Some(FileTypeModifiers { archive: true, ..m })
    } else {
        None
    }
}

/// The modifiers that a run of modifier letters sets.
pub open spec fn modifiers_of(b: Seq<u8>) -> Option<FileTypeModifiers>
    decreases b.len(),
{
    if b.len() == 0 {
        Some(no_modifiers())
    } else {
        match modifiers_of(b.drop_last()) {
            Some(m) => with_modifier(m, b.last()),
            None => None,
        }
    }
}

pub open spec fn flag_text(on: bool, letter: Seq<char>) -> Seq<char> {
    if on {
        letter
    } else {
        Seq::empty()
    }
}

/// The modifier letters of `m`, in the client's order.
pub open spec fn modifiers_text(m: FileTypeModifiers) -> Seq<char> {
    flag_text(m.always_writeable, "w"@) + flag_text(m.executable, "x"@) + flag_text(
        m.rcs_expansion,
        "k"@,
    ) + flag_text(m.exclusive, "l"@) + flag_text(m.full, "C"@) + flag_text(m.deltas, "D"@)
        + flag_text(m.full_uncompressed, "F"@) + flag_text(m.head, "S"@) + match m.revisions {
        Some(n) => "S"@ + decimal_text(n as nat),
        None => Seq::empty(),
    } + flag_text(m.modtime, "m"@) + flag_text(m.archive, "X"@)
}

fn modifier_flag(flag: bool, letter: &str, s: &mut String)
    ensures
        final(s)@ == old(s)@ + flag_text(flag, letter@),
{
    if flag {
        s.append(letter);
    } else {
        assert(old(s)@ + flag_text(flag, letter@) =~= old(s)@);
    }
}

impl Default for FileTypeModifiers {
    fn default() -> (r: Self)
        ensures
            r == no_modifiers(),
    {
        FileTypeModifiers {
            always_writeable: false,
            executable: false,
            rcs_expansion: false,
            exclusive: false,
            full: false,
            deltas: false,
            full_uncompressed: false,
            head: false,
            revisions: None,
            modtime: false,
            archive: false,
        }
    }
}

impl FileTypeModifiers {
    pub fn new() -> (r: Self)
        ensures
            r == no_modifiers(),
    {
        Self::default()
    }

    /// Reads modifier letters; `None` when a byte names no modifier.
    pub fn from_bytes(b: &[u8]) -> (r: Option<Self>)
        ensures
            r == modifiers_of(b@),
    {
        let mut m = Self::new();
        let mut i: usize = 0;
        while i < b.len()
            invariant
                i <= b@.len(),
                modifiers_of(b@.subrange(0, i as int)) == Some(m),
            decreases b@.len() - i,
        {
            let f = b[i];
            assert(b@.subrange(0, i + 1).drop_last() =~= b@.subrange(0, i as int));
            if f == 'w' as u8 {
                m.always_writeable = true;
            } else if f == 'x' as u8 {
                m.executable = true;
            } else if f == 'k' as u8 {
                m.rcs_expansion = true;
            } else if f == 'l' as u8 {
                m.exclusive = true;
            } else if f == 'C' as u8 {
                m.full = true;
            } else if f == 'D' as u8 {
                m.deltas = true;
            } else if f == 'F' as u8 {
                m.full_uncompressed = true;
            } else if f == 'S' as u8 {
                m.head = true;
            } else if f == 'm' as u8 {
                m.modtime = true;
            } else if f == 'X' as u8 {
                m.archive = true;
            } else {
                proof {
                    lemma_modifiers_none_extends(b@, i as int + 1);
                }
                assert(b@.subrange(0, b@.len() as int) =~= b@);
                return None;
            }
            i = i + 1;
        }
        assert(b@.subrange(0, b@.len() as int) =~= b@);
        Some(m)
    }

    /// Reads modifier letters such as `lx`.
    pub fn parse(s: &str) -> (r: Option<Self>)
        ensures
            r == modifiers_of(encode_utf8(s@)),
    {
        Self::from_bytes(s.as_bytes())
    }

    /// The modifier letters, as the client writes them after `+`.
    pub fn to_text(&self) -> (r: String)
        ensures
            r@ == modifiers_text(*self),
    {
        proof {
            reveal_strlit("S");
        }
        let mut s = String::new();
        modifier_flag(self.always_writeable, "w", &mut s);
        modifier_flag(self.executable, "x", &mut s);
        modifier_flag(self.rcs_expansion, "k", &mut s);
        modifier_flag(self.exclusive, "l", &mut s);
        modifier_flag(self.full, "C", &mut s);
        modifier_flag(self.deltas, "D", &mut s);
        modifier_flag(self.full_uncompressed, "F", &mut s);
        modifier_flag(self.head, "S", &mut s);
        let ghost before = s@;
        match self.revisions {
            Some(n) => {
                s.append("S");
                let d = to_decimal(n);
                s.append(d.as_str());
                assert(s@ =~= before + ("S"@ + decimal_text(n as nat)));
            },
            None => {
                assert(s@ =~= before + Seq::<char>::empty());
            },
        }
        modifier_flag(self.modtime, "m", &mut s);
        modifier_flag(self.archive, "X", &mut s);
        assert(s@ =~= modifiers_text(*self));
        s
    }
}

proof fn lemma_modifiers_none_extends(b: Seq<u8>, i: int)
    requires
        0 < i <= b.len(),
        modifiers_of(b.subrange(0, i)) is None,
    ensures
        modifiers_of(b) is None,
    decreases b.len() - i,
{
    if i < b.len() {
        assert(b.subrange(0, i + 1).drop_last() =~= b.subrange(0, i));
        lemma_modifiers_none_extends(b, i + 1);
    } else {
        assert(b.subrange(0, i) =~= b);
    }
}

/// Perforce file type: a base type and, after `+`, modifiers.
#[derive(Debug, Clone, PartialEq, Eq)]
#[non_exhaustive]
pub struct FileType {
    /// The base Perforce file type
    pub base: BaseFileType,
    pub modifiers: Option<FileTypeModifiers>,
}

pub struct FileTypeView {
    pub base: BaseFileTypeView,
    pub modifiers: Option<FileTypeModifiers>,
}

impl View for FileType {
    type V = FileTypeView;

    open spec fn view(&self) -> FileTypeView {
        FileTypeView { base: self.base@, modifiers: self.modifiers }
    }
}

/// Index of the first `+` at or after `i`, or the length of `b`.
pub open spec fn plus_index(b: Seq<u8>, i: int) -> int
    decreases b.len() - i,
{
    if i >= b.len() {
        b.len() as int
    } else if b[i] == '+' as u8 {
        i
    } else {
        plus_index(b, i + 1)
    }
}

/// The file type written `b`: the base before the first `+`, the modifiers
/// after it. `None` when the base is not UTF-8 or a modifier is unknown.
pub open spec fn file_type_of(b: Seq<u8>) -> Option<FileTypeView> {
    let k = plus_index(b, 0);
    let base = b.subrange(0, k);
    if !valid_utf8(base) {
        None
    } else if k == b.len() {
        Some(FileTypeView { base: base_file_type_of(decode_utf8(base)), modifiers: None })
    } else {
        match modifiers_of(b.subrange(k + 1, b.len() as int)) {
            Some(m) => Some(
                FileTypeView { base: base_file_type_of(decode_utf8(base)), modifiers: Some(m) },
            ),
            None => None,
        }
    }
}

pub open spec fn file_type_text(t: FileTypeView) -> Seq<char> {
    match t.modifiers {
        Some(m) => base_file_type_text(t.base) + "+"@ + modifiers_text(m),
        None => base_file_type_text(t.base),
    }
}

impl Default for FileType {
    fn default() -> (r: Self)
        ensures
            r@ == (FileTypeView { base: BaseFileTypeView::Text, modifiers: None }),
    {
        FileType { base: BaseFileType::Text, modifiers: None }
    }
}

impl FileType {
    pub fn new() -> (r: Self)
        ensures
            r@ == (FileTypeView { base: BaseFileTypeView::Text, modifiers: None }),
    {
        Self::default()
    }

    pub fn base(self, base: BaseFileType) -> (r: Self)
        ensures
            r.base == base,
            r.modifiers == self.modifiers,
    {
        FileType { base, ..self }
    }

    pub fn modifiers(self, modifiers: Option<FileTypeModifiers>) -> (r: Self)
        ensures
            r.base == self.base,
            r.modifiers == modifiers,
    {
        FileType { modifiers, ..self }
    }

    /// Reads a file type written as bytes.
    pub fn from_bytes(b: &[u8]) -> (r: Option<Self>)
        ensures
            match r {
                Some(t) => file_type_of(b@) == Some(t@),
                None => file_type_of(b@) is None,
            },
    {
        let n = b.len();
        let mut k: usize = 0;
        while k < n && b[k] != '+' as u8
            invariant
                k <= n,
                n == b@.len(),
                plus_index(b@, 0) == plus_index(b@, k as int),
            decreases n - k,
        {
            k = k + 1;
        }
        let base = match text_from_bytes(&b[0..k]) {
            Some(s) => BaseFileType::parse(s.as_str()),
            None => {
                return None;
            },
        };
        if k == n {
            Some(FileType { base, modifiers: None })
        } else {
            match FileTypeModifiers::from_bytes(&b[k + 1..n]) {
                Some(m) => Some(FileType { base, modifiers: Some(m) }),
                None => None,
            }
        }
    }

    /// Reads a file type such as `binary+l`.
    pub fn parse(s: &str) -> (r: Option<Self>)
        ensures
            match r {
                Some(t) => file_type_of(encode_utf8(s@)) == Some(t@),
                None => file_type_of(encode_utf8(s@)) is None,
            },
    {
        Self::from_bytes(s.as_bytes())
    }

    /// The text the client uses for this file type.
    pub fn to_text(&self) -> (r: String)
        ensures
            r@ == file_type_text(self@),
    {
        let mut s = String::from_str(self.base.as_str());
        match &self.modifiers {
            Some(m) => {
                s.append("+");
                let t = m.to_text();
                s.append(t.as_str());
                assert(s@ =~= file_type_text(self@));
            },
            None => {},
        }
        s
    }
}

/// A point in time, as whole seconds since the Unix epoch (UTC).
#[derive(Debug, Copy, Clone, PartialEq, Eq, Hash)]
pub struct Time {
    pub timestamp: i64,
}

pub fn to_timestamp(time: &Time) -> (r: i64)
    ensures
        r == time.timestamp,
{
    time.timestamp
}

pub fn from_timestamp(timestamp: i64) -> (r: Time)
    ensures
        r.timestamp == timestamp,
{
    Time { timestamp }
}

/// How to reach the server: which client program to run, and the global
/// options every command gets.
#[derive(Clone, Debug)]
pub struct P4 {
    custom_p4: Option<String>,
    port: Option<String>,
    user: Option<String>,
    password: Option<String>,
    client: Option<String>,
    retries: Option<usize>,
}

/// `flag value` when a value is set, nothing otherwise.
pub open spec fn opt_arg(flag: Seq<char>, value: Option<Seq<char>>) -> Seq<Seq<char>> {
    match value {
        Some(v) => seq![flag, v],
        None => Seq::empty(),
    }
}

pub open spec fn opt_view(value: Option<String>) -> Option<Seq<char>> {
    match value {
        Some(v) => Some(v@),
        None => None,
    }
}

pub open spec fn opt_decimal(value: Option<usize>) -> Option<Seq<char>> {
    match value {
        Some(n) => Some(decimal_text(n as nat)),
        None => None,
    }
}

pub open spec fn texts(v: Seq<String>) -> Seq<Seq<char>> {
    v.map_values(|s: String| s@)
}

pub(crate) fn push_text(args: &mut Vec<String>, a: &str)
    ensures
        texts(final(args)@) == texts(old(args)@).push(a@),
{
    args.push(a.to_owned());
    assert(texts(args@) =~= texts(old(args)@).push(a@));
}

pub(crate) fn push_opt(args: &mut Vec<String>, flag: &str, value: &Option<String>)
    ensures
        texts(final(args)@) == texts(old(args)@) + opt_arg(flag@, opt_view(*value)),
{
    match value {
        Some(v) => {
            push_text(args, flag);
            push_text(args, v.as_str());
            assert(texts(args@) =~= texts(old(args)@) + opt_arg(flag@, opt_view(*value)));
        },
        None => {
            assert(texts(args@) =~= texts(old(args)@) + opt_arg(flag@, opt_view(*value)));
        },
    }
}

pub(crate) fn push_opt_str(args: &mut Vec<String>, flag: &str, value: Option<&str>)
    ensures
        texts(final(args)@) == texts(old(args)@) + opt_arg(
            flag@,
            match value {
                Some(v) => Some(v@),
                None => None,
            },
        ),
{
    match value {
        Some(v) => {
            push_text(args, flag);
            push_text(args, v);
        },
        None => {},
    }
    assert(texts(args@) =~= texts(old(args)@) + opt_arg(
        flag@,
        match value {
            Some(v) => Some(v@),
            None => None,
        },
    ));
}

pub(crate) fn push_opt_decimal(args: &mut Vec<String>, flag: &str, value: Option<usize>)
    ensures
        texts(final(args)@) == texts(old(args)@) + opt_arg(flag@, opt_decimal(value)),
{
    match value {
        Some(n) => {
            push_text(args, flag);
            let d = to_decimal(n);
            push_text(args, d.as_str());
            assert(texts(args@) =~= texts(old(args)@) + opt_arg(flag@, opt_decimal(value)));
        },
        None => {
            assert(texts(args@) =~= texts(old(args)@) + opt_arg(flag@, opt_decimal(value)));
        },
    }
}

impl P4 {
    pub closed spec fn spec_custom_p4(&self) -> Option<String> {
        self.custom_p4
    }

    pub closed spec fn spec_port(&self) -> Option<String> {
        self.port
    }

    pub closed spec fn spec_user(&self) -> Option<String> {
        self.user
    }

    pub closed spec fn spec_password(&self) -> Option<String> {
        self.password
    }

    pub closed spec fn spec_client(&self) -> Option<String> {
        self.client
    }

    pub closed spec fn spec_retries(&self) -> Option<usize> {
        self.retries
    }

    /// The options that come before the command's name.
    pub open spec fn spec_global_args(&self) -> Seq<Seq<char>> {
        seq!["-Gs"@, "-C utf8"@] + opt_arg("-p"@, opt_view(self.spec_port())) + opt_arg(
            "-u"@,
            opt_view(self.spec_user()),
        ) + opt_arg("-P"@, opt_view(self.spec_password())) + opt_arg(
            "-c"@,
            opt_view(self.spec_client()),
        )
    }

    pub fn new() -> (r: Self)
        ensures
            r.spec_custom_p4() is None,
            r.spec_port() is None,
            r.spec_user() is None,
            r.spec_password() is None,
            r.spec_client() is None,
            r.spec_retries() is None,
    {
        Self { custom_p4: None, port: None, user: None, password: None, client: None, retries: None }
    }

    /// Overrides the `p4` command used.
    pub fn set_p4_cmd(self, custom_p4: Option<String>) -> (r: Self)
        ensures
            r.spec_custom_p4() == custom_p4,
            r.spec_port() == self.spec_port(),
            r.spec_user() == self.spec_user(),
            r.spec_password() == self.spec_password(),
            r.spec_client() == self.spec_client(),
            r.spec_retries() == self.spec_retries(),
    {
        P4 { custom_p4, ..self }
    }

    /// Overrides any P4PORT setting with the specified protocol:host:port.
    pub fn set_port(self, port: Option<String>) -> (r: Self)
        ensures
            r.spec_custom_p4() == self.spec_custom_p4(),
            r.spec_port() == port,
            r.spec_user() == self.spec_user(),
            r.spec_password() == self.spec_password(),
            r.spec_client() == self.spec_client(),
            r.spec_retries() == self.spec_retries(),
    {
        P4 { port, ..self }
    }

    /// Overrides any P4USER, USER, or USERNAME setting with the specified user name.
    pub fn set_user(self, user: Option<String>) -> (r: Self)
        ensures
            r.spec_custom_p4() == self.spec_custom_p4(),
            r.spec_port() == self.spec_port(),
            r.spec_user() == user,
            r.spec_password() == self.spec_password(),
            r.spec_client() == self.spec_client(),
            r.spec_retries() == self.spec_retries(),
    {
        P4 { user, ..self }
    }

    /// Overrides any P4PASSWD setting with the specified password.
    pub fn set_password(self, password: Option<String>) -> (r: Self)
        ensures
            r.spec_custom_p4() == self.spec_custom_p4(),
            r.spec_port() == self.spec_port(),
            r.spec_user() == self.spec_user(),
            r.spec_password() == password,
            r.spec_client() == self.spec_client(),
            r.spec_retries() == self.spec_retries(),
    {
        P4 { password, ..self }
    }

    /// Overrides any P4CLIENT setting with the specified client name.
    pub fn set_client(self, client: Option<String>) -> (r: Self)
        ensures
            r.spec_custom_p4() == self.spec_custom_p4(),
            r.spec_port() == self.spec_port(),
            r.spec_user() == self.spec_user(),
            r.spec_password() == self.spec_password(),
            r.spec_client() == client,
            r.spec_retries() == self.spec_retries(),
    {
        P4 { client, ..self }
    }

    /// Number of times a command should be retried if the network times out.
    pub fn set_retries(self, retries: Option<usize>) -> (r: Self)
        ensures
            r.spec_custom_p4() == self.spec_custom_p4(),
            r.spec_port() == self.spec_port(),
            r.spec_user() == self.spec_user(),
            r.spec_password() == self.spec_password(),
            r.spec_client() == self.spec_client(),
            r.spec_retries() == retries,
    {
        P4 { retries, ..self }
    }

    /// Write a depot file to standard output: see [`Print`](crate::print::Print).
    pub fn print<'p, 'f>(&'p self, file: &'f str) -> (r: crate::print::Print<'p, 'f>)
        ensures
            r.spec_connection() == *self,
            r.spec_file() == seq![file@],
            !r.spec_all_revs(),
            r.spec_keyword_expansion(),
            r.spec_max_files() is None,
    {
        crate::print::Print::new(self, file)
    }

    /// Synchronize the client with its view of the depot: see [`Sync`](crate::sync::Sync).
    pub fn sync<'p, 'f>(&'p self, file: &'f str) -> (r: crate::sync::Sync<'p, 'f>)
        ensures
            r.spec_connection() == *self,
            r.spec_file() == seq![file@],
            !r.spec_force(),
            !r.spec_preview(),
            !r.spec_server_only(),
            !r.spec_client_only(),
            !r.spec_verify(),
            r.spec_max_files() is None,
            r.spec_parallel() is None,
    {
        crate::sync::Sync::new(self, file)
    }

    /// List files in the depot: see [`Files`](crate::files::Files).
    pub fn files<'p, 'f>(&'p self, file: &'f str) -> (r: crate::files::Files<'p, 'f>)
        ensures
            r.spec_connection() == *self,
            r.spec_file() == seq![file@],
            !r.spec_list_revisions(),
            !r.spec_syncable_only(),
            !r.spec_ignore_case(),
            r.spec_max() is None,
    {
        crate::files::Files::new(self, file)
    }

    /// List depot subdirectories: see [`Dirs`](crate::dirs::Dirs).
    pub fn dirs<'p, 'f, 's>(&'p self, dir: &'f str) -> (r: crate::dirs::Dirs<'p, 'f, 's>)
        ensures
            r.spec_connection() == *self,
            r.spec_dir() == seq![dir@],
            !r.spec_client_only(),
            r.spec_stream() is None,
            !r.spec_include_deleted(),
            !r.spec_include_synced(),
            !r.spec_ignore_case(),
    {
        crate::dirs::Dirs::new(self, dir)
    }

    /// Show how file names are mapped by the client view: see [`Where`](crate::where_::Where).
    pub fn where_<'p, 'f>(&'p self) -> (r: crate::where_::Where<'p, 'f>)
        ensures
            r.spec_connection() == *self,
            r.spec_file() == Seq::<Seq<char>>::empty(),
    {
        crate::where_::Where::new(self)
    }

    /// The client program to run: the override, else `p4`.
    pub open spec fn spec_program(&self) -> Seq<char> {
        match self.spec_custom_p4() {
            Some(p) => p@,
            None => "p4"@,
        }
    }

    pub fn program(&self) -> (r: String)
        ensures
            r@ == self.spec_program(),
    {
        match &self.custom_p4 {
            Some(p) => p.clone(),
            None => String::from_str("p4"),
        }
    }

    /// The options that come before the command's name.
    pub fn global_args(&self) -> (r: Vec<String>)
        ensures
            texts(r@) == self.spec_global_args(),
    {
        let mut args: Vec<String> = Vec::new();
        push_text(&mut args, "-Gs");
        push_text(&mut args, "-C utf8");
        push_opt(&mut args, "-p", &self.port);
        push_opt(&mut args, "-u", &self.user);
        push_opt(&mut args, "-P", &self.password);
        push_opt(&mut args, "-c", &self.client);
        assert(texts(args@) =~= self.spec_global_args());
        args
    }

    /// The global options followed by `-r` with the retry count: the one
    /// given, else the one this connection was set up with.
    pub fn global_args_with_retries(&self, retries: Option<usize>) -> (r: Vec<String>)
        ensures
            texts(r@) == self.spec_global_args() + opt_arg(
                "-r"@,
                opt_decimal(
                    match retries {
                        Some(n) => Some(n),
                        None => self.spec_retries(),
                    },
                ),
            ),
    {
        let mut args = self.global_args();
        let n = match retries {
            Some(n) => Some(n),
            None => self.retries,
        };
        push_opt_decimal(&mut args, "-r", n);
        args
    }
}

pub open spec fn strs(v: Seq<&str>) -> Seq<Seq<char>> {
    v.map_values(|s: &str| s@)
}

/// `name` when the option is on, nothing otherwise.
pub open spec fn flag(name: Seq<char>, on: bool) -> Seq<Seq<char>> {
    if on {
        seq![name]
    } else {
        Seq::empty()
    }
}

pub(crate) fn push_flag(args: &mut Vec<String>, name: &str, on: bool)
    ensures
        texts(final(args)@) == texts(old(args)@) + flag(name@, on),
{
    if on {
        push_text(args, name);
    }
    assert(texts(args@) =~= texts(old(args)@) + flag(name@, on));
}

pub(crate) fn push_all(args: &mut Vec<String>, items: &Vec<&str>)
    ensures
        texts(final(args)@) == texts(old(args)@) + strs(items@),
{
    let mut i: usize = 0;
    while i < items.len()
        invariant
            i <= items@.len(),
            texts(args@) == texts(old(args)@) + strs(items@.subrange(0, i as int)),
        decreases items@.len() - i,
    {
        push_text(args, items[i]);
        assert(strs(items@.subrange(0, i + 1)) =~= strs(items@.subrange(0, i as int)).push(
            items@[i as int]@,
        ));
        i = i + 1;
    }
    assert(items@.subrange(0, items@.len() as int) =~= items@);
}

} // verus!
