//! What a decoded stream carries besides data, and the errors that end a command.
use vstd::prelude::*;
use vstd::string::StringExecFns;

verus! {

/// The exit status the client reported: zero for success by convention.
#[derive(Debug, Copy, Clone, PartialEq, Eq)]
pub struct OperationError {
    pub code: i32,
}

impl OperationError {
    pub fn new(code: i32) -> (r: Self)
        ensures
            r.code == code,
    {
        Self { code }
    }

    pub fn code(&self) -> (r: i32)
        ensures
            r == self.code,
    {
        self.code
    }
}

#[derive(Debug, Copy, Clone, PartialEq, Eq)]
pub enum MessageLevel {
    Error,
    Warning,
}

/// A message the client reported about one record; it does not end the stream.
#[derive(Debug, Clone, PartialEq, Eq)]
pub struct Message {
    pub level: MessageLevel,
    pub msg: String,
}

impl Message {
    pub fn new(level: MessageLevel, msg: String) -> (r: Self)
        ensures
            r.level == level,
            r.msg@ == msg@,
    {
        Self { level, msg }
    }
}

/// One entry of a decoded stream, in the order the client wrote it.
#[derive(Debug, Clone, PartialEq, Eq)]
pub enum Item<T> {
    Data(T),
    Message(Message),
    Error(OperationError),
}

/// The model of an [`Item`]: data by its own model, messages by level and text,
/// the exit entry by its status.
pub enum ItemView<V> {
    Data(V),
    Message(MessageLevel, Seq<char>),
    Error(i32),
}

impl<T: View> View for Item<T> {
    type V = ItemView<T::V>;

    open spec fn view(&self) -> ItemView<T::V> {
        match self {
            Item::Data(t) => ItemView::Data(t@),
            Item::Message(m) => ItemView::Message(m.level, m.msg@),
            Item::Error(e) => ItemView::Error(e.code),
        }
    }
}

impl<T> Item<T> {
    pub fn as_data(&self) -> (r: Option<&T>)
        ensures
            match self {
                Item::Data(t) => r == Some(t),
                _ => r is None,
            },
    {
        match self {
            Item::Data(t) => Some(t),
            _ => None,
        }
    }

    pub fn as_message(&self) -> (r: Option<&Message>)
        ensures
            match self {
                Item::Message(m) => r == Some(m),
                _ => r is None,
            },
    {
        match self {
            Item::Message(m) => Some(m),
            _ => None,
        }
    }

    pub fn as_error(&self) -> (r: Option<&OperationError>)
        ensures
            match self {
                Item::Error(e) => r == Some(e),
                _ => r is None,
            },
    {
        match self {
            Item::Error(e) => Some(e),
            _ => None,
        }
    }
}

/// For programmatically processing failures.
#[derive(Debug, Copy, Clone, PartialEq, Eq)]
pub enum ErrorKind {
    SpawnFailed,
    ParseFailed,
}

impl ErrorKind {
    pub fn error(self) -> (r: P4Error)
        ensures
            r.kind == self,
            r.context is None,
            r.cause is None,
    {
        P4Error::new(self)
    }

    /// A sentence that says what went wrong.
    pub fn description(&self) -> (r: &'static str)
        ensures
            r@ == self.description_spec(),
    {
        match self {
            ErrorKind::SpawnFailed => "Failed to launch P4 command.",
            ErrorKind::ParseFailed => "Failed to parse P4 output.",
        }
    }
}

/// A failure of a whole command: it could not be launched, or its output
/// could not be decoded. The cause is kept as the text of the underlying error.
#[derive(Debug, Clone)]
pub struct P4Error {
    pub kind: ErrorKind,
    pub context: Option<String>,
    pub cause: Option<String>,
}

impl P4Error {
    /// The error that output which does not decode gives, for the invocation `command`.
    pub open spec fn is_parse_failure(&self, command: Seq<char>) -> bool {
        &&& self.kind == ErrorKind::ParseFailed
        &&& self.context matches Some(c) && c@ == "Command: "@ + command
        &&& self.cause is None
    }

    pub fn new(kind: ErrorKind) -> (r: Self)
        ensures
            r.kind == kind,
            r.context is None,
            r.cause is None,
    {
        Self { kind, context: None, cause: None }
    }

    pub fn set_context(self, context: String) -> (r: Self)
        ensures
            r.kind == self.kind,
            r.context matches Some(c) && c@ == context@,
            r.cause == self.cause,
    {
        P4Error { context: Some(context), ..self }
    }

    pub fn set_cause(self, cause: String) -> (r: Self)
        ensures
            r.kind == self.kind,
            r.context == self.context,
            r.cause matches Some(c) && c@ == cause@,
    {
        P4Error { cause: Some(cause), ..self }
    }

    /// Programmatically process failure.
    pub fn kind(&self) -> (r: ErrorKind)
        ensures
            r == self.kind,
    {
        self.kind
    }

    /// The report of this failure: the kind's description, then the context
    /// and the cause when present, one line each.
    pub fn message(&self) -> (r: String)
        ensures
            r@ == error_message(self.kind.description_spec(), self.context, self.cause),
    {
        let mut r = String::from_str("Operation failed: ");
        r.append(self.kind.description());
        r.append("\n");
        match &self.context {
            Some(c) => {
                r.append(c.as_str());
                r.append("\n");
            },
            None => {},
        }
        match &self.cause {
            Some(c) => {
                r.append("Cause: ");
                r.append(c.as_str());
                r.append("\n");
            },
            None => {},
        }
        r
    }
}

impl ErrorKind {
    pub open spec fn description_spec(&self) -> Seq<char> {
        match self {
            ErrorKind::SpawnFailed => "Failed to launch P4 command."@,
            ErrorKind::ParseFailed => "Failed to parse P4 output."@,
        }
    }
}

pub open spec fn error_message(
    description: Seq<char>,
    context: Option<String>,
    cause: Option<String>,
) -> Seq<char> {
    let head = "Operation failed: "@ + description + "\n"@;
    let with_context = match context {
        Some(c) => head + c@ + "\n"@,
        None => head,
    };
    match cause {
        Some(c) => with_context + "Cause: "@ + c@ + "\n"@,
        None => with_context,
    }
}

} // verus!
