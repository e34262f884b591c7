//! The normalized error that every failed backend call is reported as.

use vstd::prelude::*;

verus! {

/// What went wrong, as far as a caller can act on it.
#[derive(Clone, Copy, Debug, PartialEq, Eq, Structural)]
pub enum ErrorKind {
    /// Nothing more specific is known.
    Unexpected,
    /// The object does not exist.
    ObjectNotFound,
    /// The caller may not touch the object.
    ObjectPermissionDenied,
}

/// The mathematical content of an [`Error`].
pub struct ErrorView {
    pub kind: ErrorKind,
    pub message: Seq<char>,
    /// Whether issuing the same call again may succeed.
    pub temporary: bool,
    /// Diagnostic pairs of a key and a value, oldest first.
    pub context: Seq<(Seq<char>, Seq<char>)>,
}

/// A failure of a backend call: a kind, a message for humans, a retry verdict
/// that is tracked apart from the kind, and diagnostic context.
#[derive(Clone, Debug, PartialEq, Eq)]
pub struct Error {
    kind: ErrorKind,
    message: String,
    temporary: bool,
    context: Vec<(&'static str, String)>,
}

/// One context entry as the pair of character sequences it stands for.
pub open spec fn entry_view(entry: (&'static str, String)) -> (Seq<char>, Seq<char>) {
    (entry.0@, entry.1@)
}

impl View for Error {
    type V = ErrorView;

    closed spec fn view(&self) -> ErrorView {
        ErrorView {
            kind: self.kind,
            message: self.message@,
            temporary: self.temporary,
            context: self.context@.map_values(|entry: (&'static str, String)| entry_view(entry)),
        }
    }
}

impl Error {
    /// A permanent error of the given kind, without context.
    pub fn new(kind: ErrorKind, message: &str) -> (e: Error)
        ensures
            e@ == (ErrorView {
                kind,
                message: message@,
                temporary: false,
                context: Seq::empty(),
            }),
    {
        let e = Error { kind, message: String::from_str(message), temporary: false, context: Vec::new() };
        assert(e@.context =~= Seq::empty());
        e
    }

    /// The same error with one more context entry at the end.
    pub fn with_context(self, key: &'static str, value: String) -> (e: Error)
        ensures
            e@ == (ErrorView { context: self@.context.push((key@, value@)), ..self@ }),
    {
        let ghost before = self.context@;
        let mut e = self;
        e.context.push((key, value));
        assert(e@.context =~= before.map_values(
            |entry: (&'static str, String)| entry_view(entry),
        ).push((key@, value@)));
        e
    }

    /// The same error, marked as worth a retry.
    pub fn set_temporary(self) -> (e: Error)
        ensures
            e@ == (ErrorView { temporary: true, ..self@ }),
    {
        let mut e = self;
        e.temporary = true;
        e
    }

    pub fn kind(&self) -> (kind: ErrorKind)
        ensures
            kind == self@.kind,
    {
        self.kind
    }

    pub fn message(&self) -> (message: &str)
        ensures
            message@ == self@.message,
    {
        self.message.as_str()
    }

    /// Whether issuing the same call again may succeed.
    pub fn is_temporary(&self) -> (temporary: bool)
        ensures
            temporary == self@.temporary,
    {
        self.temporary
    }

    /// The context entries, oldest first.
    pub fn context(&self) -> (entries: &Vec<(&'static str, String)>)
        ensures
            entries@.len() == self@.context.len(),
            forall|i: int| 0 <= i < entries@.len() ==> entry_view(#[trigger] entries@[i]) == self@.context[i],
    {
        &self.context
    }
}

} // verus!
