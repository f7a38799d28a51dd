use vstd::prelude::*;

verus! {

/// The kinds of filesystem failure that the library tells apart.
#[derive(Debug, Clone, Copy, PartialEq, Eq, Structural)]
pub enum IoKind {
    /// Something that is not a symbolic link stands where a link was to be
    /// made.
    AlreadyExists,
    /// A path was given that cannot be used.
    InvalidInput,
    /// Any other failure that the system reported.
    Other,
}

/// A failure of the filesystem, or of a path handed to the library.
#[derive(Debug)]
pub struct IoError {
    pub kind: IoKind,
    pub message: String,
}

/// Why a run did not come to its end.
#[derive(Debug)]
pub enum Error {
    /// The filesystem refused something.
    Io(IoError),
    /// The script failed, or something that it called did.
    Lua(String),
}

/// The mathematical value of an [`Error`].
pub ghost enum ErrorView {
    Io { kind: IoKind, message: Seq<char> },
    Lua { message: Seq<char> },
}

impl View for Error {
    type V = ErrorView;

    open spec fn view(&self) -> ErrorView {
        match *self {
            Error::Io(e) => ErrorView::Io { kind: e.kind, message: e.message@ },
            Error::Lua(message) => ErrorView::Lua { message: message@ },
        }
    }
}

impl ErrorView {
    /// The text that describes the error to a user.
    pub open spec fn message(self) -> Seq<char> {
        match self {
            ErrorView::Io { message, .. } => message,
            ErrorView::Lua { message } => message,
        }
    }
}

impl Clone for IoError {
    fn clone(&self) -> (copy: IoError)
        ensures
            copy.kind == self.kind,
            copy.message@ == self.message@,
    {
        IoError { kind: self.kind, message: self.message.clone() }
    }
}

impl Clone for Error {
    fn clone(&self) -> (copy: Error)
        ensures
            copy@ == self@,
    {
        match self {
            Error::Io(e) => Error::Io(e.clone()),
            Error::Lua(message) => Error::Lua(message.clone()),
        }
    }
}

impl Error {
    /// An error of the filesystem kind.
    pub fn io(kind: IoKind, message: String) -> (error: Error)
        ensures
            error@ == (ErrorView::Io { kind, message: message@ }),
    {
        Error::Io(IoError { kind, message })
    }

    /// The text that describes the error to a user.
    pub fn message(&self) -> (text: String)
        ensures
            text@ == self@.message(),
    {
        match self {
            Error::Io(e) => e.message.clone(),
            Error::Lua(message) => message.clone(),
        }
    }

    /// Whether the error is the clash of a link with something that is not a
    /// link.
    pub fn is_conflict(&self) -> (yes: bool)
        ensures
            yes == (self@ matches ErrorView::Io { kind, .. } && kind == IoKind::AlreadyExists),
    {
        match self {
            Error::Io(e) => e.kind == IoKind::AlreadyExists,
            Error::Lua(_) => false,
        }
    }
}

impl PartialEq for Error {
    fn eq(&self, other: &Error) -> (same: bool) {
        match (self, other) {
            (Error::Io(a), Error::Io(b)) => a.kind == b.kind && a.message == b.message,
            (Error::Lua(a), Error::Lua(b)) => *a == *b,
            _ => false,
        }
    }
}

impl vstd::std_specs::cmp::PartialEqSpecImpl for Error {
    open spec fn obeys_eq_spec() -> bool {
        true
    }

    open spec fn eq_spec(&self, other: &Error) -> bool {
        self@ == other@
    }
}

} // verus!
