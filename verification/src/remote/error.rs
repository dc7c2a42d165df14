//! Errors of the remote part of the library: talking to actors in other processes.
use vstd::prelude::*;

verus! {

/// The different kind of errors that can happen when using remote actors.
#[derive(Debug)]
pub enum ThesRemoteErrKind {
    /// Cannot use the peer after the connection is closed.
    ConnectionClosed { operation: String },
    /// Failed to deserialize something that came in over the wire.
    Deserialize { what: String },
    /// An error of the underlying IO.
    TokioIoError,
    /// Failed to spawn a future.
    Spawn { context: String },
}

/// The variant of a kind, as a number, and the text it carries (empty for `TokioIoError`).
impl View for ThesRemoteErrKind {
    type V = (int, Seq<char>);

    open spec fn view(&self) -> (int, Seq<char>) {
        match self {
            ThesRemoteErrKind::ConnectionClosed { operation } => (0, operation@),
            ThesRemoteErrKind::Deserialize { what } => (1, what@),
            ThesRemoteErrKind::TokioIoError => (2, Seq::empty()),
            ThesRemoteErrKind::Spawn { context } => (3, context@),
        }
    }
}

impl Clone for ThesRemoteErrKind {
    fn clone(&self) -> (res: Self)
        ensures
            res@ == self@,
    {
        match self {
            ThesRemoteErrKind::ConnectionClosed { operation } => ThesRemoteErrKind::ConnectionClosed {
                operation: operation.clone(),
            },
            ThesRemoteErrKind::Deserialize { what } => ThesRemoteErrKind::Deserialize {
                what: what.clone(),
            },
            ThesRemoteErrKind::TokioIoError => ThesRemoteErrKind::TokioIoError,
            ThesRemoteErrKind::Spawn { context } => ThesRemoteErrKind::Spawn {
                context: context.clone(),
            },
        }
    }
}

/// Two kinds are equal when they are the same variant, whatever text they carry.
impl PartialEq for ThesRemoteErrKind {
    fn eq(&self, other: &Self) -> (res: bool) {
        let a: u8 = match self {
            ThesRemoteErrKind::ConnectionClosed { .. } => 0,
            ThesRemoteErrKind::Deserialize { .. } => 1,
            ThesRemoteErrKind::TokioIoError => 2,
            ThesRemoteErrKind::Spawn { .. } => 3,
        };
        let b: u8 = match other {
            ThesRemoteErrKind::ConnectionClosed { .. } => 0,
            ThesRemoteErrKind::Deserialize { .. } => 1,
            ThesRemoteErrKind::TokioIoError => 2,
            ThesRemoteErrKind::Spawn { .. } => 3,
        };
        a == b
    }
}

impl vstd::std_specs::cmp::PartialEqSpecImpl for ThesRemoteErrKind {
    open spec fn obeys_eq_spec() -> bool {
        true
    }

    open spec fn eq_spec(&self, other: &Self) -> bool {
        self@.0 == other@.0
    }
}

impl Eq for ThesRemoteErrKind {

}

/// The error type of the remote part. Use [`ThesRemoteErr::kind`] to know which kind of
/// error happened.
#[derive(Debug)]
pub struct ThesRemoteErr {
    inner: ThesRemoteErrKind,
}

impl View for ThesRemoteErr {
    type V = (int, Seq<char>);

    open spec fn view(&self) -> (int, Seq<char>) {
        self.spec_kind()@
    }
}

impl ThesRemoteErr {
    /// The kind this error was made from.
    pub closed spec fn spec_kind(&self) -> ThesRemoteErrKind {
        self.inner
    }

    /// Allows matching on the error kind.
    pub fn kind(&self) -> (res: ThesRemoteErrKind)
        ensures
            res@ == self@,
    {
        self.inner.clone()
    }

    /// Make an error of the given kind.
    pub fn from_kind(kind: ThesRemoteErrKind) -> (res: Self)
        ensures
            res@ == kind@,
    {
        ThesRemoteErr { inner: kind }
    }

    /// The error for an operation attempted after the connection closed.
    pub fn connection_closed(operation: &str) -> (res: Self)
        ensures
            res@ == (0int, operation@),
    {
        ThesRemoteErr::from_kind(
            ThesRemoteErrKind::ConnectionClosed { operation: String::from_str(operation) },
        )
    }

    /// The error for something that failed to deserialize.
    pub fn deserialize(what: &str) -> (res: Self)
        ensures
            res@ == (1int, what@),
    {
        ThesRemoteErr::from_kind(ThesRemoteErrKind::Deserialize { what: String::from_str(what) })
    }
}

impl From<ThesRemoteErrKind> for ThesRemoteErr {
    fn from(kind: ThesRemoteErrKind) -> (res: ThesRemoteErr)
        ensures
            res@ == kind@,
    {
        ThesRemoteErr { inner: kind }
    }
}

impl vstd::std_specs::convert::FromSpecImpl<ThesRemoteErrKind> for ThesRemoteErr {
    open spec fn obeys_from_spec() -> bool {
        true
    }

    closed spec fn from_spec(kind: ThesRemoteErrKind) -> ThesRemoteErr {
        ThesRemoteErr { inner: kind }
    }
}

} // verus!
