use vstd::prelude::*;

verus! {

/// What kind of failure an [`Error`] reports.
#[derive(Clone, Copy, Debug, PartialEq, Eq, Structural)]
pub enum ErrorKind {
    AddrNotAvailable,
    TimedOut,
    Other,
}

/// What an [`Error`] carries besides its kind: a text, or the error that it wraps.
#[derive(Debug, PartialEq, Eq)]
pub enum Cause<E> {
    Message(&'static str),
    Source(E),
}

/// An error of the transport; `E` is the type of the error that it may wrap.
#[derive(Debug, PartialEq, Eq)]
pub struct Error<E> {
    pub kind: ErrorKind,
    pub cause: Cause<E>,
}

/// The model of a [`Cause`].
pub enum CauseView<E> {
    Message(Seq<char>),
    Source(E),
}

/// The model of an [`Error`].
pub struct ErrorView<E> {
    pub kind: ErrorKind,
    pub cause: CauseView<E>,
}

impl<E> View for Cause<E> {
    type V = CauseView<E>;

    open spec fn view(&self) -> CauseView<E> {
        match *self {
            Cause::Message(text) => CauseView::Message(text@),
            Cause::Source(source) => CauseView::Source(source),
        }
    }
}

impl<E> View for Error<E> {
    type V = ErrorView<E>;

    open spec fn view(&self) -> ErrorView<E> {
        ErrorView { kind: self.kind, cause: self.cause@ }
    }
}

impl<E> ErrorView<E> {
    /// The error of the given kind that carries a text.
    pub open spec fn text(kind: ErrorKind, text: Seq<char>) -> ErrorView<E> {
        ErrorView { kind, cause: CauseView::Message(text) }
    }

    /// The error of no particular kind that wraps `source`.
    pub open spec fn wrapping(source: E) -> ErrorView<E> {
        ErrorView { kind: ErrorKind::Other, cause: CauseView::Source(source) }
    }
}

impl<E> Error<E> {
    /// Says that the error is of the given kind and carries the given text.
    pub open spec fn says(self, kind: ErrorKind, text: Seq<char>) -> bool {
        self.kind == kind && (self.cause matches Cause::Message(message) && message@ == text)
    }

    /// Says that the error is of no particular kind and wraps `source`.
    pub open spec fn wraps(self, source: E) -> bool {
        self.kind == ErrorKind::Other && (self.cause matches Cause::Source(held) && held == source)
    }

    /// Makes an error of the given kind that carries a text.
    pub fn text(kind: ErrorKind, text: &'static str) -> (error: Error<E>)
        ensures
            error@ == ErrorView::<E>::text(kind, text@),
            error.says(kind, text@),
    {
        Error { kind, cause: Cause::Message(text) }
    }

    /// Wraps `source` in an error of no particular kind.
    pub fn wrapping(source: E) -> (error: Error<E>)
        ensures
            error@ == ErrorView::wrapping(source),
            error.wraps(source),
    {
        Error { kind: ErrorKind::Other, cause: Cause::Source(source) }
    }
}

/// The model of an error has the error's kind, and its text or the error that it wraps.
pub proof fn law_error_view<E>(error: Error<E>)
    ensures
        error@.kind == error.kind,
        error.cause matches Cause::Message(message) ==> error@.cause == CauseView::<E>::Message(
            message@,
        ),
        error.cause matches Cause::Source(source) ==> error@.cause == CauseView::<E>::Source(
            source,
        ),
{
}

/// An error that was made from a kind and a text has that kind and that text, and wraps nothing.
pub proof fn law_text<E>(error: Error<E>, kind: ErrorKind, text: Seq<char>)
    ensures
        ErrorView::<E>::text(kind, text).kind == kind,
        ErrorView::<E>::text(kind, text).cause == CauseView::<E>::Message(text),
        error.says(kind, text) <==> error.kind == kind && error.cause is Message
            && error.cause->Message_0@ == text,
{
}

/// An error that was made from another one is of the kind `Other` and wraps just that one.
pub proof fn law_wrapping<E>(error: Error<E>, source: E)
    ensures
        ErrorView::wrapping(source).kind == ErrorKind::Other,
        ErrorView::wrapping(source).cause == CauseView::Source(source),
        error.wraps(source) <==> error.kind == ErrorKind::Other && error.cause is Source
            && error.cause->Source_0 == source,
{
}

} // verus!
