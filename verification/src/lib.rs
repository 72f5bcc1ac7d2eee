//! Unwrap-or-exit containers: anticipate a payload, and turn the
//! negative case into a fatal diagnostic instead of propagating it.
//!
//! Two container shapes are supported: the maybe shape (`Option`,
//! present or absent, with no detail on absence) and the outcome shape
//! (`Result`, a success payload or a failure payload whose rendering
//! the [`render::Render`] trait supplies).
//!
//! The operations here never terminate the process themselves: each
//! returns an [`Anticipated`] verdict that either carries the payload
//! or directs the surrounding program to write one diagnostic line to
//! standard error and exit with status 1.  That write and exit is the
//! caller's single remaining duty on the fatal branch; resource
//! cleanup is the caller's responsibility before it acts on a fatal
//! verdict.

use vstd::prelude::*;

pub mod diagnostic;
pub mod render;

verus! {

pub use crate::diagnostic::Anticipated;
pub use crate::diagnostic::Diagnostic;
pub use crate::render::Render;

use crate::diagnostic::detailed;
use crate::diagnostic::detailed_line;
use crate::diagnostic::separator;

/// Unwrap a container, expecting the positive case and treating the
/// negative case as program-fatal.
pub trait Anticipate: Sized {
    /// The payload produced on the positive path.
    type Item;

    /// Whether the container holds the anticipated payload.
    spec fn holds_value(self) -> bool;

    /// The payload, when the container holds one.
    spec fn value(self) -> Self::Item
        recommends
            self.holds_value(),
    ;

    /// The diagnostic line emitted when the payload is missing.
    spec fn failure_line(self, msg: Seq<char>) -> Seq<char>
        recommends
            !self.holds_value(),
    ;

    /// Anticipate a value and hand it back if present.  Otherwise the
    /// verdict directs the program to write a diagnostic line to
    /// standard error (`msg`, extended with the failure's rendered
    /// detail where the container carries one) and exit with status 1.
    fn anticipate(self, msg: &str) -> (step: Anticipated<Self::Item>)
        ensures
            self.holds_value() ==> step == Anticipated::Value(self.value()),
            !self.holds_value() ==> (step matches Anticipated::Fatal(d)
                && d.line@ == self.failure_line(msg@) && d.exit_code == 1),
    ;
}

/// Unwrap a container, expecting to extract its negative payload.
///
/// Of the two historical readings of this operation, this library
/// implements the extract-the-failure one: on the outcome shape the
/// failure payload is what is anticipated, and a success payload is
/// the unexpected, program-fatal case.  The maybe shape has no
/// distinct failure payload, so there the operation degenerates to
/// [`Anticipate::anticipate`].
pub trait AnticipateErr: Sized {
    /// The payload this operation extracts.
    type ErrItem;

    /// Whether the container holds the payload this operation extracts.
    spec fn holds_err(self) -> bool;

    /// The extracted payload, when the container holds it.
    spec fn err_value(self) -> Self::ErrItem
        recommends
            self.holds_err(),
    ;

    /// The diagnostic line emitted when the expectation is not met.
    spec fn unexpected_line(self, msg: Seq<char>) -> Seq<char>
        recommends
            !self.holds_err(),
    ;

    /// Anticipate the container's negative payload and hand it back if
    /// present.  Otherwise the verdict directs the program to write a
    /// diagnostic line to standard error (`msg`, extended with the
    /// unexpected payload's rendered detail where the container
    /// carries one) and exit with status 1.
    fn anticipate_err(self, msg: &str) -> (step: Anticipated<Self::ErrItem>)
        ensures
            self.holds_err() ==> step == Anticipated::Value(self.err_value()),
            !self.holds_err() ==> (step matches Anticipated::Fatal(d)
                && d.line@ == self.unexpected_line(msg@) && d.exit_code == 1),
    ;
}

impl<A> Anticipate for Option<A> {
    type Item = A;

    open spec fn holds_value(self) -> bool {
        self is Some
    }

    open spec fn value(self) -> A {
        self->0
    }

    /// Absence carries no detail: the line is the message alone.
    open spec fn failure_line(self, msg: Seq<char>) -> Seq<char> {
        msg
    }

    fn anticipate(self, msg: &str) -> Anticipated<A> {
        match self {
            Option::Some(v) => Anticipated::Value(v),
            Option::None => Anticipated::Fatal(
                Diagnostic { line: msg.to_owned(), exit_code: 1 },
            ),
        }
    }
}

impl<A, E: Render> Anticipate for Result<A, E> {
    type Item = A;

    open spec fn holds_value(self) -> bool {
        self is Ok
    }

    open spec fn value(self) -> A {
        self->Ok_0
    }

    /// A failure's line is the message, `": "`, and the failure's
    /// rendered detail.
    open spec fn failure_line(self, msg: Seq<char>) -> Seq<char> {
        detailed_line(msg, self->Err_0.rendered())
    }

    fn anticipate(self, msg: &str) -> Anticipated<A> {
        match self {
            Result::Ok(v) => Anticipated::Value(v),
            Result::Err(e) => {
                let text = e.render();
                Anticipated::Fatal(
                    Diagnostic { line: detailed(msg, text.as_str()), exit_code: 1 },
                )
            },
        }
    }
}

impl<A> AnticipateErr for Option<A> {
    type ErrItem = A;

    open spec fn holds_err(self) -> bool {
        self is Some
    }

    open spec fn err_value(self) -> A {
        self->0
    }

    /// Absence carries no detail: the line is the message alone.
    open spec fn unexpected_line(self, msg: Seq<char>) -> Seq<char> {
        msg
    }

    fn anticipate_err(self, msg: &str) -> Anticipated<A> {
        match self {
            Option::Some(v) => Anticipated::Value(v),
            Option::None => Anticipated::Fatal(
                Diagnostic { line: msg.to_owned(), exit_code: 1 },
            ),
        }
    }
}

impl<A: Render, E> AnticipateErr for Result<A, E> {
    type ErrItem = E;

    open spec fn holds_err(self) -> bool {
        self is Err
    }

    open spec fn err_value(self) -> E {
        self->Err_0
    }

    /// An unexpected success's line is the message, `": "`, and the
    /// success payload's rendered detail.
    open spec fn unexpected_line(self, msg: Seq<char>) -> Seq<char> {
        detailed_line(msg, self->Ok_0.rendered())
    }

    fn anticipate_err(self, msg: &str) -> Anticipated<E> {
        match self {
            Result::Err(e) => Anticipated::Value(e),
            Result::Ok(v) => {
                let text = v.render();
                Anticipated::Fatal(
                    Diagnostic { line: detailed(msg, text.as_str()), exit_code: 1 },
                )
            },
        }
    }
}

/// A present payload is returned unchanged: on both shapes,
/// anticipating a positive container yields exactly the payload it
/// held, and the verdict is not fatal.
pub proof fn lemma_present_value_is_returned<A, E: Render>(v: A)
    ensures
        Option::Some(v).holds_value(),
        Option::Some(v).value() == v,
        Result::<A, E>::Ok(v).holds_value(),
        Result::<A, E>::Ok(v).value() == v,
{
}

/// The two operations agree on a present value of the maybe shape;
/// on the outcome shape, anticipating the error extracts the failure
/// payload unchanged, and a success is the fatal case.
pub proof fn lemma_err_extraction<A: Render, E>(v: A, e: E)
    ensures
        Option::Some(v).holds_err(),
        Option::Some(v).err_value() == v,
        Result::<A, E>::Err(e).holds_err(),
        Result::<A, E>::Err(e).err_value() == e,
        !Result::<A, E>::Ok(v).holds_err(),
{
}

/// An absent value carries no detail: the diagnostic line is the
/// caller's message exactly.
pub proof fn lemma_absent_line_is_message<A>(m: Seq<char>)
    ensures
        !Option::<A>::None.holds_value(),
        Option::<A>::None.failure_line(m) == m,
        !Option::<A>::None.holds_err(),
        Option::<A>::None.unexpected_line(m) == m,
{
}

/// A failed outcome's diagnostic line is the caller's message, a
/// `": "` separator, and the failure's rendered detail.
pub proof fn lemma_failure_line_is_detailed<A, E: Render>(e: E, m: Seq<char>)
    ensures
        !Result::<A, E>::Err(e).holds_value(),
        Result::<A, E>::Err(e).failure_line(m) == m + separator() + e.rendered(),
{
}

} // verus!
