//! Errors of endpoint resolution and endpoint construction.
//!
//! Both error types carry their underlying cause as a value of the type
//! parameter `C`. Callers that want a type-erased cause instantiate `C` with a
//! boxed trait object; the errors themselves never look inside a cause, they
//! only store it and hand it back.

use vstd::prelude::*;
use vstd::std_specs::convert::{FromSpec, FromSpecImpl, IntoSpec};

verus! {

/// What a [`ResolveEndpointError`] is, as a mathematical value.
pub struct ResolveEndpointErrorView<C> {
    /// The human-readable message.
    pub message: Seq<char>,
    /// The underlying cause, if one was attached.
    pub source: Option<C>,
}

impl<C> ResolveEndpointErrorView<C> {
    /// The error with message `message` and no cause.
    pub open spec fn message(message: Seq<char>) -> Self {
        ResolveEndpointErrorView { message, source: None }
    }

    /// The same error with its cause replaced by `source`.
    pub open spec fn with_source(self, source: Option<C>) -> Self {
        ResolveEndpointErrorView { message: self.message, source }
    }
}

/// Endpoint resolution failed
#[derive(Debug)]
pub struct ResolveEndpointError<C> {
    message: String,
    source: Option<C>,
}

impl<C> View for ResolveEndpointError<C> {
    type V = ResolveEndpointErrorView<C>;

    closed spec fn view(&self) -> ResolveEndpointErrorView<C> {
        ResolveEndpointErrorView { message: self.message@, source: self.source }
    }
}

impl<C> ResolveEndpointError<C> {
    /// Create a [`ResolveEndpointError`] with a message
    pub fn message<M: Into<String>>(message: M) -> (error: Self)
        ensures
            error@.source is None,
            M::obeys_into_spec() ==> error@ == ResolveEndpointErrorView::<C>::message(
                message.into_spec()@,
            ),
    {
        Self::from_text(message.into())
    }

    /// Create a [`ResolveEndpointError`] from a message that is already a
    /// `String`.
    pub fn from_text(message: String) -> (error: Self)
        ensures
            error@ == ResolveEndpointErrorView::<C>::message(message@),
    {
        ResolveEndpointError { message, source: None }
    }

    /// Add a source to the error
    pub fn with_source(self, source: Option<C>) -> (error: Self)
        ensures
            error@ == self@.with_source(source),
    {
        ResolveEndpointError { message: self.message, source }
    }

    /// The rendered form of the error: the message alone, without the cause.
    pub fn to_string(&self) -> (text: String)
        ensures
            text@ == self@.message,
    {
        self.message.clone()
    }

    /// The cause of the error, if one was attached.
    pub fn source(&self) -> (cause: Option<&C>)
        ensures
            cause == match self@.source {
                Some(c) => Some(&c),
                None => None,
            },
    {
        self.source.as_ref()
    }
}

/// The ways in which an endpoint can be invalid.
#[derive(Debug)]
pub enum InvalidEndpointErrorKind<C> {
    /// The endpoint URI has no scheme.
    EndpointMustHaveScheme,
    /// Combining the endpoint with an endpoint prefix gave no valid authority.
    FailedToConstructAuthority { source: C },
    /// Assembling the final URI failed.
    FailedToConstructUri { source: C },
}

impl<C> InvalidEndpointErrorKind<C> {
    /// The text that an error of this kind renders as.
    pub open spec fn text(self) -> Seq<char> {
        match self {
            InvalidEndpointErrorKind::EndpointMustHaveScheme => "endpoint must contain a valid scheme"@,
            InvalidEndpointErrorKind::FailedToConstructAuthority { .. } =>
                "endpoint must contain a valid authority when combined with endpoint prefix"@,
            InvalidEndpointErrorKind::FailedToConstructUri { .. } => "failed to construct URI"@,
        }
    }

    /// The cause that an error of this kind wraps.
    pub open spec fn cause(self) -> Option<C> {
        match self {
            InvalidEndpointErrorKind::EndpointMustHaveScheme => None,
            InvalidEndpointErrorKind::FailedToConstructAuthority { source } => Some(source),
            InvalidEndpointErrorKind::FailedToConstructUri { source } => Some(source),
        }
    }
}

/// An endpoint could not be constructed. The view of the error is its kind.
#[derive(Debug)]
pub struct InvalidEndpointError<C> {
    kind: InvalidEndpointErrorKind<C>,
}

impl<C> View for InvalidEndpointError<C> {
    type V = InvalidEndpointErrorKind<C>;

    closed spec fn view(&self) -> InvalidEndpointErrorKind<C> {
        self.kind
    }
}

impl<C> InvalidEndpointError<C> {
    /// The endpoint URI lacks a scheme.
    pub fn endpoint_must_have_scheme() -> (error: Self)
        ensures
            error@ == InvalidEndpointErrorKind::<C>::EndpointMustHaveScheme,
    {
        InvalidEndpointError { kind: InvalidEndpointErrorKind::EndpointMustHaveScheme }
    }

    /// The endpoint, combined with an endpoint prefix, has no valid authority.
    pub fn failed_to_construct_authority<S: Into<C>>(source: S) -> (error: Self)
        ensures
            error@ is FailedToConstructAuthority,
            S::obeys_into_spec() ==> error@ == (InvalidEndpointErrorKind::FailedToConstructAuthority {
                source: source.into_spec(),
            }),
    {
        InvalidEndpointError {
            kind: InvalidEndpointErrorKind::FailedToConstructAuthority { source: source.into() },
        }
    }

    /// The final URI could not be assembled.
    pub fn failed_to_construct_uri<S: Into<C>>(source: S) -> (error: Self)
        ensures
            error@ is FailedToConstructUri,
            S::obeys_into_spec() ==> error@ == (InvalidEndpointErrorKind::FailedToConstructUri {
                source: source.into_spec(),
            }),
    {
        InvalidEndpointError {
            kind: InvalidEndpointErrorKind::FailedToConstructUri { source: source.into() },
        }
    }

    /// The rendered form of the error: a fixed text for each kind.
    pub fn to_string(&self) -> (text: String)
        ensures
            text@ == self@.text(),
    {
        match self.kind {
            InvalidEndpointErrorKind::EndpointMustHaveScheme => {
                "endpoint must contain a valid scheme".to_owned()
            },
            InvalidEndpointErrorKind::FailedToConstructAuthority { .. } => {
                "endpoint must contain a valid authority when combined with endpoint prefix".to_owned()
            },
            InvalidEndpointErrorKind::FailedToConstructUri { .. } => {
                "failed to construct URI".to_owned()
            },
        }
    }

    /// The cause of the error: the one its kind wraps, if it wraps one.
    pub fn source(&self) -> (cause: Option<&C>)
        ensures
            cause == match self@.cause() {
                Some(c) => Some(&c),
                None => None,
            },
    {
        match &self.kind {
            InvalidEndpointErrorKind::FailedToConstructUri { source } => Some(source),
            InvalidEndpointErrorKind::FailedToConstructAuthority { source } => Some(source),
            InvalidEndpointErrorKind::EndpointMustHaveScheme => None,
        }
    }
}

impl<C> From<InvalidEndpointErrorKind<C>> for InvalidEndpointError<C> {
    fn from(kind: InvalidEndpointErrorKind<C>) -> (error: Self)
        ensures
            error@ == kind,
    {
        InvalidEndpointError { kind }
    }
}

impl<C> FromSpecImpl<InvalidEndpointErrorKind<C>> for InvalidEndpointError<C> {
    open spec fn obeys_from_spec() -> bool {
        true
    }

    closed spec fn from_spec(kind: InvalidEndpointErrorKind<C>) -> Self {
        InvalidEndpointError { kind }
    }
}

/// An error made from a message has no cause. Attaching a cause makes it the
/// error's cause and leaves the message as it was; so does attaching none.
pub proof fn lemma_with_source_sets_cause<C>(message: Seq<char>, source: Option<C>)
    ensures
        ResolveEndpointErrorView::<C>::message(message).source is None,
        ResolveEndpointErrorView::<C>::message(message).message == message,
        ResolveEndpointErrorView::<C>::message(message).with_source(source).source == source,
        ResolveEndpointErrorView::<C>::message(message).with_source(source).message == message,
{
}

/// The error made from a kind has that kind, and its cause is the very cause
/// that the kind wraps: none for a missing scheme, the wrapped one otherwise.
pub proof fn lemma_kind_round_trip<C>(kind: InvalidEndpointErrorKind<C>)
    ensures
        <InvalidEndpointError<C> as FromSpec<InvalidEndpointErrorKind<C>>>::from_spec(kind)@ == kind,
        kind is EndpointMustHaveScheme ==> <InvalidEndpointError<C> as FromSpec<InvalidEndpointErrorKind<C>>>::from_spec(kind)@.cause() is None,
        kind matches InvalidEndpointErrorKind::FailedToConstructAuthority { source }
            ==> <InvalidEndpointError<C> as FromSpec<InvalidEndpointErrorKind<C>>>::from_spec(kind)@.cause() == Some(source),
        kind matches InvalidEndpointErrorKind::FailedToConstructUri { source }
            ==> <InvalidEndpointError<C> as FromSpec<InvalidEndpointErrorKind<C>>>::from_spec(kind)@.cause() == Some(source),
{
}

} // verus!
