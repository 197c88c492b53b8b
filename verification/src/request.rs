//! Types and traits for extracting data from requests.

use vstd::prelude::*;
use http::request::Parts;
use http::Request;
use std::convert::Infallible;

pub mod request_parts;
pub mod tuple;
pub mod with_parts;

pub use request_parts::RequestParts;

verus! {

/// `http::request::Parts`, the head of an HTTP request: its method, URI,
/// version, headers and extensions. The library hands heads to extractors and
/// never looks inside one.
#[verifier::external_type_specification]
#[verifier::external_body]
pub struct ExParts(Parts);

/// `http::Request`, an HTTP request: a head and a body of type `T`.
#[verifier::external_type_specification]
#[verifier::external_body]
#[verifier::reject_recursive_types(T)]
pub struct ExRequest<T>(Request<T>);

/// `http::Request::into_parts` takes a request apart into its head and its
/// body. Nothing is claimed of the two: to the verifier a request is opaque.
pub assume_specification<T>[ Request::<T>::into_parts ](request: Request<T>) -> (pieces: (Parts, T));

/// Provides a protocol aware extraction from the head of a request. An
/// extractor borrows the head and never touches the body.
pub trait FromParts<Protocol>: Sized {
    /// The type of the extraction failures.
    type Rejection;

    /// What one run of the extractor can do: started on the head `before`, it
    /// can leave the head as `after` and end with `outcome`.
    ///
    /// An extractor whose outcome depends on nothing but the head relates each
    /// `before` to one `after` and one `outcome`. One that promises nothing
    /// relates everything to everything, and that is what an implementation
    /// says when it does not define this function.
    open spec fn extracts(before: Parts, after: Parts, outcome: Result<Self, Self::Rejection>) -> bool {
        true
    }

    /// Extracts `self` from a [`Parts`] synchronously.
    fn from_parts(parts: &mut Parts) -> (outcome: Result<Self, Self::Rejection>)
        ensures
            Self::extracts(*old(parts), *final(parts), outcome),
    ;
}

impl<P> FromParts<P> for () {
    type Rejection = Infallible;

    /// The unit extractor leaves the head alone and succeeds, whatever the
    /// head holds.
    open spec fn extracts(before: Parts, after: Parts, outcome: Result<(), Infallible>) -> bool {
        after == before && outcome == Ok::<(), Infallible>(())
    }

    fn from_parts(parts: &mut Parts) -> (outcome: Result<(), Infallible>) {
        Ok(())
    }
}

/// The unit extractor cannot fail and changes nothing: every run of it, on
/// every head, ends with `Ok(())` and the head as it was.
pub proof fn lemma_unit_always_succeeds<P>(before: Parts, after: Parts, outcome: Result<(), Infallible>)
    requires
        <() as FromParts<P>>::extracts(before, after, outcome),
    ensures
        outcome == Ok::<(), Infallible>(()),
        after == before,
{
}

impl<P, T> FromParts<P> for (T,) where T: FromParts<P> {
    type Rejection = T::Rejection;

    /// A tuple of one extractor does what the extractor does: same head, same
    /// rejection, and the value it extracted as the tuple's one element.
    open spec fn extracts(before: Parts, after: Parts, outcome: Result<(T,), T::Rejection>) -> bool {
        T::extracts(
            before,
            after,
            match outcome {
                Ok(value) => Ok(value.0),
                Err(rejection) => Err(rejection),
            },
        )
    }

    fn from_parts(parts: &mut Parts) -> (outcome: Result<(T,), T::Rejection>)
        ensures
            <(T,) as FromParts<P>>::extracts(*old(parts), *final(parts), outcome),
    {
        match T::from_parts(parts) {
            Ok(value) => Ok((value,)),
            Err(rejection) => Err(rejection),
        }
    }
}

} // verus!
