//! A request extractor together with a parts extractor.
//!
//! The pair `(T1, T2)` extracts from a whole request when `T1` extracts from
//! requests and `T2` from heads. The head is split off and `T2` runs on it at
//! once; its outcome is kept. Then `T1` runs on the request put together
//! again, and when it is done the two outcomes are joined. Running `T1` is
//! the caller's part, since it may have to wait for the body; what is decided
//! before and after it is decided here.
//!
//! When both members fail, the pair reports the failure of `T1`, the member
//! that the pair names first, however long `T1` took to fail.

use vstd::prelude::*;
use http::request::Parts;
use http::Request;
use crate::rejection::any_rejections::Two;
use crate::request::FromParts;

verus! {

/// Makes a request of a head and a body with `http::Request::from_parts`.
/// Nothing is claimed of the request: to the verifier a request is opaque.
#[verifier::external_body]
fn assemble<B>(head: Parts, body: B) -> (request: Request<B>) {
    Request::from_parts(head, body)
}

/// The outcome of a tuple of one request extractor, given the outcome of that
/// extractor: the same rejection, and the value as the tuple's one element.
pub fn single<T, R>(outcome: Result<T, R>) -> (tuple: Result<(T,), R>)
    ensures
        tuple == match outcome {
            Ok(value) => Ok::<(T,), R>((value,)),
            Err(rejection) => Err::<(T,), R>(rejection),
        },
{
    match outcome {
        Ok(value) => Ok((value,)),
        Err(rejection) => Err(rejection),
    }
}

/// The outcome of the pair, given the outcomes of its two members. A failure
/// of the request side comes first; else a failure of the parts side; else
/// both values, request side first.
pub open spec fn joined<T1, T2, R1, R2>(
    request_side: Result<T1, R1>,
    parts_side: Result<T2, R2>,
) -> Result<(T1, T2), Two<R1, R2>> {
    match request_side {
        Err(rejection) => Err(Two::A(rejection)),
        Ok(first) => match parts_side {
            Err(rejection) => Err(Two::B(rejection)),
            Ok(second) => Ok((first, second)),
        },
    }
}

/// The outcome of the parts side of a pair, kept until the request side is
/// done. Its view is that outcome.
#[derive(Debug)]
pub struct PartsFirst<T, R> {
    outcome: Result<T, R>,
}

impl<T, R> View for PartsFirst<T, R> {
    type V = Result<T, R>;

    closed spec fn view(&self) -> Result<T, R> {
        self.outcome
    }
}

impl<T, R> PartsFirst<T, R> {
    /// Runs the parts side on `head` and keeps its outcome. The request side
    /// is to run on the head as this leaves it.
    pub fn extract<P>(head: &mut Parts) -> (kept: Self) where T: FromParts<P, Rejection = R>
        ensures
            <T as FromParts<P>>::extracts(*old(head), *final(head), kept@),
    {
        PartsFirst { outcome: T::from_parts(head) }
    }

    /// Splits the head off `request`, runs the parts side on it, and puts the
    /// request together again for the request side: its body, under the head
    /// as the parts side left it.
    pub fn extract_from_request<P, B>(request: Request<B>) -> (out: (Self, Request<B>)) where
        T: FromParts<P, Rejection = R>,

        ensures
            exists|before: Parts, after: Parts|
                <T as FromParts<P>>::extracts(before, after, out.0@),
    {
        let (mut head, body) = request.into_parts();
        let ghost before = head;
        let kept = Self::extract::<P>(&mut head);
        let ghost after = head;
        let out = (kept, assemble(head, body));
        assert(<T as FromParts<P>>::extracts(before, after, out.0@));
        out
    }

    /// Joins the outcome of the request side with the one that was kept.
    pub fn join<T1, R1>(self, request_side: Result<T1, R1>) -> (outcome: Result<(T1, T), Two<R1, R>>)
        ensures
            outcome == joined(request_side, self@),
    {
        match request_side {
            Err(rejection) => Err(Two::A(rejection)),
            Ok(first) => match self.outcome {
                Err(rejection) => Err(Two::B(rejection)),
                Ok(second) => Ok((first, second)),
            },
        }
    }
}

/// A failure of the request side is the pair's failure whatever the parts
/// side did: when both fail, the member named first is reported.
pub proof fn lemma_request_side_failure_wins<T1, T2, R1, R2>(
    rejection: R1,
    parts_side: Result<T2, R2>,
)
    ensures
        joined(Err::<T1, R1>(rejection), parts_side) == Err::<(T1, T2), Two<R1, R2>>(
            Two::A(rejection),
        ),
{
}

/// A failure of the parts side is the pair's failure when the request side
/// succeeded.
pub proof fn lemma_parts_side_failure_after_success<T1, T2, R1, R2>(first: T1, rejection: R2)
    ensures
        joined(Ok::<T1, R1>(first), Err::<T2, R2>(rejection)) == Err::<(T1, T2), Two<R1, R2>>(
            Two::B(rejection),
        ),
{
}

/// The pair succeeds exactly when both members do, with the value of the
/// request side first.
pub proof fn lemma_joined_success<T1, T2, R1, R2>(
    request_side: Result<T1, R1>,
    parts_side: Result<T2, R2>,
)
    ensures
        joined(request_side, parts_side) is Ok <==> request_side is Ok && parts_side is Ok,
        request_side is Ok && parts_side is Ok ==> joined(request_side, parts_side) == Ok::<
            (T1, T2),
            Two<R1, R2>,
        >((request_side->Ok_0, parts_side->Ok_0)),
{
}

} // verus!
