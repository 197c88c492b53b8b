//! A request extractor together with a parts extractor: the parts side runs
//! first, the request side may take its time, and the member named first
//! wins when both fail.

use futures_util::future::{join, ready};
use futures_util::task::noop_waker;
use futures_util::FutureExt;
use http::header::HeaderValue;
use http::request::Parts;
use http::Request;
use request_extract::rejection::any_rejections::Two;
use request_extract::request::with_parts::{single, PartsFirst};
use request_extract::request::FromParts;
use std::future::Future;
use std::pin::Pin;
use std::task::{Context, Poll};

struct Proto;

/// The parts side: takes the header `x-user` and counts its runs in
/// `x-runs`.
#[derive(Debug, PartialEq)]
struct User(String);

#[derive(Debug, PartialEq)]
struct NoUser;

impl FromParts<Proto> for User {
    type Rejection = NoUser;

    fn from_parts(parts: &mut Parts) -> Result<Self, Self::Rejection> {
        parts.headers.append("x-runs", HeaderValue::from_static("1"));
        match parts.headers.remove("x-user") {
            Some(value) => Ok(User(value.to_str().unwrap().to_string())),
            None => Err(NoUser),
        }
    }
}

/// A request side that is pending for `waits` polls and then ends with
/// `outcome`.
struct Slow<T> {
    waits: u32,
    outcome: Option<T>,
}

impl<T: Unpin> Future for Slow<T> {
    type Output = T;

    fn poll(self: Pin<&mut Self>, _cx: &mut Context<'_>) -> Poll<T> {
        let this = self.get_mut();
        if this.waits > 0 {
            this.waits -= 1;
            Poll::Pending
        } else {
            Poll::Ready(this.outcome.take().unwrap())
        }
    }
}

fn slow<T>(waits: u32, outcome: T) -> Slow<T> {
    Slow { waits, outcome: Some(outcome) }
}

/// Polls `future` until it is ready; returns its output and the number of
/// polls that took.
fn drive<F: Future>(future: F) -> (F::Output, u32) {
    let mut future = Box::pin(future);
    let waker = noop_waker();
    let mut cx = Context::from_waker(&waker);
    let mut polls = 0;
    loop {
        polls += 1;
        if let Poll::Ready(output) = future.as_mut().poll(&mut cx) {
            return (output, polls);
        }
    }
}

/// The pair as a future: the request side joined with the outcome that was
/// kept of the parts side.
fn pair<F, T1, R1>(
    request_side: F,
    kept: PartsFirst<User, NoUser>,
) -> impl Future<Output = Result<(T1, User), Two<R1, NoUser>>>
where
    F: Future<Output = Result<T1, R1>>,
{
    join(request_side, ready(kept)).map(|(outcome, kept)| kept.join(outcome))
}

fn head(user: Option<&'static str>) -> Parts {
    let (mut parts, _) = Request::new(()).into_parts();
    if let Some(user) = user {
        parts.headers.insert("x-user", HeaderValue::from_static(user));
    }
    parts
}

fn kept(user: Option<&'static str>) -> PartsFirst<User, NoUser> {
    PartsFirst::extract::<Proto>(&mut head(user))
}

#[test]
fn single_wraps_the_value() {
    assert_eq!(single::<u8, String>(Ok(7)), Ok((7,)));
}

#[test]
fn single_keeps_the_rejection_unwrapped() {
    assert_eq!(single::<u8, String>(Err("bad body".to_string())), Err("bad body".to_string()));
}

#[test]
fn join_both_succeed() {
    let outcome = kept(Some("ann")).join::<u32, String>(Ok(5));
    assert_eq!(outcome, Ok((5, User("ann".to_string()))));
}

#[test]
fn join_parts_side_fails_request_side_succeeds() {
    let outcome = kept(None).join::<u32, String>(Ok(5));
    assert_eq!(outcome, Err(Two::B(NoUser)));
}

#[test]
fn join_request_side_fails_parts_side_succeeds() {
    let outcome = kept(Some("ann")).join::<u32, String>(Err("bad body".to_string()));
    assert_eq!(outcome, Err(Two::A("bad body".to_string())));
}

#[test]
fn join_both_fail_reports_the_request_side() {
    let outcome = kept(None).join::<u32, String>(Err("bad body".to_string()));
    assert_eq!(outcome, Err(Two::A("bad body".to_string())));
}

#[test]
fn extract_runs_the_parts_side_once_on_the_head() {
    let mut parts = head(Some("ann"));
    let kept = PartsFirst::<User, NoUser>::extract::<Proto>(&mut parts);
    assert_eq!(parts.headers.get_all("x-runs").iter().count(), 1);
    assert!(parts.headers.get("x-user").is_none());
    assert_eq!(kept.join::<(), ()>(Ok(())), Ok(((), User("ann".to_string()))));
}

#[test]
fn extract_from_request_hands_back_body_and_head_as_left() {
    let mut request = Request::new("the body".to_string());
    *request.uri_mut() = "/things/7".parse().unwrap();
    request.headers_mut().insert("x-user", HeaderValue::from_static("ann"));
    request.headers_mut().insert("x-other", HeaderValue::from_static("kept"));

    let (kept, request) =
        PartsFirst::<User, NoUser>::extract_from_request::<Proto, String>(request);

    assert_eq!(request.body(), "the body");
    assert_eq!(request.uri().path(), "/things/7");
    assert_eq!(request.headers().get("x-other").unwrap(), "kept");
    assert!(request.headers().get("x-user").is_none());
    assert_eq!(request.headers().get_all("x-runs").iter().count(), 1);
    assert_eq!(kept.join::<(), ()>(Ok(())), Ok(((), User("ann".to_string()))));
}

#[test]
fn extract_from_request_keeps_a_failure_of_the_parts_side() {
    let request = Request::new(vec![1u8, 2, 3]);
    let (kept, request) =
        PartsFirst::<User, NoUser>::extract_from_request::<Proto, Vec<u8>>(request);
    assert_eq!(request.body(), &vec![1u8, 2, 3]);
    assert_eq!(kept.join::<(), ()>(Ok(())), Err(Two::B(NoUser)));
}

#[test]
fn slow_request_side_that_fails_still_wins_over_a_failed_parts_side() {
    let request_side = slow::<Result<u32, String>>(3, Err("bad body".to_string()));
    let (outcome, polls) = drive(pair(request_side, kept(None)));
    assert_eq!(outcome, Err(Two::A("bad body".to_string())));
    assert_eq!(polls, 4);
}

#[test]
fn tag_is_the_same_however_slow_the_request_side_is() {
    for waits in 0..5 {
        let request_side = slow::<Result<u32, String>>(waits, Err("bad body".to_string()));
        let (outcome, polls) = drive(pair(request_side, kept(None)));
        assert_eq!(outcome, Err(Two::A("bad body".to_string())));
        assert_eq!(polls, waits + 1);
    }
}

#[test]
fn slow_request_side_that_succeeds_leaves_the_failure_to_the_parts_side() {
    let request_side = slow::<Result<u32, String>>(2, Ok(5));
    let (outcome, _) = drive(pair(request_side, kept(None)));
    assert_eq!(outcome, Err(Two::B(NoUser)));
}

#[test]
fn slow_request_side_and_parts_side_both_succeed() {
    let request_side = slow::<Result<u32, String>>(2, Ok(5));
    let (outcome, _) = drive(pair(request_side, kept(Some("ann"))));
    assert_eq!(outcome, Ok((5, User("ann".to_string()))));
}
