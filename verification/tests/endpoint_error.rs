//! The errors of endpoint resolution, with boxed trait objects as causes.

use request_extract::endpoint::error::{
    InvalidEndpointError, InvalidEndpointErrorKind, ResolveEndpointError,
};
use std::error::Error;
use std::fmt;
use std::sync::Arc;

type BoxError = Box<dyn Error + Send + Sync>;

/// A cause that can be told from every other cause by its token.
#[derive(Debug)]
struct Cause {
    token: Arc<str>,
}

impl fmt::Display for Cause {
    fn fmt(&self, f: &mut fmt::Formatter<'_>) -> fmt::Result {
        f.write_str(&self.token)
    }
}

impl Error for Cause {}

fn cause(text: &str) -> (Cause, Arc<str>) {
    let token: Arc<str> = Arc::from(text);
    (Cause { token: token.clone() }, token)
}

/// Holds if `found` is the cause that was made with `token`, and not a copy.
fn is_the_cause(found: Option<&BoxError>, token: &Arc<str>) -> bool {
    match found.and_then(|e| e.downcast_ref::<Cause>()) {
        Some(c) => Arc::ptr_eq(&c.token, token) && Arc::strong_count(token) == 2,
        None => false,
    }
}

#[test]
fn message_has_no_source() {
    let error = ResolveEndpointError::<BoxError>::message("x");
    assert!(error.source().is_none());
    assert_eq!(error.to_string(), "x");
}

#[test]
fn message_takes_owned_strings() {
    let error = ResolveEndpointError::<BoxError>::message(String::from("no endpoint for region"));
    assert_eq!(error.to_string(), "no endpoint for region");
    let error = ResolveEndpointError::<BoxError>::from_text(String::from("no endpoint"));
    assert_eq!(error.to_string(), "no endpoint");
    assert!(error.source().is_none());
}

#[test]
fn with_source_sets_the_source_and_keeps_the_message() {
    let (c, token) = cause("connection refused");
    let error = ResolveEndpointError::<BoxError>::message("x").with_source(Some(Box::new(c)));
    assert!(is_the_cause(error.source(), &token));
    assert_eq!(error.source().unwrap().to_string(), "connection refused");
    assert_eq!(error.to_string(), "x");
}

#[test]
fn with_source_none_removes_the_source() {
    let (c, token) = cause("gone");
    let error = ResolveEndpointError::<BoxError>::message("x")
        .with_source(Some(Box::new(c)))
        .with_source(None);
    assert!(error.source().is_none());
    assert_eq!(Arc::strong_count(&token), 1);
    assert_eq!(error.to_string(), "x");
}

#[test]
fn with_source_replaces_an_earlier_source() {
    let (first, _) = cause("first");
    let (second, token) = cause("second");
    let error = ResolveEndpointError::<BoxError>::message("x")
        .with_source(Some(Box::new(first)))
        .with_source(Some(Box::new(second)));
    assert!(is_the_cause(error.source(), &token));
}

#[test]
fn invalid_endpoint_display_strings_are_exact() {
    let (a, _) = cause("a");
    let (u, _) = cause("u");
    assert_eq!(
        InvalidEndpointError::<BoxError>::endpoint_must_have_scheme().to_string(),
        "endpoint must contain a valid scheme"
    );
    assert_eq!(
        InvalidEndpointError::<BoxError>::failed_to_construct_authority(a).to_string(),
        "endpoint must contain a valid authority when combined with endpoint prefix"
    );
    assert_eq!(
        InvalidEndpointError::<BoxError>::failed_to_construct_uri(u).to_string(),
        "failed to construct URI"
    );
}

#[test]
fn missing_scheme_has_no_source() {
    let error = InvalidEndpointError::<BoxError>::endpoint_must_have_scheme();
    assert!(error.source().is_none());
}

#[test]
fn constructors_keep_the_cause_they_are_given() {
    let (c, token) = cause("bad authority");
    let error = InvalidEndpointError::<BoxError>::failed_to_construct_authority(c);
    assert!(is_the_cause(error.source(), &token));

    let (c, token) = cause("bad uri");
    let error = InvalidEndpointError::<BoxError>::failed_to_construct_uri(c);
    assert!(is_the_cause(error.source(), &token));
}

#[test]
fn constructors_take_boxed_causes() {
    let (c, token) = cause("boxed");
    let boxed: BoxError = Box::new(c);
    let error = InvalidEndpointError::<BoxError>::failed_to_construct_uri(boxed);
    assert!(is_the_cause(error.source(), &token));
}

#[test]
fn kind_round_trip_recovers_the_same_cause() {
    let (c, token) = cause("authority");
    let kind = InvalidEndpointErrorKind::FailedToConstructAuthority::<BoxError> { source: Box::new(c) };
    let error = InvalidEndpointError::from(kind);
    assert!(is_the_cause(error.source(), &token));
    assert_eq!(
        error.to_string(),
        "endpoint must contain a valid authority when combined with endpoint prefix"
    );

    let (c, token) = cause("uri");
    let kind = InvalidEndpointErrorKind::FailedToConstructUri::<BoxError> { source: Box::new(c) };
    let error = InvalidEndpointError::from(kind);
    assert!(is_the_cause(error.source(), &token));
    assert_eq!(error.to_string(), "failed to construct URI");

    let error = InvalidEndpointError::<BoxError>::from(InvalidEndpointErrorKind::EndpointMustHaveScheme);
    assert!(error.source().is_none());
    assert_eq!(error.to_string(), "endpoint must contain a valid scheme");
}

#[test]
fn resolve_error_can_carry_an_invalid_endpoint_error() {
    let (c, token) = cause("no host");
    let invalid = InvalidEndpointError::<BoxError>::failed_to_construct_uri(c);
    let error = ResolveEndpointError::message("endpoint is invalid").with_source(Some(invalid));
    assert_eq!(error.to_string(), "endpoint is invalid");
    let inner = error.source().unwrap();
    assert_eq!(inner.to_string(), "failed to construct URI");
    assert!(is_the_cause(inner.source(), &token));
}
