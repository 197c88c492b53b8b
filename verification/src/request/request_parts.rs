//! A request taken apart, whose pieces can be taken one by one.

use vstd::prelude::*;
use http::header::HeaderValue;
use http::request::Parts;
use http::{Extensions, HeaderMap, Request, Uri};

verus! {

/// `http::Uri`, the URI of a request.
#[verifier::external_type_specification]
#[verifier::external_body]
pub struct ExUri(Uri);

/// `http::header::HeaderValue`, the value of one header.
#[verifier::external_type_specification]
#[verifier::external_body]
pub struct ExHeaderValue(HeaderValue);

/// `http::HeaderMap`, the headers of a request.
#[verifier::external_type_specification]
#[verifier::external_body]
#[verifier::reject_recursive_types(T)]
pub struct ExHeaderMap<T>(HeaderMap<T>);

/// `http::Extensions`, the extensions of a request: typed data that
/// middleware attached to it.
#[verifier::external_type_specification]
#[verifier::external_body]
pub struct ExExtensions(Extensions);

/// Moves the fields `uri`, `headers` and `extensions` out of an
/// `http::request::Parts`. Nothing is claimed of them: to the verifier a head
/// is opaque.
#[verifier::external_body]
fn pieces_of_head(head: Parts) -> (pieces: (Uri, HeaderMap, Extensions)) {
    (head.uri, head.headers, head.extensions)
}

/// What a [`RequestParts`] holds. A piece that was taken is `None`.
pub struct RequestPartsView<B> {
    pub uri: Uri,
    pub headers: Option<HeaderMap>,
    pub extensions: Option<Extensions>,
    pub body: Option<B>,
}

/// A request taken apart: the URI, and the headers, the extensions and the
/// body for as long as nobody has taken them.
#[derive(Debug)]
pub struct RequestParts<B> {
    uri: Uri,
    headers: Option<HeaderMap>,
    extensions: Option<Extensions>,
    body: Option<B>,
}

impl<B> View for RequestParts<B> {
    type V = RequestPartsView<B>;

    closed spec fn view(&self) -> RequestPartsView<B> {
        RequestPartsView {
            uri: self.uri,
            headers: self.headers,
            extensions: self.extensions,
            body: self.body,
        }
    }
}

impl<B> RequestParts<B> {
    /// Create a new `RequestParts` from a request. Nothing is taken yet.
    pub fn new(req: Request<B>) -> (parts: Self)
        ensures
            parts@.headers is Some,
            parts@.extensions is Some,
            parts@.body is Some,
    {
        let (head, body) = req.into_parts();
        let (uri, headers, extensions) = pieces_of_head(head);
        Self::from_pieces(uri, headers, extensions, body)
    }

    /// Create a new `RequestParts` from the pieces of a request. Nothing is
    /// taken yet.
    pub fn from_pieces(uri: Uri, headers: HeaderMap, extensions: Extensions, body: B) -> (parts: Self)
        ensures
            parts@ == (RequestPartsView {
                uri,
                headers: Some(headers),
                extensions: Some(extensions),
                body: Some(body),
            }),
    {
        RequestParts { uri, headers: Some(headers), extensions: Some(extensions), body: Some(body) }
    }

    /// Gets a reference to the request headers.
    ///
    /// Returns `None` if the headers has been taken by another extractor.
    pub fn headers(&self) -> (headers: Option<&HeaderMap>)
        ensures
            headers == match self@.headers {
                Some(h) => Some(&h),
                None => None,
            },
    {
        self.headers.as_ref()
    }

    /// Takes the body out of the request, leaving a `None` in its place.
    pub fn take_body(&mut self) -> (body: Option<B>)
        ensures
            body == old(self)@.body,
            final(self)@ == (RequestPartsView { body: None, ..old(self)@ }),
    {
        self.body.take()
    }

    /// Gets a reference the request URI.
    pub fn uri(&self) -> (uri: &Uri)
        ensures
            *uri == self@.uri,
    {
        &self.uri
    }

    /// Gets a reference to the request extensions.
    ///
    /// Returns `None` if the extensions has been taken by another extractor.
    pub fn extensions(&self) -> (extensions: Option<&Extensions>)
        ensures
            extensions == match self@.extensions {
                Some(e) => Some(&e),
                None => None,
            },
    {
        self.extensions.as_ref()
    }
}

} // verus!
