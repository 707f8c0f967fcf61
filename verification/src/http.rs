//! HTTP request descriptors.
//!
//! The network transfer runs through the platform's HTTP service outside
//! this library; these types carry the template id the service granted
//! and assemble a request — method, URL, body and timeout — as plain
//! values.

use vstd::prelude::*;

verus! {

/// Error from an HTTP operation, wrapping the raw device code.
#[derive(Debug, Clone, Copy, PartialEq, Eq, Structural)]
pub struct HttpError(pub i32);

/// HTTP request method.
#[derive(Debug, Clone, Copy, PartialEq, Eq, Structural)]
pub enum HttpMethod {
    Get,
    Post,
    Head,
}

/// A handle to the platform HTTP service: the request template the
/// service granted at initialization.
pub struct HttpClient {
    /// The granted template id.
    pub template_id: i32,
}

impl HttpClient {
    /// Record an initialization outcome: a non-negative template id
    /// becomes a client, a negative return the error code.
    pub fn from_template_result(template_id: i32) -> (r: Result<Self, HttpError>)
        ensures
            template_id >= 0 ==> (r matches Ok(c) && c.template_id == template_id),
            template_id < 0 ==> r == Err::<Self, HttpError>(HttpError(template_id)),
    {
        if template_id < 0 {
            Err(HttpError(template_id))
        } else {
            Ok(HttpClient { template_id })
        }
    }

    /// The raw template id.
    pub fn template_id(&self) -> (r: i32)
        ensures
            r == self.template_id,
    {
        self.template_id
    }
}

/// An HTTP response: status, the advertised length and the body bytes.
pub struct Response {
    /// HTTP status code (e.g. 200, 404).
    pub status_code: u16,
    /// Content length if the server provided one.
    pub content_length: Option<u64>,
    /// Response body.
    pub body: Vec<u8>,
}

/// Builder for one HTTP request: method, NUL-terminated URL, optional
/// body and optional timeout.
pub struct RequestBuilder {
    /// Request method.
    pub method: HttpMethod,
    /// The URL as NUL-terminated bytes, as the platform calls expect.
    pub url: Vec<u8>,
    /// Request body for POST.
    pub body: Option<Vec<u8>>,
    /// Timeout in milliseconds.
    pub timeout_ms: Option<u32>,
}

impl RequestBuilder {
    /// Set the request body.
    pub fn body(self, body: Vec<u8>) -> (r: Self)
        ensures
            r.body matches Some(b) && b@ == body@,
            r.method == self.method,
            r.url@ == self.url@,
            r.timeout_ms == self.timeout_ms,
    {
        RequestBuilder { body: Some(body), ..self }
    }

    /// Set the timeout in milliseconds.
    pub fn timeout(self, ms: u32) -> (r: Self)
        ensures
            r.timeout_ms == Some(ms),
            r.method == self.method,
            r.url@ == self.url@,
            r.body is Some == self.body is Some,
    {
        RequestBuilder { timeout_ms: Some(ms), ..self }
    }

    /// Whether the URL carries the NUL terminator the platform's HTTP
    /// calls demand.
    pub fn url_terminated(&self) -> (r: bool)
        ensures
            r == (self.url@.len() > 0 && self.url@.last() == 0u8),
    {
        self.url.len() > 0 && self.url[self.url.len() - 1] == 0
    }
}

} // verus!
