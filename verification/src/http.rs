//! Requests as plain values, and what the end of an exchange means.

use vstd::prelude::*;
use crate::error::{AppError, AppErrorView};
use crate::metadata::models::{ServiceType, opt_view};

verus! {

/// The verb of a request.
#[derive(Debug, Clone, Copy, PartialEq, Eq, Structural)]
pub enum HttpMethod {
    Get,
    Post,
}

/// A name with its value: a query parameter or a header.
#[derive(Debug, Clone, PartialEq, Eq)]
pub struct Param {
    pub name: String,
    pub value: String,
}

impl View for Param {
    type V = (Seq<char>, Seq<char>);

    open spec fn view(&self) -> (Seq<char>, Seq<char>) {
        (self.name@, self.value@)
    }
}

/// The views of a list of parameters, in order.
pub open spec fn params_view(params: Seq<Param>) -> Seq<(Seq<char>, Seq<char>)> {
    Seq::new(params.len(), |i: int| params[i]@)
}

/// A request as it goes on the wire. The query parameters are not yet
/// encoded into the URL; whoever sends the request encodes them.
#[derive(Debug, Clone, PartialEq, Eq)]
pub struct HttpRequest {
    pub method: HttpMethod,
    pub url: String,
    pub query: Vec<Param>,
    pub headers: Vec<Param>,
    pub body: Option<String>,
}

/// The mathematical value of an [`HttpRequest`].
pub struct HttpRequestView {
    pub method: HttpMethod,
    pub url: Seq<char>,
    pub query: Seq<(Seq<char>, Seq<char>)>,
    pub headers: Seq<(Seq<char>, Seq<char>)>,
    pub body: Option<Seq<char>>,
}

impl View for HttpRequest {
    type V = HttpRequestView;

    open spec fn view(&self) -> HttpRequestView {
        HttpRequestView {
            method: self.method,
            url: self.url@,
            query: params_view(self.query@),
            headers: params_view(self.headers@),
            body: opt_view(self.body),
        }
    }
}

/// Appends a parameter to a list.
pub fn push_param(params: &mut Vec<Param>, name: &str, value: String)
    ensures
        params_view(final(params)@) == params_view(old(params)@).push((name@, value@)),
{
    params.push(Param { name: name.to_owned(), value });
}

/// The value of the `Authorization` header that carries a bearer token.
pub fn bearer(token: &str) -> (value: String)
    ensures
        value@ == spec_bearer(token@),
{
    crate::text::joined("Bearer ", token)
}

pub open spec fn spec_bearer(token: Seq<char>) -> Seq<char> {
    "Bearer "@ + token
}

/// A status in the success range, 200 to 299.
pub open spec fn spec_is_success(status: u16) -> bool {
    200 <= status < 300
}

/// Whether a status is in the success range.
pub fn is_success(status: u16) -> (ok: bool)
    ensures
        ok == spec_is_success(status),
{
    200 <= status && status < 300
}

/// The status by which a provider says that the credential was not accepted.
pub const UNAUTHORIZED: u16 = 401;

/// The status that stands for an operation that a provider does not offer.
pub const NOT_IMPLEMENTED: u16 = 501;

/// Whether a status says that the credential was not accepted.
pub fn is_unauthorized(status: u16) -> (unauthorized: bool)
    ensures
        unauthorized == (status == UNAUTHORIZED),
{
    status == UNAUTHORIZED
}

/// How one HTTP exchange ended, as whoever performed it reports it.
#[derive(Debug, Clone, PartialEq, Eq)]
pub enum Exchange<T> {
    /// The exchange did not complete; the text says why.
    Failed(String),
    /// The provider answered. `body` is the decoded body, or `None` where
    /// it could not be decoded as the shape that was expected.
    Replied { status: u16, body: Option<T> },
}

/// The message of the transport error for a body that could not be decoded.
pub open spec fn malformed_body_message() -> Seq<char> {
    "malformed response body"@
}

/// What an exchange with a provider yields: the decoded body of a successful
/// answer, a `MetadataError` with the status of any other answer, and a
/// `TransportError` where the exchange failed or the body could not be
/// decoded.
pub open spec fn spec_settle<T>(provider: ServiceType, exchange: Exchange<T>) -> Result<
    T,
    AppErrorView,
> {
    match exchange {
        Exchange::Failed(reason) => Err(AppErrorView::Transport(reason@)),
        Exchange::Replied { status, body } => if spec_is_success(status) {
            match body {
                Some(decoded) => Ok(decoded),
                None => Err(AppErrorView::Transport(malformed_body_message())),
            }
        } else {
            Err(AppErrorView::Metadata { provider, status })
        },
    }
}

/// Turns the end of an exchange into the decoded body or the error that the
/// caller sees.
pub fn settle<T>(provider: ServiceType, exchange: Exchange<T>) -> (settled: Result<T, AppError>)
    ensures
        match spec_settle(provider, exchange) {
            Ok(decoded) => settled == Ok::<T, AppError>(decoded),
            Err(e) => settled is Err && settled->Err_0@ == e,
        },
{
    match exchange {
        Exchange::Failed(reason) => Err(AppError::TransportError(reason)),
        Exchange::Replied { status, body } => {
            if is_success(status) {
                match body {
                    Some(decoded) => Ok(decoded),
                    None => Err(AppError::TransportError("malformed response body".to_owned())),
                }
            } else {
                Err(AppError::MetadataError { provider, status })
            }
        },
    }
}

} // verus!
