use crate::message::Response;
use crate::response::{bad_gateway, unauthorized};
use vstd::prelude::*;

verus! {

/// What went wrong: a message, the description of a cause, or both.
pub struct Error {
    msg: String,
    cause: Option<String>,
}

/// What an [`Error`] amounts to.
pub struct ErrorView {
    pub msg: Seq<char>,
    pub cause: Option<Seq<char>>,
}

impl ErrorView {
    /// The text that describes the error: the message, then a colon and the
    /// cause where both are there; the one that is there where one is
    /// missing; `unknown error` where both are.
    pub open spec fn text(self) -> Seq<char> {
        if self.msg.len() == 0 {
            match self.cause {
                Some(cause) => cause,
                None => "unknown error"@,
            }
        } else {
            match self.cause {
                Some(cause) => self.msg + ": "@ + cause,
                None => self.msg,
            }
        }
    }
}

impl View for Error {
    type V = ErrorView;

    closed spec fn view(&self) -> ErrorView {
        ErrorView {
            msg: self.msg@,
            cause: match self.cause {
                Some(c) => Some(c@),
                None => None,
            },
        }
    }
}

impl Error {
    /// An error with the message `msg` and no cause.
    pub fn from_msg(msg: &str) -> (err: Self)
        ensures
            err@ == (ErrorView { msg: msg@, cause: None }),
    {
        Error { msg: msg.to_owned(), cause: None }
    }

    /// An error with the message `msg` and no cause.
    pub fn from_static_msg(msg: &'static str) -> (err: Self)
        ensures
            err@ == (ErrorView { msg: msg@, cause: None }),
    {
        Error { msg: msg.to_owned(), cause: None }
    }

    /// An error that only passes on the description of its cause.
    pub fn from_cause(cause: &str) -> (err: Self)
        ensures
            err@ == (ErrorView { msg: Seq::empty(), cause: Some(cause@) }),
    {
        Error { msg: String::new(), cause: Some(cause.to_owned()) }
    }

    /// An error with the message `msg` and the description of its cause.
    pub fn from_msg_and_cause(msg: &str, cause: &str) -> (err: Self)
        ensures
            err@ == (ErrorView { msg: msg@, cause: Some(cause@) }),
    {
        Error { msg: msg.to_owned(), cause: Some(cause.to_owned()) }
    }

    /// An error with the message `msg` and the description of its cause.
    pub fn from_static_msg_and_cause(msg: &'static str, cause: &str) -> (err: Self)
        ensures
            err@ == (ErrorView { msg: msg@, cause: Some(cause@) }),
    {
        Error { msg: msg.to_owned(), cause: Some(cause.to_owned()) }
    }

    /// An error with the message `msg` that was caused by `cause`.
    pub fn caused_by(msg: &'static str, cause: &Error) -> (err: Self)
        ensures
            err@ == (ErrorView { msg: msg@, cause: Some(cause@.text()) }),
    {
        let text = cause.message();
        Error { msg: msg.to_owned(), cause: Some(text) }
    }

    /// The text that describes the error.
    pub fn message(&self) -> (text: String)
        ensures
            text@ == self@.text(),
    {
        if self.msg.as_str().is_empty() {
            match &self.cause {
                Some(cause) => cause.clone(),
                None => "unknown error".to_owned(),
            }
        } else {
            match &self.cause {
                Some(cause) => {
                    let mut text = self.msg.clone();
                    text.append(": ");
                    text.append(cause.as_str());
                    text
                },
                None => self.msg.clone(),
            }
        }
    }
}

/// What can be turned into an HTTP response.
pub trait ToResponse {
    /// The status of the response.
    spec fn status(&self) -> u16;

    /// The response.
    fn to_response<S>(&self) -> (response: Response<S>)
        ensures
            response.head@ == crate::response::empty_head(self.status()),
            response.body is Empty,
    ;
}

/// The error of a request that came without valid credentials.
#[derive(Debug, Copy, Clone)]
pub struct Unauthorized;

impl Unauthorized {
    /// The text that describes the error.
    pub fn message(&self) -> (text: String)
        ensures
            text@ == "unauthorized"@,
    {
        "unauthorized".to_owned()
    }
}

impl ToResponse for Unauthorized {
    open spec fn status(&self) -> u16 {
        401
    }

    fn to_response<S>(&self) -> (response: Response<S>) {
        unauthorized()
    }
}

/// The error of a request whose device could not be reached.
#[derive(Debug, Copy, Clone)]
pub struct BadGateway;

impl BadGateway {
    /// The text that describes the error.
    pub fn message(&self) -> (text: String)
        ensures
            text@ == "bad gateway"@,
    {
        "bad gateway".to_owned()
    }
}

impl ToResponse for BadGateway {
    open spec fn status(&self) -> u16 {
        502
    }

    fn to_response<S>(&self) -> (response: Response<S>) {
        bad_gateway()
    }
}

/// The kinds of [`HttpError`].
pub enum HttpErrorKind {
    /// The request came without valid credentials: answered with 401.
    Unauthorized,
    /// The device could not be reached: answered with 502.
    BadGateway,
    /// Anything else. It has no response of its own.
    Other(ErrorView),
}

enum InnerHttpError {
    Unauthorized(Unauthorized),
    BadGateway(BadGateway),
    Other(Error),
}

/// An error of request handling, some of which know the response that the
/// client is to get.
pub struct HttpError {
    inner: InnerHttpError,
}

impl View for HttpError {
    type V = HttpErrorKind;

    closed spec fn view(&self) -> HttpErrorKind {
        match self.inner {
            InnerHttpError::Unauthorized(_) => HttpErrorKind::Unauthorized,
            InnerHttpError::BadGateway(_) => HttpErrorKind::BadGateway,
            InnerHttpError::Other(err) => HttpErrorKind::Other(err@),
        }
    }
}

impl HttpErrorKind {
    /// The status of the response that the error knows, if it knows one.
    pub open spec fn status(self) -> Option<u16> {
        match self {
            HttpErrorKind::Unauthorized => Some(401u16),
            HttpErrorKind::BadGateway => Some(502u16),
            HttpErrorKind::Other(_) => None,
        }
    }

    /// The text that describes the error.
    pub open spec fn text(self) -> Seq<char> {
        match self {
            HttpErrorKind::Unauthorized => "unauthorized"@,
            HttpErrorKind::BadGateway => "bad gateway"@,
            HttpErrorKind::Other(err) => err.text(),
        }
    }
}

impl HttpError {
    /// The error of a request that came without valid credentials.
    pub fn unauthorized() -> (err: Self)
        ensures
            err@ == HttpErrorKind::Unauthorized,
    {
        HttpError { inner: InnerHttpError::Unauthorized(Unauthorized) }
    }

    /// The error of a request whose device could not be reached.
    pub fn bad_gateway() -> (err: Self)
        ensures
            err@ == HttpErrorKind::BadGateway,
    {
        HttpError { inner: InnerHttpError::BadGateway(BadGateway) }
    }

    /// An error that has no response of its own.
    pub fn from_error(err: Error) -> (http: Self)
        ensures
            http@ == HttpErrorKind::Other(err@),
    {
        HttpError { inner: InnerHttpError::Other(err) }
    }

    /// The response that the error knows, if it knows one.
    pub fn to_response<S>(&self) -> (response: Option<Response<S>>)
        ensures
            match response {
                Some(r) => self@.status() == Some(r.head@.status) && r.head@
                    == crate::response::empty_head(r.head@.status) && r.body is Empty,
                None => self@.status() is None,
            },
    {
        match &self.inner {
            InnerHttpError::Unauthorized(err) => Some(err.to_response()),
            InnerHttpError::BadGateway(err) => Some(err.to_response()),
            InnerHttpError::Other(_) => None,
        }
    }

    /// The text that describes the error.
    pub fn message(&self) -> (text: String)
        ensures
            text@ == self@.text(),
    {
        match &self.inner {
            InnerHttpError::Unauthorized(err) => err.message(),
            InnerHttpError::BadGateway(err) => err.message(),
            InnerHttpError::Other(err) => err.message(),
        }
    }
}

} // verus!
