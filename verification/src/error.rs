use vstd::prelude::*;
use vstd::string::StringExecFns;

verus! {

/// What can go wrong between a client's request and the origin's response.
#[derive(Debug)]
pub enum ForwardError {
    /// The request's URL names no domain.
    MissingDomain,
    /// The request's domain is not one that the proxy fronts.
    UnknownDomain,
    /// An origin is not written as a URL, or its address cannot be found.
    InvalidTarget,
    /// An origin names no host, or no port can be told for it.
    InvalidDomain,
    /// A name gave no address.
    AddressResolutionError,
    /// No byte stream to the origin could be had; the text says why.
    ConnectionError(String),
    /// The origin's scheme is neither `http` nor `https`; the text is the scheme.
    UnsupportedScheme(String),
    /// The exchange with the origin broke the protocol; the text says how.
    UpstreamProtocolError(String),
    /// The body could not be read as text, and was passed on as it came.
    BodyDecodeError,
    /// The body's encoding is not one the proxy handles, and the body was
    /// passed on as it came; the text is the encoding.
    UnhandledEncoding(String),
}

/// A `ForwardError` as a mathematical value.
pub enum Failure {
    MissingDomain,
    UnknownDomain,
    InvalidTarget,
    InvalidDomain,
    AddressResolutionError,
    ConnectionError(Seq<char>),
    UnsupportedScheme(Seq<char>),
    UpstreamProtocolError(Seq<char>),
    BodyDecodeError,
    UnhandledEncoding(Seq<char>),
}

impl View for ForwardError {
    type V = Failure;

    open spec fn view(&self) -> Failure {
        match self {
            ForwardError::MissingDomain => Failure::MissingDomain,
            ForwardError::UnknownDomain => Failure::UnknownDomain,
            ForwardError::InvalidTarget => Failure::InvalidTarget,
            ForwardError::InvalidDomain => Failure::InvalidDomain,
            ForwardError::AddressResolutionError => Failure::AddressResolutionError,
            ForwardError::ConnectionError(m) => Failure::ConnectionError(m@),
            ForwardError::UnsupportedScheme(s) => Failure::UnsupportedScheme(s@),
            ForwardError::UpstreamProtocolError(m) => Failure::UpstreamProtocolError(m@),
            ForwardError::BodyDecodeError => Failure::BodyDecodeError,
            ForwardError::UnhandledEncoding(e) => Failure::UnhandledEncoding(e@),
        }
    }
}

impl Failure {
    /// The sentence that tells a reader what went wrong.
    pub open spec fn message(self) -> Seq<char> {
        match self {
            Failure::MissingDomain => "missing domain"@,
            Failure::UnknownDomain => "invalid domain, check config file"@,
            Failure::InvalidTarget => "invalid target"@,
            Failure::InvalidDomain => "invalid domain"@,
            Failure::AddressResolutionError => "invalid host"@,
            Failure::ConnectionError(m) => m,
            Failure::UnsupportedScheme(s) => "unsupported scheme: "@ + s,
            Failure::UpstreamProtocolError(m) => m,
            Failure::BodyDecodeError => "can not convert body to utf-8 string"@,
            Failure::UnhandledEncoding(e) => "unhandled encoding: "@ + e,
        }
    }

    /// The response that the client gets for this failure.
    pub open spec fn response(self) -> HttpErrorView {
        HttpErrorView { status: 500, message: self.message() }
    }
}

impl ForwardError {
    /// The sentence that tells a reader what went wrong.
    pub fn message(&self) -> (m: String)
        ensures
            m@ == self@.message(),
    {
        match self {
            ForwardError::MissingDomain => "missing domain".to_owned(),
            ForwardError::UnknownDomain => "invalid domain, check config file".to_owned(),
            ForwardError::InvalidTarget => "invalid target".to_owned(),
            ForwardError::InvalidDomain => "invalid domain".to_owned(),
            ForwardError::AddressResolutionError => "invalid host".to_owned(),
            ForwardError::ConnectionError(m) => m.clone(),
            ForwardError::UnsupportedScheme(s) => "unsupported scheme: ".to_owned().concat(
                s.as_str(),
            ),
            ForwardError::UpstreamProtocolError(m) => m.clone(),
            ForwardError::BodyDecodeError => "can not convert body to utf-8 string".to_owned(),
            ForwardError::UnhandledEncoding(e) => "unhandled encoding: ".to_owned().concat(
                e.as_str(),
            ),
        }
    }

    /// The response that the client gets for this failure: status 500 with the
    /// failure's sentence.
    pub fn response(&self) -> (r: HttpError)
        ensures
            r@ == self@.response(),
    {
        http_error(self.message())
    }
}

/// A response that reports a failure to the client.
#[derive(Debug)]
pub struct HttpError {
    /// The status code.
    pub status: u16,
    /// The sentence for the reader.
    pub message: String,
}

/// An `HttpError` as a mathematical value.
pub struct HttpErrorView {
    pub status: u16,
    pub message: Seq<char>,
}

impl View for HttpError {
    type V = HttpErrorView;

    open spec fn view(&self) -> HttpErrorView {
        HttpErrorView { status: self.status, message: self.message@ }
    }
}

/// The response that reports `error` as an internal server error.
pub fn http_error(error: String) -> (r: HttpError)
    ensures
        r@ == (HttpErrorView { status: 500, message: error@ }),
{
    HttpError { status: 500, message: error }
}

} // verus!
