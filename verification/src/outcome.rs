use vstd::prelude::*;

verus! {

/// How a fetch can fail below the level of a completed HTTP exchange.
#[derive(Debug)]
pub enum FetchError {
    /// A transport-level error: DNS, connection, or I/O trouble.
    Transport(String),
    /// The response could not be parsed; treated like a transport error.
    Malformed(String),
    /// A redirect location was missing or unusable, or the hop limit ran out.
    UriFormat,
}

impl FetchError {
    /// A transient failure may be papered over by trying the call again;
    /// a URI-format failure is final.
    pub open spec fn transient(&self) -> bool {
        self is Transport || self is Malformed
    }

    pub fn is_transient(&self) -> (b: bool)
        ensures
            b == self.transient(),
    {
        match self {
            FetchError::Transport(_) => true,
            FetchError::Malformed(_) => true,
            FetchError::UriFormat => false,
        }
    }
}

/// The part of an HTTP response that the fetch layer inspects, plus the
/// body payload, which it hands through untouched.
pub struct Response<B> {
    /// The status code of the response's status line.
    pub status: u16,
    /// The raw value of the `Location` header, when the response has one.
    pub location: Option<String>,
    /// The response body, opaque to the fetch layer.
    pub body: B,
}

/// What one call of a fetcher produces: a response or a failure.
pub type FetcherResult<B> = Result<Response<B>, FetchError>;

} // verus!
