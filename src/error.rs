use vstd::prelude::*;
use vstd::string::StringExecFns;

verus! {

/// The kinds of failure that the ingestion pipeline tells apart.
#[derive(Clone, Copy, Debug, PartialEq, Eq, Structural)]
pub enum ErrorKind {
    /// A caller-supplied currency code outside the supported set.
    Validation,
    /// A network failure or a non-success status from the provider.
    Transport,
    /// A response body that does not have the expected shape.
    Schema,
    /// One record's upsert failed.
    Store,
    /// A page's transaction failed to open or to commit.
    Commit,
    /// A read by symbol found no stored row.
    NotFound,
}

/// An error of the page fetcher and of the read API, with its message.
#[derive(Clone, Debug)]
pub enum CoinFetchError {
    ValidationError(String),
    NotFoundError(String),
    /// A transport failure; the payload is the underlying cause.
    GeckoError(String),
    /// A response that could not be decoded; the payload is the cause.
    UnexpectedError(String),
}

/// The body sent to a caller of the read API when a request fails.
#[derive(Clone, Debug)]
pub struct ErrorResponse {
    pub code: u16,
    pub message: String,
}

pub open spec fn kind_of(e: CoinFetchError) -> ErrorKind {
    match e {
        CoinFetchError::ValidationError(_) => ErrorKind::Validation,
        CoinFetchError::NotFoundError(_) => ErrorKind::NotFound,
        CoinFetchError::GeckoError(_) => ErrorKind::Transport,
        CoinFetchError::UnexpectedError(_) => ErrorKind::Schema,
    }
}

pub open spec fn status_of(e: CoinFetchError) -> u16 {
    match e {
        CoinFetchError::ValidationError(_) => 400,
        CoinFetchError::NotFoundError(_) => 404,
        CoinFetchError::GeckoError(_) => 500,
        CoinFetchError::UnexpectedError(_) => 500,
    }
}

pub open spec fn gecko_message() -> Seq<char> {
    "Failed to fetch result from CoinGecko"@
}

pub open spec fn message_of(e: CoinFetchError) -> Seq<char> {
    match e {
        CoinFetchError::ValidationError(m) => m@,
        CoinFetchError::NotFoundError(m) => m@,
        CoinFetchError::GeckoError(_) => gecko_message(),
        CoinFetchError::UnexpectedError(m) => m@,
    }
}

/// Whether an error of this kind is the caller's fault rather than the server's.
pub open spec fn is_client_kind(k: ErrorKind) -> bool {
    k == ErrorKind::Validation || k == ErrorKind::NotFound
}

impl ErrorKind {
    /// Whether the failure is reported to an API caller as a client error.
    pub fn is_client_error(&self) -> (r: bool)
        ensures
            r == is_client_kind(*self),
    {
        match self {
            ErrorKind::Validation | ErrorKind::NotFound => true,
            _ => false,
        }
    }
}

impl CoinFetchError {
    pub fn kind(&self) -> (r: ErrorKind)
        ensures
            r == kind_of(*self),
    {
        match self {
            CoinFetchError::ValidationError(_) => ErrorKind::Validation,
            CoinFetchError::NotFoundError(_) => ErrorKind::NotFound,
            CoinFetchError::GeckoError(_) => ErrorKind::Transport,
            CoinFetchError::UnexpectedError(_) => ErrorKind::Schema,
        }
    }

    /// The HTTP status for this error: 400 for validation, 404 for not
    /// found, 500 for provider and decoding failures.
    pub fn status_code(&self) -> (r: u16)
        ensures
            r == status_of(*self),
            (r < 500) == is_client_kind(kind_of(*self)),
    {
        match self {
            CoinFetchError::ValidationError(_) => 400,
            CoinFetchError::NotFoundError(_) => 404,
            CoinFetchError::GeckoError(_) => 500,
            CoinFetchError::UnexpectedError(_) => 500,
        }
    }

    /// The text shown to a caller.
    pub fn message(&self) -> (r: String)
        ensures
            r@ == message_of(*self),
    {
        match self {
            CoinFetchError::ValidationError(m) => m.clone(),
            CoinFetchError::NotFoundError(m) => m.clone(),
            CoinFetchError::GeckoError(_) => String::from_str("Failed to fetch result from CoinGecko"),
            CoinFetchError::UnexpectedError(m) => m.clone(),
        }
    }

    /// The response body for this error: its status and its message.
    pub fn error_response(&self) -> (r: ErrorResponse)
        ensures
            r.code == status_of(*self),
            r.message@ == message_of(*self),
    {
        ErrorResponse { code: self.status_code(), message: self.message() }
    }
}

} // verus!
