//! Errors of the service and the responses that report them: each error has a
//! message (what its `Display` would write), an HTTP status and a numeric code
//! for troubleshooting. Errors that came from another library carry that
//! library's message as text.
use vstd::prelude::*;
use vstd::string::*;

verus! {

/// Offset for client errors explicit codes
pub const CLIENT_ERROR_CODES_OFFSET: u16 = 4000;

/// Offset for server errors explicit codes
pub const SERVER_ERROR_CODES_OFFSET: u16 = 5000;

/// HTTP status 400 Bad Request.
pub const STATUS_BAD_REQUEST: u16 = 400;

/// HTTP status 401 Unauthorized.
pub const STATUS_UNAUTHORIZED: u16 = 401;

/// HTTP status 404 Not Found.
pub const STATUS_NOT_FOUND: u16 = 404;

/// HTTP status 500 Internal Server Error.
pub const STATUS_INTERNAL_SERVER_ERROR: u16 = 500;

/// Response with additional information about error
pub struct ErrorResponse {
    /// Error message with additional info
    pub message: String,
    /// Code for troubleshooting
    pub code: u16,
}

/// `prefix` followed by `s`, as a new string.
pub fn prefixed(prefix: &str, s: &str) -> (res: String)
    ensures
        res@ == prefix@ + s@,
{
    let start = String::from_str(prefix);
    start.concat(s)
}

/// All possible lib errors
pub enum RouteError {
    /// The request body contained invalid JSON (the rejection's body text)
    JsonRejection(String),
    /// The request body contained invalid Bytes (the rejection's body text)
    BytesRejection(String),
    /// Invalid request by other validation. Like inside of route
    Rejection(String),
    /// Missing header
    MissingHeader(String),
    /// Error in middleware
    Middleware(String),
    /// Failed to find smth
    NotFound(String),
    /// A database query failed (the database error's message)
    Db(String),
    /// The object storage failed (the storage error's message)
    S3(String),
    /// The cache failed (the cache error's message)
    Redis(String),
    /// Talking to a node failed (the HTTP client error's message)
    Reqwest(String),
    /// Failed IO
    Io {
        /// Inner error
        err: String,
        /// Additional desc
        desc: String,
    },
    /// For different client errors
    InvalidRequest(String),
    /// For errors that should never occur, but happened somehow
    Unexpected(String),
    /// Any other error (its message)
    Any(String),
}

/// The message of a route error, as its `Display` writes it.
pub open spec fn route_error_message(e: RouteError) -> Seq<char> {
    match e {
        RouteError::JsonRejection(t) => t@,
        RouteError::BytesRejection(t) => t@,
        RouteError::Rejection(s) => "Invalid request. Reason: "@ + s@,
        RouteError::MissingHeader(h) => "Missing `"@ + h@ + "` header"@,
        RouteError::Middleware(s) => "Error in request pipeline: "@ + s@,
        RouteError::NotFound(s) => "Failed to find "@ + s@,
        RouteError::Db(s) => "Failed to run query. Reason: "@ + s@,
        RouteError::S3(s) => " "@ + s@,
        RouteError::Redis(s) => "Failed connection to cache. Reason: "@ + s@,
        RouteError::Reqwest(s) => "Failed communication with node. Reason: "@ + s@,
        RouteError::Io { err, desc } => "Failed IO. Description: "@ + desc@ + ". Err: "@ + err@,
        RouteError::InvalidRequest(s) => "Invalid request. Reason: "@ + s@,
        RouteError::Unexpected(s) => "Unexpected server error. Reason: "@ + s@,
        RouteError::Any(s) => s@,
    }
}

/// The HTTP status with which a route error is answered.
pub open spec fn route_error_status(e: RouteError) -> u16 {
    match e {
        RouteError::JsonRejection(_) => STATUS_BAD_REQUEST,
        RouteError::BytesRejection(_) => STATUS_BAD_REQUEST,
        RouteError::Rejection(_) => STATUS_BAD_REQUEST,
        RouteError::NotFound(_) => STATUS_NOT_FOUND,
        RouteError::InvalidRequest(_) => STATUS_BAD_REQUEST,
        _ => STATUS_INTERNAL_SERVER_ERROR,
    }
}

/// The troubleshooting code with which a route error is answered.
pub open spec fn route_error_code(e: RouteError) -> u16 {
    match e {
        RouteError::JsonRejection(_) => (CLIENT_ERROR_CODES_OFFSET + 1) as u16,
        RouteError::BytesRejection(_) => (CLIENT_ERROR_CODES_OFFSET + 2) as u16,
        RouteError::Rejection(_) => (CLIENT_ERROR_CODES_OFFSET + 3) as u16,
        RouteError::NotFound(_) => (CLIENT_ERROR_CODES_OFFSET + 4) as u16,
        RouteError::InvalidRequest(_) => (CLIENT_ERROR_CODES_OFFSET + 41) as u16,
        RouteError::Unexpected(_) => (SERVER_ERROR_CODES_OFFSET + 51) as u16,
        _ => (SERVER_ERROR_CODES_OFFSET + 50) as u16,
    }
}

impl RouteError {
    /// The message of this error (what `Display` would write).
    pub fn message(&self) -> (res: String)
        ensures
            res@ == route_error_message(*self),
    {
        match self {
            RouteError::JsonRejection(t) => t.clone(),
            RouteError::BytesRejection(t) => t.clone(),
            RouteError::Rejection(s) => prefixed("Invalid request. Reason: ", s.as_str()),
            RouteError::MissingHeader(h) => {
                let start = prefixed("Missing `", h.as_str());
                start.concat("` header")
            },
            RouteError::Middleware(s) => prefixed("Error in request pipeline: ", s.as_str()),
            RouteError::NotFound(s) => prefixed("Failed to find ", s.as_str()),
            RouteError::Db(s) => prefixed("Failed to run query. Reason: ", s.as_str()),
            RouteError::S3(s) => prefixed(" ", s.as_str()),
            RouteError::Redis(s) => prefixed("Failed connection to cache. Reason: ", s.as_str()),
            RouteError::Reqwest(s) => prefixed(
                "Failed communication with node. Reason: ",
                s.as_str(),
            ),
            RouteError::Io { err, desc } => {
                let start = prefixed("Failed IO. Description: ", desc.as_str());
                let middle = start.concat(". Err: ");
                middle.concat(err.as_str())
            },
            RouteError::InvalidRequest(s) => prefixed("Invalid request. Reason: ", s.as_str()),
            RouteError::Unexpected(s) => prefixed("Unexpected server error. Reason: ", s.as_str()),
            RouteError::Any(s) => s.clone(),
        }
    }

    /// The HTTP status with which this error is answered.
    pub fn status(&self) -> (res: u16)
        ensures
            res == route_error_status(*self),
    {
        match self {
            RouteError::JsonRejection(_) => STATUS_BAD_REQUEST,
            RouteError::BytesRejection(_) => STATUS_BAD_REQUEST,
            RouteError::Rejection(_) => STATUS_BAD_REQUEST,
            RouteError::NotFound(_) => STATUS_NOT_FOUND,
            RouteError::InvalidRequest(_) => STATUS_BAD_REQUEST,
            _ => STATUS_INTERNAL_SERVER_ERROR,
        }
    }

    /// The troubleshooting code with which this error is answered.
    pub fn code(&self) -> (res: u16)
        ensures
            res == route_error_code(*self),
    {
        match self {
            RouteError::JsonRejection(_) => CLIENT_ERROR_CODES_OFFSET + 1,
            RouteError::BytesRejection(_) => CLIENT_ERROR_CODES_OFFSET + 2,
            RouteError::Rejection(_) => CLIENT_ERROR_CODES_OFFSET + 3,
            RouteError::NotFound(_) => CLIENT_ERROR_CODES_OFFSET + 4,
            RouteError::InvalidRequest(_) => CLIENT_ERROR_CODES_OFFSET + 41,
            RouteError::Unexpected(_) => SERVER_ERROR_CODES_OFFSET + 51,
            _ => SERVER_ERROR_CODES_OFFSET + 50,
        }
    }

    /// Whether answering this error also logs it: only unexpected errors are.
    pub fn is_logged(&self) -> (res: bool)
        ensures
            res == (*self is Unexpected),
    {
        match self {
            RouteError::Unexpected(_) => true,
            _ => false,
        }
    }

    /// The answer to this error: its HTTP status and the body that carries its
    /// message and code.
    pub fn into_response(self) -> (res: (u16, ErrorResponse))
        ensures
            res.0 == route_error_status(self),
            res.1.code == route_error_code(self),
            res.1.message@ == route_error_message(self),
    {
        let status = self.status();
        let code = self.code();
        let message = self.message();
        (status, ErrorResponse { message, code })
    }
}

/// Client errors carry client codes and server errors server codes: an error
/// is answered with a 4xx status exactly when its code lies between the client
/// offset and the server offset, and every other error is answered with status
/// 500 and a code above the server offset.
pub proof fn lemma_route_error_codes(e: RouteError)
    ensures
        route_error_code(e) > CLIENT_ERROR_CODES_OFFSET,
        (400 <= route_error_status(e) < 500) <==> (route_error_code(e) < SERVER_ERROR_CODES_OFFSET),
        !(400 <= route_error_status(e) < 500) ==> route_error_status(e) == STATUS_INTERNAL_SERVER_ERROR
            && route_error_code(e) > SERVER_ERROR_CODES_OFFSET,
{
}

/// Each kind of route error is answered with one status and one code, whatever
/// text it carries: a `NotFound` is always 404 with code 4004, an
/// `InvalidRequest` 400 with 4041, the rejections 400 with 4001 to 4003, an
/// `Unexpected` 500 with 5051 and every other error 500 with 5050.
pub proof fn lemma_route_error_status_by_kind(s: String, t: String)
    ensures
        route_error_status(RouteError::NotFound(s)) == STATUS_NOT_FOUND,
        route_error_code(RouteError::NotFound(s)) == 4004,
        route_error_status(RouteError::NotFound(s)) == route_error_status(RouteError::NotFound(t)),
        route_error_status(RouteError::InvalidRequest(s)) == STATUS_BAD_REQUEST,
        route_error_code(RouteError::InvalidRequest(s)) == 4041,
        route_error_status(RouteError::JsonRejection(s)) == STATUS_BAD_REQUEST,
        route_error_code(RouteError::JsonRejection(s)) == 4001,
        route_error_status(RouteError::BytesRejection(s)) == STATUS_BAD_REQUEST,
        route_error_code(RouteError::BytesRejection(s)) == 4002,
        route_error_status(RouteError::Rejection(s)) == STATUS_BAD_REQUEST,
        route_error_code(RouteError::Rejection(s)) == 4003,
        route_error_status(RouteError::Unexpected(s)) == STATUS_INTERNAL_SERVER_ERROR,
        route_error_code(RouteError::Unexpected(s)) == 5051,
        route_error_status(RouteError::MissingHeader(s)) == STATUS_INTERNAL_SERVER_ERROR,
        route_error_status(RouteError::Middleware(s)) == STATUS_INTERNAL_SERVER_ERROR,
        route_error_status(RouteError::Db(s)) == STATUS_INTERNAL_SERVER_ERROR,
        route_error_status(RouteError::S3(s)) == STATUS_INTERNAL_SERVER_ERROR,
        route_error_status(RouteError::Redis(s)) == STATUS_INTERNAL_SERVER_ERROR,
        route_error_status(RouteError::Reqwest(s)) == STATUS_INTERNAL_SERVER_ERROR,
        route_error_status(RouteError::Io { err: s, desc: t }) == STATUS_INTERNAL_SERVER_ERROR,
        route_error_status(RouteError::Any(s)) == STATUS_INTERNAL_SERVER_ERROR,
        route_error_code(RouteError::Any(s)) == 5050,
{
}

/// Errors related to jwt
pub enum AuthError {
    /// Invalid token (the token decoder's message)
    InvalidToken(String),
    /// Failed to read token from headers (the header rejection's message)
    Extraction(String),
}

/// The message of an authentication error, as its `Display` writes it.
pub open spec fn auth_error_message(e: AuthError) -> Seq<char> {
    match e {
        AuthError::InvalidToken(s) => "Invalid token. Reason: "@ + s@,
        AuthError::Extraction(s) => "Failed to read token from header. Reason: "@ + s@,
    }
}

/// The troubleshooting code with which an authentication error is answered.
pub open spec fn auth_error_code(e: AuthError) -> u16 {
    match e {
        AuthError::Extraction(_) => (CLIENT_ERROR_CODES_OFFSET + 401) as u16,
        AuthError::InvalidToken(_) => (CLIENT_ERROR_CODES_OFFSET + 402) as u16,
    }
}

impl AuthError {
    /// The message of this error (what `Display` would write).
    pub fn message(&self) -> (res: String)
        ensures
            res@ == auth_error_message(*self),
    {
        match self {
            AuthError::InvalidToken(s) => prefixed("Invalid token. Reason: ", s.as_str()),
            AuthError::Extraction(s) => prefixed(
                "Failed to read token from header. Reason: ",
                s.as_str(),
            ),
        }
    }

    /// The answer to this error: status 401 and the body that carries its
    /// message and code.
    pub fn into_response(self) -> (res: (u16, ErrorResponse))
        ensures
            res.0 == STATUS_UNAUTHORIZED,
            res.1.code == auth_error_code(self),
            res.1.message@ == auth_error_message(self),
    {
        let code = match &self {
            AuthError::Extraction(_) => CLIENT_ERROR_CODES_OFFSET + 401,
            AuthError::InvalidToken(_) => CLIENT_ERROR_CODES_OFFSET + 402,
        };
        let message = self.message();
        (STATUS_UNAUTHORIZED, ErrorResponse { message, code })
    }
}

/// Authentication errors are answered with client codes (`4401`, `4402`),
/// different for the two kinds.
pub proof fn lemma_auth_error_codes(e: AuthError)
    ensures
        CLIENT_ERROR_CODES_OFFSET < auth_error_code(e) < SERVER_ERROR_CODES_OFFSET,
        auth_error_code(e) == auth_error_code(AuthError::Extraction(arbitrary())) <==> e is Extraction,
{
}

/// S3 errors
pub enum S3Errors {
    /// Custom region parse (the region error's message)
    Region(String),
    /// Not found region (the UTF-8 error's message)
    RegionParse(String),
    /// Failed to parse credentials (the credentials error's message)
    Credentials(String),
    /// Inner error (the storage error's message)
    S3(String),
}

/// The message of an S3 setup error, as its `Display` writes it.
pub open spec fn s3_error_message(e: S3Errors) -> Seq<char> {
    match e {
        S3Errors::Region(s) =>
            "Failed to load aws region from env. Set `AWS_REGION` or `AWS_ENDPOINT` to proper values. Reason: "@
                + s@,
        S3Errors::RegionParse(_) => "Failed to parse region"@,
        S3Errors::Credentials(s) => "Failed to load credentials. Reason: "@ + s@,
        S3Errors::S3(s) => s@,
    }
}

impl S3Errors {
    /// The message of this error (what `Display` would write).
    pub fn message(&self) -> (res: String)
        ensures
            res@ == s3_error_message(*self),
    {
        match self {
            S3Errors::Region(s) => prefixed(
                "Failed to load aws region from env. Set `AWS_REGION` or `AWS_ENDPOINT` to proper values. Reason: ",
                s.as_str(),
            ),
            S3Errors::RegionParse(_) => String::from_str("Failed to parse region"),
            S3Errors::Credentials(s) => prefixed(
                "Failed to load credentials. Reason: ",
                s.as_str(),
            ),
            S3Errors::S3(s) => s.clone(),
        }
    }
}

/// Errors that stop the service from starting.
pub enum StartError {
    /// Binding or serving failed (the I/O error's message)
    Io(String),
    /// Setting up the object storage failed
    S3(S3Errors),
    /// Connecting to the database failed (the database error's message)
    Sqlx(String),
    /// Connecting to the cache failed (the cache error's message)
    Redis(String),
    /// The public key is not base64 (the decoder's message)
    DecodeKey(String),
    /// The public key is not a valid RSA key (the key error's message)
    InvalidKey(String),
}

/// The message of a start error, as its `Display` writes it.
pub open spec fn start_error_message(e: StartError) -> Seq<char> {
    match e {
        StartError::Io(s) => "Failed to start server. Reason: "@ + s@,
        StartError::S3(inner) => "Failed to setup S3. Reason: "@ + s3_error_message(inner),
        StartError::Sqlx(s) => "Failed connect to DB. Reason: "@ + s@,
        StartError::Redis(s) => "Failed to connect to Redis. Reason: "@ + s@,
        StartError::DecodeKey(s) => "Can't decode base64. Reason: "@ + s@,
        StartError::InvalidKey(s) => "invalid key. Reason: "@ + s@,
    }
}

impl StartError {
    /// The message of this error (what `Display` would write).
    pub fn message(&self) -> (res: String)
        ensures
            res@ == start_error_message(*self),
    {
        match self {
            StartError::Io(s) => prefixed("Failed to start server. Reason: ", s.as_str()),
            StartError::S3(inner) => {
                let text = inner.message();
                prefixed("Failed to setup S3. Reason: ", text.as_str())
            },
            StartError::Sqlx(s) => prefixed("Failed connect to DB. Reason: ", s.as_str()),
            StartError::Redis(s) => prefixed("Failed to connect to Redis. Reason: ", s.as_str()),
            StartError::DecodeKey(s) => prefixed("Can't decode base64. Reason: ", s.as_str()),
            StartError::InvalidKey(s) => prefixed("invalid key. Reason: ", s.as_str()),
        }
    }
}

} // verus!
