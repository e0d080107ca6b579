use vstd::prelude::*;

verus! {

/// Errors raised by the dashboard services.
#[derive(Debug, Clone, PartialEq, Eq)]
pub enum DashboardError {
    Authentication(String),
    Authorization(String),
    Validation(String),
    Database(String),
    WebSocket(String),
    NotFound(String),
    InternalServer(String),
    BadRequest(String),
    RateLimit(String),
}

pub type DashboardResult<T> = Result<T, DashboardError>;

impl DashboardError {
    /// The prefix that names the kind of error in its text.
    pub open spec fn prefix(&self) -> Seq<char> {
        match self {
            DashboardError::Authentication(_) => "Authentication error: "@,
            DashboardError::Authorization(_) => "Authorization error: "@,
            DashboardError::Validation(_) => "Validation error: "@,
            DashboardError::Database(_) => "Database error: "@,
            DashboardError::WebSocket(_) => "WebSocket error: "@,
            DashboardError::NotFound(_) => "Not found: "@,
            DashboardError::InternalServer(_) => "Internal server error: "@,
            DashboardError::BadRequest(_) => "Bad request: "@,
            DashboardError::RateLimit(_) => "Rate limit exceeded: "@,
        }
    }

    /// The detail message carried by the error.
    pub open spec fn detail(&self) -> Seq<char> {
        match self {
            DashboardError::Authentication(m) => m@,
            DashboardError::Authorization(m) => m@,
            DashboardError::Validation(m) => m@,
            DashboardError::Database(m) => m@,
            DashboardError::WebSocket(m) => m@,
            DashboardError::NotFound(m) => m@,
            DashboardError::InternalServer(m) => m@,
            DashboardError::BadRequest(m) => m@,
            DashboardError::RateLimit(m) => m@,
        }
    }

    /// The human-readable text of the error.
    pub open spec fn text(&self) -> Seq<char> {
        self.prefix() + self.detail()
    }

    /// The HTTP status that the error maps to.
    pub open spec fn spec_status(&self) -> u16 {
        match self {
            DashboardError::Authentication(_) => 401,
            DashboardError::Authorization(_) => 403,
            DashboardError::Validation(_) => 400,
            DashboardError::NotFound(_) => 404,
            DashboardError::BadRequest(_) => 400,
            DashboardError::RateLimit(_) => 429,
            _ => 500,
        }
    }

    pub fn authentication(msg: &str) -> (r: Self)
        ensures
            r == DashboardError::Authentication(r->Authentication_0),
            r.detail() == msg@,
    {
        DashboardError::Authentication(msg.to_owned())
    }

    pub fn authorization(msg: &str) -> (r: Self)
        ensures
            r == DashboardError::Authorization(r->Authorization_0),
            r.detail() == msg@,
    {
        DashboardError::Authorization(msg.to_owned())
    }

    pub fn validation(msg: &str) -> (r: Self)
        ensures
            r == DashboardError::Validation(r->Validation_0),
            r.detail() == msg@,
    {
        DashboardError::Validation(msg.to_owned())
    }

    pub fn database(msg: &str) -> (r: Self)
        ensures
            r == DashboardError::Database(r->Database_0),
            r.detail() == msg@,
    {
        DashboardError::Database(msg.to_owned())
    }

    pub fn websocket(msg: &str) -> (r: Self)
        ensures
            r == DashboardError::WebSocket(r->WebSocket_0),
            r.detail() == msg@,
    {
        DashboardError::WebSocket(msg.to_owned())
    }

    pub fn not_found(msg: &str) -> (r: Self)
        ensures
            r == DashboardError::NotFound(r->NotFound_0),
            r.detail() == msg@,
    {
        DashboardError::NotFound(msg.to_owned())
    }

    pub fn internal_server(msg: &str) -> (r: Self)
        ensures
            r == DashboardError::InternalServer(r->InternalServer_0),
            r.detail() == msg@,
    {
        DashboardError::InternalServer(msg.to_owned())
    }

    pub fn bad_request(msg: &str) -> (r: Self)
        ensures
            r == DashboardError::BadRequest(r->BadRequest_0),
            r.detail() == msg@,
    {
        DashboardError::BadRequest(msg.to_owned())
    }

    pub fn rate_limit(msg: &str) -> (r: Self)
        ensures
            r == DashboardError::RateLimit(r->RateLimit_0),
            r.detail() == msg@,
    {
        DashboardError::RateLimit(msg.to_owned())
    }

    /// The HTTP status code of this error.
    pub fn status_code(&self) -> (r: u16)
        ensures
            r == self.spec_status(),
    {
        match self {
            DashboardError::Authentication(_) => 401,
            DashboardError::Authorization(_) => 403,
            DashboardError::Validation(_) => 400,
            DashboardError::NotFound(_) => 404,
            DashboardError::BadRequest(_) => 400,
            DashboardError::RateLimit(_) => 429,
            _ => 500,
        }
    }

    /// The human-readable text of this error, as in "Validation error: bad key".
    pub fn to_text(&self) -> (r: String)
        ensures
            r@ == self.text(),
    {
        let (prefix, detail) = match self {
            DashboardError::Authentication(m) => ("Authentication error: ", m),
            DashboardError::Authorization(m) => ("Authorization error: ", m),
            DashboardError::Validation(m) => ("Validation error: ", m),
            DashboardError::Database(m) => ("Database error: ", m),
            DashboardError::WebSocket(m) => ("WebSocket error: ", m),
            DashboardError::NotFound(m) => ("Not found: ", m),
            DashboardError::InternalServer(m) => ("Internal server error: ", m),
            DashboardError::BadRequest(m) => ("Bad request: ", m),
            DashboardError::RateLimit(m) => ("Rate limit exceeded: ", m),
        };
        prefix.to_owned().concat(detail.as_str())
    }
}

} // verus!
