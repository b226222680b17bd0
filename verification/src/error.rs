use vstd::prelude::*;

verus! {

/// The failure kinds of the library. Each carries a human-readable detail
/// message. `RoomNotFound` covers unknown rooms and channels, and
/// `AgentNotFound` unknown agents: together the not-found kind.
/// `RoomAlreadyExists` is the conflict kind (a second party where only one
/// fits); `Unauthorized` is a role or ownership mismatch; the remaining
/// kinds wrap transport, request, internal and storage faults.
#[derive(Debug, Clone)]
pub enum AppError {
    RoomNotFound(String),
    AgentNotFound(String),
    Unauthorized(String),
    RoomAlreadyExists(String),
    ConnectionError(String),
    InvalidRequest(String),
    InternalError(String),
    DatabaseError(String),
}

impl AppError {
    /// The detail message carried by any variant.
    pub open spec fn spec_message(&self) -> Seq<char> {
        match self {
            AppError::RoomNotFound(m) => m@,
            AppError::AgentNotFound(m) => m@,
            AppError::Unauthorized(m) => m@,
            AppError::RoomAlreadyExists(m) => m@,
            AppError::ConnectionError(m) => m@,
            AppError::InvalidRequest(m) => m@,
            AppError::InternalError(m) => m@,
            AppError::DatabaseError(m) => m@,
        }
    }

    /// The HTTP status code that reports this error.
    pub open spec fn spec_http_status(&self) -> u16 {
        match self {
            AppError::RoomNotFound(_) => 404,
            AppError::AgentNotFound(_) => 404,
            AppError::Unauthorized(_) => 401,
            AppError::RoomAlreadyExists(_) => 409,
            AppError::ConnectionError(_) => 400,
            AppError::InvalidRequest(_) => 400,
            AppError::InternalError(_) => 500,
            AppError::DatabaseError(_) => 500,
        }
    }

    /// The stable machine-readable code of this error kind.
    pub open spec fn spec_code(&self) -> Seq<char> {
        match self {
            AppError::RoomNotFound(_) => "ROOM_NOT_FOUND"@,
            AppError::AgentNotFound(_) => "AGENT_NOT_FOUND"@,
            AppError::Unauthorized(_) => "UNAUTHORIZED"@,
            AppError::RoomAlreadyExists(_) => "ROOM_ALREADY_EXISTS"@,
            AppError::ConnectionError(_) => "CONNECTION_ERROR"@,
            AppError::InvalidRequest(_) => "INVALID_REQUEST"@,
            AppError::InternalError(_) => "INTERNAL_ERROR"@,
            AppError::DatabaseError(_) => "DATABASE_ERROR"@,
        }
    }

    pub fn message(&self) -> (r: &String)
        ensures
            r@ == self.spec_message(),
    {
        match self {
            AppError::RoomNotFound(m) => m,
            AppError::AgentNotFound(m) => m,
            AppError::Unauthorized(m) => m,
            AppError::RoomAlreadyExists(m) => m,
            AppError::ConnectionError(m) => m,
            AppError::InvalidRequest(m) => m,
            AppError::InternalError(m) => m,
            AppError::DatabaseError(m) => m,
        }
    }

    pub fn http_status(&self) -> (r: u16)
        ensures
            r == self.spec_http_status(),
    {
        match self {
            AppError::RoomNotFound(_) => 404,
            AppError::AgentNotFound(_) => 404,
            AppError::Unauthorized(_) => 401,
            AppError::RoomAlreadyExists(_) => 409,
            AppError::ConnectionError(_) => 400,
            AppError::InvalidRequest(_) => 400,
            AppError::InternalError(_) => 500,
            AppError::DatabaseError(_) => 500,
        }
    }

    pub fn code(&self) -> (r: &'static str)
        ensures
            r@ == self.spec_code(),
    {
        match self {
            AppError::RoomNotFound(_) => "ROOM_NOT_FOUND",
            AppError::AgentNotFound(_) => "AGENT_NOT_FOUND",
            AppError::Unauthorized(_) => "UNAUTHORIZED",
            AppError::RoomAlreadyExists(_) => "ROOM_ALREADY_EXISTS",
            AppError::ConnectionError(_) => "CONNECTION_ERROR",
            AppError::InvalidRequest(_) => "INVALID_REQUEST",
            AppError::InternalError(_) => "INTERNAL_ERROR",
            AppError::DatabaseError(_) => "DATABASE_ERROR",
        }
    }
}

} // verus!
