//! Error types of the AWD and AWD-Plus engines.

use vstd::prelude::*;

verus! {

/// Failure of an AWD (team attack-defence) operation, by kind.
#[derive(Debug, PartialEq, Eq)]
pub enum AwdError {
    Database(String),
    NotFound(String),
    InvalidState(String),
    Validation(String),
    Conflict(String),
    Network(String),
    NetworkLocked(String),
    NetworkOverlap(String),
    PoolExhausted(String),
    Docker(String),
    Crypto(String),
    Forbidden(String),
    Internal(String),
}

/// Message carried by an [`AwdError`].
pub open spec fn awd_error_message(e: AwdError) -> Seq<char> {
    match e {
        AwdError::Database(m) => m@,
        AwdError::NotFound(m) => m@,
        AwdError::InvalidState(m) => m@,
        AwdError::Validation(m) => m@,
        AwdError::Conflict(m) => m@,
        AwdError::Network(m) => m@,
        AwdError::NetworkLocked(m) => m@,
        AwdError::NetworkOverlap(m) => m@,
        AwdError::PoolExhausted(m) => m@,
        AwdError::Docker(m) => m@,
        AwdError::Crypto(m) => m@,
        AwdError::Forbidden(m) => m@,
        AwdError::Internal(m) => m@,
    }
}

/// Failure of an AWD-Plus (break/fix) operation, by kind.
#[derive(Debug, PartialEq, Eq)]
pub enum AwdpError {
    Database(String),
    NotFound(String),
    InvalidState(String),
    Validation(String),
    Docker(String),
    Network(String),
    Forbidden(String),
    Conflict(String),
    Internal(String),
}

impl AwdpError {
    /// The human-readable text, prefixed by the kind (`"Validation error: ..."`).
    pub fn to_string(&self) -> (s: String)
        ensures
            s@ == awdp_error_text(*self),
    {
        let (prefix, m) = match self {
            AwdpError::Database(m) => ("Database error: ", m),
            AwdpError::NotFound(m) => ("Not found: ", m),
            AwdpError::InvalidState(m) => ("Invalid state: ", m),
            AwdpError::Validation(m) => ("Validation error: ", m),
            AwdpError::Docker(m) => ("Docker error: ", m),
            AwdpError::Network(m) => ("Network error: ", m),
            AwdpError::Forbidden(m) => ("Forbidden: ", m),
            AwdpError::Conflict(m) => ("Conflict: ", m),
            AwdpError::Internal(m) => ("Internal error: ", m),
        };
        proof {
            reveal_strlit("Database error: ");
            reveal_strlit("Not found: ");
            reveal_strlit("Invalid state: ");
            reveal_strlit("Validation error: ");
            reveal_strlit("Docker error: ");
            reveal_strlit("Network error: ");
            reveal_strlit("Forbidden: ");
            reveal_strlit("Conflict: ");
            reveal_strlit("Internal error: ");
        }
        crate::text::cat(crate::text::owned(prefix), m.as_str())
    }
}

/// Kind prefix of an [`AwdpError`] text.
pub open spec fn awdp_error_prefix(e: AwdpError) -> Seq<char> {
    match e {
        AwdpError::Database(_) => "Database error: "@,
        AwdpError::NotFound(_) => "Not found: "@,
        AwdpError::InvalidState(_) => "Invalid state: "@,
        AwdpError::Validation(_) => "Validation error: "@,
        AwdpError::Docker(_) => "Docker error: "@,
        AwdpError::Network(_) => "Network error: "@,
        AwdpError::Forbidden(_) => "Forbidden: "@,
        AwdpError::Conflict(_) => "Conflict: "@,
        AwdpError::Internal(_) => "Internal error: "@,
    }
}

/// Message carried by an [`AwdpError`].
pub open spec fn awdp_error_message(e: AwdpError) -> Seq<char> {
    match e {
        AwdpError::Database(m) => m@,
        AwdpError::NotFound(m) => m@,
        AwdpError::InvalidState(m) => m@,
        AwdpError::Validation(m) => m@,
        AwdpError::Docker(m) => m@,
        AwdpError::Network(m) => m@,
        AwdpError::Forbidden(m) => m@,
        AwdpError::Conflict(m) => m@,
        AwdpError::Internal(m) => m@,
    }
}

/// Display text of an [`AwdpError`].
pub open spec fn awdp_error_text(e: AwdpError) -> Seq<char> {
    awdp_error_prefix(e) + awdp_error_message(e)
}

/// Failure of a game-box library operation, by kind.
#[derive(Debug, PartialEq, Eq)]
pub enum GameboxError {
    NotFound(String),
    Validation(String),
    Conflict(String),
    Database(String),
    Docker(String),
    Internal(String),
}

/// The AWD-Plus error of the same kind and message as a game-box error.
pub open spec fn awdp_error_of(e: GameboxError) -> AwdpError {
    match e {
        GameboxError::NotFound(m) => AwdpError::NotFound(m),
        GameboxError::Validation(m) => AwdpError::Validation(m),
        GameboxError::Conflict(m) => AwdpError::Conflict(m),
        GameboxError::Database(m) => AwdpError::Database(m),
        GameboxError::Docker(m) => AwdpError::Docker(m),
        GameboxError::Internal(m) => AwdpError::Internal(m),
    }
}

impl From<GameboxError> for AwdpError {
    fn from(value: GameboxError) -> (e: AwdpError) {
        match value {
            GameboxError::NotFound(m) => AwdpError::NotFound(m),
            GameboxError::Validation(m) => AwdpError::Validation(m),
            GameboxError::Conflict(m) => AwdpError::Conflict(m),
            GameboxError::Database(m) => AwdpError::Database(m),
            GameboxError::Docker(m) => AwdpError::Docker(m),
            GameboxError::Internal(m) => AwdpError::Internal(m),
        }
    }
}

impl vstd::std_specs::convert::FromSpecImpl<GameboxError> for AwdpError {
    open spec fn obeys_from_spec() -> bool {
        true
    }

    open spec fn from_spec(v: GameboxError) -> AwdpError {
        awdp_error_of(v)
    }
}

} // verus!
