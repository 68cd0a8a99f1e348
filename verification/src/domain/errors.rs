//! Domain errors. Every error of the domain layer lives here; the outer
//! layers map them to messages for the frontend.

use vstd::prelude::*;
use vstd::string::to_string_from_display_ensures;

verus! {

/// The error type of `sqlx`, carried opaquely.
#[verifier::external_type_specification]
#[verifier::external_body]
pub struct ExSqlxError(sqlx::Error);

/// The error type of `serde_json`, carried opaquely.
#[verifier::external_type_specification]
#[verifier::external_body]
pub struct ExJsonError(serde_json::Error);

/// Errors of the domain layer.
#[derive(Debug)]
pub enum DomainError {
    /// Empty or invalid content.
    InvalidContent(String),
    /// No entity with the given id.
    NotFound(String),
    /// Integrity conflict (such as a duplicate name).
    Conflict(String),
    /// A content hash that is not 64 hexadecimal digits.
    InvalidHash(String),
    /// Failure of the storage layer.
    Persistence(sqlx::Error),
    /// Failure to (de)serialise JSON.
    Serialization(serde_json::Error),
}

/// Prefix of the message of `InvalidContent`.
pub const INVALID_CONTENT_PREFIX: &'static str = "contenido vacío o inválido: ";
/// Prefix of the message of `NotFound`.
pub const NOT_FOUND_PREFIX: &'static str = "entidad no encontrada con id ";
/// Prefix of the message of `Conflict`.
pub const CONFLICT_PREFIX: &'static str = "conflicto de integridad: ";
/// Prefix of the message of `InvalidHash`.
pub const INVALID_HASH_PREFIX: &'static str = "hash de contenido inválido: ";
/// Prefix of the message of `Persistence`.
pub const PERSISTENCE_PREFIX: &'static str = "error de persistencia: ";
/// Prefix of the message of `Serialization`.
pub const SERIALIZATION_PREFIX: &'static str = "error de serialización: ";

/// The message of an error that carries its own text: the variant's prefix,
/// then that text.
pub open spec fn described(prefix: &str, text: Seq<char>) -> Seq<char> {
    prefix@ + text
}

fn described_text(prefix: &str, text: &str) -> (m: String)
    ensures
        m@ == described(prefix, text@),
{
    let mut m = String::from_str(prefix);
    m.append(text);
    m
}

impl DomainError {
    /// The message of the error, as the frontend shows it. For storage and
    /// serialisation errors the prefix is followed by the text that the
    /// outside error displays.
    pub fn message(&self) -> (m: String)
        ensures
            match self {
                DomainError::InvalidContent(s) => m@ == described(INVALID_CONTENT_PREFIX, s@),
                DomainError::NotFound(s) => m@ == described(NOT_FOUND_PREFIX, s@),
                DomainError::Conflict(s) => m@ == described(CONFLICT_PREFIX, s@),
                DomainError::InvalidHash(s) => m@ == described(INVALID_HASH_PREFIX, s@),
                DomainError::Persistence(e) => exists|t: String|
                    to_string_from_display_ensures::<sqlx::Error>(e, t) && m@ == described(
                        PERSISTENCE_PREFIX,
                        t@,
                    ),
                DomainError::Serialization(e) => exists|t: String|
                    to_string_from_display_ensures::<serde_json::Error>(e, t) && m@ == described(
                        SERIALIZATION_PREFIX,
                        t@,
                    ),
            },
    {
        match self {
            DomainError::InvalidContent(s) => described_text(INVALID_CONTENT_PREFIX, s.as_str()),
            DomainError::NotFound(s) => described_text(NOT_FOUND_PREFIX, s.as_str()),
            DomainError::Conflict(s) => described_text(CONFLICT_PREFIX, s.as_str()),
            DomainError::InvalidHash(s) => described_text(INVALID_HASH_PREFIX, s.as_str()),
            DomainError::Persistence(e) => {
                let t = e.to_string();
                described_text(PERSISTENCE_PREFIX, t.as_str())
            },
            DomainError::Serialization(e) => {
                let t = e.to_string();
                described_text(SERIALIZATION_PREFIX, t.as_str())
            },
        }
    }
}

impl From<sqlx::Error> for DomainError {
    fn from(e: sqlx::Error) -> (r: DomainError) {
        DomainError::Persistence(e)
    }
}

impl vstd::std_specs::convert::FromSpecImpl<sqlx::Error> for DomainError {
    open spec fn obeys_from_spec() -> bool {
        true
    }

    open spec fn from_spec(e: sqlx::Error) -> DomainError {
        DomainError::Persistence(e)
    }
}

impl From<serde_json::Error> for DomainError {
    fn from(e: serde_json::Error) -> (r: DomainError) {
        DomainError::Serialization(e)
    }
}

impl vstd::std_specs::convert::FromSpecImpl<serde_json::Error> for DomainError {
    open spec fn obeys_from_spec() -> bool {
        true
    }

    open spec fn from_spec(e: serde_json::Error) -> DomainError {
        DomainError::Serialization(e)
    }
}

} // verus!
