//! Error values of std and of outside crates that the library carries
//! inside its own error types without looking into them.
use vstd::prelude::*;

verus! {

/// `std::io::Error`, carried as an opaque value.
#[verifier::external_type_specification]
#[verifier::external_body]
pub struct ExIoError(std::io::Error);

/// `serde_json::Error`, carried as an opaque value.
#[verifier::external_type_specification]
#[verifier::external_body]
pub struct ExJsonError(serde_json::Error);

/// `toml::de::Error`, carried as an opaque value.
#[verifier::external_type_specification]
#[verifier::external_body]
pub struct ExTomlDeError(toml::de::Error);

/// `toml::ser::Error`, carried as an opaque value.
#[verifier::external_type_specification]
#[verifier::external_body]
pub struct ExTomlSerError(toml::ser::Error);

/// `std::io::Error::new` with kind `UnexpectedEof` and an empty message: the
/// error that a read of a frame body reports when the input ends early.
/// Nothing is stated of the value: the library only hands it on.
#[verifier::external_body]
pub(crate) fn unexpected_eof_error() -> (e: std::io::Error) {
    std::io::Error::new(std::io::ErrorKind::UnexpectedEof, "")
}

} // verus!
