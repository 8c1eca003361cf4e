use vstd::prelude::*;

verus! {

#[verifier::external_type_specification]
#[verifier::external_body]
pub struct ExIoError(std::io::Error);

#[verifier::external_type_specification]
#[verifier::external_body]
pub struct ExZipError(zip::result::ZipError);

#[verifier::external_type_specification]
#[verifier::external_body]
pub struct ExInvalidPassword(zip::result::InvalidPassword);

#[verifier::external_type_specification]
#[verifier::external_body]
pub struct ExUnrarError(unrar::error::UnrarError);

/// Everything that can stop an extraction run.
#[derive(Debug)]
pub enum Error {
    /// Reading the archive or writing the output failed.
    Io(std::io::Error),
    /// The ZIP container is corrupt or unsupported.
    Zip(zip::result::ZipError),
    /// The RAR reader reported a failure.
    Unrar(unrar::error::UnrarError),
    /// An encrypted entry was met with a missing or wrong password.
    InvalidPassword,
    /// The encoding label is unknown, or an entry name does not decode under it.
    EncodingError,
    /// An entry name is absolute or climbs out of the destination with `..`.
    UnsafePath,
}

impl From<zip::result::ZipError> for Error {
    fn from(value: zip::result::ZipError) -> (r: Self) {
        Error::Zip(value)
    }
}

impl vstd::std_specs::convert::FromSpecImpl<zip::result::ZipError> for Error {
    open spec fn obeys_from_spec() -> bool {
        true
    }

    open spec fn from_spec(v: zip::result::ZipError) -> Self {
        Error::Zip(v)
    }
}

impl From<zip::result::InvalidPassword> for Error {
    fn from(_value: zip::result::InvalidPassword) -> (r: Self) {
        Error::InvalidPassword
    }
}

impl vstd::std_specs::convert::FromSpecImpl<zip::result::InvalidPassword> for Error {
    open spec fn obeys_from_spec() -> bool {
        true
    }

    open spec fn from_spec(v: zip::result::InvalidPassword) -> Self {
        Error::InvalidPassword
    }
}

impl From<unrar::error::UnrarError> for Error {
    fn from(value: unrar::error::UnrarError) -> (r: Self) {
        Error::Unrar(value)
    }
}

impl vstd::std_specs::convert::FromSpecImpl<unrar::error::UnrarError> for Error {
    open spec fn obeys_from_spec() -> bool {
        true
    }

    open spec fn from_spec(v: unrar::error::UnrarError) -> Self {
        Error::Unrar(v)
    }
}

} // verus!
