use vstd::prelude::*;

verus! {

/// `std::io::Error`, the error of opening, reading and writing files. It is
/// carried through as it is; nothing is known of what it holds.
#[verifier::external_type_specification]
#[verifier::external_body]
pub struct ExIoError(std::io::Error);

/// `serde_json::Error`, the error of reading a JSON document into a value.
/// It is carried through as it is; nothing is known of what it holds.
#[verifier::external_type_specification]
#[verifier::external_body]
pub struct ExJsonError(serde_json::Error);

/// `ureq::Error`, the error of a request over the network. It is carried
/// through as it is; nothing is known of what it holds.
#[verifier::external_type_specification]
#[verifier::external_body]
pub struct ExDownloadError(ureq::Error);

/// Why an invocation could not go on.
#[derive(Debug)]
pub enum CptbError {
    /// A settings document could not be opened or read.
    SettingsFileMissing(std::io::Error),
    /// A settings document is malformed or lacks a required field.
    SettingsFileParserError(serde_json::Error),
    /// A file could not be fetched.
    DownloadError(ureq::Error),
}

impl From<std::io::Error> for CptbError {
    /// A file that cannot be opened or read counts as a missing settings file.
    fn from(err: std::io::Error) -> (error: CptbError) {
        CptbError::SettingsFileMissing(err)
    }
}

impl vstd::std_specs::convert::FromSpecImpl<std::io::Error> for CptbError {
    open spec fn obeys_from_spec() -> bool {
        true
    }

    open spec fn from_spec(err: std::io::Error) -> CptbError {
        CptbError::SettingsFileMissing(err)
    }
}

impl From<serde_json::Error> for CptbError {
    /// A document that cannot be read into its structure is a parser error.
    fn from(err: serde_json::Error) -> (error: CptbError) {
        CptbError::SettingsFileParserError(err)
    }
}

impl vstd::std_specs::convert::FromSpecImpl<serde_json::Error> for CptbError {
    open spec fn obeys_from_spec() -> bool {
        true
    }

    open spec fn from_spec(err: serde_json::Error) -> CptbError {
        CptbError::SettingsFileParserError(err)
    }
}

impl From<ureq::Error> for CptbError {
    /// A request that fails is a download error.
    fn from(err: ureq::Error) -> (error: CptbError) {
        CptbError::DownloadError(err)
    }
}

impl vstd::std_specs::convert::FromSpecImpl<ureq::Error> for CptbError {
    open spec fn obeys_from_spec() -> bool {
        true
    }

    open spec fn from_spec(err: ureq::Error) -> CptbError {
        CptbError::DownloadError(err)
    }
}

} // verus!
