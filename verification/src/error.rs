//! The errors a download can end with.

use crate::text::{decimal, decimal_string};
use vstd::prelude::*;
use vstd::string::{to_string_from_display_ensures, StringExecFns};

verus! {

/// `std::io::ErrorKind`, carried through unchanged so that callers can decide
/// whether a failed local operation is worth retrying.
#[verifier::external_type_specification]
#[verifier::external_body]
pub struct ExIoErrorKind(std::io::ErrorKind);

/// `Clone` for `std::io::ErrorKind`; nothing is claimed of the copy.
pub assume_specification[ <std::io::ErrorKind as Clone>::clone ](
    kind: &std::io::ErrorKind,
) -> std::io::ErrorKind;

/// Why talking to the remote failed.
#[derive(Debug, Clone)]
pub enum RemoteAccessError {
    /// The request could not be sent or its answer could not be read; the text
    /// is the transport's own description.
    FetchError(String),
    /// A URL could not be parsed; the text is the parser's description.
    ParsingError(String),
    /// The server answered with this unexpected status code.
    InvalidCodeError(u16),
    InvalidEndpoint,
    HandshakeFailed,
    GameNotFound,
    /// The server's answer cannot be used. The text is the error body it
    /// sent, empty where it sent none, or says what is wrong with an answer
    /// that looked like success.
    InvalidResponse(String),
    InvalidRedirect,
    /// The manifest request was answered with this status and body.
    ManifestDownloadFailed(u16, String),
}

/// Why a download could not be prepared.
#[derive(Debug, Clone)]
pub enum SetupError {
    /// No manifest has been fetched yet.
    ManifestMissing,
    /// A file of the manifest lists fewer checksums than chunks, so that a
    /// chunk has none.
    ChecksumMissing,
    /// The chunk lengths of a file, or of the whole manifest, do not fit the
    /// integer types that hold offsets and totals.
    SizeOverflow,
}

/// How a download, or one chunk of it, failed.
#[derive(Debug, Clone)]
pub enum ApplicationDownloadError {
    Communication(RemoteAccessError),
    Checksum,
    Setup(SetupError),
    Lock,
    IoError(std::io::ErrorKind),
    DownloadError,
}

impl ApplicationDownloadError {
    /// Only a checksum mismatch is never worth retrying as it is: the same
    /// bytes would be fetched again.
    pub open spec fn spec_is_checksum(&self) -> bool {
        *self is Checksum
    }

    /// Whether this is the checksum mismatch, which the user is shown apart
    /// from network and disk failures.
    pub fn is_checksum(&self) -> (b: bool)
        ensures
            b == self.spec_is_checksum(),
    {
        match self {
            ApplicationDownloadError::Checksum => true,
            _ => false,
        }
    }

    /// Whether the remote is to blame.
    pub fn is_communication(&self) -> (b: bool)
        ensures
            b == (*self is Communication),
    {
        match self {
            ApplicationDownloadError::Communication(_) => true,
            _ => false,
        }
    }
}

impl RemoteAccessError {
    /// The text shown for this error.
    pub open spec fn message(&self) -> Seq<char> {
        match *self {
            RemoteAccessError::FetchError(description) => description@,
            RemoteAccessError::ParsingError(description) => description@,
            RemoteAccessError::InvalidCodeError(code) => "Invalid HTTP code "@ + decimal(
                code as nat,
            ),
            RemoteAccessError::InvalidEndpoint => "Invalid drop endpoint"@,
            RemoteAccessError::HandshakeFailed => "Failed to complete handshake"@,
            RemoteAccessError::GameNotFound => "Could not find game on server"@,
            RemoteAccessError::InvalidResponse(_) => "Server returned an invalid response"@,
            RemoteAccessError::InvalidRedirect => "Server redirect was invalid"@,
            RemoteAccessError::ManifestDownloadFailed(status, response) =>
                "Failed to download game manifest: "@ + decimal(status as nat) + " "@
                    + response@,
        }
    }

    /// The text shown for this error.
    pub fn to_string(&self) -> (s: String)
        ensures
            s@ == self.message(),
    {
        match self {
            RemoteAccessError::FetchError(description) => description.clone(),
            RemoteAccessError::ParsingError(description) => description.clone(),
            RemoteAccessError::InvalidCodeError(code) => {
                let mut s = String::from_str("Invalid HTTP code ");
                let number = decimal_string(*code as u64);
                s.append(number.as_str());
                s
            },
            RemoteAccessError::InvalidEndpoint => String::from_str("Invalid drop endpoint"),
            RemoteAccessError::HandshakeFailed => String::from_str(
                "Failed to complete handshake",
            ),
            RemoteAccessError::GameNotFound => String::from_str("Could not find game on server"),
            RemoteAccessError::InvalidResponse(_) => String::from_str(
                "Server returned an invalid response",
            ),
            RemoteAccessError::InvalidRedirect => String::from_str("Server redirect was invalid"),
            RemoteAccessError::ManifestDownloadFailed(status, response) => {
                let mut s = String::from_str("Failed to download game manifest: ");
                let number = decimal_string(*status as u64);
                s.append(number.as_str());
                s.append(" ");
                s.append(response.as_str());
                s
            },
        }
    }
}

impl SetupError {
    /// The text shown for this error.
    pub open spec fn message(&self) -> Seq<char> {
        match *self {
            SetupError::ManifestMissing => "No manifest has been downloaded"@,
            SetupError::ChecksumMissing => "Manifest lists fewer checksums than chunks"@,
            SetupError::SizeOverflow => "Manifest describes more bytes than can be addressed"@,
        }
    }

    /// The text shown for this error.
    pub fn to_string(&self) -> (s: String)
        ensures
            s@ == self.message(),
    {
        match self {
            SetupError::ManifestMissing => String::from_str("No manifest has been downloaded"),
            SetupError::ChecksumMissing => String::from_str(
                "Manifest lists fewer checksums than chunks",
            ),
            SetupError::SizeOverflow => String::from_str(
                "Manifest describes more bytes than can be addressed",
            ),
        }
    }
}


impl ApplicationDownloadError {
    /// Whether `s` is the text shown for this error. For a failed local
    /// operation the text is the standard library's own for that kind of
    /// failure; for every other error it is spelled out here.
    pub open spec fn is_message(&self, s: String) -> bool {
        match *self {
            ApplicationDownloadError::Communication(error) => s@ == error.message(),
            ApplicationDownloadError::Setup(error) =>
                s@ == "An error occurred while setting up the download: "@ + error.message(),
            ApplicationDownloadError::Lock =>
                s@ == "Failed to acquire lock. Something has gone very wrong internally. Please restart the application"@,
            ApplicationDownloadError::Checksum => s@ == "Checksum failed to validate for download"@,
            ApplicationDownloadError::IoError(kind) => to_string_from_display_ensures::<
                std::io::ErrorKind,
            >(&kind, s),
            ApplicationDownloadError::DownloadError =>
                s@ == "Download failed. See Download Manager status for specific error"@,
        }
    }

    /// The text shown for this error.
    pub fn to_string(&self) -> (s: String)
        ensures
            self.is_message(s),
    {
        match self {
            ApplicationDownloadError::Communication(error) => error.to_string(),
            ApplicationDownloadError::Setup(error) => {
                let mut s = String::from_str("An error occurred while setting up the download: ");
                let why = error.to_string();
                s.append(why.as_str());
                s
            },
            ApplicationDownloadError::Lock => String::from_str(
                "Failed to acquire lock. Something has gone very wrong internally. Please restart the application",
            ),
            ApplicationDownloadError::Checksum => String::from_str(
                "Checksum failed to validate for download",
            ),
            ApplicationDownloadError::IoError(kind) => kind.to_string(),
            ApplicationDownloadError::DownloadError => String::from_str(
                "Download failed. See Download Manager status for specific error",
            ),
        }
    }
}

} // verus!
