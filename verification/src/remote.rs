//! Paths of the remote's endpoints.
//!
//! Percent-encoding is done by the `urlencoding` crate; what is assumed of it
//! is written on the wrapper below.

use crate::error::RemoteAccessError;
use crate::manifest::{ContextModel, DropDownloadContext};
use crate::text::{decimal, decimal_string};
use vstd::prelude::*;
use vstd::string::StringExecFns;
use vstd::string::StringSliceAdditionalSpecFns;

verus! {

/// The bytes that percent-encoding leaves as they are: ASCII letters and
/// digits, `-`, `.`, `_` and `~`.
pub open spec fn is_unreserved(byte: u8) -> bool {
    ||| 0x30 <= byte <= 0x39
    ||| 0x41 <= byte <= 0x5a
    ||| 0x61 <= byte <= 0x7a
    ||| byte == 0x2d
    ||| byte == 0x2e
    ||| byte == 0x5f
    ||| byte == 0x7e
}

/// The upper-case hex digit for a value below sixteen.
pub open spec fn upper_hex_digit(nibble: int) -> char {
    "0123456789ABCDEF"@[nibble]
}

/// One byte, percent-encoded: itself where it is unreserved, else `%` and its
/// two upper-case hex digits.
pub open spec fn percent_encoded_byte(byte: u8) -> Seq<char> {
    if is_unreserved(byte) {
        seq![byte as char]
    } else {
        seq!['%', upper_hex_digit(byte as int / 16), upper_hex_digit(byte as int % 16)]
    }
}

/// A byte string, percent-encoded byte by byte.
pub open spec fn percent_encoded(bytes: Seq<u8>) -> Seq<char>
    decreases bytes.len(),
{
    if bytes.len() == 0 {
        Seq::empty()
    } else {
        percent_encoded(bytes.drop_last()) + percent_encoded_byte(bytes.last())
    }
}

/// `urlencoding::encode`: the UTF-8 bytes of `data`, percent-encoded.
#[verifier::external_body]
pub(crate) fn url_encode(data: &str) -> (encoded: String)
    ensures
        encoded@ == percent_encoded(data.spec_bytes()),
{
    urlencoding::encode(data).into_owned()
}

/// The path and query under which the manifest of a game version is served.
pub open spec fn spec_manifest_path(id: Seq<char>, version: Seq<char>) -> Seq<char> {
    "/api/v1/client/metadata/manifest?id="@ + id + "&version="@ + percent_encoded(
        vstd::utf8::encode_utf8(version),
    )
}

/// The path and query under which the manifest of a game version is served.
/// The version is percent-encoded; the id is used as it is.
pub fn manifest_path(id: &String, version: &String) -> (path: String)
    ensures
        path@ == spec_manifest_path(id@, version@),
{
    let mut path = String::from_str("/api/v1/client/metadata/manifest?id=");
    path.append(id.as_str());
    path.append("&version=");
    let encoded = url_encode(version.as_str());
    path.append(encoded.as_str());
    path
}

/// The path and query under which one chunk is served.
pub open spec fn spec_chunk_path(context: ContextModel) -> Seq<char> {
    "/api/v1/client/chunk?id="@ + context.game_id + "&version="@ + percent_encoded(
        vstd::utf8::encode_utf8(context.version),
    ) + "&name="@ + percent_encoded(vstd::utf8::encode_utf8(context.file_name)) + "&chunk="@
        + decimal(context.index as nat)
}

/// The path and query under which the chunk `context` is served: the game,
/// the version, the file and the position of the chunk within the file. The
/// version and the file name are percent-encoded; the id is used as it is.
pub fn chunk_path(context: &DropDownloadContext) -> (path: String)
    ensures
        path@ == spec_chunk_path(context@),
{
    let mut path = String::from_str("/api/v1/client/chunk?id=");
    path.append(context.game_id.as_str());
    path.append("&version=");
    let version = url_encode(context.version.as_str());
    path.append(version.as_str());
    path.append("&name=");
    let name = url_encode(context.file_name.as_str());
    path.append(name.as_str());
    path.append("&chunk=");
    let index = decimal_string(context.index as u64);
    path.append(index.as_str());
    path
}

/// Whether an endpoint that answered the health check is the right kind of
/// server: it has to name itself `Drop`.
pub fn check_endpoint(app_name: &String) -> (result: Result<(), RemoteAccessError>)
    ensures
        app_name@ == "Drop"@ ==> result is Ok,
        app_name@ != "Drop"@ ==> result == Err::<(), RemoteAccessError>(
            RemoteAccessError::InvalidEndpoint,
        ),
{
    let expected = String::from_str("Drop");
    if *app_name != expected {
        return Err(RemoteAccessError::InvalidEndpoint);
    }
    Ok(())
}

} // verus!
