//! What the compression client computes for each upload: the authorization
//! header, the meaning of the service's response body, and the name of the
//! output file.
//!
//! The network calls themselves happen outside the library; this module
//! decides what is sent alongside them and what the bytes that came back
//! mean for the rest of a file's processing.

use vstd::prelude::*;
use vstd::string::*;

verus! {

/// The standard base64 encoding (with padding) of the UTF-8 bytes of a
/// string: a function of the characters alone.
pub uninterp spec fn base64_standard(s: Seq<char>) -> Seq<char>;

/// Relies on base64's `Engine::encode` with the `STANDARD` engine: the
/// standard base64 encoding, with padding, of the input's UTF-8 bytes,
/// a function of the input alone; an empty input encodes to an empty
/// string.
#[verifier::external_body]
fn base64_encode_str(s: &str) -> (r: String)
    ensures
        r@ == base64_standard(s@),
        s@.len() == 0 ==> r@.len() == 0,
{
    base64::Engine::encode(&base64::engine::general_purpose::STANDARD, s.as_bytes())
}

/// The value of the `Authorization` header for a given credential:
/// `Basic ` followed by the standard base64 encoding of `api:<key>`.
pub open spec fn authorization_spec(key: Seq<char>) -> Seq<char> {
    "Basic "@ + base64_standard("api:"@ + key)
}

/// Builds the HTTP Basic `Authorization` header value for a credential.
pub fn get_authorization(key: &str) -> (r: String)
    ensures
        r@ == authorization_spec(key@),
{
    let user_and_key = String::from_str("api:").concat(key);
    let encoded = base64_encode_str(user_and_key.as_str());
    String::from_str("Basic ").concat(encoded.as_str())
}

/// The URL at `output.url` in a response body: present exactly when the
/// body is valid JSON whose `output` field is an object holding a string
/// field `url`. A function of the body's characters alone.
pub uninterp spec fn output_url_of(body: Seq<char>) -> Option<Seq<char>>;

/// Relies on serde_json's `from_str` and `Value::{get, as_str}`: parses the
/// body as JSON and returns the string at `output.url` when the body is
/// valid JSON holding that field, and nothing otherwise.
#[verifier::external_body]
fn extract_output_url(body: &str) -> (r: Option<String>)
    ensures
        (r matches Option::Some(u) ==> output_url_of(body@) == Option::Some(u@)),
        (r matches Option::None ==> output_url_of(body@) matches Option::None),
{
    let parsed: serde_json::Value = match serde_json::from_str(body) {
        Ok(v) => v,
        Err(_) => return None,
    };
    let url = parsed.get("output")?.get("url")?.as_str()?;
    Some(url.to_string())
}

/// What to do with one file after its upload came back with a response
/// body.
#[derive(Debug, PartialEq, Eq)]
pub enum ResponsePlan {
    /// The body did not yield a download URL: write nothing for this file
    /// and go on to the next one.
    Skip,
    /// Download the compressed bytes from the carried URL and write them
    /// out.
    Download(String),
}

/// Decides, from the response body of an upload, whether the compressed
/// result is to be downloaded and from where: `Download` with the URL at
/// `output.url` exactly when the body is valid JSON holding that string
/// field, and `Skip` otherwise.
pub fn response_plan(body: &str) -> (p: ResponsePlan)
    ensures
        (output_url_of(body@) matches Option::Some(u) ==> (p matches ResponsePlan::Download(
            d,
        ) && d@ == u)),
        (output_url_of(body@) matches Option::None ==> p matches ResponsePlan::Skip),
{
    match extract_output_url(body) {
        Option::Some(u) => ResponsePlan::Download(u),
        Option::None => ResponsePlan::Skip,
    }
}

/// The name of the file the compressed bytes are written to:
/// `compressed_` prefixed to the original file name.
pub open spec fn output_name_spec(fname: Seq<char>) -> Seq<char> {
    "compressed_"@ + fname
}

/// Builds the output file name for a source file name.
pub fn output_name(fname: &str) -> (r: String)
    ensures
        r@ == output_name_spec(fname@),
{
    String::from_str("compressed_").concat(fname)
}

} // verus!
