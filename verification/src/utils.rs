//! Reading what the tools have printed.

use vstd::prelude::*;

verus! {

/// Tells from what `which cargo` printed whether cargo is installed: the probe
/// prints the tool's location when it finds one and nothing otherwise.
pub fn check_cargo(probe_stdout: &[u8]) -> (found: bool)
    ensures
        found == (probe_stdout@.len() > 0),
{
    probe_stdout.len() > 0
}

/// `String::from_utf8`: the text that the bytes encode, which exists exactly
/// when they are valid UTF-8. Otherwise the result is the message of the
/// standard library's error (`ToString::to_string`), of which nothing is
/// claimed.
#[verifier::external_body]
fn decode_utf8_text(bytes: Vec<u8>) -> (decoded: Result<String, String>)
    ensures
        decoded is Ok <==> vstd::utf8::valid_utf8(bytes@),
        decoded matches Ok(text) ==> text@ == vstd::utf8::decode_utf8(bytes@),
{
    match String::from_utf8(bytes) {
        Ok(text) => Ok(text),
        Err(error) => Err(error.to_string()),
    }
}

/// The line that tells the user why the build tool failed: what the tool
/// printed to standard error, word for word. Where that is no text, the line
/// says so instead, in the words of the standard library.
pub fn diagnostic_text(stderr: Vec<u8>) -> (line: String)
    ensures
        vstd::utf8::valid_utf8(stderr@) ==> line@ == vstd::utf8::decode_utf8(stderr@),
{
    match decode_utf8_text(stderr) {
        Ok(text) => text,
        Err(message) => message,
    }
}

} // verus!
