//! Texts that the generated bindings ask for while they run.

use flatbuffers::InvalidFlatbuffer;
use vstd::prelude::*;

verus! {

/// `flatbuffers::InvalidFlatbuffer`, the reason why a buffer is no valid wire value.
#[verifier::external_type_specification]
#[verifier::external_body]
pub struct ExInvalidFlatbuffer(InvalidFlatbuffer);

/// The text by which an invalid buffer's error displays itself.
pub uninterp spec fn invalid_flatbuffer_text(error: InvalidFlatbuffer) -> Seq<char>;

/// `InvalidFlatbuffer`'s `Display`: the description of the error with its trace.
#[verifier::external_body]
fn describe(error: &InvalidFlatbuffer) -> (text: String)
    ensures
        text@ == invalid_flatbuffer_text(*error),
{
    error.to_string()
}

/// The message for a buffer that could not be made, found invalid for the reason `error`
/// in the source file `file`, on a platform that separates path components by `separator`.
pub open spec fn flat_err_text(separator: char, file: Seq<char>, error: Seq<char>) -> Seq<char> {
    "Can't make flatbuffer @ \"rlbot_flatbuffers"@ + seq![separator] + file + "\":\n  "@ + error
}

/// The message for a buffer that could not be made: where it happened and why.
pub fn flat_err_message_from(separator: char, file: &str, error: &str) -> (message: String)
    ensures
        message@ == flat_err_text(separator, file@, error@),
{
    let mut message = String::from_str("Can't make flatbuffer @ \"rlbot_flatbuffers");
    message.push(separator);
    message.append(file);
    message.append("\":\n  ");
    message.append(error);
    message
}

/// The message for a buffer that the wire format's verifier refused for the reason `error`,
/// raised in the source file `file`.
pub fn flat_err_message(separator: char, file: &str, error: &InvalidFlatbuffer) -> (message:
    String)
    ensures
        message@ == flat_err_text(separator, file@, invalid_flatbuffer_text(*error)),
{
    let description = describe(error);
    flat_err_message_from(separator, file, description.as_str())
}

/// How the host runtime writes an absent value.
#[must_use]
pub fn none_str() -> (text: String)
    ensures
        text@ == "None"@,
{
    String::from_str("None")
}

/// How the host runtime writes the truth value `b`.
#[must_use]
pub fn bool_to_str(b: bool) -> (text: &'static str)
    ensures
        text@ == (if b {
            "True"@
        } else {
            "False"@
        }),
{
    if b {
        "True"
    } else {
        "False"
    }
}

} // verus!
