//! Explanations of shell commands from mankier.com.

use vstd::prelude::*;
use crate::error::CoreError;

verus! {

/// Where explanations are asked for; the command follows.
pub const MANKIER_ENDPOINT: &'static str = "https://www.mankier.com/api/v2/explain/?q=";

/// The address that explains `command`.
pub open spec fn explain_address(command: Seq<char>) -> Seq<char> {
    MANKIER_ENDPOINT@ + command
}

/// What is posted for an explanation that was asked for: the explanation,
/// or that there is none and why.
pub open spec fn explanation_text(explanation: Result<String, CoreError>) -> Seq<char> {
    match explanation {
        Ok(text) => text@,
        Err(error) => "Couldn't explain command: "@ + error.message(),
    }
}

/// The address that explains `command`.
pub fn explain_url(command: &str) -> (url: String)
    ensures
        url@ == explain_address(command@),
{
    let mut url = MANKIER_ENDPOINT.to_owned();
    url.append(command);
    url
}

/// What is posted for an explanation that was asked for.
pub fn explanation_message(explanation: Result<String, CoreError>) -> (message: String)
    ensures
        message@ == explanation_text(explanation),
{
    match explanation {
        Ok(text) => text,
        Err(error) => {
            let mut message = "Couldn't explain command: ".to_owned();
            message.append(error.description().as_str());
            message
        },
    }
}

} // verus!
