use vstd::prelude::*;
use vstd::string::StringExecFns;

verus! {

/// What one call of the text-generation endpoint reported, reduced to
/// plain values by the caller that carried out the transfer. The HTTP
/// exchange itself lives outside this crate.
pub enum GenerateOutcome {
    /// The request never completed; the transport's error text.
    TransportError { error: String },
    /// The endpoint answered with a non-success status; its display text.
    BadStatus { status: String },
    /// The body could not be decoded as a generation response; the
    /// decoder's error text.
    MalformedResponse { error: String },
    /// A well-formed answer: the generated text.
    Generated { response: String },
}

pub open spec fn bad_status_msg(status: Seq<char>) -> Seq<char> {
    "request failed with status code:"@ + status
}

/// `generate`'s result as the session logic consumes it: generated text,
/// or a human-readable error string fit for direct display.
pub fn interpret_generate(outcome: &GenerateOutcome) -> (r: Result<String, String>)
    ensures
        match outcome {
            GenerateOutcome::TransportError { error } => r matches Err(e) && e@ == error@,
            GenerateOutcome::BadStatus { status } => r matches Err(e) && e@ == bad_status_msg(
                status@,
            ),
            GenerateOutcome::MalformedResponse { error } => r matches Err(e) && e@ == error@,
            GenerateOutcome::Generated { response } => r matches Ok(t) && t@ == response@,
        },
{
    match outcome {
        GenerateOutcome::TransportError { error } => Err(error.clone()),
        GenerateOutcome::BadStatus { status } => {
            let mut e = String::from_str("request failed with status code:");
            e.append(status.as_str());
            Err(e)
        },
        GenerateOutcome::MalformedResponse { error } => Err(error.clone()),
        GenerateOutcome::Generated { response } => Ok(response.clone()),
    }
}

/// What replaces the placeholder in the chat: the generated text, or the
/// error text itself — either way something displayable.
pub fn chat_reply(result: Result<String, String>) -> (r: String)
    ensures
        match result {
            Ok(t) => r@ == t@,
            Err(e) => r@ == e@,
        },
{
    match result {
        Ok(t) => t,
        Err(e) => e,
    }
}

} // verus!
