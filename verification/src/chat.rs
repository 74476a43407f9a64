use vstd::prelude::*;
use vstd::string::StringExecFns;

verus! {

/// The body of a chat request: a free-text prompt for the agent. The prompt
/// carries no validation, length limit or structure beyond its presence.
pub struct ChatRequest {
    pub prompt: String,
}

/// The body of a chat response: the agent's final natural-language answer, or
/// an error message in its place.
pub struct ChatResponse {
    pub answer: String,
}

/// The outcome of one agent invocation, as the handler sees it: the answer on
/// success, or the error's rendering on failure.
pub open spec fn outcome_view(outcome: Result<String, String>) -> Result<Seq<char>, Seq<char>> {
    match outcome {
        Ok(s) => Ok(s@),
        Err(e) => Err(e@),
    }
}

/// The answer returned for a given agent outcome: the agent's own text when
/// the invocation succeeded, and the error's rendering behind the literal
/// prefix when it failed.
pub open spec fn answer_of(outcome: Result<Seq<char>, Seq<char>>) -> Seq<char> {
    match outcome {
        Ok(s) => s,
        Err(e) => "Error: "@ + e,
    }
}

/// Whether an answer begins with the literal error marker.
pub open spec fn has_error_prefix(a: Seq<char>) -> bool {
    a.len() >= "Error:"@.len() && a.subrange(0, "Error:"@.len() as int) == "Error:"@
}

/// Build the chat response for one agent outcome. A failure is folded into
/// the answer text rather than surfaced as a failure status: the caller
/// always has a response to return with a success status.
pub fn chat_response(outcome: Result<String, String>) -> (r: ChatResponse)
    ensures
        r.answer@ == answer_of(outcome_view(outcome)),
{
    match outcome {
        Ok(answer) => ChatResponse { answer },
        Err(e) => ChatResponse { answer: "Error: ".to_owned().concat(e.as_str()) },
    }
}

/// Law: an outcome whose successful answer is non-empty, or any failed
/// outcome, yields a non-empty answer field.
pub proof fn lemma_answer_nonempty(outcome: Result<Seq<char>, Seq<char>>)
    requires
        outcome matches Ok(s) ==> s.len() > 0,
    ensures
        answer_of(outcome).len() > 0,
{
    if outcome is Err {
        reveal_strlit("Error: ");
    }
}

/// Law: the answer built for a failed agent invocation begins with the
/// literal prefix "Error:".
pub proof fn lemma_failed_outcome_has_error_prefix(e: Seq<char>)
    ensures
        has_error_prefix(answer_of(Err(e))),
{
    reveal_strlit("Error: ");
    reveal_strlit("Error:");
    assert(answer_of(Err(e)).subrange(0, "Error:"@.len() as int) =~= "Error:"@);
}

} // verus!
