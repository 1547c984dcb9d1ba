//! The text sent to the model and the text taken back from its reply.
use vstd::prelude::*;
use vstd::string::*;

verus! {

/// Opening of every instruction: tells the model what it is and how to answer.
pub const PREAMBLE: &'static str = "You are used within a CLI tool, you accept a prompt and file contents from the user. Generate new file contents based on the instructions in the prompt. Return only the revised file contents. DO NOT WRAP CODE IN BACKTICKS.";

/// Heading placed before the operator's prompt.
pub const PROMPT_HEADING: &'static str = "\n\nPrompt:\n";

/// Heading placed before the file's original text.
pub const FILE_HEADING: &'static str = "\n\nOriginal file:\n";

/// Why a run stopped before it was done.
#[derive(Clone, Copy, Debug, PartialEq, Eq, Structural)]
pub enum EditError {
    /// The file could not be read.
    ReadFailed,
    /// The request could not be built or encoded.
    RequestInvalid,
    /// The completion service could not be reached or refused the request.
    RequestFailed,
    /// The reply held no choice.
    NoChoices,
    /// The last choice of the reply held no text.
    NoContent,
    /// The new text could not be written.
    WriteFailed,
    /// Interactive staging could not be started or did not succeed.
    StageFailed,
}

/// The one message sent to the model.
pub open spec fn instruction_text(prompt: Seq<char>, original: Seq<char>) -> Seq<char> {
    PREAMBLE@ + PROMPT_HEADING@ + prompt + FILE_HEADING@ + original + seq!['\n']
}

/// What the file holds after the edit: the reply's text and one line break.
pub open spec fn written_text(reply: Seq<char>) -> Seq<char> {
    reply + seq!['\n']
}

/// The text of a choice, as a sequence of characters.
pub open spec fn content_view(c: Option<String>) -> Option<Seq<char>> {
    match c {
        Some(s) => Some(s@),
        None => None,
    }
}

/// The texts of a reply's choices, in the order the service gave them.
pub open spec fn contents_view(choices: Seq<Option<String>>) -> Seq<Option<Seq<char>>> {
    choices.map_values(|c: Option<String>| content_view(c))
}

/// What the reply's choices give: the text of the last one, if there is a
/// last one and it has text.
pub open spec fn reply_result(choices: Seq<Option<Seq<char>>>) -> Result<Seq<char>, EditError> {
    if choices.len() == 0 {
        Err(EditError::NoChoices)
    } else {
        match choices.last() {
            Some(t) => Ok(t),
            None => Err(EditError::NoContent),
        }
    }
}

/// Builds the message for the model from the operator's prompt and the file's
/// original text.
pub fn edit_instruction(prompt: &str, original: &str) -> (r: String)
    ensures
        r@ == instruction_text(prompt@, original@),
{
    let mut r = String::new();
    r.append(PREAMBLE);
    r.append(PROMPT_HEADING);
    r.append(prompt);
    r.append(FILE_HEADING);
    r.append(original);
    r.append("\n");
    proof {
        reveal_strlit("\n");
    }
    assert(r@ =~= instruction_text(prompt@, original@));
    r
}

/// Takes the revised text out of a reply: the text of its last choice.
pub fn take_reply(choices: Vec<Option<String>>) -> (r: Result<String, EditError>)
    ensures
        match r {
            Ok(t) => reply_result(contents_view(choices@)) == Ok::<Seq<char>, EditError>(t@),
            Err(e) => reply_result(contents_view(choices@)) == Err::<Seq<char>, EditError>(e),
        },
{
    let mut choices = choices;
    let ghost all = contents_view(choices@);
    match choices.pop() {
        None => Err(EditError::NoChoices),
        Some(None) => {
            assert(all.last() == content_view(None));
            Err(EditError::NoContent)
        },
        Some(Some(t)) => {
            assert(all.last() == content_view(Some(t)));
            Ok(t)
        },
    }
}

/// The text to write back: the reply's text followed by one line break.
pub fn with_line_break(reply: String) -> (r: String)
    ensures
        r@ == written_text(reply@),
{
    let mut r = reply;
    r.append("\n");
    proof {
        reveal_strlit("\n");
    }
    assert(r@ =~= written_text(reply@));
    r
}

} // verus!
