//! The fixed texts of the conversation: the prompts sent to the completion
//! service and the lines written to the console.
//!
//! Each text has a spec function that says what it is, character for
//! character, and an executable function that builds it.

use crate::text::{eq_ignore_ascii_case, same_ignoring_ascii_case, trim, trimmed};
use vstd::prelude::*;
use vstd::string::*;

verus! {

/// The model asked when no other is chosen.
pub const DEFAULT_MODEL: &'static str = "llama3.2";

/// What the user sees when a line is expected.
pub const INPUT_LABEL: &'static str = "You: ";

/// Opens every prompt: what follows is an instruction to the model.
pub const SYSTEM_TAG: &'static str = "System: ";

/// Separates the instruction from the user's message in every prompt.
pub const USER_TAG: &'static str = "\nUser: ";

/// The instruction of the intent check: answer with one of two words.
pub const INTENT_INSTRUCTION: &'static str =
    "Does the user want to end this conversation? Respond with ONLY 'QUIT' if yes, otherwise respond with ONLY 'CONTINUE'.";

/// The persona the model is given when it answers.
pub const PERSONA: &'static str =
    "You are a friendly and helpful assistant. Respond naturally and concisely to the user's message.";

/// The reply to an intent check that ends the conversation.
pub const QUIT_TOKEN: &'static str = "QUIT";

/// Stands between the model's name and what is printed in its name.
pub const SPEAKER_MARK: &'static str = ": ";

/// Ends every line written to the console.
pub const LINE_END: &'static str = "\n";

/// Opens the banner, before the model's name.
pub const BANNER_HEAD: &'static str = "Chatting with ";

/// Closes the banner, after the model's name.
pub const BANNER_TAIL: &'static str = ": (When you want to stop, just say so!)";

/// What the model's name is followed by when the conversation ends.
pub const FAREWELL_TAIL: &'static str = ": Exiting chat. Goodbye!";

/// A prompt: the instruction, tagged as the system's, then the message,
/// tagged as the user's and taken as it is.
pub open spec fn framed_prompt(instruction: Seq<char>, message: Seq<char>) -> Seq<char> {
    SYSTEM_TAG@ + instruction + USER_TAG@ + message
}

/// The prompt that asks the model whether `message` means to leave.
pub open spec fn intent_prompt_text(message: Seq<char>) -> Seq<char> {
    framed_prompt(INTENT_INSTRUCTION@, message)
}

/// The prompt that asks the model to answer `message`.
pub open spec fn answer_prompt_text(message: Seq<char>) -> Seq<char> {
    framed_prompt(PERSONA@, message)
}

/// Whether a reply to the intent check says that the user wants to leave:
/// trimmed, it is the quit token in any letter case.
pub open spec fn is_quit_reply(reply: Seq<char>) -> bool {
    same_ignoring_ascii_case(trimmed(reply), QUIT_TOKEN@)
}

/// The first thing written: which model the user is talking to.
pub open spec fn banner_text(model: Seq<char>) -> Seq<char> {
    BANNER_HEAD@ + model + BANNER_TAIL@ + LINE_END@
}

/// The line that shows the model's answer: its name, then the trimmed reply.
pub open spec fn reply_line_text(model: Seq<char>, reply: Seq<char>) -> Seq<char> {
    model + SPEAKER_MARK@ + trimmed(reply) + LINE_END@
}

/// The parting line, set off by an empty line before it.
pub open spec fn farewell_text(model: Seq<char>) -> Seq<char> {
    LINE_END@ + model + FAREWELL_TAIL@ + LINE_END@
}

/// Whether `part` stands in `whole` at offset `at`, character for character.
pub open spec fn occurs_at(whole: Seq<char>, at: int, part: Seq<char>) -> bool {
    &&& 0 <= at
    &&& at + part.len() <= whole.len()
    &&& whole.subrange(at, at + part.len()) == part
}

/// Every prompt holds its instruction unaltered, right after the system tag,
/// and ends with the message unaltered.
pub proof fn lemma_framed_prompt_parts(instruction: Seq<char>, message: Seq<char>)
    ensures
        occurs_at(framed_prompt(instruction, message), SYSTEM_TAG@.len() as int, instruction),
        occurs_at(
            framed_prompt(instruction, message),
            framed_prompt(instruction, message).len() - message.len(),
            message,
        ),
{
    let whole = framed_prompt(instruction, message);
    let at = SYSTEM_TAG@.len() as int;
    assert(whole.subrange(at, at + instruction.len()) == instruction);
    let tail = whole.len() - message.len();
    assert(whole.subrange(tail, tail + message.len()) == message);
}

/// Builds a prompt from an instruction and the user's message.
fn frame_prompt(instruction: &str, message: &str) -> (r: String)
    ensures
        r@ == framed_prompt(instruction@, message@),
{
    let mut prompt = String::from_str(SYSTEM_TAG);
    prompt.append(instruction);
    prompt.append(USER_TAG);
    prompt.append(message);
    prompt
}

/// Builds the prompt of the intent check for `message`.
pub fn intent_prompt(message: &str) -> (r: String)
    ensures
        r@ == intent_prompt_text(message@),
{
    frame_prompt(INTENT_INSTRUCTION, message)
}

/// Builds the prompt of the answer stage for `message`.
pub fn answer_prompt(message: &str) -> (r: String)
    ensures
        r@ == answer_prompt_text(message@),
{
    frame_prompt(PERSONA, message)
}

/// Reads a reply to the intent check.
pub fn reply_means_quit(reply: &str) -> (r: bool)
    ensures
        r == is_quit_reply(reply@),
{
    eq_ignore_ascii_case(trim(reply), QUIT_TOKEN)
}

/// Builds the banner for a conversation with `model`.
pub fn banner(model: &str) -> (r: String)
    ensures
        r@ == banner_text(model@),
{
    let mut line = String::from_str(BANNER_HEAD);
    line.append(model);
    line.append(BANNER_TAIL);
    line.append(LINE_END);
    line
}

/// Builds the line that shows `reply` as the answer of `model`.
pub fn reply_line(model: &str, reply: &str) -> (r: String)
    ensures
        r@ == reply_line_text(model@, reply@),
{
    let mut line = String::from_str(model);
    line.append(SPEAKER_MARK);
    line.append(trim(reply));
    line.append(LINE_END);
    line
}

/// Builds the parting line of `model`.
pub fn farewell(model: &str) -> (r: String)
    ensures
        r@ == farewell_text(model@),
{
    let mut line = String::from_str(LINE_END);
    line.append(model);
    line.append(FAREWELL_TAIL);
    line.append(LINE_END);
    line
}

} // verus!
