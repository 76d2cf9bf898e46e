//! Builds the payload sent to the model backend.
//!
//! A payload opens with one entry that carries the system prompt and the
//! tagging instruction, attributed to the role `user` as the backend expects
//! of guidance. The turns of the history window follow, each under its role.
//! Nothing is cut here: the window is taken from the history beforehand.

use crate::model::conversation::{Message, MessageView};
use crate::model::gemini_dto::{single_part, Content, ContentView};
use vstd::prelude::*;
use vstd::string::StringExecFns;

verus! {

/// The instruction that asks the model to open every sentence with one of
/// the six emotion tags.
pub const EMOTION_GUIDE: &'static str =
    "各文頭に [neutral|happy|sad|angry|relaxed|surprised] のタグを必ず付けて返答してください。";

/// The text of the leading entry: the prompt, a line break, the instruction.
pub open spec fn guidance(prompt: Seq<char>, instruction: Seq<char>) -> Seq<char> {
    prompt + "\n"@ + instruction
}

/// The request entry that stands for one turn of the history.
pub open spec fn entry_of(turn: MessageView) -> ContentView {
    single_part(turn.role.wire_name(), turn.text)
}

/// The payload for a system prompt, a history window and an instruction:
/// the guidance entry, then one entry for each turn of the window in order.
pub open spec fn request_of(
    system_prompt: Seq<char>,
    window: Seq<MessageView>,
    instruction: Seq<char>,
) -> Seq<ContentView> {
    seq![single_part("user"@, guidance(system_prompt, instruction))] + window.map_values(
        |turn: MessageView| entry_of(turn),
    )
}

/// Joins a prompt and an instruction into the text of the leading entry.
fn guidance_text(prompt: &str, instruction: &str) -> (text: String)
    ensures
        text@ == guidance(prompt@, instruction@),
{
    let mut text = String::from_str(prompt);
    text.append("\n");
    text.append(instruction);
    text
}

/// The payload that answers a viewer: the guidance entry made of
/// `system_prompt` and `extra_instruction`, then the turns of
/// `history_window`, oldest first.
pub fn build(system_prompt: &str, history_window: &[Message], extra_instruction: &str) -> (contents:
    Vec<Content>)
    ensures
        contents.deep_view() == request_of(
            system_prompt@,
            history_window.deep_view(),
            extra_instruction@,
        ),
        contents@.len() == history_window@.len() + 1,
{
    let mut contents: Vec<Content> = Vec::new();
    contents.push(Content::single("user", guidance_text(system_prompt, extra_instruction)));
    let ghost head = seq![single_part("user"@, guidance(system_prompt@, extra_instruction@))];
    let ghost window = history_window.deep_view();
    assert(contents.deep_view() =~= head);
    let n = history_window.len();
    let mut i: usize = 0;
    while i < n
        invariant
            i <= n,
            n == history_window@.len(),
            window == history_window.deep_view(),
            contents@.len() == i + 1,
            contents.deep_view() == head + window.subrange(0, i as int).map_values(
                |turn: MessageView| entry_of(turn),
            ),
        decreases n - i,
    {
        let turn = &history_window[i];
        let ghost before = contents.deep_view();
        contents.push(Content::single(turn.role.wire_str(), turn.text.clone()));
        proof {
            assert(window[i as int] == turn@);
            assert(contents.deep_view() =~= before.push(entry_of(turn@)));
            assert(window.subrange(0, i + 1) =~= window.subrange(0, i as int).push(window[i as int]));
            assert(contents.deep_view() =~= head + window.subrange(0, i + 1).map_values(
                |turn: MessageView| entry_of(turn),
            ));
        }
        i += 1;
    }
    proof {
        assert(window.subrange(0, n as int) =~= window);
    }
    contents
}

/// The payload for unprompted speech: the guidance entry made of
/// `spontaneous_prompt` and [`EMOTION_GUIDE`], and no history.
pub fn build_spontaneous_prompt(spontaneous_prompt: &str) -> (contents: Vec<Content>)
    ensures
        contents.deep_view() == request_of(
            spontaneous_prompt@,
            Seq::empty(),
            EMOTION_GUIDE@,
        ),
        contents@.len() == 1,
{
    let mut contents: Vec<Content> = Vec::new();
    contents.push(Content::single("user", guidance_text(spontaneous_prompt, EMOTION_GUIDE)));
    proof {
        assert(contents.deep_view() =~= request_of(
            spontaneous_prompt@,
            Seq::empty(),
            EMOTION_GUIDE@,
        ));
    }
    contents
}

} // verus!
