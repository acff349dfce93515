//! Template formatting: rendering the dialogue history and wrapping it,
//! with the system block, in the control-token grammar of the selected
//! model family.

use vstd::prelude::*;

use crate::models::Message;
use crate::models::MessageView;
use crate::models::PromptTemplate;

verus! {

/// The speaker label of a turn: the companion's name for a companion
/// turn, the user's name otherwise.
pub open spec fn spec_speaker(ai: bool, companion_name: Seq<char>, user_name: Seq<char>) -> Seq<
    char,
> {
    if ai {
        companion_name
    } else {
        user_name
    }
}

/// One rendered dialogue line: `speaker: content`, newline-terminated.
pub open spec fn spec_turn_line(
    m: MessageView,
    companion_name: Seq<char>,
    user_name: Seq<char>,
) -> Seq<char> {
    spec_speaker(m.ai, companion_name, user_name) + ": "@ + m.content + "\n"@
}

/// The rendered dialogue history: every turn as one line, in order.
pub open spec fn spec_dialogue(
    ms: Seq<MessageView>,
    companion_name: Seq<char>,
    user_name: Seq<char>,
) -> Seq<char>
    decreases ms.len(),
{
    if ms.len() == 0 {
        Seq::<char>::empty()
    } else {
        spec_turn_line(ms[0], companion_name, user_name) + spec_dialogue(
            ms.drop_first(),
            companion_name,
            user_name,
        )
    }
}

/// Renders the dialogue history, one `speaker: content` line per turn.
pub fn render_dialogue(messages: &Vec<Message>, companion_name: &str, user_name: &str) -> (r:
    String)
    ensures
        r@ == spec_dialogue(messages.deep_view(), companion_name@, user_name@),
{
    let l: usize = messages.len();
    let mut out = String::new();
    let mut k: usize = 0;
    proof {
        assert(messages.deep_view().skip(0) =~= messages.deep_view());
        assert(Seq::<char>::empty() + spec_dialogue(messages.deep_view(), companion_name@, user_name@)
            =~= spec_dialogue(messages.deep_view(), companion_name@, user_name@));
    }
    while k < l
        invariant
            k <= l == messages@.len(),
            spec_dialogue(messages.deep_view(), companion_name@, user_name@) == out@
                + spec_dialogue(messages.deep_view().skip(k as int), companion_name@, user_name@),
        decreases l - k,
    {
        let ghost tail = messages.deep_view().skip(k as int);
        let ghost line = spec_turn_line(messages.deep_view()[k as int], companion_name@, user_name@);
        let ghost prefix = out@;
        let m = &messages[k];
        if m.ai {
            out.append(companion_name);
        } else {
            out.append(user_name);
        }
        out.append(": ");
        out.append(m.content.as_str());
        out.append("\n");
        proof {
            let ghost rest = spec_dialogue(
                messages.deep_view().skip(k + 1),
                companion_name@,
                user_name@,
            );
            assert(tail[0] == messages.deep_view()[k as int]);
            assert(tail.drop_first() =~= messages.deep_view().skip(k + 1));
            assert(spec_dialogue(tail, companion_name@, user_name@) == line + rest);
            assert(out@ =~= prefix + line);
            assert(prefix + (line + rest) =~= (prefix + line) + rest);
        }
        k += 1;
    }
    proof {
        assert(messages.deep_view().skip(l as int) =~= Seq::<MessageView>::empty());
        assert(out@ + Seq::<char>::empty() =~= out@);
    }
    out
}

/// The complete prompt in the grammar of the selected model family. Each
/// variant wraps the same system block and rendered dialogue in its own
/// control tokens and ends where the companion's reply is to begin. The
/// mapping is total over the three variants.
pub open spec fn spec_prompt(
    t: PromptTemplate,
    system: Seq<char>,
    dialogue: Seq<char>,
    companion_name: Seq<char>,
) -> Seq<char> {
    match t {
        PromptTemplate::Default => system + "\n"@ + dialogue + companion_name + ":"@,
        PromptTemplate::Llama2 => "<s>[INST] <<SYS>>\n"@ + system + "\n<</SYS>>\n\n"@ + dialogue
            + "[/INST] "@ + companion_name + ":"@,
        PromptTemplate::Mistral => "<s>[INST] "@ + system + "\n"@ + dialogue + "[/INST]"@,
    }
}

/// Wraps the system block and rendered dialogue in the control tokens of
/// the selected model family.
pub fn render_prompt(
    t: &PromptTemplate,
    system: &str,
    dialogue: &str,
    companion_name: &str,
) -> (r: String)
    ensures
        r@ == spec_prompt(*t, system@, dialogue@, companion_name@),
{
    let mut out = String::new();
    match t {
        PromptTemplate::Default => {
            out.append(system);
            out.append("\n");
            out.append(dialogue);
            out.append(companion_name);
            out.append(":");
        },
        PromptTemplate::Llama2 => {
            out.append("<s>[INST] <<SYS>>\n");
            out.append(system);
            out.append("\n<</SYS>>\n\n");
            out.append(dialogue);
            out.append("[/INST] ");
            out.append(companion_name);
            out.append(":");
        },
        PromptTemplate::Mistral => {
            out.append("<s>[INST] ");
            out.append(system);
            out.append("\n");
            out.append(dialogue);
            out.append("[/INST]");
        },
    }
    proof {
        assert(out@ =~= spec_prompt(*t, system@, dialogue@, companion_name@));
    }
    out
}

} // verus!
