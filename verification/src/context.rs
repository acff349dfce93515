//! Context-window selection: which prior turns enter the prompt, bounded
//! by the companion's short-term and long-term memory budgets, and the
//! system persona block the prompt opens with.

use vstd::prelude::*;

use crate::models::CompanionModel;
use crate::models::CompanionView;
use crate::models::Message;
use crate::models::MessageView;
use crate::models::UserModel;
use crate::models::UserView;
use crate::text::spec_substituted;
use crate::text::substitute;

verus! {

/// The short-term window: the `n` most recent turns of the log, verbatim,
/// in chronological order; the whole log when it has fewer than `n`.
pub open spec fn spec_short_window(ms: Seq<MessageView>, n: int) -> Seq<MessageView> {
    let start = if n <= ms.len() {
        ms.len() - n
    } else {
        0
    };
    ms.subrange(start, ms.len() as int)
}

/// The long-term window: up to `m` of the oldest turns among those that
/// precede the short-term window, in chronological order. The policy is
/// verbatim recall of the oldest turns; the budget `m` strictly bounds
/// how many long-term units are injected.
pub open spec fn spec_long_window(ms: Seq<MessageView>, n: int, m: int) -> Seq<MessageView> {
    let preceding = if n <= ms.len() {
        ms.len() - n
    } else {
        0
    };
    let take = if m <= preceding {
        m
    } else {
        preceding
    };
    ms.subrange(0, take)
}

/// The selected context window: long-term turns, then short-term turns,
/// both chronological.
pub struct ContextWindow {
    pub long_term: Vec<Message>,
    pub short_term: Vec<Message>,
}

/// Selects the context window from the ordered log: the `short_n` most
/// recent turns verbatim, and up to `long_m` of the oldest turns that
/// precede them. Never exceeds the two budgets regardless of log length,
/// and degrades to fewer units when the log is short.
pub fn select_window(messages: &Vec<Message>, short_n: usize, long_m: usize) -> (r: ContextWindow)
    ensures
        r.short_term.deep_view() == spec_short_window(messages.deep_view(), short_n as int),
        r.long_term.deep_view() == spec_long_window(
            messages.deep_view(),
            short_n as int,
            long_m as int,
        ),
        r.short_term@.len() <= short_n,
        r.long_term@.len() <= long_m,
        r.short_term@.len() + r.long_term@.len() <= messages@.len(),
{
    let l: usize = messages.len();
    let short_start: usize = if short_n <= l {
        l - short_n
    } else {
        0
    };
    let long_take: usize = if long_m <= short_start {
        long_m
    } else {
        short_start
    };
    let mut short_term: Vec<Message> = Vec::new();
    let mut k: usize = short_start;
    while k < l
        invariant
            short_start <= k <= l == messages@.len(),
            short_term@.len() == k - short_start,
            forall|i: int|
                0 <= i < short_term@.len() ==> #[trigger] short_term@[i]@ == messages.deep_view()[
                    short_start + i
                ],
        decreases l - k,
    {
        short_term.push(messages[k].duplicate());
        k += 1;
    }
    let mut long_term: Vec<Message> = Vec::new();
    let mut k2: usize = 0;
    while k2 < long_take
        invariant
            k2 <= long_take <= messages@.len(),
            long_term@.len() == k2,
            forall|i: int|
                0 <= i < long_term@.len() ==> #[trigger] long_term@[i]@ == messages.deep_view()[i],
        decreases long_take - k2,
    {
        long_term.push(messages[k2].duplicate());
        k2 += 1;
    }
    proof {
        assert forall|i: int| 0 <= i < short_term@.len() implies short_term.deep_view()[i]
            == spec_short_window(messages.deep_view(), short_n as int)[i] by {
            assert(short_term@[i]@ == messages.deep_view()[short_start + i]);
        }
        assert(short_term.deep_view() =~= spec_short_window(messages.deep_view(), short_n as int));
        assert forall|i: int| 0 <= i < long_term@.len() implies long_term.deep_view()[i]
            == spec_long_window(messages.deep_view(), short_n as int, long_m as int)[i] by {
            assert(long_term@[i]@ == messages.deep_view()[i]);
        }
        assert(long_term.deep_view() =~= spec_long_window(
            messages.deep_view(),
            short_n as int,
            long_m as int,
        ));
    }
    ContextWindow { long_term, short_term }
}

/// The two window budgets are hard bounds: however long the log, the
/// window holds at most `n` short-term and at most `m` long-term units,
/// and an empty log yields an empty window.
pub proof fn lemma_window_bounded(ms: Seq<MessageView>, n: int, m: int)
    requires
        n >= 0,
        m >= 0,
    ensures
        spec_short_window(ms, n).len() <= n,
        spec_long_window(ms, n, m).len() <= m,
        ms.len() == 0 ==> spec_short_window(ms, n).len() == 0 && spec_long_window(ms, n, m).len()
            == 0,
{
}

/// The view of an optional borrowed text.
pub open spec fn spec_opt_text(o: Option<&str>) -> Option<Seq<char>> {
    match o {
        Some(s) => Some(s@),
        None => None,
    }
}

/// The system persona block: both persona texts with placeholders
/// rendered, the mode-flag instructions, the example dialogue folded in,
/// and — ahead of the history — the current-date fact when the pending
/// message asks about time.
pub open spec fn spec_system_block(
    c: CompanionModel,
    u: UserModel,
    time_fact: Option<Seq<char>>,
) -> Seq<char> {
    spec_substituted(c.persona, c.name, u.name) + "\n"@ + spec_substituted(u.persona, c.name, u.name)
        + "\n"@ + (if c.roleplay {
        "Stay in character and never break the roleplay.\n"@
    } else {
        Seq::<char>::empty()
    }) + (if c.dialogue_tuning {
        "Match the tone and style of the example dialogue.\n"@
    } else {
        Seq::<char>::empty()
    }) + "Example dialogue:\n"@ + spec_substituted(c.example_dialogue, c.name, u.name) + "\n"@ + (
    match time_fact {
        Some(d) => "Current date and time: "@ + d + "\n"@,
        None => Seq::<char>::empty(),
    })
}

/// Renders the system persona block from the companion and user records.
pub fn build_system_block(
    companion: &CompanionView,
    user: &UserView,
    time_fact: Option<&str>,
) -> (r: String)
    ensures
        r@ == spec_system_block(companion@, user@, spec_opt_text(time_fact)),
{
    let mut out = substitute(
        companion.persona.as_str(),
        companion.name.as_str(),
        user.name.as_str(),
    );
    out.append("\n");
    let user_block = substitute(
        user.persona.as_str(),
        companion.name.as_str(),
        user.name.as_str(),
    );
    out.append(user_block.as_str());
    out.append("\n");
    if companion.roleplay {
        out.append("Stay in character and never break the roleplay.\n");
    }
    if companion.dialogue_tuning {
        out.append("Match the tone and style of the example dialogue.\n");
    }
    out.append("Example dialogue:\n");
    let example = substitute(
        companion.example_dialogue.as_str(),
        companion.name.as_str(),
        user.name.as_str(),
    );
    out.append(example.as_str());
    out.append("\n");
    match time_fact {
        Some(d) => {
            out.append("Current date and time: ");
            out.append(d);
            out.append("\n");
        },
        None => {},
    }
    proof {
        assert(out@ =~= spec_system_block(companion@, user@, spec_opt_text(time_fact)));
    }
    out
}

} // verus!
