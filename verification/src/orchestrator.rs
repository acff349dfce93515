//! Inference orchestration: the reply-cycle state machine, the
//! per-conversation exclusion lock, assembling the prompt for a pending
//! user turn, and committing the streamed reply to the log.

use vstd::prelude::*;

use crate::context::ContextWindow;
use crate::context::build_system_block;
use crate::context::select_window;
use crate::context::spec_long_window;
use crate::context::spec_short_window;
use crate::context::spec_system_block;
use crate::database::Database;
use crate::error::Error;
use crate::models::CompanionModel;
use crate::models::Message;
use crate::models::MessageView;
use crate::models::NewMessage;
use crate::models::PromptTemplate;
use crate::models::UserModel;
use crate::template::render_dialogue;
use crate::template::render_prompt;
use crate::template::spec_dialogue;
use crate::template::spec_prompt;
use crate::text::contains_time_question;
use crate::text::is_time_question;

verus! {

/// The phases of one reply cycle.
#[derive(Clone, Copy, Debug, PartialEq, Eq, Structural)]
pub enum TurnPhase {
    Idle,
    PromptBuilt,
    Generating,
    Committed,
    Failed,
}

/// The events that drive a reply cycle forward.
#[derive(Clone, Copy, Debug, PartialEq, Eq, Structural)]
pub enum TurnEvent {
    PromptReady,
    BackendStarted,
    StreamFinished,
    Failure,
}

/// The reply-cycle transition relation: `Idle` to `PromptBuilt` to
/// `Generating` to `Committed` in order; a failure, or any event out of
/// order, moves to `Failed` from every phase.
pub open spec fn spec_advance(p: TurnPhase, e: TurnEvent) -> TurnPhase {
    match (p, e) {
        (TurnPhase::Idle, TurnEvent::PromptReady) => TurnPhase::PromptBuilt,
        (TurnPhase::PromptBuilt, TurnEvent::BackendStarted) => TurnPhase::Generating,
        (TurnPhase::Generating, TurnEvent::StreamFinished) => TurnPhase::Committed,
        _ => TurnPhase::Failed,
    }
}

/// Advances the reply cycle by one event.
pub fn advance(p: TurnPhase, e: TurnEvent) -> (r: TurnPhase)
    ensures
        r == spec_advance(p, e),
{
    match (p, e) {
        (TurnPhase::Idle, TurnEvent::PromptReady) => TurnPhase::PromptBuilt,
        (TurnPhase::PromptBuilt, TurnEvent::BackendStarted) => TurnPhase::Generating,
        (TurnPhase::Generating, TurnEvent::StreamFinished) => TurnPhase::Committed,
        _ => TurnPhase::Failed,
    }
}

/// Per-conversation exclusion: at most one generation may be in flight
/// against the conversation at a time, so concurrent submissions must be
/// rejected rather than interleaved.
pub struct TurnLock {
    pub engaged: bool,
}

impl TurnLock {
    /// A fresh lock, not held.
    pub fn new() -> (r: TurnLock)
        ensures
            !r.engaged,
    {
        TurnLock { engaged: false }
    }

    /// Takes the lock if it is free; a submission that finds it held is
    /// rejected.
    pub fn try_acquire(&mut self) -> (r: bool)
        ensures
            r == !old(self).engaged,
            final(self).engaged,
    {
        let was = self.engaged;
        self.engaged = true;
        !was
    }

    /// Releases the lock once the reply cycle ends, in success or
    /// failure.
    pub fn release(&mut self)
        ensures
            !final(self).engaged,
    {
        self.engaged = false;
    }
}

/// The concatenation of a finite fragment stream, in arrival order.
pub open spec fn spec_concat(fs: Seq<Seq<char>>) -> Seq<char>
    decreases fs.len(),
{
    if fs.len() == 0 {
        Seq::<char>::empty()
    } else {
        fs[0] + spec_concat(fs.drop_first())
    }
}

/// Buffers a finite, already-consumed fragment stream into the full
/// reply text, in arrival order.
pub fn concat_fragments(fragments: &Vec<String>) -> (r: String)
    ensures
        r@ == spec_concat(fragments.deep_view()),
{
    let l: usize = fragments.len();
    let mut out = String::new();
    let mut k: usize = 0;
    proof {
        assert(fragments.deep_view().skip(0) =~= fragments.deep_view());
        assert(Seq::<char>::empty() + spec_concat(fragments.deep_view()) =~= spec_concat(
            fragments.deep_view(),
        ));
    }
    while k < l
        invariant
            k <= l == fragments@.len(),
            spec_concat(fragments.deep_view()) == out@ + spec_concat(
                fragments.deep_view().skip(k as int),
            ),
        decreases l - k,
    {
        let ghost tail = fragments.deep_view().skip(k as int);
        let ghost prefix = out@;
        out.append(fragments[k].as_str());
        proof {
            let ghost rest = spec_concat(fragments.deep_view().skip(k + 1));
            assert(tail[0] == fragments.deep_view()[k as int]);
            assert(tail.drop_first() =~= fragments.deep_view().skip(k + 1));
            assert(spec_concat(tail) == fragments.deep_view()[k as int] + rest);
            assert(prefix + (fragments.deep_view()[k as int] + rest) =~= (prefix
                + fragments.deep_view()[k as int]) + rest);
        }
        k += 1;
    }
    proof {
        assert(fragments.deep_view().skip(l as int) =~= Seq::<Seq<char>>::empty());
        assert(out@ + Seq::<char>::empty() =~= out@);
    }
    out
}

/// The exact prompt of one reply cycle: the context window selected from
/// the prior log under the companion's budgets, the pending user turn
/// appended to the rendered dialogue, the current-date fact injected when
/// the pending turn asks about time, all wrapped in the grammar of the
/// selected template.
pub open spec fn spec_turn_prompt(
    c: CompanionModel,
    u: UserModel,
    t: PromptTemplate,
    log: Seq<MessageView>,
    pending: MessageView,
    date: Seq<char>,
) -> Seq<char> {
    let time_fact = if is_time_question(pending.content) {
        Some(date)
    } else {
        None
    };
    let convo = spec_long_window(log, c.short_term_mem, c.long_term_mem) + spec_short_window(
        log,
        c.short_term_mem,
    ) + seq![pending];
    spec_prompt(t, spec_system_block(c, u, time_fact), spec_dialogue(convo, c.name, u.name), c.name)
}

/// Opens a reply cycle: persists the user turn first — so it survives a
/// later failure — then selects the context window from the prior turns
/// and renders the prompt. `current_date` is the freshly read date text
/// used when the message asks about time. Fails only with
/// `StoreUnavailable`, leaving the log unchanged.
pub fn prepare_turn(db: &mut Database, user_text: &str, current_date: &str) -> (r: Result<
    String,
    Error,
>)
    requires
        old(db).wf(),
    ensures
        final(db).wf(),
        Database::same_records(*final(db), *old(db)),
        (r is Ok) == (old(db).next_id < i32::MAX),
        r is Err ==> r->Err_0 == Error::StoreUnavailable && final(db).log() == old(db).log()
            && final(db).next_id == old(db).next_id,
        r is Ok ==> {
            &&& final(db).log() == old(db).log().push(final(db).log().last())
            &&& final(db).log().last().ai == false
            &&& final(db).log().last().content == user_text@
            &&& final(db).log().last().id == old(db).next_id
            &&& final(db).next_id == old(db).next_id + 1
            &&& r->Ok_0@ == spec_turn_prompt(
                old(db).companion@,
                old(db).user@,
                old(db).config@.prompt_template,
                old(db).log(),
                final(db).log().last(),
                current_date@,
            )
        },
{
    let pending = NewMessage { ai: false, content: String::from_str(user_text) };
    let inserted = match db.insert_message(pending) {
        Ok(m) => m,
        Err(e) => {
            return Err(e);
        },
    };
    let l: usize = db.messages.len();
    proof {
        assert(db.log().len() == db.messages@.len());
        assert(l >= 1);
    }
    let prior = db.get_x_messages(l - 1, 1);
    proof {
        assert(prior.deep_view() =~= old(db).log());
    }
    let window = select_window(&prior, db.companion.short_term_mem, db.companion.long_term_mem);
    let ContextWindow { long_term, mut short_term } = window;
    let mut convo = long_term;
    convo.append(&mut short_term);
    convo.push(inserted);
    proof {
        assert(convo.deep_view() =~= spec_long_window(
            old(db).log(),
            old(db).companion@.short_term_mem,
            old(db).companion@.long_term_mem,
        ) + spec_short_window(old(db).log(), old(db).companion@.short_term_mem) + seq![
            final(db).log().last(),
        ]);
    }
    let dialogue = render_dialogue(&convo, db.companion.name.as_str(), db.user.name.as_str());
    let time_fact: Option<&str> = if contains_time_question(user_text) {
        Some(current_date)
    } else {
        None
    };
    let companion_view = db.get_companion_data();
    let user_view = db.get_user_data();
    let system = build_system_block(&companion_view, &user_view, time_fact);
    let prompt = render_prompt(
        &db.config.prompt_template,
        system.as_str(),
        dialogue.as_str(),
        companion_view.name.as_str(),
    );
    Ok(prompt)
}

/// Closes a reply cycle: the fragments streamed by the backend form the
/// reply text, which is committed as one companion-authored turn. An
/// empty stream is `GenerationFailed` and commits nothing; the user turn
/// persisted when the cycle opened always remains.
pub fn commit_reply(db: &mut Database, fragments: &Vec<String>) -> (r: Result<Message, Error>)
    requires
        old(db).wf(),
    ensures
        final(db).wf(),
        Database::same_records(*final(db), *old(db)),
        (r is Ok) == (spec_concat(fragments.deep_view()).len() > 0 && old(db).next_id < i32::MAX),
        r is Err ==> final(db).log() == old(db).log() && final(db).next_id == old(db).next_id,
        spec_concat(fragments.deep_view()).len() == 0 ==> r is Err && r->Err_0
            == Error::GenerationFailed,
        spec_concat(fragments.deep_view()).len() > 0 && old(db).next_id == i32::MAX ==> r is Err
            && r->Err_0 == Error::StoreUnavailable,
        r is Ok ==> {
            &&& final(db).log() == old(db).log().push(r->Ok_0@)
            &&& r->Ok_0@.ai == true
            &&& r->Ok_0@.content == spec_concat(fragments.deep_view())
            &&& r->Ok_0@.id == old(db).next_id
            &&& final(db).next_id == old(db).next_id + 1
        },
{
    let text = concat_fragments(fragments);
    if text.as_str().is_empty() {
        return Err(Error::GenerationFailed);
    }
    db.insert_message(NewMessage { ai: true, content: text })
}

} // verus!
