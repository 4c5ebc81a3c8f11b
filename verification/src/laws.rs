//! What holds of every conversation, proved from the rules of
//! [`SessionView`].

use crate::conversation::{
    failure, ActionView, EventView, RequestView, SessionView, Stage, StateView, StepView, TurnView,
};
use crate::error::{ChatErrorView, EXIT_FAILURE};
use crate::policy::{matches_keyword, ExitPolicyView};
use crate::replay::RunView;
use crate::text::{
    all_whitespace, lemma_same_ignoring_ascii_case, lemma_trimmed_empty, lemma_trimmed_twice,
    same_ignoring_ascii_case, trimmed,
};
use crate::wording::{
    answer_prompt_text, farewell_text, lemma_framed_prompt_parts, occurs_at, INPUT_LABEL, PERSONA,
    QUIT_TOKEN, SYSTEM_TAG,
};
use vstd::prelude::*;
use vstd::string::*;

verus! {

/// A line of nothing but whitespace sends no request: the label is written
/// again and the next line is asked for, whatever the exit policy.
pub proof fn blank_line_asks_again(session: SessionView, line: Seq<char>)
    requires
        all_whitespace(line),
    ensures
        session.next(StateView::AwaitingInput, EventView::Line(line)) == Some(
            StepView {
                state: StateView::AwaitingInput,
                output: INPUT_LABEL@,
                action: ActionView::ReadLine,
            },
        ),
{
    lemma_trimmed_empty(line);
}

/// Under `KeywordMatch`, a line that is one of the words once trimmed, in
/// any ASCII letter case, ends the conversation: no request is sent, nothing
/// is written, and the process is to leave with status 0.
pub proof fn exit_keyword_ends_conversation(
    session: SessionView,
    words: Seq<Seq<char>>,
    line: Seq<char>,
    i: int,
)
    requires
        session.exit == ExitPolicyView::KeywordMatch(words),
        session.exit.wf(),
        0 <= i < words.len(),
        same_ignoring_ascii_case(words[i], trimmed(line)),
    ensures
        session.next(StateView::AwaitingInput, EventView::Line(line)) == Some(
            StepView {
                state: StateView::Terminated,
                output: Seq::empty(),
                action: ActionView::Exit,
            },
        ),
        ActionView::Exit.exit_code() == Some(0u8),
{
    lemma_same_ignoring_ascii_case(words[i], trimmed(line));
}

/// Whether a message is one of the words does not depend on the case of its
/// ASCII letters: two messages that differ in nothing else are both among
/// the words or both not.
pub proof fn keyword_match_ignores_case(words: Seq<Seq<char>>, a: Seq<char>, b: Seq<char>)
    requires
        same_ignoring_ascii_case(a, b),
    ensures
        matches_keyword(words, a) == matches_keyword(words, b),
{
}

/// Under `KeywordMatch`, a line that is not blank and is none of the words
/// is answered at once: the only request of the turn is the answer's.
pub proof fn other_line_is_answered(session: SessionView, words: Seq<Seq<char>>, line: Seq<char>)
    requires
        session.exit == ExitPolicyView::KeywordMatch(words),
        !all_whitespace(line),
        !matches_keyword(words, trimmed(line)),
    ensures
        session.next(StateView::AwaitingInput, EventView::Line(line)) == Some(
            session.ask_answer(trimmed(line)),
        ),
{
    lemma_trimmed_empty(line);
}

/// A reply to the intent check that is the quit token once trimmed, in any
/// ASCII letter case, ends the conversation with the parting line and no
/// further request; every other reply has the answer asked for, for the same
/// message.
pub proof fn intent_reply_decides(session: SessionView, message: Seq<char>, reply: Seq<char>)
    ensures
        ({
            let asked = StateView::AwaitingResponse(TurnView { message, stage: Stage::Intent });
            let step = session.next(asked, EventView::Completion(reply));
            if same_ignoring_ascii_case(trimmed(reply), QUIT_TOKEN@) {
                step == Some(
                    StepView {
                        state: StateView::Terminated,
                        output: farewell_text(session.model),
                        action: ActionView::Exit,
                    },
                )
            } else {
                step == Some(
                    StepView {
                        state: StateView::AwaitingResponse(
                            TurnView { message, stage: Stage::Answer },
                        ),
                        output: Seq::empty(),
                        action: ActionView::Generate(
                            RequestView {
                                model: session.model,
                                prompt: answer_prompt_text(message),
                            },
                        ),
                    },
                )
            }
        }),
{
}

/// Whenever a step enters the answer stage, the request it sends is for the
/// session's model, and its prompt holds the persona unaltered and ends with
/// the message of the turn unaltered. That message is the trimmed line of
/// the user: the line just read, or the message the intent check was about.
pub proof fn answer_prompt_holds_persona_and_message(
    session: SessionView,
    state: StateView,
    event: EventView,
    step: StepView,
    turn: TurnView,
)
    requires
        session.next(state, event) == Some(step),
        step.state == StateView::AwaitingResponse(turn),
        turn.stage == Stage::Answer,
    ensures
        step.action == ActionView::Generate(
            RequestView { model: session.model, prompt: answer_prompt_text(turn.message) },
        ),
        occurs_at(answer_prompt_text(turn.message), SYSTEM_TAG@.len() as int, PERSONA@),
        occurs_at(
            answer_prompt_text(turn.message),
            answer_prompt_text(turn.message).len() - turn.message.len(),
            turn.message,
        ),
        event matches EventView::Line(line) ==> turn.message == trimmed(line),
        event is Completion ==> state == StateView::AwaitingResponse(
            TurnView { message: turn.message, stage: Stage::Intent },
        ),
{
    lemma_framed_prompt_parts(PERSONA@, turn.message);
}

/// A failure of the completion service ends the conversation: whatever the
/// turn, nothing is written, the failure is handed up as it was given, and
/// the process is to leave with a status that is not 0.
pub proof fn service_failure_is_fatal(session: SessionView, turn: TurnView, detail: Seq<char>)
    ensures
        session.next(StateView::AwaitingResponse(turn), EventView::ServiceFailed(detail)) == Some(
            failure(ChatErrorView::Ollama(detail)),
        ),
        failure(ChatErrorView::Ollama(detail)).state == StateView::Terminated,
        failure(ChatErrorView::Ollama(detail)).action.exit_code() == Some(EXIT_FAILURE),
        EXIT_FAILURE != 0,
{
}

/// The report of a failure tells of which kind it is: the two prefixes
/// differ in their first character, so no console failure is reported as a
/// service failure is, whatever the details.
pub proof fn reports_tell_kinds_apart(console: Seq<char>, service: Seq<char>)
    ensures
        ChatErrorView::Io(console).message() != ChatErrorView::Ollama(service).message(),
{
    reveal_strlit("An emergency is going on. I/O error: ");
    reveal_strlit("Uh-oh... Ollama API error: ");
    assert(ChatErrorView::Io(console).message()[0] == 'A');
    assert(ChatErrorView::Ollama(service).message()[0] == 'U');
}

/// A failure of the console, or the end of the input, ends the conversation
/// in the same way.
pub proof fn console_failure_is_fatal(session: SessionView, event: EventView)
    requires
        event is EndOfInput || event is ConsoleFailed,
    ensures
        session.next(StateView::AwaitingInput, event) matches Some(step) && step.state
            == StateView::Terminated && step.output.len() == 0 && step.action is Fail && (
        step.action->Fail_0 is Io) && step.action.exit_code() == Some(EXIT_FAILURE),
{
}

/// Once the conversation is over, nothing follows: the terminated state takes
/// no event, so no line is asked for and no request is sent after it.
pub proof fn terminated_is_final(session: SessionView, event: EventView)
    ensures
        session.next(StateView::Terminated, event) is None,
{
}

/// A step ends the conversation exactly when its action is to leave, and
/// then it says with which status.
pub proof fn conversation_ends_by_leaving(
    session: SessionView,
    state: StateView,
    event: EventView,
    step: StepView,
)
    requires
        session.next(state, event) == Some(step),
    ensures
        step.state is Terminated <==> step.action is Exit || step.action is Fail,
        step.state is Terminated <==> step.action.exit_code() is Some,
        step.state is AwaitingInput <==> step.action is ReadLine,
{
}

/// At most one request is with the completion service at any time. A step
/// sends a request exactly when it leaves the conversation waiting for a
/// reply, and it does so only on an event that leaves none outstanding: a
/// line, read while nothing was asked, or the reply to the one request that
/// was.
pub proof fn one_request_at_a_time(
    session: SessionView,
    state: StateView,
    event: EventView,
    step: StepView,
)
    requires
        session.next(state, event) == Some(step),
    ensures
        step.action is Generate <==> step.state.outstanding() == 1,
        step.state.outstanding() <= 1,
        step.action is Generate ==> (state.outstanding() == 0 && event is Line) || (
        state.outstanding() == 1 && event is Completion),
{
}

/// Every step from a well formed state leaves the conversation in a well
/// formed state: a message that is with the model is never empty and never
/// has whitespace around it.
pub proof fn states_stay_well_formed(
    session: SessionView,
    state: StateView,
    event: EventView,
    step: StepView,
)
    requires
        state.wf(),
        session.next(state, event) == Some(step),
    ensures
        step.state.wf(),
{
    if let EventView::Line(line) = event {
        lemma_trimmed_twice(line);
    }
}

/// How many of `actions` send a request to the completion service.
pub open spec fn requests_sent(actions: Seq<ActionView>) -> nat
    decreases actions.len(),
{
    if actions.len() == 0 {
        0
    } else if actions.last() is Generate {
        requests_sent(actions.drop_last()) + 1
    } else {
        requests_sent(actions.drop_last())
    }
}

/// How many of `events` come from the completion service: its replies and
/// its failures.
pub open spec fn requests_settled(events: Seq<EventView>) -> nat
    decreases events.len(),
{
    if events.len() == 0 {
        0
    } else if events.last() is Completion || events.last() is ServiceFailed {
        requests_settled(events.drop_last()) + 1
    } else {
        requests_settled(events.drop_last())
    }
}

/// Whether `event` is a line of nothing but whitespace.
pub open spec fn is_blank_line(event: EventView) -> bool {
    event matches EventView::Line(line) && all_whitespace(line)
}

/// Whether every one of `events` is a line of nothing but whitespace.
pub open spec fn all_blank_lines(events: Seq<EventView>) -> bool {
    forall|i: int| 0 <= i < events.len() ==> is_blank_line(#[trigger] events[i])
}

/// Throughout a conversation, at most one request is with the completion
/// service: after any events, the requests sent are those that were settled
/// and, while the conversation waits for a reply, one more.
pub proof fn requests_never_overlap(session: SessionView, events: Seq<EventView>, run: RunView)
    requires
        session.run(events) == Some(run),
    ensures
        requests_sent(run.actions) == requests_settled(events) + run.state.outstanding(),
        run.state.outstanding() <= 1,
    decreases events.len(),
{
    if events.len() == 0 {
        reveal_with_fuel(requests_sent, 2);
    } else {
        let before = session.run(events.drop_last())->Some_0;
        let step = session.next(before.state, events.last())->Some_0;
        requests_never_overlap(session, events.drop_last(), before);
        one_request_at_a_time(session, before.state, events.last(), step);
        assert(run.actions.drop_last() == before.actions);
    }
}

/// A conversation takes one action for its start and one for each event,
/// and only the last of them can be to leave: once the conversation is over
/// it takes no further event. It is over exactly when its last action is to
/// leave.
pub proof fn only_the_last_action_leaves(session: SessionView, events: Seq<EventView>, run: RunView)
    requires
        session.run(events) == Some(run),
    ensures
        run.actions.len() == events.len() + 1,
        forall|i: int|
            0 <= i < events.len() ==> (#[trigger] run.actions[i]).exit_code() is None,
        run.state is Terminated <==> run.actions.last().exit_code() is Some,
    decreases events.len(),
{
    if events.len() > 0 {
        let before = session.run(events.drop_last())->Some_0;
        let step = session.next(before.state, events.last())->Some_0;
        only_the_last_action_leaves(session, events.drop_last(), before);
        conversation_ends_by_leaving(session, before.state, events.last(), step);
        terminated_is_final(session, events.last());
        assert(run.actions.drop_last() == before.actions);
    }
}

/// Nothing follows the end of a conversation: after the events that ended
/// it, no event is taken.
pub proof fn nothing_follows_the_end(
    session: SessionView,
    events: Seq<EventView>,
    run: RunView,
    event: EventView,
)
    requires
        session.run(events) == Some(run),
        run.state is Terminated,
    ensures
        session.run(events.push(event)) is None,
{
    assert(events.push(event).drop_last() == events);
}

/// A conversation in which every line is blank sends no request at all and
/// is still asking for a line.
pub proof fn blank_lines_send_nothing(session: SessionView, events: Seq<EventView>)
    requires
        all_blank_lines(events),
    ensures
        session.run(events) matches Some(run) && run.state == StateView::AwaitingInput
            && run.actions.last() == ActionView::ReadLine && requests_sent(run.actions) == 0,
    decreases events.len(),
{
    if events.len() == 0 {
        reveal_with_fuel(requests_sent, 2);
    } else {
        let earlier = events.drop_last();
        assert(all_blank_lines(earlier));
        blank_lines_send_nothing(session, earlier);
        let before = session.run(earlier)->Some_0;
        let line = events.last()->Line_0;
        blank_line_asks_again(session, line);
        let run = session.run(events)->Some_0;
        assert(run.actions.drop_last() == before.actions);
    }
}

/// Every state a conversation passes through is well formed.
pub proof fn runs_stay_well_formed(session: SessionView, events: Seq<EventView>, run: RunView)
    requires
        session.run(events) == Some(run),
    ensures
        run.state.wf(),
    decreases events.len(),
{
    if events.len() > 0 {
        let before = session.run(events.drop_last())->Some_0;
        let step = session.next(before.state, events.last())->Some_0;
        runs_stay_well_formed(session, events.drop_last(), before);
        states_stay_well_formed(session, before.state, events.last(), step);
    }
}

} // verus!
