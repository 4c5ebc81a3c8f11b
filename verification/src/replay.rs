//! Whole conversations: what a session comes to when it is fed a sequence
//! of events, one step after the other.
//!
//! A live conversation gets its events from the console and the completion
//! service. Here they come from a list, so that a conversation can be played
//! again, or played without either.

use crate::conversation::{
    Action, ActionView, Event, EventView, Session, SessionView, State, StateView,
};
use vstd::prelude::*;
use vstd::string::*;

verus! {

/// What a conversation has come to after some events.
#[derive(Debug, PartialEq, Eq)]
pub struct Run {
    /// Where the conversation stands.
    pub state: State,
    /// Everything written to the console so far.
    pub output: String,
    /// The action of every step so far, the first step's first.
    pub actions: Vec<Action>,
}

/// A `Run` as a mathematical value.
pub struct RunView {
    pub state: StateView,
    pub output: Seq<char>,
    pub actions: Seq<ActionView>,
}

impl DeepView for Event {
    type V = EventView;

    open spec fn deep_view(&self) -> EventView {
        self@
    }
}

impl DeepView for Action {
    type V = ActionView;

    open spec fn deep_view(&self) -> ActionView {
        self@
    }
}

impl View for Run {
    type V = RunView;

    open spec fn view(&self) -> RunView {
        RunView { state: self.state@, output: self.output@, actions: self.actions.deep_view() }
    }
}

impl SessionView {
    /// The conversation after `events`: the first step, then one step for
    /// each event in turn. There is none if one of the events comes to a
    /// state that does not take it.
    pub open spec fn run(self, events: Seq<EventView>) -> Option<RunView>
        decreases events.len(),
    {
        if events.len() == 0 {
            let first = self.start();
            Some(RunView { state: first.state, output: first.output, actions: seq![first.action] })
        } else {
            match self.run(events.drop_last()) {
                Some(before) => match self.next(before.state, events.last()) {
                    Some(step) => Some(
                        RunView {
                            state: step.state,
                            output: before.output + step.output,
                            actions: before.actions.push(step.action),
                        },
                    ),
                    None => None,
                },
                None => None,
            }
        }
    }
}

/// A conversation that cannot take the first `k` of its events cannot take
/// all of them.
pub proof fn lemma_run_stays_refused(session: SessionView, events: Seq<EventView>, k: int)
    requires
        0 <= k <= events.len(),
        session.run(events.take(k)) is None,
    ensures
        session.run(events) is None,
    decreases events.len() - k,
{
    if k < events.len() {
        assert(events.take(k + 1).drop_last() == events.take(k));
        lemma_run_stays_refused(session, events, k + 1);
    } else {
        assert(events.take(k) == events);
    }
}

impl Session {
    /// Plays the conversation that `events` make: starts it and takes one
    /// step for each event in turn. Returns `None` if one of the events comes
    /// to a state that does not take it.
    pub fn replay(&self, events: &Vec<Event>) -> (r: Option<Run>)
        ensures
            match r {
                Some(run) => self@.run(events.deep_view()) == Some(run@),
                None => self@.run(events.deep_view()) is None,
            },
    {
        let first = self.start();
        let mut state = first.state;
        let mut output = first.output;
        let mut actions: Vec<Action> = Vec::new();
        actions.push(first.action);
        assert(actions.deep_view() == seq![first.action@]);
        let mut i: usize = 0;
        while i < events.len()
            invariant
                i <= events.len(),
                self@.run(events.deep_view().take(i as int)) == Some(
                    RunView { state: state@, output: output@, actions: actions.deep_view() },
                ),
            decreases events.len() - i,
        {
            let ghost taken = actions.deep_view();
            assert(events.deep_view().take(i + 1).drop_last() == events.deep_view().take(i as int));
            match self.step(&state, &events[i]) {
                Some(step) => {
                    state = step.state;
                    output.append(step.output.as_str());
                    actions.push(step.action);
                    assert(actions.deep_view() == taken.push(step.action@));
                },
                None => {
                    proof {
                        lemma_run_stays_refused(self@, events.deep_view(), i + 1);
                    }
                    return None;
                },
            }
            i = i + 1;
        }
        assert(events.deep_view().take(i as int) == events.deep_view());
        Some(Run { state, output, actions })
    }
}

} // verus!
