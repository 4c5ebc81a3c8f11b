//! The conversation loop as a state machine.
//!
//! The loop itself reads the console and calls the completion service; what
//! it does between those calls is decided here. The caller starts with
//! [`Session::start`], carries out the action of the step it is given, and
//! hands what came of it, as an [`Event`], to [`Session::step`].
//!
//! The rules are the spec functions of [`SessionView`]; the executable
//! functions return exactly what those say.

use crate::error::{
    ChatError, ChatErrorView, END_OF_INPUT, EXIT_FAILURE, EXIT_SUCCESS,
};
use crate::policy::{is_exit_keyword, matches_keyword, ExitPolicy, ExitPolicyView};
use crate::text::{trim, trimmed};
use crate::wording::{
    answer_prompt, answer_prompt_text, banner, banner_text, farewell, farewell_text,
    intent_prompt, intent_prompt_text, is_quit_reply, reply_line, reply_line_text,
    reply_means_quit, DEFAULT_MODEL, INPUT_LABEL,
};
use vstd::prelude::*;
use vstd::string::*;

verus! {

/// What a conversation is set up with: the model to ask and the way the user
/// leaves. Neither changes while the conversation runs.
#[derive(Debug, PartialEq, Eq)]
pub struct Session {
    pub model: String,
    pub exit: ExitPolicy,
}

/// Which of the two calls of a turn is under way.
#[derive(Debug, Clone, Copy, PartialEq, Eq)]
pub enum Stage {
    /// The model is asked whether the user wants to leave.
    Intent,
    /// The model is asked to answer the user.
    Answer,
}

/// One message of the user, from the line it was typed on to the answer. A
/// turn holds nothing of the turns before it.
#[derive(Debug, PartialEq, Eq)]
pub struct Turn {
    /// The line the user typed, trimmed.
    pub message: String,
    pub stage: Stage,
}

/// Where the conversation stands between two steps.
#[derive(Debug, PartialEq, Eq)]
pub enum State {
    /// The next thing to come is a line from the console.
    AwaitingInput,
    /// A request is with the completion service, for this turn.
    AwaitingResponse(Turn),
    /// The conversation is over.
    Terminated,
}

/// What came of the action of the last step.
#[derive(Debug, PartialEq, Eq)]
pub enum Event {
    /// A line was read, given as it was typed, line end included.
    Line(String),
    /// The input ended where a line was expected.
    EndOfInput,
    /// The console could not be read or written; the detail says why.
    ConsoleFailed(String),
    /// The completion service answered with this text.
    Completion(String),
    /// The completion service failed; the detail says how.
    ServiceFailed(String),
}

/// One request to the completion service.
#[derive(Debug, PartialEq, Eq)]
pub struct CompletionRequest {
    pub model: String,
    pub prompt: String,
}

/// What the caller is to do after writing the output of a step.
#[derive(Debug, PartialEq, Eq)]
pub enum Action {
    /// Read one line from the console.
    ReadLine,
    /// Send the request to the completion service and wait for the reply.
    Generate(CompletionRequest),
    /// Leave, all being well.
    Exit,
    /// Report the failure and leave.
    Fail(ChatError),
}

/// What one step of the conversation comes to.
#[derive(Debug, PartialEq, Eq)]
pub struct Step {
    /// Where the conversation stands now.
    pub state: State,
    /// The characters to write to the console, before anything else is done.
    pub output: String,
    /// What to do then.
    pub action: Action,
}

/// A `Session` as a mathematical value.
pub struct SessionView {
    pub model: Seq<char>,
    pub exit: ExitPolicyView,
}

/// A `Turn` as a mathematical value.
pub struct TurnView {
    pub message: Seq<char>,
    pub stage: Stage,
}

/// A `State` as a mathematical value.
pub enum StateView {
    AwaitingInput,
    AwaitingResponse(TurnView),
    Terminated,
}

/// An `Event` as a mathematical value.
pub enum EventView {
    Line(Seq<char>),
    EndOfInput,
    ConsoleFailed(Seq<char>),
    Completion(Seq<char>),
    ServiceFailed(Seq<char>),
}

/// A `CompletionRequest` as a mathematical value.
pub struct RequestView {
    pub model: Seq<char>,
    pub prompt: Seq<char>,
}

/// An `Action` as a mathematical value.
pub enum ActionView {
    ReadLine,
    Generate(RequestView),
    Exit,
    Fail(ChatErrorView),
}

/// A `Step` as a mathematical value.
pub struct StepView {
    pub state: StateView,
    pub output: Seq<char>,
    pub action: ActionView,
}

impl View for Session {
    type V = SessionView;

    open spec fn view(&self) -> SessionView {
        SessionView { model: self.model@, exit: self.exit@ }
    }
}

impl View for Turn {
    type V = TurnView;

    open spec fn view(&self) -> TurnView {
        TurnView { message: self.message@, stage: self.stage }
    }
}

impl View for State {
    type V = StateView;

    open spec fn view(&self) -> StateView {
        match self {
            State::AwaitingInput => StateView::AwaitingInput,
            State::AwaitingResponse(turn) => StateView::AwaitingResponse(turn@),
            State::Terminated => StateView::Terminated,
        }
    }
}

impl View for Event {
    type V = EventView;

    open spec fn view(&self) -> EventView {
        match self {
            Event::Line(line) => EventView::Line(line@),
            Event::EndOfInput => EventView::EndOfInput,
            Event::ConsoleFailed(detail) => EventView::ConsoleFailed(detail@),
            Event::Completion(reply) => EventView::Completion(reply@),
            Event::ServiceFailed(detail) => EventView::ServiceFailed(detail@),
        }
    }
}

impl View for CompletionRequest {
    type V = RequestView;

    open spec fn view(&self) -> RequestView {
        RequestView { model: self.model@, prompt: self.prompt@ }
    }
}

impl View for Action {
    type V = ActionView;

    open spec fn view(&self) -> ActionView {
        match self {
            Action::ReadLine => ActionView::ReadLine,
            Action::Generate(request) => ActionView::Generate(request@),
            Action::Exit => ActionView::Exit,
            Action::Fail(error) => ActionView::Fail(error@),
        }
    }
}

impl View for Step {
    type V = StepView;

    open spec fn view(&self) -> StepView {
        StepView { state: self.state@, output: self.output@, action: self.action@ }
    }
}

impl StateView {
    /// A state is well formed when the message of a turn under way is what a
    /// line is trimmed to and passed on as: not empty, and with nothing left
    /// to trim.
    pub open spec fn wf(self) -> bool {
        match self {
            StateView::AwaitingResponse(turn) => turn.message.len() > 0 && trimmed(turn.message)
                == turn.message,
            _ => true,
        }
    }

    /// How many requests are with the completion service in this state.
    pub open spec fn outstanding(self) -> nat {
        match self {
            StateView::AwaitingResponse(_) => 1,
            _ => 0,
        }
    }
}

impl ActionView {
    /// The status the process leaves with: 0 when the user left, 1 after a
    /// failure, none while the conversation goes on.
    pub open spec fn exit_code(self) -> Option<u8> {
        match self {
            ActionView::Exit => Some(EXIT_SUCCESS),
            ActionView::Fail(_) => Some(EXIT_FAILURE),
            _ => None,
        }
    }
}

/// The step that ends the conversation with a failure: nothing is written to
/// the console, and the failure is handed up.
pub open spec fn failure(error: ChatErrorView) -> StepView {
    StepView { state: StateView::Terminated, output: Seq::empty(), action: ActionView::Fail(error) }
}

impl SessionView {
    /// The step that sends `prompt` to the model for `turn`. Nothing is
    /// written to the console.
    pub open spec fn ask(self, turn: TurnView, prompt: Seq<char>) -> StepView {
        StepView {
            state: StateView::AwaitingResponse(turn),
            output: Seq::empty(),
            action: ActionView::Generate(RequestView { model: self.model, prompt }),
        }
    }

    /// The step that asks for the answer to `message`.
    pub open spec fn ask_answer(self, message: Seq<char>) -> StepView {
        self.ask(TurnView { message, stage: Stage::Answer }, answer_prompt_text(message))
    }

    /// The step that asks whether `message` means to leave.
    pub open spec fn ask_intent(self, message: Seq<char>) -> StepView {
        self.ask(TurnView { message, stage: Stage::Intent }, intent_prompt_text(message))
    }

    /// The step that asks the user for a line, after writing `shown`.
    pub open spec fn prompt_after(shown: Seq<char>) -> StepView {
        StepView {
            state: StateView::AwaitingInput,
            output: shown + INPUT_LABEL@,
            action: ActionView::ReadLine,
        }
    }

    /// The first step: the banner is written, and a line is asked for.
    pub open spec fn start(self) -> StepView {
        Self::prompt_after(banner_text(self.model))
    }

    /// The step after a line was read. A line that is blank once trimmed is
    /// passed over and another is asked for. Otherwise the trimmed line is
    /// the message of a new turn: under `KeywordMatch` it ends the
    /// conversation if it is one of the words and is answered if not; under
    /// `ModelClassified` the model is asked first whether it means to leave.
    pub open spec fn after_line(self, line: Seq<char>) -> StepView {
        let message = trimmed(line);
        if message.len() == 0 {
            Self::prompt_after(Seq::empty())
        } else {
            match self.exit {
                ExitPolicyView::KeywordMatch(words) => if matches_keyword(words, message) {
                    StepView {
                        state: StateView::Terminated,
                        output: Seq::empty(),
                        action: ActionView::Exit,
                    }
                } else {
                    self.ask_answer(message)
                },
                ExitPolicyView::ModelClassified => self.ask_intent(message),
            }
        }
    }

    /// The step after the model replied. To the intent check: a reply that
    /// says quit ends the conversation with the parting line, and any other
    /// reply, whatever it says, lets the answer be asked for. To the answer
    /// stage: the reply is shown and the next line is asked for.
    pub open spec fn after_reply(self, turn: TurnView, reply: Seq<char>) -> StepView {
        match turn.stage {
            Stage::Intent => if is_quit_reply(reply) {
                StepView {
                    state: StateView::Terminated,
                    output: farewell_text(self.model),
                    action: ActionView::Exit,
                }
            } else {
                self.ask_answer(turn.message)
            },
            Stage::Answer => Self::prompt_after(reply_line_text(self.model, reply)),
        }
    }

    /// The transition function. A state takes the events that can come of
    /// the action it waits on, and no others; the terminated state takes
    /// none.
    pub open spec fn next(self, state: StateView, event: EventView) -> Option<StepView> {
        match (state, event) {
            (StateView::AwaitingInput, EventView::Line(line)) => Some(self.after_line(line)),
            (StateView::AwaitingInput, EventView::EndOfInput) => Some(
                failure(ChatErrorView::Io(END_OF_INPUT@)),
            ),
            (StateView::AwaitingInput, EventView::ConsoleFailed(detail)) => Some(
                failure(ChatErrorView::Io(detail)),
            ),
            (StateView::AwaitingResponse(turn), EventView::Completion(reply)) => Some(
                self.after_reply(turn, reply),
            ),
            (StateView::AwaitingResponse(_), EventView::ServiceFailed(detail)) => Some(
                failure(ChatErrorView::Ollama(detail)),
            ),
            _ => None,
        }
    }
}

impl EventView {
    /// What a read of one line comes to: a read of no bytes is the end of
    /// the input, any other is the line that was read.
    pub open spec fn of_read(count: nat, text: Seq<char>) -> EventView {
        if count == 0 {
            EventView::EndOfInput
        } else {
            EventView::Line(text)
        }
    }
}

impl Event {
    /// Tells what a read of one line, which took `count` bytes and gave
    /// `text`, comes to.
    pub fn of_read(count: usize, text: String) -> (r: Event)
        ensures
            r@ == EventView::of_read(count as nat, text@),
    {
        if count == 0 {
            Event::EndOfInput
        } else {
            Event::Line(text)
        }
    }
}

impl Action {
    /// The status the process is to leave with, if the action ends the
    /// conversation.
    pub fn exit_code(&self) -> (r: Option<u8>)
        ensures
            r == self@.exit_code(),
    {
        match self {
            Action::Exit => Some(EXIT_SUCCESS),
            Action::Fail(_) => Some(EXIT_FAILURE),
            _ => None,
        }
    }
}

/// Ends the conversation with `error`.
fn fail(error: ChatError) -> (r: Step)
    ensures
        r@ == failure(error@),
{
    Step { state: State::Terminated, output: String::new(), action: Action::Fail(error) }
}

/// Asks the user for a line, after writing `shown`.
fn prompt_after(shown: String) -> (r: Step)
    ensures
        r@ == SessionView::prompt_after(shown@),
{
    let mut output = shown;
    output.append(INPUT_LABEL);
    Step { state: State::AwaitingInput, output, action: Action::ReadLine }
}

impl Default for Session {
    /// The session with the default model, which the user leaves by telling
    /// the model so.
    fn default() -> (r: Session)
        ensures
            r@ == (SessionView { model: DEFAULT_MODEL@, exit: ExitPolicyView::ModelClassified }),
    {
        Session { model: String::from_str(DEFAULT_MODEL), exit: ExitPolicy::ModelClassified }
    }
}

impl Session {
    /// A session with `model`, which the user leaves as `exit` says.
    pub fn new(model: String, exit: ExitPolicy) -> (r: Session)
        ensures
            r@ == (SessionView { model: model@, exit: exit@ }),
    {
        Session { model, exit }
    }

    /// Sends `prompt` to the model for the turn of `message`.
    fn ask(&self, message: &str, stage: Stage, prompt: String) -> (r: Step)
        ensures
            r@ == self@.ask(TurnView { message: message@, stage }, prompt@),
    {
        Step {
            state: State::AwaitingResponse(Turn { message: String::from_str(message), stage }),
            output: String::new(),
            action: Action::Generate(CompletionRequest { model: self.model.clone(), prompt }),
        }
    }

    /// Begins the conversation.
    pub fn start(&self) -> (r: Step)
        ensures
            r@ == self@.start(),
    {
        prompt_after(banner(self.model.as_str()))
    }

    /// Decides what follows a line read from the console.
    pub fn on_line(&self, line: &str) -> (r: Step)
        ensures
            r@ == self@.after_line(line@),
    {
        let message = trim(line);
        if message.is_empty() {
            return prompt_after(String::new());
        }
        match &self.exit {
            ExitPolicy::KeywordMatch(words) => {
                if is_exit_keyword(words, message) {
                    Step { state: State::Terminated, output: String::new(), action: Action::Exit }
                } else {
                    self.ask(message, Stage::Answer, answer_prompt(message))
                }
            },
            ExitPolicy::ModelClassified => self.ask(message, Stage::Intent, intent_prompt(message)),
        }
    }

    /// Decides what follows a reply of the model in `turn`.
    pub fn on_reply(&self, turn: &Turn, reply: &str) -> (r: Step)
        ensures
            r@ == self@.after_reply(turn@, reply@),
    {
        match turn.stage {
            Stage::Intent => {
                if reply_means_quit(reply) {
                    Step {
                        state: State::Terminated,
                        output: farewell(self.model.as_str()),
                        action: Action::Exit,
                    }
                } else {
                    let message = turn.message.as_str();
                    self.ask(message, Stage::Answer, answer_prompt(message))
                }
            },
            Stage::Answer => prompt_after(reply_line(self.model.as_str(), reply)),
        }
    }

    /// Takes one step: from where the conversation stands and what came of
    /// the last action, to where it stands next, what to write and what to
    /// do. Returns `None`, and decides nothing, for an event that the state
    /// does not take.
    pub fn step(&self, state: &State, event: &Event) -> (r: Option<Step>)
        ensures
            match r {
                Some(step) => self@.next(state@, event@) == Some(step@),
                None => self@.next(state@, event@) is None,
            },
    {
        match (state, event) {
            (State::AwaitingInput, Event::Line(line)) => Some(self.on_line(line.as_str())),
            (State::AwaitingInput, Event::EndOfInput) => Some(
                fail(ChatError::Io(String::from_str(END_OF_INPUT))),
            ),
            (State::AwaitingInput, Event::ConsoleFailed(detail)) => Some(
                fail(ChatError::Io(detail.clone())),
            ),
            (State::AwaitingResponse(turn), Event::Completion(reply)) => Some(
                self.on_reply(turn, reply.as_str()),
            ),
            (State::AwaitingResponse(_), Event::ServiceFailed(detail)) => Some(
                fail(ChatError::Ollama(detail.clone())),
            ),
            _ => None,
        }
    }
}

} // verus!
