use chat_loop::conversation::{
    Action, CompletionRequest, Event, Session, Stage, State, Step, Turn,
};
use chat_loop::error::ChatError;
use chat_loop::policy::ExitPolicy;
use chat_loop::wording::PERSONA;

const INTENT_HELLO: &str = "System: Does the user want to end this conversation? Respond with ONLY 'QUIT' if yes, otherwise respond with ONLY 'CONTINUE'.\nUser: Hello";

const ANSWER_HELLO: &str = "System: You are a friendly and helpful assistant. Respond naturally and concisely to the user's message.\nUser: Hello";

fn asking_model() -> Session {
    Session::new("llama3.2".to_string(), ExitPolicy::ModelClassified)
}

fn matching_keywords() -> Session {
    Session::new("llama3.2".to_string(), ExitPolicy::standard_keywords())
}

fn line(text: &str) -> Event {
    Event::Line(text.to_string())
}

fn completion(text: &str) -> Event {
    Event::Completion(text.to_string())
}

fn awaiting(message: &str, stage: Stage) -> State {
    State::AwaitingResponse(Turn { message: message.to_string(), stage })
}

fn generate(prompt: &str) -> Action {
    Action::Generate(CompletionRequest { model: "llama3.2".to_string(), prompt: prompt.to_string() })
}

fn asks_again(shown: &str) -> Step {
    Step { state: State::AwaitingInput, output: format!("{}You: ", shown), action: Action::ReadLine }
}

fn fails_with(error: ChatError) -> Step {
    Step { state: State::Terminated, output: String::new(), action: Action::Fail(error) }
}

#[test]
fn session_is_made_of_its_parts() {
    let session = Session::new("m".to_string(), ExitPolicy::ModelClassified);
    assert_eq!(session.model, "m");
    assert_eq!(session.exit, ExitPolicy::ModelClassified);
}

#[test]
fn default_session_asks_the_default_model() {
    assert_eq!(Session::default(), asking_model());
    assert_eq!(Session::default().model, "llama3.2");
}

#[test]
fn read_of_no_bytes_is_the_end_of_input() {
    assert_eq!(Event::of_read(0, String::new()), Event::EndOfInput);
    assert_eq!(Event::of_read(1, "\n".to_string()), line("\n"));
    assert_eq!(Event::of_read(6, "Hello\n".to_string()), line("Hello\n"));
    assert_eq!(Event::of_read(5, "Hello".to_string()), line("Hello"));
}

#[test]
fn conversation_starts_with_banner_and_label() {
    let first = asking_model().start();
    assert_eq!(
        first,
        Step {
            state: State::AwaitingInput,
            output: "Chatting with llama3.2: (When you want to stop, just say so!)\nYou: "
                .to_string(),
            action: Action::ReadLine,
        }
    );
    assert_eq!(matching_keywords().start(), first);
}

#[test]
fn whitespace_only_lines_send_nothing_and_ask_again() {
    for session in [asking_model(), matching_keywords()] {
        for blank in ["", "\n", "\r\n", " ", "   \n", "\t\t\n", " \u{3000}\u{A0} \n"] {
            let step = session.step(&State::AwaitingInput, &line(blank));
            assert_eq!(step, Some(asks_again("")), "{:?}", blank);
        }
    }
}

#[test]
fn empty_line_asks_again_without_a_request() {
    let session = asking_model();
    let first = session.start();
    let second = session.step(&first.state, &line("")).unwrap();
    assert_eq!(second.state, State::AwaitingInput);
    assert_eq!(second.output, "You: ");
    assert_eq!(second.action, Action::ReadLine);
    let third = session.step(&second.state, &line("\n")).unwrap();
    assert_eq!(third, second);
}

#[test]
fn goodbye_ends_the_keyword_conversation_at_once() {
    let session = matching_keywords();
    let first = session.start();
    let last = session.step(&first.state, &line("goodbye")).unwrap();
    assert_eq!(
        last,
        Step { state: State::Terminated, output: String::new(), action: Action::Exit }
    );
    assert_eq!(last.action.exit_code(), Some(0));
    assert_eq!(session.step(&last.state, &line("Hello")), None);
}

#[test]
fn every_keyword_ends_the_conversation_in_any_case() {
    let session = matching_keywords();
    for said in ["exit\n", "quit\n", "bye\n", "goodbye\n", "EXIT\n", "  Quit  \r\n", "\tBYE", "GoodBye"] {
        let step = session.step(&State::AwaitingInput, &line(said)).unwrap();
        assert_eq!(step.state, State::Terminated, "{:?}", said);
        assert_eq!(step.action, Action::Exit, "{:?}", said);
        assert_eq!(step.output, "", "{:?}", said);
    }
}

#[test]
fn configured_keyword_ends_the_conversation() {
    let session =
        Session::new("llama3.2".to_string(), ExitPolicy::KeywordMatch(vec!["Ciao".to_string()]));
    let step = session.step(&State::AwaitingInput, &line(" ciao \n")).unwrap();
    assert_eq!(step.action, Action::Exit);
    let step = session.step(&State::AwaitingInput, &line("quit\n")).unwrap();
    assert_eq!(step.state, awaiting("quit", Stage::Answer));
}

#[test]
fn other_lines_are_answered_without_an_intent_check() {
    let session = matching_keywords();
    let step = session.step(&State::AwaitingInput, &line("Hello\n")).unwrap();
    assert_eq!(
        step,
        Step {
            state: awaiting("Hello", Stage::Answer),
            output: String::new(),
            action: generate(ANSWER_HELLO),
        }
    );
    let step = session.step(&State::AwaitingInput, &line("I want to quit\n")).unwrap();
    assert_eq!(step.state, awaiting("I want to quit", Stage::Answer));
}

#[test]
fn keywords_do_not_end_the_model_classified_conversation() {
    let session = asking_model();
    let step = session.step(&State::AwaitingInput, &line("goodbye\n")).unwrap();
    assert_eq!(step.state, awaiting("goodbye", Stage::Intent));
    assert!(matches!(step.action, Action::Generate(_)));
}

#[test]
fn line_is_trimmed_and_checked_for_intent() {
    let session = asking_model();
    let step = session.step(&State::AwaitingInput, &line("  Hello \r\n")).unwrap();
    assert_eq!(
        step,
        Step {
            state: awaiting("Hello", Stage::Intent),
            output: String::new(),
            action: generate(INTENT_HELLO),
        }
    );
}

#[test]
fn quit_reply_ends_the_conversation_with_the_parting_line() {
    let session = asking_model();
    for reply in ["QUIT", "quit", "Quit", " QUIT \n", "\nqUiT"] {
        let step = session.step(&awaiting("bye for now", Stage::Intent), &completion(reply));
        assert_eq!(
            step,
            Some(Step {
                state: State::Terminated,
                output: "\nllama3.2: Exiting chat. Goodbye!\n".to_string(),
                action: Action::Exit,
            }),
            "{:?}",
            reply
        );
    }
}

#[test]
fn any_other_reply_lets_the_answer_be_asked_for() {
    let session = asking_model();
    for reply in ["CONTINUE", "continue", "", "QUIT.", "yes", "I think so. QUIT", "QUIT\nQUIT"] {
        let step = session.step(&awaiting("Hello", Stage::Intent), &completion(reply));
        assert_eq!(
            step,
            Some(Step {
                state: awaiting("Hello", Stage::Answer),
                output: String::new(),
                action: generate(ANSWER_HELLO),
            }),
            "{:?}",
            reply
        );
    }
}

#[test]
fn answer_request_holds_persona_and_trimmed_message() {
    for session in [asking_model(), matching_keywords()] {
        let mut state = session.start().state;
        let mut step = session.step(&state, &line("  What is Rust?  \n")).unwrap();
        if step.state == awaiting("What is Rust?", Stage::Intent) {
            state = step.state;
            step = session.step(&state, &completion("CONTINUE")).unwrap();
        }
        assert_eq!(step.state, awaiting("What is Rust?", Stage::Answer));
        match step.action {
            Action::Generate(request) => {
                assert_eq!(request.model, "llama3.2");
                assert!(request.prompt.contains(PERSONA));
                assert!(request.prompt.ends_with("\nUser: What is Rust?"));
            },
            other => panic!("{:?}", other),
        }
    }
}

#[test]
fn answer_is_shown_trimmed_under_the_name_of_the_model() {
    let session = asking_model();
    let step = session.step(&awaiting("Hello", Stage::Answer), &completion(" Hi there!\n\n"));
    assert_eq!(step, Some(asks_again("llama3.2: Hi there!\n")));
    let quit = session.step(&awaiting("Hello", Stage::Answer), &completion("QUIT"));
    assert_eq!(quit, Some(asks_again("llama3.2: QUIT\n")));
}

#[test]
fn hello_is_answered_and_the_loop_asks_again() {
    let session = asking_model();
    let mut requests = 0;
    let mut printed = String::new();

    let step = session.start();
    printed.push_str(&step.output);
    assert_eq!(step.action, Action::ReadLine);

    let step = session.step(&step.state, &line("Hello\n")).unwrap();
    printed.push_str(&step.output);
    assert_eq!(step.action, generate(INTENT_HELLO));
    requests += 1;

    let step = session.step(&step.state, &completion("CONTINUE")).unwrap();
    printed.push_str(&step.output);
    assert_eq!(step.action, generate(ANSWER_HELLO));
    requests += 1;

    let step = session.step(&step.state, &completion("Hi there!")).unwrap();
    printed.push_str(&step.output);
    assert_eq!(step.action, Action::ReadLine);
    assert_eq!(step.state, State::AwaitingInput);

    assert_eq!(requests, 2);
    assert!(printed.contains("Hi there!"));
    assert_eq!(
        printed,
        "Chatting with llama3.2: (When you want to stop, just say so!)\nYou: llama3.2: Hi there!\nYou: "
    );
}

#[test]
fn natural_goodbye_ends_the_model_classified_conversation() {
    let session = asking_model();
    let step = session.start();
    let step = session.step(&step.state, &line("I think I'm done, thanks\n")).unwrap();
    assert_eq!(step.state, awaiting("I think I'm done, thanks", Stage::Intent));
    let step = session.step(&step.state, &completion("QUIT\n")).unwrap();
    assert_eq!(step.state, State::Terminated);
    assert_eq!(step.action.exit_code(), Some(0));
    assert_eq!(step.output, "\nllama3.2: Exiting chat. Goodbye!\n");
}

#[test]
fn service_failure_ends_the_conversation_with_status_one() {
    let session = asking_model();
    for stage in [Stage::Intent, Stage::Answer] {
        let step = session
            .step(&awaiting("Hello", stage), &Event::ServiceFailed("connection refused".to_string()))
            .unwrap();
        assert_eq!(step, fails_with(ChatError::Ollama("connection refused".to_string())));
        assert_eq!(step.action.exit_code(), Some(1));
        for event in [line("Hello\n"), completion("Hi"), Event::EndOfInput] {
            assert_eq!(session.step(&step.state, &event), None);
        }
    }
}

#[test]
fn console_failure_ends_the_conversation_with_status_one() {
    let session = asking_model();
    let step =
        session.step(&State::AwaitingInput, &Event::ConsoleFailed("broken pipe".to_string()));
    let step = step.unwrap();
    assert_eq!(step, fails_with(ChatError::Io("broken pipe".to_string())));
    assert_eq!(step.action.exit_code(), Some(1));
}

#[test]
fn end_of_input_ends_the_conversation_with_status_one() {
    for session in [asking_model(), matching_keywords()] {
        let step = session.step(&State::AwaitingInput, &Event::EndOfInput).unwrap();
        assert_eq!(step, fails_with(ChatError::Io("end of input".to_string())));
        assert_eq!(step.action.exit_code(), Some(1));
        match step.action {
            Action::Fail(error) => {
                assert_eq!(error.message(), "An emergency is going on. I/O error: end of input")
            },
            other => panic!("{:?}", other),
        }
    }
}

#[test]
fn terminated_state_takes_no_event() {
    let session = asking_model();
    let events = [
        line("Hello\n"),
        Event::EndOfInput,
        Event::ConsoleFailed("x".to_string()),
        completion("Hi"),
        Event::ServiceFailed("x".to_string()),
    ];
    for event in events {
        assert_eq!(session.step(&State::Terminated, &event), None);
    }
}

#[test]
fn states_take_only_what_they_wait_for() {
    let session = asking_model();
    assert_eq!(session.step(&State::AwaitingInput, &completion("Hi")), None);
    assert_eq!(session.step(&State::AwaitingInput, &Event::ServiceFailed("x".to_string())), None);
    for stage in [Stage::Intent, Stage::Answer] {
        let state = awaiting("Hello", stage);
        assert_eq!(session.step(&state, &line("Hello\n")), None);
        assert_eq!(session.step(&state, &Event::EndOfInput), None);
        assert_eq!(session.step(&state, &Event::ConsoleFailed("x".to_string())), None);
    }
}

#[test]
fn only_leaving_has_an_exit_code() {
    assert_eq!(Action::ReadLine.exit_code(), None);
    assert_eq!(generate("p").exit_code(), None);
    assert_eq!(Action::Exit.exit_code(), Some(0));
    assert_eq!(Action::Fail(ChatError::Io(String::new())).exit_code(), Some(1));
    assert_eq!(Action::Fail(ChatError::Ollama(String::new())).exit_code(), Some(1));
}

#[test]
fn on_line_and_on_reply_are_the_two_halves_of_step() {
    let session = asking_model();
    assert_eq!(Some(session.on_line("Hello\n")), session.step(&State::AwaitingInput, &line("Hello\n")));
    let turn = Turn { message: "Hello".to_string(), stage: Stage::Intent };
    assert_eq!(
        Some(session.on_reply(&turn, "CONTINUE")),
        session.step(&awaiting("Hello", Stage::Intent), &completion("CONTINUE"))
    );
}

#[test]
fn turns_do_not_remember_each_other() {
    let session = asking_model();
    let mut state = session.start().state;
    for word in ["one", "two"] {
        let step = session.step(&state, &line(word)).unwrap();
        let step = session.step(&step.state, &completion("CONTINUE")).unwrap();
        match &step.action {
            Action::Generate(request) => assert!(request.prompt.ends_with(&format!("User: {}", word))),
            other => panic!("{:?}", other),
        }
        let step = session.step(&step.state, &completion("ok")).unwrap();
        assert_eq!(step, asks_again("llama3.2: ok\n"));
        state = step.state;
    }
}
