use chat_loop::conversation::{Action, Event, Session, Stage, State, Turn};
use chat_loop::error::ChatError;
use chat_loop::policy::ExitPolicy;
use chat_loop::replay::Run;

const BANNER: &str = "Chatting with llama3.2: (When you want to stop, just say so!)\n";

fn model_session() -> Session {
    Session::new("llama3.2".to_string(), ExitPolicy::ModelClassified)
}

fn keyword_session() -> Session {
    Session::new("llama3.2".to_string(), ExitPolicy::standard_keywords())
}

fn typed(text: &str) -> Event {
    Event::Line(text.to_string())
}

fn replied(text: &str) -> Event {
    Event::Completion(text.to_string())
}

fn count_requests(run: &Run) -> usize {
    run.actions.iter().filter(|action| matches!(action, Action::Generate(_))).count()
}

#[test]
fn replay_of_nothing_is_the_start() {
    for session in [model_session(), keyword_session()] {
        let run = session.replay(&vec![]).unwrap();
        assert_eq!(run.state, State::AwaitingInput);
        assert_eq!(run.output, format!("{}You: ", BANNER));
        assert_eq!(run.actions, vec![Action::ReadLine]);
    }
}

#[test]
fn replay_of_hello_prints_the_answer_and_asks_again() {
    let events = vec![typed("Hello"), replied("CONTINUE"), replied("Hi there!")];
    let run = model_session().replay(&events).unwrap();
    assert_eq!(run.state, State::AwaitingInput);
    assert!(run.output.contains("Hi there!"));
    assert_eq!(run.output, format!("{}You: llama3.2: Hi there!\nYou: ", BANNER));
    assert_eq!(run.actions.len(), 4);
    assert_eq!(run.actions[0], Action::ReadLine);
    assert!(matches!(run.actions[1], Action::Generate(_)));
    assert!(matches!(run.actions[2], Action::Generate(_)));
    assert_eq!(run.actions[3], Action::ReadLine);
    assert_eq!(count_requests(&run), 2);
}

#[test]
fn replay_of_goodbye_ends_without_a_request() {
    let run = keyword_session().replay(&vec![typed("goodbye")]).unwrap();
    assert_eq!(run.state, State::Terminated);
    assert_eq!(run.actions, vec![Action::ReadLine, Action::Exit]);
    assert_eq!(count_requests(&run), 0);
    assert_eq!(run.output, format!("{}You: ", BANNER));
}

#[test]
fn replay_of_an_empty_line_asks_again_without_a_request() {
    for session in [model_session(), keyword_session()] {
        let run = session.replay(&vec![typed("")]).unwrap();
        assert_eq!(run.state, State::AwaitingInput);
        assert_eq!(run.actions, vec![Action::ReadLine, Action::ReadLine]);
        assert_eq!(count_requests(&run), 0);
        assert_eq!(run.output, format!("{}You: You: ", BANNER));
    }
}

#[test]
fn replay_of_blank_lines_sends_nothing() {
    let events = vec![typed("\n"), typed("   \n"), typed("\t\r\n"), typed(""), typed("\u{3000}\n")];
    let run = model_session().replay(&events).unwrap();
    assert_eq!(run.state, State::AwaitingInput);
    assert_eq!(run.actions.len(), 6);
    assert_eq!(count_requests(&run), 0);
    assert_eq!(run.actions.last(), Some(&Action::ReadLine));
}

#[test]
fn replay_of_a_keyword_conversation() {
    let events = vec![typed("Hello\n"), replied("Hi!"), typed("\n"), typed("Bye\n")];
    let run = keyword_session().replay(&events).unwrap();
    assert_eq!(run.state, State::Terminated);
    assert_eq!(count_requests(&run), 1);
    assert_eq!(run.output, format!("{}You: llama3.2: Hi!\nYou: You: ", BANNER));
    assert_eq!(run.actions.last(), Some(&Action::Exit));
}

#[test]
fn replay_of_a_model_classified_goodbye() {
    let events = vec![
        typed("Hello\n"),
        replied("CONTINUE"),
        replied("Hi!"),
        typed("that is all, thank you\n"),
        replied(" quit \n"),
    ];
    let run = model_session().replay(&events).unwrap();
    assert_eq!(run.state, State::Terminated);
    assert_eq!(count_requests(&run), 3);
    assert_eq!(
        run.output,
        format!("{}You: llama3.2: Hi!\nYou: \nllama3.2: Exiting chat. Goodbye!\n", BANNER)
    );
    assert_eq!(run.actions.last(), Some(&Action::Exit));
}

#[test]
fn replay_stops_at_a_service_failure() {
    let events = vec![typed("Hello\n"), Event::ServiceFailed("connection refused".to_string())];
    let run = model_session().replay(&events).unwrap();
    assert_eq!(run.state, State::Terminated);
    assert_eq!(
        run.actions.last(),
        Some(&Action::Fail(ChatError::Ollama("connection refused".to_string())))
    );
    assert_eq!(run.actions.last().unwrap().exit_code(), Some(1));
    assert_eq!(count_requests(&run), 1);
    assert_eq!(run.output, format!("{}You: ", BANNER));
}

#[test]
fn replay_stops_at_the_end_of_input() {
    let run = model_session().replay(&vec![typed("\n"), Event::EndOfInput]).unwrap();
    assert_eq!(run.state, State::Terminated);
    assert_eq!(
        run.actions.last(),
        Some(&Action::Fail(ChatError::Io("end of input".to_string())))
    );
    assert_eq!(count_requests(&run), 0);
}

#[test]
fn replay_takes_nothing_after_the_end() {
    let session = keyword_session();
    assert_eq!(session.replay(&vec![typed("quit"), typed("Hello")]), None);
    assert_eq!(session.replay(&vec![typed("quit"), Event::EndOfInput]), None);
    let session = model_session();
    let failed = Event::ServiceFailed("x".to_string());
    assert_eq!(session.replay(&vec![typed("Hello"), failed, typed("Hello")]), None);
    assert_eq!(session.replay(&vec![Event::EndOfInput, Event::EndOfInput]), None);
}

#[test]
fn replay_takes_no_event_out_of_turn() {
    let session = model_session();
    assert_eq!(session.replay(&vec![replied("Hi")]), None);
    assert_eq!(session.replay(&vec![typed("Hello"), typed("Hello")]), None);
    assert_eq!(session.replay(&vec![typed("Hello"), Event::EndOfInput]), None);
    assert_eq!(session.replay(&vec![typed("\n"), replied("CONTINUE")]), None);
    assert_eq!(session.replay(&vec![typed("Hello"), replied("QUIT"), replied("Hi")]), None);
}

#[test]
fn requests_are_sent_one_at_a_time() {
    let events = vec![
        typed("one\n"),
        replied("CONTINUE"),
        replied("1"),
        typed("\n"),
        typed("two\n"),
        replied("continue"),
        replied("2"),
        typed("three\n"),
    ];
    let session = model_session();
    for n in 0..=events.len() {
        let prefix: Vec<Event> = events[..n]
            .iter()
            .map(|event| match event {
                Event::Line(text) => typed(text),
                Event::Completion(text) => replied(text),
                other => panic!("{:?}", other),
            })
            .collect();
        let run = session.replay(&prefix).unwrap();
        let settled = prefix.iter().filter(|event| matches!(event, Event::Completion(_))).count();
        let outstanding = count_requests(&run) - settled;
        match &run.state {
            State::AwaitingResponse(_) => assert_eq!(outstanding, 1),
            _ => assert_eq!(outstanding, 0),
        }
        assert_eq!(run.actions.len(), n + 1);
    }
}

#[test]
fn replay_leaves_the_turn_under_way_in_the_state() {
    let run = model_session().replay(&vec![typed("  Hello  \n")]).unwrap();
    assert_eq!(
        run.state,
        State::AwaitingResponse(Turn { message: "Hello".to_string(), stage: Stage::Intent })
    );
    let run = model_session().replay(&vec![typed("  Hello  \n"), replied("no")]).unwrap();
    assert_eq!(
        run.state,
        State::AwaitingResponse(Turn { message: "Hello".to_string(), stage: Stage::Answer })
    );
}
