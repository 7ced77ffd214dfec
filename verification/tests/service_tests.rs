use scavenger_hunt::ActivationGate;
use scavenger_hunt::Content;
use scavenger_hunt::Input;
use scavenger_hunt::Location;
use scavenger_hunt::Recipient;
use scavenger_hunt::Route;
use scavenger_hunt::Session;
use scavenger_hunt::SessionStore;
use scavenger_hunt::handle_message;

fn route() -> Route {
    Route {
        route: vec![
            Location {
                id: 1,
                title: String::from("First"),
                clue: String::from("clue zero"),
                answers: vec![String::from("a")],
            },
            Location {
                id: 2,
                title: String::from("Second"),
                clue: String::from("clue one"),
                answers: vec![String::from("b")],
            },
        ],
    }
}

fn text(s: &str) -> Input {
    Input::FreeText(String::from(s))
}

#[test]
fn closed_gate_evaluates_nothing() {
    let route = route();
    let gate = ActivationGate::new();
    let mut store = SessionStore::new();
    let out = handle_message(&route, &gate, &mut store, 10, &text("a"), true);
    assert!(out.is_empty());
    assert_eq!(store.get(10), Session::NotStarted);
}

#[test]
fn open_gate_runs_the_engine_and_stores_the_session() {
    let route = route();
    let mut gate = ActivationGate::new();
    gate.activate();
    let mut store = SessionStore::new();

    let out = handle_message(&route, &gate, &mut store, 10, &text("hi"), false);
    assert_eq!(store.get(10), Session::InProgress { step: 0, lives: 3, score: 0 });
    assert_eq!(out.len(), 1);
    assert_eq!(out[0].content, Content::Clue(String::from("clue zero")));

    let out = handle_message(&route, &gate, &mut store, 10, &text("nope"), false);
    assert_eq!(store.get(10), Session::InProgress { step: 0, lives: 2, score: 0 });
    // No admin configured: the wrong-answer notice to the admin is dropped.
    assert!(out.iter().all(|m| m.recipient == Recipient::Player));
}

#[test]
fn sessions_of_players_are_independent() {
    let route = route();
    let mut gate = ActivationGate::new();
    gate.activate();
    let mut store = SessionStore::new();

    handle_message(&route, &gate, &mut store, 1, &text("hi"), false);
    handle_message(&route, &gate, &mut store, 1, &text("a"), false);
    handle_message(&route, &gate, &mut store, 2, &text("hi"), false);

    assert_eq!(store.get(1), Session::InProgress { step: 1, lives: 3, score: 3 });
    assert_eq!(store.get(2), Session::InProgress { step: 0, lives: 3, score: 0 });
    assert_eq!(store.get(3), Session::NotStarted);
}

#[test]
fn admin_notices_pass_through_when_configured() {
    let route = route();
    let mut gate = ActivationGate::new();
    gate.activate();
    let mut store = SessionStore::new();

    handle_message(&route, &gate, &mut store, 7, &text("hi"), true);
    let out = handle_message(&route, &gate, &mut store, 7, &text("nope"), true);
    let admin: Vec<_> = out.iter().filter(|m| m.recipient == Recipient::Admin).collect();
    assert_eq!(admin.len(), 1);
    assert_eq!(
        admin[0].content,
        Content::AdminWrongAnswer {
            submitted: String::from("nope"),
            title: String::from("First"),
            tries_left: 2,
        }
    );
}

#[test]
fn gate_stays_open_once_activated() {
    let mut gate = ActivationGate::new();
    assert!(!gate.active());
    gate.activate();
    assert!(gate.active());
    gate.activate();
    assert!(gate.active());
}
