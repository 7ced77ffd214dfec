use scavenger_hunt::Content;
use scavenger_hunt::Input;
use scavenger_hunt::Location;
use scavenger_hunt::OutMessage;
use scavenger_hunt::Recipient;
use scavenger_hunt::Route;
use scavenger_hunt::Session;
use scavenger_hunt::advance;
use scavenger_hunt::matches_answer;
use scavenger_hunt::route_outbox;

fn loc(id: usize, title: &str, clue: &str, answers: &[&str]) -> Location {
    Location {
        id,
        title: String::from(title),
        clue: String::from(clue),
        answers: answers.iter().map(|a| String::from(*a)).collect(),
    }
}

fn two_location_route() -> Route {
    Route {
        route: vec![
            loc(1, "First", "clue zero", &["a"]),
            loc(2, "Second", "clue one", &["b"]),
        ],
    }
}

fn text(s: &str) -> Input {
    Input::FreeText(String::from(s))
}

fn admin_count(out: &[OutMessage]) -> usize {
    out.iter().filter(|m| m.recipient == Recipient::Admin).count()
}

#[test]
fn end_to_end_two_locations() {
    let route = two_location_route();

    // Start: any input moves NotStarted to the first location and sends its clue.
    let (s, out) = advance(&route, &Session::NotStarted, &text("hello"));
    assert_eq!(s, Session::InProgress { step: 0, lives: 3, score: 0 });
    assert_eq!(out.len(), 1);
    assert_eq!(out[0].recipient, Recipient::Player);
    assert_eq!(out[0].content, Content::Clue(String::from("clue zero")));

    // Two wrong answers each cost a life.
    let (s, out) = advance(&route, &s, &text("wrong"));
    assert_eq!(s, Session::InProgress { step: 0, lives: 2, score: 0 });
    assert_eq!(out[0].content, Content::WrongAnswer { tries_left: 2 });
    let (s, out) = advance(&route, &s, &text("wrong"));
    assert_eq!(s, Session::InProgress { step: 0, lives: 1, score: 0 });
    assert_eq!(out[0].content, Content::WrongAnswer { tries_left: 1 });

    // A correct answer in the wrong case still counts; the one remaining
    // life is banked as score and the next clue goes out.
    let (s, out) = advance(&route, &s, &text("A"));
    assert_eq!(s, Session::InProgress { step: 1, lives: 3, score: 1 });
    assert_eq!(out[0].content, Content::Correct);
    assert_eq!(out[0].recipient, Recipient::Player);
    assert_eq!(out[1].content, Content::Clue(String::from("clue one")));
    assert_eq!(out[1].recipient, Recipient::Player);

    // Finishing on the last step: score + lives delta + lives bonus.
    let (s, out) = advance(&route, &s, &text("b"));
    assert_eq!(s, Session::Completed { final_score: 7 });
    assert_eq!(out[0].content, Content::Correct);
    assert_eq!(out[1].content, Content::Finished { final_score: 7 });
    assert_eq!(out[1].recipient, Recipient::Player);
    assert_eq!(out[2].content, Content::AdminFinished { final_score: 7 });
    assert_eq!(out[2].recipient, Recipient::Admin);
}

#[test]
fn any_input_starts_a_fresh_session() {
    let route = two_location_route();
    // Even a non-text submission moves NotStarted to the first location.
    let (s, out) = advance(&route, &Session::NotStarted, &Input::NonTextSubmission);
    assert_eq!(s, Session::InProgress { step: 0, lives: 3, score: 0 });
    assert_eq!(out.len(), 1);
    assert_eq!(out[0].content, Content::Clue(String::from("clue zero")));
}

#[test]
fn completed_session_is_absorbing() {
    let route = two_location_route();
    let done = Session::Completed { final_score: 5 };
    let (s, out) = advance(&route, &done, &text("a"));
    assert_eq!(s, Session::Completed { final_score: 5 });
    assert!(out.is_empty());
    let (s, out) = advance(&route, &done, &Input::NonTextSubmission);
    assert_eq!(s, Session::Completed { final_score: 5 });
    assert!(out.is_empty());
}

#[test]
fn matching_is_case_insensitive() {
    let route = two_location_route();
    let in_progress = Session::InProgress { step: 0, lives: 3, score: 0 };
    let (canonical, _) = advance(&route, &in_progress, &text("a"));
    let (upper, _) = advance(&route, &in_progress, &text("A"));
    assert_eq!(canonical, upper);
    assert_eq!(canonical, Session::InProgress { step: 1, lives: 3, score: 3 });
}

#[test]
fn folding_really_lowers_both_sides() {
    let stored = loc(7, "Door", "what color?", &["Blue Door"]);
    assert!(matches_answer(&stored, "bLuE dOoR"));
    assert!(matches_answer(&stored, "BLUE DOOR"));
    assert!(!matches_answer(&stored, "blue door ")); // no trimming
    assert!(!matches_answer(&stored, "red door"));
}

#[test]
fn wrong_answer_admin_notice() {
    let route = two_location_route();
    let in_progress = Session::InProgress { step: 0, lives: 3, score: 0 };
    let (_, out) = advance(&route, &in_progress, &text("nope"));

    // Admin configured: exactly one admin message, quoting the submission
    // and the remaining tries.
    let delivered = route_outbox(&out, true);
    assert_eq!(admin_count(&delivered), 1);
    let notice = delivered
        .iter()
        .find(|m| m.recipient == Recipient::Admin)
        .unwrap();
    assert_eq!(
        notice.content,
        Content::AdminWrongAnswer {
            submitted: String::from("nope"),
            title: String::from("First"),
            tries_left: 2,
        }
    );

    // Admin not configured: zero admin messages for the same input.
    let delivered = route_outbox(&out, false);
    assert_eq!(admin_count(&delivered), 0);
    assert_eq!(delivered.len(), 1);
    assert_eq!(delivered[0].content, Content::WrongAnswer { tries_left: 2 });
}

#[test]
fn photo_is_forwarded_without_session_change() {
    let route = two_location_route();
    let in_progress = Session::InProgress { step: 0, lives: 2, score: 0 };
    let (s, out) = advance(&route, &in_progress, &Input::NonTextSubmission);
    assert_eq!(s, in_progress);

    let delivered = route_outbox(&out, true);
    assert_eq!(delivered.len(), 1);
    assert_eq!(delivered[0].recipient, Recipient::Admin);
    assert_eq!(delivered[0].content, Content::AdminForward);

    // No admin: nothing at all goes out, the player in particular hears nothing.
    let delivered = route_outbox(&out, false);
    assert!(delivered.is_empty());
}

#[test]
fn losing_last_life_forces_advance_without_bonus() {
    let route = two_location_route();
    let (s, out) = advance(
        &route,
        &Session::InProgress { step: 0, lives: 1, score: 0 },
        &text("wrong"),
    );
    assert_eq!(s, Session::InProgress { step: 1, lives: 3, score: 0 });
    assert_eq!(out[0].content, Content::NoLivesLeft);
    assert_eq!(out[1].content, Content::Clue(String::from("clue one")));
    assert_eq!(
        out[2].content,
        Content::AdminForcedAdvance {
            title: String::from("First"),
            next_title: String::from("Second"),
        }
    );

    // On the last step the forced advance completes with no lives bonus.
    let (s, out) = advance(
        &route,
        &Session::InProgress { step: 1, lives: 1, score: 4 },
        &text("wrong"),
    );
    assert_eq!(s, Session::Completed { final_score: 4 });
    assert_eq!(out[0].content, Content::NoLivesLeft);
    assert_eq!(out[1].content, Content::Finished { final_score: 4 });
}

#[test]
fn correct_answer_banks_remaining_lives() {
    let route = two_location_route();
    let (s, _) = advance(
        &route,
        &Session::InProgress { step: 0, lives: 2, score: 0 },
        &text("a"),
    );
    assert_eq!(s, Session::InProgress { step: 1, lives: 3, score: 2 });
}

#[test]
fn correct_answer_notifies_admin_of_progress() {
    let route = two_location_route();
    let (_, out) = advance(
        &route,
        &Session::InProgress { step: 0, lives: 3, score: 0 },
        &text("a"),
    );
    let delivered = route_outbox(&out, true);
    assert_eq!(admin_count(&delivered), 1);
    let notice = delivered
        .iter()
        .find(|m| m.recipient == Recipient::Admin)
        .unwrap();
    assert_eq!(
        notice.content,
        Content::AdminAdvanced { next_title: String::from("Second") }
    );
}
