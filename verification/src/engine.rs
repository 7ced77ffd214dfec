//! The game engine: a pure transition function over session states.
//!
//! Given the current session and one piece of player input, [`advance`]
//! computes the next session and the ordered outbox of messages to deliver.
//! The whole transition table is written down once, as the specification
//! functions [`engine_next`] and [`engine_outbox`]; `advance` is proved to
//! compute exactly those.

use vstd::prelude::*;

use crate::MAX_LIVES;
use crate::messages::Content;
use crate::messages::ContentView;
use crate::messages::OutMessage;
use crate::messages::OutMessageView;
use crate::messages::Recipient;
use crate::messages::msgs_view;
use crate::route::Location;
use crate::route::LocationView;
use crate::route::Route;
use crate::text::fold_case;
use crate::text::lower_of;

verus! {

/// One player's progress record. Exactly one of three states holds at any
/// time; `Completed` is terminal.
#[derive(Clone, Copy, PartialEq, Eq, Structural, Debug)]
pub enum Session {
    /// The player has not begun.
    NotStarted,
    /// The player stands at `step` with `lives` wrong answers left there and
    /// `score` accumulated so far.
    InProgress { step: usize, lives: usize, score: usize },
    /// The player finished the route; no further input changes anything.
    Completed { final_score: usize },
}

/// One piece of player input, as the transport hands it to the engine.
#[derive(Debug)]
pub enum Input {
    /// A free-text message: a candidate answer.
    FreeText(String),
    /// A submission that is not text (for example a photo).
    NonTextSubmission,
}

/// The mathematical model of an [`Input`].
pub enum InputView {
    FreeText(Seq<char>),
    NonTextSubmission,
}

impl View for Input {
    type V = InputView;

    open spec fn view(&self) -> InputView {
        match self {
            Input::FreeText(text) => InputView::FreeText(text@),
            Input::NonTextSubmission => InputView::NonTextSubmission,
        }
    }
}

/// A route the engine can run: at least one location, and short enough that
/// no score computation can exceed `usize`.
pub open spec fn wf_route(route: Seq<LocationView>) -> bool {
    &&& route.len() > 0
    &&& MAX_LIVES * (route.len() + 1) <= usize::MAX
}

/// Session well-formedness against a route: while in progress, the step is
/// in bounds, lives lie in `[1, MAX_LIVES]` (never observed at zero), and
/// the score cannot outgrow what the steps cleared so far could have earned.
pub open spec fn wf_session(route: Seq<LocationView>, s: Session) -> bool {
    match s {
        Session::NotStarted => true,
        Session::InProgress { step, lives, score } => {
            &&& step < route.len()
            &&& 1 <= lives <= MAX_LIVES
            &&& score <= MAX_LIVES * step
        },
        Session::Completed { .. } => true,
    }
}

/// Whether folded text matches one of the location's answers, both sides
/// compared in lower case.
pub open spec fn location_matches(loc: LocationView, folded: Seq<char>) -> bool {
    exists|i: int| 0 <= i < loc.answers.len() && lower_of(loc.answers[i]) == folded
}

/// The session after clearing `step` (by success or by running out of
/// lives): the next location with fresh lives, or completion on the last
/// step. The lives bonus is added to the final score only on success.
pub open spec fn advanced_session(
    route: Seq<LocationView>,
    step: usize,
    lives: usize,
    score: usize,
    delta: usize,
    success: bool,
) -> Session {
    if step + 1 == route.len() {
        Session::Completed {
            final_score: (score + delta + if success {
                lives as int
            } else {
                0
            }) as usize,
        }
    } else {
        Session::InProgress {
            step: (step + 1) as usize,
            lives: MAX_LIVES,
            score: (score + delta) as usize,
        }
    }
}

/// The session after evaluating folded free text while in progress: a match
/// clears the step and banks the remaining lives as score; a wrong answer
/// costs a life, and losing the last one forces the player on with no score.
pub open spec fn text_next(
    route: Seq<LocationView>,
    step: usize,
    lives: usize,
    score: usize,
    folded: Seq<char>,
) -> Session {
    if location_matches(route[step as int], folded) {
        advanced_session(route, step, lives, score, lives, true)
    } else if lives > 1 {
        Session::InProgress { step, lives: (lives - 1) as usize, score }
    } else {
        advanced_session(route, step, lives, score, 0, false)
    }
}

/// The whole transition table: the session that follows `s` on `input`.
/// Free text is judged only by its lower-case folding.
pub open spec fn engine_next(route: Seq<LocationView>, s: Session, input: InputView) -> Session {
    match s {
        Session::NotStarted => Session::InProgress { step: 0, lives: MAX_LIVES, score: 0 },
        Session::InProgress { step, lives, score } => match input {
            InputView::NonTextSubmission => s,
            InputView::FreeText(raw) => text_next(route, step, lives, score, lower_of(raw)),
        },
        Session::Completed { .. } => s,
    }
}

/// An outbox entry addressed to the player.
pub open spec fn player_msg(c: ContentView) -> OutMessageView {
    OutMessageView { recipient: Recipient::Player, content: c }
}

/// An outbox entry addressed to the admin observer.
pub open spec fn admin_msg(c: ContentView) -> OutMessageView {
    OutMessageView { recipient: Recipient::Admin, content: c }
}

/// The outbox of a step just cleared: the next clue (with the matching admin
/// notice), or the final score announced to player and admin.
pub open spec fn advance_outbox(
    route: Seq<LocationView>,
    step: usize,
    lives: usize,
    score: usize,
    delta: usize,
    success: bool,
) -> Seq<OutMessageView> {
    if step + 1 == route.len() {
        let final_score = (score + delta + if success {
            lives as int
        } else {
            0
        }) as usize;
        seq![
            player_msg(ContentView::Finished { final_score }),
            admin_msg(ContentView::AdminFinished { final_score }),
        ]
    } else if success {
        seq![
            player_msg(ContentView::Clue(route[step + 1].clue)),
            admin_msg(ContentView::AdminAdvanced { next_title: route[step + 1].title }),
        ]
    } else {
        seq![
            player_msg(ContentView::Clue(route[step + 1].clue)),
            admin_msg(
                ContentView::AdminForcedAdvance {
                    title: route[step as int].title,
                    next_title: route[step + 1].title,
                },
            ),
        ]
    }
}

/// The outbox of evaluating free text while in progress. The submitted text
/// appears verbatim (original case) in the admin wrong-answer notice; every
/// decision depends only on its lower-case folding.
pub open spec fn text_outbox(
    route: Seq<LocationView>,
    step: usize,
    lives: usize,
    score: usize,
    raw: Seq<char>,
) -> Seq<OutMessageView> {
    let folded = lower_of(raw);
    if location_matches(route[step as int], folded) {
        seq![player_msg(ContentView::Correct)] + advance_outbox(
            route,
            step,
            lives,
            score,
            lives,
            true,
        )
    } else if lives > 1 {
        seq![
            player_msg(ContentView::WrongAnswer { tries_left: (lives - 1) as usize }),
            admin_msg(
                ContentView::AdminWrongAnswer {
                    submitted: raw,
                    title: route[step as int].title,
                    tries_left: (lives - 1) as usize,
                },
            ),
        ]
    } else {
        seq![player_msg(ContentView::NoLivesLeft)] + advance_outbox(
            route,
            step,
            lives,
            score,
            0,
            false,
        )
    }
}

/// The whole outbox table: what `input` against session `s` sends, in order.
pub open spec fn engine_outbox(
    route: Seq<LocationView>,
    s: Session,
    input: InputView,
) -> Seq<OutMessageView> {
    match s {
        Session::NotStarted => seq![player_msg(ContentView::Clue(route[0].clue))],
        Session::InProgress { step, lives, score } => match input {
            InputView::NonTextSubmission => seq![admin_msg(ContentView::AdminForward)],
            InputView::FreeText(raw) => text_outbox(route, step, lives, score, raw),
        },
        Session::Completed { .. } => Seq::empty(),
    }
}

/// Whether the submitted text matches one of the location's accepted
/// answers, case-insensitively.
pub fn matches_answer(loc: &Location, text: &str) -> (r: bool)
    ensures
        r == location_matches(loc@, lower_of(text@)),
{
    let folded = fold_case(text);
    let mut i: usize = 0;
    while i < loc.answers.len()
        invariant
            i <= loc.answers@.len(),
            folded@ == lower_of(text@),
            forall|j: int| 0 <= j < i ==> lower_of(loc@.answers[j]) != lower_of(text@),
        decreases loc.answers@.len() - i,
    {
        let candidate = fold_case(loc.answers[i].as_str());
        if candidate == folded {
            assert(lower_of(loc@.answers[i as int]) == lower_of(text@));
            return true;
        }
        assert(lower_of(loc@.answers[i as int]) != lower_of(text@));
        i = i + 1;
    }
    false
}

/// Clears the current step: moves to the next location (fresh lives, score
/// raised by `delta`) or, on the last step, completes the session, adding
/// the lives bonus only on success.
fn advance_step(
    route: &Route,
    step: usize,
    lives: usize,
    score: usize,
    delta: usize,
    success: bool,
) -> (r: (Session, Vec<OutMessage>))
    requires
        wf_route(route@),
        step < route@.len(),
        score + delta + lives <= usize::MAX,
    ensures
        r.0 == advanced_session(route@, step, lives, score, delta, success),
        msgs_view(r.1@) == advance_outbox(route@, step, lives, score, delta, success),
{
    let mut out: Vec<OutMessage> = Vec::new();
    if step + 1 == route.route.len() {
        let final_score = if success {
            score + delta + lives
        } else {
            score + delta
        };
        let next = Session::Completed { final_score };
        out.push(
            OutMessage { recipient: Recipient::Player, content: Content::Finished { final_score } },
        );
        out.push(
            OutMessage {
                recipient: Recipient::Admin,
                content: Content::AdminFinished { final_score },
            },
        );
        assert(msgs_view(out@) =~= advance_outbox(route@, step, lives, score, delta, success));
        (next, out)
    } else {
        let next = Session::InProgress { step: step + 1, lives: MAX_LIVES, score: score + delta };
        out.push(
            OutMessage {
                recipient: Recipient::Player,
                content: Content::Clue(route.route[step + 1].clue.clone()),
            },
        );
        if success {
            out.push(
                OutMessage {
                    recipient: Recipient::Admin,
                    content: Content::AdminAdvanced {
                        next_title: route.route[step + 1].title.clone(),
                    },
                },
            );
        } else {
            out.push(
                OutMessage {
                    recipient: Recipient::Admin,
                    content: Content::AdminForcedAdvance {
                        title: route.route[step].title.clone(),
                        next_title: route.route[step + 1].title.clone(),
                    },
                },
            );
        }
        assert(msgs_view(out@) =~= advance_outbox(route@, step, lives, score, delta, success));
        (next, out)
    }
}

/// Evaluates one piece of player input against the current session: returns
/// the next session and the ordered outbox. The engine is total over
/// well-formed sessions and never fails; it computes exactly the transition
/// table [`engine_next`] / [`engine_outbox`], so the next session is again
/// well-formed.
pub fn advance(route: &Route, session: &Session, input: &Input) -> (r: (Session, Vec<OutMessage>))
    requires
        wf_route(route@),
        wf_session(route@, *session),
    ensures
        r.0 == engine_next(route@, *session, input@),
        msgs_view(r.1@) == engine_outbox(route@, *session, input@),
        wf_session(route@, r.0),
{
    match *session {
        Session::NotStarted => {
            let mut out: Vec<OutMessage> = Vec::new();
            out.push(
                OutMessage {
                    recipient: Recipient::Player,
                    content: Content::Clue(route.route[0].clue.clone()),
                },
            );
            assert(msgs_view(out@) =~= engine_outbox(route@, *session, input@));
            (Session::InProgress { step: 0, lives: MAX_LIVES, score: 0 }, out)
        },
        Session::Completed { final_score } => {
            let out: Vec<OutMessage> = Vec::new();
            assert(msgs_view(out@) =~= engine_outbox(route@, *session, input@));
            (Session::Completed { final_score }, out)
        },
        Session::InProgress { step, lives, score } => match input {
            Input::NonTextSubmission => {
                let mut out: Vec<OutMessage> = Vec::new();
                out.push(
                    OutMessage { recipient: Recipient::Admin, content: Content::AdminForward },
                );
                assert(msgs_view(out@) =~= engine_outbox(route@, *session, input@));
                (Session::InProgress { step, lives, score }, out)
            },
            Input::FreeText(text) => {
                if matches_answer(&route.route[step], text.as_str()) {
                    let (next, mut rest) = advance_step(route, step, lives, score, lives, true);
                    let mut out: Vec<OutMessage> = Vec::new();
                    out.push(
                        OutMessage { recipient: Recipient::Player, content: Content::Correct },
                    );
                    out.append(&mut rest);
                    assert(msgs_view(out@) =~= engine_outbox(route@, *session, input@));
                    (next, out)
                } else if lives > 1 {
                    let mut out: Vec<OutMessage> = Vec::new();
                    out.push(
                        OutMessage {
                            recipient: Recipient::Player,
                            content: Content::WrongAnswer { tries_left: lives - 1 },
                        },
                    );
                    out.push(
                        OutMessage {
                            recipient: Recipient::Admin,
                            content: Content::AdminWrongAnswer {
                                submitted: text.clone(),
                                title: route.route[step].title.clone(),
                                tries_left: lives - 1,
                            },
                        },
                    );
                    assert(msgs_view(out@) =~= engine_outbox(route@, *session, input@));
                    (Session::InProgress { step, lives: lives - 1, score }, out)
                } else {
                    let (next, mut rest) = advance_step(route, step, lives, score, 0, false);
                    let mut out: Vec<OutMessage> = Vec::new();
                    out.push(
                        OutMessage { recipient: Recipient::Player, content: Content::NoLivesLeft },
                    );
                    out.append(&mut rest);
                    assert(msgs_view(out@) =~= engine_outbox(route@, *session, input@));
                    (next, out)
                }
            },
        },
    }
}

} // verus!
