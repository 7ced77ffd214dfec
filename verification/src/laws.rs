//! Laws of the game engine and the notification router, each proved once
//! and for all inputs from the transition table itself.

use vstd::prelude::*;

use crate::MAX_LIVES;
use crate::engine::InputView;
use crate::engine::Session;
use crate::engine::admin_msg;
use crate::engine::engine_next;
use crate::engine::engine_outbox;
use crate::engine::location_matches;
use crate::engine::player_msg;
use crate::engine::wf_route;
use crate::engine::wf_session;
use crate::messages::ContentView;
use crate::messages::OutMessageView;
use crate::messages::Recipient;
use crate::route::LocationView;
use crate::router::lemma_routed_all;
use crate::router::lemma_routed_push;
use crate::router::routed;
use crate::text::lower_of;

verus! {

/// While a session is in progress its lives lie in `[1, MAX_LIVES]` — zero
/// is never observed, since losing the last life forces an advance within
/// the same evaluation. More broadly, every transition from a well-formed
/// session yields a well-formed session.
pub proof fn lemma_lives_in_range(route: Seq<LocationView>, s: Session, input: InputView)
    requires
        wf_route(route),
        wf_session(route, s),
    ensures
        wf_session(route, engine_next(route, s, input)),
        engine_next(route, s, input) matches Session::InProgress { lives, .. } ==> 1 <= lives
            <= MAX_LIVES,
{
}

/// The step never decreases and never leaves the route: a session either
/// stays at its step, moves forward, or completes.
pub proof fn lemma_step_monotonic(route: Seq<LocationView>, s: Session, input: InputView)
    requires
        wf_route(route),
        wf_session(route, s),
    ensures
        (match (s, engine_next(route, s, input)) {
            (
                Session::InProgress { step: before, .. },
                Session::InProgress { step: after, .. },
            ) => before <= after < route.len(),
            _ => true,
        }),
{
}

/// The session a whole run of inputs leads to, evaluated in order.
pub open spec fn run_engine(
    route: Seq<LocationView>,
    s: Session,
    inputs: Seq<InputView>,
) -> Session
    decreases inputs.len(),
{
    if inputs.len() == 0 {
        s
    } else {
        run_engine(
            route,
            engine_next(route, s, inputs[0]),
            inputs.subrange(1, inputs.len() as int),
        )
    }
}

/// Across a whole session lifetime — any run of inputs — the session stays
/// well-formed, the step never decreases and never exceeds the last index of
/// the route, and a completed session stays exactly as it is.
pub proof fn lemma_step_monotonic_lifetime(
    route: Seq<LocationView>,
    s: Session,
    inputs: Seq<InputView>,
)
    requires
        wf_route(route),
        wf_session(route, s),
    ensures
        wf_session(route, run_engine(route, s, inputs)),
        s matches Session::Completed { .. } ==> run_engine(route, s, inputs) == s,
        (match (s, run_engine(route, s, inputs)) {
            (
                Session::InProgress { step: before, .. },
                Session::InProgress { step: after, .. },
            ) => before <= after < route.len(),
            _ => true,
        }),
    decreases inputs.len(),
{
    if inputs.len() > 0 {
        lemma_lives_in_range(route, s, inputs[0]);
        lemma_step_monotonic(route, s, inputs[0]);
        lemma_step_monotonic_lifetime(
            route,
            engine_next(route, s, inputs[0]),
            inputs.subrange(1, inputs.len() as int),
        );
    }
}

/// Matching is case-insensitive: two submissions with the same lower-case
/// folding make exactly the same transition, whatever their case.
pub proof fn lemma_case_insensitive(
    route: Seq<LocationView>,
    s: Session,
    t1: Seq<char>,
    t2: Seq<char>,
)
    requires
        lower_of(t1) == lower_of(t2),
    ensures
        engine_next(route, s, InputView::FreeText(t1)) == engine_next(
            route,
            s,
            InputView::FreeText(t2),
        ),
{
}

/// Two submissions that both match the current location's answers — for
/// instance any case combination of a stored answer, and the stored answer
/// itself — transition identically and send exactly the same messages.
pub proof fn lemma_case_insensitive_match(
    route: Seq<LocationView>,
    step: usize,
    lives: usize,
    score: usize,
    t1: Seq<char>,
    t2: Seq<char>,
)
    requires
        step < route.len(),
        location_matches(route[step as int], lower_of(t1)),
        location_matches(route[step as int], lower_of(t2)),
    ensures
        engine_next(
            route,
            Session::InProgress { step, lives, score },
            InputView::FreeText(t1),
        ) == engine_next(route, Session::InProgress { step, lives, score }, InputView::FreeText(t2)),
        engine_outbox(
            route,
            Session::InProgress { step, lives, score },
            InputView::FreeText(t1),
        ) == engine_outbox(
            route,
            Session::InProgress { step, lives, score },
            InputView::FreeText(t2),
        ),
{
}

/// A completed session is absorbing: whatever arrives, the state — its final
/// score included — is unchanged and nothing is sent.
pub proof fn lemma_completed_absorbing(route: Seq<LocationView>, s: Session, input: InputView)
    requires
        s matches Session::Completed { .. },
    ensures
        engine_next(route, s, input) == s,
        engine_outbox(route, s, input) == Seq::<OutMessageView>::empty(),
{
}

/// A wrong answer with lives to spare sends the player exactly one message
/// and, when an admin is configured, exactly one admin notice, which quotes
/// the submitted text verbatim and carries the remaining-lives count. With
/// no admin configured, no admin-addressed message is delivered at all.
pub proof fn lemma_wrong_answer_admin_notice(
    route: Seq<LocationView>,
    step: usize,
    lives: usize,
    score: usize,
    raw: Seq<char>,
)
    requires
        step < route.len(),
        lives > 1,
        !location_matches(route[step as int], lower_of(raw)),
    ensures
        ({
            let ob = engine_outbox(
                route,
                Session::InProgress { step, lives, score },
                InputView::FreeText(raw),
            );
            &&& ob == seq![
                player_msg(ContentView::WrongAnswer { tries_left: (lives - 1) as usize }),
                admin_msg(
                    ContentView::AdminWrongAnswer {
                        submitted: raw,
                        title: route[step as int].title,
                        tries_left: (lives - 1) as usize,
                    },
                ),
            ]
            &&& routed(ob, true) == ob
            &&& forall|i: int| 0 <= i < ob.len() ==> (ob[i].recipient == Recipient::Admin <==> i == 1)
            &&& routed(ob, false) == seq![ob[0]]
            &&& forall|i: int|
                0 <= i < routed(ob, false).len() ==> routed(ob, false)[i].recipient
                    == Recipient::Player
        }),
{
    let ob = engine_outbox(
        route,
        Session::InProgress { step, lives, score },
        InputView::FreeText(raw),
    );
    lemma_routed_all(ob);
    let empty = Seq::<OutMessageView>::empty();
    assert(empty.push(ob[0]) =~= seq![ob[0]]);
    assert(seq![ob[0]].push(ob[1]) =~= ob);
    lemma_routed_push(empty, ob[0], false);
    lemma_routed_push(seq![ob[0]], ob[1], false);
    assert(routed(empty, false) =~= empty);
}

/// A non-text submission (a photo, say) while in progress changes nothing:
/// the session stays as it is and the only message produced is the forward
/// directive to the admin — with no admin configured, nothing is delivered,
/// and the player is never messaged either way.
pub proof fn lemma_non_text_forwarded(
    route: Seq<LocationView>,
    step: usize,
    lives: usize,
    score: usize,
)
    ensures
        engine_next(
            route,
            (Session::InProgress { step, lives, score }),
            InputView::NonTextSubmission,
        ) == (Session::InProgress { step, lives, score }),
        ({
            let ob = engine_outbox(
                route,
                (Session::InProgress { step, lives, score }),
                InputView::NonTextSubmission,
            );
            &&& ob == seq![admin_msg(ContentView::AdminForward)]
            &&& routed(ob, true) == ob
            &&& routed(ob, false) == Seq::<OutMessageView>::empty()
            &&& forall|i: int| 0 <= i < ob.len() ==> ob[i].recipient == Recipient::Admin
        }),
{
    let ob = engine_outbox(
        route,
        Session::InProgress { step, lives, score },
        InputView::NonTextSubmission,
    );
    lemma_routed_all(ob);
    let empty = Seq::<OutMessageView>::empty();
    assert(empty.push(ob[0]) =~= ob);
    lemma_routed_push(empty, ob[0], false);
    assert(routed(empty, false) =~= empty);
}

} // verus!
