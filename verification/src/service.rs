//! One full evaluation: gate check, store lookup, engine transition, store
//! update, then notification routing — the whole path from one inbound
//! player message to the messages that go out.

use vstd::prelude::*;

use crate::engine::Input;
use crate::engine::advance;
use crate::engine::engine_next;
use crate::engine::engine_outbox;
use crate::engine::wf_route;
use crate::engine::wf_session;
use crate::gate::ActivationGate;
use crate::messages::OutMessage;
use crate::messages::msgs_view;
use crate::route::LocationView;
use crate::route::Route;
use crate::router::route_outbox;
use crate::router::routed;
use crate::store::SessionStore;

verus! {

/// Every session the store could hand out is well-formed against the route
/// (absent players count as `NotStarted`, which always is).
pub open spec fn store_wf(store: SessionStore, route: Seq<LocationView>) -> bool {
    forall|p: i64| wf_session(route, #[trigger] store.spec_get(p))
}

/// Evaluates one inbound message from `player`.
///
/// While the activation gate is closed, nothing happens: no session changes
/// and nothing is sent. While it is open, the player's stored session is
/// advanced by the engine exactly once and the engine's outbox is dispatched
/// through the notification router; no other player's session changes.
pub fn handle_message(
    route: &Route,
    gate: &ActivationGate,
    store: &mut SessionStore,
    player: i64,
    input: &Input,
    admin_configured: bool,
) -> (out: Vec<OutMessage>)
    requires
        wf_route(route@),
        store_wf(*old(store), route@),
    ensures
        store_wf(*final(store), route@),
        !gate.is_active() ==> final(store)@ == old(store)@ && out@.len() == 0,
        gate.is_active() ==> {
            &&& final(store).spec_get(player) == engine_next(
                route@,
                old(store).spec_get(player),
                input@,
            )
            &&& final(store)@ == old(store)@.insert(
                player,
                engine_next(route@, old(store).spec_get(player), input@),
            )
            &&& msgs_view(out@) == routed(
                engine_outbox(route@, old(store).spec_get(player), input@),
                admin_configured,
            )
        },
        forall|q: i64| q != player ==> final(store).spec_get(q) == old(store).spec_get(q),
{
    if !gate.active() {
        return Vec::new();
    }
    let session = store.get(player);
    let (next, outbox) = advance(route, &session, input);
    store.put(player, next);
    proof {
        assert forall|p: i64| wf_session(route@, #[trigger] store.spec_get(p)) by {
            if p != player {
                assert(store.spec_get(p) == old(store).spec_get(p));
            }
        }
    }
    route_outbox(&outbox, admin_configured)
}

} // verus!
