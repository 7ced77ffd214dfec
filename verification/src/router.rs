//! The notification router: which outbox entries are actually dispatched.
//!
//! Entries addressed to the player always go out. Entries addressed to the
//! admin observer go out only when an admin is configured; with no admin
//! they are silently dropped — that is not an error.

use vstd::prelude::*;

use crate::messages::OutMessage;
use crate::messages::OutMessageView;
use crate::messages::Recipient;
use crate::messages::msgs_view;

verus! {

/// Whether an entry is dispatched at all: player entries always, admin
/// entries only when an admin is configured.
pub open spec fn dispatched(m: OutMessageView, admin_configured: bool) -> bool {
    m.recipient == Recipient::Player || admin_configured
}

/// The outbox as delivered: the dispatched entries, in their original order.
pub open spec fn routed(out: Seq<OutMessageView>, admin_configured: bool) -> Seq<OutMessageView>
    decreases out.len(),
{
    if out.len() == 0 {
        Seq::empty()
    } else {
        let rest = routed(out.drop_last(), admin_configured);
        if dispatched(out.last(), admin_configured) {
            rest.push(out.last())
        } else {
            rest
        }
    }
}

/// Routing commutes with appending one entry: the entry is kept exactly
/// when it is dispatched.
pub proof fn lemma_routed_push(out: Seq<OutMessageView>, m: OutMessageView, admin_configured: bool)
    ensures
        routed(out.push(m), admin_configured) == if dispatched(m, admin_configured) {
            routed(out, admin_configured).push(m)
        } else {
            routed(out, admin_configured)
        },
{
    assert(out.push(m).drop_last() =~= out);
    assert(out.push(m).last() == m);
}

/// With an admin configured, everything is dispatched: routing is the
/// identity on the outbox.
pub proof fn lemma_routed_all(out: Seq<OutMessageView>)
    ensures
        routed(out, true) == out,
    decreases out.len(),
{
    if out.len() == 0 {
        assert(routed(out, true) =~= out);
    } else {
        lemma_routed_all(out.drop_last());
        assert(routed(out, true) =~= out);
    }
}

/// With no admin configured, nothing addressed to the admin is delivered:
/// every delivered entry is addressed to the player.
pub proof fn lemma_routed_no_admin(out: Seq<OutMessageView>)
    ensures
        forall|i: int|
            0 <= i < routed(out, false).len() ==> #[trigger] routed(
                out,
                false,
            )[i].recipient == Recipient::Player,
    decreases out.len(),
{
    if out.len() > 0 {
        lemma_routed_no_admin(out.drop_last());
    }
}

/// Dispatches the engine's outbox: keeps the entries that are addressed to
/// the player and, only when an admin is configured, those addressed to the
/// admin, in their original order.
pub fn route_outbox(out: &Vec<OutMessage>, admin_configured: bool) -> (r: Vec<OutMessage>)
    ensures
        msgs_view(r@) == routed(msgs_view(out@), admin_configured),
{
    let mut r: Vec<OutMessage> = Vec::new();
    let mut i: usize = 0;
    while i < out.len()
        invariant
            i <= out@.len(),
            msgs_view(r@) == routed(msgs_view(out@).take(i as int), admin_configured),
        decreases out@.len() - i,
    {
        let keep = match out[i].recipient {
            Recipient::Player => true,
            Recipient::Admin => admin_configured,
        };
        proof {
            assert(msgs_view(out@).take(i as int).push(out@[i as int]@) =~= msgs_view(out@).take(
                i as int + 1,
            ));
            lemma_routed_push(
                msgs_view(out@).take(i as int),
                out@[i as int]@,
                admin_configured,
            );
        }
        if keep {
            let m = out[i].clone();
            r.push(m);
            assert(msgs_view(r@) =~= routed(msgs_view(out@).take(i as int + 1), admin_configured));
        } else {
            assert(msgs_view(r@) =~= routed(msgs_view(out@).take(i as int + 1), admin_configured));
        }
        i = i + 1;
    }
    assert(msgs_view(out@).take(out@.len() as int) =~= msgs_view(out@));
    r
}

} // verus!
