//! A scavenger-hunt game library.
//!
//! Players progress through a fixed, ordered route of locations. Each
//! location shows a clue and accepts one or more answers; wrong answers cost
//! lives, running out of lives forces the player onward, and finishing the
//! route yields a score. The game engine is a pure transition function over
//! session states; routing of the resulting messages, the session store and
//! the activation gate are specified and verified alongside it.

use vstd::prelude::*;

mod engine;
mod gate;
mod laws;
mod messages;
mod route;
mod router;
mod service;
mod store;
mod text;

pub use engine::Input;
pub use engine::InputView;
pub use engine::Session;
pub use engine::advance;
pub use engine::advance_outbox;
pub use engine::advanced_session;
pub use engine::admin_msg;
pub use engine::engine_next;
pub use engine::engine_outbox;
pub use engine::location_matches;
pub use engine::matches_answer;
pub use engine::player_msg;
pub use engine::text_next;
pub use engine::text_outbox;
pub use engine::wf_route;
pub use engine::wf_session;
pub use gate::ActivationGate;
pub use laws::lemma_case_insensitive;
pub use laws::lemma_case_insensitive_match;
pub use laws::lemma_completed_absorbing;
pub use laws::lemma_lives_in_range;
pub use laws::lemma_non_text_forwarded;
pub use laws::lemma_step_monotonic;
pub use laws::lemma_step_monotonic_lifetime;
pub use laws::lemma_wrong_answer_admin_notice;
pub use laws::run_engine;
pub use service::handle_message;
pub use service::store_wf;
pub use store::SessionStore;
pub use messages::Content;
pub use messages::ContentView;
pub use messages::OutMessage;
pub use messages::OutMessageView;
pub use messages::Recipient;
pub use messages::msgs_view;
pub use route::LoadError;
pub use route::Location;
pub use route::LocationView;
pub use route::Route;
pub use route::find_last;
pub use route::first_unknown_at;
pub use route::id_known;
pub use route::locations_view;
pub use route::resolve;
pub use router::dispatched;
pub use router::lemma_routed_all;
pub use router::lemma_routed_no_admin;
pub use router::route_outbox;
pub use router::routed;
pub use text::lower_of;

verus! {

/// Wrong-answer tolerance at each location: a fresh location starts with
/// this many lives.
pub const MAX_LIVES: usize = 3;

} // verus!
