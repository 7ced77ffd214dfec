//! Outbound messages: what the game engine asks the transport to deliver.
//!
//! The engine returns an ordered outbox of messages, each addressed to the
//! player or to the optional admin observer. Message bodies are structured
//! values; rendering them as text for a particular transport is left to the
//! surrounding program.

use vstd::prelude::*;

verus! {

/// Who an outbound message is addressed to.
#[derive(Clone, Copy, PartialEq, Eq, Structural, Debug)]
pub enum Recipient {
    /// The player whose input was evaluated.
    Player,
    /// The optional admin observer.
    Admin,
}

/// The body of an outbound message.
#[derive(PartialEq, Eq, Debug)]
pub enum Content {
    /// The clue of the location the player now stands at.
    Clue(String),
    /// The submitted answer was accepted.
    Correct,
    /// The submitted answer was wrong; this many tries remain at this clue.
    WrongAnswer { tries_left: usize },
    /// The submitted answer was wrong and no lives remain: forced advance.
    NoLivesLeft,
    /// The route is finished, with this final score.
    Finished { final_score: usize },
    /// Admin notice: a wrong answer, quoted verbatim, with the location's
    /// title and the tries that remain.
    AdminWrongAnswer { submitted: String, title: String, tries_left: usize },
    /// Admin notice: a correct answer moved the player to the named location.
    AdminAdvanced { next_title: String },
    /// Admin notice: no lives remained at the first-named location, so the
    /// player was forced on to the second.
    AdminForcedAdvance { title: String, next_title: String },
    /// Admin notice: the player finished with this final score.
    AdminFinished { final_score: usize },
    /// Admin notice: a non-text submission; forward it verbatim.
    AdminForward,
}

/// The mathematical model of a [`Content`]: the same variants, over
/// sequences of characters.
pub enum ContentView {
    Clue(Seq<char>),
    Correct,
    WrongAnswer { tries_left: usize },
    NoLivesLeft,
    Finished { final_score: usize },
    AdminWrongAnswer { submitted: Seq<char>, title: Seq<char>, tries_left: usize },
    AdminAdvanced { next_title: Seq<char> },
    AdminForcedAdvance { title: Seq<char>, next_title: Seq<char> },
    AdminFinished { final_score: usize },
    AdminForward,
}

impl View for Content {
    type V = ContentView;

    open spec fn view(&self) -> ContentView {
        match self {
            Content::Clue(c) => ContentView::Clue(c@),
            Content::Correct => ContentView::Correct,
            Content::WrongAnswer { tries_left } => ContentView::WrongAnswer {
                tries_left: *tries_left,
            },
            Content::NoLivesLeft => ContentView::NoLivesLeft,
            Content::Finished { final_score } => ContentView::Finished {
                final_score: *final_score,
            },
            Content::AdminWrongAnswer { submitted, title, tries_left } => (
            ContentView::AdminWrongAnswer {
                submitted: submitted@,
                title: title@,
                tries_left: *tries_left,
            }),
            Content::AdminAdvanced { next_title } => ContentView::AdminAdvanced {
                next_title: next_title@,
            },
            Content::AdminForcedAdvance { title, next_title } => (
            ContentView::AdminForcedAdvance { title: title@, next_title: next_title@ }),
            Content::AdminFinished { final_score } => ContentView::AdminFinished {
                final_score: *final_score,
            },
            Content::AdminForward => ContentView::AdminForward,
        }
    }
}

impl Clone for Content {
    fn clone(&self) -> (res: Self)
        ensures
            res@ == self@,
    {
        match self {
            Content::Clue(c) => Content::Clue(c.clone()),
            Content::Correct => Content::Correct,
            Content::WrongAnswer { tries_left } => Content::WrongAnswer {
                tries_left: *tries_left,
            },
            Content::NoLivesLeft => Content::NoLivesLeft,
            Content::Finished { final_score } => Content::Finished {
                final_score: *final_score,
            },
            Content::AdminWrongAnswer { submitted, title, tries_left } => (
            Content::AdminWrongAnswer {
                submitted: submitted.clone(),
                title: title.clone(),
                tries_left: *tries_left,
            }),
            Content::AdminAdvanced { next_title } => Content::AdminAdvanced {
                next_title: next_title.clone(),
            },
            Content::AdminForcedAdvance { title, next_title } => (
            Content::AdminForcedAdvance {
                title: title.clone(),
                next_title: next_title.clone(),
            }),
            Content::AdminFinished { final_score } => Content::AdminFinished {
                final_score: *final_score,
            },
            Content::AdminForward => Content::AdminForward,
        }
    }
}

/// One entry of the engine's outbox.
#[derive(PartialEq, Eq, Debug)]
pub struct OutMessage {
    pub recipient: Recipient,
    pub content: Content,
}

/// The mathematical model of an [`OutMessage`].
pub struct OutMessageView {
    pub recipient: Recipient,
    pub content: ContentView,
}

impl View for OutMessage {
    type V = OutMessageView;

    open spec fn view(&self) -> OutMessageView {
        OutMessageView { recipient: self.recipient, content: self.content@ }
    }
}

impl Clone for OutMessage {
    fn clone(&self) -> (res: Self)
        ensures
            res@ == self@,
    {
        OutMessage { recipient: self.recipient, content: self.content.clone() }
    }
}

/// The model of a whole outbox: the views of its entries, in order.
pub open spec fn msgs_view(s: Seq<OutMessage>) -> Seq<OutMessageView> {
    s.map_values(|m: OutMessage| m@)
}

} // verus!
