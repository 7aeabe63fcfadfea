//! What the game answers to an event: what the screen has to do.

use crate::blocks::Glyph;
use crate::movement::coordinate::Coordinate;
use vstd::prelude::*;

verus! {

/// A message for the player, with or without a title.
#[derive(Debug)]
pub struct Notice {
    pub title: Option<String>,
    pub text: String,
}

/// What a [`Notice`] says.
pub struct NoticeView {
    pub title: Option<Seq<char>>,
    pub text: Seq<char>,
}

impl View for Notice {
    type V = NoticeView;

    open spec fn view(&self) -> NoticeView {
        NoticeView {
            title: match self.title {
                Some(title) => Some(title@),
                None => None,
            },
            text: self.text@,
        }
    }
}

/// What is to become of the message on the screen.
#[derive(Debug)]
pub enum NoticeChange {
    /// It stays as it is.
    Keep,
    /// It is taken away.
    Clear,
    /// This one is shown in its place.
    Show(Notice),
}

/// What a [`NoticeChange`] says.
pub enum NoticeChangeView {
    Keep,
    Clear,
    Show(NoticeView),
}

impl View for NoticeChange {
    type V = NoticeChangeView;

    open spec fn view(&self) -> NoticeChangeView {
        match self {
            NoticeChange::Keep => NoticeChangeView::Keep,
            NoticeChange::Clear => NoticeChangeView::Clear,
            NoticeChange::Show(notice) => NoticeChangeView::Show(notice@),
        }
    }
}

/// A cell that the player has left, and how it is to be drawn now: as
/// `trace`, or as nothing where the world has no block.
#[derive(Debug, Copy, Clone, PartialEq, Eq, Structural)]
pub struct Redraw {
    pub left: Coordinate,
    pub trace: Option<Glyph>,
}

/// What the screen has to do after an event.
#[derive(Debug)]
pub struct Reaction {
    /// Whether the game is to end.
    pub end_game: bool,
    /// What is to become of the message.
    pub notice: NoticeChange,
    /// The cell that the player has left, if they have moved. The player is
    /// then to be drawn where they stand now.
    pub redraw: Option<Redraw>,
}

/// What a [`Reaction`] says.
pub struct ReactionView {
    pub end_game: bool,
    pub notice: NoticeChangeView,
    pub redraw: Option<Redraw>,
}

impl View for Reaction {
    type V = ReactionView;

    open spec fn view(&self) -> ReactionView {
        ReactionView { end_game: self.end_game, notice: self.notice@, redraw: self.redraw }
    }
}

} // verus!
