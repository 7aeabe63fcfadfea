//! The player: where they stand, how they fare, and what a step does to
//! them, to the quest and to what the screen shows.

use crate::blocks::BlockView;
use crate::blocks::Glyph;
use crate::config::PLAYER_HEALTH;
use crate::config::VP_BUFFER;
use crate::config::VP_HEIGHT;
use crate::config::VP_WIDTH;
use crate::movement::coordinate::Coordinate;
use crate::movement::direction::CardinalDirection;
use crate::movement::direction::Direction;
use crate::quests::model::QuestModel;
use crate::quests::node::QuestNode;
use crate::quests::Event;
use crate::quests::QuestStatus;
use crate::reaction::Notice;
use crate::reaction::NoticeChange;
use crate::reaction::NoticeChangeView;
use crate::reaction::NoticeView;
use crate::reaction::Reaction;
use crate::reaction::ReactionView;
use crate::reaction::Redraw;
use crate::screen::end_game;
use crate::screen::plain;
use crate::screen::screen_char;
use crate::screen::screen_of;
use crate::screen::set_message;
use crate::screen::set_screen_char;
use crate::screen::set_viewport;
use crate::screen::styled;
use crate::screen::viewport;
use crate::screen::with_symbol;
use crate::screen::ScreenView;
use crate::world::World;
use termgame::Game;
use vstd::prelude::*;

verus! {

/// The player of the game.
#[derive(Debug)]
pub struct Player {
    /// The character that the player is drawn as.
    icon: char,
    /// The cell that the player stands in.
    position: Coordinate,
    /// The health that the player has left.
    health: i32,
    /// Whether the player has completed the quest.
    pub won: bool,
}

/// What a [`Player`] holds.
pub struct PlayerView {
    pub icon: char,
    pub position: Coordinate,
    pub health: int,
    pub won: bool,
}

impl View for Player {
    type V = PlayerView;

    closed spec fn view(&self) -> PlayerView {
        PlayerView { icon: self.icon, position: self.position, health: self.health as int, won: self.won }
    }
}

/// The notice for a player who has run out of health.
pub open spec fn drowned_notice() -> NoticeView {
    NoticeView { title: None, text: "You drowned :("@ }
}

/// The notice for a player who has completed the quest.
pub open spec fn won_notice() -> NoticeView {
    NoticeView { title: Some("You won!"@), text: "You completed all quests! Press any key to quit"@ }
}

/// The health left after a step onto `block`: one less on water, and full
/// again on anything else.
pub open spec fn health_after(health: int, block: BlockView) -> int {
    if block is Water {
        health - 1
    } else {
        PLAYER_HEALTH as int
    }
}

/// What becomes of the message after a step onto `block` that leaves the
/// player with `health` and the quest at `status`: the word of completion
/// comes before that of drowning, and that before what a sign says; a step
/// without any of these takes the message away.
pub open spec fn notice_after(block: BlockView, health: int, status: QuestStatus) -> NoticeChangeView {
    if status is Complete {
        NoticeChangeView::Show(won_notice())
    } else if health == 0 {
        NoticeChangeView::Show(drowned_notice())
    } else {
        match block {
            BlockView::Sign(written) => NoticeChangeView::Show(NoticeView { title: None, text: written }),
            _ => NoticeChangeView::Clear,
        }
    }
}

/// How the cell `at` is drawn once the player has left it.
pub open spec fn trace_at(world: Map<(int, int), BlockView>, at: Coordinate) -> Option<Glyph> {
    if world.contains_key((at.x as int, at.y as int)) {
        Some(world[(at.x as int, at.y as int)].trace())
    } else {
        None
    }
}

/// Where one side of the screen lies after the player has come to
/// `position`: the screen shows `span` cells from `corner` on, and moves by
/// one cell when the player stands next to its first cell or next to its
/// last.
pub open spec fn scrolled_axis(position: int, corner: int, span: int) -> int {
    if position - corner == VP_BUFFER {
        corner - 1
    } else if corner + span - 1 - position == VP_BUFFER {
        corner + 1
    } else {
        corner
    }
}

/// Whether the part in view can follow a player who has come to `position`
/// from `viewport`: whether the cell that becomes its top left lies on the
/// grid that `i32` spans.
pub open spec fn can_follow(position: Coordinate, viewport: Coordinate) -> bool {
    &&& i32::MIN <= scrolled_axis(position.x as int, viewport.x as int, VP_WIDTH as int) <= i32::MAX
    &&& i32::MIN <= scrolled_axis(position.y as int, viewport.y as int, VP_HEIGHT as int) <= i32::MAX
}

impl PlayerView {
    /// The player at the start of a game: in good health, not far from the
    /// corner of the world.
    pub open spec fn at_start() -> PlayerView {
        PlayerView {
            icon: '\u{265F}',
            position: Coordinate { x: 2, y: 2 },
            health: PLAYER_HEALTH as int,
            won: false,
        }
    }

    /// The cell that a step to the side `card_dir` leads to.
    pub open spec fn target(self, card_dir: CardinalDirection) -> Coordinate {
        self.position.moved(card_dir.step())
    }

    /// Whether a step to the side `card_dir` is held up: by a barrier in the
    /// cell it leads to.
    pub open spec fn blocked(self, world: Map<(int, int), BlockView>, card_dir: CardinalDirection) -> bool {
        let at = self.target(card_dir);
        world.contains_key((at.x as int, at.y as int)) && world[(at.x as int, at.y as int)] is Barrier
    }

    /// The block that a step to the side `card_dir` brings the player onto,
    /// if it brings them onto any.
    pub open spec fn entered(self, world: Map<(int, int), BlockView>, card_dir: CardinalDirection) -> Option<
        BlockView,
    > {
        let at = self.target(card_dir);
        if world.contains_key((at.x as int, at.y as int)) && !self.blocked(world, card_dir) {
            Some(world[(at.x as int, at.y as int)])
        } else {
            None
        }
    }

    /// The quest after the player's step to the side `card_dir`: it sees the
    /// step onto a block as an event, and nothing of a step that is held up
    /// or leads onto no block.
    pub open spec fn quest_after(
        self,
        world: Map<(int, int), BlockView>,
        quest: QuestModel,
        card_dir: CardinalDirection,
    ) -> QuestModel {
        match self.entered(world, card_dir) {
            Some(block) => quest.step(Some(block)),
            None => quest,
        }
    }

    /// The player after a step to the side `card_dir`. A step that is held
    /// up changes nothing. Any other moves the player, and one onto a block
    /// sets their health and, if it completes the quest, makes them the
    /// winner.
    pub open spec fn after_move(
        self,
        world: Map<(int, int), BlockView>,
        quest: QuestModel,
        card_dir: CardinalDirection,
    ) -> PlayerView {
        if self.blocked(world, card_dir) {
            self
        } else {
            match self.entered(world, card_dir) {
                Some(block) => PlayerView {
                    icon: self.icon,
                    position: self.target(card_dir),
                    health: health_after(self.health, block),
                    won: self.won || quest.step(Some(block)).status() is Complete,
                },
                None => PlayerView {
                    icon: self.icon,
                    position: self.target(card_dir),
                    health: self.health,
                    won: self.won,
                },
            }
        }
    }

    /// What the screen has to do after the player's step to the side
    /// `card_dir`. The game is to end if the player had no health left when
    /// they set out. A step that is held up shows nothing new. After any
    /// other the cell left is to be drawn again, and a step onto a block
    /// changes the message.
    pub open spec fn reaction_to_move(
        self,
        world: Map<(int, int), BlockView>,
        quest: QuestModel,
        card_dir: CardinalDirection,
    ) -> ReactionView {
        ReactionView {
            end_game: self.health == 0,
            notice: match self.entered(world, card_dir) {
                Some(block) => notice_after(
                    block,
                    health_after(self.health, block),
                    quest.step(Some(block)).status(),
                ),
                None => NoticeChangeView::Keep,
            },
            redraw: if self.blocked(world, card_dir) {
                None
            } else {
                Some(Redraw { left: self.position, trace: trace_at(world, self.position) })
            },
        }
    }

    /// Whether the numbers of a step to the side `card_dir` can be held:
    /// the cell it leads to lies on the grid that `i32` spans, and if the
    /// step costs health, the health can lose that much.
    pub open spec fn can_move(self, world: Map<(int, int), BlockView>, card_dir: CardinalDirection) -> bool {
        &&& self.position.can_move(card_dir.step())
        &&& self.entered(world, card_dir) matches Some(block) ==> health_after(self.health, block) >= i32::MIN
    }

    /// Whether the part in view can follow the player from `viewport`:
    /// whether the cell that becomes its top left lies on the grid that
    /// `i32` spans.
    pub open spec fn can_scroll(self, viewport: Coordinate) -> bool {
        can_follow(self.position, viewport)
    }

    /// Whether the numbers of a step to the side `card_dir` and of its
    /// drawing can be held: those of the step itself and, unless it is held
    /// up, those of the part in view, which is at `viewport` and is to
    /// follow the player to where the step leads.
    pub open spec fn can_show_move(
        self,
        world: Map<(int, int), BlockView>,
        viewport: Coordinate,
        card_dir: CardinalDirection,
    ) -> bool {
        self.can_move(world, card_dir) && (!self.blocked(world, card_dir) ==> can_follow(
            self.target(card_dir),
            viewport,
        ))
    }

    /// The screen with the player drawn: their icon over the cell they
    /// stand in, and the part in view moved along with them.
    pub open spec fn drawn_on(self, screen: ScreenView) -> ScreenView {
        screen.with_cell(self.position, Some(screen.drawn_over(self.position, self.icon))).with_viewport(
            self.scrolled(screen.viewport),
        )
    }

    /// The screen after it has done what `reaction` says, for the player as
    /// they are now: the game is to end if the reaction says so, the message
    /// is changed as it says, and after a move the cell left is drawn again
    /// and the player is drawn where they stand.
    pub open spec fn shown_on(self, screen: ScreenView, reaction: ReactionView) -> ScreenView {
        let marked = if reaction.end_game {
            screen.ended()
        } else {
            screen
        };
        let told = match reaction.notice {
            NoticeChangeView::Keep => marked,
            NoticeChangeView::Clear => marked.with_message(None),
            NoticeChangeView::Show(notice) => marked.with_message(Some(notice)),
        };
        match reaction.redraw {
            Some(redraw) => self.drawn_on(
                told.with_cell(
                    redraw.left,
                    match redraw.trace {
                        Some(glyph) => Some(glyph.look()),
                        None => None,
                    },
                ),
            ),
            None => told,
        }
    }

    /// The top left cell of the screen after the player has come to stand
    /// where they stand, if it was `viewport` before.
    pub open spec fn scrolled(self, viewport: Coordinate) -> Coordinate {
        Coordinate {
            x: scrolled_axis(self.position.x as int, viewport.x as int, VP_WIDTH as int) as i32,
            y: scrolled_axis(self.position.y as int, viewport.y as int, VP_HEIGHT as int) as i32,
        }
    }
}

impl Default for Player {
    fn default() -> (player: Player)
        ensures
            player@ == PlayerView::at_start(),
    {
        Player { icon: '\u{265F}', position: Coordinate::new(2, 2), health: PLAYER_HEALTH, won: false }
    }
}

/// Where one side of the screen lies after the player has come to
/// `position`.
fn scroll_axis(position: i32, corner: i32, span: i32) -> (next: i64)
    requires
        0 <= span <= 0xffff,
    ensures
        next == scrolled_axis(position as int, corner as int, span as int),
{
    if position as i64 - corner as i64 == VP_BUFFER as i64 {
        corner as i64 - 1
    } else if corner as i64 + span as i64 - 1 - position as i64 == VP_BUFFER as i64 {
        corner as i64 + 1
    } else {
        corner as i64
    }
}

/// Whether the part in view can follow a player who has come to `position`
/// from `viewport`.
fn follows(position: Coordinate, viewport: Coordinate) -> (fine: bool)
    ensures
        fine == can_follow(position, viewport),
{
    fits(scroll_axis(position.x, viewport.x, VP_WIDTH)) && fits(scroll_axis(position.y, viewport.y, VP_HEIGHT))
}

/// Whether `number` is one that `i32` holds.
fn fits(number: i64) -> (fine: bool)
    ensures
        fine == (i32::MIN <= number <= i32::MAX),
{
    i32::MIN as i64 <= number && number <= i32::MAX as i64
}

impl Player {
    /// The character that the player is drawn as.
    pub fn icon(&self) -> (icon: char)
        ensures
            icon == self@.icon,
    {
        self.icon
    }

    /// The cell that the player stands in.
    pub fn position(&self) -> (position: Coordinate)
        ensures
            position == self@.position,
    {
        self.position
    }

    /// The health that the player has left.
    pub fn health(&self) -> (health: i32)
        ensures
            health == self@.health,
    {
        self.health
    }

    /// Whether the player has completed the quest.
    pub fn has_won(&self) -> (won: bool)
        ensures
            won == self@.won,
    {
        self.won
    }

    /// Whether the numbers of a step to the side `card_dir` in `map` can be
    /// held. It is then that [`Player::take_step`] may be called.
    pub fn can_move(&self, map: &World, card_dir: CardinalDirection) -> (fine: bool)
        ensures
            fine == self@.can_move(map@, card_dir),
    {
        let dir = Direction::from(card_dir);
        if fits(self.position.x as i64 + dir.x as i64) && fits(self.position.y as i64 + dir.y as i64) {
            match map.get(self.position + card_dir) {
                Some(block) => block.damage() == 0 || self.health > i32::MIN,
                None => true,
            }
        } else {
            false
        }
    }

    /// Whether a step to the side `card_dir` is held up by a barrier.
    pub fn is_blocked(&self, map: &World, card_dir: CardinalDirection) -> (blocked: bool)
        requires
            self@.position.can_move(card_dir.step()),
        ensures
            blocked == self@.blocked(map@, card_dir),
    {
        match map.get(self.position + card_dir) {
            Some(block) => block.blocks_movement(),
            None => false,
        }
    }

    /// Takes a step to the side `card_dir` in `map`, lets `quest` see what
    /// was stepped onto, and says what the screen has to do.
    pub fn take_step(&mut self, map: &World, quest: &mut QuestNode, card_dir: CardinalDirection) -> (reaction:
        Reaction)
        requires
            old(self)@.can_move(map@, card_dir),
        ensures
            final(self)@ == old(self)@.after_move(map@, old(quest)@, card_dir),
            final(quest)@ == old(self)@.quest_after(map@, old(quest)@, card_dir),
            reaction@ == old(self)@.reaction_to_move(map@, old(quest)@, card_dir),
    {
        let end_game = self.health == 0;
        let old_pos = self.position;
        let new_pos = self.position + card_dir;
        let mut notice = NoticeChange::Keep;
        if let Some(destination_block) = map.get(new_pos) {
            if destination_block.blocks_movement() {
                return Reaction { end_game, notice, redraw: None };
            }
            notice = match destination_block.message() {
                Some(message) => NoticeChange::Show(Notice { title: None, text: message }),
                None => NoticeChange::Clear,
            };
            if destination_block.damage() != 0 {
                self.health -= destination_block.damage();
            } else {
                self.health = PLAYER_HEALTH;
            }
            if self.health == 0 {
                notice = NoticeChange::Show(Notice { title: None, text: "You drowned :(".to_owned() });
            }
            if quest.register_event(&Event::on_block(destination_block.clone())) == QuestStatus::Complete {
                self.won = true;
                notice = NoticeChange::Show(
                    Notice {
                        title: Some("You won!".to_owned()),
                        text: "You completed all quests! Press any key to quit".to_owned(),
                    },
                );
            }
        }
        self.position = new_pos;
        let trace = match map.get(old_pos) {
            Some(block) => Some(block.trace()),
            None => None,
        };
        Reaction { end_game, notice, redraw: Some(Redraw { left: old_pos, trace }) }
    }

    /// The top left cell of the screen after the player has come to stand
    /// where they stand, if it was `viewport` before. The screen follows a
    /// player who comes next to its edge.
    pub fn scrolled(&self, viewport: Coordinate) -> (next: Coordinate)
        requires
            self@.can_scroll(viewport),
        ensures
            next == self@.scrolled(viewport),
    {
        Coordinate {
            x: scroll_axis(self.position.x, viewport.x, VP_WIDTH) as i32,
            y: scroll_axis(self.position.y, viewport.y, VP_HEIGHT) as i32,
        }
    }

    /// Whether the part in view can follow the player from `viewport`. It
    /// is then that [`Player::scrolled`] may be called.
    pub fn can_scroll_from(&self, viewport: Coordinate) -> (fine: bool)
        ensures
            fine == self@.can_scroll(viewport),
    {
        follows(self.position, viewport)
    }

    /// Moves the part of the screen in view along with the player.
    fn move_viewport(&self, game: &mut Game)
        requires
            self@.can_scroll(screen_of(old(game)).viewport),
        ensures
            screen_of(final(game)) == screen_of(old(game)).with_viewport(
                self@.scrolled(screen_of(old(game)).viewport),
            ),
    {
        let corner = viewport(game);
        set_viewport(game, self.scrolled(corner));
    }

    /// Draws the player on the screen: their icon over the cell they stand
    /// in, in the style of what the cell showed, and the part in view moved
    /// along with them.
    pub fn render(&self, game: &mut Game)
        requires
            self@.can_scroll(screen_of(old(game)).viewport),
        ensures
            screen_of(final(game)) == self@.drawn_on(screen_of(old(game))),
    {
        let piece = match screen_char(game, self.position) {
            Some(piece) => with_symbol(piece, self.icon),
            None => plain(self.icon),
        };
        set_screen_char(game, self.position, Some(piece));
        self.move_viewport(game);
    }

    /// Does to the screen what `reaction` says, for the player as they are
    /// now.
    pub fn show(&self, game: &mut Game, reaction: Reaction)
        requires
            reaction.redraw is Some ==> self@.can_scroll(screen_of(old(game)).viewport),
        ensures
            screen_of(final(game)) == self@.shown_on(screen_of(old(game)), reaction@),
    {
        if reaction.end_game {
            end_game(game);
        }
        match reaction.notice {
            NoticeChange::Keep => {},
            NoticeChange::Clear => set_message(game, None),
            NoticeChange::Show(notice) => set_message(game, Some(notice)),
        }
        if let Some(redraw) = reaction.redraw {
            let piece = match redraw.trace {
                Some(glyph) => Some(styled(glyph)),
                None => None,
            };
            set_screen_char(game, redraw.left, piece);
            self.render(game);
        }
    }

    /// Whether the part in view can follow the player. It is then that
    /// [`Player::render`] may be called.
    pub fn can_render(&self, game: &Game) -> (fine: bool)
        ensures
            fine == self@.can_scroll(screen_of(game).viewport),
    {
        self.can_scroll_from(viewport(game))
    }

    /// Whether the numbers of a step to the side `card_dir` and of its
    /// drawing can be held. It is then that [`Player::do_move`] may be
    /// called.
    pub fn can_do_move(&self, game: &Game, map: &World, card_dir: CardinalDirection) -> (fine: bool)
        ensures
            fine == self@.can_show_move(map@, screen_of(game).viewport, card_dir),
    {
        if !self.can_move(map, card_dir) {
            false
        } else if self.is_blocked(map, card_dir) {
            true
        } else {
            follows(self.position + card_dir, viewport(game))
        }
    }

    /// Takes a step to the side `card_dir` in `map`, lets `quest` see what
    /// was stepped onto, and shows on the screen what has come of it.
    pub fn do_move(&mut self, game: &mut Game, map: &World, quest: &mut QuestNode, card_dir: CardinalDirection)
        requires
            old(self)@.can_show_move(map@, screen_of(old(game)).viewport, card_dir),
        ensures
            final(self)@ == old(self)@.after_move(map@, old(quest)@, card_dir),
            final(quest)@ == old(self)@.quest_after(map@, old(quest)@, card_dir),
            screen_of(final(game)) == final(self)@.shown_on(
                screen_of(old(game)),
                old(self)@.reaction_to_move(map@, old(quest)@, card_dir),
            ),
    {
        let reaction = self.take_step(map, quest, card_dir);
        self.show(game, reaction);
    }
}

} // verus!
