//! The game as a whole: what each key does to the player, the world and the
//! quest, and the quests that a game can be played for.

use crate::blocks::Block;
use crate::blocks::BlockView;
use crate::movement::coordinate::Coordinate;
use crate::movement::direction::CardinalDirection;
use crate::player::Player;
use crate::player::PlayerView;
use crate::quests::combinators::quest_majority::QuestMajority;
use crate::quests::combinators::quest_repeat::QuestRepeat;
use crate::quests::combinators::quest_then::QuestThen;
use crate::quests::model::QuestModel;
use crate::quests::node::QuestNode;
use crate::quests::walk_quest::WalkQuest;
use crate::quests::walk_repeat_quest::WalkRepeatQuest;
use crate::quests::QuestStatus;
use crate::reaction::Notice;
use crate::reaction::NoticeChange;
use crate::reaction::NoticeChangeView;
use crate::reaction::NoticeView;
use crate::reaction::Reaction;
use crate::reaction::ReactionView;
use crate::screen::screen_of;
use crate::world::World;
use termgame::Game;
use termgame::GameEvent;
use termgame::KeyCode;
use termgame::SimpleEvent;
use vstd::prelude::*;

verus! {

/// A key that the player has pressed, alone, as far as the game tells keys
/// apart.
#[derive(Debug, Copy, Clone, PartialEq, Eq, Structural)]
pub enum Key {
    Up,
    Right,
    Down,
    Left,
    Char(char),
    Other,
}

/// `termgame::GameEvent`, what the terminal reports: a key, or something
/// else that happened to it.
#[verifier::external_type_specification]
#[verifier::external_body]
pub struct ExGameEvent(GameEvent);

/// The key that `event` is, as `termgame` reads it and as far as the game
/// tells keys apart: an arrow or a character pressed alone, or something
/// other.
pub uninterp spec fn key_pressed(event: GameEvent) -> Key;

/// The key that `event` is. `SimpleEvent::from` of `termgame` reads the
/// event; an arrow or a character that was pressed without control or alt
/// is that key, and everything else is some other.
#[verifier::external_body]
pub(crate) fn key_of(event: GameEvent) -> (key: Key)
    ensures
        key == key_pressed(event),
{
    match SimpleEvent::from(event) {
        SimpleEvent::Just(KeyCode::Up) => Key::Up,
        SimpleEvent::Just(KeyCode::Right) => Key::Right,
        SimpleEvent::Just(KeyCode::Down) => Key::Down,
        SimpleEvent::Just(KeyCode::Left) => Key::Left,
        SimpleEvent::Just(KeyCode::Char(symbol)) => Key::Char(symbol),
        _ => Key::Other,
    }
}

/// What a key asks the game to do.
#[derive(Debug, Copy, Clone, PartialEq, Eq, Structural)]
pub enum Command {
    /// Take a step to a side.
    Move(CardinalDirection),
    /// Show the report on the quest.
    ShowQuest,
    /// Start the quest afresh.
    ResetQuest,
    /// Nothing.
    Ignore,
}

impl Key {
    /// What the key asks for: the arrows move the player, `q` shows the
    /// quest and `r` resets it.
    pub open spec fn command(self) -> Command {
        match self {
            Key::Up => Command::Move(CardinalDirection::North),
            Key::Right => Command::Move(CardinalDirection::East),
            Key::Down => Command::Move(CardinalDirection::South),
            Key::Left => Command::Move(CardinalDirection::West),
            Key::Char(symbol) => if symbol == 'q' {
                Command::ShowQuest
            } else if symbol == 'r' {
                Command::ResetQuest
            } else {
                Command::Ignore
            },
            Key::Other => Command::Ignore,
        }
    }

    /// What the key asks for.
    pub fn to_command(self) -> (command: Command)
        ensures
            command == self.command(),
    {
        match self {
            Key::Up => Command::Move(CardinalDirection::North),
            Key::Right => Command::Move(CardinalDirection::East),
            Key::Down => Command::Move(CardinalDirection::South),
            Key::Left => Command::Move(CardinalDirection::West),
            Key::Char('q') => Command::ShowQuest,
            Key::Char('r') => Command::ResetQuest,
            _ => Command::Ignore,
        }
    }
}

/// A game in play.
pub struct Adventure {
    /// The player.
    pub player: Player,
    /// The world that the player walks.
    pub map: World,
    /// The quest that the player is to complete.
    pub quest: QuestNode,
}

/// The player after the game has taken `command`.
pub open spec fn player_after(
    player: PlayerView,
    world: Map<(int, int), BlockView>,
    quest: QuestModel,
    command: Command,
) -> PlayerView {
    match command {
        Command::Move(card_dir) => player.after_move(world, quest, card_dir),
        _ => player,
    }
}

/// The quest after the game has taken `command`.
pub open spec fn quest_after(
    player: PlayerView,
    world: Map<(int, int), BlockView>,
    quest: QuestModel,
    command: Command,
) -> QuestModel {
    match command {
        Command::Move(card_dir) => player.quest_after(world, quest, card_dir),
        Command::ResetQuest => quest.reset(),
        _ => quest,
    }
}

/// What the screen has to do after the game has taken `command`. Once the
/// player has won, every event ends the game, whatever else it does.
pub open spec fn reaction_to(
    player: PlayerView,
    world: Map<(int, int), BlockView>,
    quest: QuestModel,
    command: Command,
) -> ReactionView {
    match command {
        Command::Move(card_dir) => {
            let shown = player.reaction_to_move(world, quest, card_dir);
            ReactionView { end_game: player.won || shown.end_game, notice: shown.notice, redraw: shown.redraw }
        },
        Command::ShowQuest => ReactionView {
            end_game: player.won,
            notice: NoticeChangeView::Show(NoticeView { title: Some("Quest"@), text: quest.text() }),
            redraw: None,
        },
        _ => ReactionView { end_game: player.won, notice: NoticeChangeView::Keep, redraw: None },
    }
}

/// Whether the numbers of what `command` asks for, and of its drawing, can
/// be held.
pub open spec fn can_take(
    player: PlayerView,
    world: Map<(int, int), BlockView>,
    viewport: Coordinate,
    command: Command,
) -> bool {
    command matches Command::Move(card_dir) ==> player.can_show_move(world, viewport, card_dir)
}

impl Adventure {
    /// A game in `map` for `quest`, with the player at the start.
    pub fn new(map: World, quest: QuestNode) -> (game: Adventure)
        ensures
            game.player@ == PlayerView::at_start(),
            game.map == map,
            game.quest == quest,
    {
        Adventure { player: Player::default(), map, quest }
    }

    /// Takes the key that the player has pressed and says what the screen
    /// has to do.
    pub fn react(&mut self, key: Key) -> (reaction: Reaction)
        requires
            key.command() matches Command::Move(card_dir) ==> old(self).player@.can_move(
                old(self).map@,
                card_dir,
            ),
        ensures
            final(self).map == old(self).map,
            final(self).player@ == player_after(
                old(self).player@,
                old(self).map@,
                old(self).quest@,
                key.command(),
            ),
            final(self).quest@ == quest_after(old(self).player@, old(self).map@, old(self).quest@, key.command()),
            reaction@ == reaction_to(old(self).player@, old(self).map@, old(self).quest@, key.command()),
    {
        let won = self.player.has_won();
        match key.to_command() {
            Command::Move(card_dir) => {
                let shown = self.player.take_step(&self.map, &mut self.quest, card_dir);
                Reaction { end_game: won || shown.end_game, notice: shown.notice, redraw: shown.redraw }
            },
            Command::ShowQuest => Reaction {
                end_game: won,
                notice: NoticeChange::Show(Notice { title: Some("Quest".to_owned()), text: self.quest.render() }),
                redraw: None,
            },
            Command::ResetQuest => {
                self.quest.reset();
                Reaction { end_game: won, notice: NoticeChange::Keep, redraw: None }
            },
            Command::Ignore => Reaction { end_game: won, notice: NoticeChange::Keep, redraw: None },
        }
    }

    /// Draws the game as it starts: the world, and the player in it. This
    /// is done if the part in view can follow the player, and nothing is
    /// done if it cannot.
    pub fn on_start(&self, game: &mut Game) -> (done: bool)
        ensures
            done == self.player@.can_scroll(screen_of(old(game)).viewport),
            screen_of(final(game)) == if done {
                self.player@.drawn_on(screen_of(old(game)).with_world(self.map@))
            } else {
                screen_of(old(game))
            },
    {
        if self.player.can_render(game) {
            self.map.render(game);
            self.player.render(game);
            true
        } else {
            false
        }
    }

    /// Whether the numbers of what `key` asks for, and of its drawing, can
    /// be held. It is then that [`Adventure::on_key`] may be called.
    pub fn can_take(&self, game: &Game, key: Key) -> (fine: bool)
        ensures
            fine == can_take(self.player@, self.map@, screen_of(game).viewport, key.command()),
    {
        match key.to_command() {
            Command::Move(card_dir) => self.player.can_do_move(game, &self.map, card_dir),
            _ => true,
        }
    }

    /// Takes the key that the player has pressed, and shows on the screen
    /// what has come of it.
    pub fn on_key(&mut self, game: &mut Game, key: Key)
        requires
            can_take(old(self).player@, old(self).map@, screen_of(old(game)).viewport, key.command()),
        ensures
            final(self).map == old(self).map,
            final(self).player@ == player_after(
                old(self).player@,
                old(self).map@,
                old(self).quest@,
                key.command(),
            ),
            final(self).quest@ == quest_after(old(self).player@, old(self).map@, old(self).quest@, key.command()),
            screen_of(final(game)) == final(self).player@.shown_on(
                screen_of(old(game)),
                reaction_to(old(self).player@, old(self).map@, old(self).quest@, key.command()),
            ),
    {
        let reaction = self.react(key);
        self.player.show(game, reaction);
    }

    /// Takes what the terminal reports, and shows on the screen what has
    /// come of it. The event is taken as the key that it is, if the numbers
    /// of what the key asks for can be held; if they cannot, nothing is
    /// done.
    pub fn on_event(&mut self, game: &mut Game, event: GameEvent) -> (taken: bool)
        ensures
            taken == can_take(
                old(self).player@,
                old(self).map@,
                screen_of(old(game)).viewport,
                key_pressed(event).command(),
            ),
            final(self).map == old(self).map,
            final(self).player@ == if taken {
                player_after(old(self).player@, old(self).map@, old(self).quest@, key_pressed(event).command())
            } else {
                old(self).player@
            },
            final(self).quest@ == if taken {
                quest_after(old(self).player@, old(self).map@, old(self).quest@, key_pressed(event).command())
            } else {
                old(self).quest@
            },
            screen_of(final(game)) == if taken {
                final(self).player@.shown_on(
                    screen_of(old(game)),
                    reaction_to(
                        old(self).player@,
                        old(self).map@,
                        old(self).quest@,
                        key_pressed(event).command(),
                    ),
                )
            } else {
                screen_of(old(game))
            },
    {
        let key = key_of(event);
        if self.can_take(game, key) {
            self.on_key(game, key);
            true
        } else {
            false
        }
    }
}

/// The quest to walk on sand five times.
pub open spec fn sand_quest() -> QuestModel {
    QuestModel::Repeat {
        child: Box::new(QuestModel::Walk { target: BlockView::Sand, status: QuestStatus::Ongoing }),
        needed: 5,
        completed: 0,
        status: QuestStatus::Ongoing,
    }
}

/// The quest to collect five objects `x` and three objects `y`.
pub open spec fn collection_quest() -> QuestModel {
    QuestModel::Then {
        first: Box::new(
            QuestModel::Repeat {
                child: Box::new(QuestModel::Walk { target: BlockView::Object('x'), status: QuestStatus::Ongoing }),
                needed: 5,
                completed: 0,
                status: QuestStatus::Ongoing,
            },
        ),
        second: Box::new(
            QuestModel::Repeat {
                child: Box::new(QuestModel::Walk { target: BlockView::Object('y'), status: QuestStatus::Ongoing }),
                needed: 3,
                completed: 0,
                status: QuestStatus::Ongoing,
            },
        ),
        status: QuestStatus::Ongoing,
    }
}

/// The quest to do two of three things: walk on sand five times and collect
/// an object `x`; collect an object `x` and walk on grass; walk on nine
/// blocks of water in a row, twice.
pub open spec fn grand_quest() -> QuestModel {
    QuestModel::Majority {
        first: Box::new(
            QuestModel::Then {
                first: Box::new(sand_quest()),
                second: Box::new(QuestModel::Walk { target: BlockView::Object('x'), status: QuestStatus::Ongoing }),
                status: QuestStatus::Ongoing,
            },
        ),
        second: Box::new(
            QuestModel::Then {
                first: Box::new(QuestModel::Walk { target: BlockView::Object('x'), status: QuestStatus::Ongoing }),
                second: Box::new(QuestModel::Walk { target: BlockView::Grass, status: QuestStatus::Ongoing }),
                status: QuestStatus::Ongoing,
            },
        ),
        third: Box::new(
            QuestModel::Repeat {
                child: Box::new(
                    QuestModel::WalkRepeat {
                        target: BlockView::Water,
                        needed: 9,
                        run: 0,
                        status: QuestStatus::Ongoing,
                    },
                ),
                needed: 2,
                completed: 0,
                status: QuestStatus::Ongoing,
            },
        ),
        first_done: false,
        second_done: false,
        third_done: false,
        status: QuestStatus::Ongoing,
    }
}

/// The quest that goes by `name`, if one does.
pub open spec fn named_quest(name: Seq<char>) -> Option<QuestModel> {
    if name == "q1"@ {
        Some(sand_quest())
    } else if name == "q2"@ {
        Some(collection_quest())
    } else if name == "q3"@ {
        Some(grand_quest())
    } else {
        None
    }
}

/// A walk quest for `target`, to be owned by a combinator.
fn walk(target: Block) -> (quest: Box<QuestNode>)
    ensures
        quest@ == (QuestModel::Walk { target: target@, status: QuestStatus::Ongoing }),
{
    Box::new(QuestNode::Walk(WalkQuest::new(target)))
}

/// The quest that goes by `name`: `q1`, `q2` and `q3` name one each, and no
/// other name does.
pub fn parse_quest(name: &str) -> (quest: Option<QuestNode>)
    ensures
        match quest {
            Some(quest) => named_quest(name@) == Some(quest@),
            None => named_quest(name@) is None,
        },
{
    let name = name.to_owned();
    if name == "q1".to_owned() {
        Some(QuestNode::Repeat(QuestRepeat::new(walk(Block::Sand), 5)))
    } else if name == "q2".to_owned() {
        Some(
            QuestNode::Then(
                QuestThen::new(
                    Box::new(QuestNode::Repeat(QuestRepeat::new(walk(Block::Object('x')), 5))),
                    Box::new(QuestNode::Repeat(QuestRepeat::new(walk(Block::Object('y')), 3))),
                ),
            ),
        )
    } else if name == "q3".to_owned() {
        Some(
            QuestNode::Majority(
                QuestMajority::new(
                    Box::new(
                        QuestNode::Then(
                            QuestThen::new(
                                Box::new(QuestNode::Repeat(QuestRepeat::new(walk(Block::Sand), 5))),
                                walk(Block::Object('x')),
                            ),
                        ),
                    ),
                    Box::new(QuestNode::Then(QuestThen::new(walk(Block::Object('x')), walk(Block::Grass)))),
                    Box::new(
                        QuestNode::Repeat(
                            QuestRepeat::new(
                                Box::new(QuestNode::WalkRepeat(WalkRepeatQuest::new(Block::Water, 9))),
                                2,
                            ),
                        ),
                    ),
                ),
            ),
        )
    } else {
        None
    }
}

} // verus!
