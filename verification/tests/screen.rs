use adventurers::adventure::parse_quest;
use adventurers::screen::styled;
use adventurers::Adventure;
use adventurers::Block;
use adventurers::CardinalDirection;
use adventurers::Color;
use adventurers::Coordinate;
use adventurers::Glyph;
use adventurers::Notice;
use adventurers::NoticeChange;
use adventurers::Player;
use adventurers::QuestNode;
use adventurers::Reaction;
use adventurers::Redraw;
use adventurers::WalkQuest;
use adventurers::World;
use termgame::CharChunkMap;
use termgame::Font;
use termgame::Game;
use termgame::GameColor;
use termgame::GameEvent;
use termgame::GameStyle;
use termgame::KeyCode;
use termgame::Message;
use termgame::SimpleEvent;
use termgame::StyledCharacter;
use termgame::ViewportLocation;

const ICON: char = '\u{265F}';

fn on(background: GameColor, symbol: char) -> Option<StyledCharacter> {
    Some(StyledCharacter::new(symbol).style(GameStyle::new().background_color(Some(background))))
}

fn bare(symbol: char) -> Option<StyledCharacter> {
    Some(StyledCharacter::new(symbol))
}

fn corner(game: &Game) -> (i32, i32) {
    let at = game.get_viewport();
    (at.x, at.y)
}

fn message(game: &Game) -> Option<(Option<String>, String)> {
    game.get_message()
        .as_ref()
        .map(|message| (message.title.clone(), message.text.clone()))
}

fn pressed(code: KeyCode) -> GameEvent {
    SimpleEvent::Just(code).into()
}

/// Sand to the east of the start, a sign and an object to the south, a
/// barrier to the north and grass under the player.
fn small_world() -> World {
    let mut world = World::new();
    world.insert(2, 2, Block::Grass);
    world.insert(3, 2, Block::Sand);
    world.insert(4, 2, Block::Water);
    world.insert(2, 3, Block::Sign(String::from("beware")));
    world.insert(2, 4, Block::Object('x'));
    world.insert(2, 1, Block::Barrier);
    world.insert(-5, 40, Block::Rock);
    world
}

fn rock_quest() -> QuestNode {
    QuestNode::Walk(WalkQuest::new(Block::Rock))
}

#[test]
fn the_world_is_drawn_block_by_block() {
    let mut chunks = CharChunkMap::new();
    let mut game = Game::new(&mut chunks);
    game.set_screen_char(9, 9, bare('?'));
    game.set_screen_char(3, 2, bare('?'));
    small_world().render(&mut game);
    assert_eq!(game.get_screen_char(2, 2), on(GameColor::Green, ' '));
    assert_eq!(game.get_screen_char(3, 2), on(GameColor::Yellow, ' '));
    assert_eq!(game.get_screen_char(4, 2), on(GameColor::Blue, ' '));
    assert_eq!(game.get_screen_char(2, 3), bare('\u{1F4AC}'));
    assert_eq!(game.get_screen_char(2, 4), bare('x'));
    assert_eq!(game.get_screen_char(2, 1), on(GameColor::White, ' '));
    assert_eq!(game.get_screen_char(-5, 40), on(GameColor::Gray, ' '));
    assert_eq!(game.get_screen_char(9, 9), bare('?'));
    assert_eq!(game.get_screen_char(5, 2), None);
    assert_eq!(corner(&game), (0, 0));
    assert!(game.get_message().is_none());
    assert!(!game.game_will_end());
}

#[test]
fn every_colour_of_a_block_reaches_the_screen() {
    let mut world = World::new();
    world.insert(0, 0, Block::Barrier);
    world.insert(1, 0, Block::Cinderblock);
    world.insert(2, 0, Block::Flowerbush);
    world.insert(3, 0, Block::Grass);
    world.insert(4, 0, Block::Rock);
    world.insert(5, 0, Block::Sand);
    world.insert(6, 0, Block::Water);
    let mut chunks = CharChunkMap::new();
    let mut game = Game::new(&mut chunks);
    world.render(&mut game);
    let colours = [
        GameColor::White,
        GameColor::LightRed,
        GameColor::Magenta,
        GameColor::Green,
        GameColor::Gray,
        GameColor::Yellow,
        GameColor::Blue,
    ];
    for (x, colour) in colours.into_iter().enumerate() {
        assert_eq!(game.get_screen_char(x as i32, 0), on(colour, ' '));
    }
}

#[test]
fn the_player_is_drawn_over_the_style_of_the_cell() {
    let mut chunks = CharChunkMap::new();
    let mut game = Game::new(&mut chunks);
    game.set_screen_char(2, 2, on(GameColor::Green, ' '));
    Player::default().render(&mut game);
    assert_eq!(game.get_screen_char(2, 2), on(GameColor::Green, ICON));
    assert_eq!(corner(&game), (0, 0));
}

#[test]
fn the_player_is_drawn_bare_over_an_empty_cell() {
    let mut chunks = CharChunkMap::new();
    let mut game = Game::new(&mut chunks);
    Player::default().render(&mut game);
    assert_eq!(game.get_screen_char(2, 2), bare(ICON));
}

#[test]
fn the_player_keeps_the_whole_style_of_the_cell() {
    let style = GameStyle::new()
        .color(Some(GameColor::Red))
        .background_color(Some(GameColor::Rgb(1, 2, 3)))
        .font(Some(Font::BOLD | Font::ITALIC));
    let mut chunks = CharChunkMap::new();
    let mut game = Game::new(&mut chunks);
    game.set_screen_char(2, 2, Some(StyledCharacter::new('?').style(style.clone())));
    Player::default().render(&mut game);
    assert_eq!(
        game.get_screen_char(2, 2),
        Some(StyledCharacter::new(ICON).style(style))
    );
}

#[test]
fn the_screen_keeps_a_font_without_bits_as_no_font() {
    let mut chunks = CharChunkMap::new();
    let mut game = Game::new(&mut chunks);
    let empty_font = GameStyle::new()
        .background_color(Some(GameColor::Cyan))
        .font(Some(Font::empty()));
    game.set_screen_char(2, 2, Some(StyledCharacter::new('?').style(empty_font)));
    Player::default().render(&mut game);
    assert_eq!(game.get_screen_char(2, 2), on(GameColor::Cyan, ICON));
}

#[test]
fn the_part_in_view_follows_the_player() {
    let mut chunks = CharChunkMap::new();
    let mut game = Game::new(&mut chunks);
    game.set_viewport(ViewportLocation { x: 1, y: -18 });
    let player = Player::default();
    assert!(player.can_render(&game));
    player.render(&mut game);
    assert_eq!(corner(&game), (0, -17));
}

#[test]
fn the_part_in_view_stays_where_the_player_is_far_from_its_edge() {
    let mut chunks = CharChunkMap::new();
    let mut game = Game::new(&mut chunks);
    let player = Player::default();
    for (x, y) in [(i32::MAX, i32::MAX), (i32::MIN, i32::MIN), (0, i32::MAX), (i32::MIN, 0)] {
        game.set_viewport(ViewportLocation { x, y });
        assert!(player.can_render(&game));
        player.render(&mut game);
        assert_eq!(corner(&game), (x, y));
    }
}

#[test]
fn a_reaction_is_shown_piece_by_piece() {
    let mut chunks = CharChunkMap::new();
    let mut game = Game::new(&mut chunks);
    game.set_message(Some(Message::new(String::from("old"))));
    let player = Player::default();
    player.show(
        &mut game,
        Reaction {
            end_game: false,
            notice: NoticeChange::Keep,
            redraw: None,
        },
    );
    assert_eq!(message(&game), Some((None, String::from("old"))));
    assert!(!game.game_will_end());
    assert_eq!(game.get_screen_char(2, 2), None);
    player.show(
        &mut game,
        Reaction {
            end_game: true,
            notice: NoticeChange::Show(Notice {
                title: Some(String::from("title")),
                text: String::from("text"),
            }),
            redraw: None,
        },
    );
    assert_eq!(
        message(&game),
        Some((Some(String::from("title")), String::from("text")))
    );
    assert!(game.game_will_end());
    player.show(
        &mut game,
        Reaction {
            end_game: false,
            notice: NoticeChange::Clear,
            redraw: None,
        },
    );
    assert_eq!(message(&game), None);
    assert!(game.game_will_end());
}

#[test]
fn a_redraw_draws_the_cell_left_and_the_player() {
    let mut chunks = CharChunkMap::new();
    let mut game = Game::new(&mut chunks);
    game.set_screen_char(7, 7, bare(ICON));
    game.set_screen_char(8, 8, bare(ICON));
    let player = Player::default();
    player.show(
        &mut game,
        Reaction {
            end_game: false,
            notice: NoticeChange::Keep,
            redraw: Some(Redraw {
                left: Coordinate::new(7, 7),
                trace: Some(Block::Sand.glyph()),
            }),
        },
    );
    assert_eq!(game.get_screen_char(7, 7), on(GameColor::Yellow, ' '));
    assert_eq!(game.get_screen_char(2, 2), bare(ICON));
    player.show(
        &mut game,
        Reaction {
            end_game: false,
            notice: NoticeChange::Keep,
            redraw: Some(Redraw {
                left: Coordinate::new(8, 8),
                trace: None,
            }),
        },
    );
    assert_eq!(game.get_screen_char(8, 8), None);
    assert!(game.get_message().is_none());
}

#[test]
fn a_move_shows_on_the_screen() {
    let world = small_world();
    let mut quest = rock_quest();
    let mut player = Player::default();
    let mut chunks = CharChunkMap::new();
    let mut game = Game::new(&mut chunks);
    world.render(&mut game);
    player.render(&mut game);
    assert_eq!(game.get_screen_char(2, 2), on(GameColor::Green, ICON));
    assert!(player.can_do_move(&game, &world, CardinalDirection::East));
    player.do_move(&mut game, &world, &mut quest, CardinalDirection::East);
    assert_eq!(player.position(), Coordinate::new(3, 2));
    assert_eq!(game.get_screen_char(2, 2), on(GameColor::Green, ' '));
    assert_eq!(game.get_screen_char(3, 2), on(GameColor::Yellow, ICON));
    assert_eq!(message(&game), None);
    assert_eq!(corner(&game), (0, 0));
    assert!(!game.game_will_end());
}

#[test]
fn a_barrier_changes_nothing_on_the_screen() {
    let world = small_world();
    let mut quest = rock_quest();
    let mut player = Player::default();
    let mut chunks = CharChunkMap::new();
    let mut game = Game::new(&mut chunks);
    world.render(&mut game);
    player.render(&mut game);
    game.set_message(Some(Message::new(String::from("old"))));
    player.do_move(&mut game, &world, &mut quest, CardinalDirection::North);
    assert_eq!(player.position(), Coordinate::new(2, 2));
    assert_eq!(game.get_screen_char(2, 2), on(GameColor::Green, ICON));
    assert_eq!(game.get_screen_char(2, 1), on(GameColor::White, ' '));
    assert_eq!(message(&game), Some((None, String::from("old"))));
    assert_eq!(corner(&game), (0, 0));
}

#[test]
fn a_move_can_be_shown_wherever_the_part_in_view_is() {
    let world = small_world();
    let mut quest = rock_quest();
    let mut player = Player::default();
    let mut chunks = CharChunkMap::new();
    let mut game = Game::new(&mut chunks);
    game.set_viewport(ViewportLocation {
        x: i32::MAX,
        y: i32::MIN,
    });
    assert!(player.can_do_move(&game, &world, CardinalDirection::North));
    assert!(player.can_do_move(&game, &world, CardinalDirection::East));
    player.do_move(&mut game, &world, &mut quest, CardinalDirection::North);
    assert_eq!(player.position(), Coordinate::new(2, 2));
    player.do_move(&mut game, &world, &mut quest, CardinalDirection::East);
    assert_eq!(player.position(), Coordinate::new(3, 2));
    assert_eq!(corner(&game), (i32::MAX, i32::MIN));
}

#[test]
fn a_sign_shows_its_message_and_an_object_is_gone_once_walked_over() {
    let world = small_world();
    let mut quest = rock_quest();
    let mut player = Player::default();
    let mut chunks = CharChunkMap::new();
    let mut game = Game::new(&mut chunks);
    world.render(&mut game);
    player.render(&mut game);
    player.do_move(&mut game, &world, &mut quest, CardinalDirection::South);
    assert_eq!(message(&game), Some((None, String::from("beware"))));
    assert_eq!(game.get_screen_char(2, 3), bare(ICON));
    player.do_move(&mut game, &world, &mut quest, CardinalDirection::South);
    assert_eq!(message(&game), None);
    assert_eq!(game.get_screen_char(2, 3), bare('\u{1F4AC}'));
    assert_eq!(game.get_screen_char(2, 4), bare(ICON));
    player.do_move(&mut game, &world, &mut quest, CardinalDirection::South);
    assert_eq!(game.get_screen_char(2, 4), bare(' '));
    assert_eq!(game.get_screen_char(2, 5), bare(ICON));
    player.do_move(&mut game, &world, &mut quest, CardinalDirection::South);
    assert_eq!(game.get_screen_char(2, 5), None);
    assert_eq!(game.get_screen_char(2, 6), bare(ICON));
}

#[test]
fn the_part_in_view_moves_when_the_player_nears_its_edge() {
    let world = World::new();
    let mut quest = rock_quest();
    let mut player = Player::default();
    let mut chunks = CharChunkMap::new();
    let mut game = Game::new(&mut chunks);
    player.do_move(&mut game, &world, &mut quest, CardinalDirection::West);
    assert_eq!(corner(&game), (-1, 0));
    player.do_move(&mut game, &world, &mut quest, CardinalDirection::North);
    assert_eq!(corner(&game), (-1, -1));
    player.do_move(&mut game, &world, &mut quest, CardinalDirection::North);
    assert_eq!(corner(&game), (-1, -2));
    player.do_move(&mut game, &world, &mut quest, CardinalDirection::East);
    assert_eq!(corner(&game), (-1, -2));
}

#[test]
fn a_game_draws_its_world_and_its_player_at_the_start() {
    let adventure = Adventure::new(small_world(), parse_quest("q1").unwrap());
    let mut chunks = CharChunkMap::new();
    let mut game = Game::new(&mut chunks);
    assert!(adventure.on_start(&mut game));
    assert_eq!(game.get_screen_char(2, 2), on(GameColor::Green, ICON));
    assert_eq!(game.get_screen_char(3, 2), on(GameColor::Yellow, ' '));
    assert_eq!(game.get_screen_char(2, 4), bare('x'));
    assert_eq!(corner(&game), (0, 0));
}

#[test]
fn the_terminal_drives_the_game() {
    let mut adventure = Adventure::new(small_world(), parse_quest("q1").unwrap());
    let mut chunks = CharChunkMap::new();
    let mut game = Game::new(&mut chunks);
    assert!(adventure.on_start(&mut game));
    assert!(adventure.on_event(&mut game, pressed(KeyCode::Right)));
    assert_eq!(adventure.player.position(), Coordinate::new(3, 2));
    assert_eq!(game.get_screen_char(3, 2), on(GameColor::Yellow, ICON));
    assert!(adventure.on_event(&mut game, pressed(KeyCode::Char('q'))));
    assert_eq!(
        message(&game),
        Some((
            Some(String::from("Quest")),
            String::from("[ ] Repeat 4 times:\n\t[ ] Walk on a Sand block")
        ))
    );
    assert!(adventure.on_event(&mut game, pressed(KeyCode::Char('r'))));
    assert!(adventure.on_event(&mut game, pressed(KeyCode::Char('q'))));
    assert_eq!(
        message(&game).unwrap().1,
        "[ ] Repeat 5 times:\n\t[ ] Walk on a Sand block"
    );
    assert!(adventure.on_event(&mut game, pressed(KeyCode::Left)));
    assert_eq!(adventure.player.position(), Coordinate::new(2, 2));
    assert!(adventure.on_event(&mut game, pressed(KeyCode::Up)));
    assert_eq!(adventure.player.position(), Coordinate::new(2, 2));
    assert!(adventure.on_event(&mut game, pressed(KeyCode::Down)));
    assert_eq!(adventure.player.position(), Coordinate::new(2, 3));
    assert_eq!(message(&game), Some((None, String::from("beware"))));
}

#[test]
fn keys_held_with_control_or_alt_and_other_events_do_nothing() {
    let mut adventure = Adventure::new(small_world(), parse_quest("q1").unwrap());
    let mut chunks = CharChunkMap::new();
    let mut game = Game::new(&mut chunks);
    assert!(adventure.on_start(&mut game));
    let events: Vec<GameEvent> = vec![
        SimpleEvent::WithControl(KeyCode::Right).into(),
        SimpleEvent::WithAlt(KeyCode::Right).into(),
        SimpleEvent::WithControlAlt(KeyCode::Char('q')).into(),
        pressed(KeyCode::Enter),
        pressed(KeyCode::Char('x')),
        GameEvent::FocusGained,
        GameEvent::Resize(80, 24),
    ];
    for event in events {
        assert!(adventure.on_event(&mut game, event));
        assert_eq!(adventure.player.position(), Coordinate::new(2, 2));
        assert!(game.get_message().is_none());
        assert!(!game.game_will_end());
    }
}

#[test]
fn the_game_ends_on_the_event_after_the_win() {
    let mut world = World::new();
    for i in 0..6 {
        world.insert(3 + i, 2, Block::Sand);
    }
    let mut adventure = Adventure::new(world, parse_quest("q1").unwrap());
    let mut chunks = CharChunkMap::new();
    let mut game = Game::new(&mut chunks);
    assert!(adventure.on_start(&mut game));
    for _ in 0..5 {
        assert!(adventure.on_event(&mut game, pressed(KeyCode::Right)));
    }
    assert!(adventure.player.won);
    assert_eq!(
        message(&game),
        Some((
            Some(String::from("You won!")),
            String::from("You completed all quests! Press any key to quit")
        ))
    );
    assert!(!game.game_will_end());
    assert!(adventure.on_event(&mut game, pressed(KeyCode::Char(' '))));
    assert!(game.game_will_end());
}

#[test]
fn the_game_ends_on_the_move_after_drowning() {
    let mut world = World::new();
    for i in 0..12 {
        world.insert(3 + i, 2, Block::Water);
    }
    let mut adventure = Adventure::new(world, parse_quest("q1").unwrap());
    let mut chunks = CharChunkMap::new();
    let mut game = Game::new(&mut chunks);
    assert!(adventure.on_start(&mut game));
    for _ in 0..10 {
        assert!(adventure.on_event(&mut game, pressed(KeyCode::Right)));
    }
    assert_eq!(adventure.player.health(), 0);
    assert_eq!(message(&game), Some((None, String::from("You drowned :("))));
    assert!(!game.game_will_end());
    assert!(adventure.on_event(&mut game, pressed(KeyCode::Char('q'))));
    assert!(!game.game_will_end());
    assert!(adventure.on_event(&mut game, pressed(KeyCode::Right)));
    assert!(game.game_will_end());
}

#[test]
fn a_glyph_is_styled_by_its_background_alone() {
    assert_eq!(
        Some(styled(Glyph {
            symbol: 'a',
            background: None
        })),
        bare('a')
    );
    assert_eq!(
        Some(styled(Glyph {
            symbol: 'b',
            background: Some(Color::Magenta)
        })),
        on(GameColor::Magenta, 'b')
    );
    assert_eq!(Some(styled(Block::Water.glyph())), on(GameColor::Blue, ' '));
    assert_eq!(Some(styled(Block::Object('x').trace())), bare(' '));
}

#[test]
fn the_ends_of_the_grid_can_be_drawn() {
    let corners = [
        (i32::MIN, i32::MIN),
        (i32::MIN, i32::MAX),
        (i32::MAX, i32::MIN),
        (i32::MAX, i32::MAX),
        (-1, -1),
        (-32, 31),
        (-33, 32),
    ];
    let mut world = World::new();
    for (x, y) in corners {
        world.insert(x, y, Block::Rock);
    }
    let mut chunks = CharChunkMap::new();
    let mut game = Game::new(&mut chunks);
    world.render(&mut game);
    for (x, y) in corners {
        assert_eq!(game.get_screen_char(x, y), on(GameColor::Gray, ' '));
    }
    assert_eq!(game.get_screen_char(i32::MIN + 1, i32::MIN), None);
    assert_eq!(game.get_screen_char(0, 0), None);
}
