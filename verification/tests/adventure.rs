use adventurers::adventure::parse_quest;
use adventurers::Adventure;
use adventurers::Block;
use adventurers::CardinalDirection;
use adventurers::Command;
use adventurers::Coordinate;
use adventurers::Key;
use adventurers::NoticeChange;
use adventurers::QuestStatus;
use adventurers::World;

#[test]
fn arrows_move_and_two_letters_ask_about_the_quest() {
    assert_eq!(Key::Up.to_command(), Command::Move(CardinalDirection::North));
    assert_eq!(Key::Right.to_command(), Command::Move(CardinalDirection::East));
    assert_eq!(Key::Down.to_command(), Command::Move(CardinalDirection::South));
    assert_eq!(Key::Left.to_command(), Command::Move(CardinalDirection::West));
    assert_eq!(Key::Char('q').to_command(), Command::ShowQuest);
    assert_eq!(Key::Char('r').to_command(), Command::ResetQuest);
    assert_eq!(Key::Char('Q').to_command(), Command::Ignore);
    assert_eq!(Key::Char('x').to_command(), Command::Ignore);
    assert_eq!(Key::Other.to_command(), Command::Ignore);
}

#[test]
fn three_names_have_a_quest() {
    assert_eq!(
        parse_quest("q1").unwrap().render(),
        "[ ] Repeat 5 times:\n\t[ ] Walk on a Sand block"
    );
    assert_eq!(
        parse_quest("q2").unwrap().render(),
        "[ ] You must, in order, complete each of these quests:\n\
         \t[ ] Repeat 5 times:\n\
         \t\t[ ] Walk on a 'x' block\n\
         \t[ ] Repeat 3 times:\n\
         \t\t[ ] Walk on a 'y' block"
    );
    assert_eq!(
        parse_quest("q3").unwrap().render(),
        "[ ] You must complete at least 2 of these quests:\n\
         \t[ ] You must, in order, complete each of these quests:\n\
         \t\t[ ] Repeat 5 times:\n\
         \t\t\t[ ] Walk on a Sand block\n\
         \t\t[ ] Walk on a 'x' block\n\
         \t[ ] You must, in order, complete each of these quests:\n\
         \t\t[ ] Walk on a 'x' block\n\
         \t\t[ ] Walk on a Grass block\n\
         \t[ ] Repeat 2 times:\n\
         \t\t[ ] Walk on exactly 9 blocks of Water in a row"
    );
}

#[test]
fn no_other_name_has_a_quest() {
    assert!(parse_quest("").is_none());
    assert!(parse_quest("q").is_none());
    assert!(parse_quest("q4").is_none());
    assert!(parse_quest("Q1").is_none());
    assert!(parse_quest("q1 ").is_none());
    assert!(parse_quest("q11").is_none());
}

fn sandy_game() -> Adventure {
    let mut world = World::new();
    for i in 0..6 {
        world.insert(3 + i, 2, Block::Sand);
    }
    world.insert(2, 1, Block::Barrier);
    Adventure::new(world, parse_quest("q1").unwrap())
}

#[test]
fn a_game_starts_with_the_player_at_the_start() {
    let game = sandy_game();
    assert_eq!(game.player.position(), Coordinate::new(2, 2));
    assert_eq!(game.player.health(), 10);
    assert!(!game.player.won);
    assert_eq!(game.quest.status(), QuestStatus::Ongoing);
}

#[test]
fn an_arrow_key_moves_the_player() {
    let mut game = sandy_game();
    let reaction = game.react(Key::Right);
    assert_eq!(game.player.position(), Coordinate::new(3, 2));
    assert!(matches!(reaction.notice, NoticeChange::Clear));
    assert!(reaction.redraw.is_some());
    let reaction = game.react(Key::Left);
    assert_eq!(game.player.position(), Coordinate::new(2, 2));
    assert!(matches!(reaction.notice, NoticeChange::Keep));
    let reaction = game.react(Key::Up);
    assert_eq!(game.player.position(), Coordinate::new(2, 2));
    assert!(reaction.redraw.is_none());
    game.react(Key::Down);
    assert_eq!(game.player.position(), Coordinate::new(2, 3));
}

#[test]
fn the_quest_key_shows_the_report() {
    let mut game = sandy_game();
    game.react(Key::Right);
    let reaction = game.react(Key::Char('q'));
    match reaction.notice {
        NoticeChange::Show(notice) => {
            assert_eq!(notice.title, Some(String::from("Quest")));
            assert_eq!(notice.text, "[ ] Repeat 4 times:\n\t[ ] Walk on a Sand block");
        }
        _ => panic!("the report is not shown"),
    }
    assert!(reaction.redraw.is_none());
    assert!(!reaction.end_game);
    assert_eq!(game.player.position(), Coordinate::new(3, 2));
}

#[test]
fn the_reset_key_starts_the_quest_afresh() {
    let mut game = sandy_game();
    game.react(Key::Right);
    game.react(Key::Right);
    let reaction = game.react(Key::Char('r'));
    assert!(matches!(reaction.notice, NoticeChange::Keep));
    assert_eq!(
        game.quest.render(),
        "[ ] Repeat 5 times:\n\t[ ] Walk on a Sand block"
    );
    assert_eq!(game.player.position(), Coordinate::new(4, 2));
}

#[test]
fn other_keys_do_nothing() {
    let mut game = sandy_game();
    let before = game.quest.render();
    for key in [Key::Other, Key::Char('x'), Key::Char(' ')] {
        let reaction = game.react(key);
        assert!(matches!(reaction.notice, NoticeChange::Keep));
        assert!(reaction.redraw.is_none());
        assert!(!reaction.end_game);
    }
    assert_eq!(game.player.position(), Coordinate::new(2, 2));
    assert_eq!(game.quest.render(), before);
}

#[test]
fn every_key_after_the_win_ends_the_game() {
    let mut game = sandy_game();
    for _ in 0..4 {
        let reaction = game.react(Key::Right);
        assert!(!reaction.end_game);
        assert!(!game.player.won);
    }
    let reaction = game.react(Key::Right);
    assert!(game.player.won);
    assert!(!reaction.end_game);
    for key in [Key::Other, Key::Char('q'), Key::Char('r'), Key::Right] {
        assert!(game.react(key).end_game);
    }
}
