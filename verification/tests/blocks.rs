use adventurers::Block;
use adventurers::Color;
use adventurers::Glyph;

fn all_blocks() -> Vec<Block> {
    vec![
        Block::Barrier,
        Block::Cinderblock,
        Block::Flowerbush,
        Block::Grass,
        Block::Object('x'),
        Block::Rock,
        Block::Sand,
        Block::Sign(String::from("hello")),
        Block::Water,
    ]
}

#[test]
fn only_a_barrier_blocks_movement() {
    for block in all_blocks() {
        assert_eq!(block.blocks_movement(), block == Block::Barrier);
    }
}

#[test]
fn only_water_does_damage() {
    for block in all_blocks() {
        let expected = if block == Block::Water { 1 } else { 0 };
        assert_eq!(block.damage(), expected);
    }
}

#[test]
fn only_a_sign_has_a_message() {
    assert_eq!(
        Block::Sign(String::from("hello")).message(),
        Some(String::from("hello"))
    );
    assert_eq!(Block::Sign(String::new()).message(), Some(String::new()));
    assert_eq!(Block::Sand.message(), None);
    assert_eq!(Block::Object('x').message(), None);
}

#[test]
fn blocks_are_equal_when_kind_and_content_are() {
    let blocks = all_blocks();
    for (i, first) in blocks.iter().enumerate() {
        for (j, second) in blocks.iter().enumerate() {
            assert_eq!(first == second, i == j);
        }
    }
    assert!(Block::Object('x') != Block::Object('y'));
    assert!(Block::Sign(String::from("a")) != Block::Sign(String::from("b")));
    assert!(Block::Sign(String::from("a")) == Block::Sign(String::from("a")));
}

#[test]
fn a_clone_is_equal_to_its_block() {
    for block in all_blocks() {
        assert!(block.clone() == block);
    }
}

#[test]
fn blocks_are_named_by_kind_and_content() {
    let names: Vec<String> = all_blocks().iter().map(|block| block.describe()).collect();
    assert_eq!(
        names,
        vec![
            "Barrier",
            "Cinderblock",
            "Flowerbush",
            "Grass",
            "'x'",
            "Rock",
            "Sand",
            "Sign(\"hello\")",
            "Water",
        ]
    );
}

#[test]
fn blocks_are_drawn_by_kind() {
    let on = |background| Glyph {
        symbol: ' ',
        background: Some(background),
    };
    assert_eq!(Block::Barrier.glyph(), on(Color::White));
    assert_eq!(Block::Cinderblock.glyph(), on(Color::LightRed));
    assert_eq!(Block::Flowerbush.glyph(), on(Color::Magenta));
    assert_eq!(Block::Grass.glyph(), on(Color::Green));
    assert_eq!(Block::Rock.glyph(), on(Color::Gray));
    assert_eq!(Block::Sand.glyph(), on(Color::Yellow));
    assert_eq!(Block::Water.glyph(), on(Color::Blue));
    assert_eq!(
        Block::Object('x').glyph(),
        Glyph {
            symbol: 'x',
            background: None
        }
    );
    assert_eq!(
        Block::Sign(String::from("hello")).glyph(),
        Glyph {
            symbol: '\u{1F4AC}',
            background: None
        }
    );
}

#[test]
fn an_object_leaves_no_trace_and_other_blocks_stay() {
    assert_eq!(
        Block::Object('x').trace(),
        Glyph {
            symbol: ' ',
            background: None
        }
    );
    for block in all_blocks() {
        if block != Block::Object('x') {
            assert_eq!(block.trace(), block.glyph());
        }
    }
}
