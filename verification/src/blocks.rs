//! The terrain blocks that the world is made of.

use vstd::prelude::*;

verus! {

/// One cell of terrain.
#[derive(Debug)]
pub enum Block {
    Barrier,
    Cinderblock,
    Flowerbush,
    Grass,
    Object(char),
    Rock,
    Sand,
    Sign(String),
    Water,
}

/// What a [`Block`] is, with the text of a sign as a sequence of characters.
pub enum BlockView {
    Barrier,
    Cinderblock,
    Flowerbush,
    Grass,
    Object(char),
    Rock,
    Sand,
    Sign(Seq<char>),
    Water,
}

/// The colours that blocks are drawn on.
#[derive(Debug, Copy, Clone, PartialEq, Eq, Structural)]
pub enum Color {
    White,
    LightRed,
    Magenta,
    Green,
    Gray,
    Yellow,
    Blue,
}

/// How a cell of the screen looks: a character, on a background colour or on
/// none.
#[derive(Debug, Copy, Clone, PartialEq, Eq, Structural)]
pub struct Glyph {
    pub symbol: char,
    pub background: Option<Color>,
}

impl View for Block {
    type V = BlockView;

    open spec fn view(&self) -> BlockView {
        match self {
            Block::Barrier => BlockView::Barrier,
            Block::Cinderblock => BlockView::Cinderblock,
            Block::Flowerbush => BlockView::Flowerbush,
            Block::Grass => BlockView::Grass,
            Block::Object(symbol) => BlockView::Object(*symbol),
            Block::Rock => BlockView::Rock,
            Block::Sand => BlockView::Sand,
            Block::Sign(message) => BlockView::Sign(message@),
            Block::Water => BlockView::Water,
        }
    }
}

impl BlockView {
    /// How the block is drawn: most as a blank on the colour of their kind,
    /// an object as its own character, a sign as a speech balloon.
    pub open spec fn glyph(self) -> Glyph {
        match self {
            BlockView::Barrier => Glyph { symbol: ' ', background: Some(Color::White) },
            BlockView::Cinderblock => Glyph { symbol: ' ', background: Some(Color::LightRed) },
            BlockView::Flowerbush => Glyph { symbol: ' ', background: Some(Color::Magenta) },
            BlockView::Grass => Glyph { symbol: ' ', background: Some(Color::Green) },
            BlockView::Object(symbol) => Glyph { symbol, background: None },
            BlockView::Rock => Glyph { symbol: ' ', background: Some(Color::Gray) },
            BlockView::Sand => Glyph { symbol: ' ', background: Some(Color::Yellow) },
            BlockView::Sign(_) => Glyph { symbol: '\u{1F4AC}', background: None },
            BlockView::Water => Glyph { symbol: ' ', background: Some(Color::Blue) },
        }
    }

    /// How the cell of the block is drawn once it has been walked over: an
    /// object is gone from sight, and every other block is drawn as before.
    pub open spec fn trace(self) -> Glyph {
        if self is Object {
            Glyph { symbol: ' ', background: None }
        } else {
            self.glyph()
        }
    }

    /// The name of the block in a line of text.
    pub open spec fn text(self) -> Seq<char> {
        match self {
            BlockView::Barrier => "Barrier"@,
            BlockView::Cinderblock => "Cinderblock"@,
            BlockView::Flowerbush => "Flowerbush"@,
            BlockView::Grass => "Grass"@,
            BlockView::Object(symbol) => "'"@.push(symbol) + "'"@,
            BlockView::Rock => "Rock"@,
            BlockView::Sand => "Sand"@,
            BlockView::Sign(message) => "Sign(\""@ + message + "\")"@,
            BlockView::Water => "Water"@,
        }
    }
}

impl PartialEq for Block {
    fn eq(&self, other: &Block) -> (equal: bool) {
        match self {
            Block::Barrier => matches!(other, Block::Barrier),
            Block::Cinderblock => matches!(other, Block::Cinderblock),
            Block::Flowerbush => matches!(other, Block::Flowerbush),
            Block::Grass => matches!(other, Block::Grass),
            Block::Object(mine) => match other {
                Block::Object(theirs) => *mine == *theirs,
                _ => false,
            },
            Block::Rock => matches!(other, Block::Rock),
            Block::Sand => matches!(other, Block::Sand),
            Block::Sign(mine) => match other {
                Block::Sign(theirs) => *mine == *theirs,
                _ => false,
            },
            Block::Water => matches!(other, Block::Water),
        }
    }
}

impl vstd::std_specs::cmp::PartialEqSpecImpl for Block {
    open spec fn obeys_eq_spec() -> bool {
        true
    }

    open spec fn eq_spec(&self, other: &Block) -> bool {
        self@ == other@
    }
}

impl Eq for Block {}

impl Clone for Block {
    fn clone(&self) -> (copy: Block)
        ensures
            copy@ == self@,
    {
        match self {
            Block::Barrier => Block::Barrier,
            Block::Cinderblock => Block::Cinderblock,
            Block::Flowerbush => Block::Flowerbush,
            Block::Grass => Block::Grass,
            Block::Object(symbol) => Block::Object(*symbol),
            Block::Rock => Block::Rock,
            Block::Sand => Block::Sand,
            Block::Sign(message) => Block::Sign(message.clone()),
            Block::Water => Block::Water,
        }
    }
}

impl Block {
    /// Whether the block stops whoever tries to step onto it.
    pub fn blocks_movement(&self) -> (blocked: bool)
        ensures
            blocked == (self@ is Barrier),
    {
        matches!(self, Block::Barrier)
    }

    /// The health that stepping onto the block costs.
    pub fn damage(&self) -> (cost: i32)
        ensures
            cost == if self@ is Water { 1i32 } else { 0i32 },
    {
        match self {
            Block::Water => 1,
            _ => 0,
        }
    }

    /// How the block is drawn.
    pub fn glyph(&self) -> (look: Glyph)
        ensures
            look == self@.glyph(),
    {
        match self {
            Block::Barrier => Glyph { symbol: ' ', background: Some(Color::White) },
            Block::Cinderblock => Glyph { symbol: ' ', background: Some(Color::LightRed) },
            Block::Flowerbush => Glyph { symbol: ' ', background: Some(Color::Magenta) },
            Block::Grass => Glyph { symbol: ' ', background: Some(Color::Green) },
            Block::Object(symbol) => Glyph { symbol: *symbol, background: None },
            Block::Rock => Glyph { symbol: ' ', background: Some(Color::Gray) },
            Block::Sand => Glyph { symbol: ' ', background: Some(Color::Yellow) },
            Block::Sign(_) => Glyph { symbol: '\u{1F4AC}', background: None },
            Block::Water => Glyph { symbol: ' ', background: Some(Color::Blue) },
        }
    }

    /// How the cell of the block is drawn once it has been walked over.
    pub fn trace(&self) -> (look: Glyph)
        ensures
            look == self@.trace(),
    {
        match self {
            Block::Object(_) => Glyph { symbol: ' ', background: None },
            _ => self.glyph(),
        }
    }

    /// The name of the block in a line of text.
    pub fn describe(&self) -> (text: String)
        ensures
            text@ == self@.text(),
    {
        match self {
            Block::Barrier => "Barrier".to_owned(),
            Block::Cinderblock => "Cinderblock".to_owned(),
            Block::Flowerbush => "Flowerbush".to_owned(),
            Block::Grass => "Grass".to_owned(),
            Block::Object(symbol) => {
                let mut text = "'".to_owned();
                text.push(*symbol);
                text.append("'");
                text
            },
            Block::Rock => "Rock".to_owned(),
            Block::Sand => "Sand".to_owned(),
            Block::Sign(message) => {
                let mut text = "Sign(\"".to_owned();
                text.append(message.as_str());
                text.append("\")");
                text
            },
            Block::Water => "Water".to_owned(),
        }
    }

    /// The text shown to whoever steps onto the block, if it has any.
    pub fn message(&self) -> (text: Option<String>)
        ensures
            match self@ {
                BlockView::Sign(written) => text matches Some(shown) && shown@ == written,
                _ => text is None,
            },
    {
        match self {
            Block::Sign(message) => Some(message.clone()),
            _ => None,
        }
    }
}

} // verus!
