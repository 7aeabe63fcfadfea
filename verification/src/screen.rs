//! The screen of the game, which `termgame` keeps: what it holds, and how
//! the game draws on it.
//!
//! A `termgame::Game` is the screen as the game sees it: characters in the
//! cells of a grid without bounds, the corner of the part in view, a message
//! or none, and the mark that the game is to end. This module gives each of
//! these a name, states what each call does to them, and builds the game's
//! drawing on that.

use crate::blocks::BlockView;
use crate::blocks::Color;
use crate::blocks::Glyph;
use crate::movement::coordinate::Coordinate;
use crate::reaction::Notice;
use crate::reaction::NoticeView;
use termgame::Game;
use termgame::GameColor;
use termgame::GameStyle;
use termgame::Message;
use termgame::StyledCharacter;
use termgame::ViewportLocation;
use vstd::prelude::*;

verus! {

/// `termgame::Game`, the handle on the screen that the game is given.
#[verifier::external_type_specification]
#[verifier::external_body]
pub struct ExGame<'a>(Game<'a>);

/// `termgame::StyledCharacter`, a character with the style it is shown in.
#[verifier::external_type_specification]
#[verifier::external_body]
pub struct ExStyledCharacter(StyledCharacter);

/// A colour of the terminal, as `termgame::GameColor` lists them.
pub enum Paint {
    Reset,
    Black,
    Red,
    Green,
    Yellow,
    Blue,
    Magenta,
    Cyan,
    Gray,
    DarkGray,
    LightRed,
    LightGreen,
    LightYellow,
    LightBlue,
    LightMagenta,
    LightCyan,
    White,
    Rgb(u8, u8, u8),
    Indexed(u8),
}

/// A style, as `termgame::GameStyle` holds it: the colour of the text, the
/// colour behind it, and the font as a set of bits.
pub struct Dress {
    pub color: Option<Paint>,
    pub background: Option<Paint>,
    pub font: Option<u16>,
}

/// A character and the style it is shown in, or none.
pub struct Look {
    pub symbol: char,
    pub dress: Option<Dress>,
}

impl Look {
    /// The look as the screen keeps it: a font without any bit set is kept
    /// as no font.
    pub open spec fn kept(self) -> Look {
        Look {
            symbol: self.symbol,
            dress: match self.dress {
                Some(dress) => Some(
                    Dress {
                        color: dress.color,
                        background: dress.background,
                        font: if dress.font == Some(0u16) {
                            None
                        } else {
                            dress.font
                        },
                    },
                ),
                None => None,
            },
        }
    }
}

impl Color {
    /// The colour of the terminal that this is.
    pub open spec fn paint(self) -> Paint {
        match self {
            Color::White => Paint::White,
            Color::LightRed => Paint::LightRed,
            Color::Magenta => Paint::Magenta,
            Color::Green => Paint::Green,
            Color::Gray => Paint::Gray,
            Color::Yellow => Paint::Yellow,
            Color::Blue => Paint::Blue,
        }
    }
}

impl Glyph {
    /// The look of the glyph: its character, in a style of nothing but the
    /// background if it has one, and in no style if it has none.
    pub open spec fn look(self) -> Look {
        Look {
            symbol: self.symbol,
            dress: match self.background {
                Some(color) => Some(Dress { color: None, background: Some(color.paint()), font: None }),
                None => None,
            },
        }
    }
}

/// What `piece` holds: its field `c` as the symbol, and its field `style`
/// as the dress, with the colours `color` and `background_color` and the
/// bits of `font`.
pub uninterp spec fn look_of(piece: StyledCharacter) -> Look;

/// The cells of the screen that show something, with what
/// `Game::get_screen_char` returns for each.
pub uninterp spec fn game_screen(game: &Game) -> Map<(int, int), Look>;

/// The top left cell of the part in view: what `Game::get_viewport`
/// returns.
pub uninterp spec fn game_viewport(game: &Game) -> Coordinate;

/// The message on the screen, if there is one: what `Game::get_message`
/// returns.
pub uninterp spec fn game_message(game: &Game) -> Option<NoticeView>;

/// Whether the game is to end: what `Game::game_will_end` returns.
pub uninterp spec fn game_ending(game: &Game) -> bool;

/// All that the screen holds.
pub struct ScreenView {
    /// The cells that show something, with what they show.
    pub cells: Map<(int, int), Look>,
    /// The top left cell of the part in view.
    pub viewport: Coordinate,
    /// The message, if there is one.
    pub message: Option<NoticeView>,
    /// Whether the game is to end.
    pub ending: bool,
}

/// All that the screen of `game` holds.
pub open spec fn screen_of(game: &Game) -> ScreenView {
    ScreenView {
        cells: game_screen(game),
        viewport: game_viewport(game),
        message: game_message(game),
        ending: game_ending(game),
    }
}

impl ScreenView {
    /// The screen with the cell `at` drawn again: showing `look`, or nothing
    /// if there is none.
    pub open spec fn with_cell(self, at: Coordinate, look: Option<Look>) -> ScreenView {
        ScreenView {
            cells: match look {
                Some(look) => self.cells.insert((at.x as int, at.y as int), look.kept()),
                None => self.cells.remove((at.x as int, at.y as int)),
            },
            viewport: self.viewport,
            message: self.message,
            ending: self.ending,
        }
    }

    /// What the cell `at` shows once `icon` has been drawn over it: `icon`,
    /// in the style that the cell had.
    pub open spec fn drawn_over(self, at: Coordinate, icon: char) -> Look {
        Look {
            symbol: icon,
            dress: if self.cells.contains_key((at.x as int, at.y as int)) {
                self.cells[(at.x as int, at.y as int)].dress
            } else {
                None
            },
        }
    }

    /// The screen with the blocks of `world` drawn, each in its cell. The
    /// other cells show what they did.
    pub open spec fn with_world(self, world: Map<(int, int), BlockView>) -> ScreenView {
        ScreenView {
            cells: Map::new(
                |at: (int, int)| world.contains_key(at) || self.cells.contains_key(at),
                |at: (int, int)|
                    if world.contains_key(at) {
                        world[at].glyph().look()
                    } else {
                        self.cells[at]
                    },
            ),
            viewport: self.viewport,
            message: self.message,
            ending: self.ending,
        }
    }

    /// The screen with another message, or with none.
    pub open spec fn with_message(self, message: Option<NoticeView>) -> ScreenView {
        ScreenView { cells: self.cells, viewport: self.viewport, message, ending: self.ending }
    }

    /// The screen with another part in view.
    pub open spec fn with_viewport(self, viewport: Coordinate) -> ScreenView {
        ScreenView { cells: self.cells, viewport, message: self.message, ending: self.ending }
    }

    /// The screen of a game that is to end.
    pub open spec fn ended(self) -> ScreenView {
        ScreenView { cells: self.cells, viewport: self.viewport, message: self.message, ending: true }
    }
}

/// `StyledCharacter::new`: `symbol` in no style.
#[verifier::external_body]
pub(crate) fn plain(symbol: char) -> (piece: StyledCharacter)
    ensures
        look_of(piece) == (Look { symbol, dress: None }),
{
    StyledCharacter::new(symbol)
}

/// `StyledCharacter::style`, with a style that `GameStyle::new` and
/// `GameStyle::background_color` make of `background`: the character of
/// `piece` in a style that has `background` behind the text and nothing
/// else.
#[verifier::external_body]
pub(crate) fn with_background(piece: StyledCharacter, background: Color) -> (changed: StyledCharacter)
    ensures
        look_of(changed) == (Look {
            symbol: look_of(piece).symbol,
            dress: Some(Dress { color: None, background: Some(background.paint()), font: None }),
        }),
{
    piece.style(GameStyle::new().background_color(Some(match background {
        Color::White => GameColor::White,
        Color::LightRed => GameColor::LightRed,
        Color::Magenta => GameColor::Magenta,
        Color::Green => GameColor::Green,
        Color::Gray => GameColor::Gray,
        Color::Yellow => GameColor::Yellow,
        Color::Blue => GameColor::Blue,
    })))
}

/// The styled character that shows `glyph`.
pub fn styled(glyph: Glyph) -> (piece: StyledCharacter)
    ensures
        look_of(piece) == glyph.look(),
{
    let piece = plain(glyph.symbol);
    match glyph.background {
        Some(background) => with_background(piece, background),
        None => piece,
    }
}

/// `StyledCharacter::character`: the same style around another character.
#[verifier::external_body]
pub(crate) fn with_symbol(piece: StyledCharacter, symbol: char) -> (changed: StyledCharacter)
    ensures
        look_of(changed) == (Look { symbol, dress: look_of(piece).dress }),
{
    piece.character(symbol)
}

/// `Game::get_screen_char`: what the cell `at` shows, if it shows anything.
#[verifier::external_body]
pub(crate) fn screen_char(game: &Game, at: Coordinate) -> (found: Option<StyledCharacter>)
    ensures
        match found {
            Some(piece) => game_screen(game).contains_key((at.x as int, at.y as int)) && look_of(piece)
                == game_screen(game)[(at.x as int, at.y as int)],
            None => !game_screen(game).contains_key((at.x as int, at.y as int)),
        },
{
    game.get_screen_char(at.x, at.y)
}

/// `Game::set_screen_char`: puts `piece` into the cell `at`, or empties the
/// cell if there is none. The screen keeps the character and its style,
/// but for a font without a bit set. Nothing else on the screen changes.
#[verifier::external_body]
pub(crate) fn set_screen_char(game: &mut Game, at: Coordinate, piece: Option<StyledCharacter>)
    ensures
        game_screen(final(game)) == match piece {
            Some(piece) => game_screen(old(game)).insert((at.x as int, at.y as int), look_of(piece).kept()),
            None => game_screen(old(game)).remove((at.x as int, at.y as int)),
        },
        game_viewport(final(game)) == game_viewport(old(game)),
        game_message(final(game)) == game_message(old(game)),
        game_ending(final(game)) == game_ending(old(game)),
{
    game.set_screen_char(at.x, at.y, piece)
}

/// `Game::get_viewport`: the top left cell of the part in view.
#[verifier::external_body]
pub(crate) fn viewport(game: &Game) -> (corner: Coordinate)
    ensures
        corner == game_viewport(game),
{
    let corner = game.get_viewport();
    Coordinate { x: corner.x, y: corner.y }
}

/// `Game::set_viewport`: moves the part in view so that `corner` is its top
/// left cell. Nothing else on the screen changes.
#[verifier::external_body]
pub(crate) fn set_viewport(game: &mut Game, corner: Coordinate)
    ensures
        game_viewport(final(game)) == corner,
        game_screen(final(game)) == game_screen(old(game)),
        game_message(final(game)) == game_message(old(game)),
        game_ending(final(game)) == game_ending(old(game)),
{
    game.set_viewport(ViewportLocation { x: corner.x, y: corner.y })
}

/// `Game::set_message`: shows `notice` as the message, or takes the message
/// away if there is none. Nothing else on the screen changes.
#[verifier::external_body]
pub(crate) fn set_message(game: &mut Game, notice: Option<Notice>)
    ensures
        game_message(final(game)) == match notice {
            Some(notice) => Some(notice@),
            None => None,
        },
        game_screen(final(game)) == game_screen(old(game)),
        game_viewport(final(game)) == game_viewport(old(game)),
        game_ending(final(game)) == game_ending(old(game)),
{
    game.set_message(notice.map(|notice| Message { title: notice.title, text: notice.text }))
}

/// `Game::end_game`: marks the game as one that is to end. Nothing else on
/// the screen changes.
#[verifier::external_body]
pub(crate) fn end_game(game: &mut Game)
    ensures
        game_ending(final(game)),
        game_screen(final(game)) == game_screen(old(game)),
        game_viewport(final(game)) == game_viewport(old(game)),
        game_message(final(game)) == game_message(old(game)),
{
    game.end_game()
}

} // verus!
