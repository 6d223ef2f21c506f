//! What the board window shows, computed from the state: the status caption,
//! the checkerboard, and where icons go.
use vstd::prelude::*;
use crate::engine::{GameState, PromotionChoice};
use crate::interaction::band_of;
use crate::pieces::Side;

verus! {

/// The status caption for a game state and the side to move. Black's
/// players are the Haskellers, White's the Rustaceans.
pub open spec fn status_caption(state: GameState, current_colour: Side) -> Seq<char> {
    match state {
        GameState::InProgress => if current_colour == Side::Black {
            "Haskeller's turn!"@
        } else {
            "Rustacean's turn!"@
        },
        GameState::Check => "It's Check!!!"@,
        GameState::CheckMate => if current_colour == Side::Black {
            "Farewell Haskell!"@
        } else {
            "Rust lost? PANIC!"@
        },
    }
}

/// The caption that tells the state of the game and whose turn it is.
pub fn prepare_text(state: GameState, current_colour: Side) -> (r: &'static str)
    ensures
        r@ == status_caption(state, current_colour),
{
    match state {
        GameState::InProgress => match current_colour {
            Side::Black => "Haskeller's turn!",
            Side::White => "Rustacean's turn!",
        },
        GameState::Check => "It's Check!!!",
        GameState::CheckMate => match current_colour {
            Side::Black => "Farewell Haskell!",
            Side::White => "Rust lost? PANIC!",
        },
    }
}

/// Whether the tile at (row, col) takes the lighter of the two shades: the
/// top-left tile is light and the shades alternate along rows and columns.
pub fn is_light_tile(row: i32, col: i32) -> (r: bool)
    requires
        0 <= row < 8,
        0 <= col < 8,
    ensures
        r == ((row + col) % 2 == 0),
{
    if col % 2 == 0 {
        row % 2 == 0
    } else {
        row % 2 != 0
    }
}

/// Pixel column of the `index`-th icon in a side's capture tray: White's
/// tray fills from the left edge, Black's from the right, 20 pixels apart.
pub fn tray_slot_x(side: Side, index: u32) -> (r: i64)
    ensures
        r == match side {
            Side::White => 10 + 20 * index,
            Side::Black => 670 - 20 * index,
        },
{
    match side {
        Side::White => 10 + 20 * index as i64,
        Side::Black => 670 - 20 * index as i64,
    }
}

/// Pixel column of the icon of a promotion choice.
pub open spec fn icon_x(k: PromotionChoice) -> int {
    match k {
        PromotionChoice::Queen => 0,
        PromotionChoice::Knight => 90,
        PromotionChoice::Rook => 180,
        PromotionChoice::Bishop => 270,
    }
}

/// Pixel column of the icon of a promotion choice, left to right in the
/// order of the choice bands.
pub fn choice_icon_x(k: PromotionChoice) -> (r: i32)
    ensures
        r == icon_x(k),
{
    match k {
        PromotionChoice::Queen => 0,
        PromotionChoice::Knight => 90,
        PromotionChoice::Rook => 180,
        PromotionChoice::Bishop => 270,
    }
}

/// Each choice's icon lies in the band that selects that choice.
pub proof fn lemma_icon_in_own_band(k: PromotionChoice)
    ensures
        band_of(icon_x(k)) == Some(k),
{
}

} // verus!
