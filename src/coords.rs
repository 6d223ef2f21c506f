//! Conversions between the three ways a square is named: a (column, row)
//! cell of the on-screen grid with row 0 at the top, a two-character code in
//! standard notation, and the engine's 1-based (file, rank) position.
use vstd::prelude::*;
use vstd::string::StrSliceExecFns;
use vstd::utf8::char_u32_cast;

verus! {

/// A grid cell lies on the board.
pub open spec fn on_board(sq: (u8, u8)) -> bool {
    sq.0 < 8 && sq.1 < 8
}

/// The code of a cell: file letter `'a' + column`, then rank digit `'8' - row`.
pub open spec fn algebraic_of(sq: (u8, u8)) -> Seq<char> {
    seq![((sq.0 + 97) as u32) as char, ((56 - sq.1) as u32) as char]
}

/// A well-formed code: a letter from 'a' to 'h', then a digit from '1' to '8'.
pub open spec fn is_algebraic(s: Seq<char>) -> bool {
    &&& s.len() == 2
    &&& 97 <= s[0] as u32 <= 104
    &&& 49 <= s[1] as u32 <= 56
}

/// The grid cell that a code names.
pub open spec fn square_of(s: Seq<char>) -> (u8, u8) {
    ((s[0] as u32 - 97) as u8, (56 - s[1] as u32) as u8)
}

/// The engine's own name for a square: 1-based file and rank, rank 1 at the bottom.
#[derive(Clone, Copy, Debug, PartialEq, Eq, Structural)]
pub struct EnginePosition {
    pub file: u8,
    pub rank: u8,
}

/// The engine position of a cell: `file = column + 1`, `rank = 8 - row`.
pub open spec fn engine_position_of(sq: (u8, u8)) -> EnginePosition {
    EnginePosition { file: (sq.0 + 1) as u8, rank: (8 - sq.1) as u8 }
}

/// A position lies on the engine's board.
pub open spec fn on_engine_board(pos: EnginePosition) -> bool {
    1 <= pos.file <= 8 && 1 <= pos.rank <= 8
}

/// The cell of an engine position.
pub open spec fn square_at_position(pos: EnginePosition) -> (u8, u8) {
    ((pos.file - 1) as u8, (8 - pos.rank) as u8)
}

/// Relies on `String::push`: the character is appended at the end.
#[verifier::external_body]
fn push_char(s: &mut String, c: char)
    ensures
        final(s)@ == old(s)@.push(c),
{
    s.push(c);
}

/// Converts a grid cell to its two-character code, file first.
pub fn num_to_filerank(coords: &(u8, u8)) -> (r: String)
    requires
        on_board(*coords),
    ensures
        r@ == algebraic_of(*coords),
        is_algebraic(r@),
{
    let file = (coords.0 + 97) as char;
    let rank = (56 - coords.1) as char;
    proof {
        char_u32_cast(file, file as u32);
        char_u32_cast(rank, rank as u32);
    }
    let mut s = String::new();
    push_char(&mut s, file);
    push_char(&mut s, rank);
    assert(s@ =~= algebraic_of(*coords));
    s
}

/// Converts a two-character code back to the grid cell it names.
pub fn filerank_to_num(filerank: &String) -> (r: (u8, u8))
    requires
        is_algebraic(filerank@),
    ensures
        r == square_of(filerank@),
        on_board(r),
{
    let s = filerank.as_str();
    let file = s.get_char(0) as u32;
    let rank = s.get_char(1) as u32;
    ((file - 97) as u8, (56 - rank) as u8)
}

/// Tells whether a string is a well-formed square code.
pub fn is_filerank(s: &String) -> (r: bool)
    ensures
        r == is_algebraic(s@),
{
    let t = s.as_str();
    if t.unicode_len() != 2 {
        return false;
    }
    let file = t.get_char(0) as u32;
    let rank = t.get_char(1) as u32;
    97 <= file && file <= 104 && 49 <= rank && rank <= 56
}

/// Converts a grid cell to the engine's position of the same square.
pub fn to_engine_coords(coords: &(u8, u8)) -> (r: EnginePosition)
    requires
        on_board(*coords),
    ensures
        r == engine_position_of(*coords),
{
    EnginePosition { file: coords.0 + 1, rank: 8 - coords.1 }
}

/// Converts an engine position back to its grid cell.
pub fn from_engine_coords(pos: &EnginePosition) -> (r: (u8, u8))
    requires
        on_engine_board(*pos),
    ensures
        r == square_at_position(*pos),
{
    (pos.file - 1, 8 - pos.rank)
}

/// Reading back the code of an on-board cell gives the cell itself.
pub proof fn lemma_filerank_round_trip(sq: (u8, u8))
    requires
        on_board(sq),
    ensures
        is_algebraic(algebraic_of(sq)),
        square_of(algebraic_of(sq)) == sq,
{
}

/// Every well-formed code is the code of the cell it names.
pub proof fn lemma_filerank_onto(s: Seq<char>)
    requires
        is_algebraic(s),
    ensures
        on_board(square_of(s)),
        algebraic_of(square_of(s)) =~= s,
{
    char_u32_cast(s[0], s[0] as u32);
    char_u32_cast(s[1], s[1] as u32);
}

/// Grid cells and engine positions correspond one to one: every cell has a
/// position on the engine's board, every such position names a cell, and the
/// two conversions undo each other.
pub proof fn lemma_engine_coords_bijective(sq: (u8, u8), pos: EnginePosition)
    requires
        on_board(sq),
        on_engine_board(pos),
    ensures
        on_engine_board(engine_position_of(sq)),
        square_at_position(engine_position_of(sq)) == sq,
        on_board(square_at_position(pos)),
        engine_position_of(square_at_position(pos)) == pos,
{
}

} // verus!
