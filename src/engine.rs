//! What the rule engine tells the interaction layer before a click is
//! handled, and what the layer asks the engine to do afterwards.
use vstd::prelude::*;
use crate::coords::{
    algebraic_of, engine_position_of, is_algebraic, is_filerank, on_board, to_engine_coords,
    EnginePosition,
};
use crate::pieces::{PieceId, Side};

verus! {

/// The engine's report on the state of play.
#[derive(Clone, Copy, Debug, PartialEq, Eq, Structural)]
pub enum GameState {
    InProgress,
    Check,
    CheckMate,
}

/// The piece kinds a pawn can be promoted to, in the order in which the
/// choices are offered: most often chosen first.
#[derive(Clone, Copy, Debug, PartialEq, Eq, Structural)]
pub enum PromotionChoice {
    Queen,
    Knight,
    Rook,
    Bishop,
}

/// The name by which the engine knows a promotion choice.
pub open spec fn choice_name(k: PromotionChoice) -> Seq<char> {
    match k {
        PromotionChoice::Queen => "queen"@,
        PromotionChoice::Knight => "knight"@,
        PromotionChoice::Rook => "rook"@,
        PromotionChoice::Bishop => "bishop"@,
    }
}

impl PromotionChoice {
    /// The name by which the engine knows this choice.
    pub fn engine_name(&self) -> (r: &'static str)
        ensures
            r@ == choice_name(*self),
    {
        match self {
            PromotionChoice::Queen => "queen",
            PromotionChoice::Knight => "knight",
            PromotionChoice::Rook => "rook",
            PromotionChoice::Bishop => "bishop",
        }
    }
}

/// A snapshot of the engine taken just before a click is handled.
pub struct EngineView {
    /// The contents of the board, indexed by engine position:
    /// `(rank - 1) * 8 + (file - 1)`.
    pub board: Vec<Option<PieceId>>,
    /// The side to move.
    pub active: Side,
    /// Whether the game is in progress, in check or over.
    pub state: GameState,
    /// The codes of the legal destinations of the piece on the clicked
    /// square, as the engine gave them; `None` where it reported none.
    pub moves: Option<Vec<String>>,
}

/// Where an engine position sits in a board snapshot.
pub open spec fn board_index(pos: EnginePosition) -> int {
    (pos.rank - 1) * 8 + (pos.file - 1)
}

/// What stands on a cell of the grid, according to the snapshot.
pub open spec fn piece_on(v: EngineView, sq: (u8, u8)) -> Option<PieceId> {
    v.board@[board_index(engine_position_of(sq))]
}

/// The legal destinations in the snapshot, as codes; none when the engine had none.
pub open spec fn moves_of(v: EngineView) -> Seq<Seq<char>> {
    match v.moves {
        Some(ms) => ms@.map_values(|m: String| m@),
        None => Seq::empty(),
    }
}

impl EngineView {
    /// A full board, and every destination a well-formed code.
    pub open spec fn wf(&self) -> bool {
        &&& self.board@.len() == 64
        &&& forall|i: int| 0 <= i < moves_of(*self).len() ==> is_algebraic(#[trigger] moves_of(*self)[i])
    }

    /// Tells whether the snapshot is well formed.
    pub fn is_well_formed(&self) -> (r: bool)
        ensures
            r == self.wf(),
    {
        if self.board.len() != 64 {
            return false;
        }
        match &self.moves {
            None => true,
            Some(ms) => {
                let mut i: usize = 0;
                while i < ms.len()
                    invariant
                        self.moves == Some(*ms),
                        0 <= i <= ms@.len(),
                        forall|j: int| 0 <= j < i ==> is_algebraic(#[trigger] moves_of(*self)[j]),
                    decreases ms@.len() - i,
                {
                    if !is_filerank(&ms[i]) {
                        assert(!is_algebraic(moves_of(*self)[i as int]));
                        return false;
                    }
                    i += 1;
                }
                true
            },
        }
    }

    /// What stands on a cell of the grid.
    pub fn piece_at(&self, sq: (u8, u8)) -> (r: Option<PieceId>)
        requires
            self.wf(),
            on_board(sq),
        ensures
            r == piece_on(*self, sq),
    {
        let pos = to_engine_coords(&sq);
        let i = (pos.rank as usize - 1) * 8 + (pos.file as usize - 1);
        self.board[i]
    }
}

/// What the interaction layer asks of the engine.
#[derive(Debug, PartialEq, Eq)]
pub enum EngineCommand {
    /// Set the kind that the next promotion makes.
    SetPromotion(PromotionChoice),
    /// Make a move, both squares given as codes.
    Move { from: String, to: String },
    /// Start a new game.
    NewGame,
}

/// A command with its strings seen as character sequences.
pub enum CommandView {
    SetPromotion(PromotionChoice),
    Move(Seq<char>, Seq<char>),
    NewGame,
}

impl View for EngineCommand {
    type V = CommandView;

    open spec fn view(&self) -> CommandView {
        match self {
            EngineCommand::SetPromotion(k) => CommandView::SetPromotion(*k),
            EngineCommand::Move { from, to } => CommandView::Move(from@, to@),
            EngineCommand::NewGame => CommandView::NewGame,
        }
    }
}

/// A list of commands, each seen through its view.
pub open spec fn commands_view(cs: Seq<EngineCommand>) -> Seq<CommandView> {
    cs.map_values(|c: EngineCommand| c@)
}

/// The command that moves from cell `from` to cell `to`.
pub open spec fn move_between(from: (u8, u8), to: (u8, u8)) -> CommandView {
    CommandView::Move(algebraic_of(from), algebraic_of(to))
}

} // verus!
