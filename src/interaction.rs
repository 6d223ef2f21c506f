//! The click-to-move state machine: selection, moves, captures, the
//! promotion choice and the reset after checkmate.
use vstd::prelude::*;
use crate::coords::{
    algebraic_of, filerank_to_num, is_algebraic, is_filerank, num_to_filerank, on_board, square_of,
};
use crate::engine::{
    commands_view, move_between, moves_of, piece_on, CommandView, EngineCommand, EngineView,
    GameState, PromotionChoice,
};
use crate::ledger::{CaptureLedger, LedgerView};
use crate::pieces::{is_promotion_move, reaches_promotion_row, PieceId};

verus! {

/// Height of the board on screen, in pixels: clicks above it are board clicks.
pub const BOARD_PIXELS: i32 = 720;

/// Width and height of one cell of the grid, in pixels.
pub const CELL_PIXELS: i32 = 90;

/// Top of the row of promotion choices, in pixels.
pub const CHOICE_TOP: i32 = 740;

/// Bottom of the row of promotion choices, in pixels.
pub const CHOICE_BOTTOM: i32 = 850;

/// A move held back until the promotion choice is made; both squares as codes.
pub struct PendingMove {
    pub from: String,
    pub to: String,
}

/// The state of the interaction, seen as mathematical values.
pub struct Interaction {
    /// Destinations highlighted for the selected piece.
    pub legal: Seq<(u8, u8)>,
    /// The cell that began the current selection.
    pub previous_click: Option<(u8, u8)>,
    /// A pawn move waits for the promotion choice.
    pub promoting: bool,
    /// Code of the square the waiting move starts from; empty when none waits.
    pub pending_from: Seq<char>,
    /// Code of the square the waiting move goes to; empty when none waits.
    pub pending_to: Seq<char>,
    /// The pieces each side has lost.
    pub deaths: LedgerView,
}

impl Interaction {
    /// The state at the start of a game: nothing selected, nothing
    /// highlighted, no promotion waiting, no captures.
    pub open spec fn initial() -> Interaction {
        Interaction {
            legal: Seq::empty(),
            previous_click: None,
            promoting: false,
            pending_from: Seq::empty(),
            pending_to: Seq::empty(),
            deaths: LedgerView::empty(),
        }
    }

    /// Cells lie on the board, highlights exist only under a selection, and
    /// a waiting move names two squares.
    pub open spec fn wf(self) -> bool {
        &&& (self.previous_click matches Some(sq) ==> on_board(sq))
        &&& forall|i: int| 0 <= i < self.legal.len() ==> on_board(#[trigger] self.legal[i])
        &&& (self.legal.len() > 0 ==> self.previous_click is Some)
        &&& (self.promoting ==> is_algebraic(self.pending_from) && is_algebraic(self.pending_to))
    }
}

/// The cells named by the engine's destination codes, in the same order.
pub open spec fn cells_of(moves: Seq<Seq<char>>) -> Seq<(u8, u8)> {
    moves.map_values(|m: Seq<char>| square_of(m))
}

/// The ledger after a move to `sq`: a piece of the side not to move that
/// stands there is recorded as lost.
pub open spec fn record_taken(d: LedgerView, v: EngineView, sq: (u8, u8)) -> LedgerView {
    match piece_on(v, sq) {
        Some(p) => if p.side != v.active {
            d.record(p)
        } else {
            d
        },
        None => d,
    }
}

/// The grid cell under a pixel of the board.
pub open spec fn square_at_pixel(x: int, y: int) -> (u8, u8) {
    ((x / 90) as u8, (y / 90) as u8)
}

/// A pixel row lies in the row of promotion choices.
pub open spec fn in_choice_row(y: int) -> bool {
    740 <= y <= 850
}

/// The promotion choice whose band holds pixel column `x`: the choices sit
/// in the first four columns of the grid, 90 pixels each, left to right
/// Queen, Knight, Rook, Bishop.
pub open spec fn band_of(x: int) -> Option<PromotionChoice> {
    if 0 <= x < 90 {
        Some(PromotionChoice::Queen)
    } else if 90 <= x < 180 {
        Some(PromotionChoice::Knight)
    } else if 180 <= x < 270 {
        Some(PromotionChoice::Rook)
    } else if 270 <= x < 360 {
        Some(PromotionChoice::Bishop)
    } else {
        None
    }
}

/// The state after the selected piece moved to `to` and the move was
/// committed: the capture is recorded, nothing stays selected.
pub open spec fn after_commit(m: Interaction, v: EngineView, to: (u8, u8)) -> Interaction {
    Interaction {
        legal: Seq::empty(),
        previous_click: None,
        deaths: record_taken(m.deaths, v, to),
        ..m
    }
}

/// A click on cell `sq` of the board: the next state and the commands for
/// the engine.
pub open spec fn board_click(m: Interaction, sq: (u8, u8), v: EngineView) -> (
    Interaction,
    Seq<CommandView>,
) {
    if m.promoting || m.previous_click == Some(sq) {
        (m, Seq::empty())
    } else if m.previous_click is Some && m.legal.contains(sq) {
        let from = m.previous_click->0;
        if piece_on(v, from) matches Some(p) && reaches_promotion_row(p, sq.1) {
            (
                Interaction {
                    promoting: true,
                    pending_from: algebraic_of(from),
                    pending_to: algebraic_of(sq),
                    ..m
                },
                Seq::empty(),
            )
        } else {
            (after_commit(m, v, sq), seq![move_between(from, sq)])
        }
    } else {
        (Interaction { legal: cells_of(moves_of(v)), previous_click: Some(sq), ..m }, Seq::empty())
    }
}

/// A click below the board at pixel (x, y).
pub open spec fn below_click(m: Interaction, x: int, y: int, v: EngineView) -> (
    Interaction,
    Seq<CommandView>,
) {
    if m.promoting && in_choice_row(y) {
        let choice: Seq<CommandView> = match band_of(x) {
            Some(k) => seq![CommandView::SetPromotion(k)],
            None => Seq::empty(),
        };
        (
            Interaction {
                promoting: false,
                pending_from: Seq::empty(),
                pending_to: Seq::empty(),
                ..after_commit(m, v, square_of(m.pending_to))
            },
            choice.push(CommandView::Move(m.pending_from, m.pending_to)),
        )
    } else if v.state == GameState::CheckMate {
        (Interaction::initial(), seq![CommandView::NewGame])
    } else {
        (m, Seq::empty())
    }
}

/// A pointer release at pixel (x, y): the next state and the commands for
/// the engine, in the order in which they are to be carried out.
pub open spec fn release_step(m: Interaction, x: int, y: int, v: EngineView) -> (
    Interaction,
    Seq<CommandView>,
) {
    if y < 720 {
        board_click(m, square_at_pixel(x, y), v)
    } else {
        below_click(m, x, y, v)
    }
}

/// The grid cell under a pixel of the board.
pub fn square_at(x: i32, y: i32) -> (r: (u8, u8))
    requires
        0 <= x < 720,
        0 <= y < 720,
    ensures
        r == square_at_pixel(x as int, y as int),
        on_board(r),
{
    ((x / CELL_PIXELS) as u8, (y / CELL_PIXELS) as u8)
}

/// The promotion choice whose band holds pixel column `x`, if any.
pub fn promotion_band(x: i32) -> (r: Option<PromotionChoice>)
    ensures
        r == band_of(x as int),
{
    if 0 <= x && x < CELL_PIXELS {
        Some(PromotionChoice::Queen)
    } else if CELL_PIXELS <= x && x < 2 * CELL_PIXELS {
        Some(PromotionChoice::Knight)
    } else if 2 * CELL_PIXELS <= x && x < 3 * CELL_PIXELS {
        Some(PromotionChoice::Rook)
    } else if 3 * CELL_PIXELS <= x && x < 4 * CELL_PIXELS {
        Some(PromotionChoice::Bishop)
    } else {
        None
    }
}

/// The interaction state of the board window.
pub struct AppState {
    legal: Vec<(u8, u8)>,
    previous_click: Option<(u8, u8)>,
    promoting: bool,
    pending_promotion_move: PendingMove,
    deaths: CaptureLedger,
}

impl View for AppState {
    type V = Interaction;

    closed spec fn view(&self) -> Interaction {
        Interaction {
            legal: self.legal@,
            previous_click: self.previous_click,
            promoting: self.promoting,
            pending_from: self.pending_promotion_move.from@,
            pending_to: self.pending_promotion_move.to@,
            deaths: self.deaths@,
        }
    }
}

impl AppState {
    /// The state at the start of a game.
    pub fn new() -> (r: AppState)
        ensures
            r@ == Interaction::initial(),
            r@.wf(),
    {
        AppState {
            legal: Vec::new(),
            previous_click: None,
            promoting: false,
            pending_promotion_move: PendingMove { from: String::new(), to: String::new() },
            deaths: CaptureLedger::new(),
        }
    }

    /// The destinations highlighted for the selected piece.
    pub fn legal_destinations(&self) -> (r: &Vec<(u8, u8)>)
        ensures
            r@ == self@.legal,
    {
        &self.legal
    }

    /// The cell that began the current selection.
    pub fn previous_click(&self) -> (r: Option<(u8, u8)>)
        ensures
            r == self@.previous_click,
    {
        self.previous_click
    }

    /// Whether a pawn move waits for the promotion choice.
    pub fn is_promoting(&self) -> (r: bool)
        ensures
            r == self@.promoting,
    {
        self.promoting
    }

    /// The move that waits for the promotion choice.
    pub fn pending_move(&self) -> (r: &PendingMove)
        ensures
            r.from@ == self@.pending_from,
            r.to@ == self@.pending_to,
    {
        &self.pending_promotion_move
    }

    /// The pieces each side has lost.
    pub fn captures(&self) -> (r: &CaptureLedger)
        ensures
            r@ == self@.deaths,
    {
        &self.deaths
    }

    /// Whether `sq` is highlighted as a destination of the selected piece.
    pub fn is_legal_destination(&self, sq: (u8, u8)) -> (r: bool)
        ensures
            r == self@.legal.contains(sq),
    {
        let mut i: usize = 0;
        while i < self.legal.len()
            invariant
                0 <= i <= self.legal@.len(),
                forall|j: int| 0 <= j < i ==> self.legal@[j] != sq,
            decreases self.legal@.len() - i,
        {
            let cand = self.legal[i];
            if cand.0 == sq.0 && cand.1 == sq.1 {
                return true;
            }
            i += 1;
        }
        false
    }

    /// Tells whether the state is well formed.
    pub fn is_well_formed(&self) -> (r: bool)
        ensures
            r == self@.wf(),
    {
        match self.previous_click {
            Some(sq) => if !(sq.0 < 8 && sq.1 < 8) {
                return false;
            },
            None => if self.legal.len() > 0 {
                return false;
            },
        }
        let mut i: usize = 0;
        while i < self.legal.len()
            invariant
                0 <= i <= self.legal@.len(),
                forall|j: int| 0 <= j < i ==> on_board(#[trigger] self.legal@[j]),
            decreases self.legal@.len() - i,
        {
            let sq = self.legal[i];
            if !(sq.0 < 8 && sq.1 < 8) {
                assert(!on_board(self@.legal[i as int]));
                return false;
            }
            i += 1;
        }
        if self.promoting {
            is_filerank(&self.pending_promotion_move.from) && is_filerank(&self.pending_promotion_move.to)
        } else {
            true
        }
    }
}

impl AppState {
    /// Starts a fresh selection at `sq`: the highlights become the engine's
    /// destinations for it.
    fn select(&mut self, sq: (u8, u8), view: &EngineView)
        requires
            old(self)@.wf(),
            view.wf(),
            on_board(sq),
        ensures
            final(self)@ == (Interaction {
                legal: cells_of(moves_of(*view)),
                previous_click: Some(sq),
                ..old(self)@
            }),
            final(self)@.wf(),
    {
        self.legal.clear();
        match &view.moves {
            None => {},
            Some(moves) => {
                let mut i: usize = 0;
                while i < moves.len()
                    invariant
                        view.wf(),
                        view.moves == Some(*moves),
                        0 <= i <= moves@.len(),
                        self.legal@ == cells_of(moves_of(*view)).take(i as int),
                        self.previous_click == old(self).previous_click,
                        self.promoting == old(self).promoting,
                        self.pending_promotion_move == old(self).pending_promotion_move,
                        self.deaths == old(self).deaths,
                    decreases moves@.len() - i,
                {
                    assert(is_algebraic(moves_of(*view)[i as int]));
                    let sq_i = filerank_to_num(&moves[i]);
                    self.legal.push(sq_i);
                    assert(self.legal@ =~= cells_of(moves_of(*view)).take(i + 1));
                    i += 1;
                }
            },
        }
        self.previous_click = Some(sq);
        assert(self@.legal =~= cells_of(moves_of(*view)));
        proof {
            assert forall|i: int| 0 <= i < self@.legal.len() implies on_board(
                #[trigger] self@.legal[i],
            ) by {
                assert(is_algebraic(moves_of(*view)[i]));
            }
        }
    }

    /// Records what stands on `clicked` as taken, if it is of the side not to
    /// move, clears the selection, and hands back the engine command that
    /// makes the move from `from` to `to`.
    pub fn make_move_full(
        &mut self,
        view: &EngineView,
        clicked: (u8, u8),
        from: String,
        to: String,
    ) -> (r: EngineCommand)
        requires
            view.wf(),
            on_board(clicked),
        ensures
            final(self)@ == after_commit(old(self)@, *view, clicked),
            r@ == CommandView::Move(from@, to@),
    {
        match view.piece_at(clicked) {
            Some(piece) => if piece.side != view.active {
                self.deaths.record_capture(piece);
            },
            None => {},
        }
        self.legal.clear();
        self.previous_click = None;
        EngineCommand::Move { from, to }
    }

    /// Handles a click on cell `sq` of the board.
    fn click_board(&mut self, sq: (u8, u8), view: &EngineView) -> (r: Vec<EngineCommand>)
        requires
            old(self)@.wf(),
            view.wf(),
            on_board(sq),
        ensures
            final(self)@ == board_click(old(self)@, sq, *view).0,
            commands_view(r@) == board_click(old(self)@, sq, *view).1,
            final(self)@.wf(),
    {
        let mut cmds: Vec<EngineCommand> = Vec::new();
        if self.promoting {
            assert(commands_view(cmds@) =~= Seq::empty());
            return cmds;
        }
        match self.previous_click {
            Some(from) => {
                if from.0 == sq.0 && from.1 == sq.1 {
                    assert(commands_view(cmds@) =~= Seq::empty());
                    return cmds;
                }
                if self.is_legal_destination(sq) {
                    let promotes = match view.piece_at(from) {
                        Some(p) => is_promotion_move(&p, sq.1),
                        None => false,
                    };
                    if promotes {
                        let pending = PendingMove {
                            from: num_to_filerank(&from),
                            to: num_to_filerank(&sq),
                        };
                        self.pending_promotion_move = pending;
                        self.promoting = true;
                        assert(commands_view(cmds@) =~= Seq::empty());
                        return cmds;
                    }
                    let from_code = num_to_filerank(&from);
                    let to_code = num_to_filerank(&sq);
                    let c = self.make_move_full(view, sq, from_code, to_code);
                    cmds.push(c);
                    assert(commands_view(cmds@) =~= seq![move_between(from, sq)]);
                    return cmds;
                }
            },
            None => {},
        }
        self.select(sq, view);
        assert(commands_view(cmds@) =~= Seq::empty());
        cmds
    }

    /// Handles a click in the row of promotion choices while a move waits:
    /// sets the choice whose band was hit, if any, then commits the waiting move.
    fn click_choice(&mut self, x: i32, view: &EngineView) -> (r: Vec<EngineCommand>)
        requires
            old(self)@.wf(),
            old(self)@.promoting,
            view.wf(),
        ensures
            final(self)@ == below_click(old(self)@, x as int, 760, *view).0,
            commands_view(r@) == below_click(old(self)@, x as int, 760, *view).1,
            final(self)@.wf(),
    {
        let mut cmds: Vec<EngineCommand> = Vec::new();
        match promotion_band(x) {
            Some(k) => cmds.push(EngineCommand::SetPromotion(k)),
            None => {},
        }
        let ghost before = cmds@;
        let target = filerank_to_num(&self.pending_promotion_move.to);
        let mut waiting = PendingMove { from: String::new(), to: String::new() };
        std::mem::swap(&mut waiting, &mut self.pending_promotion_move);
        let c = self.make_move_full(view, target, waiting.from, waiting.to);
        cmds.push(c);
        self.promoting = false;
        assert(commands_view(cmds@) =~= commands_view(before).push(c@));
        assert(commands_view(cmds@) =~= below_click(old(self)@, x as int, 760, *view).1);
        cmds
    }

    /// Puts the state back to the start of a game.
    pub fn reset(&mut self)
        ensures
            final(self)@ == Interaction::initial(),
    {
        self.legal.clear();
        self.previous_click = None;
        self.promoting = false;
        self.pending_promotion_move = PendingMove { from: String::new(), to: String::new() };
        self.deaths.clear();
    }

    /// Handles the release of the primary pointer button at pixel (x, y),
    /// given what the engine reported just before. Returns the commands for
    /// the engine, to be carried out in order.
    pub fn handle_pointer_release(&mut self, x: i32, y: i32, view: &EngineView) -> (r: Vec<
        EngineCommand,
    >)
        requires
            old(self)@.wf(),
            view.wf(),
            y < 720 ==> 0 <= x < 720 && 0 <= y,
        ensures
            final(self)@ == release_step(old(self)@, x as int, y as int, *view).0,
            commands_view(r@) == release_step(old(self)@, x as int, y as int, *view).1,
            final(self)@.wf(),
    {
        if y < BOARD_PIXELS {
            let sq = square_at(x, y);
            self.click_board(sq, view)
        } else if self.promoting && CHOICE_TOP <= y && y <= CHOICE_BOTTOM {
            self.click_choice(x, view)
        } else if view.state == GameState::CheckMate {
            self.reset();
            let mut cmds: Vec<EngineCommand> = Vec::new();
            cmds.push(EngineCommand::NewGame);
            assert(commands_view(cmds@) =~= seq![CommandView::NewGame]);
            cmds
        } else {
            let cmds: Vec<EngineCommand> = Vec::new();
            assert(commands_view(cmds@) =~= Seq::empty());
            cmds
        }
    }
}

/// Clicking the same cell twice: once the first click has selected the
/// cell, the second leaves the state unchanged and asks nothing of the engine,
/// whatever the engine reports by then.
pub proof fn lemma_repeat_click_unchanged(
    m: Interaction,
    x: int,
    y: int,
    v1: EngineView,
    v2: EngineView,
)
    requires
        m.wf(),
        0 <= x < 720,
        0 <= y < 720,
        release_step(m, x, y, v1).0.previous_click == Some(square_at_pixel(x, y)),
    ensures
        release_step(release_step(m, x, y, v1).0, x, y, v2) == (
        release_step(m, x, y, v1).0,
        Seq::<CommandView>::empty(),
    ),
{
}

/// After a board click that commits nothing, with no promotion waiting
/// before or after it, the highlights are exactly the cells named by the
/// engine's destinations for the clicked cell, and that cell is the selection;
/// unless the cell was already the selection, in which case nothing changed.
pub proof fn lemma_selection_matches_engine(m: Interaction, x: int, y: int, v: EngineView)
    requires
        m.wf(),
        0 <= x < 720,
        0 <= y < 720,
        !m.promoting,
        !release_step(m, x, y, v).0.promoting,
        release_step(m, x, y, v).1.len() == 0,
    ensures
        m.previous_click == Some(square_at_pixel(x, y)) ==> release_step(m, x, y, v).0 == m,
        m.previous_click != Some(square_at_pixel(x, y)) ==> {
            &&& release_step(m, x, y, v).0.legal == cells_of(moves_of(v))
            &&& release_step(m, x, y, v).0.previous_click == Some(square_at_pixel(x, y))
        },
{
}

/// A pawn move that lands on the promotion row (row 0 for White, row 7 for
/// Black) is never handed to the engine at once: it waits for the choice,
/// with its two squares' codes kept.
pub proof fn lemma_promotion_waits(
    m: Interaction,
    x: int,
    y: int,
    v: EngineView,
    pawn: PieceId,
)
    requires
        m.wf(),
        0 <= x < 720,
        0 <= y < 720,
        !m.promoting,
        m.previous_click is Some,
        m.previous_click->0 != square_at_pixel(x, y),
        m.legal.contains(square_at_pixel(x, y)),
        piece_on(v, m.previous_click->0) == Some(pawn),
        reaches_promotion_row(pawn, square_at_pixel(x, y).1),
    ensures
        release_step(m, x, y, v).1.len() == 0,
        release_step(m, x, y, v).0.promoting,
        release_step(m, x, y, v).0.pending_from == algebraic_of(m.previous_click->0),
        release_step(m, x, y, v).0.pending_to == algebraic_of(square_at_pixel(x, y)),
{
}

/// No board click hands the engine a move of a pawn onto its promotion row.
pub proof fn lemma_board_moves_never_promote(m: Interaction, x: int, y: int, v: EngineView)
    requires
        m.wf(),
        0 <= x < 720,
        0 <= y < 720,
        release_step(m, x, y, v).1.len() > 0,
    ensures
        release_step(m, x, y, v).1 == seq![move_between(m.previous_click->0, square_at_pixel(x, y))],
        piece_on(v, m.previous_click->0) is Some ==> !reaches_promotion_row(
            piece_on(v, m.previous_click->0)->0,
            square_at_pixel(x, y).1,
        ),
{
}

/// A click below the board after checkmate, outside a waiting promotion's
/// row of choices, starts a new game and puts the state back to its initial
/// value, with both sides' capture lists empty.
pub proof fn lemma_checkmate_reset(m: Interaction, x: int, y: int, v: EngineView)
    requires
        m.wf(),
        y >= 720,
        v.state == GameState::CheckMate,
        !(m.promoting && in_choice_row(y)),
    ensures
        release_step(m, x, y, v).0 == Interaction::initial(),
        release_step(m, x, y, v).1 == seq![CommandView::NewGame],
        release_step(m, x, y, v).0.deaths.white.len() == 0,
        release_step(m, x, y, v).0.deaths.black.len() == 0,
{
}

/// Every pointer release keeps the state well formed: selections and
/// highlights stay on the board, highlights only under a selection, and a
/// waiting move always names two squares.
pub proof fn lemma_release_keeps_wf(m: Interaction, x: int, y: int, v: EngineView)
    requires
        m.wf(),
        v.wf(),
        y < 720 ==> 0 <= x < 720 && 0 <= y,
    ensures
        release_step(m, x, y, v).0.wf(),
{
    let n = release_step(m, x, y, v).0;
    if y < 720 {
        crate::coords::lemma_filerank_round_trip(square_at_pixel(x, y));
        if m.previous_click is Some {
            crate::coords::lemma_filerank_round_trip(m.previous_click->0);
        }
        assert forall|i: int| 0 <= i < n.legal.len() implies on_board(#[trigger] n.legal[i]) by {
            if n.legal != m.legal {
                assert(is_algebraic(moves_of(v)[i]));
            }
        }
    }
}

/// The engine lists destinations for cell `sq` only when a piece of the
/// side to move stands there.
pub open spec fn moves_only_for_mover(v: EngineView, sq: (u8, u8)) -> bool {
    moves_of(v).len() > 0 ==> (piece_on(v, sq) matches Some(p) && p.side == v.active)
}

/// Highlights belong to a piece of the side to move: where a click leaves
/// highlights that it did not inherit, the selection is the clicked cell and
/// a piece of the side to move stands on it, given that the engine lists
/// destinations only for such pieces. Highlights never stand without a
/// selection.
pub proof fn lemma_highlights_belong_to_mover(m: Interaction, x: int, y: int, v: EngineView)
    requires
        m.wf(),
        y < 720 ==> 0 <= x < 720 && 0 <= y,
        y < 720 ==> moves_only_for_mover(v, square_at_pixel(x, y)),
    ensures
        release_step(m, x, y, v).0.legal.len() > 0 ==> release_step(
            m,
            x,
            y,
            v,
        ).0.previous_click is Some,
        release_step(m, x, y, v).0.legal.len() > 0 && release_step(m, x, y, v).0.legal
            != m.legal ==> {
            &&& y < 720
            &&& release_step(m, x, y, v).0.previous_click == Some(square_at_pixel(x, y))
            &&& piece_on(v, square_at_pixel(x, y)) is Some
            &&& piece_on(v, square_at_pixel(x, y))->0.side == v.active
        },
{
}

/// The ledger after a series of committed moves, the `i`-th onto cell
/// `cells[i]` with `views[i]` the engine's report at the time.
pub open spec fn commits_ledger(d: LedgerView, views: Seq<EngineView>, cells: Seq<(u8, u8)>) -> LedgerView
    decreases cells.len(),
{
    if cells.len() == 0 || views.len() != cells.len() {
        d
    } else {
        record_taken(
            commits_ledger(d, views.drop_last(), cells.drop_last()),
            views.last(),
            cells.last(),
        )
    }
}

/// Moves that each take a piece of `side`, the side not to move, append
/// those pieces to `side`'s list in capture order, one entry per capture,
/// starting from an empty list.
pub proof fn lemma_commits_record_in_order(
    views: Seq<EngineView>,
    cells: Seq<(u8, u8)>,
    side: crate::pieces::Side,
)
    requires
        views.len() == cells.len(),
        forall|i: int|
            0 <= i < cells.len() ==> {
                &&& #[trigger] piece_on(views[i], cells[i]) is Some
                &&& piece_on(views[i], cells[i])->0.side == side
                &&& views[i].active != side
            },
    ensures
        commits_ledger(LedgerView::empty(), views, cells).of(side) == Seq::new(
            cells.len(),
            |i: int| piece_on(views[i], cells[i])->0,
        ),
        commits_ledger(LedgerView::empty(), views, cells).of(side).len() == cells.len(),
    decreases cells.len(),
{
    if cells.len() > 0 {
        let n = cells.len() - 1;
        assert forall|i: int| 0 <= i < n implies {
            &&& #[trigger] piece_on(views.drop_last()[i], cells.drop_last()[i]) is Some
            &&& piece_on(views.drop_last()[i], cells.drop_last()[i])->0.side == side
            &&& views.drop_last()[i].active != side
        } by {
            assert(piece_on(views[i], cells[i]) is Some);
        }
        lemma_commits_record_in_order(views.drop_last(), cells.drop_last(), side);
        assert(piece_on(views[n], cells[n]) is Some);
        assert(commits_ledger(LedgerView::empty(), views, cells).of(side) =~= Seq::new(
            cells.len(),
            |i: int| piece_on(views[i], cells[i])->0,
        ));
    } else {
        assert(commits_ledger(LedgerView::empty(), views, cells).of(side) =~= Seq::new(
            cells.len(),
            |i: int| piece_on(views[i], cells[i])->0,
        ));
    }
}

} // verus!
