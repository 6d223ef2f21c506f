//! The capture ledger: for each side, the pieces it has lost, in the order
//! in which they were taken.
use vstd::prelude::*;
use crate::pieces::{PieceId, Side};

verus! {

/// What the ledger holds: the pieces lost by White and by Black, oldest first.
pub struct LedgerView {
    pub white: Seq<PieceId>,
    pub black: Seq<PieceId>,
}

impl LedgerView {
    /// The pieces lost by `side`, oldest first.
    pub open spec fn of(self, side: Side) -> Seq<PieceId> {
        match side {
            Side::White => self.white,
            Side::Black => self.black,
        }
    }

    /// A ledger with nothing in it.
    pub open spec fn empty() -> LedgerView {
        LedgerView { white: Seq::empty(), black: Seq::empty() }
    }

    /// The ledger after `piece` was taken: appended to the list of its own side.
    pub open spec fn record(self, piece: PieceId) -> LedgerView {
        match piece.side {
            Side::White => LedgerView { white: self.white.push(piece), black: self.black },
            Side::Black => LedgerView { white: self.white, black: self.black.push(piece) },
        }
    }
}

/// Per-side lists of captured pieces.
pub struct CaptureLedger {
    white: Vec<PieceId>,
    black: Vec<PieceId>,
}

impl View for CaptureLedger {
    type V = LedgerView;

    closed spec fn view(&self) -> LedgerView {
        LedgerView { white: self.white@, black: self.black@ }
    }
}

impl CaptureLedger {
    /// A ledger with no captures on either side.
    pub fn new() -> (r: CaptureLedger)
        ensures
            r@ == LedgerView::empty(),
    {
        CaptureLedger { white: Vec::new(), black: Vec::new() }
    }

    /// Appends `captured` to the list of the side that lost it.
    pub fn record_capture(&mut self, captured: PieceId)
        ensures
            final(self)@ == old(self)@.record(captured),
    {
        match captured.side {
            Side::White => self.white.push(captured),
            Side::Black => self.black.push(captured),
        }
    }

    /// Empties both sides' lists.
    pub fn clear(&mut self)
        ensures
            final(self)@ == LedgerView::empty(),
    {
        self.white.clear();
        self.black.clear();
    }

    /// The pieces lost by `side`, oldest first.
    pub fn sequence_for(&self, side: Side) -> (r: &Vec<PieceId>)
        ensures
            r@ == self@.of(side),
    {
        match side {
            Side::White => &self.white,
            Side::Black => &self.black,
        }
    }
}

/// Recording a capture appends the piece to the end of its own side's list
/// and leaves the other side's list as it was: the list grows by exactly one.
pub proof fn lemma_record_appends(l: LedgerView, piece: PieceId, side: Side)
    ensures
        l.record(piece).of(piece.side) == l.of(piece.side).push(piece),
        l.record(piece).of(piece.side).len() == l.of(piece.side).len() + 1,
        side != piece.side ==> l.record(piece).of(side) == l.of(side),
{
}

/// The ledger after recording `pieces` one after another, starting from `l`.
pub open spec fn record_all(l: LedgerView, pieces: Seq<PieceId>) -> LedgerView
    decreases pieces.len(),
{
    if pieces.len() == 0 {
        l
    } else {
        record_all(l, pieces.drop_last()).record(pieces.last())
    }
}

/// Starting from an empty ledger, after recording the captures `pieces` each
/// side's list is exactly the captured pieces of that side, in capture order;
/// so its length is the number of that side's pieces among them.
pub proof fn lemma_record_all_counts(pieces: Seq<PieceId>, side: Side)
    ensures
        record_all(LedgerView::empty(), pieces).of(side) == pieces.filter(|p: PieceId| p.side == side),
    decreases pieces.len(),
{
    if pieces.len() > 0 {
        lemma_record_all_counts(pieces.drop_last(), side);
        reveal(Seq::filter);
        assert(pieces.drop_last().filter(|p: PieceId| p.side == side)
            == pieces.filter(|p: PieceId| p.side == side).take(
                pieces.filter(|p: PieceId| p.side == side).len() as int
                    - if pieces.last().side == side { 1int } else { 0int }));
    }
}

} // verus!
