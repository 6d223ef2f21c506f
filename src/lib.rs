//! The interaction layer of a graphical chess client: it turns pointer
//! releases into chess moves, keeps the selection, highlight and promotion
//! workflow, and records captured pieces. The rule engine stays outside: the
//! layer reads a snapshot of what the engine reports and hands back the
//! commands the engine is to carry out.
pub mod coords;
pub mod engine;
pub mod interaction;
pub mod ledger;
pub mod pieces;
pub mod render;
