//! Routing analysis for SQL statements in a replicated database front-end.
//!
//! Each parsed SQL command is assigned a routing category that decides
//! whether it may be served by a read-only replica or must go to the
//! writable primary, and a small state machine folds those categories to
//! predict whether a batch of statements leaves an open transaction.

pub mod kind;
pub mod pragma;
pub mod source;
pub mod state;
pub mod statement;
pub mod text;

pub use kind::Command;
pub use kind::StmtKind;
pub use pragma::PragmaTier;
pub use source::StatementStream;
pub use state::State;
pub use statement::predict_final_state;
pub use statement::Statement;
pub use statement::StmtError;
