//! The statement classifier.
//!
//! Every supported SQL command maps to exactly one routing category; commands
//! outside the supported set map to none, so that classification fails rather
//! than silently defaulting.

use vstd::prelude::*;

use crate::pragma::{pragma_tier, spec_pragma_kind, PragmaTier};

verus! {

/// Routing category of a single SQL statement.
#[derive(Debug, PartialEq, Eq, Clone, Copy, Structural)]
pub enum StmtKind {
    /// The beginning of a transaction
    TxnBegin,
    /// The end of a transaction
    TxnEnd,
    Read,
    Write,
    Other,
}

/// The subset of the SQL command grammar that routing looks at.  A command
/// source reduces each parsed command to one of these shapes; everything the
/// classifier reads is carried here as plain values.
#[derive(Debug, Clone, PartialEq)]
pub enum Command {
    /// An EXPLAIN wrapper around a statement
    Explain,
    /// An EXPLAIN QUERY PLAN wrapper around a statement
    ExplainQueryPlan,
    Begin,
    Commit,
    Rollback,
    /// `temp_qualified` is true when the table name is qualified with the
    /// database name `TEMP`
    CreateTable { temporary: bool, temp_qualified: bool },
    CreateVirtualTable { temp_qualified: bool },
    Insert,
    Update,
    Delete,
    DropTable,
    AlterTable,
    CreateTrigger { temporary: bool, temp_qualified: bool },
    CreateIndex,
    Select,
    Pragma { name: String, has_body: bool },
    /// Any command outside the supported set (VACUUM, ATTACH, ...)
    Unrecognized,
}

/// Whether a CREATE target counts as temporary: either declared TEMP, or
/// qualified with the database name `TEMP`.  Temporary objects are
/// session-local and irrelevant to replica consistency.
pub open spec fn spec_temp_target(temporary: bool, temp_qualified: bool) -> bool {
    temporary || temp_qualified
}

/// The routing category of a command, or `None` when the command is
/// unsupported.
pub open spec fn spec_kind(c: Command) -> Option<StmtKind> {
    match c {
        Command::Explain | Command::ExplainQueryPlan => Some(StmtKind::Other),
        Command::Begin => Some(StmtKind::TxnBegin),
        Command::Commit | Command::Rollback => Some(StmtKind::TxnEnd),
        Command::CreateTable { temporary, temp_qualified } => if !spec_temp_target(
            temporary,
            temp_qualified,
        ) {
            Some(StmtKind::Write)
        } else {
            None
        },
        Command::CreateVirtualTable { temp_qualified } => if !temp_qualified {
            Some(StmtKind::Write)
        } else {
            None
        },
        Command::Insert
        | Command::Update
        | Command::Delete
        | Command::DropTable
        | Command::AlterTable
        | Command::CreateIndex => Some(StmtKind::Write),
        Command::CreateTrigger { temporary, temp_qualified } => if !spec_temp_target(
            temporary,
            temp_qualified,
        ) {
            Some(StmtKind::Write)
        } else {
            None
        },
        Command::Select => Some(StmtKind::Read),
        Command::Pragma { name, has_body } => spec_pragma_kind(name@, has_body),
        Command::Unrecognized => None,
    }
}

impl StmtKind {
    /// Classify a command; `None` means the statement is unsupported.
    pub fn kind(cmd: &Command) -> (r: Option<StmtKind>)
        ensures
            r == spec_kind(*cmd),
    {
        match cmd {
            Command::Explain => Some(StmtKind::Other),
            Command::ExplainQueryPlan => Some(StmtKind::Other),
            Command::Begin => Some(StmtKind::TxnBegin),
            Command::Commit => Some(StmtKind::TxnEnd),
            Command::Rollback => Some(StmtKind::TxnEnd),
            Command::CreateTable { temporary, temp_qualified } => if !*temporary
                && !*temp_qualified {
                Some(StmtKind::Write)
            } else {
                None
            },
            Command::CreateVirtualTable { temp_qualified } => if !*temp_qualified {
                Some(StmtKind::Write)
            } else {
                None
            },
            Command::Insert => Some(StmtKind::Write),
            Command::Update => Some(StmtKind::Write),
            Command::Delete => Some(StmtKind::Write),
            Command::DropTable => Some(StmtKind::Write),
            Command::AlterTable => Some(StmtKind::Write),
            Command::CreateIndex => Some(StmtKind::Write),
            Command::CreateTrigger { temporary, temp_qualified } => if !*temporary
                && !*temp_qualified {
                Some(StmtKind::Write)
            } else {
                None
            },
            Command::Select => Some(StmtKind::Read),
            Command::Pragma { name, has_body } => Self::pragma_kind(name.as_str(), *has_body),
            Command::Unrecognized => None,
        }
    }

    /// Classify a pragma from its name and whether it carries an argument;
    /// `None` means the pragma is unsupported.
    pub fn pragma_kind(name: &str, has_body: bool) -> (r: Option<StmtKind>)
        ensures
            r == spec_pragma_kind(name@, has_body),
    {
        match pragma_tier(name) {
            PragmaTier::Informational => Some(StmtKind::Read),
            PragmaTier::PrimaryRead => Some(StmtKind::Write),
            PragmaTier::Config => if has_body {
                None
            } else {
                Some(StmtKind::Write)
            },
            PragmaTier::Denied => None,
            PragmaTier::Unknown => None,
        }
    }
}

} // verus!
