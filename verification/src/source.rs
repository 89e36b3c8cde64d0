//! The command source: turning SQL text into statement records.
//!
//! Parsing itself is done by the `sqlite3_parser` crate; everything that
//! crate hands back is reduced, through the trusted items below, to plain
//! values: a raw statement shape, the command's rendering, or an error.  The
//! parser is deterministic, so what its i-th advance over a given text
//! yields is a function of the text and i alone; `spec_scan` names that
//! function, and the stream's contract promises one item per step of it.
//! The reduction of a raw shape to the classifier's `Command` — including
//! the temporariness test on a `TEMP`-qualified target — is verified code.
//! The stream is lazy and forward-only: one statement record (or error) per
//! command, produced on demand, and the caller may stop early.

use vstd::prelude::*;

use fallible_iterator::FallibleIterator;
use sqlite3_parser::ast::{Cmd, QualifiedName, Stmt};
use sqlite3_parser::lexer::sql::{Parser, ParserError};

use crate::kind::{spec_kind, Command, StmtKind};
use crate::statement::{
    build_statement,
    spec_is_insert,
    spec_is_iud,
    spec_statement_text,
    spec_unknown_pragma,
    spec_unsupported_error,
    Statement,
    StmtError,
};
use crate::text::str_eq;

verus! {

#[verifier::external_type_specification]
#[verifier::external_body]
pub struct ExParser<'input>(Parser<'input>);

#[verifier::external_type_specification]
#[verifier::external_body]
pub struct ExCmd(Cmd);

#[verifier::external_type_specification]
#[verifier::external_body]
pub struct ExStmt(Stmt);

#[verifier::external_type_specification]
#[verifier::external_body]
pub struct ExQualifiedName(QualifiedName);

/// Which of the three command wrappers the parser produced.
enum CmdWrap {
    Explain,
    ExplainQueryPlan,
    Plain,
}

/// The statement variants that routing inspects, as plain values: the flags
/// and names the classifier reads, extracted from the parser's
/// representation but not yet interpreted.
enum RawStmt {
    Begin,
    Commit,
    Rollback,
    CreateVirtualTable { qualifier: Option<String> },
    CreateTable { temporary: bool, qualifier: Option<String> },
    CreateTrigger { temporary: bool, qualifier: Option<String> },
    CreateIndex,
    Insert,
    Update,
    Delete,
    DropTable,
    AlterTable,
    Select,
    Pragma { name: String, has_body: bool },
    Unrecognized,
}

/// What one advance of the parser produced, as plain values.
enum Scan {
    /// The next parsed command: its rendering, wrapper and raw shape
    Parsed { rendered: String, wrap: CmdWrap, shape: RawStmt },
    /// End of input
    Done,
    /// Malformed input at a located token
    Syntax { line: u64, column: usize, token: String },
    /// Any other failure reported by the lexer or parser
    Failed { message: String },
}

/// One abstract step of the scan of a text: a parsed command with its shape
/// and rendering, an error, or the end of the input.
pub enum ScanStep {
    Command { shape: Command, rendered: Seq<char> },
    Syntax { line: u64, column: usize, token: Seq<char> },
    Failed { message: Seq<char> },
    End,
}

/// The i-th step of the scan of a text.  Parsing is deterministic: the
/// outcome of the parser's i-th advance is a function of the text and of how
/// many advances were made before, which this name captures.
pub uninterp spec fn spec_scan(s: Seq<char>, i: nat) -> ScanStep;

/// Whether a database qualifier marks its object as temporary: exactly the
/// qualifier `TEMP`.
pub open spec fn spec_temp_qualifier(q: Option<String>) -> bool {
    match q {
        Some(d) => d@ == "TEMP"@,
        None => false,
    }
}

/// The command a raw step reduces to: the EXPLAIN wrappers map to their own
/// shapes, a CREATE target counts as `TEMP`-qualified by
/// `spec_temp_qualifier`, and everything unrecognized stays so.
spec fn spec_command_of(wrap: CmdWrap, s: RawStmt) -> Command {
    match wrap {
        CmdWrap::Explain => Command::Explain,
        CmdWrap::ExplainQueryPlan => Command::ExplainQueryPlan,
        CmdWrap::Plain => match s {
            RawStmt::Begin => Command::Begin,
            RawStmt::Commit => Command::Commit,
            RawStmt::Rollback => Command::Rollback,
            RawStmt::CreateVirtualTable { qualifier } => Command::CreateVirtualTable {
                temp_qualified: spec_temp_qualifier(qualifier),
            },
            RawStmt::CreateTable { temporary, qualifier } => Command::CreateTable {
                temporary,
                temp_qualified: spec_temp_qualifier(qualifier),
            },
            RawStmt::CreateTrigger { temporary, qualifier } => Command::CreateTrigger {
                temporary,
                temp_qualified: spec_temp_qualifier(qualifier),
            },
            RawStmt::CreateIndex => Command::CreateIndex,
            RawStmt::Insert => Command::Insert,
            RawStmt::Update => Command::Update,
            RawStmt::Delete => Command::Delete,
            RawStmt::DropTable => Command::DropTable,
            RawStmt::AlterTable => Command::AlterTable,
            RawStmt::Select => Command::Select,
            RawStmt::Pragma { name, has_body } => Command::Pragma { name, has_body },
            RawStmt::Unrecognized => Command::Unrecognized,
        },
    }
}

/// How a concrete scan result realizes an abstract step: everything the
/// classifier and builder read of the command agrees, and strings agree by
/// their characters.
spec fn scan_matches(step: ScanStep, r: Scan) -> bool {
    match r {
        Scan::Parsed { rendered, wrap, shape } => {
            let c = spec_command_of(wrap, shape);
            &&& step matches ScanStep::Command { shape: s, rendered: t }
            &&& spec_kind(c) == spec_kind(s)
            &&& spec_is_iud(c) == spec_is_iud(s)
            &&& spec_is_insert(c) == spec_is_insert(s)
            &&& spec_unknown_pragma(c) == spec_unknown_pragma(s)
            &&& (c is CreateVirtualTable <==> s is CreateVirtualTable)
            &&& rendered@ == t
        },
        Scan::Done => step is End,
        Scan::Syntax { line, column, token } => {
            &&& step matches ScanStep::Syntax { line: l, column: c, token: t }
            &&& l == line
            &&& c == column
            &&& t == token@
        },
        Scan::Failed { message } => {
            &&& step matches ScanStep::Failed { message: m }
            &&& m == message@
        },
    }
}

/// The item the stream yields for one step of the scan: the built record
/// for a supported command, the unsupported-statement error for any other
/// command, the located error for a failed step, and `None` at the end.
pub open spec fn spec_yields(
    original: Seq<char>,
    step: ScanStep,
    r: Option<Result<Statement, StmtError>>,
) -> bool {
    match step {
        ScanStep::Command { shape, rendered } => if spec_kind(shape) is Some {
            &&& r matches Some(Ok(st))
            &&& Some(st.kind) == spec_kind(shape)
            &&& st.is_iud == spec_is_iud(shape)
            &&& st.is_insert == spec_is_insert(shape)
            &&& st.stmt@ == spec_statement_text(original, rendered, shape)
        } else {
            &&& r matches Some(Err(e))
            &&& spec_unsupported_error(shape, e)
        },
        ScanStep::Syntax { line, column, token } => {
            &&& r matches Some(Err(e))
            &&& e matches StmtError::SyntaxError { line: l, column: c, token: t }
            &&& l == line
            &&& c == column
            &&& t@ == token
        },
        ScanStep::Failed { message } => {
            &&& r matches Some(Err(e))
            &&& e matches StmtError::ParserError { message: m }
            &&& m@ == message
        },
        ScanStep::End => r is None,
    }
}

/// Whether a step exhausts the stream.  A command step never does — in
/// particular an unsupported statement leaves scanning going — while the
/// end of input and every parser failure do.
pub open spec fn spec_step_ends(step: ScanStep) -> bool {
    match step {
        ScanStep::Command { .. } => false,
        ScanStep::Syntax { .. } => true,
        ScanStep::Failed { .. } => true,
        ScanStep::End => true,
    }
}

/// Relies on the `Cmd` enum of sqlite3_parser: tells the two EXPLAIN
/// wrappers from a plain statement and hands the inner statement on.
#[verifier::external_body]
fn cmd_parts(c: &Cmd) -> (CmdWrap, &Stmt) {
    match c {
        Cmd::Explain(s) => (CmdWrap::Explain, s),
        Cmd::ExplainQueryPlan(s) => (CmdWrap::ExplainQueryPlan, s),
        Cmd::Stmt(s) => (CmdWrap::Plain, s),
    }
}

/// Relies on the `db_name` field of `QualifiedName`: the optional database
/// qualifier of the name.
#[verifier::external_body]
fn name_qualifier(n: &QualifiedName) -> Option<String> {
    n.db_name.as_ref().map(|d| d.0.to_string())
}

/// Relies on the `Stmt` enum of sqlite3_parser: recognizes the
/// transaction-control and CREATE statements that routing inspects, moving
/// each flag and database qualifier out as plain values; other statements go
/// to `stmt_shape_rest`.
#[verifier::external_body]
fn stmt_shape_txn_create(s: &Stmt) -> Option<RawStmt> {
    match s {
        Stmt::Begin(..) => Some(RawStmt::Begin),
        Stmt::Commit(..) => Some(RawStmt::Commit),
        Stmt::Rollback { .. } => Some(RawStmt::Rollback),
        Stmt::CreateVirtualTable { tbl_name, .. } => Some(RawStmt::CreateVirtualTable { qualifier: name_qualifier(tbl_name) }),
        Stmt::CreateTable { temporary, tbl_name, .. } => Some(RawStmt::CreateTable { temporary: *temporary, qualifier: name_qualifier(tbl_name) }),
        Stmt::CreateTrigger { temporary, trigger_name, .. } => Some(RawStmt::CreateTrigger { temporary: *temporary, qualifier: name_qualifier(trigger_name) }),
        Stmt::CreateIndex { .. } => Some(RawStmt::CreateIndex),
        _ => None,
    }
}

/// Relies on the `Stmt` enum and the `QualifiedName` fields of
/// sqlite3_parser: recognizes the DML, DROP/ALTER TABLE, SELECT and PRAGMA
/// statements, moving the pragma's bare name and argument flag out as plain
/// values; every statement outside the supported set becomes `Unrecognized`.
#[verifier::external_body]
fn stmt_shape_rest(s: &Stmt) -> RawStmt {
    match s {
        Stmt::Insert { .. } => RawStmt::Insert,
        Stmt::Update { .. } => RawStmt::Update,
        Stmt::Delete { .. } => RawStmt::Delete,
        Stmt::DropTable { .. } => RawStmt::DropTable,
        Stmt::AlterTable(..) => RawStmt::AlterTable,
        Stmt::Select(..) => RawStmt::Select,
        Stmt::Pragma(name, body) => RawStmt::Pragma { name: name.name.0.to_string(), has_body: body.is_some() },
        _ => RawStmt::Unrecognized,
    }
}

/// Decide whether an extracted qualifier is the temporary-database marker.
fn qualifier_is_temp(q: &Option<String>) -> (r: bool)
    ensures
        r == spec_temp_qualifier(*q),
{
    match q {
        Some(d) => str_eq(d.as_str(), "TEMP"),
        None => false,
    }
}

/// Reduce a raw step to the command the classifier reads.  A target
/// qualified with the database name `TEMP` is session-local, so the CREATE
/// shapes carry the outcome of that test.
fn refine(wrap: CmdWrap, shape: RawStmt) -> (r: Command)
    ensures
        r == spec_command_of(wrap, shape),
{
    match wrap {
        CmdWrap::Explain => Command::Explain,
        CmdWrap::ExplainQueryPlan => Command::ExplainQueryPlan,
        CmdWrap::Plain => match shape {
            RawStmt::Begin => Command::Begin,
            RawStmt::Commit => Command::Commit,
            RawStmt::Rollback => Command::Rollback,
            RawStmt::CreateVirtualTable { qualifier } => Command::CreateVirtualTable {
                temp_qualified: qualifier_is_temp(&qualifier),
            },
            RawStmt::CreateTable { temporary, qualifier } => Command::CreateTable {
                temporary,
                temp_qualified: qualifier_is_temp(&qualifier),
            },
            RawStmt::CreateTrigger { temporary, qualifier } => Command::CreateTrigger {
                temporary,
                temp_qualified: qualifier_is_temp(&qualifier),
            },
            RawStmt::CreateIndex => Command::CreateIndex,
            RawStmt::Insert => Command::Insert,
            RawStmt::Update => Command::Update,
            RawStmt::Delete => Command::Delete,
            RawStmt::DropTable => Command::DropTable,
            RawStmt::AlterTable => Command::AlterTable,
            RawStmt::Select => Command::Select,
            RawStmt::Pragma { name, has_body } => Command::Pragma { name, has_body },
            RawStmt::Unrecognized => Command::Unrecognized,
        },
    }
}

/// Relies on `Parser::new` of sqlite3_parser: builds a parser over the raw
/// bytes of the given text.  The parser is large, so it lives on the heap.
#[verifier::external_body]
fn parser_new<'i>(sql: &'i str) -> Box<Parser<'i>> {
    Box::new(Parser::new(sql.as_bytes()))
}

/// A lazy, finite, forward-only sequence of statement records over one SQL
/// text: one `Statement` or error per command, produced on demand.  The
/// fields are private and `parse` is the only constructor, so the parser
/// always stands over `original`, advanced exactly `spec_pos()` times.
pub struct StatementStream<'i> {
    original: &'i str,
    parser: Box<Parser<'i>>,
    exhausted: bool,
    pos: Ghost<nat>,
}

impl<'i> StatementStream<'i> {
    /// The text the stream was built over.
    pub closed spec fn spec_original(&self) -> Seq<char> {
        self.original@
    }

    /// Whether the stream has reached its end: no further commands are
    /// attempted once this holds.
    pub closed spec fn spec_exhausted(&self) -> bool {
        self.exhausted
    }

    /// How many advances of the parser have been made.
    pub closed spec fn spec_pos(&self) -> nat {
        self.pos@
    }

    /// Relies on `Parser::next` (its `FallibleIterator` impl) for one advance
    /// of the parser, and on the `Display` impl of `Cmd` for the command's
    /// rendering; the command is reduced to plain values by the conversion
    /// items above, and interpreted only by verified code.  What an advance
    /// yields at each position is what `spec_scan` names for the stream's
    /// text.  A bare semicolon command is skipped by the parser inside one
    /// advance, and a statement-free tail yields the end of the input: no
    /// text makes this call panic.
    #[verifier::external_body]
    fn advance(&mut self) -> (r: Scan)
        ensures
            final(self).spec_original() == old(self).spec_original(),
            final(self).spec_exhausted() == old(self).spec_exhausted(),
            final(self).spec_pos() == old(self).spec_pos() + 1,
            scan_matches(spec_scan(old(self).spec_original(), old(self).spec_pos()), r),
    {
        match self.parser.next() {
            Ok(Some(cmd)) => {
                let rendered = cmd.to_string();
                let (wrap, stmt) = cmd_parts(&cmd);
                let shape = stmt_shape_txn_create(stmt).unwrap_or_else(|| stmt_shape_rest(stmt));
                Scan::Parsed { rendered, wrap, shape }
            }
            Ok(None) => Scan::Done,
            Err(sqlite3_parser::lexer::sql::Error::ParserError(
                ParserError::SyntaxError(token),
                Some(pos),
            )) => Scan::Syntax { line: pos.line as u64, column: pos.column, token: token.to_string() },
            Err(e) => Scan::Failed { message: e.to_string() },
        }
    }

    /// The next statement record: the item of the scan's next step, `None`
    /// once the input is exhausted.  An unsupported statement does not stop
    /// the scan — every later call still yields one item per remaining step
    /// — while the end of input, a syntax error and any other parser failure
    /// do.
    pub fn next(&mut self) -> (r: Option<Result<Statement, StmtError>>)
        ensures
            final(self).spec_original() == old(self).spec_original(),
            old(self).spec_exhausted() ==> r is None && *final(self) == *old(self),
            !old(self).spec_exhausted() ==> {
                &&& final(self).spec_pos() == old(self).spec_pos() + 1
                &&& spec_yields(
                    old(self).spec_original(),
                    spec_scan(old(self).spec_original(), old(self).spec_pos()),
                    r,
                )
                &&& final(self).spec_exhausted() == spec_step_ends(
                    spec_scan(old(self).spec_original(), old(self).spec_pos()),
                )
            },
            r is None ==> final(self).spec_exhausted(),
            r matches Some(Ok(st)) ==> (st.is_insert ==> st.is_iud) && (st.is_iud ==> st.kind
                == StmtKind::Write),
    {
        if self.exhausted {
            return None;
        }
        match self.advance() {
            Scan::Done => {
                self.exhausted = true;
                None
            },
            Scan::Parsed { rendered, wrap, shape } => {
                let cmd = refine(wrap, shape);
                Some(build_statement(self.original, rendered, cmd))
            },
            Scan::Syntax { line, column, token } => {
                self.exhausted = true;
                Some(Err(StmtError::SyntaxError { line, column, token }))
            },
            Scan::Failed { message } => {
                self.exhausted = true;
                Some(Err(StmtError::ParserError { message }))
            },
        }
    }
}

impl Statement {
    /// Parse SQL text into a lazy sequence of statement records, one per
    /// command found in it, starting at the first step of the scan.
    pub fn parse<'i>(s: &'i str) -> (r: StatementStream<'i>)
        ensures
            r.spec_original() == s@,
            !r.spec_exhausted(),
            r.spec_pos() == 0,
    {
        StatementStream { original: s, parser: parser_new(s), exhausted: false, pos: Ghost(0) }
    }
}

} // verus!
