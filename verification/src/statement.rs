//! Statement records and batch prediction.
//!
//! A `Statement` is the immutable record handed to the router: the command's
//! text, its routing category, and its mutation flags.  `predict_final_state`
//! folds a batch of records into the transaction state the batch would leave
//! a session in.

use vstd::prelude::*;

use crate::kind::{spec_kind, Command, StmtKind};
use crate::pragma::{pragma_tier, PragmaTier};
use crate::state::{spec_step_all, State};
use crate::text::{push_decimal, spec_decimal};
use vstd::string::StringExecFns;

verus! {

/// A single SQL statement together with everything the router reads of it.
#[derive(Debug, Clone)]
pub struct Statement {
    /// Normalized source text of the command
    pub stmt: String,
    /// Routing category
    pub kind: StmtKind,
    /// Is the statement an INSERT, UPDATE or DELETE?
    pub is_iud: bool,
    /// Is the statement an INSERT?
    pub is_insert: bool,
}

/// Why a command at some position of the input yields no statement.
#[derive(Debug, Clone, PartialEq, Eq)]
pub enum StmtError {
    /// The command is syntactically valid but gets no routing category.
    /// When the cause is a pragma name outside the policy table, the error
    /// carries that name, so a caller can report the unknown pragma to its
    /// diagnostics sink.
    UnsupportedStatement { unknown_pragma: Option<String> },
    /// The command source reported malformed input at a located token; no
    /// further commands are attempted after this.
    SyntaxError { line: u64, column: usize, token: String },
    /// Any other failure of the command source; terminal as well.
    ParserError { message: String },
}

/// The message reported for an error, in the form the router logs it.
pub open spec fn spec_message(e: StmtError) -> Seq<char> {
    match e {
        StmtError::UnsupportedStatement { .. } => "unsupported statement"@,
        StmtError::SyntaxError { line, column, token } => "syntax error around L"@ + spec_decimal(
            line as nat,
        ) + ":"@ + spec_decimal(column as nat) + ": `"@ + token@ + "`"@,
        StmtError::ParserError { message } => message@,
    }
}

impl StmtError {
    /// Render the error the way the router reports it.
    pub fn message(&self) -> (r: String)
        ensures
            r@ == spec_message(*self),
    {
        match self {
            StmtError::UnsupportedStatement { .. } => "unsupported statement".to_owned(),
            StmtError::SyntaxError { line, column, token } => {
                let mut m = "syntax error around L".to_owned();
                push_decimal(&mut m, *line);
                m.append(":");
                push_decimal(&mut m, *column as u64);
                m.append(": `");
                m.append(token.as_str());
                m.append("`");
                proof {
                    assert(m@ =~= spec_message(*self));
                }
                m
            },
            StmtError::ParserError { message } => message.clone(),
        }
    }
}

/// True of an INSERT, UPDATE or DELETE command: the subset that requires
/// write-ahead log propagation to replicas.
pub open spec fn spec_is_iud(c: Command) -> bool {
    c is Insert || c is Update || c is Delete
}

/// True of an INSERT command.
pub open spec fn spec_is_insert(c: Command) -> bool {
    c is Insert
}

/// An INSERT is always a mutation: `is_insert` implies `is_iud` for every
/// command shape, hence for every produced `Statement`.
pub proof fn lemma_insert_implies_iud(c: Command)
    ensures
        spec_is_insert(c) ==> spec_is_iud(c),
{
}

/// The text a built statement carries: for CREATE VIRTUAL TABLE the original
/// source text verbatim, because re-rendering that command from its parsed
/// form is not trustworthy; for everything else the rendering of the parsed
/// command.  Note that `original` is the whole input text, not the one
/// command's own substring: when the input holds several commands, a CREATE
/// VIRTUAL TABLE record carries all of them.  The parser exposes no span for
/// a single command, so the command's exact substring is not available.
pub open spec fn spec_statement_text(original: Seq<char>, rendered: Seq<char>, c: Command) -> Seq<
    char,
> {
    if c is CreateVirtualTable {
        original
    } else {
        rendered
    }
}

/// The unrecognized pragma name behind an unsupported command, if that is
/// what makes it unsupported: a pragma whose name sits in no tier of the
/// policy table.  Denied or argument-bearing pragmas, and non-pragma
/// commands, carry no name.
pub open spec fn spec_unknown_pragma(c: Command) -> Option<Seq<char>> {
    match c {
        Command::Pragma { name, has_body } => if crate::pragma::spec_pragma_tier(name@)
            is Unknown {
            Some(name@)
        } else {
            None
        },
        _ => None,
    }
}

/// The error an unsupported command yields: the unsupported-statement error,
/// carrying the unrecognized pragma name exactly when there is one.
pub open spec fn spec_unsupported_error(c: Command, e: StmtError) -> bool {
    &&& e matches StmtError::UnsupportedStatement { unknown_pragma: u }
    &&& match spec_unknown_pragma(c) {
        Some(n) => u matches Some(s) && s@ == n,
        None => u is None,
    }
}

/// Build the statement record for one parsed command.
///
/// `original` is the full source text the command was parsed from and
/// `rendered` is the command's own rendering; which of the two the record
/// carries is `spec_statement_text`.  The build fails exactly when the
/// command gets no routing category.
pub fn build_statement(original: &str, rendered: String, c: Command) -> (r: Result<
    Statement,
    StmtError,
>)
    ensures
        r is Ok <==> spec_kind(c) is Some,
        r matches Ok(st) ==> {
            &&& Some(st.kind) == spec_kind(c)
            &&& st.is_iud == spec_is_iud(c)
            &&& st.is_insert == spec_is_insert(c)
            &&& st.stmt@ == spec_statement_text(original@, rendered@, c)
        },
        r matches Err(e) ==> spec_unsupported_error(c, e),
{
    let kind = match StmtKind::kind(&c) {
        Some(kind) => kind,
        None => {
            let unknown_pragma = match &c {
                Command::Pragma { name, .. } => {
                    if matches!(pragma_tier(name.as_str()), PragmaTier::Unknown) {
                        Some(name.clone())
                    } else {
                        None
                    }
                },
                _ => None,
            };
            return Err(StmtError::UnsupportedStatement { unknown_pragma });
        },
    };
    if let Command::CreateVirtualTable { .. } = &c {
        return Ok(
            Statement { stmt: original.to_owned(), kind, is_iud: false, is_insert: false },
        );
    }
    let is_iud = matches!(c, Command::Insert | Command::Update | Command::Delete);
    let is_insert = matches!(c, Command::Insert);
    Ok(Statement { stmt: rendered, kind, is_iud, is_insert })
}

impl Statement {
    /// The empty statement: no text, and arbitrarily of the read kind so it
    /// is never sent to a writer.
    pub fn empty() -> (r: Statement)
        ensures
            r.stmt@ == Seq::<char>::empty(),
            r.kind == StmtKind::Read,
            !r.is_iud,
            !r.is_insert,
    {
        Statement { stmt: String::new(), kind: StmtKind::Read, is_iud: false, is_insert: false }
    }

    /// True for the categories a replica may serve on their own: reads and
    /// transaction delimiters.
    pub fn is_read_only(&self) -> (r: bool)
        ensures
            r == (self.kind == StmtKind::Read || self.kind == StmtKind::TxnEnd || self.kind
                == StmtKind::TxnBegin),
    {
        matches!(self.kind, StmtKind::Read | StmtKind::TxnEnd | StmtKind::TxnBegin)
    }
}

impl Default for Statement {
    fn default() -> (r: Statement)
        ensures
            r.stmt@ == Seq::<char>::empty(),
            r.kind == StmtKind::Read,
            !r.is_iud,
            !r.is_insert,
    {
        Statement::empty()
    }
}

/// The routing categories of a sequence of statements, in order.
pub open spec fn kinds_of(stmts: Seq<Statement>) -> Seq<StmtKind> {
    stmts.map_values(|st: Statement| st.kind)
}

/// Given an initial state and an ordered batch of statements, predict the
/// transaction state the batch leaves the session in: the left fold of the
/// transition table over the statements' categories.
pub fn predict_final_state(state: State, stmts: &Vec<Statement>) -> (r: State)
    ensures
        r == spec_step_all(state, kinds_of(stmts@)),
{
    let ghost all: Seq<StmtKind> = kinds_of(stmts@);
    let mut s = state;
    proof {
        assert(all.skip(0) =~= all);
    }
    for i in 0..stmts.len()
        invariant
            all == kinds_of(stmts@),
            spec_step_all(state, all) == spec_step_all(s, all.skip(i as int)),
    {
        proof {
            assert(all.skip(i as int)[0] == all[i as int]);
            assert(all.skip(i as int).skip(1) =~= all.skip(i as int + 1));
        }
        s.step(stmts[i].kind);
    }
    proof {
        assert(all.skip(stmts@.len() as int) =~= Seq::<StmtKind>::empty());
    }
    s
}

/// Predicting over a concatenation of two batches is the same as predicting
/// over the first and then, from the state so reached, over the second.
pub proof fn lemma_predict_append(s: State, a: Seq<Statement>, b: Seq<Statement>)
    ensures
        spec_step_all(s, kinds_of(a + b)) == spec_step_all(spec_step_all(s, kinds_of(a)), kinds_of(b)),
{
    assert(kinds_of(a + b) =~= kinds_of(a) + kinds_of(b));
    crate::state::lemma_step_all_append(s, kinds_of(a), kinds_of(b));
}

} // verus!
