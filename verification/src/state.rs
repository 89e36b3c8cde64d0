//! The transaction state machine.
//!
//! A session folds the routing category of each statement it executes into a
//! three-valued state that says whether an explicit transaction is open.  The
//! router uses the predicted final state of a batch to decide whether the
//! whole batch must be pinned to a single node.

use vstd::prelude::*;

use crate::kind::StmtKind;

verus! {

/// The state of a transaction for a series of statements.
#[derive(Debug, PartialEq, Eq, Clone, Copy, Structural)]
pub enum State {
    /// The txn is in an opened state
    Txn,
    /// The txn is in a closed state
    Init,
    /// This is an invalid state for the state machine: a begin/end pairing
    /// violation was observed
    Invalid,
}

/// The transition table of the state machine, applied one routing category at
/// a time.  `Invalid` is absorbing; `Read`, `Write` and `Other` never change
/// the state.
pub open spec fn spec_step(s: State, kind: StmtKind) -> State {
    match (s, kind) {
        (State::Txn, StmtKind::TxnBegin) | (State::Init, StmtKind::TxnEnd) => State::Invalid,
        (State::Txn, StmtKind::TxnEnd) => State::Init,
        (State::Invalid, _) => State::Invalid,
        (State::Init, StmtKind::TxnBegin) => State::Txn,
        (s, _) => s,
    }
}

/// Left fold of the transition table over a sequence of routing categories.
pub open spec fn spec_step_all(s: State, kinds: Seq<StmtKind>) -> State
    decreases kinds.len(),
{
    if kinds.len() == 0 {
        s
    } else {
        spec_step_all(spec_step(s, kinds[0]), kinds.skip(1))
    }
}

/// Folding a concatenation of two category sequences is the same as folding
/// the first and then folding the second from the state so reached.
pub proof fn lemma_step_all_append(s: State, a: Seq<StmtKind>, b: Seq<StmtKind>)
    ensures
        spec_step_all(s, a + b) == spec_step_all(spec_step_all(s, a), b),
    decreases a.len(),
{
    if a.len() == 0 {
        assert(a + b =~= b);
    } else {
        assert((a + b)[0] == a[0]);
        assert((a + b).skip(1) =~= a.skip(1) + b);
        lemma_step_all_append(spec_step(s, a[0]), a.skip(1), b);
    }
}

/// Once the machine has reached `Invalid`, no category sequence leaves it.
pub proof fn lemma_invalid_absorbing(kinds: Seq<StmtKind>)
    ensures
        spec_step_all(State::Invalid, kinds) == State::Invalid,
    decreases kinds.len(),
{
    if kinds.len() > 0 {
        lemma_invalid_absorbing(kinds.skip(1));
    }
}

impl State {
    /// Advance the state machine by one routing category.
    pub fn step(&mut self, kind: StmtKind)
        ensures
            *final(self) == spec_step(*old(self), kind),
    {
        *self = match (*self, kind) {
            (State::Txn, StmtKind::TxnBegin) | (State::Init, StmtKind::TxnEnd) => State::Invalid,
            (State::Txn, StmtKind::TxnEnd) => State::Init,
            (state, StmtKind::Other | StmtKind::Write | StmtKind::Read) => state,
            (State::Invalid, _) => State::Invalid,
            (State::Init, StmtKind::TxnBegin) => State::Txn,
        };
    }

    /// Force the state machine back to `Init`, for a session known to start
    /// fresh.
    pub fn reset(&mut self)
        ensures
            *final(self) == State::Init,
    {
        *self = State::Init;
    }
}

} // verus!
