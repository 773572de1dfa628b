//! A transition is a short sequence of ledger calls that counts as one unit
//! of work: either every call lands or the transition is rejected. The vault
//! decides; whoever holds the ledger performs each call and reports back.

use vstd::prelude::*;

use crate::error::{surfaced, LedgerError, VaultError};
use crate::ledger::{LedgerCall, LedgerState};

verus! {

/// Where a transition stands.
#[derive(Clone, Copy, Debug, PartialEq, Eq)]
pub enum Transition {
    /// `next` is to be made now, `later` after it has succeeded.
    Pending { next: LedgerCall, later: Option<LedgerCall> },
    /// Every call has succeeded.
    Complete,
    /// A call was refused; no further call is made.
    Aborted { error: VaultError },
}

impl Transition {
    /// The calls that are still to be made, in order.
    pub open spec fn remaining(self) -> Seq<LedgerCall> {
        match self {
            Transition::Pending { next, later: Some(second) } => seq![next, second],
            Transition::Pending { next, later: None } => seq![next],
            Transition::Complete => seq![],
            Transition::Aborted { error } => seq![],
        }
    }

    /// The transition after the ledger has answered the pending call. A
    /// success moves on to the next call; a refusal aborts with the error
    /// under which it is surfaced. A transition that is over stays as it is.
    pub open spec fn resumed(self, reply: Result<(), LedgerError>) -> Transition {
        match self {
            Transition::Pending { next, later } => match reply {
                Ok(_) => match later {
                    Some(second) => Transition::Pending { next: second, later: None },
                    None => Transition::Complete,
                },
                Err(error) => Transition::Aborted { error: surfaced(error) },
            },
            Transition::Complete => self,
            Transition::Aborted { error } => self,
        }
    }

    /// What the transition leaves of the books `state` when a ledger carries
    /// out its calls one after the other: the books after the last call, or
    /// the error of the first call that was refused.
    pub open spec fn run(self, state: LedgerState) -> Result<LedgerState, VaultError>
        decreases self.remaining().len(),
    {
        match self {
            Transition::Pending { next, later } => match state.apply(next) {
                Ok(after) => self.resumed(Ok(())).run(after),
                Err(error) => Err(surfaced(error)),
            },
            Transition::Complete => Ok(state),
            Transition::Aborted { error } => Err(error),
        }
    }

    /// The call to make now, if the transition is not over.
    pub fn pending(&self) -> (call: Option<LedgerCall>)
        ensures
            call == match *self {
                Transition::Pending { next, later } => Some(next),
                _ => None,
            },
    {
        match self {
            Transition::Pending { next, later } => Some(*next),
            _ => None,
        }
    }

    /// Takes the ledger's answer to the pending call and decides how the
    /// transition goes on.
    pub fn resume(self, reply: Result<(), LedgerError>) -> (after: Transition)
        ensures
            after == self.resumed(reply),
            after.remaining().len() < self.remaining().len() || after == self,
    {
        match self {
            Transition::Pending { next, later } => match reply {
                Ok(_) => match later {
                    Some(second) => Transition::Pending { next: second, later: None },
                    None => Transition::Complete,
                },
                Err(error) => Transition::Aborted { error: VaultError::from_ledger(error) },
            },
            Transition::Complete => self,
            Transition::Aborted { error } => self,
        }
    }

    /// How the transition ended: `None` while a call is pending.
    pub fn outcome(&self) -> (ended: Option<Result<(), VaultError>>)
        ensures
            ended == match *self {
                Transition::Pending { next, later } => None::<Result<(), VaultError>>,
                Transition::Complete => Some(Ok(())),
                Transition::Aborted { error } => Some(Err(error)),
            },
    {
        match self {
            Transition::Pending { next, later } => None,
            Transition::Complete => Some(Ok(())),
            Transition::Aborted { error } => Some(Err(*error)),
        }
    }
}

} // verus!
