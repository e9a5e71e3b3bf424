//! The calls on the supervisor, and the processes they leave alive.
//!
//! A process is live from the moment the supervisor comes to hold it until
//! the supervisor hands it out for termination. The laws here say that the
//! calls, in any number and any order, leave no live process but the one
//! that is held: it takes no more than that each call has the supervisor to
//! itself.

use crate::error::SetupErrorView;
use crate::supervisor::{displaced_by, held_after};
use vstd::prelude::*;

verus! {

/// One call that changes what the supervisor holds.
pub enum Call<H> {
    /// The supervisor gives up what it holds, as a restart and a shutdown
    /// begin by doing.
    GiveUp,
    /// An attempt to start the backend is settled.
    Settle { outcome: Result<H, SetupErrorView> },
}

/// One whole operation, made by a caller that has the supervisor to itself
/// from beginning to end. A start or restart carries how its attempt to
/// start the backend ends, should it come to make one.
pub enum WholeOperation<H> {
    StartSetup { outcome: Result<H, SetupErrorView> },
    Restart { outcome: Result<H, SetupErrorView> },
    Shutdown,
}

/// The processes in play.
#[verifier::reject_recursive_types(H)]
pub struct Ledger<H> {
    /// The process the supervisor holds, as its view tells.
    pub held: Option<H>,
    /// Every process that came to be held and has not been handed out for
    /// termination since.
    pub live: Set<H>,
}

/// The processes among `held`: one or none.
pub open spec fn handles<H>(held: Option<H>) -> Set<H> {
    match held {
        Some(handle) => set![handle],
        None => Set::empty(),
    }
}

impl<H> Ledger<H> {
    /// The ledger of a new supervisor.
    pub open spec fn fresh() -> Ledger<H> {
        Ledger { held: None, live: Set::empty() }
    }

    /// Whether the live processes are exactly what is held.
    pub open spec fn balanced(self) -> bool {
        self.live == handles(self.held)
    }

    /// The ledger after the supervisor gave up what it held.
    pub open spec fn given_up(self) -> Ledger<H> {
        Ledger { held: None, live: self.live - handles(self.held) }
    }

    /// The ledger after an attempt to start the backend was settled: what it
    /// started is live, what it displaced is not.
    pub open spec fn settled(self, outcome: Result<H, SetupErrorView>) -> Ledger<H> {
        Ledger {
            held: held_after(self.held, outcome),
            live: (self.live - handles(displaced_by(self.held, outcome))) + handles(
                held_after(self.held, outcome),
            ),
        }
    }

    /// The ledger after one call.
    pub open spec fn after_call(self, call: Call<H>) -> Ledger<H> {
        match call {
            Call::GiveUp => self.given_up(),
            Call::Settle { outcome } => self.settled(outcome),
        }
    }

    /// The ledger after a series of calls, one after the other.
    pub open spec fn after_calls(self, calls: Seq<Call<H>>) -> Ledger<H>
        decreases calls.len(),
    {
        if calls.len() == 0 {
            self
        } else {
            self.after_calls(calls.drop_last()).after_call(calls.last())
        }
    }

    /// The ledger after a series of whole operations, one after the other.
    pub open spec fn after_operations(self, operations: Seq<WholeOperation<H>>) -> Ledger<H>
        decreases operations.len(),
    {
        if operations.len() == 0 {
            self
        } else {
            self.after_operations(operations.drop_last()).after_operation(operations.last())
        }
    }

    /// The ledger after one whole operation.
    pub open spec fn after_operation(self, operation: WholeOperation<H>) -> Ledger<H> {
        match operation {
            WholeOperation::StartSetup { outcome } => if self.held is Some {
                self
            } else {
                self.settled(outcome)
            },
            WholeOperation::Restart { outcome } => self.given_up().settled(outcome),
            WholeOperation::Shutdown => self.given_up(),
        }
    }
}

/// One or no process is among what is held.
pub proof fn at_most_one_handle<H>(held: Option<H>)
    ensures
        handles(held).finite(),
        handles(held).len() == (if held is Some {
            1nat
        } else {
            0nat
        }),
{
}

/// Every call keeps the ledger balanced: what is live afterwards is exactly
/// what is held afterwards.
pub proof fn every_call_keeps_balance<H>(ledger: Ledger<H>, call: Call<H>)
    requires
        ledger.balanced(),
    ensures
        ledger.after_call(call).balanced(),
{
    let after = ledger.after_call(call);
    assert(after.live =~= handles(after.held));
}

/// Every whole operation keeps the ledger balanced.
pub proof fn every_operation_keeps_balance<H>(ledger: Ledger<H>, operation: WholeOperation<H>)
    requires
        ledger.balanced(),
    ensures
        ledger.after_operation(operation).balanced(),
{
    match operation {
        WholeOperation::StartSetup { outcome } => {
            if ledger.held is None {
                every_call_keeps_balance(ledger, Call::Settle { outcome });
            }
        },
        WholeOperation::Restart { outcome } => {
            every_call_keeps_balance(ledger, Call::GiveUp);
            every_call_keeps_balance(ledger.given_up(), Call::Settle { outcome });
        },
        WholeOperation::Shutdown => {
            every_call_keeps_balance(ledger, Call::GiveUp);
        },
    }
}

/// A start on a supervisor that holds a process changes nothing: the process
/// stays held, and no other comes to live.
pub proof fn start_while_running_changes_nothing<H>(
    ledger: Ledger<H>,
    outcome: Result<H, SetupErrorView>,
)
    requires
        ledger.held is Some,
    ensures
        ledger.after_operation(WholeOperation::StartSetup { outcome }) == ledger,
{
}

/// A restart leaves at most one live process, whatever was held before: the
/// one it started, or none where the start failed.
pub proof fn restart_leaves_at_most_one<H>(ledger: Ledger<H>, outcome: Result<H, SetupErrorView>)
    requires
        ledger.balanced(),
    ensures
        ({
            let after = ledger.after_operation(WholeOperation::Restart { outcome });
            &&& after.held == (match outcome {
                Ok(handle) => Some(handle),
                Err(error) => None,
            })
            &&& after.live == handles(after.held)
            &&& after.live.len() <= 1
        }),
{
    let after = ledger.after_operation(WholeOperation::Restart { outcome });
    every_operation_keeps_balance(ledger, WholeOperation::Restart { outcome });
    at_most_one_handle(after.held);
}

/// A shutdown leaves nothing held and nothing live, whatever was held before.
pub proof fn shutdown_leaves_nothing<H>(ledger: Ledger<H>)
    requires
        ledger.balanced(),
    ensures
        ledger.after_operation(WholeOperation::Shutdown).held is None,
        ledger.after_operation(WholeOperation::Shutdown).live == Set::<H>::empty(),
{
    every_operation_keeps_balance(ledger, WholeOperation::Shutdown);
}

/// Whole operations, in whatever number and order they come, never leave
/// two live processes: what is live is what is held.
pub proof fn operations_in_any_order_leave_at_most_one<H>(operations: Seq<WholeOperation<H>>)
    ensures
        Ledger::<H>::fresh().after_operations(operations).balanced(),
        Ledger::<H>::fresh().after_operations(operations).live.len() <= 1,
    decreases operations.len(),
{
    let fresh = Ledger::<H>::fresh();
    if operations.len() == 0 {
        assert(fresh.live =~= handles(fresh.held));
    } else {
        operations_in_any_order_leave_at_most_one(operations.drop_last());
        every_operation_keeps_balance(
            fresh.after_operations(operations.drop_last()),
            operations.last(),
        );
    }
    at_most_one_handle(fresh.after_operations(operations).held);
}

/// Calls that take the supervisor in turn never leave two live processes,
/// in whatever number and order they come, and so however the operations
/// that make them run side by side: what is live is what is held.
pub proof fn calls_in_any_order_leave_at_most_one<H>(calls: Seq<Call<H>>)
    ensures
        Ledger::<H>::fresh().after_calls(calls).balanced(),
        Ledger::<H>::fresh().after_calls(calls).live.len() <= 1,
    decreases calls.len(),
{
    let fresh = Ledger::<H>::fresh();
    if calls.len() == 0 {
        assert(fresh.live =~= handles(fresh.held));
    } else {
        calls_in_any_order_leave_at_most_one(calls.drop_last());
        every_call_keeps_balance(fresh.after_calls(calls.drop_last()), calls.last());
    }
    at_most_one_handle(fresh.after_calls(calls).held);
}

} // verus!
