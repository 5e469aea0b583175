use vstd::prelude::*;
use crate::events::{category_of, dispatch_event, spec_dispatch, Dispatched};
use crate::priority::TaskPriority;
use crate::stack::{NRF_ERROR_DATA_SIZE, NRF_ERROR_INVALID_ADDR, NRF_ERROR_NOT_FOUND, NRF_SUCCESS};

verus! {

/// Why a drain pass stopped.
#[derive(Clone, Copy, Debug, PartialEq, Eq, Structural)]
pub enum StopReason {
    /// The queue is empty: the normal end of a pass.
    QueueEmpty,
    /// The stack found the event buffer's address invalid.
    InvalidAddress,
    /// The event did not fit the buffer.
    BufferTooSmall,
    /// The stack returned a status that a fetch does not document.
    Unexpected(u32),
}

/// What the drain task does after one fetch from the event queue.
#[derive(Clone, Copy, Debug, PartialEq, Eq, Structural)]
pub enum DrainAction {
    /// An event was fetched and went to this handler; fetch again.
    Dispatch(Dispatched),
    /// The pass is over. An error is logged and not retried: the next
    /// notification starts a new pass.
    Stop(StopReason),
}

pub open spec fn spec_stop_reason(status: u32) -> StopReason {
    if status == NRF_ERROR_NOT_FOUND {
        StopReason::QueueEmpty
    } else if status == NRF_ERROR_INVALID_ADDR {
        StopReason::InvalidAddress
    } else if status == NRF_ERROR_DATA_SIZE {
        StopReason::BufferTooSmall
    } else {
        StopReason::Unexpected(status)
    }
}

/// The action after a fetch returned `status`, the event (if any) having
/// identifier `evt_id`.
pub open spec fn spec_drain_step(status: u32, evt_id: u16) -> DrainAction {
    if status == NRF_SUCCESS {
        DrainAction::Dispatch(spec_dispatch(evt_id))
    } else {
        DrainAction::Stop(spec_stop_reason(status))
    }
}

/// The actions of a pass over the results of successive fetches: one per
/// fetch, up to and including the first that stops it.
pub open spec fn spec_run_pass(fetches: Seq<(u32, u16)>) -> Seq<DrainAction>
    decreases fetches.len(),
{
    if fetches.len() == 0 {
        Seq::empty()
    } else {
        let a = spec_drain_step(fetches[0].0, fetches[0].1);
        if a is Stop {
            seq![a]
        } else {
            seq![a] + spec_run_pass(fetches.drop_first())
        }
    }
}

/// One pass of the event drain task, woken by the relay of the stack's
/// notification interrupt.
pub struct DrainPass {
    finished: bool,
}

impl View for DrainPass {
    /// Whether the pass has stopped.
    type V = bool;

    closed spec fn view(&self) -> bool {
        self.finished
    }
}

impl DrainPass {
    /// Starts a pass. Fetching events is a supervisor call, so the drain task
    /// must run below the stack's SVC level.
    pub fn new(caller: &TaskPriority) -> (p: DrainPass)
        requires
            caller.spec_can_call_stack(),
        ensures
            !p@,
    {
        DrainPass { finished: false }
    }

    pub fn is_finished(&self) -> (r: bool)
        ensures
            r == self@,
    {
        self.finished
    }

    /// Takes in the result of one fetch: on an event, routes it to its
    /// handler; on an empty queue or an error, ends the pass. A pass never
    /// starts another one.
    pub fn step(&mut self, status: u32, evt_id: u16) -> (a: DrainAction)
        requires
            !old(self)@,
        ensures
            a == spec_drain_step(status, evt_id),
            final(self)@ == (a is Stop),
    {
        if status == NRF_SUCCESS {
            DrainAction::Dispatch(dispatch_event(evt_id))
        } else {
            self.finished = true;
            let reason = if status == NRF_ERROR_NOT_FOUND {
                StopReason::QueueEmpty
            } else if status == NRF_ERROR_INVALID_ADDR {
                StopReason::InvalidAddress
            } else if status == NRF_ERROR_DATA_SIZE {
                StopReason::BufferTooSmall
            } else {
                StopReason::Unexpected(status)
            };
            DrainAction::Stop(reason)
        }
    }
}

/// A pass over a queue that reports empty at fetch `n` ends by then: it
/// takes at most `n + 1` actions, the last one stops it and every earlier
/// one dispatches an event. When the fetches before `n` all delivered
/// events, the pass dispatches exactly those `n` events and stops on the
/// empty queue.
pub proof fn lemma_drain_terminates(fetches: Seq<(u32, u16)>, n: int)
    requires
        0 <= n < fetches.len(),
        fetches[n].0 == NRF_ERROR_NOT_FOUND,
    ensures
        1 <= spec_run_pass(fetches).len() <= n + 1,
        spec_run_pass(fetches).last() is Stop,
        forall|j: int| 0 <= j < spec_run_pass(fetches).len() - 1 ==> #[trigger] spec_run_pass(fetches)[j] is Dispatch,
        (forall|j: int| 0 <= j < n ==> #[trigger] fetches[j].0 == NRF_SUCCESS) ==> spec_run_pass(fetches).len() == n + 1
            && spec_run_pass(fetches).last() == DrainAction::Stop(StopReason::QueueEmpty),
    decreases n,
{
    let a = spec_drain_step(fetches[0].0, fetches[0].1);
    if n == 0 {
        assert(a == DrainAction::Stop(StopReason::QueueEmpty));
    } else if a is Stop {
        if forall|j: int| 0 <= j < n ==> #[trigger] fetches[j].0 == NRF_SUCCESS {
            assert(fetches[0].0 == NRF_SUCCESS);
        }
    } else {
        let rest = fetches.drop_first();
        assert(rest[n - 1] == fetches[n]);
        lemma_drain_terminates(rest, n - 1);
        let r = spec_run_pass(rest);
        assert(spec_run_pass(fetches) == seq![a] + r);
        assert forall|j: int| 0 <= j < spec_run_pass(fetches).len() - 1 implies #[trigger] spec_run_pass(fetches)[j] is Dispatch by {
            if j > 0 {
                assert(spec_run_pass(fetches)[j] == r[j - 1]);
            }
        }
        if forall|j: int| 0 <= j < n ==> #[trigger] fetches[j].0 == NRF_SUCCESS {
            assert forall|j: int| 0 <= j < n - 1 implies #[trigger] rest[j].0 == NRF_SUCCESS by {
                assert(rest[j] == fetches[j + 1]);
            }
        }
    }
}

/// In every pass, each action that dispatches an event calls exactly the
/// handler that the range table gives for that event's identifier.
pub proof fn lemma_pass_dispatch_matches_table(fetches: Seq<(u32, u16)>)
    ensures
        spec_run_pass(fetches).len() <= fetches.len(),
        forall|j: int|
            0 <= j < spec_run_pass(fetches).len() && (#[trigger] spec_run_pass(fetches)[j] is Dispatch)
                ==> spec_run_pass(fetches)[j] == DrainAction::Dispatch(spec_dispatch(fetches[j].1))
                && spec_dispatch(fetches[j].1).category() == category_of(fetches[j].1),
    decreases fetches.len(),
{
    if fetches.len() > 0 {
        let a = spec_drain_step(fetches[0].0, fetches[0].1);
        if !(a is Stop) {
            let rest = fetches.drop_first();
            lemma_pass_dispatch_matches_table(rest);
            let r = spec_run_pass(rest);
            assert(spec_run_pass(fetches) == seq![a] + r);
            assert forall|j: int|
                0 <= j < spec_run_pass(fetches).len() && (#[trigger] spec_run_pass(fetches)[j] is Dispatch)
                implies spec_run_pass(fetches)[j] == DrainAction::Dispatch(spec_dispatch(fetches[j].1))
                && spec_dispatch(fetches[j].1).category() == category_of(fetches[j].1) by {
                if j > 0 {
                    assert(spec_run_pass(fetches)[j] == r[j - 1]);
                    assert(rest[j - 1] == fetches[j]);
                }
            }
        }
    }
}

} // verus!
