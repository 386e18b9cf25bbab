//! The engine-notification pump: a dedicated worker receives typed messages
//! from the inner machine over a bounded channel and forwards each one's u32
//! code to the host messenger, in order, stopping at the first failure and
//! never retrying.

use vstd::prelude::*;

verus! {

/// Capacity of the bounded channel between the inner machine and the pump.
pub const NOTIFY_CHANNEL_CAPACITY: usize = 100;

/// What the pump does after one receive on the channel.
#[derive(Debug, Clone, Copy, PartialEq, Eq, Structural)]
pub enum PumpAction {
    /// Forward this message code to the host messenger.
    Notify(u32),
    /// The sender was dropped; terminate silently.
    StopClosed,
}

/// What the pump does after one notify attempt.
#[derive(Debug, Clone, Copy, PartialEq, Eq, Structural)]
pub enum PumpDirective {
    /// Delivery succeeded; receive the next message.
    Continue,
    /// Delivery failed; terminate and raise the shutdown signal. Retrying
    /// would duplicate a notification, which the host forbids.
    StopFailure,
}

/// Decides the pump's next move for one received value: a message is
/// forwarded under its own code, channel closure stops the worker silently.
pub fn pump_on_receive(received: Option<u32>) -> (a: PumpAction)
    ensures
        received matches Some(m) ==> a == PumpAction::Notify(m),
        received is None ==> a == PumpAction::StopClosed,
{
    match received {
        Some(m) => PumpAction::Notify(m),
        None => PumpAction::StopClosed,
    }
}

/// Decides the pump's next move once a notify attempt came back: go on after
/// a success, stop (without retrying) after a failure.
pub fn pump_after_notify(delivered: bool) -> (d: PumpDirective)
    ensures
        d == (if delivered {
            PumpDirective::Continue
        } else {
            PumpDirective::StopFailure
        }),
{
    if delivered {
        PumpDirective::Continue
    } else {
        PumpDirective::StopFailure
    }
}

/// The notify calls the host messenger observes when the inner machine
/// enqueues `msgs` in order and the i-th attempted delivery succeeds exactly
/// when `delivered[i]`: each message is attempted in turn, and the first
/// failed delivery stops the pump.
pub open spec fn pump_attempts(msgs: Seq<u32>, delivered: Seq<bool>) -> Seq<u32>
    recommends
        delivered.len() == msgs.len(),
    decreases msgs.len(),
{
    if msgs.len() == 0 {
        Seq::<u32>::empty()
    } else if delivered[0] {
        seq![msgs[0]] + pump_attempts(msgs.drop_first(), delivered.drop_first())
    } else {
        seq![msgs[0]]
    }
}

/// Notification order is kept: whatever the delivery outcomes, the host
/// messenger observes a prefix of the enqueued messages, in their order,
/// with no duplicates and no omissions; the pump stops early only at a
/// failed delivery; and when every delivery succeeds, it observes all of
/// them.
pub proof fn lemma_pump_fifo(msgs: Seq<u32>, delivered: Seq<bool>)
    requires
        delivered.len() == msgs.len(),
    ensures
        pump_attempts(msgs, delivered).len() <= msgs.len(),
        forall|i: int|
            0 <= i < pump_attempts(msgs, delivered).len() ==> pump_attempts(msgs, delivered)[i]
                == msgs[i],
        forall|i: int| 0 <= i < pump_attempts(msgs, delivered).len() - 1 ==> delivered[i],
        pump_attempts(msgs, delivered).len() < msgs.len() ==> !delivered[pump_attempts(
            msgs,
            delivered,
        ).len() - 1],
        (forall|i: int| 0 <= i < delivered.len() ==> delivered[i]) ==> pump_attempts(
            msgs,
            delivered,
        ) == msgs,
    decreases msgs.len(),
{
    if msgs.len() > 0 && delivered[0] {
        let t = pump_attempts(msgs, delivered);
        let rec = pump_attempts(msgs.drop_first(), delivered.drop_first());
        lemma_pump_fifo(msgs.drop_first(), delivered.drop_first());
        assert forall|i: int| 0 <= i < t.len() implies t[i] == msgs[i] by {
            if i > 0 {
                assert(t[i] == rec[i - 1]);
                assert(msgs.drop_first()[i - 1] == msgs[i]);
            }
        }
        assert forall|i: int| 0 <= i < t.len() - 1 implies delivered[i] by {
            if i > 0 {
                assert(delivered.drop_first()[i - 1] == delivered[i]);
            }
        }
        if t.len() < msgs.len() {
            assert(!delivered.drop_first()[rec.len() - 1]);
        }
        if forall|i: int| 0 <= i < delivered.len() ==> delivered[i] {
            assert(forall|i: int|
                0 <= i < delivered.drop_first().len() ==> delivered.drop_first()[i]);
            assert(seq![msgs[0]] + msgs.drop_first() =~= msgs);
        }
    }
}

} // verus!
