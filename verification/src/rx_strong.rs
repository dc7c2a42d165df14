//! The receiving end of a mailbox, which ends when no strong address is left.
//!
//! The channel receiver is wrapped in order to do an extra check when the channel has no
//! message ready. When there are no strong addresses left, the stream ends instead of waiting.
//! Otherwise the task registers to be woken up in case the count goes to zero while it waits.
use vstd::prelude::*;
use crate::strong_count::{StrongCount, count_after, CountOp};

verus! {

/// What polling the channel gave.
pub enum ChanPoll<T> {
    /// No message yet.
    Pending,
    /// A message, or `None` when the channel is closed and empty.
    Ready(Option<T>),
}

/// What polling the mailbox's receiver gives.
pub enum RxPoll<T> {
    /// Wait: the waker of the task was stored in the strong count, to be woken when the count
    /// reaches zero.
    PendingWakeOnZero,
    /// A message, or `None` when the stream of messages ends.
    Ready(Option<T>),
}

/// The next item of the mailbox's stream for what the channel gave and the strong count.
pub open spec fn next_item<T>(polled: ChanPoll<T>, count: nat) -> RxPoll<T> {
    match polled {
        ChanPoll::Pending => if count == 0 {
            RxPoll::Ready(None)
        } else {
            RxPoll::PendingWakeOnZero
        },
        ChanPoll::Ready(x) => RxPoll::Ready(x),
    }
}

/// The next item of the mailbox's stream, given what the channel gave and the strong count
/// at that moment. Anything but `Pending` is passed through. When the channel has nothing
/// and no strong address is left, the stream ends: messages already queued are still all
/// delivered, as the channel only returns `Pending` when it is empty.
pub fn poll_next<T>(polled: ChanPoll<T>, count: &StrongCount) -> (res: RxPoll<T>)
    ensures
        res == next_item(polled, count@),
{
    match polled {
        ChanPoll::Pending => {
            if count.count() == 0 {
                RxPoll::Ready(None)
            } else {
                RxPoll::PendingWakeOnZero
            }
        },
        ChanPoll::Ready(x) => RxPoll::Ready(x),
    }
}

/// When a strong address is dropped, the count reaches zero exactly when it was the last one,
/// and from then on the mailbox's stream ends as soon as the channel has nothing more: what
/// the channel still holds is delivered, one message after the other, whatever the count.
pub proof fn law_last_drop_ends_stream<T>(c: nat, x: Option<T>)
    requires
        c >= 1,
    ensures
        (count_after(c, seq![CountOp::Drop]) == 0) == (c == 1),
        c == 1 ==> next_item(ChanPoll::<T>::Pending, count_after(c, seq![CountOp::Drop]))
            == RxPoll::<T>::Ready(None),
        next_item(ChanPoll::Ready(x), count_after(c, seq![CountOp::Drop])) == RxPoll::Ready(x),
{
    let ops = seq![CountOp::Drop];
    assert(ops.drop_first() =~= Seq::<CountOp>::empty());
    assert(count_after(c, ops) == count_after((c - 1) as nat, ops.drop_first()));
    assert(count_after((c - 1) as nat, Seq::<CountOp>::empty()) == (c - 1) as nat);
}

/// While strong addresses exist, a mailbox with an empty channel waits (with its waker stored
/// to be woken when the count reaches zero) instead of ending.
pub proof fn law_alive_mailbox_waits<T>(count: nat)
    requires
        count > 0,
    ensures
        next_item(ChanPoll::<T>::Pending, count) is PendingWakeOnZero,
{
}

} // verus!
