//! Strong and weak addresses. When all strong addresses to a mailbox are dropped, the
//! mailbox shuts down; weak addresses do not keep it alive.
//!
//! Sending is already fallible, so a weak address refuses to send (with `MailboxClosed`)
//! once the strong count is zero. The mailbox still processes the messages already in its
//! queue and stops as soon as the queue is empty. A weak address can be upgraded to a strong
//! one as long as the strong count is not zero; once it reached zero it stays there.
//!
//! The count lives behind a lock shared by the addresses and the mailbox; the functions here
//! are what happens under that lock.
use vstd::prelude::*;
use std::sync::Arc;
use crate::actor_info::ActorInfo;
use crate::error::ThesErr;

verus! {

/// The number of strong addresses that exist for a mailbox.
#[derive(Debug)]
pub struct StrongCount {
    count: usize,
}

impl View for StrongCount {
    type V = nat;

    closed spec fn view(&self) -> nat {
        self.count as nat
    }
}

impl StrongCount {
    /// A count of zero: no address made yet.
    pub fn new() -> (res: Self)
        ensures
            res@ == 0,
    {
        StrongCount { count: 0 }
    }

    /// Read the current count.
    pub fn count(&self) -> (res: usize)
        ensures
            res == self@,
    {
        self.count
    }

    /// Count one more strong address. Returns the old value.
    pub fn increment(&mut self) -> (res: usize)
        requires
            old(self)@ < usize::MAX,
        ensures
            res == old(self)@,
            final(self)@ == old(self)@ + 1,
            final(self)@ == count_after(old(self)@, seq![CountOp::Clone]),
    {
        proof {
            lemma_count_after_one(old(self)@, CountOp::Clone);
        }
        let old_count = self.count;
        self.count = self.count + 1;
        old_count
    }

    /// Count one strong address less. Returns whether the count reached zero: then the
    /// mailbox, if it waits for messages, must be woken up so it can shut down. There must be
    /// a strong address to drop: one cannot drop more addresses than were ever created.
    pub fn decrement(&mut self) -> (wake: bool)
        requires
            old(self)@ >= 1,
        ensures
            final(self)@ == old(self)@ - 1,
            final(self)@ == count_after(old(self)@, seq![CountOp::Drop]),
            wake == (final(self)@ == 0),
    {
        proof {
            lemma_count_after_one(old(self)@, CountOp::Drop);
        }
        let old_count = self.count;
        self.count = self.count - 1;
        old_count == 1
    }

    /// Make a new strong address from a weak one: count it if there are still strong
    /// addresses around. Once the count reached zero, no new strong address can be made.
    pub fn try_upgrade(&mut self) -> (res: bool)
        requires
            old(self)@ < usize::MAX,
        ensures
            res == (old(self)@ != 0),
            final(self)@ == if res {
                old(self)@ + 1
            } else {
                old(self)@
            },
            final(self)@ == count_after(old(self)@, seq![CountOp::Upgrade]),
    {
        proof {
            lemma_count_after_one(old(self)@, CountOp::Upgrade);
        }
        if self.count == 0 {
            false
        } else {
            self.count = self.count + 1;
            true
        }
    }
}

/// Turn a weak address into a strong one (`TryFrom` of an address for a strong address):
/// `MailboxClosed` if no strong address is left, else one more strong address is counted.
pub fn upgrade(strong: &mut StrongCount, info: Arc<ActorInfo>) -> (res: Result<(), ThesErr>)
    requires
        old(strong)@ < usize::MAX,
    ensures
        res is Ok <==> old(strong)@ != 0,
        res is Ok ==> final(strong)@ == old(strong)@ + 1,
        res is Err ==> final(strong)@ == old(strong)@,
        res is Err ==> (res matches Err(ThesErr::MailboxClosed { info: i }) && i == info),
{
    if strong.try_upgrade() {
        Ok(())
    } else {
        Err(ThesErr::MailboxClosed { info })
    }
}

/// Whether a weak address may accept a message: when no strong address is left it no longer
/// does, and gives `MailboxClosed`.
pub fn weak_send_gate(strong: &StrongCount, info: Arc<ActorInfo>) -> (res: Option<ThesErr>)
    ensures
        res is Some <==> strong@ == 0,
        res matches Some(e) ==> (e matches ThesErr::MailboxClosed { info: i } && i == info),
{
    if strong.count() == 0 {
        Some(ThesErr::MailboxClosed { info })
    } else {
        None
    }
}

/// What happens to the strong count of a mailbox.
pub enum CountOp {
    /// A strong address is cloned ([`StrongCount::increment`] by the holder of one).
    Clone,
    /// A strong address is dropped ([`StrongCount::decrement`]).
    Drop,
    /// A weak address is upgraded ([`StrongCount::try_upgrade`]).
    Upgrade,
}

/// Whether the operations can happen in this order from a count of `c`: cloning and
/// dropping a strong address need one to exist.
pub open spec fn ops_possible(c: nat, ops: Seq<CountOp>) -> bool
    decreases ops.len(),
{
    if ops.len() == 0 {
        true
    } else {
        match ops[0] {
            CountOp::Clone => c >= 1 && ops_possible(c + 1, ops.drop_first()),
            CountOp::Drop => c >= 1 && ops_possible((c - 1) as nat, ops.drop_first()),
            CountOp::Upgrade => ops_possible(if c != 0 { c + 1 } else { c }, ops.drop_first()),
        }
    }
}

/// The count after the operations, as the functions of [`StrongCount`] change it.
pub open spec fn count_after(c: nat, ops: Seq<CountOp>) -> nat
    decreases ops.len(),
{
    if ops.len() == 0 {
        c
    } else {
        match ops[0] {
            CountOp::Clone => count_after(c + 1, ops.drop_first()),
            CountOp::Drop => count_after((c - 1) as nat, ops.drop_first()),
            CountOp::Upgrade => count_after(if c != 0 { c + 1 } else { c }, ops.drop_first()),
        }
    }
}

/// The count after one operation.
proof fn lemma_count_after_one(c: nat, op: CountOp)
    ensures
        count_after(c, seq![op]) == match op {
            CountOp::Clone => c + 1,
            CountOp::Drop => (c - 1) as nat,
            CountOp::Upgrade => if c != 0 {
                c + 1
            } else {
                c
            },
        },
{
    let ops = seq![op];
    assert(ops.drop_first() =~= Seq::<CountOp>::empty());
    assert(ops[0] == op);
    let next = match op {
        CountOp::Clone => c + 1,
        CountOp::Drop => (c - 1) as nat,
        CountOp::Upgrade => if c != 0 {
            c + 1
        } else {
            c
        },
    };
    assert(count_after(c, ops) == count_after(next, ops.drop_first()));
    assert(count_after(next, Seq::<CountOp>::empty()) == next);
}

/// Once no strong address is left, none can come back: whatever clones, drops and upgrades
/// can still happen, the count stays zero (so every upgrade fails and weak addresses refuse
/// every message).
pub proof fn law_closed_stays_closed(ops: Seq<CountOp>)
    requires
        ops_possible(0, ops),
    ensures
        count_after(0, ops) == 0,
    decreases ops.len(),
{
    if ops.len() > 0 {
        law_closed_stays_closed(ops.drop_first());
    }
}

} // verus!
