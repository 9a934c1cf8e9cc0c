//! Single-slot, last-writer-wins handoff of one sample from the interrupt
//! handler to the foreground. Every access runs inside an interrupt-free
//! critical section, so each `publish` and each `take` is one atomic step.
use vstd::prelude::*;

verus! {

/// At most one sample waiting for the foreground.
#[derive(PartialEq, Eq, Structural, Clone, Copy, Debug)]
pub struct Mailbox {
    pub slot: Option<u16>,
}

/// One access to the mailbox.
#[derive(PartialEq, Eq, Structural, Clone, Copy, Debug)]
pub enum MailboxOp {
    Publish(u16),
    Take,
}

impl Mailbox {
    /// An empty mailbox, as at boot.
    pub fn new() -> (r: Mailbox)
        ensures
            r.slot is None,
    {
        Mailbox { slot: None }
    }

    /// Stores `sample`, replacing any unread one.
    pub fn publish(&mut self, sample: u16)
        ensures
            final(self).slot == Some(sample),
    {
        self.slot = Some(sample);
    }

    /// Hands out the waiting sample, if any, and leaves the slot empty.
    pub fn take(&mut self) -> (r: Option<u16>)
        ensures
            r == old(self).slot,
            final(self).slot is None,
    {
        let r = self.slot;
        self.slot = None;
        r
    }

    /// Whether a sample is waiting.
    pub fn is_full(&self) -> (r: bool)
        ensures
            r == self.slot is Some,
    {
        self.slot.is_some()
    }
}

/// The slot after one access.
pub open spec fn slot_after(slot: Option<u16>, op: MailboxOp) -> Option<u16> {
    match op {
        MailboxOp::Publish(v) => Some(v),
        MailboxOp::Take => None,
    }
}

/// The slot after a run of accesses from `slot`.
pub open spec fn slot_after_all(slot: Option<u16>, ops: Seq<MailboxOp>) -> Option<u16>
    decreases ops.len(),
{
    if ops.len() == 0 {
        slot
    } else {
        slot_after(slot_after_all(slot, ops.drop_last()), ops.last())
    }
}

/// The values handed out by the takes of a run of accesses from `slot`, in order.
pub open spec fn taken(slot: Option<u16>, ops: Seq<MailboxOp>) -> Seq<u16>
    decreases ops.len(),
{
    if ops.len() == 0 {
        Seq::empty()
    } else {
        let before = taken(slot, ops.drop_last());
        match (ops.last(), slot_after_all(slot, ops.drop_last())) {
            (MailboxOp::Take, Some(v)) => before.push(v),
            _ => before,
        }
    }
}

/// How many publishes a run of accesses holds.
pub open spec fn publish_count(ops: Seq<MailboxOp>) -> nat
    decreases ops.len(),
{
    if ops.len() == 0 {
        0
    } else {
        publish_count(ops.drop_last()) + if ops.last() is Publish {
            1nat
        } else {
            0nat
        }
    }
}

/// Whether `v` is published somewhere in `ops`.
pub open spec fn published(ops: Seq<MailboxOp>, v: u16) -> bool {
    exists|j: int| 0 <= j < ops.len() && ops[j] == MailboxOp::Publish(v)
}

/// Starting from an empty mailbox, the takes of any run hand out at most
/// one value per publish, and every value handed out is one that was
/// published whole.
pub proof fn lemma_exclusive(ops: Seq<MailboxOp>)
    ensures
        taken(None, ops).len() <= publish_count(ops),
        forall|i: int| 0 <= i < taken(None, ops).len() ==> published(ops, #[trigger] taken(None, ops)[i]),
    decreases ops.len(),
{
    if ops.len() > 0 {
        let pre = ops.drop_last();
        lemma_exclusive(pre);
        lemma_slot_origin(pre);
        assert forall|i: int| 0 <= i < taken(None, ops).len() implies published(ops, #[trigger] taken(None, ops)[i]) by {
            if i < taken(None, pre).len() {
                let v = taken(None, pre)[i];
                assert(taken(None, ops)[i] == v);
                let j = choose|j: int| 0 <= j < pre.len() && pre[j] == MailboxOp::Publish(v);
                assert(ops[j] == MailboxOp::Publish(v));
            } else {
                let v = slot_after_all(None, pre).unwrap();
                let j = choose|j: int| 0 <= j < pre.len() && pre[j] == MailboxOp::Publish(v);
                assert(ops[j] == MailboxOp::Publish(v));
            }
        }
    }
}

/// From an empty mailbox, a full slot holds a published value, and the
/// takes so far have left one publish unconsumed for it.
proof fn lemma_slot_origin(ops: Seq<MailboxOp>)
    ensures
        slot_after_all(None, ops) matches Some(v) ==> published(ops, v) && taken(None, ops).len() + 1
            <= publish_count(ops),
        taken(None, ops).len() <= publish_count(ops),
    decreases ops.len(),
{
    if ops.len() > 0 {
        lemma_slot_origin(ops.drop_last());
        if let MailboxOp::Publish(v) = ops.last() {
            assert(ops[ops.len() - 1] == MailboxOp::Publish(v));
        }
    }
}

/// Two publishes with no take between them: the next take hands out the
/// second value, and the first is never seen.
pub proof fn lemma_last_writer_wins(slot: Option<u16>, a: u16, b: u16)
    ensures
        taken(slot, seq![MailboxOp::Publish(a), MailboxOp::Publish(b), MailboxOp::Take]) == seq![b],
{
    let ops = seq![MailboxOp::Publish(a), MailboxOp::Publish(b), MailboxOp::Take];
    reveal_with_fuel(taken, 4);
    reveal_with_fuel(slot_after_all, 4);
    assert(ops.drop_last().drop_last().drop_last() =~= Seq::<MailboxOp>::empty());
    assert(ops.drop_last().drop_last() =~= seq![MailboxOp::Publish(a)]);
    assert(ops.drop_last() =~= seq![MailboxOp::Publish(a), MailboxOp::Publish(b)]);
    assert(taken(slot, ops) =~= seq![b]);
}

/// A take before any publish hands out nothing.
pub proof fn lemma_take_empty(ops: Seq<MailboxOp>)
    requires
        ops.len() > 0,
        ops[0] == MailboxOp::Take,
    ensures
        taken(None, ops.take(1)) == Seq::<u16>::empty(),
{
    reveal_with_fuel(taken, 2);
    reveal_with_fuel(slot_after_all, 2);
    assert(ops.take(1).drop_last() =~= Seq::<MailboxOp>::empty());
}

} // verus!
