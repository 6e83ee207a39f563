use vstd::prelude::*;

verus! {

/// A broadcast notification with no payload and no memory: `raise` wakes every
/// waiter registered before it, and a waiter registered afterwards waits for
/// the next raise. Each waiter holds a ticket, the index of its slot; a slot is
/// `true` once a raise has come after its registration.
pub struct SettlementSignal {
    woken: Vec<bool>,
}

/// The slots after one more waiter registers.
pub open spec fn with_waiter(slots: Seq<bool>) -> Seq<bool> {
    slots.push(false)
}

/// The slots after a raise: every registered waiter is woken.
pub open spec fn raised(slots: Seq<bool>) -> Seq<bool> {
    Seq::new(slots.len(), |i: int| true)
}

/// The slots after `n` more waiters register.
pub open spec fn with_waiters(slots: Seq<bool>, n: nat) -> Seq<bool>
    decreases n,
{
    if n == 0 {
        slots
    } else {
        with_waiter(with_waiters(slots, (n - 1) as nat))
    }
}

/// Whether the waiter holding `ticket` has been woken.
pub open spec fn is_woken_in(slots: Seq<bool>, ticket: int) -> bool {
    0 <= ticket < slots.len() && slots[ticket]
}

impl View for SettlementSignal {
    type V = Seq<bool>;

    closed spec fn view(&self) -> Seq<bool> {
        self.woken@
    }
}

impl SettlementSignal {
    /// A signal with no waiters.
    pub fn new() -> (r: Self)
        ensures
            r@ == Seq::<bool>::empty(),
    {
        SettlementSignal { woken: Vec::new() }
    }

    /// Registers a waiter and returns its ticket; it is not woken yet.
    pub fn begin_wait(&mut self) -> (ticket: usize)
        ensures
            final(self)@ == with_waiter(old(self)@),
            ticket == old(self)@.len(),
    {
        let ticket = self.woken.len();
        self.woken.push(false);
        ticket
    }

    /// Wakes every waiter registered so far.
    pub fn raise(&mut self)
        ensures
            final(self)@ == raised(old(self)@),
    {
        let n = self.woken.len();
        let mut i: usize = 0;
        while i < n
            invariant
                n == old(self)@.len(),
                self.woken@.len() == n,
                0 <= i <= n,
                forall|j: int| 0 <= j < i ==> self.woken@[j],
            decreases n - i,
        {
            self.woken.set(i, true);
            i = i + 1;
        }
        assert(self.woken@ =~= raised(old(self)@));
    }

    /// Whether the waiter holding `ticket` has been woken.
    pub fn is_woken(&self, ticket: usize) -> (r: bool)
        ensures
            r == is_woken_in(self@, ticket as int),
    {
        ticket < self.woken.len() && self.woken[ticket]
    }
}

/// Registering waiters keeps the earlier slots and adds unwoken ones.
proof fn lemma_with_waiters(slots: Seq<bool>, n: nat)
    ensures
        with_waiters(slots, n).len() == slots.len() + n,
        forall|i: int| 0 <= i < slots.len() ==> with_waiters(slots, n)[i] == slots[i],
        forall|i: int| slots.len() <= i < slots.len() + n ==> !with_waiters(slots, n)[i],
    decreases n,
{
    if n > 0 {
        lemma_with_waiters(slots, (n - 1) as nat);
    }
}

/// One raise wakes every one of the `n` waiters registered before it, and a
/// raise with no one waiting is not remembered: a waiter registered after it
/// is not woken.
pub proof fn lemma_broadcast_without_memory(slots: Seq<bool>, n: nat)
    ensures
        forall|t: int|
            slots.len() <= t < slots.len() + n ==> !is_woken_in(with_waiters(slots, n), t)
                && is_woken_in(raised(with_waiters(slots, n)), t),
        !is_woken_in(with_waiter(raised(slots)), slots.len() as int),
{
    lemma_with_waiters(slots, n);
}

} // verus!
