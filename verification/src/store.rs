use vstd::prelude::*;

use vstd::pervasive::VecAdditionalExecFns;

verus! {

/// The pending flags after one completed transition: every registered
/// observer is marked, whatever its prior flag and whatever value was written.
pub open spec fn all_notified(flags: Seq<bool>) -> Seq<bool> {
    Seq::new(flags.len(), |i: int| true)
}

/// The generic single-value reactive container every widget variant builds on.
///
/// A `Store` owns exactly one canonical value together with one
/// pending-notification flag per registered observer. Reads return the most
/// recently completed write; a write is synchronous, atomically visible to
/// subsequent reads, and marks every observer as pending — there is no
/// equality check against the prior value and no change queue, so several
/// writes before a delivery collapse into one pending mark. The `Store`
/// itself validates nothing: callers validate before they write.
pub struct Store<T> {
    current: T,
    flags: Vec<bool>,
}

impl<T> Store<T> {
    /// The canonical value: what [`Store::get`] returns.
    pub closed spec fn value(&self) -> T {
        self.current
    }

    /// One pending flag per registered observer, in registration order.
    pub closed spec fn flags(&self) -> Seq<bool> {
        self.flags@
    }

    /// Creates a store holding `initial`, with no observers registered.
    pub fn new(initial: T) -> (s: Store<T>)
        ensures
            s.value() == initial,
            s.flags() == Seq::<bool>::empty(),
    {
        let s = Store { current: initial, flags: Vec::new() };
        proof {
            assert(s.flags@ =~= Seq::<bool>::empty());
        }
        s
    }

    /// Completes one transition: stores `v` and marks every observer pending.
    /// A write of a value equal to the current one still notifies.
    pub fn set_value(&mut self, v: T)
        ensures
            final(self).value() == v,
            final(self).flags() == all_notified(old(self).flags()),
    {
        self.current = v;
        let ghost n0 = self.flags@.len();
        let mut i: usize = 0;
        while i < self.flags.len()
            invariant
                self.flags@.len() == n0,
                self.current == v,
                i <= n0,
                forall|j: int| 0 <= j < i ==> self.flags@[j] == true,
            decreases n0 - i,
        {
            self.flags.set(i, true);
            i += 1;
        }
        proof {
            assert(self.flags@ =~= all_notified(old(self).flags()));
        }
    }

    /// Untracked synchronous read: returns the most recently completed write
    /// and registers nothing, so the caller never becomes an observer.
    pub fn get(&self) -> (r: &T)
        ensures
            *r == self.value(),
    {
        &self.current
    }

    /// Registers one more independent observer (no deduplication) and returns
    /// its index. The new flag starts clear: the value present at
    /// registration time is never delivered to the new observer.
    pub fn watch(&mut self) -> (id: usize)
        ensures
            id == old(self).flags().len(),
            final(self).flags() == old(self).flags().push(false),
            final(self).value() == old(self).value(),
    {
        let id = self.flags.len();
        self.flags.push(false);
        id
    }

    /// Polls one observer: reports whether a transition completed since that
    /// observer's last delivery (or its registration) and clears only that
    /// observer's flag, so the same transition is never delivered twice.
    /// An index no observer holds is answered `false` and changes nothing.
    pub fn take_pending(&mut self, id: usize) -> (fired: bool)
        ensures
            final(self).value() == old(self).value(),
            id < old(self).flags().len() ==> fired == old(self).flags()[id as int],
            id < old(self).flags().len() ==> final(self).flags() == old(self).flags().update(
                id as int,
                false,
            ),
            id >= old(self).flags().len() ==> !fired && final(self).flags() == old(self).flags(),
    {
        if id < self.flags.len() {
            let fired = self.flags[id];
            self.flags.set(id, false);
            fired
        } else {
            false
        }
    }

    /// How many observers have been registered so far.
    pub fn observer_count(&self) -> (n: usize)
        ensures
            n == self.flags().len(),
    {
        self.flags.len()
    }
}

/// A completed transition marks every registered observer as pending,
/// whatever the flags held before and regardless of whether the written value
/// differs from the one it replaced.
pub proof fn lemma_transition_marks_every_observer(flags: Seq<bool>)
    ensures
        all_notified(flags).len() == flags.len(),
        forall|i: int| 0 <= i < flags.len() ==> all_notified(flags)[i],
{
}

/// Registering an observer and then completing one transition leaves that
/// observer pending exactly once: the transition marks it, the first delivery
/// clears it, and a second poll therefore finds nothing to deliver.
pub proof fn lemma_watch_then_write_delivers_exactly_once(flags: Seq<bool>)
    ensures
        all_notified(flags.push(false))[flags.len() as int],
        !all_notified(flags.push(false)).update(flags.len() as int, false)[flags.len() as int],
{
}

/// An observer registered after the store was created sees nothing until the
/// next transition: its flag starts clear, so the value present at
/// registration time — in particular the attach-time initial value — is never
/// delivered to it.
pub proof fn lemma_no_delivery_for_initial_value(flags: Seq<bool>)
    ensures
        !flags.push(false)[flags.len() as int],
{
}

} // verus!
