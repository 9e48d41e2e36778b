use vstd::prelude::*;

use crate::store::{all_notified, Store};

verus! {

/// One mounted counter widget. The canonical value is the 64-bit pattern in
/// which the host encodes the widget's double-precision numeric value; the
/// core stores and reports the pattern without interpreting it, so the
/// increment interaction's arithmetic stays on the host's side of the
/// boundary. The all-zero pattern encodes the numeric zero the widget
/// defaults to.
pub struct ShinyLeptosCounterInputState {
    value: Store<u64>,
}

impl ShinyLeptosCounterInputState {
    /// The canonical value's encoding.
    pub closed spec fn value_bits(&self) -> u64 {
        self.value.value()
    }

    /// One pending-notification flag per registered observer.
    pub closed spec fn flags(&self) -> Seq<bool> {
        self.value.flags()
    }

    /// Polls one observer: reports whether a transition completed since that
    /// observer's last delivery and clears only its flag. An index no
    /// observer holds is a silent no-op answered `false`.
    pub fn take_pending(&mut self, id: usize) -> (fired: bool)
        ensures
            final(self).value_bits() == old(self).value_bits(),
            id < old(self).flags().len() ==> fired == old(self).flags()[id as int],
            id < old(self).flags().len() ==> final(self).flags() == old(self).flags().update(
                id as int,
                false,
            ),
            id >= old(self).flags().len() ==> !fired && final(self).flags() == old(self).flags(),
    {
        self.value.take_pending(id)
    }
}

/// Mounts a counter widget with the host-supplied initial value, or with the
/// numeric zero (the all-zero encoding) when none is supplied. Attach never
/// fails; mounting the rendered view onto the host element is the caller's
/// side of the boundary.
pub fn attach_shiny_leptos_counter_input(initial_value: Option<u64>) -> (s:
    ShinyLeptosCounterInputState)
    ensures
        initial_value matches Some(b) ==> s.value_bits() == b,
        initial_value is None ==> s.value_bits() == 0,
        s.flags() == Seq::<bool>::empty(),
{
    let bits = match initial_value {
        Some(b) => b,
        None => 0,
    };
    ShinyLeptosCounterInputState { value: Store::new(bits) }
}

/// Host-issued update: stores the value unconditionally — including values
/// the increment interaction could never reach, since update bypasses
/// increment semantics entirely — and completes one transition that marks
/// every observer.
pub fn update_shiny_leptos_counter_input(state: &mut ShinyLeptosCounterInputState, value: u64)
    ensures
        final(state).value_bits() == value,
        final(state).flags() == all_notified(old(state).flags()),
{
    state.value.set_value(value);
}

/// Untracked synchronous snapshot of the canonical value's encoding.
pub fn get_shiny_leptos_counter_input_value(state: &ShinyLeptosCounterInputState) -> (r: u64)
    ensures
        r == state.value_bits(),
{
    *state.value.get()
}

/// Registers one more independent observer for this widget and returns its
/// index, which the host polls through
/// [`ShinyLeptosCounterInputState::take_pending`] after each render commit.
/// The value present at subscription time never triggers a delivery.
pub fn subscribe_shiny_leptos_counter_input(state: &mut ShinyLeptosCounterInputState) -> (id:
    usize)
    ensures
        id == old(state).flags().len(),
        final(state).flags() == old(state).flags().push(false),
        final(state).value_bits() == old(state).value_bits(),
{
    state.value.watch()
}

} // verus!
