use vstd::prelude::*;

use vstd::string::StringExecFns;

use crate::store::{all_notified, Store};

verus! {

/// One mounted text widget: a plain string value in its store, with no extra
/// validation, plus an optional display label fixed at attach time.
pub struct ShinyLeptosTextInputState {
    value: Store<String>,
    label: Option<String>,
}

impl ShinyLeptosTextInputState {
    /// The canonical text value, as a character sequence.
    pub closed spec fn value_view(&self) -> Seq<char> {
        self.value.value()@
    }

    /// The display label, fixed at attach time; no path updates it afterward.
    pub closed spec fn label_view(&self) -> Option<String> {
        self.label
    }

    /// One pending-notification flag per registered observer.
    pub closed spec fn flags(&self) -> Seq<bool> {
        self.value.flags()
    }

    /// The display label the render projection shows beside the input.
    pub fn label(&self) -> (r: Option<String>)
        ensures
            r == self.label_view(),
    {
        match &self.label {
            Some(l) => Some(l.clone()),
            None => None,
        }
    }

    /// Polls one observer: reports whether a transition completed since that
    /// observer's last delivery and clears only its flag. An index no
    /// observer holds is a silent no-op answered `false`.
    pub fn take_pending(&mut self, id: usize) -> (fired: bool)
        ensures
            final(self).value_view() == old(self).value_view(),
            final(self).label_view() == old(self).label_view(),
            id < old(self).flags().len() ==> fired == old(self).flags()[id as int],
            id < old(self).flags().len() ==> final(self).flags() == old(self).flags().update(
                id as int,
                false,
            ),
            id >= old(self).flags().len() ==> !fired && final(self).flags() == old(self).flags(),
    {
        self.value.take_pending(id)
    }
}

/// Mounts a text widget with the host-supplied initial value, or with the
/// empty string when none is supplied, and with the display label fixed from
/// here on. Attach never fails; mounting the rendered view onto the host
/// element is the caller's side of the boundary.
pub fn attach_shiny_leptos_text_input(initial_value: Option<String>, label: Option<String>) -> (s:
    ShinyLeptosTextInputState)
    ensures
        initial_value matches Some(v) ==> s.value_view() == v@,
        initial_value is None ==> s.value_view() == Seq::<char>::empty(),
        s.label_view() == label,
        s.flags() == Seq::<bool>::empty(),
{
    let value = match initial_value {
        Some(v) => v,
        None => String::from_str(""),
    };
    proof {
        reveal_strlit("");
        assert(""@ =~= Seq::<char>::empty());
    }
    ShinyLeptosTextInputState { value: Store::new(value), label }
}

/// Host-issued update: stores the value unconditionally and completes one
/// transition that marks every observer, whether or not the new value equals
/// the prior one. The label is untouched.
pub fn update_shiny_leptos_text_input(state: &mut ShinyLeptosTextInputState, value: String)
    ensures
        final(state).value_view() == value@,
        final(state).flags() == all_notified(old(state).flags()),
        final(state).label_view() == old(state).label_view(),
{
    state.value.set_value(value);
}

/// Untracked synchronous snapshot of the canonical text value.
pub fn get_shiny_leptos_text_input_value(state: &ShinyLeptosTextInputState) -> (r: String)
    ensures
        r@ == state.value_view(),
{
    state.value.get().clone()
}

/// Registers one more independent observer for this widget and returns its
/// index, which the host polls through
/// [`ShinyLeptosTextInputState::take_pending`] after each render commit. The
/// value present at subscription time never triggers a delivery.
pub fn subscribe_shiny_leptos_text_input(state: &mut ShinyLeptosTextInputState) -> (id: usize)
    ensures
        id == old(state).flags().len(),
        final(state).flags() == old(state).flags().push(false),
        final(state).value_view() == old(state).value_view(),
        final(state).label_view() == old(state).label_view(),
{
    state.value.watch()
}

} // verus!
