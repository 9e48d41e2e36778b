use vstd::prelude::*;

use crate::store::{all_notified, Store};

verus! {

/// The decoded options payload of the option-group widget: an ordered list of
/// selectable keys and the labels rendered for them, paired up by position.
pub struct CheckboxGroupButtonsOptions {
    options: Vec<String>,
    labels: Vec<String>,
}

/// Builds the `(key, label)` pairs the rendered buttons show, in order: the
/// i-th key paired with the i-th label, stopping at the shorter list.
fn zip_pairs(keys: &Vec<String>, labels: &Vec<String>) -> (pairs: Vec<(String, String)>)
    ensures
        pairs@.len() == vstd::math::min(keys@.len() as int, labels@.len() as int),
        forall|i: int|
            0 <= i < pairs@.len() ==> pairs@[i].0 == keys@[i] && pairs@[i].1 == labels@[i],
{
    let n = if keys.len() <= labels.len() {
        keys.len()
    } else {
        labels.len()
    };
    let mut pairs: Vec<(String, String)> = Vec::new();
    let mut i: usize = 0;
    while i < n
        invariant
            n == vstd::math::min(keys@.len() as int, labels@.len() as int),
            i <= n,
            pairs@.len() == i,
            forall|j: int|
                0 <= j < i ==> pairs@[j].0 == keys@[j] && pairs@[j].1 == labels@[j],
        decreases n - i,
    {
        pairs.push((keys[i].clone(), labels[i].clone()));
        i += 1;
    }
    pairs
}

impl CheckboxGroupButtonsOptions {
    /// The ordered selectable keys.
    pub closed spec fn keys(&self) -> Seq<String> {
        self.options@
    }

    /// The labels rendered for the keys, in the same order.
    pub closed spec fn label_texts(&self) -> Seq<String> {
        self.labels@
    }

    /// Assembles a decoded options payload from its two lists.
    pub fn new(options: Vec<String>, labels: Vec<String>) -> (r: CheckboxGroupButtonsOptions)
        ensures
            r.keys() == options@,
            r.label_texts() == labels@,
    {
        CheckboxGroupButtonsOptions { options, labels }
    }

    /// The rendered `(key, label)` pairs, in order: the i-th key paired with
    /// the i-th label, stopping at the shorter list.
    pub fn iter(self) -> (pairs: Vec<(String, String)>)
        ensures
            pairs@.len() == vstd::math::min(self.keys().len() as int, self.label_texts().len() as int),
            forall|i: int|
                0 <= i < pairs@.len() ==> pairs@[i].0 == self.keys()[i] && pairs@[i].1
                    == self.label_texts()[i],
    {
        zip_pairs(&self.options, &self.labels)
    }
}

/// One mounted option-group widget: the current selection in its store — a
/// single-select over the ordered option list — plus the host-supplied
/// options. The selection, when present, is deliberately not required to
/// exist in the option list.
pub struct ShinyLeptosCheckboxGroupButtonsState {
    selected: Store<Option<String>>,
    options: CheckboxGroupButtonsOptions,
}

impl ShinyLeptosCheckboxGroupButtonsState {
    /// The current selection; `None` means nothing is selected.
    pub closed spec fn selected_value(&self) -> Option<String> {
        self.selected.value()
    }

    /// One pending-notification flag per registered observer.
    pub closed spec fn flags(&self) -> Seq<bool> {
        self.selected.flags()
    }

    /// The ordered selectable keys of the host-supplied options.
    pub closed spec fn option_keys(&self) -> Seq<String> {
        self.options.keys()
    }

    /// The labels of the host-supplied options, in the same order.
    pub closed spec fn option_labels(&self) -> Seq<String> {
        self.options.label_texts()
    }

    /// The `(key, label)` pairs the rendered buttons show: what the render
    /// projection reads. The option list is host-supplied only; no
    /// interaction mutates it.
    pub fn option_pairs(&self) -> (pairs: Vec<(String, String)>)
        ensures
            pairs@.len() == vstd::math::min(
                self.option_keys().len() as int,
                self.option_labels().len() as int,
            ),
            forall|i: int|
                0 <= i < pairs@.len() ==> pairs@[i].0 == self.option_keys()[i] && pairs@[i].1
                    == self.option_labels()[i],
    {
        zip_pairs(&self.options.options, &self.options.labels)
    }

    /// The click interaction on the button carrying `key`: selects that key —
    /// last click wins, and a click never clears the selection back to none —
    /// and completes one transition that marks every observer.
    pub fn select(&mut self, key: String)
        ensures
            final(self).selected_value() == Some(key),
            final(self).flags() == all_notified(old(self).flags()),
            final(self).option_keys() == old(self).option_keys(),
            final(self).option_labels() == old(self).option_labels(),
    {
        self.selected.set_value(Some(key));
    }

    /// Polls one observer: reports whether a transition completed since that
    /// observer's last delivery and clears only its flag. An index no
    /// observer holds is a silent no-op answered `false`.
    pub fn take_pending(&mut self, id: usize) -> (fired: bool)
        ensures
            final(self).selected_value() == old(self).selected_value(),
            final(self).option_keys() == old(self).option_keys(),
            final(self).option_labels() == old(self).option_labels(),
            id < old(self).flags().len() ==> fired == old(self).flags()[id as int],
            id < old(self).flags().len() ==> final(self).flags() == old(self).flags().update(
                id as int,
                false,
            ),
            id >= old(self).flags().len() ==> !fired && final(self).flags() == old(self).flags(),
    {
        self.selected.take_pending(id)
    }
}

/// Mounts an option-group widget. The structured options payload arrives
/// already decoded, or as the decode error's message: a payload that could
/// not be decoded is fatal to attach and the error is surfaced to the caller
/// unchanged — deliberately a harder policy than the dynamic-list's silent
/// fallback. The initial selection is stored unconditionally, unchecked
/// against the option list. Mounting the rendered view onto the host element
/// is the caller's side of the boundary.
pub fn attach_shiny_leptos_checkbox_group_buttons(
    initial_value: Option<String>,
    options: Result<CheckboxGroupButtonsOptions, String>,
) -> (r: Result<ShinyLeptosCheckboxGroupButtonsState, String>)
    ensures
        options matches Ok(o) ==> r matches Ok(s) && s.selected_value() == initial_value
            && s.option_keys() == o.keys() && s.option_labels() == o.label_texts() && s.flags()
            == Seq::<bool>::empty(),
        options matches Err(e) ==> r matches Err(msg) && msg == e,
{
    match options {
        Ok(o) => Ok(
            ShinyLeptosCheckboxGroupButtonsState {
                selected: Store::new(initial_value),
                options: o,
            },
        ),
        Err(e) => Err(e),
    }
}

/// Host-issued update: stores the selection unconditionally — a key no option
/// carries is accepted just the same — and completes one transition that
/// marks every observer. The call always succeeds.
pub fn update_shiny_leptos_checkbox_group_buttons(
    state: &mut ShinyLeptosCheckboxGroupButtonsState,
    value: Option<String>,
) -> (r: Result<(), String>)
    ensures
        r is Ok,
        final(state).selected_value() == value,
        final(state).flags() == all_notified(old(state).flags()),
        final(state).option_keys() == old(state).option_keys(),
        final(state).option_labels() == old(state).option_labels(),
{
    state.selected.set_value(value);
    Ok(())
}

/// Untracked synchronous snapshot of the current selection.
pub fn get_shiny_leptos_checkbox_group_buttons_value(
    state: &ShinyLeptosCheckboxGroupButtonsState,
) -> (r: Option<String>)
    ensures
        r == state.selected_value(),
{
    match state.selected.get() {
        Some(s) => Some(s.clone()),
        None => None,
    }
}

/// Registers one more independent observer for this widget and returns its
/// index, which the host polls through
/// [`ShinyLeptosCheckboxGroupButtonsState::take_pending`] after each render
/// commit. The selection present at subscription time never triggers a
/// delivery.
pub fn subscribe_shiny_leptos_checkbox_group_buttons(
    state: &mut ShinyLeptosCheckboxGroupButtonsState,
) -> (id: usize)
    ensures
        id == old(state).flags().len(),
        final(state).flags() == old(state).flags().push(false),
        final(state).selected_value() == old(state).selected_value(),
        final(state).option_keys() == old(state).option_keys(),
        final(state).option_labels() == old(state).option_labels(),
{
    state.selected.watch()
}

} // verus!
