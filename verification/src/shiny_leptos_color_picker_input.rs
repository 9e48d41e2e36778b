use vstd::prelude::*;

use vstd::string::{StrSliceExecFns, StringExecFns};

use crate::store::{all_notified, Store};

verus! {

/// A well-formed color value: the 7-character, `#`-prefixed `#RRGGBB` shape.
/// The constraint is enforced only at the attach/update boundary, never as a
/// standing invariant on the store itself.
pub open spec fn is_valid_color(s: Seq<char>) -> bool {
    s.len() == 7 && s[0] == '#'
}

/// The fallback stored when attach receives no initial value or a malformed one.
pub open spec fn default_color() -> Seq<char> {
    "#000000"@
}

/// Checks the boundary constraint on a candidate color value.
pub fn color_format_ok(s: &str) -> (r: bool)
    ensures
        r == is_valid_color(s@),
{
    if s.unicode_len() != 7 {
        return false;
    }
    s.get_char(0) == '#'
}

/// One mounted color widget: a string-valued store holding the canonical
/// color, plus the pending-notification flags of its observers.
pub struct ShinyLeptosColorPickerInputState {
    value: Store<String>,
}

impl ShinyLeptosColorPickerInputState {
    /// The canonical color value, as a character sequence.
    pub closed spec fn value_view(&self) -> Seq<char> {
        self.value.value()@
    }

    /// One pending-notification flag per registered observer.
    pub closed spec fn flags(&self) -> Seq<bool> {
        self.value.flags()
    }

    /// Polls one observer: reports whether a transition completed since that
    /// observer's last delivery and clears only its flag. An index no
    /// observer holds is a silent no-op answered `false`.
    pub fn take_pending(&mut self, id: usize) -> (fired: bool)
        ensures
            final(self).value_view() == old(self).value_view(),
            id < old(self).flags().len() ==> fired == old(self).flags()[id as int],
            id < old(self).flags().len() ==> final(self).flags() == old(self).flags().update(
                id as int,
                false,
            ),
            id >= old(self).flags().len() ==> !fired && final(self).flags() == old(self).flags(),
    {
        self.value.take_pending(id)
    }
}

/// Mounts a color widget. A missing or malformed initial value falls back to
/// the default `#000000` and the widget proceeds; the fallback is visible to
/// the host only through its log, never as an error, so attach always
/// succeeds. Mounting the rendered view onto the host element is the
/// caller's side of the boundary.
pub fn attach_shiny_leptos_color_picker_input(
    initial_value: Option<String>,
) -> (r: Result<ShinyLeptosColorPickerInputState, String>)
    ensures
        r is Ok,
        r->Ok_0.flags() == Seq::<bool>::empty(),
        initial_value matches Some(v) ==> is_valid_color(v@) ==> r->Ok_0.value_view() == v@,
        initial_value matches Some(v) ==> !is_valid_color(v@) ==> r->Ok_0.value_view()
            == default_color(),
        initial_value is None ==> r->Ok_0.value_view() == default_color(),
{
    let value = match initial_value {
        Some(v) => {
            if color_format_ok(v.as_str()) {
                v
            } else {
                String::from_str("#000000")
            }
        },
        None => String::from_str("#000000"),
    };
    Ok(ShinyLeptosColorPickerInputState { value: Store::new(value) })
}

/// Host-issued update. A malformed value is a silent no-op: the stored value
/// is unchanged and no observer is marked, the failure being visible only
/// through the host's log — deliberately a different policy from attach's
/// fallback-and-proceed. A well-formed value completes one transition and
/// marks every observer, whether or not it equals the prior value. The call
/// itself always succeeds.
pub fn update_shiny_leptos_color_picker_input(
    state: &mut ShinyLeptosColorPickerInputState,
    value: String,
) -> (r: Result<(), String>)
    ensures
        r is Ok,
        is_valid_color(value@) ==> final(state).value_view() == value@,
        is_valid_color(value@) ==> final(state).flags() == all_notified(old(state).flags()),
        !is_valid_color(value@) ==> final(state).value_view() == old(state).value_view(),
        !is_valid_color(value@) ==> final(state).flags() == old(state).flags(),
{
    if !color_format_ok(value.as_str()) {
        return Ok(());
    }
    state.value.set_value(value);
    Ok(())
}

/// Untracked synchronous snapshot of the canonical color value.
pub fn get_shiny_leptos_color_picker_input_value(
    state: &ShinyLeptosColorPickerInputState,
) -> (r: String)
    ensures
        r@ == state.value_view(),
{
    state.value.get().clone()
}

/// Registers one more independent observer for this widget and returns its
/// index, which the host polls through
/// [`ShinyLeptosColorPickerInputState::take_pending`] after each render
/// commit. The value present at subscription time never triggers a delivery.
pub fn subscribe_shiny_leptos_color_picker_input(
    state: &mut ShinyLeptosColorPickerInputState,
) -> (id: usize)
    ensures
        id == old(state).flags().len(),
        final(state).flags() == old(state).flags().push(false),
        final(state).value_view() == old(state).value_view(),
{
    state.value.watch()
}

} // verus!
