use vstd::prelude::*;

use vstd::string::{StrSliceExecFns, StringExecFns};

use crate::store::{all_notified, Store};

verus! {

/// Whether a character counts as white space for the add interaction's
/// trimming check.
pub uninterp spec fn is_unicode_whitespace(c: char) -> bool;

/// Relies on char::is_whitespace: whether the character has the Unicode
/// white-space property, a function of the character alone.
#[verifier::external_body]
fn char_is_whitespace(c: char) -> (r: bool)
    ensures
        r == is_unicode_whitespace(c),
{
    c.is_whitespace()
}

/// A string that trims to nothing: every character is white space. The empty
/// string is blank.
pub open spec fn is_blank(s: Seq<char>) -> bool {
    forall|i: int| 0 <= i < s.len() ==> is_unicode_whitespace(s[i])
}

/// Checks whether a candidate item trims to nothing.
pub fn text_is_blank(s: &str) -> (r: bool)
    ensures
        r == is_blank(s@),
{
    let n = s.unicode_len();
    let mut i: usize = 0;
    while i < n
        invariant
            n == s@.len(),
            i <= n,
            forall|j: int| 0 <= j < i ==> is_unicode_whitespace(s@[j]),
        decreases n - i,
    {
        if !char_is_whitespace(s.get_char(i)) {
            return false;
        }
        i += 1;
    }
    true
}

/// Copies a list of items; the copy reads equal to the source list.
fn clone_items(v: &Vec<String>) -> (r: Vec<String>)
    ensures
        r@ == v@,
{
    let mut r: Vec<String> = Vec::new();
    let mut i: usize = 0;
    while i < v.len()
        invariant
            i <= v@.len(),
            r@ == v@.subrange(0, i as int),
        decreases v@.len() - i,
    {
        r.push(v[i].clone());
        proof {
            assert(r@ =~= v@.subrange(0, (i + 1) as int));
        }
        i += 1;
    }
    proof {
        assert(v@.subrange(0, v@.len() as int) =~= v@);
    }
    r
}

/// One mounted dynamic-list widget: the ordered collection of items (order
/// significant, duplicates allowed) in its store, plus the transient pending
/// input text of the add interaction. The pending text is component-local
/// state outside the observable store: it never appears in what `get`,
/// `update` or an observer can see.
pub struct ShinyLeptosDynamicItemsInputState {
    items: Store<Vec<String>>,
    pending_text: String,
}

impl ShinyLeptosDynamicItemsInputState {
    /// The canonical ordered collection.
    pub closed spec fn items_view(&self) -> Seq<String> {
        self.items.value()@
    }

    /// The transient pending input text of the add interaction.
    pub closed spec fn pending(&self) -> String {
        self.pending_text
    }

    /// One pending-notification flag per registered observer.
    pub closed spec fn flags(&self) -> Seq<bool> {
        self.items.flags()
    }

    /// The typing interaction: replaces the transient pending input text.
    /// Nothing observable changes — no store transition, no notification.
    pub fn set_pending_text(&mut self, text: String)
        ensures
            final(self).pending() == text,
            final(self).items_view() == old(self).items_view(),
            final(self).flags() == old(self).flags(),
    {
        self.pending_text = text;
    }

    /// The add interaction: when the pending text does not trim to nothing,
    /// appends it — untrimmed, with no de-duplication against existing items —
    /// to the collection, clears the pending text, and completes one
    /// transition that marks every observer. A blank pending text makes the
    /// whole interaction a no-op: nothing is appended, the pending text
    /// stays, and nothing fires.
    pub fn add_item(&mut self)
        ensures
            is_blank(old(self).pending()@) ==> final(self).items_view() == old(self).items_view()
                && final(self).pending() == old(self).pending() && final(self).flags() == old(
                self,
            ).flags(),
            !is_blank(old(self).pending()@) ==> final(self).items_view() == old(
                self,
            ).items_view().push(old(self).pending()) && final(self).pending()@
                == Seq::<char>::empty() && final(self).flags() == all_notified(old(self).flags()),
    {
        if text_is_blank(self.pending_text.as_str()) {
            return ;
        }
        let text = self.pending_text.clone();
        self.pending_text = String::from_str("");
        proof {
            reveal_strlit("");
            assert(self.pending_text@ =~= Seq::<char>::empty());
        }
        let mut next = clone_items(self.items.get());
        next.push(text);
        self.items.set_value(next);
    }

    /// The remove interaction. An index within bounds at call time removes
    /// that element and completes one transition that marks every observer; a
    /// stale index — at or past the current length — is silently ignored:
    /// nothing changes and nothing fires.
    pub fn remove_item(&mut self, index: usize)
        ensures
            index < old(self).items_view().len() ==> final(self).items_view() == old(
                self,
            ).items_view().remove(index as int) && final(self).flags() == all_notified(
                old(self).flags(),
            ),
            index >= old(self).items_view().len() ==> final(self).items_view() == old(
                self,
            ).items_view() && final(self).flags() == old(self).flags(),
            final(self).pending() == old(self).pending(),
    {
        let len = self.items.get().len();
        if index >= len {
            return ;
        }
        let mut next = clone_items(self.items.get());
        next.remove(index);
        self.items.set_value(next);
    }

    /// Polls one observer: reports whether a transition completed since that
    /// observer's last delivery and clears only its flag. An index no
    /// observer holds is a silent no-op answered `false`.
    pub fn take_pending(&mut self, id: usize) -> (fired: bool)
        ensures
            final(self).items_view() == old(self).items_view(),
            final(self).pending() == old(self).pending(),
            id < old(self).flags().len() ==> fired == old(self).flags()[id as int],
            id < old(self).flags().len() ==> final(self).flags() == old(self).flags().update(
                id as int,
                false,
            ),
            id >= old(self).flags().len() ==> !fired && final(self).flags() == old(self).flags(),
    {
        self.items.take_pending(id)
    }
}

/// Mounts a dynamic-list widget. A payload that could not be decoded into a
/// list of items arrives here as `None` and falls back silently to the empty
/// collection — deliberately a softer policy than the option-group's fatal
/// decode failure — so attach always succeeds. The pending input text starts
/// empty. Mounting the rendered view onto the host element is the caller's
/// side of the boundary.
pub fn attach_shiny_leptos_dynamic_items_input(
    initial_value: Option<Vec<String>>,
) -> (r: Result<ShinyLeptosDynamicItemsInputState, String>)
    ensures
        r is Ok,
        initial_value matches Some(v) ==> r->Ok_0.items_view() == v@,
        initial_value is None ==> r->Ok_0.items_view() == Seq::<String>::empty(),
        r->Ok_0.flags() == Seq::<bool>::empty(),
        r->Ok_0.pending()@ == Seq::<char>::empty(),
{
    let items = match initial_value {
        Some(v) => v,
        None => Vec::new(),
    };
    let state = ShinyLeptosDynamicItemsInputState {
        items: Store::new(items),
        pending_text: String::from_str(""),
    };
    proof {
        reveal_strlit("");
        assert(state.pending_text@ =~= Seq::<char>::empty());
    }
    Ok(state)
}

/// Host-issued update: replaces the entire collection atomically and
/// completes one transition that marks every observer. A payload that could
/// not be decoded arrives here as `None` and is replaced by the empty
/// collection, the same silent fallback the attach boundary applies; the
/// replacement still happens and still notifies. The transient pending text
/// is untouched. The call itself always succeeds.
pub fn update_shiny_leptos_dynamic_items_input(
    state: &mut ShinyLeptosDynamicItemsInputState,
    value: Option<Vec<String>>,
) -> (r: Result<(), String>)
    ensures
        r is Ok,
        value matches Some(v) ==> final(state).items_view() == v@,
        value is None ==> final(state).items_view() == Seq::<String>::empty(),
        final(state).flags() == all_notified(old(state).flags()),
        final(state).pending() == old(state).pending(),
{
    let next = match value {
        Some(v) => v,
        None => Vec::new(),
    };
    state.items.set_value(next);
    Ok(())
}

/// Untracked synchronous snapshot: the full ordered collection, as a copy the
/// host owns. The transient pending text is never part of it.
pub fn get_shiny_leptos_dynamic_items_input_value(
    state: &ShinyLeptosDynamicItemsInputState,
) -> (r: Vec<String>)
    ensures
        r@ == state.items_view(),
{
    clone_items(state.items.get())
}

/// Registers one more independent observer for this widget and returns its
/// index, which the host polls through
/// [`ShinyLeptosDynamicItemsInputState::take_pending`] after each render
/// commit. The collection present at subscription time never triggers a
/// delivery.
pub fn subscribe_shiny_leptos_dynamic_items_input(
    state: &mut ShinyLeptosDynamicItemsInputState,
) -> (id: usize)
    ensures
        id == old(state).flags().len(),
        final(state).flags() == old(state).flags().push(false),
        final(state).items_view() == old(state).items_view(),
        final(state).pending() == old(state).pending(),
{
    state.items.watch()
}

} // verus!
