//! The list view: the full service result set, the subset matching the
//! current filter text, and a selection index clamped to the filtered rows.
//! Navigation keys may be suppressed while the sibling filter input has
//! keyboard focus, so the two co-located views do not race on the same keys.

use vstd::prelude::*;
use crate::events::Actions;
use crate::events::AppEvent;
use crate::events::Effect;
use crate::events::Key;
use crate::events::KeyInput;
use crate::events::Service;
use crate::text::contains_seq;
use crate::text::contains_sub;

verus! {

/// The services whose name contains `text` as a substring, in their
/// original relative order. The empty text keeps every service.
pub open spec fn filtered_spec(ss: Seq<Service>, text: Seq<char>) -> Seq<Service>
    decreases ss.len(),
{
    if ss.len() == 0 {
        Seq::empty()
    } else {
        let rest = filtered_spec(ss.drop_last(), text);
        if contains_seq(ss.last().name@, text) {
            rest.push(ss.last())
        } else {
            rest
        }
    }
}

/// Law: filtering with the empty text keeps the full list unchanged.
pub proof fn lemma_empty_filter_keeps_all(ss: Seq<Service>)
    ensures
        filtered_spec(ss, Seq::<char>::empty()) == ss,
    decreases ss.len(),
{
    if ss.len() == 0 {
        assert(filtered_spec(ss, Seq::<char>::empty()) =~= ss);
    } else {
        lemma_empty_filter_keeps_all(ss.drop_last());
        crate::text::lemma_contains_empty(ss.last().name@);
        assert(ss.drop_last().push(ss.last()) =~= ss);
    }
}

/// The selection index clamped to a list of `n` rows: in `[0, n-1]`, and 0
/// when the list is empty.
pub open spec fn clamp_sel(i: int, n: int) -> int {
    if n == 0 {
        0
    } else if i < n {
        i
    } else {
        n - 1
    }
}

/// State of the list view.
pub struct TableServices {
    pub services: Vec<Service>,
    pub filtered: Vec<Service>,
    pub filter_text: String,
    pub selected_index: usize,
    pub ignore_key_events: bool,
}

/// The selection index after one navigation key, clamped to the rows.
pub open spec fn sel_step(i: int, n: int, k: Key) -> int {
    match k {
        Key::Up => if i >= 1 {
            i - 1
        } else {
            0
        },
        Key::Down => if i + 1 < n {
            i + 1
        } else {
            i
        },
        _ => i,
    }
}

/// The view after one key press: nothing changes while key handling is
/// suppressed; otherwise the arrows move the selection.
pub open spec fn key_step(t: TableServices, k: KeyInput) -> TableServices {
    if t.ignore_key_events {
        t
    } else {
        (TableServices {
            selected_index: sel_step(
                t.selected_index as int,
                t.filtered@.len() as int,
                k.code,
            ) as usize,
            ..t
        })
    }
}

/// The effects of one key press: confirming a row asks to navigate to the
/// details of the selected service.
pub open spec fn key_effects(t: TableServices, k: KeyInput) -> Seq<Effect> {
    if t.ignore_key_events {
        Seq::<Effect>::empty()
    } else {
        match k.code {
            Key::Enter | Key::Right => seq![Effect::Emit(AppEvent::Action(Actions::GoDetails))],
            _ => Seq::<Effect>::empty(),
        }
    }
}

/// The shortcut lines shown under the view: a heading and the key help.
pub open spec fn shortcut_lines(t: TableServices) -> Seq<Seq<char>> {
    seq!["Actions"@, "Move: Up/Down | Details: Enter/Right | Filter: /"@]
}

impl TableServices {
    /// A fresh, empty list view with an empty filter.
    pub fn new() -> (r: Self)
        ensures
            r.services@ == Seq::<Service>::empty(),
            r.filtered@ == Seq::<Service>::empty(),
            r.filter_text@ == Seq::<char>::empty(),
            r.selected_index == 0,
            r.ignore_key_events == false,
    {
        TableServices {
            services: Vec::new(),
            filtered: Vec::new(),
            filter_text: String::new(),
            selected_index: 0,
            ignore_key_events: false,
        }
    }

    /// Narrows the stored full set by the stored filter text.
    fn refilter(&mut self)
        ensures
            final(self).filtered@ == filtered_spec(old(self).services@, old(self).filter_text@),
            final(self).services == old(self).services,
            final(self).filter_text == old(self).filter_text,
            final(self).selected_index == old(self).selected_index,
            final(self).ignore_key_events == old(self).ignore_key_events,
    {
        let mut out: Vec<Service> = Vec::new();
        let n = self.services.len();
        let mut i: usize = 0;
        proof {
            assert(self.services@.take(0) =~= Seq::<Service>::empty());
        }
        while i < n
            invariant
                i <= n,
                n == self.services@.len(),
                out@ == filtered_spec(self.services@.take(i as int), self.filter_text@),
            decreases n - i,
        {
            proof {
                assert(self.services@.take(i + 1).drop_last() =~= self.services@.take(i as int));
                assert(self.services@.take(i + 1).last() == self.services@[i as int]);
            }
            let s = &self.services[i];
            if contains_sub(s.name.as_str(), self.filter_text.as_str()) {
                out.push(s.clone());
            }
            i = i + 1;
        }
        proof {
            assert(self.services@.take(n as int) =~= self.services@);
        }
        self.filtered = out;
    }

    /// Replaces the full result set, as after a backend re-query, re-runs
    /// the current filter over it and clamps the selection to the new rows.
    pub fn set_services(&mut self, services: Vec<Service>)
        ensures
            final(self).services == services,
            final(self).filtered@ == filtered_spec(services@, old(self).filter_text@),
            final(self).filter_text == old(self).filter_text,
            final(self).selected_index as int == clamp_sel(
                old(self).selected_index as int,
                final(self).filtered@.len() as int,
            ),
            final(self).ignore_key_events == old(self).ignore_key_events,
    {
        self.services = services;
        self.refilter();
        let n = self.filtered.len();
        if n == 0 {
            self.selected_index = 0;
        } else if self.selected_index >= n {
            self.selected_index = n - 1;
        }
    }

    /// Re-runs the filter with new text over the stored full set. The
    /// selection is left to the caller, which resets it on filter changes.
    pub fn refresh(&mut self, filter_text: String)
        ensures
            final(self).filter_text == filter_text,
            final(self).filtered@ == filtered_spec(old(self).services@, filter_text@),
            final(self).services == old(self).services,
            final(self).selected_index == old(self).selected_index,
            final(self).ignore_key_events == old(self).ignore_key_events,
    {
        self.filter_text = filter_text;
        self.refilter();
    }

    /// Moves the selection to the given row.
    pub fn set_selected_index(&mut self, i: usize)
        ensures
            *final(self) == (TableServices { selected_index: i, ..*old(self) }),
    {
        self.selected_index = i;
    }

    /// Suppresses or re-enables navigation key handling.
    pub fn set_ignore_key_events(&mut self, ignore: bool)
        ensures
            *final(self) == (TableServices { ignore_key_events: ignore, ..*old(self) }),
    {
        self.ignore_key_events = ignore;
    }

    /// A clone of the currently selected service, if the selection points at
    /// a row of the filtered list.
    pub fn get_selected_service(&self) -> (r: Option<Service>)
        ensures
            r == self.selected_service_spec(),
    {
        if self.selected_index < self.filtered.len() {
            Some(self.filtered[self.selected_index].clone())
        } else {
            None
        }
    }

    /// The currently selected service, if any.
    pub open spec fn selected_service_spec(&self) -> Option<Service> {
        if self.selected_index < self.filtered@.len() {
            Some(self.filtered@[self.selected_index as int])
        } else {
            None
        }
    }

    /// Interprets one key press forwarded by the controller.
    pub fn on_key_event(&mut self, key: KeyInput) -> (fx: Vec<Effect>)
        ensures
            *final(self) == key_step(*old(self), key),
            fx@ == key_effects(*old(self), key),
    {
        let mut fx: Vec<Effect> = Vec::new();
        if !self.ignore_key_events {
            match key.code {
                Key::Up => {
                    if self.selected_index >= 1 {
                        self.selected_index = self.selected_index - 1;
                    }
                },
                Key::Down => {
                    let n = self.filtered.len();
                    if n > 0 && self.selected_index < n - 1 {
                        self.selected_index = self.selected_index + 1;
                    }
                },
                Key::Enter | Key::Right => {
                    fx.push(Effect::Emit(AppEvent::Action(Actions::GoDetails)));
                },
                _ => {},
            }
        }
        proof {
            assert(fx@ =~= key_effects(*old(self), key));
        }
        fx
    }

    /// The shortcut lines shown under the view.
    pub fn shortcuts(&self) -> (r: Vec<String>)
        ensures
            r@.len() == shortcut_lines(*self).len(),
            forall|i: int| 0 <= i < r@.len() ==> r@[i]@ == shortcut_lines(*self)[i],
    {
        let mut r: Vec<String> = Vec::new();
        r.push("Actions".to_owned());
        r.push("Move: Up/Down | Details: Enter/Right | Filter: /".to_owned());
        r
    }
}

} // verus!
