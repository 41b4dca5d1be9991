//! The filter component: a single-line text buffer narrowing the service
//! list. On every keystroke that mutates the buffer it emits the new filter
//! text; while it has keyboard focus it asks the controller to suppress the
//! list view's navigation keys, and re-enables them on losing focus.

use vstd::prelude::*;
use crate::events::Actions;
use crate::events::AppEvent;
use crate::events::Effect;
use crate::events::Key;
use crate::events::KeyInput;
use crate::text::pop_char;
use crate::text::push_char;

verus! {

/// State of the filter component.
pub struct Filter {
    pub input: String,
    pub focused: bool,
}

/// The buffer after one key press while the component has focus.
pub open spec fn text_step(text: Seq<char>, k: Key) -> Seq<char> {
    match k {
        Key::Char(c) => text.push(c),
        Key::Backspace => if text.len() > 0 {
            text.drop_last()
        } else {
            text
        },
        _ => text,
    }
}

/// Whether the component has focus after one key press: a slash grabs
/// focus, escape or enter gives it back.
pub open spec fn focus_step(focused: bool, k: Key) -> bool {
    if focused {
        !(k == Key::Esc || k == Key::Enter)
    } else {
        k == Key::Char('/')
    }
}

/// Whether `fx` is exactly the effect list one key press asks for: focus
/// changes toggle the list view's key suppression, and edits emit the new
/// filter text.
pub open spec fn key_effects_match(f: Filter, k: KeyInput, fx: Seq<Effect>) -> bool {
    if !f.focused {
        if k.code == Key::Char('/') {
            fx == seq![Effect::Emit(AppEvent::Action(Actions::UpdateIgnoreListKeys(true)))]
        } else {
            fx.len() == 0
        }
    } else {
        match k.code {
            Key::Esc | Key::Enter => fx == seq![
                Effect::Emit(AppEvent::Action(Actions::UpdateIgnoreListKeys(false))),
            ],
            Key::Char(_) | Key::Backspace => fx.len() == 1 && (fx[0] matches Effect::Emit(
                AppEvent::Action(Actions::Filter(t)),
            ) && t@ == text_step(f.input@, k.code)),
            _ => fx.len() == 0,
        }
    }
}

impl Filter {
    /// A fresh filter: empty text, no focus.
    pub fn new() -> (r: Self)
        ensures
            r.input@ == Seq::<char>::empty(),
            r.focused == false,
    {
        Filter { input: String::new(), focused: false }
    }

    /// Interprets one key press. While unfocused only a slash is consumed,
    /// which grabs focus and suppresses the list's navigation keys. While
    /// focused, printable keys and backspace edit the buffer and emit the
    /// new filter text; escape or enter releases focus and re-enables the
    /// list's keys.
    pub fn on_key_event(&mut self, key: KeyInput) -> (fx: Vec<Effect>)
        ensures
            final(self).focused == focus_step(old(self).focused, key.code),
            !old(self).focused && key.code != Key::Char('/') ==> final(self).input
                == old(self).input && fx@.len() == 0,
            !old(self).focused && key.code == Key::Char('/') ==> final(self).input == old(
                self,
            ).input && fx@ == seq![
                Effect::Emit(AppEvent::Action(Actions::UpdateIgnoreListKeys(true))),
            ],
            old(self).focused ==> final(self).input@ == text_step(old(self).input@, key.code),
            key_effects_match(*old(self), key, fx@),
    {
        let mut fx: Vec<Effect> = Vec::new();
        if !self.focused {
            if let Key::Char(c) = key.code {
                if c == '/' {
                    self.focused = true;
                    fx.push(Effect::Emit(AppEvent::Action(Actions::UpdateIgnoreListKeys(true))));
                }
            }
        } else {
            match key.code {
                Key::Esc | Key::Enter => {
                    self.focused = false;
                    fx.push(Effect::Emit(AppEvent::Action(Actions::UpdateIgnoreListKeys(false))));
                },
                Key::Char(c) => {
                    push_char(&mut self.input, c);
                    fx.push(Effect::Emit(AppEvent::Action(Actions::Filter(self.input.clone()))));
                },
                Key::Backspace => {
                    let _ = pop_char(&mut self.input);
                    fx.push(Effect::Emit(AppEvent::Action(Actions::Filter(self.input.clone()))));
                },
                _ => {},
            }
        }
        fx
    }
}

} // verus!
