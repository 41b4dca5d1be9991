//! The log view: the reversed log text of one service (newest lines at the
//! top), a scroll offset, and the auto-refresh flag that drives its periodic
//! background worker. The view interprets key presses into local state
//! changes and emitted intents; the controller forwards keys to it while it
//! is the active view.

use vstd::prelude::*;
use crate::events::Actions;
use crate::events::AppEvent;
use crate::events::Effect;
use crate::events::Key;
use crate::events::KeyInput;
use crate::text::reverse_lines;
use crate::text::reversed_lines;

verus! {

/// The border colour of a view: orange while auto-refresh is enabled, white
/// otherwise. How the colour is painted is left to the renderer.
#[derive(Clone, Copy, PartialEq, Eq, Structural, Debug)]
pub enum BorderColor {
    White,
    Orange,
}

/// State of the log view. `log_text` is `None` until the first fetch
/// completes, which the renderer shows as a loading placeholder.
pub struct ServiceLog {
    pub service_name: String,
    pub log_text: Option<String>,
    pub scroll: u16,
    pub auto_refresh: bool,
    pub border_color: BorderColor,
}

/// The scroll offset after one key press: up and page-up saturate at the
/// top, down and page-down saturate at the largest offset.
pub open spec fn scroll_step(s: u16, k: Key) -> u16 {
    match k {
        Key::Up => if s >= 1 { (s - 1) as u16 } else { 0 },
        Key::PageUp => if s >= 10 { (s - 10) as u16 } else { 0 },
        Key::Down => if s <= u16::MAX - 1 { (s + 1) as u16 } else { u16::MAX },
        Key::PageDown => if s <= u16::MAX - 10 { (s + 10) as u16 } else { u16::MAX },
        _ => s,
    }
}

/// The scroll offset after a whole sequence of key presses.
pub open spec fn scroll_after(s: u16, keys: Seq<Key>) -> u16
    decreases keys.len(),
{
    if keys.len() == 0 {
        s
    } else {
        scroll_after(scroll_step(s, keys[0]), keys.drop_first())
    }
}

/// Law: from the top of the log, no sequence of upward presses moves the
/// view: the scroll offset stays at its lower bound of zero.
pub proof fn lemma_scroll_floor(keys: Seq<Key>)
    requires
        forall|i: int| 0 <= i < keys.len() ==> keys[i] == Key::Up || keys[i] == Key::PageUp,
    ensures
        scroll_after(0, keys) == 0,
    decreases keys.len(),
{
    if keys.len() > 0 {
        assert(scroll_step(0, keys[0]) == 0);
        assert(forall|i: int|
            0 <= i < keys.drop_first().len() ==> keys.drop_first()[i] == keys[i + 1]);
        lemma_scroll_floor(keys.drop_first());
    }
}

/// The view after its auto-refresh flag is set: the border shows the mode.
pub open spec fn flag_set(l: ServiceLog, value: bool) -> ServiceLog {
    (ServiceLog {
        auto_refresh: value,
        border_color: if value {
            BorderColor::Orange
        } else {
            BorderColor::White
        },
        ..l
    })
}

/// The view after `reset`: auto-refresh off, scrolled to the top, the text
/// cleared back to the loading placeholder. The service name is kept.
pub open spec fn reset_spec(l: ServiceLog) -> ServiceLog {
    (ServiceLog { scroll: 0, log_text: None, ..flag_set(l, false) })
}

/// The view after one key press is interpreted.
pub open spec fn key_step(l: ServiceLog, k: KeyInput) -> ServiceLog {
    match k.code {
        Key::Left | Key::Right => reset_spec(l),
        Key::Up | Key::Down | Key::PageUp | Key::PageDown => (ServiceLog {
            scroll: scroll_step(l.scroll, k.code),
            ..l
        }),
        Key::Char(c) => if c == 'a' {
            flag_set(l, !l.auto_refresh)
        } else if c == 'q' {
            reset_spec(l)
        } else {
            l
        },
        _ => l,
    }
}

/// The effects one key press asks the caller to perform: switching tabs
/// emits navigation intents, and enabling auto-refresh starts the periodic
/// worker.
pub open spec fn key_effects(l: ServiceLog, k: KeyInput) -> Seq<Effect> {
    match k.code {
        Key::Left | Key::Right => seq![Effect::Emit(AppEvent::Action(Actions::GoDetails))],
        Key::Char(c) => if c == 'a' && !l.auto_refresh {
            seq![Effect::StartLogWorker]
        } else if c == 'q' {
            seq![Effect::Emit(AppEvent::Action(Actions::GoList))]
        } else {
            Seq::<Effect>::empty()
        },
        _ => Seq::<Effect>::empty(),
    }
}

/// The shortcut lines shown under the view: a heading and the key help,
/// whose auto-refresh entry names the action that a toggle would take.
pub open spec fn shortcut_lines(l: ServiceLog) -> Seq<Seq<char>> {
    seq![
        "Actions"@,
        if l.auto_refresh {
            "Scroll: Up/Down | Switch tabs: Left/Right | Disable auto-refresh: a | Go back: q"@
        } else {
            "Scroll: Up/Down | Switch tabs: Left/Right | Enable auto-refresh: a | Go back: q"@
        },
    ]
}

impl ServiceLog {
    /// A fresh log view: no service, no text, top of the log, auto-refresh
    /// off.
    pub fn new() -> (r: Self)
        ensures
            r.service_name@ == Seq::<char>::empty(),
            r.log_text is None,
            r.scroll == 0,
            r.auto_refresh == false,
            r.border_color == BorderColor::White,
    {
        ServiceLog {
            service_name: String::new(),
            log_text: None,
            scroll: 0,
            auto_refresh: false,
            border_color: BorderColor::White,
        }
    }

    /// Sets the auto-refresh flag and recolours the border to match.
    pub fn set_auto_refresh(&mut self, value: bool)
        ensures
            *final(self) == flag_set(*old(self), value),
    {
        self.auto_refresh = value;
        self.border_color = if value {
            BorderColor::Orange
        } else {
            BorderColor::White
        };
    }

    /// Forces auto-refresh off, scrolls back to the top and clears the text,
    /// so the view shows the loading placeholder when entered again.
    pub fn reset(&mut self)
        ensures
            *final(self) == reset_spec(*old(self)),
    {
        self.set_auto_refresh(false);
        self.scroll = 0;
        self.log_text = None;
    }

    /// Called when the view becomes active: the periodic worker is started
    /// with auto-refresh still disabled; it terminates on its first wake
    /// unless the user enables the mode before then.
    pub fn start_auto_refresh(&mut self) -> (fx: Vec<Effect>)
        ensures
            *final(self) == flag_set(*old(self), false),
            fx@ == seq![Effect::StartLogWorker],
    {
        self.set_auto_refresh(false);
        let mut fx: Vec<Effect> = Vec::new();
        fx.push(Effect::StartLogWorker);
        proof {
            assert(fx@ =~= seq![Effect::StartLogWorker]);
        }
        fx
    }

    /// Interprets one key press: scrolling, toggling auto-refresh, or
    /// resetting the view and navigating away.
    pub fn on_key_event(&mut self, key: KeyInput) -> (fx: Vec<Effect>)
        ensures
            *final(self) == key_step(*old(self), key),
            fx@ == key_effects(*old(self), key),
    {
        let mut fx: Vec<Effect> = Vec::new();
        match key.code {
            Key::Right => {
                self.reset();
                fx.push(Effect::Emit(AppEvent::Action(Actions::GoDetails)));
            },
            Key::Left => {
                self.reset();
                fx.push(Effect::Emit(AppEvent::Action(Actions::GoDetails)));
            },
            Key::Up => {
                self.scroll = if self.scroll >= 1 {
                    self.scroll - 1
                } else {
                    0
                };
            },
            Key::Down => {
                self.scroll = if self.scroll <= u16::MAX - 1 {
                    self.scroll + 1
                } else {
                    u16::MAX
                };
            },
            Key::PageUp => {
                self.scroll = if self.scroll >= 10 {
                    self.scroll - 10
                } else {
                    0
                };
            },
            Key::PageDown => {
                self.scroll = if self.scroll <= u16::MAX - 10 {
                    self.scroll + 10
                } else {
                    u16::MAX
                };
            },
            Key::Char(c) => {
                if c == 'a' {
                    let enabling = !self.auto_refresh;
                    self.set_auto_refresh(enabling);
                    if enabling {
                        fx.push(Effect::StartLogWorker);
                    }
                } else if c == 'q' {
                    self.reset();
                    fx.push(Effect::Emit(AppEvent::Action(Actions::GoList)));
                }
            },
            _ => {},
        }
        proof {
            assert(fx@ =~= key_effects(*old(self), key));
        }
        fx
    }

    /// Stores a freshly fetched log: the text is re-reversed so the newest
    /// lines come first, and tagged with the service it was fetched for.
    /// Feeding already-reversed text therefore reverses it back.
    pub fn update(&mut self, service_name: String, log: String)
        ensures
            final(self).service_name == service_name,
            final(self).log_text matches Some(t) && t@ == reversed_lines(log@),
            final(self).scroll == old(self).scroll,
            final(self).auto_refresh == old(self).auto_refresh,
            final(self).border_color == old(self).border_color,
    {
        self.service_name = service_name;
        let reversed = self.reversed_log(log);
        self.log_text = Some(reversed);
    }

    /// The lines of `log` in reverse order, newest first.
    pub fn reversed_log(&self, log: String) -> (r: String)
        ensures
            r@ == reversed_lines(log@),
    {
        reverse_lines(log.as_str())
    }

    /// The shortcut lines shown under the view: a heading and the key help,
    /// whose auto-refresh entry names the action that a toggle would take.
    pub fn shortcuts(&self) -> (r: Vec<String>)
        ensures
            r@.len() == shortcut_lines(*self).len(),
            forall|i: int| 0 <= i < r@.len() ==> r@[i]@ == shortcut_lines(*self)[i],
    {
        let mut r: Vec<String> = Vec::new();
        r.push("Actions".to_owned());
        if self.auto_refresh {
            r.push(
                "Scroll: Up/Down | Switch tabs: Left/Right | Disable auto-refresh: a | Go back: q".to_owned(),
            );
        } else {
            r.push(
                "Scroll: Up/Down | Switch tabs: Left/Right | Enable auto-refresh: a | Go back: q".to_owned(),
            );
        }
        r
    }
}

} // verus!
