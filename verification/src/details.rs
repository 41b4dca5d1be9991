//! The details view: the structured status of the service selected in the
//! list, and the auto-refresh flag driving its periodic worker. Symmetric to
//! the log view, without scrolling or line reversal.

use vstd::prelude::*;
use crate::events::Actions;
use crate::events::AppEvent;
use crate::events::Effect;
use crate::events::Key;
use crate::events::KeyInput;
use crate::events::Service;
use crate::log::BorderColor;

verus! {

/// State of the details view. `service` is `None` until a service has been
/// handed over from the list on navigation.
pub struct ServiceDetails {
    pub service: Option<Service>,
    pub auto_refresh: bool,
    pub border_color: BorderColor,
}

/// The view after its auto-refresh flag is set: the border shows the mode.
pub open spec fn flag_set(d: ServiceDetails, value: bool) -> ServiceDetails {
    (ServiceDetails {
        auto_refresh: value,
        border_color: if value {
            BorderColor::Orange
        } else {
            BorderColor::White
        },
        ..d
    })
}

/// The view after one key press is interpreted: switching tabs or going
/// back resets the auto-refresh mode, `a` toggles it.
pub open spec fn key_step(d: ServiceDetails, k: KeyInput) -> ServiceDetails {
    match k.code {
        Key::Left | Key::Right => flag_set(d, false),
        Key::Char(c) => if c == 'a' {
            flag_set(d, !d.auto_refresh)
        } else if c == 'q' {
            flag_set(d, false)
        } else {
            d
        },
        _ => d,
    }
}

/// The effects one key press asks the caller to perform.
pub open spec fn key_effects(d: ServiceDetails, k: KeyInput) -> Seq<Effect> {
    match k.code {
        Key::Left | Key::Right => seq![Effect::Emit(AppEvent::Action(Actions::GoLog))],
        Key::Char(c) => if c == 'a' && !d.auto_refresh {
            seq![Effect::StartDetailsWorker]
        } else if c == 'q' {
            seq![Effect::Emit(AppEvent::Action(Actions::GoList))]
        } else {
            Seq::<Effect>::empty()
        },
        _ => Seq::<Effect>::empty(),
    }
}

/// The shortcut lines shown under the view: a heading and the key help.
pub open spec fn shortcut_lines(d: ServiceDetails) -> Seq<Seq<char>> {
    seq![
        "Actions"@,
        if d.auto_refresh {
            "Switch tabs: Left/Right | Disable auto-refresh: a | Go back: q"@
        } else {
            "Switch tabs: Left/Right | Enable auto-refresh: a | Go back: q"@
        },
    ]
}

impl ServiceDetails {
    /// A fresh details view: no service, auto-refresh off.
    pub fn new() -> (r: Self)
        ensures
            r.service is None,
            r.auto_refresh == false,
            r.border_color == BorderColor::White,
    {
        ServiceDetails { service: None, auto_refresh: false, border_color: BorderColor::White }
    }

    /// Stores the service whose details the view shows.
    pub fn update(&mut self, service: Service)
        ensures
            final(self).service == Some(service),
            final(self).auto_refresh == old(self).auto_refresh,
            final(self).border_color == old(self).border_color,
    {
        self.service = Some(service);
    }

    /// Sets the auto-refresh flag and recolours the border to match.
    pub fn set_auto_refresh(&mut self, value: bool)
        ensures
            *final(self) == flag_set(*old(self), value),
    {
        self.auto_refresh = value;
        self.border_color = if value {
            BorderColor::Orange
        } else {
            BorderColor::White
        };
    }

    /// Forces auto-refresh off, as when the user navigates away.
    pub fn reset(&mut self)
        ensures
            *final(self) == flag_set(*old(self), false),
    {
        self.set_auto_refresh(false);
    }

    /// Called when the view becomes active: the periodic worker is started
    /// with auto-refresh still disabled.
    pub fn start_auto_refresh(&mut self) -> (fx: Vec<Effect>)
        ensures
            *final(self) == flag_set(*old(self), false),
            fx@ == seq![Effect::StartDetailsWorker],
    {
        self.set_auto_refresh(false);
        let mut fx: Vec<Effect> = Vec::new();
        fx.push(Effect::StartDetailsWorker);
        proof {
            assert(fx@ =~= seq![Effect::StartDetailsWorker]);
        }
        fx
    }

    /// A clone of the service the view currently shows.
    pub fn current_service(&self) -> (r: Option<Service>)
        ensures
            r == self.service,
    {
        match &self.service {
            Some(s) => Some(s.clone()),
            None => None,
        }
    }

    /// Interprets one key press forwarded by the controller.
    pub fn on_key_event(&mut self, key: KeyInput) -> (fx: Vec<Effect>)
        ensures
            *final(self) == key_step(*old(self), key),
            fx@ == key_effects(*old(self), key),
    {
        let mut fx: Vec<Effect> = Vec::new();
        match key.code {
            Key::Right => {
                self.reset();
                fx.push(Effect::Emit(AppEvent::Action(Actions::GoLog)));
            },
            Key::Left => {
                self.reset();
                fx.push(Effect::Emit(AppEvent::Action(Actions::GoLog)));
            },
            Key::Char(c) => {
                if c == 'a' {
                    let enabling = !self.auto_refresh;
                    self.set_auto_refresh(enabling);
                    if enabling {
                        fx.push(Effect::StartDetailsWorker);
                    }
                } else if c == 'q' {
                    self.reset();
                    fx.push(Effect::Emit(AppEvent::Action(Actions::GoList)));
                }
            },
            _ => {},
        }
        proof {
            assert(fx@ =~= key_effects(*old(self), key));
        }
        fx
    }

    /// The shortcut lines shown under the view.
    pub fn shortcuts(&self) -> (r: Vec<String>)
        ensures
            r@.len() == shortcut_lines(*self).len(),
            forall|i: int| 0 <= i < r@.len() ==> r@[i]@ == shortcut_lines(*self)[i],
    {
        let mut r: Vec<String> = Vec::new();
        r.push("Actions".to_owned());
        if self.auto_refresh {
            r.push("Switch tabs: Left/Right | Disable auto-refresh: a | Go back: q".to_owned());
        } else {
            r.push("Switch tabs: Left/Right | Enable auto-refresh: a | Go back: q".to_owned());
        }
        r
    }
}

} // verus!
