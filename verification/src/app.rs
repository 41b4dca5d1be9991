//! The app controller: the single consumer of the multiplexed event channel.
//! It owns the current view state and every view component, and `dispatch`
//! is the one step of its loop: it routes one event through the transition
//! table and returns the effects the surrounding process must perform
//! (sending events, spawning workers, showing the blocking error modal).
//! Exactly one view is active at any time, and navigating away from the log
//! or details view always forces its auto-refresh flag off.

use vstd::prelude::*;
use crate::details;
use crate::details::ServiceDetails;
use crate::errors::friendly_error;
use crate::errors::get_user_friendly_error;
use crate::events::Actions;
use crate::events::AppEvent;
use crate::events::Effect;
use crate::events::Key;
use crate::events::KeyInput;
use crate::events::Service;
use crate::filter;
use crate::filter::Filter;
use crate::list;
use crate::list::TableServices;
use crate::log;
use crate::log::ServiceLog;

verus! {

/// The three mutually exclusive views. The controller's `status` field is
/// the only writer and the only copy of this state.
#[derive(Clone, Copy, PartialEq, Eq, Structural, Debug)]
pub enum Status {
    List,
    Log,
    Details,
}

/// Whether a key press is the global quit chord.
pub open spec fn is_quit_key(k: KeyInput) -> bool {
    k.ctrl && (k.code == Key::Char('c') || k.code == Key::Char('C'))
}

/// The controller and every view component, each held by exclusive
/// ownership; the channel endpoints live with the caller.
pub struct App {
    pub running: bool,
    pub status: Status,
    pub table_service: TableServices,
    pub filter: Filter,
    pub service_log: ServiceLog,
    pub details: ServiceDetails,
}

/// The shortcut lines of the active view, with the fixed exit entry
/// appended last.
pub open spec fn active_shortcut_lines(a: App) -> Seq<Seq<char>> {
    (match a.status {
        Status::List => list::shortcut_lines(a.table_service),
        Status::Log => log::shortcut_lines(a.service_log),
        Status::Details => details::shortcut_lines(a.details),
    }).push("Exit: Ctrl + c"@)
}

impl App {
    /// An auto-refresh flag may be set only while its view is the active
    /// one: navigating away forces it off, so no orphaned worker keeps
    /// refreshing an inactive view.
    pub open spec fn wf(self) -> bool {
        &&& (self.status != Status::Log ==> !self.service_log.auto_refresh)
        &&& (self.status != Status::Details ==> !self.details.auto_refresh)
    }

    /// A fresh controller: running, showing the list view, every component
    /// in its initial state.
    pub fn new() -> (r: Self)
        ensures
            r.running == true,
            r.status == Status::List,
            r.table_service.services@.len() == 0,
            r.table_service.filtered@.len() == 0,
            r.table_service.filter_text@.len() == 0,
            r.table_service.selected_index == 0,
            r.table_service.ignore_key_events == false,
            r.filter.input@.len() == 0,
            r.filter.focused == false,
            r.service_log.auto_refresh == false,
            r.service_log.log_text is None,
            r.service_log.scroll == 0,
            r.details.auto_refresh == false,
            r.details.service is None,
            r.wf(),
    {
        App {
            running: true,
            status: Status::List,
            table_service: TableServices::new(),
            filter: Filter::new(),
            service_log: ServiceLog::new(),
            details: ServiceDetails::new(),
        }
    }

    /// Whether the dispatch loop should keep going.
    pub fn is_running(&self) -> (r: bool)
        ensures
            r == self.running,
    {
        self.running
    }

    /// Hands the full service result set to the list view, as after the
    /// initial backend query or a re-query; the current filter is re-run
    /// over it. A failed query is instead posted as an `Error` event.
    pub fn set_services(&mut self, services: Vec<Service>)
        requires
            old(self).wf(),
        ensures
            final(self).wf(),
            final(self).table_service.services == services,
            final(self).table_service.filtered@ == list::filtered_spec(
                services@,
                old(self).table_service.filter_text@,
            ),
            final(self).table_service.filter_text == old(self).table_service.filter_text,
            final(self).table_service.selected_index as int == list::clamp_sel(
                old(self).table_service.selected_index as int,
                final(self).table_service.filtered@.len() as int,
            ),
            final(self).table_service.ignore_key_events == old(
                self,
            ).table_service.ignore_key_events,
            final(self).status == old(self).status,
            final(self).running == old(self).running,
            final(self).filter == old(self).filter,
            final(self).service_log == old(self).service_log,
            final(self).details == old(self).details,
    {
        self.table_service.set_services(services);
    }

    /// The global key handler: the quit chord ends the loop after the
    /// current iteration.
    fn on_key_event(&mut self, key: KeyInput)
        ensures
            *final(self) == (App {
                running: old(self).running && !is_quit_key(key),
                ..*old(self)
            }),
    {
        if key.ctrl {
            match key.code {
                Key::Char(c) => {
                    if c == 'c' || c == 'C' {
                        self.quit();
                    }
                },
                _ => {},
            }
        }
    }

    /// Ends the dispatch loop after the current iteration.
    fn quit(&mut self)
        ensures
            *final(self) == (App { running: false, ..*old(self) }),
    {
        self.running = false;
    }

    /// One step of the dispatch loop: routes one event through the
    /// transition table. Key presses go to the global quit handler and then
    /// to the active view; navigation actions switch the active view and
    /// force the auto-refresh flag of every view left behind; refresh
    /// actions are honoured only while their view is active; a backend
    /// error leaves all state untouched and asks only for the blocking
    /// modal, translated to its user-facing sentence.
    pub fn dispatch(&mut self, event: AppEvent) -> (fx: Vec<Effect>)
        requires
            old(self).wf(),
        ensures
            final(self).wf(),
            ({
                let s = *old(self);
                let t = *final(self);
                match event {
                    AppEvent::Key(k) => {
                        &&& t.status == s.status
                        &&& t.running == (s.running && !is_quit_key(k))
                        &&& match s.status {
                            Status::Log => {
                                &&& t.service_log == log::key_step(s.service_log, k)
                                &&& fx@ == log::key_effects(s.service_log, k)
                                &&& t.table_service == s.table_service
                                &&& t.filter == s.filter
                                &&& t.details == s.details
                            },
                            Status::List => {
                                &&& t.table_service == list::key_step(s.table_service, k)
                                &&& t.filter.focused == filter::focus_step(s.filter.focused, k.code)
                                &&& (s.filter.focused ==> t.filter.input@ == filter::text_step(
                                    s.filter.input@,
                                    k.code,
                                ))
                                &&& (!s.filter.focused ==> t.filter.input == s.filter.input)
                                &&& t.service_log == s.service_log
                                &&& t.details == s.details
                                &&& list::key_effects(s.table_service, k).is_prefix_of(fx@)
                                &&& filter::key_effects_match(
                                    s.filter,
                                    k,
                                    fx@.skip(list::key_effects(s.table_service, k).len() as int),
                                )
                            },
                            Status::Details => {
                                &&& t.details == details::key_step(s.details, k)
                                &&& fx@ == details::key_effects(s.details, k)
                                &&& t.table_service == s.table_service
                                &&& t.filter == s.filter
                                &&& t.service_log == s.service_log
                            },
                        }
                    },
                    AppEvent::Action(Actions::GoList) => {
                        &&& t.status == Status::List
                        &&& t.service_log == log::flag_set(s.service_log, false)
                        &&& t.details == details::flag_set(s.details, false)
                        &&& t.table_service == s.table_service
                        &&& t.filter == s.filter
                        &&& t.running == s.running
                        &&& fx@.len() == 0
                    },
                    AppEvent::Action(Actions::GoLog) => {
                        &&& t.status == Status::Log
                        &&& t.service_log == log::reset_spec(s.service_log)
                        &&& t.details == details::flag_set(s.details, false)
                        &&& t.table_service == s.table_service
                        &&& t.filter == s.filter
                        &&& t.running == s.running
                        &&& fx@ == seq![
                            Effect::Emit(AppEvent::Action(Actions::RefreshLog)),
                            Effect::StartLogWorker,
                        ]
                    },
                    AppEvent::Action(Actions::GoDetails) => {
                        &&& t.status == Status::Details
                        &&& t.details.auto_refresh == false
                        &&& t.details.service == (match s.table_service.selected_service_spec() {
                            Some(sv) => Some(sv),
                            None => s.details.service,
                        })
                        &&& t.service_log == log::flag_set(s.service_log, false)
                        &&& t.table_service == s.table_service
                        &&& t.filter == s.filter
                        &&& t.running == s.running
                        &&& fx@ == seq![
                            Effect::Emit(AppEvent::Action(Actions::RefreshDetails)),
                            Effect::StartDetailsWorker,
                        ]
                    },
                    AppEvent::Action(Actions::RefreshLog) => {
                        &&& t == s
                        &&& fx@ == (match s.table_service.selected_service_spec() {
                            Some(sv) => if s.status == Status::Log {
                                seq![Effect::FetchLog(sv)]
                            } else {
                                Seq::<Effect>::empty()
                            },
                            None => Seq::<Effect>::empty(),
                        })
                    },
                    AppEvent::Action(Actions::RefreshDetails) => {
                        &&& t == s
                        &&& fx@ == (match s.details.service {
                            Some(sv) => if s.status == Status::Details {
                                seq![Effect::FetchDetails(sv)]
                            } else {
                                Seq::<Effect>::empty()
                            },
                            None => Seq::<Effect>::empty(),
                        })
                    },
                    AppEvent::Action(Actions::Updatelog(p)) => {
                        &&& t.service_log.service_name == p.0
                        &&& t.service_log.log_text matches Some(txt) && txt@
                            == crate::text::reversed_lines(p.1@)
                        &&& t.service_log.scroll == s.service_log.scroll
                        &&& t.service_log.auto_refresh == s.service_log.auto_refresh
                        &&& t.service_log.border_color == s.service_log.border_color
                        &&& t.status == s.status
                        &&& t.running == s.running
                        &&& t.table_service == s.table_service
                        &&& t.filter == s.filter
                        &&& t.details == s.details
                        &&& fx@.len() == 0
                    },
                    AppEvent::Action(Actions::UpdateDetails) => {
                        &&& t == s
                        &&& fx@.len() == 0
                    },
                    AppEvent::Action(Actions::Filter(input)) => {
                        &&& t.table_service.selected_index == 0
                        &&& t.table_service.filter_text == input
                        &&& t.table_service.filtered@ == list::filtered_spec(
                            s.table_service.services@,
                            input@,
                        )
                        &&& t.table_service.services == s.table_service.services
                        &&& t.table_service.ignore_key_events
                            == s.table_service.ignore_key_events
                        &&& t.status == s.status
                        &&& t.running == s.running
                        &&& t.filter == s.filter
                        &&& t.service_log == s.service_log
                        &&& t.details == s.details
                        &&& fx@ == seq![Effect::QueryServiceList]
                    },
                    AppEvent::Action(Actions::UpdateIgnoreListKeys(b)) => {
                        &&& t.table_service == (TableServices {
                            ignore_key_events: b,
                            ..s.table_service
                        })
                        &&& t.status == s.status
                        &&& t.running == s.running
                        &&& t.filter == s.filter
                        &&& t.service_log == s.service_log
                        &&& t.details == s.details
                        &&& fx@.len() == 0
                    },
                    AppEvent::Error(msg) => {
                        &&& t == s
                        &&& fx@.len() == 1
                        &&& (fx@[0] matches Effect::ShowErrorModal(m) && m@ == friendly_error(
                            msg@,
                        ))
                    },
                }
            }),
    {
        let mut fx: Vec<Effect> = Vec::new();
        match event {
            AppEvent::Key(key) => {
                self.on_key_event(key);
                match self.status {
                    Status::Log => {
                        let mut f = self.service_log.on_key_event(key);
                        fx.append(&mut f);
                    },
                    Status::List => {
                        let mut f1 = self.table_service.on_key_event(key);
                        let ghost gl = f1@;
                        fx.append(&mut f1);
                        let mut f2 = self.filter.on_key_event(key);
                        let ghost gf = f2@;
                        fx.append(&mut f2);
                        proof {
                            assert(fx@ == gl + gf);
                            assert(gl.is_prefix_of(fx@)) by {
                                assert(fx@.take(gl.len() as int) =~= gl);
                            }
                            assert(fx@.skip(gl.len() as int) =~= gf);
                        }
                    },
                    Status::Details => {
                        let mut f = self.details.on_key_event(key);
                        fx.append(&mut f);
                    },
                }
            },
            AppEvent::Action(Actions::UpdateIgnoreListKeys(b)) => {
                self.table_service.set_ignore_key_events(b);
            },
            AppEvent::Action(Actions::Filter(input)) => {
                self.table_service.set_selected_index(0);
                self.table_service.refresh(input);
                fx.push(Effect::QueryServiceList);
                proof {
                    assert(fx@ =~= seq![Effect::QueryServiceList]);
                }
            },
            AppEvent::Action(Actions::Updatelog(p)) => {
                self.service_log.update(p.0, p.1);
            },
            AppEvent::Action(Actions::RefreshLog) => {
                let active = match self.status {
                    Status::Log => true,
                    _ => false,
                };
                if active {
                    if let Some(service) = self.table_service.get_selected_service() {
                        fx.push(Effect::FetchLog(service));
                        proof {
                            let sv = self.table_service.selected_service_spec()->Some_0;
                            assert(fx@ =~= seq![Effect::FetchLog(sv)]);
                        }
                    }
                }
            },
            AppEvent::Action(Actions::GoLog) => {
                self.status = Status::Log;
                self.service_log.reset();
                fx.push(Effect::Emit(AppEvent::Action(Actions::RefreshLog)));
                let mut f = self.service_log.start_auto_refresh();
                fx.append(&mut f);
                self.details.set_auto_refresh(false);
                proof {
                    assert(fx@ =~= seq![
                        Effect::Emit(AppEvent::Action(Actions::RefreshLog)),
                        Effect::StartLogWorker,
                    ]);
                }
            },
            AppEvent::Action(Actions::GoList) => {
                self.status = Status::List;
                self.service_log.set_auto_refresh(false);
                self.details.set_auto_refresh(false);
            },
            AppEvent::Action(Actions::UpdateDetails) => {},
            AppEvent::Action(Actions::RefreshDetails) => {
                let active = match self.status {
                    Status::Details => true,
                    _ => false,
                };
                if active {
                    if let Some(service) = self.details.current_service() {
                        fx.push(Effect::FetchDetails(service));
                        proof {
                            let sv = self.details.service->Some_0;
                            assert(fx@ =~= seq![Effect::FetchDetails(sv)]);
                        }
                    }
                }
            },
            AppEvent::Action(Actions::GoDetails) => {
                if let Some(service) = self.table_service.get_selected_service() {
                    self.details.update(service);
                }
                fx.push(Effect::Emit(AppEvent::Action(Actions::RefreshDetails)));
                self.status = Status::Details;
                let mut f = self.details.start_auto_refresh();
                fx.append(&mut f);
                self.service_log.set_auto_refresh(false);
                proof {
                    assert(fx@ =~= seq![
                        Effect::Emit(AppEvent::Action(Actions::RefreshDetails)),
                        Effect::StartDetailsWorker,
                    ]);
                }
            },
            AppEvent::Error(msg) => {
                let friendly = get_user_friendly_error(msg.as_str());
                fx.push(Effect::ShowErrorModal(friendly.to_owned()));
            },
        }
        fx
    }

    /// The shortcut lines shown under the active view, ending with the
    /// fixed exit entry.
    pub fn shortcuts(&self) -> (r: Vec<String>)
        ensures
            r@.len() == active_shortcut_lines(*self).len(),
            forall|i: int| 0 <= i < r@.len() ==> r@[i]@ == active_shortcut_lines(*self)[i],
    {
        let mut r = match self.status {
            Status::List => self.table_service.shortcuts(),
            Status::Log => self.service_log.shortcuts(),
            Status::Details => self.details.shortcuts(),
        };
        r.push("Exit: Ctrl + c".to_owned());
        r
    }
}

/// One wake of the log view's periodic worker: while the shared flag is
/// still set it emits another refresh request and keeps going; once the
/// flag is clear it emits nothing and terminates.
pub fn log_worker_tick(auto_refresh: bool) -> (r: Option<Actions>)
    ensures
        r == (if auto_refresh {
            Some(Actions::RefreshLog)
        } else {
            None::<Actions>
        }),
{
    if auto_refresh {
        Some(Actions::RefreshLog)
    } else {
        None
    }
}

/// One wake of the details view's periodic worker.
pub fn details_worker_tick(auto_refresh: bool) -> (r: Option<Actions>)
    ensures
        r == (if auto_refresh {
            Some(Actions::RefreshDetails)
        } else {
            None::<Actions>
        }),
{
    if auto_refresh {
        Some(Actions::RefreshDetails)
    } else {
        None
    }
}

/// How many refresh actions a periodic worker emits, given the flag values
/// it observes at its successive wakes: it emits one per wake while the
/// flag holds and terminates at the first clear observation.
pub open spec fn worker_emission_count(obs: Seq<bool>) -> nat
    decreases obs.len(),
{
    if obs.len() == 0 {
        0
    } else if !obs[0] {
        0
    } else {
        1 + worker_emission_count(obs.drop_first())
    }
}

/// Law: a worker whose flag is cleared before its first wake — auto-refresh
/// toggled on and off again within one sleep interval — emits no refresh
/// action at all.
pub proof fn lemma_worker_quiet_when_disabled(obs: Seq<bool>)
    requires
        obs.len() == 0 || !obs[0],
    ensures
        worker_emission_count(obs) == 0,
{
}

} // verus!
