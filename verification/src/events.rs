//! The value types that flow between the controller, the view components and
//! the surrounding process: key presses, services, intents (`Actions`), the
//! multiplexed channel message (`AppEvent`) and the side effects the
//! controller asks its caller to perform (`Effect`).

use vstd::prelude::*;

verus! {

/// The keys the views interpret. Terminal input is decoded into this closed
/// set before it reaches the controller; anything else is `Other`.
#[derive(Clone, Copy, PartialEq, Eq, Structural, Debug)]
pub enum Key {
    Up,
    Down,
    PageUp,
    PageDown,
    Left,
    Right,
    Enter,
    Backspace,
    Esc,
    Char(char),
    Other,
}

/// One key press: the key together with whether Control was held.
#[derive(Clone, Copy, PartialEq, Eq, Structural, Debug)]
pub struct KeyInput {
    pub code: Key,
    pub ctrl: bool,
}

/// A named background service as reported by the backend: an identifier plus
/// an optional human-readable description. Immutable once constructed.
#[derive(Debug)]
pub struct Service {
    pub name: String,
    pub description: Option<String>,
}

impl Clone for Service {
    /// Field-for-field copy; the clone is equal to the original.
    fn clone(&self) -> (r: Self)
        ensures
            r == *self,
    {
        let description = match &self.description {
            Some(d) => Some(d.clone()),
            None => None,
        };
        Service { name: self.name.clone(), description }
    }
}

/// The closed set of intents produced by view components or workers and
/// consumed by the controller.
pub enum Actions {
    RefreshLog,
    RefreshDetails,
    GoList,
    GoLog,
    GoDetails,
    Updatelog((String, String)),
    UpdateDetails,
    Filter(String),
    UpdateIgnoreListKeys(bool),
}

/// The union type carried on the single multiplexed channel: raw key presses,
/// derived intents, and backend error notifications.
pub enum AppEvent {
    Key(KeyInput),
    Action(Actions),
    Error(String),
}

/// What the controller asks the surrounding process to do after dispatching
/// one event. The caller performs these in order: sending onto the channel,
/// spawning one-shot fetch workers or periodic auto-refresh workers, and
/// showing the blocking error modal.
pub enum Effect {
    /// Send this event onto the controller's own channel.
    Emit(AppEvent),
    /// Re-query the backend for the full service list and hand the result
    /// back through `App::set_services`, or post an `Error` event on failure.
    QueryServiceList,
    /// Spawn a one-shot worker fetching the log of this service; on success
    /// it posts `Updatelog`, on failure it drops the result silently.
    FetchLog(Service),
    /// Spawn a one-shot worker fetching the details of this service; on
    /// success it posts `UpdateDetails`, on failure it drops the result.
    FetchDetails(Service),
    /// Spawn the periodic auto-refresh worker of the log view.
    StartLogWorker,
    /// Spawn the periodic auto-refresh worker of the details view.
    StartDetailsWorker,
    /// Draw a blocking modal with this message and wait for one key press.
    ShowErrorModal(String),
}

} // verus!
