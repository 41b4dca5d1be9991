//! Verified core of an interactive terminal dashboard for named background
//! services: the event-driven view controller, its view components, and the
//! text utilities they rely on. Terminal input, rendering and the blocking
//! service-backend queries live outside this crate; the logic that decides
//! what happens on each event is specified and proved here.

pub mod events;
pub mod text;
pub mod errors;
pub mod log;
pub mod details;
pub mod list;
pub mod filter;
pub mod app;

pub use app::App;
pub use app::Status;
pub use events::Key;
pub use events::KeyInput;
pub use events::Service;
pub use events::Actions;
pub use events::AppEvent;
pub use events::Effect;
