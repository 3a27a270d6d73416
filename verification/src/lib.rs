//! State machine of a terminal sticky-note manager: cursor models, the
//! note collection, modal key handling, and the persisted snapshot form.
//!
//! The caller owns the terminal, the clock of the event loop and the files.
//! It hands each event to [`App::on_event`], carries out the [`Action`] that
//! comes back, and turns the notes into their persisted form with
//! [`snapshot::snapshot`] and back with [`snapshot::restore`].

pub mod app;
pub mod command;
pub mod config;
pub mod entry;
pub mod event;
pub mod list;
pub mod machine;
pub mod note;
pub mod seed;
pub mod snapshot;
pub mod strings;
pub mod tabs;
pub mod time;

pub use app::App;
pub use command::{Action, Command};
pub use config::AppConfig;
pub use event::Event;
pub use list::ListState;
pub use machine::Mode;
pub use note::{Remind, Todo};
pub use tabs::TabsState;
pub use time::Timestamp;
