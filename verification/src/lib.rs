//! The menu of a desktop document archive, as plain data, and the table that
//! turns a selected menu identifier into the action the application takes.
//!
//! Nothing here touches a window system: the menu is a value that a shell
//! installs, and a selection resolves to an [`Action`] that the shell carries
//! out.

pub mod accelerator;
pub mod action;
pub mod identifiers;
pub mod laws;
pub mod layout;
pub mod menu;

pub use accelerator::Accelerator;
pub use action::{handle_menu_event, Action, DispatchTable};
pub use layout::{create_app_menu, MIN_WINDOW_HEIGHT, MIN_WINDOW_WIDTH};
pub use menu::{BuildError, MenuEntry, MenuGroup, MenuItem, MenuTree};
