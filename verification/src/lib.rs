//! A service dashboard: the state of a set of supervised services (selection, focus,
//! tabs, help overlay, toasts, a bounded log and CPU histories), the key bindings that
//! drive it, and the texts, styles and overlay geometry that the terminal front end draws.
use vstd::prelude::*;

pub mod input;
pub mod laws;
pub mod layout;
pub mod model;
pub mod text;
pub mod theme;
pub mod view;

pub use input::{Command, KeyCode, KeyEvent};
pub use model::{handle_key, App, Focus, Service, ServiceState, Tab, ToastKind};
pub use text::{fmt_clock, fmt_uptime};
pub use theme::{Color, Palette, Style, Theme};
pub use view::Rect;

verus! {

} // verus!
