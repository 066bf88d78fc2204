//! Geometry, events and container layout for a small desktop GUI toolkit.
//!
//! The crate holds what such a toolkit decides without talking to a
//! windowing system: where the children of a `Row`, a `Column` or a `Grid`
//! go, which bounds a container declares for itself, which responders a
//! notification reaches, and how keys, styles and colours are numbered.

pub mod callbacks;
pub mod canvas;
pub mod event;
pub mod keys;
pub mod log;
pub mod message;
pub mod notifier;
pub mod style;
pub mod types;
pub mod widgets;
pub mod window;

pub use callbacks::{ArrowType, Button, Key, SizeType, Wheel};
pub use canvas::{CapStyle, FontWeight, JoinStyle, LineStyle, PenStyle, TextAlign};
pub use event::{Event, HotKeyFlags, KeyCode, ModifierKey, MouseButton, MouseWheel, WindowSize};
pub use keys::{key_to_vk, vk_to_key};
pub use log::LogLevel;
pub use notifier::{Notifier, Responder};
pub use style::WindowStyle;
pub use types::{gray, pos, rect, rgb, rgba, size, Color, Point, Rect, Size};
pub use widgets::column::Column;
pub use widgets::grid::{Grid, GridTrigger};
pub use widgets::linear::{LayoutPass, Outcome, Padding, Trigger};
pub use widgets::row::Row;
pub use widgets::LayoutMode;
pub use window::{Window, WindowID};
