//! Floating panels for webview windows.
//!
//! A panel is a window that floats above others, full-screen ones included,
//! shows on every space, and takes the keyboard focus without bringing its
//! application to the front. This library holds the rules of such a panel:
//! how it is configured, when it becomes and resigns the key window, and how
//! the pointer drives its focus. It keeps a record of each panel and returns
//! the messages that the host has to send to the native window.
//!
//! - [`state`] holds the record of a panel and the rule of what each request
//!   does to it; [`laws`] and [`focus`] hold what is proved of the rule.
//! - [`raw_nspanel`] holds the panel itself, whose operations follow the
//!   rule.
//! - [`registry`] holds the rule of the registry of panels and what is
//!   proved of it; [`store`] holds the registry itself.
//! - [`manager`] holds what the host calls: the registry, kept to one
//!   thread.
//! - [`native`] holds the messages and the constants of the window system.

pub mod error;
pub mod focus;
pub mod laws;
pub mod manager;
pub mod native;
pub mod raw_nspanel;
pub mod registry;
pub mod state;
pub mod store;

pub use error::Error;
pub use manager::NonInteractivePanelManager;
pub use native::{ContentSize, KeyEvent, NativeCall, TrackingArea};
pub use raw_nspanel::{RawNSPanel, WindowHandle};
pub use state::{
    FocusState, InitialStyle, NativeWindow, PanelRequest, PanelState, WebviewPanelConfig,
};
pub use store::{Batch, Store};
