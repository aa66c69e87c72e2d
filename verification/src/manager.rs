//! The panels of an application, as its host reaches them.
//!
//! The window system delivers its events on one thread, and a window may
//! only be touched from it. A [`NonInteractivePanelManager`] is made for
//! that thread and refuses every call that says it comes from another, with
//! [`Error::WrongThread`], before it looks at anything else. A host that
//! shares the manager between threads keeps it behind a lock of its own.

use vstd::prelude::*;
use crate::error::Error;
use crate::raw_nspanel::{PanelModel, RawNSPanel, WindowHandle};
use crate::registry::{command_reply, command_step, registry_wf, Command};
use crate::state::{PanelRequest, PanelState, WebviewPanelConfig};
use crate::store::{replies, Batch, Store};

verus! {

/// A manager as contracts see it: the thread it serves, and its registry.
pub struct ManagerModel {
    pub ui_thread: u64,
    pub panels: Map<Seq<char>, PanelState>,
}

/// The panels of an application, and the thread that may touch them.
#[derive(Debug)]
pub struct NonInteractivePanelManager {
    store: Store,
    ui_thread: u64,
}

impl View for NonInteractivePanelManager {
    type V = ManagerModel;

    closed spec fn view(&self) -> ManagerModel {
        ManagerModel { ui_thread: self.ui_thread, panels: self.store@ }
    }
}

/// What a command owes when it is given on `thread`: on the manager's own
/// thread, the registry and the answer of the rule; on any other, the error
/// and no change.
pub open spec fn managed(
    pre: ManagerModel,
    thread: u64,
    command: Command,
    post: ManagerModel,
    r: Result<Batch, Error>,
) -> bool {
    &&& post.ui_thread == pre.ui_thread
    &&& if thread == pre.ui_thread {
        &&& post.panels == command_step(pre.panels, command)
        &&& replies(command_reply(pre.panels, command), r)
    } else {
        &&& post.panels == pre.panels
        &&& r is Err
        &&& r->Err_0 == Error::WrongThread
    }
}

impl NonInteractivePanelManager {
    /// A manager without panels, for the thread that the host knows by
    /// `ui_thread`.
    pub fn new(ui_thread: u64) -> (r: NonInteractivePanelManager)
        ensures
            r@.ui_thread == ui_thread,
            r@.panels == Map::<Seq<char>, PanelState>::empty(),
    {
        NonInteractivePanelManager { store: Store::new(), ui_thread }
    }

    /// The thread that the manager serves.
    pub fn ui_thread(&self) -> (r: u64)
        ensures
            r == self@.ui_thread,
    {
        self.ui_thread
    }

    /// The number of registered panels.
    pub fn len(&self, thread: u64) -> (r: Result<usize, Error>)
        ensures
            match r {
                Ok(n) => thread == self@.ui_thread && registry_wf(self@.panels) && n
                    == self@.panels.dom().len(),
                Err(e) => thread != self@.ui_thread && e == Error::WrongThread,
            },
    {
        if thread != self.ui_thread {
            return Err(Error::WrongThread);
        }
        Ok(self.store.len())
    }

    /// The panel registered under the label. `WrongThread` off the
    /// manager's thread; `PanelNotFound` where the label has no panel.
    pub fn lookup(&self, thread: u64, label: &str) -> (r: Result<&RawNSPanel, Error>)
        ensures
            match r {
                Ok(panel) => thread == self@.ui_thread && self@.panels.dom().contains(label@)
                    && panel@ == (PanelModel { label: label@, state: self@.panels[label@] }),
                Err(e) => if thread != self@.ui_thread {
                    e == Error::WrongThread
                } else {
                    !self@.panels.dom().contains(label@) && e == Error::PanelNotFound
                },
            },
    {
        if thread != self.ui_thread {
            return Err(Error::WrongThread);
        }
        self.store.lookup(label)
    }

    /// Converts a window into a panel and registers it under the window's
    /// label, in place of any panel registered under it: converting a label
    /// again is no error, it configures the window afresh. The answer holds
    /// the messages that configure the native window. `WrongThread` off the
    /// manager's thread; `InvalidHandle` for a window that is nil or has no
    /// content view.
    pub fn convert(&mut self, thread: u64, window: WindowHandle, config: WebviewPanelConfig) -> (r:
        Result<Batch, Error>)
        ensures
            managed(
                old(self)@,
                thread,
                Command::Convert { label: window.label@, native: window.native, config },
                final(self)@,
                r,
            ),
    {
        if thread != self.ui_thread {
            return Err(Error::WrongThread);
        }
        self.store.convert(window, config)
    }

    /// Asks `request` of the panel registered under the label. A request
    /// that closes the panel takes it out of the registry. `WrongThread`
    /// off the manager's thread; `PanelNotFound` where the label has no
    /// panel.
    pub fn dispatch(&mut self, thread: u64, label: &str, request: PanelRequest) -> (r: Result<
        Batch,
        Error,
    >)
        ensures
            managed(
                old(self)@,
                thread,
                Command::Dispatch { label: label@, request },
                final(self)@,
                r,
            ),
    {
        if thread != self.ui_thread {
            return Err(Error::WrongThread);
        }
        self.store.dispatch(label, request)
    }

    /// Shows the panel registered under the label: its content view becomes
    /// the first responder, then the panel comes to the front, then, where
    /// it was converted to do so, it becomes the key window.
    pub fn show(&mut self, thread: u64, label: &str) -> (r: Result<Batch, Error>)
        ensures
            managed(
                old(self)@,
                thread,
                Command::Dispatch { label: label@, request: PanelRequest::Show },
                final(self)@,
                r,
            ),
    {
        self.dispatch(thread, label, PanelRequest::Show)
    }

    /// Hides the panel registered under the label without closing it.
    pub fn hide_panel(&mut self, thread: u64, label: &str) -> (r: Result<Batch, Error>)
        ensures
            managed(
                old(self)@,
                thread,
                Command::Dispatch { label: label@, request: PanelRequest::OrderOut(None) },
                final(self)@,
                r,
            ),
    {
        self.dispatch(thread, label, PanelRequest::OrderOut(None))
    }

    /// Closes the panel registered under the label and takes it out of the
    /// registry: whatever is asked of the label afterwards is answered with
    /// `PanelNotFound`, until a window is converted under it again.
    pub fn close(&mut self, thread: u64, label: &str) -> (r: Result<Batch, Error>)
        ensures
            managed(
                old(self)@,
                thread,
                Command::Dispatch { label: label@, request: PanelRequest::Close },
                final(self)@,
                r,
            ),
    {
        self.dispatch(thread, label, PanelRequest::Close)
    }

    /// Registers the listener for the key-window events of the panel under
    /// the label, in place of the one before it.
    pub fn on_focus_change(&mut self, thread: u64, label: &str, delegate: usize) -> (r: Result<
        Batch,
        Error,
    >)
        ensures
            managed(
                old(self)@,
                thread,
                Command::Dispatch { label: label@, request: PanelRequest::SetDelegate(delegate) },
                final(self)@,
                r,
            ),
    {
        self.dispatch(thread, label, PanelRequest::SetDelegate(delegate))
    }

    /// Forgets every panel; nothing is sent to their windows.
    pub fn reset(&mut self, thread: u64) -> (r: Result<(), Error>)
        ensures
            final(self)@.ui_thread == old(self)@.ui_thread,
            match r {
                Ok(_) => thread == old(self)@.ui_thread && final(self)@.panels == command_step(
                    old(self)@.panels,
                    Command::Reset,
                ),
                Err(e) => thread != old(self)@.ui_thread && e == Error::WrongThread
                    && final(self)@.panels == old(self)@.panels,
            },
    {
        if thread != self.ui_thread {
            return Err(Error::WrongThread);
        }
        self.store.reset();
        Ok(())
    }
}

} // verus!
