//! A panel: the record of one converted window, and the operations on it.
//!
//! Each operation changes the record as [`PanelState::step`] says and
//! returns the messages for the native window. A closed panel refuses every
//! operation with [`Error::InvalidHandle`].

use vstd::prelude::*;
use crate::error::Error;
use crate::native::{
    covering_area, non_activating, reaches_every_space, ContentSize, KeyEvent, NativeCall,
    TrackingArea, CAN_JOIN_ALL_SPACES, CONTENT_AUTORESIZING_MASK, FLOATING_WINDOW_LEVEL,
    FULL_SCREEN_AUXILIARY, NIL, NON_ACTIVATING_PANEL_MASK, TRACKING_OPTIONS,
};
use crate::state::{
    lemma_converted_is_valid, lemma_step_keeps_valid, FocusState, InitialStyle, NativeWindow,
    PanelRequest, PanelState, WebviewPanelConfig,
};

verus! {

/// A panel as contracts see it: the label of its window, and its record.
pub struct PanelModel {
    pub label: Seq<char>,
    pub state: PanelState,
}

/// A native window that the host offers for conversion, under its label.
#[derive(Debug)]
pub struct WindowHandle {
    pub label: String,
    pub native: NativeWindow,
}

/// A floating panel made from a window of the host.
#[derive(Debug)]
pub struct RawNSPanel {
    label: String,
    state: PanelState,
}

impl View for RawNSPanel {
    type V = PanelModel;

    closed spec fn view(&self) -> PanelModel {
        PanelModel { label: self.label@, state: self.state }
    }
}

/// What an operation on a panel owes: on a panel that is not closed, the
/// record and the messages of the rule; on a closed one, the error and no
/// change.
pub open spec fn responds(
    pre: PanelModel,
    request: PanelRequest,
    post: PanelModel,
    r: Result<Vec<NativeCall>, Error>,
) -> bool {
    if pre.state.alive {
        &&& r is Ok
        &&& r->Ok_0@ == pre.state.step(request).calls
        &&& post.state == pre.state.step(request).state
        &&& post.label == pre.label
    } else {
        &&& r is Err
        &&& r->Err_0 == Error::InvalidHandle
        &&& post == pre
    }
}

/// The list of one message.
fn one(call: NativeCall) -> (calls: Vec<NativeCall>)
    ensures
        calls@ == seq![call],
{
    let mut calls = Vec::new();
    calls.push(call);
    calls
}

/// Adds to `calls` what the listener of `state` is told when the key flag
/// goes to `key`.
fn push_notice(state: &PanelState, key: bool, calls: &mut Vec<NativeCall>)
    ensures
        final(calls)@ == old(calls)@ + state.notice(key),
{
    if state.key != key {
        if let Some(delegate) = state.delegate {
            let event = if key {
                KeyEvent::BecameKey
            } else {
                KeyEvent::ResignedKey
            };
            calls.push(NativeCall::Notify { delegate, event });
        }
    }
}

impl RawNSPanel {
    /// Every panel holds a valid record.
    #[verifier::type_invariant]
    pub open spec fn well_formed(self) -> bool {
        self@.state.wf()
    }

    /// Records `next` and answers with `calls`.
    fn settle(&mut self, next: PanelState, calls: Vec<NativeCall>) -> (r: Result<
        Vec<NativeCall>,
        Error,
    >)
        requires
            next.wf(),
        ensures
            final(self)@.state == next,
            final(self)@.label == old(self)@.label,
            r == Ok::<Vec<NativeCall>, Error>(calls),
    {
        self.state = next;
        Ok(calls)
    }

    /// Sets the window level, the stacking priority of the panel.
    pub fn set_level(&mut self, level: i32) -> (r: Result<Vec<NativeCall>, Error>)
        ensures
            responds(old(self)@, PanelRequest::SetLevel(level), final(self)@, r),
    {
        if !self.state.alive {
            return Err(Error::InvalidHandle);
        }
        proof {
            use_type_invariant(&*self);
            lemma_step_keeps_valid(self.state, PanelRequest::SetLevel(level));
        }
        let next = PanelState { level, ..self.state };
        self.settle(next, one(NativeCall::SetLevel(level)))
    }

    /// Makes the panel the key window.
    pub fn make_key_window(&mut self) -> (r: Result<Vec<NativeCall>, Error>)
        ensures
            responds(old(self)@, PanelRequest::MakeKeyWindow, final(self)@, r),
    {
        if !self.state.alive {
            return Err(Error::InvalidHandle);
        }
        proof {
            use_type_invariant(&*self);
            lemma_step_keeps_valid(self.state, PanelRequest::MakeKeyWindow);
        }
        let mut calls = one(NativeCall::MakeKeyWindow);
        push_notice(&self.state, true, &mut calls);
        let next = PanelState { key: true, ..self.state };
        self.settle(next, calls)
    }

    /// Brings the panel to the front, whether or not its application is
    /// active.
    pub fn order_front_regardless(&mut self) -> (r: Result<Vec<NativeCall>, Error>)
        ensures
            responds(old(self)@, PanelRequest::OrderFrontRegardless, final(self)@, r),
    {
        if !self.state.alive {
            return Err(Error::InvalidHandle);
        }
        proof {
            use_type_invariant(&*self);
            lemma_step_keeps_valid(self.state, PanelRequest::OrderFrontRegardless);
        }
        let next = PanelState { visible: true, ..self.state };
        self.settle(next, one(NativeCall::OrderFrontRegardless))
    }

    /// Makes `sender` the first responder of the panel, and the panel
    /// itself where none is given.
    pub fn make_first_responder(&mut self, sender: Option<usize>) -> (r: Result<
        Vec<NativeCall>,
        Error,
    >)
        ensures
            responds(old(self)@, PanelRequest::MakeFirstResponder(sender), final(self)@, r),
    {
        if !self.state.alive {
            return Err(Error::InvalidHandle);
        }
        proof {
            use_type_invariant(&*self);
            lemma_step_keeps_valid(self.state, PanelRequest::MakeFirstResponder(sender));
        }
        let to = match sender {
            Some(responder) => responder,
            None => self.state.window,
        };
        let next = PanelState { first_responder: Some(to), ..self.state };
        self.settle(next, one(NativeCall::MakeFirstResponder(to)))
    }

    /// Shows the panel: its content view becomes the first responder, then
    /// the panel comes to the front, then, where it was converted to do so,
    /// it becomes the key window.
    pub fn show(&mut self) -> (r: Result<Vec<NativeCall>, Error>)
        ensures
            responds(old(self)@, PanelRequest::Show, final(self)@, r),
    {
        let view = self.state.content_view;
        let key_on_show = self.state.key_on_show;
        let mut calls = self.make_first_responder(Some(view))?;
        let mut front = self.order_front_regardless()?;
        calls.append(&mut front);
        if key_on_show {
            let mut key = self.make_key_window()?;
            calls.append(&mut key);
        }
        assert(calls@ =~= old(self)@.state.step(PanelRequest::Show).calls);
        Ok(calls)
    }

    /// Replaces the style mask of the window.
    pub fn set_style_mask(&mut self, style_mask: i32) -> (r: Result<Vec<NativeCall>, Error>)
        ensures
            responds(old(self)@, PanelRequest::SetStyleMask(style_mask), final(self)@, r),
    {
        if !self.state.alive {
            return Err(Error::InvalidHandle);
        }
        proof {
            use_type_invariant(&*self);
            lemma_step_keeps_valid(self.state, PanelRequest::SetStyleMask(style_mask));
        }
        let next = PanelState { style_mask, ..self.state };
        self.settle(next, one(NativeCall::SetStyleMask(style_mask)))
    }

    /// Replaces the collection behaviour of the window.
    pub fn set_collection_behaviour(&mut self, behaviour: u64) -> (r: Result<
        Vec<NativeCall>,
        Error,
    >)
        ensures
            responds(old(self)@, PanelRequest::SetCollectionBehaviour(behaviour), final(self)@, r),
    {
        if !self.state.alive {
            return Err(Error::InvalidHandle);
        }
        proof {
            use_type_invariant(&*self);
            lemma_step_keeps_valid(self.state, PanelRequest::SetCollectionBehaviour(behaviour));
        }
        let next = PanelState { collection_behaviour: behaviour, ..self.state };
        self.settle(next, one(NativeCall::SetCollectionBehavior(behaviour)))
    }

    /// Makes the panel a floating panel, or an ordinary one.
    pub fn set_floating_panel(&mut self, value: bool) -> (r: Result<Vec<NativeCall>, Error>)
        ensures
            responds(old(self)@, PanelRequest::SetFloatingPanel(value), final(self)@, r),
    {
        if !self.state.alive {
            return Err(Error::InvalidHandle);
        }
        proof {
            use_type_invariant(&*self);
            lemma_step_keeps_valid(self.state, PanelRequest::SetFloatingPanel(value));
        }
        let next = PanelState { floating_panel: value, ..self.state };
        self.settle(next, one(NativeCall::SetFloatingPanel(value)))
    }

    /// Whether the panel is told of pointer motion while no button is down.
    pub fn set_accepts_mouse_moved_events(&mut self, value: bool) -> (r: Result<
        Vec<NativeCall>,
        Error,
    >)
        ensures
            responds(old(self)@, PanelRequest::SetAcceptsMouseMovedEvents(value), final(self)@, r),
    {
        if !self.state.alive {
            return Err(Error::InvalidHandle);
        }
        proof {
            use_type_invariant(&*self);
            lemma_step_keeps_valid(self.state, PanelRequest::SetAcceptsMouseMovedEvents(value));
        }
        let next = PanelState { accepts_mouse_moved_events: value, ..self.state };
        self.settle(next, one(NativeCall::SetAcceptsMouseMovedEvents(value)))
    }

    /// Whether the pointer passes through the panel.
    pub fn set_ignore_mouse_events(&mut self, value: bool) -> (r: Result<Vec<NativeCall>, Error>)
        ensures
            responds(old(self)@, PanelRequest::SetIgnoreMouseEvents(value), final(self)@, r),
    {
        if !self.state.alive {
            return Err(Error::InvalidHandle);
        }
        proof {
            use_type_invariant(&*self);
            lemma_step_keeps_valid(self.state, PanelRequest::SetIgnoreMouseEvents(value));
        }
        let next = self.state;
        self.settle(next, one(NativeCall::SetIgnoresMouseEvents(value)))
    }

    /// Whether the panel is hidden while its application is not active.
    pub fn set_hides_on_deactivate(&mut self, value: bool) -> (r: Result<Vec<NativeCall>, Error>)
        ensures
            responds(old(self)@, PanelRequest::SetHidesOnDeactivate(value), final(self)@, r),
    {
        if !self.state.alive {
            return Err(Error::InvalidHandle);
        }
        proof {
            use_type_invariant(&*self);
            lemma_step_keeps_valid(self.state, PanelRequest::SetHidesOnDeactivate(value));
        }
        let next = PanelState { hides_on_deactivate: value, ..self.state };
        self.settle(next, one(NativeCall::SetHidesOnDeactivate(value)))
    }

    /// Whether the panel can be dragged by its background.
    pub fn set_moveable_by_window_background(&mut self, value: bool) -> (r: Result<
        Vec<NativeCall>,
        Error,
    >)
        ensures
            responds(
                old(self)@,
                PanelRequest::SetMoveableByWindowBackground(value),
                final(self)@,
                r,
            ),
    {
        if !self.state.alive {
            return Err(Error::InvalidHandle);
        }
        proof {
            use_type_invariant(&*self);
            lemma_step_keeps_valid(self.state, PanelRequest::SetMoveableByWindowBackground(value));
        }
        let next = self.state;
        self.settle(next, one(NativeCall::SetMovableByWindowBackground(value)))
    }

    /// Whether a click makes the panel key only where the view under it needs the keyboard.
    pub fn set_becomes_key_only_if_needed(&mut self, value: bool) -> (r: Result<
        Vec<NativeCall>,
        Error,
    >)
        ensures
            responds(old(self)@, PanelRequest::SetBecomesKeyOnlyIfNeeded(value), final(self)@, r),
    {
        if !self.state.alive {
            return Err(Error::InvalidHandle);
        }
        proof {
            use_type_invariant(&*self);
            lemma_step_keeps_valid(self.state, PanelRequest::SetBecomesKeyOnlyIfNeeded(value));
        }
        let next = PanelState { becomes_key_only_if_needed: value, ..self.state };
        self.settle(next, one(NativeCall::SetBecomesKeyOnlyIfNeeded(value)))
    }

    /// Whether the panel takes input while a modal window is up.
    pub fn set_works_when_modal(&mut self, value: bool) -> (r: Result<Vec<NativeCall>, Error>)
        ensures
            responds(old(self)@, PanelRequest::SetWorksWhenModal(value), final(self)@, r),
    {
        if !self.state.alive {
            return Err(Error::InvalidHandle);
        }
        proof {
            use_type_invariant(&*self);
            lemma_step_keeps_valid(self.state, PanelRequest::SetWorksWhenModal(value));
        }
        let next = PanelState { works_when_modal: value, ..self.state };
        self.settle(next, one(NativeCall::SetWorksWhenModal(value)))
    }

    /// Whether the window is opaque.
    pub fn set_opaque(&mut self, value: bool) -> (r: Result<Vec<NativeCall>, Error>)
        ensures
            responds(old(self)@, PanelRequest::SetOpaque(value), final(self)@, r),
    {
        if !self.state.alive {
            return Err(Error::InvalidHandle);
        }
        proof {
            use_type_invariant(&*self);
            lemma_step_keeps_valid(self.state, PanelRequest::SetOpaque(value));
        }
        let next = self.state;
        self.settle(next, one(NativeCall::SetOpaque(value)))
    }

    /// Whether the window casts a shadow.
    pub fn set_has_shadow(&mut self, value: bool) -> (r: Result<Vec<NativeCall>, Error>)
        ensures
            responds(old(self)@, PanelRequest::SetHasShadow(value), final(self)@, r),
    {
        if !self.state.alive {
            return Err(Error::InvalidHandle);
        }
        proof {
            use_type_invariant(&*self);
            lemma_step_keeps_valid(self.state, PanelRequest::SetHasShadow(value));
        }
        let next = self.state;
        self.settle(next, one(NativeCall::SetHasShadow(value)))
    }

    /// Whether the native window is released when it closes.
    pub fn set_released_when_closed(&mut self, value: bool) -> (r: Result<Vec<NativeCall>, Error>)
        ensures
            responds(old(self)@, PanelRequest::SetReleasedWhenClosed(value), final(self)@, r),
    {
        if !self.state.alive {
            return Err(Error::InvalidHandle);
        }
        proof {
            use_type_invariant(&*self);
            lemma_step_keeps_valid(self.state, PanelRequest::SetReleasedWhenClosed(value));
        }
        let next = PanelState { released_when_closed: value, ..self.state };
        self.settle(next, one(NativeCall::SetReleasedWhenClosed(value)))
    }

    /// Sets the opacity of the window, given as the bits of a double.
    pub fn set_alpha_value(&mut self, value_bits: u64) -> (r: Result<Vec<NativeCall>, Error>)
        ensures
            responds(old(self)@, PanelRequest::SetAlphaValue(value_bits), final(self)@, r),
    {
        if !self.state.alive {
            return Err(Error::InvalidHandle);
        }
        proof {
            use_type_invariant(&*self);
            lemma_step_keeps_valid(self.state, PanelRequest::SetAlphaValue(value_bits));
        }
        let next = self.state;
        self.settle(next, one(NativeCall::SetAlphaValue(value_bits)))
    }

    /// Registers the listener for key-window events in place of the one
    /// before it; `NIL` removes it.
    pub fn set_delegate(&mut self, delegate: usize) -> (r: Result<Vec<NativeCall>, Error>)
        ensures
            responds(old(self)@, PanelRequest::SetDelegate(delegate), final(self)@, r),
    {
        if !self.state.alive {
            return Err(Error::InvalidHandle);
        }
        proof {
            use_type_invariant(&*self);
            lemma_step_keeps_valid(self.state, PanelRequest::SetDelegate(delegate));
        }
        let listener = if delegate == NIL {
            None
        } else {
            Some(delegate)
        };
        let next = PanelState { delegate: listener, ..self.state };
        self.settle(next, one(NativeCall::SetDelegate(delegate)))
    }

    /// Gives up the key window. The pointer no longer counts as inside.
    pub fn resign_key_window(&mut self) -> (r: Result<Vec<NativeCall>, Error>)
        ensures
            responds(old(self)@, PanelRequest::ResignKeyWindow, final(self)@, r),
    {
        if !self.state.alive {
            return Err(Error::InvalidHandle);
        }
        proof {
            use_type_invariant(&*self);
            lemma_step_keeps_valid(self.state, PanelRequest::ResignKeyWindow);
        }
        let mut calls = one(NativeCall::ResignKeyWindow);
        push_notice(&self.state, false, &mut calls);
        let next = PanelState { key: false, focus: FocusState::Idle, ..self.state };
        self.settle(next, calls)
    }

    /// Shows the panel in front and makes it the key window.
    pub fn make_key_and_order_front(&mut self, sender: Option<usize>) -> (r: Result<
        Vec<NativeCall>,
        Error,
    >)
        ensures
            responds(old(self)@, PanelRequest::MakeKeyAndOrderFront(sender), final(self)@, r),
    {
        if !self.state.alive {
            return Err(Error::InvalidHandle);
        }
        proof {
            use_type_invariant(&*self);
            lemma_step_keeps_valid(self.state, PanelRequest::MakeKeyAndOrderFront(sender));
        }
        let from = match sender {
            Some(s) => s,
            None => NIL,
        };
        let mut calls = one(NativeCall::MakeKeyAndOrderFront(from));
        push_notice(&self.state, true, &mut calls);
        let next = PanelState { key: true, visible: true, ..self.state };
        self.settle(next, calls)
    }

    /// Hides the panel without closing it. A hidden panel is not the key
    /// window, and the pointer does not count as inside it.
    pub fn order_out(&mut self, sender: Option<usize>) -> (r: Result<Vec<NativeCall>, Error>)
        ensures
            responds(old(self)@, PanelRequest::OrderOut(sender), final(self)@, r),
    {
        if !self.state.alive {
            return Err(Error::InvalidHandle);
        }
        proof {
            use_type_invariant(&*self);
            lemma_step_keeps_valid(self.state, PanelRequest::OrderOut(sender));
        }
        let from = match sender {
            Some(s) => s,
            None => NIL,
        };
        let mut calls = one(NativeCall::OrderOut(from));
        push_notice(&self.state, false, &mut calls);
        let next = PanelState {
            visible: false,
            key: false,
            focus: FocusState::Idle,
            ..self.state
        };
        self.settle(next, calls)
    }

    /// Closes the panel: the native window is first told to release itself
    /// when closed, then closed. Nothing can be asked of the panel after.
    pub fn close(&mut self) -> (r: Result<Vec<NativeCall>, Error>)
        ensures
            responds(old(self)@, PanelRequest::Close, final(self)@, r),
    {
        if !self.state.alive {
            return Err(Error::InvalidHandle);
        }
        proof {
            use_type_invariant(&*self);
            lemma_step_keeps_valid(self.state, PanelRequest::Close);
        }
        let mut calls = one(NativeCall::SetReleasedWhenClosed(true));
        calls.push(NativeCall::Close);
        push_notice(&self.state, false, &mut calls);
        let next = PanelState {
            alive: false,
            visible: false,
            key: false,
            focus: FocusState::Idle,
            tracking: None,
            released_when_closed: true,
            ..self.state
        };
        assert(calls@ =~= self.state.step(PanelRequest::Close).calls);
        self.settle(next, calls)
    }

    /// Adds to `calls` what moves the tracking area to a content view of
    /// the given size, and gives the record with the view at that size.
    fn resize(&self, size: ContentSize, calls: &mut Vec<NativeCall>) -> (next: PanelState)
        ensures
            next == self@.state.resized(size),
            final(calls)@ == old(calls)@ + self@.state.retrack(size),
    {
        let same = size.width_bits == self.state.content_size.width_bits && size.height_bits
            == self.state.content_size.height_bits;
        match self.state.tracking {
            Some(_) => {
                let area = TrackingArea { size, options: TRACKING_OPTIONS };
                if !same {
                    calls.push(NativeCall::RemoveTrackingArea);
                    calls.push(NativeCall::AddTrackingArea(area));
                }
                assert(calls@ =~= old(calls)@ + self@.state.retrack(size));
                PanelState { content_size: size, tracking: Some(area), ..self.state }
            },
            None => PanelState { content_size: size, ..self.state },
        }
    }

    /// Resizes the content view. A tracking area follows the new bounds.
    pub fn set_content_size(&mut self, size: ContentSize) -> (r: Result<Vec<NativeCall>, Error>)
        ensures
            responds(old(self)@, PanelRequest::SetContentSize(size), final(self)@, r),
    {
        if !self.state.alive {
            return Err(Error::InvalidHandle);
        }
        proof {
            use_type_invariant(&*self);
            lemma_step_keeps_valid(self.state, PanelRequest::SetContentSize(size));
        }
        let mut calls = one(NativeCall::SetContentSize(size));
        let next = self.resize(size, &mut calls);
        self.settle(next, calls)
    }

    /// The window system reports that the content view's bounds changed. A
    /// tracking area follows the new bounds.
    pub fn content_resized(&mut self, size: ContentSize) -> (r: Result<Vec<NativeCall>, Error>)
        ensures
            responds(old(self)@, PanelRequest::ContentResized(size), final(self)@, r),
    {
        if !self.state.alive {
            return Err(Error::InvalidHandle);
        }
        proof {
            use_type_invariant(&*self);
            lemma_step_keeps_valid(self.state, PanelRequest::ContentResized(size));
        }
        let mut calls = Vec::new();
        let next = self.resize(size, &mut calls);
        self.settle(next, calls)
    }

    /// The pointer entered the tracking area: the panel becomes the key
    /// window and its content view the first responder. A panel without a
    /// tracking area takes no notice.
    pub fn mouse_entered(&mut self) -> (r: Result<Vec<NativeCall>, Error>)
        ensures
            responds(old(self)@, PanelRequest::MouseEntered, final(self)@, r),
    {
        if !self.state.alive {
            return Err(Error::InvalidHandle);
        }
        proof {
            use_type_invariant(&*self);
            lemma_step_keeps_valid(self.state, PanelRequest::MouseEntered);
        }
        if self.state.tracking.is_none() {
            return Ok(Vec::new());
        }
        let view = self.state.content_view;
        let mut calls = one(NativeCall::MakeKeyWindow);
        push_notice(&self.state, true, &mut calls);
        calls.push(NativeCall::MakeFirstResponder(view));
        let next = PanelState {
            key: true,
            first_responder: Some(view),
            focus: FocusState::Focused,
            ..self.state
        };
        assert(calls@ =~= self.state.step(PanelRequest::MouseEntered).calls);
        self.settle(next, calls)
    }

    /// The pointer left the tracking area at `now`. The panel resigns the
    /// key window once the debounce interval has passed, and at once where
    /// the interval is zero. Unless the pointer was inside, nothing happens.
    pub fn mouse_exited(&mut self, now: u64) -> (r: Result<Vec<NativeCall>, Error>)
        ensures
            responds(old(self)@, PanelRequest::MouseExited { now }, final(self)@, r),
    {
        if !self.state.alive {
            return Err(Error::InvalidHandle);
        }
        proof {
            use_type_invariant(&*self);
            lemma_step_keeps_valid(self.state, PanelRequest::MouseExited { now });
        }
        match self.state.focus {
            FocusState::Focused => {
                if self.state.debounce_ms == 0 {
                    let mut calls = one(NativeCall::ResignKeyWindow);
                    push_notice(&self.state, false, &mut calls);
                    let next = PanelState { key: false, focus: FocusState::Idle, ..self.state };
                    self.settle(next, calls)
                } else {
                    let after_ms = self.state.debounce_ms;
                    let next = PanelState {
                        focus: FocusState::Leaving { since: now },
                        ..self.state
                    };
                    self.settle(next, one(NativeCall::ScheduleResign { after_ms }))
                }
            },
            _ => Ok(Vec::new()),
        }
    }

    /// The host reports the time, `now`, after a `ScheduleResign`. If the
    /// pointer has stayed outside for the debounce interval the panel
    /// resigns the key window; if the interval has not passed yet, the rest
    /// of it is scheduled; if the pointer came back, nothing happens.
    pub fn debounce_elapsed(&mut self, now: u64) -> (r: Result<Vec<NativeCall>, Error>)
        ensures
            responds(old(self)@, PanelRequest::DebounceElapsed { now }, final(self)@, r),
    {
        if !self.state.alive {
            return Err(Error::InvalidHandle);
        }
        proof {
            use_type_invariant(&*self);
            lemma_step_keeps_valid(self.state, PanelRequest::DebounceElapsed { now });
        }
        match self.state.focus {
            FocusState::Leaving { since } => {
                let debounce_ms = self.state.debounce_ms;
                if now >= since && now - since >= debounce_ms {
                    let mut calls = one(NativeCall::ResignKeyWindow);
                    push_notice(&self.state, false, &mut calls);
                    let next = PanelState { key: false, focus: FocusState::Idle, ..self.state };
                    self.settle(next, calls)
                } else {
                    let after_ms = if now >= since {
                        debounce_ms - (now - since)
                    } else {
                        debounce_ms
                    };
                    Ok(one(NativeCall::ScheduleResign { after_ms }))
                }
            },
            _ => Ok(Vec::new()),
        }
    }

    /// The window system reports that the panel became the key window.
    pub fn window_did_become_key(&mut self) -> (r: Result<Vec<NativeCall>, Error>)
        ensures
            responds(old(self)@, PanelRequest::WindowDidBecomeKey, final(self)@, r),
    {
        if !self.state.alive {
            return Err(Error::InvalidHandle);
        }
        proof {
            use_type_invariant(&*self);
            lemma_step_keeps_valid(self.state, PanelRequest::WindowDidBecomeKey);
        }
        let mut calls = Vec::new();
        push_notice(&self.state, true, &mut calls);
        let next = PanelState { key: true, ..self.state };
        self.settle(next, calls)
    }

    /// The window system reports that the panel is no longer the key
    /// window. The pointer no longer counts as inside.
    pub fn window_did_resign_key(&mut self) -> (r: Result<Vec<NativeCall>, Error>)
        ensures
            responds(old(self)@, PanelRequest::WindowDidResignKey, final(self)@, r),
    {
        if !self.state.alive {
            return Err(Error::InvalidHandle);
        }
        proof {
            use_type_invariant(&*self);
            lemma_step_keeps_valid(self.state, PanelRequest::WindowDidResignKey);
        }
        let mut calls = Vec::new();
        push_notice(&self.state, false, &mut calls);
        let next = PanelState { key: false, focus: FocusState::Idle, ..self.state };
        self.settle(next, calls)
    }

    /// Makes the panel ready for interaction and brings it to the front as
    /// the key window, with its content view as first responder.
    pub fn activate(&mut self) -> (r: Result<Vec<NativeCall>, Error>)
        ensures
            responds(old(self)@, PanelRequest::Activate, final(self)@, r),
    {
        let view = self.state.content_view;
        let mut calls = self.set_accepts_mouse_moved_events(true)?;
        let mut more = self.set_becomes_key_only_if_needed(true)?;
        calls.append(&mut more);
        let mut more = self.set_works_when_modal(true)?;
        calls.append(&mut more);
        let mut more = self.set_hides_on_deactivate(false)?;
        calls.append(&mut more);
        let mut more = self.set_level(FLOATING_WINDOW_LEVEL)?;
        calls.append(&mut more);
        let mut more = self.order_front_regardless()?;
        calls.append(&mut more);
        let mut more = self.make_key_and_order_front(None)?;
        calls.append(&mut more);
        let mut more = self.make_key_window()?;
        calls.append(&mut more);
        let mut more = self.make_first_responder(Some(view))?;
        calls.append(&mut more);
        assert(calls@ =~= old(self)@.state.step(PanelRequest::Activate).calls);
        Ok(calls)
    }

    /// Carries out a request given as a value: the operation of the same
    /// name.
    pub fn apply(&mut self, request: PanelRequest) -> (r: Result<Vec<NativeCall>, Error>)
        ensures
            responds(old(self)@, request, final(self)@, r),
    {
        match request {
            PanelRequest::Show => self.show(),
            PanelRequest::Activate => self.activate(),
            PanelRequest::MakeKeyWindow => self.make_key_window(),
            PanelRequest::ResignKeyWindow => self.resign_key_window(),
            PanelRequest::MakeKeyAndOrderFront(sender) => self.make_key_and_order_front(sender),
            PanelRequest::OrderFrontRegardless => self.order_front_regardless(),
            PanelRequest::OrderOut(sender) => self.order_out(sender),
            PanelRequest::MakeFirstResponder(responder) => self.make_first_responder(responder),
            PanelRequest::SetLevel(level) => self.set_level(level),
            PanelRequest::SetAlphaValue(bits) => self.set_alpha_value(bits),
            PanelRequest::SetContentSize(size) => self.set_content_size(size),
            PanelRequest::SetStyleMask(style_mask) => self.set_style_mask(style_mask),
            PanelRequest::SetCollectionBehaviour(behaviour) => self.set_collection_behaviour(
                behaviour,
            ),
            PanelRequest::SetDelegate(delegate) => self.set_delegate(delegate),
            PanelRequest::SetFloatingPanel(value) => self.set_floating_panel(value),
            PanelRequest::SetAcceptsMouseMovedEvents(value) => self.set_accepts_mouse_moved_events(
                value,
            ),
            PanelRequest::SetIgnoreMouseEvents(value) => self.set_ignore_mouse_events(value),
            PanelRequest::SetHidesOnDeactivate(value) => self.set_hides_on_deactivate(value),
            PanelRequest::SetMoveableByWindowBackground(value) => {
                self.set_moveable_by_window_background(value)
            },
            PanelRequest::SetBecomesKeyOnlyIfNeeded(value) => self.set_becomes_key_only_if_needed(
                value,
            ),
            PanelRequest::SetWorksWhenModal(value) => self.set_works_when_modal(value),
            PanelRequest::SetOpaque(value) => self.set_opaque(value),
            PanelRequest::SetHasShadow(value) => self.set_has_shadow(value),
            PanelRequest::SetReleasedWhenClosed(value) => self.set_released_when_closed(value),
            PanelRequest::Close => self.close(),
            PanelRequest::MouseEntered => self.mouse_entered(),
            PanelRequest::MouseExited { now } => self.mouse_exited(now),
            PanelRequest::DebounceElapsed { now } => self.debounce_elapsed(now),
            PanelRequest::WindowDidBecomeKey => self.window_did_become_key(),
            PanelRequest::WindowDidResignKey => self.window_did_resign_key(),
            PanelRequest::ContentResized(size) => self.content_resized(size),
        }
    }

    /// Adds to `calls` what installs a tracking area over a content view of
    /// the given size, and gives the area.
    fn add_tracking_area(size: ContentSize, calls: &mut Vec<NativeCall>) -> (area: TrackingArea)
        ensures
            area == covering_area(size),
            final(calls)@ == old(calls)@ + seq![
                NativeCall::SetContentAutoresizingMask(CONTENT_AUTORESIZING_MASK),
                NativeCall::AddTrackingArea(area),
            ],
    {
        let area = TrackingArea { size, options: TRACKING_OPTIONS };
        calls.push(NativeCall::SetContentAutoresizingMask(CONTENT_AUTORESIZING_MASK));
        calls.push(NativeCall::AddTrackingArea(area));
        assert(calls@ =~= old(calls)@ + seq![
            NativeCall::SetContentAutoresizingMask(CONTENT_AUTORESIZING_MASK),
            NativeCall::AddTrackingArea(area),
        ]);
        area
    }

    /// Makes a panel of a window of the host. The window keeps its label,
    /// floats, stays interactive while its application is inactive or a
    /// modal window is up, and is given the style, the tracking area and the
    /// listener that `config` asks for. The messages that bring the native
    /// window to this state come with the panel. A window that is nil, or
    /// has no content view, is refused.
    pub fn from_window(window: WindowHandle, config: WebviewPanelConfig) -> (r: Result<
        (RawNSPanel, Vec<NativeCall>),
        Error,
    >)
        ensures
            window.native.valid() ==> r is Ok && r->Ok_0.0@ == (PanelModel {
                label: window.label@,
                state: PanelState::converted(window.native, config),
            }) && r->Ok_0.1@ == PanelState::conversion_calls(window.native, config),
            !window.native.valid() ==> r is Err && r->Err_0 == Error::InvalidHandle,
    {
        let native = window.native;
        if native.ns_window == NIL || native.content_view == NIL {
            return Err(Error::InvalidHandle);
        }
        let mut calls = one(
            NativeCall::InstallKeyPolicy {
                can_become_key: true,
                can_resign_key: config.can_resign_key,
            },
        );
        let tracking = if config.with_tracking_area {
            Some(Self::add_tracking_area(native.content_size, &mut calls))
        } else {
            None
        };
        calls.push(NativeCall::SetAcceptsMouseMovedEvents(true));
        calls.push(NativeCall::SetBecomesKeyOnlyIfNeeded(false));
        calls.push(NativeCall::SetHidesOnDeactivate(false));
        calls.push(NativeCall::SetWorksWhenModal(true));
        calls.push(NativeCall::SetLevel(FLOATING_WINDOW_LEVEL));
        let style_mask = match config.initial_style {
            InitialStyle::NonActivating => {
                let mask = native.style_mask | NON_ACTIVATING_PANEL_MASK;
                calls.push(NativeCall::SetStyleMask(mask));
                mask
            },
            InitialStyle::Standard => native.style_mask,
        };
        let delegate = match config.delegate {
            Some(d) => if d == NIL {
                None
            } else {
                calls.push(NativeCall::SetDelegate(d));
                Some(d)
            },
            None => None,
        };
        let state = PanelState {
            window: native.ns_window,
            content_view: native.content_view,
            alive: true,
            visible: native.visible,
            key: native.key,
            first_responder: None,
            level: FLOATING_WINDOW_LEVEL,
            style_mask,
            collection_behaviour: native.collection_behaviour,
            content_size: native.content_size,
            floating_panel: false,
            accepts_mouse_moved_events: true,
            hides_on_deactivate: false,
            becomes_key_only_if_needed: false,
            works_when_modal: true,
            released_when_closed: false,
            delegate,
            tracking,
            focus: FocusState::Idle,
            can_resign_key: config.can_resign_key,
            key_on_show: config.key_on_show,
            debounce_ms: config.debounce_ms,
        };
        proof {
            lemma_converted_is_valid(native, config);
            assert(state == PanelState::converted(native, config));
            assert(calls@ =~= PanelState::conversion_calls(native, config));
        }
        Ok((RawNSPanel { label: window.label, state }, calls))
    }

    /// The label of the window that the panel was made from.
    pub fn label(&self) -> (r: &str)
        ensures
            r@ == self@.label,
    {
        self.label.as_str()
    }

    /// Whether the panel was made from the window with this label.
    pub fn is_labelled(&self, label: &String) -> (r: bool)
        ensures
            r == (self@.label == label@),
    {
        self.label == *label
    }

    /// The record of the panel.
    pub fn state(&self) -> (r: PanelState)
        ensures
            r == self@.state,
            r.wf(),
    {
        proof {
            use_type_invariant(self);
        }
        self.state
    }

    /// The address of the native window.
    pub fn handle(&self) -> (r: usize)
        ensures
            r == self@.state.window,
            r != NIL,
    {
        proof {
            use_type_invariant(self);
        }
        self.state.window
    }

    /// Whether the panel has been closed.
    pub fn is_closed(&self) -> (r: bool)
        ensures
            r == !self@.state.alive,
    {
        !self.state.alive
    }

    /// Whether the panel is shown.
    pub fn is_visible(&self) -> (r: Result<bool, Error>)
        ensures
            r == (if self@.state.alive {
                Ok::<bool, Error>(self@.state.visible)
            } else {
                Err::<bool, Error>(Error::InvalidHandle)
            }),
    {
        if self.state.alive {
            Ok(self.state.visible)
        } else {
            Err(Error::InvalidHandle)
        }
    }

    /// Whether the panel was last asked to be a floating panel.
    pub fn is_floating_panel(&self) -> (r: Result<bool, Error>)
        ensures
            r == (if self@.state.alive {
                Ok::<bool, Error>(self@.state.floating_panel)
            } else {
                Err::<bool, Error>(Error::InvalidHandle)
            }),
    {
        if self.state.alive {
            Ok(self.state.floating_panel)
        } else {
            Err(Error::InvalidHandle)
        }
    }

    /// The address of the content view.
    pub fn content_view(&self) -> (r: Result<usize, Error>)
        ensures
            r == (if self@.state.alive {
                Ok::<usize, Error>(self@.state.content_view)
            } else {
                Err::<usize, Error>(Error::InvalidHandle)
            }),
            r is Ok ==> r->Ok_0 != NIL,
    {
        proof {
            use_type_invariant(self);
        }
        if self.state.alive {
            Ok(self.state.content_view)
        } else {
            Err(Error::InvalidHandle)
        }
    }

    /// Whether the panel is the key window.
    pub fn is_key_window(&self) -> (r: bool)
        ensures
            r == self@.state.key,
    {
        self.state.key
    }

    /// The responder last assigned through the panel.
    pub fn first_responder(&self) -> (r: Option<usize>)
        ensures
            r == self@.state.first_responder,
    {
        self.state.first_responder
    }

    /// Where the pointer stands for the panel.
    pub fn focus(&self) -> (r: FocusState)
        ensures
            r == self@.state.focus,
    {
        self.state.focus
    }

    /// The window level.
    pub fn level(&self) -> (r: i32)
        ensures
            r == self@.state.level,
    {
        self.state.level
    }

    /// The style mask.
    pub fn style_mask(&self) -> (r: i32)
        ensures
            r == self@.state.style_mask,
    {
        self.state.style_mask
    }

    /// Whether the style mask marks the window as a non-activating panel,
    /// one that takes the focus without activating its application.
    pub fn is_non_activating(&self) -> (r: bool)
        ensures
            r == non_activating(self@.state.style_mask),
    {
        self.state.style_mask & NON_ACTIVATING_PANEL_MASK != 0
    }

    /// Whether the collection behaviour lets the panel be reached from
    /// every space and beside a full-screen window.
    pub fn reaches_every_space(&self) -> (r: bool)
        ensures
            r == reaches_every_space(self@.state.collection_behaviour),
    {
        self.state.collection_behaviour & CAN_JOIN_ALL_SPACES != 0
            && self.state.collection_behaviour & FULL_SCREEN_AUXILIARY != 0
    }

    /// The answer to the system's question whether the panel may become the
    /// key window: always yes.
    pub fn can_become_key_window(&self) -> (r: bool)
        ensures
            r,
    {
        true
    }

    /// The answer to the system's question whether the panel may resign the
    /// key window: as chosen when the window was converted.
    pub fn can_resign_key_window(&self) -> (r: bool)
        ensures
            r == self@.state.can_resign_key,
    {
        self.state.can_resign_key
    }
}

} // verus!
