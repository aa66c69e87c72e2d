//! What is recorded of a panel, and what each request does to it.
//!
//! [`PanelState`] is the record, [`PanelRequest`] a call of the host or an
//! event of the window system, and [`PanelState::step`] the rule: the record
//! after the request and the messages to send. Everything else in the
//! library is held to this rule.

use vstd::prelude::*;
use crate::native::{
    covering_area, ContentSize, KeyEvent, NativeCall, TrackingArea, CONTENT_AUTORESIZING_MASK,
    FLOATING_WINDOW_LEVEL, NIL, NON_ACTIVATING_PANEL_MASK,
};

verus! {

/// Where the pointer stands for a panel that tracks it.
#[derive(Debug, Clone, Copy, PartialEq, Eq, Structural)]
pub enum FocusState {
    /// The pointer is outside.
    Idle,
    /// The pointer is inside and the panel is the key window.
    Focused,
    /// The pointer left at `since`, in milliseconds of the host's clock; the
    /// panel is still the key window and resigns once the debounce interval
    /// has passed, unless the pointer comes back first.
    Leaving { since: u64 },
}

/// Whether a converted window is made a non-activating panel.
#[derive(Debug, Clone, Copy, PartialEq, Eq, Structural)]
pub enum InitialStyle {
    /// The non-activating bit is added to the window's style mask.
    NonActivating,
    /// The style mask stays as the window has it.
    Standard,
}

/// The choices made when a window is converted into a panel.
#[derive(Debug, Clone, Copy, PartialEq, Eq)]
pub struct WebviewPanelConfig {
    /// Install a tracking area, so that the pointer drives the focus.
    pub with_tracking_area: bool,
    pub initial_style: InitialStyle,
    /// Whether `show` also makes the panel the key window.
    pub key_on_show: bool,
    /// The answer the panel gives when the system asks whether it may
    /// resign the key window.
    pub can_resign_key: bool,
    /// How long after the pointer has left the panel resigns the key
    /// window, in milliseconds; zero for at once.
    pub debounce_ms: u64,
    /// The listener for key-window events, by its address.
    pub delegate: Option<usize>,
}

impl WebviewPanelConfig {
    /// The configuration used when nothing is chosen: no tracking area, a
    /// non-activating panel that becomes key when shown and resigns as the
    /// system asks, 20 ms of debounce, no listener.
    pub open spec fn standard() -> WebviewPanelConfig {
        WebviewPanelConfig {
            with_tracking_area: false,
            initial_style: InitialStyle::NonActivating,
            key_on_show: true,
            can_resign_key: true,
            debounce_ms: 20,
            delegate: None,
        }
    }
}

impl Default for WebviewPanelConfig {
    fn default() -> (r: WebviewPanelConfig)
        ensures
            r == WebviewPanelConfig::standard(),
    {
        WebviewPanelConfig {
            with_tracking_area: false,
            initial_style: InitialStyle::NonActivating,
            key_on_show: true,
            can_resign_key: true,
            debounce_ms: 20,
            delegate: None,
        }
    }
}

/// What the host reads off a native window before it is converted.
#[derive(Debug, Clone, Copy, PartialEq, Eq)]
pub struct NativeWindow {
    /// Address of the window.
    pub ns_window: usize,
    /// Address of the window's content view.
    pub content_view: usize,
    /// Size of the content view's bounds.
    pub content_size: ContentSize,
    pub style_mask: i32,
    pub collection_behaviour: u64,
    pub visible: bool,
    /// Whether the window is the key window.
    pub key: bool,
}

impl NativeWindow {
    /// A window can be converted if it and its content view exist.
    pub open spec fn valid(self) -> bool {
        self.ns_window != NIL && self.content_view != NIL
    }
}

/// The sender of a message, `NIL` where none is given.
pub open spec fn or_nil(sender: Option<usize>) -> usize {
    match sender {
        Some(s) => s,
        None => NIL,
    }
}

/// The listener at an address: none at `NIL`.
pub open spec fn listener_at(delegate: usize) -> Option<usize> {
    if delegate == NIL {
        None
    } else {
        Some(delegate)
    }
}

/// Whether the debounce interval has passed at `now` for a pointer that
/// left at `since`. A clock that went backwards has passed nothing.
pub open spec fn debounce_due(since: u64, now: u64, debounce_ms: u64) -> bool {
    now >= since && now - since >= debounce_ms
}

/// The part of the debounce interval that is still to pass at `now`.
pub open spec fn debounce_left(since: u64, now: u64, debounce_ms: u64) -> int {
    if now >= since {
        debounce_ms - (now - since)
    } else {
        debounce_ms as int
    }
}

/// A call of the host on a panel, or an event that the window system
/// reports for it.
#[derive(Debug, Clone, Copy, PartialEq, Eq)]
pub enum PanelRequest {
    Show,
    Activate,
    MakeKeyWindow,
    ResignKeyWindow,
    MakeKeyAndOrderFront(Option<usize>),
    OrderFrontRegardless,
    OrderOut(Option<usize>),
    /// The responder; the panel itself where none is given.
    MakeFirstResponder(Option<usize>),
    SetLevel(i32),
    SetAlphaValue(u64),
    SetContentSize(ContentSize),
    SetStyleMask(i32),
    SetCollectionBehaviour(u64),
    SetDelegate(usize),
    SetFloatingPanel(bool),
    SetAcceptsMouseMovedEvents(bool),
    SetIgnoreMouseEvents(bool),
    SetHidesOnDeactivate(bool),
    SetMoveableByWindowBackground(bool),
    SetBecomesKeyOnlyIfNeeded(bool),
    SetWorksWhenModal(bool),
    SetOpaque(bool),
    SetHasShadow(bool),
    SetReleasedWhenClosed(bool),
    Close,
    /// The pointer entered the tracking area.
    MouseEntered,
    /// The pointer left the tracking area at `now`.
    MouseExited { now: u64 },
    /// The time asked for by `NativeCall::ScheduleResign` has come; it is
    /// `now`.
    DebounceElapsed { now: u64 },
    /// The window system made the panel the key window.
    WindowDidBecomeKey,
    /// The window system took the key window from the panel.
    WindowDidResignKey,
    /// The content view's bounds changed to the given size.
    ContentResized(ContentSize),
}

/// The record of a panel: what the library has asked of the native window
/// and been told of it. Flags that the library never reads are not kept.
#[derive(Debug, Clone, Copy, PartialEq, Eq)]
pub struct PanelState {
    /// Address of the native window.
    pub window: usize,
    /// Address of its content view.
    pub content_view: usize,
    /// False once the panel has been closed.
    pub alive: bool,
    pub visible: bool,
    /// Whether the panel is the key window.
    pub key: bool,
    /// The responder last assigned through the panel.
    pub first_responder: Option<usize>,
    pub level: i32,
    pub style_mask: i32,
    pub collection_behaviour: u64,
    pub content_size: ContentSize,
    /// As last asked for through the panel, false until then; so are the
    /// five flags that follow.
    pub floating_panel: bool,
    pub accepts_mouse_moved_events: bool,
    pub hides_on_deactivate: bool,
    pub becomes_key_only_if_needed: bool,
    pub works_when_modal: bool,
    pub released_when_closed: bool,
    /// The listener for key-window events.
    pub delegate: Option<usize>,
    /// The tracking area, where one is installed.
    pub tracking: Option<TrackingArea>,
    pub focus: FocusState,
    pub can_resign_key: bool,
    pub key_on_show: bool,
    pub debounce_ms: u64,
}

/// A record after a request, and the messages the request gives rise to.
pub struct Outcome {
    pub state: PanelState,
    pub calls: Seq<NativeCall>,
}

impl PanelState {
    /// The validity of a record. The native objects exist; a tracking area
    /// covers the content view as it is; the pointer counts as inside only
    /// for a key window that tracks it, and as leaving only where there is
    /// a debounce interval to wait for; a closed panel is neither shown nor
    /// key nor tracked.
    pub open spec fn wf(self) -> bool {
        &&& self.window != NIL
        &&& self.content_view != NIL
        &&& self.delegate != Some(NIL)
        &&& self.tracking is Some ==> self.tracking == Some(covering_area(self.content_size))
        &&& self.focus != FocusState::Idle ==> self.key && self.tracking is Some
        &&& self.focus is Leaving ==> self.debounce_ms > 0
        &&& !self.alive ==> !self.visible && !self.key && self.focus == FocusState::Idle
            && self.tracking is None
    }

    /// The record of a window just converted with the given choices.
    pub open spec fn converted(native: NativeWindow, config: WebviewPanelConfig) -> PanelState {
        PanelState {
            window: native.ns_window,
            content_view: native.content_view,
            alive: true,
            visible: native.visible,
            key: native.key,
            first_responder: None,
            level: FLOATING_WINDOW_LEVEL,
            style_mask: match config.initial_style {
                InitialStyle::NonActivating => native.style_mask | NON_ACTIVATING_PANEL_MASK,
                InitialStyle::Standard => native.style_mask,
            },
            collection_behaviour: native.collection_behaviour,
            content_size: native.content_size,
            floating_panel: false,
            accepts_mouse_moved_events: true,
            hides_on_deactivate: false,
            becomes_key_only_if_needed: false,
            works_when_modal: true,
            released_when_closed: false,
            delegate: match config.delegate {
                Some(d) => listener_at(d),
                None => None,
            },
            tracking: if config.with_tracking_area {
                Some(covering_area(native.content_size))
            } else {
                None
            },
            focus: FocusState::Idle,
            can_resign_key: config.can_resign_key,
            key_on_show: config.key_on_show,
            debounce_ms: config.debounce_ms,
        }
    }

    /// The messages that convert a window: the key policy first, then the
    /// tracking area where one is asked for, the flags that keep the panel
    /// interactive, the floating level, the style and the listener.
    pub open spec fn conversion_calls(native: NativeWindow, config: WebviewPanelConfig) -> Seq<
        NativeCall,
    > {
        let made = Self::converted(native, config);
        seq![
            NativeCall::InstallKeyPolicy {
                can_become_key: true,
                can_resign_key: config.can_resign_key,
            },
        ] + (if config.with_tracking_area {
            seq![
                NativeCall::SetContentAutoresizingMask(CONTENT_AUTORESIZING_MASK),
                NativeCall::AddTrackingArea(covering_area(native.content_size)),
            ]
        } else {
            Seq::empty()
        }) + seq![
            NativeCall::SetAcceptsMouseMovedEvents(true),
            NativeCall::SetBecomesKeyOnlyIfNeeded(false),
            NativeCall::SetHidesOnDeactivate(false),
            NativeCall::SetWorksWhenModal(true),
            NativeCall::SetLevel(FLOATING_WINDOW_LEVEL),
        ] + (if config.initial_style == InitialStyle::NonActivating {
            seq![NativeCall::SetStyleMask(made.style_mask)]
        } else {
            Seq::empty()
        }) + (match made.delegate {
            Some(d) => seq![NativeCall::SetDelegate(d)],
            None => Seq::empty(),
        })
    }

    /// What the listener is told when the key flag goes to `key`: of a
    /// change, if there is a listener, and else nothing.
    pub open spec fn notice(self, key: bool) -> Seq<NativeCall> {
        match self.delegate {
            Some(d) if self.key != key => seq![
                NativeCall::Notify {
                    delegate: d,
                    event: if key {
                        KeyEvent::BecameKey
                    } else {
                        KeyEvent::ResignedKey
                    },
                },
            ],
            _ => Seq::empty(),
        }
    }

    /// The messages that move the tracking area to a content view of the
    /// given size: none where the panel tracks nothing or the size is the
    /// one it has.
    pub open spec fn retrack(self, size: ContentSize) -> Seq<NativeCall> {
        if self.tracking is Some && size != self.content_size {
            seq![NativeCall::RemoveTrackingArea, NativeCall::AddTrackingArea(covering_area(size))]
        } else {
            Seq::empty()
        }
    }

    /// The record with the content view at the given size.
    pub open spec fn resized(self, size: ContentSize) -> PanelState {
        PanelState {
            content_size: size,
            tracking: if self.tracking is Some {
                Some(covering_area(size))
            } else {
                None
            },
            ..self
        }
    }

    /// The record after the panel lost the key window: the pointer no
    /// longer counts as inside.
    pub open spec fn resigned(self) -> PanelState {
        PanelState { key: false, focus: FocusState::Idle, ..self }
    }

    /// The outcome of losing the key window through the given messages.
    pub open spec fn resign_with(self, calls: Seq<NativeCall>) -> Outcome {
        Outcome { state: self.resigned(), calls: calls + self.notice(false) }
    }

    /// The outcome of a request that changes nothing and sends nothing.
    pub open spec fn ignore(self) -> Outcome {
        Outcome { state: self, calls: Seq::empty() }
    }

    /// A record with one property set, and the message that sets it.
    pub open spec fn set(self, next: PanelState, call: NativeCall) -> Outcome {
        Outcome { state: next, calls: seq![call] }
    }

    /// Showing: the content view becomes the first responder, then the
    /// panel comes to the front, then, where it was converted to do so, it
    /// becomes the key window.
    pub open spec fn shown(self) -> Outcome {
        Outcome {
            state: PanelState {
                first_responder: Some(self.content_view),
                visible: true,
                key: self.key || self.key_on_show,
                ..self
            },
            calls: seq![
                NativeCall::MakeFirstResponder(self.content_view),
                NativeCall::OrderFrontRegardless,
            ] + (if self.key_on_show {
                seq![NativeCall::MakeKeyWindow] + self.notice(true)
            } else {
                Seq::empty()
            }),
        }
    }

    /// Activating: the panel is made ready for interaction, floats, comes
    /// to the front as the key window, and its content view becomes the
    /// first responder.
    pub open spec fn activated(self) -> Outcome {
        Outcome {
            state: PanelState {
                accepts_mouse_moved_events: true,
                becomes_key_only_if_needed: true,
                works_when_modal: true,
                hides_on_deactivate: false,
                level: FLOATING_WINDOW_LEVEL,
                visible: true,
                key: true,
                first_responder: Some(self.content_view),
                ..self
            },
            calls: seq![
                NativeCall::SetAcceptsMouseMovedEvents(true),
                NativeCall::SetBecomesKeyOnlyIfNeeded(true),
                NativeCall::SetWorksWhenModal(true),
                NativeCall::SetHidesOnDeactivate(false),
                NativeCall::SetLevel(FLOATING_WINDOW_LEVEL),
                NativeCall::OrderFrontRegardless,
                NativeCall::MakeKeyAndOrderFront(NIL),
            ] + self.notice(true) + seq![
                NativeCall::MakeKeyWindow,
                NativeCall::MakeFirstResponder(self.content_view),
            ],
        }
    }

    /// Becoming the key window through the given messages.
    pub open spec fn key_with(self, calls: Seq<NativeCall>) -> Outcome {
        Outcome { state: PanelState { key: true, ..self }, calls: calls + self.notice(true) }
    }

    /// Coming to the front as the key window.
    pub open spec fn fronted_as_key(self, sender: Option<usize>) -> Outcome {
        Outcome {
            state: PanelState { key: true, visible: true, ..self },
            calls: seq![NativeCall::MakeKeyAndOrderFront(or_nil(sender))] + self.notice(true),
        }
    }

    /// Hiding: a hidden panel is not the key window, and the pointer does
    /// not count as inside it.
    pub open spec fn ordered_out(self, sender: Option<usize>) -> Outcome {
        Outcome {
            state: PanelState { visible: false, ..self.resigned() },
            calls: seq![NativeCall::OrderOut(or_nil(sender))] + self.notice(false),
        }
    }

    /// Assigning the first responder: the one given, else the panel itself.
    pub open spec fn responding(self, responder: Option<usize>) -> Outcome {
        let to = match responder {
            Some(r) => r,
            None => self.window,
        };
        self.set(
            PanelState { first_responder: Some(to), ..self },
            NativeCall::MakeFirstResponder(to),
        )
    }

    /// Resizing the content view through the given messages; a tracking
    /// area follows.
    pub open spec fn resized_with(self, size: ContentSize, calls: Seq<NativeCall>) -> Outcome {
        Outcome { state: self.resized(size), calls: calls + self.retrack(size) }
    }

    /// Closing: the native window is told to release itself when closed,
    /// then closed; the panel is closed, hidden, not key and not tracked.
    pub open spec fn closed(self) -> Outcome {
        Outcome {
            state: PanelState {
                alive: false,
                visible: false,
                tracking: None,
                released_when_closed: true,
                ..self.resigned()
            },
            calls: seq![NativeCall::SetReleasedWhenClosed(true), NativeCall::Close] + self.notice(
                false,
            ),
        }
    }

    /// The pointer entering: a tracked panel becomes the key window, with
    /// its content view as first responder; another takes no notice.
    pub open spec fn entered(self) -> Outcome {
        if self.tracking is Some {
            Outcome {
                state: PanelState {
                    key: true,
                    first_responder: Some(self.content_view),
                    focus: FocusState::Focused,
                    ..self
                },
                calls: seq![NativeCall::MakeKeyWindow] + self.notice(true) + seq![
                    NativeCall::MakeFirstResponder(self.content_view),
                ],
            }
        } else {
            self.ignore()
        }
    }

    /// The pointer leaving at `now`: a focused panel resigns the key window
    /// at once where there is no debounce interval, and else waits for the
    /// interval to pass; a panel that is not focused takes no notice.
    pub open spec fn exited(self, now: u64) -> Outcome {
        if self.focus == FocusState::Focused {
            if self.debounce_ms == 0 {
                self.resign_with(seq![NativeCall::ResignKeyWindow])
            } else {
                self.set(
                    PanelState { focus: FocusState::Leaving { since: now }, ..self },
                    NativeCall::ScheduleResign { after_ms: self.debounce_ms },
                )
            }
        } else {
            self.ignore()
        }
    }

    /// The time being reported as `now`: a panel that the pointer has left
    /// resigns the key window if the debounce interval has passed, and else
    /// asks for the rest of it; any other panel takes no notice.
    pub open spec fn waited(self, now: u64) -> Outcome {
        match self.focus {
            FocusState::Leaving { since } => if debounce_due(since, now, self.debounce_ms) {
                self.resign_with(seq![NativeCall::ResignKeyWindow])
            } else {
                self.set(
                    self,
                    NativeCall::ScheduleResign {
                        after_ms: debounce_left(since, now, self.debounce_ms) as u64,
                    },
                )
            },
            _ => self.ignore(),
        }
    }

    /// The rule of the panel: the record after `request` and the messages
    /// to send for it, in order. It speaks of a panel that is not closed.
    pub open spec fn step(self, request: PanelRequest) -> Outcome {
        match request {
            PanelRequest::Show => self.shown(),
            PanelRequest::Activate => self.activated(),
            PanelRequest::MakeKeyWindow => self.key_with(seq![NativeCall::MakeKeyWindow]),
            PanelRequest::ResignKeyWindow => self.resign_with(seq![NativeCall::ResignKeyWindow]),
            PanelRequest::MakeKeyAndOrderFront(sender) => self.fronted_as_key(sender),
            PanelRequest::OrderFrontRegardless => self.set(
                PanelState { visible: true, ..self },
                NativeCall::OrderFrontRegardless,
            ),
            PanelRequest::OrderOut(sender) => self.ordered_out(sender),
            PanelRequest::MakeFirstResponder(responder) => self.responding(responder),
            PanelRequest::SetLevel(level) => self.set(
                PanelState { level, ..self },
                NativeCall::SetLevel(level),
            ),
            PanelRequest::SetAlphaValue(bits) => self.set(self, NativeCall::SetAlphaValue(bits)),
            PanelRequest::SetContentSize(size) => self.resized_with(
                size,
                seq![NativeCall::SetContentSize(size)],
            ),
            PanelRequest::SetStyleMask(style_mask) => self.set(
                PanelState { style_mask, ..self },
                NativeCall::SetStyleMask(style_mask),
            ),
            PanelRequest::SetCollectionBehaviour(behaviour) => self.set(
                PanelState { collection_behaviour: behaviour, ..self },
                NativeCall::SetCollectionBehavior(behaviour),
            ),
            PanelRequest::SetDelegate(delegate) => self.set(
                PanelState { delegate: listener_at(delegate), ..self },
                NativeCall::SetDelegate(delegate),
            ),
            PanelRequest::SetFloatingPanel(value) => self.set(
                PanelState { floating_panel: value, ..self },
                NativeCall::SetFloatingPanel(value),
            ),
            PanelRequest::SetAcceptsMouseMovedEvents(value) => self.set(
                PanelState { accepts_mouse_moved_events: value, ..self },
                NativeCall::SetAcceptsMouseMovedEvents(value),
            ),
            PanelRequest::SetIgnoreMouseEvents(value) => self.set(
                self,
                NativeCall::SetIgnoresMouseEvents(value),
            ),
            PanelRequest::SetHidesOnDeactivate(value) => self.set(
                PanelState { hides_on_deactivate: value, ..self },
                NativeCall::SetHidesOnDeactivate(value),
            ),
            PanelRequest::SetMoveableByWindowBackground(value) => self.set(
                self,
                NativeCall::SetMovableByWindowBackground(value),
            ),
            PanelRequest::SetBecomesKeyOnlyIfNeeded(value) => self.set(
                PanelState { becomes_key_only_if_needed: value, ..self },
                NativeCall::SetBecomesKeyOnlyIfNeeded(value),
            ),
            PanelRequest::SetWorksWhenModal(value) => self.set(
                PanelState { works_when_modal: value, ..self },
                NativeCall::SetWorksWhenModal(value),
            ),
            PanelRequest::SetOpaque(value) => self.set(self, NativeCall::SetOpaque(value)),
            PanelRequest::SetHasShadow(value) => self.set(self, NativeCall::SetHasShadow(value)),
            PanelRequest::SetReleasedWhenClosed(value) => self.set(
                PanelState { released_when_closed: value, ..self },
                NativeCall::SetReleasedWhenClosed(value),
            ),
            PanelRequest::Close => self.closed(),
            PanelRequest::MouseEntered => self.entered(),
            PanelRequest::MouseExited { now } => self.exited(now),
            PanelRequest::DebounceElapsed { now } => self.waited(now),
            PanelRequest::WindowDidBecomeKey => self.key_with(Seq::empty()),
            PanelRequest::WindowDidResignKey => self.resign_with(Seq::empty()),
            PanelRequest::ContentResized(size) => self.resized_with(size, Seq::empty()),
        }
    }
}

/// Every request leaves a valid record valid: whatever is asked of a panel
/// that is not closed, its tracking area still covers its content view, the
/// pointer counts as inside only while it is the key window, and once closed
/// it is neither shown nor key.
#[verifier::rlimit(40)]
pub proof fn lemma_step_keeps_valid(s: PanelState, request: PanelRequest)
    requires
        s.wf(),
        s.alive,
    ensures
        s.step(request).state.wf(),
        s.step(request).state.window == s.window,
        s.step(request).state.content_view == s.content_view,
        !s.step(request).state.alive <==> request == PanelRequest::Close,
{
    // By cases on the request; each case is settled by the rule alone.
    match request {
        PanelRequest::Show => {},
        PanelRequest::Activate => {},
        PanelRequest::MakeKeyWindow => {},
        PanelRequest::ResignKeyWindow => {},
        PanelRequest::MakeKeyAndOrderFront(_) => {},
        PanelRequest::OrderFrontRegardless => {},
        PanelRequest::OrderOut(_) => {},
        PanelRequest::MakeFirstResponder(_) => {},
        PanelRequest::SetLevel(_) => {},
        PanelRequest::SetAlphaValue(_) => {},
        PanelRequest::SetContentSize(_) => {},
        PanelRequest::SetStyleMask(_) => {},
        PanelRequest::SetCollectionBehaviour(_) => {},
        PanelRequest::SetDelegate(_) => {},
        PanelRequest::SetFloatingPanel(_) => {},
        PanelRequest::SetAcceptsMouseMovedEvents(_) => {},
        PanelRequest::SetIgnoreMouseEvents(_) => {},
        PanelRequest::SetHidesOnDeactivate(_) => {},
        PanelRequest::SetMoveableByWindowBackground(_) => {},
        PanelRequest::SetBecomesKeyOnlyIfNeeded(_) => {},
        PanelRequest::SetWorksWhenModal(_) => {},
        PanelRequest::SetOpaque(_) => {},
        PanelRequest::SetHasShadow(_) => {},
        PanelRequest::SetReleasedWhenClosed(_) => {},
        PanelRequest::Close => {},
        PanelRequest::MouseEntered => {},
        PanelRequest::MouseExited { .. } => {},
        PanelRequest::DebounceElapsed { .. } => {},
        PanelRequest::WindowDidBecomeKey => {},
        PanelRequest::WindowDidResignKey => {},
        PanelRequest::ContentResized(_) => {},
    }
}

/// A window that can be converted gives a valid record of a panel that is
/// not closed.
pub proof fn lemma_converted_is_valid(native: NativeWindow, config: WebviewPanelConfig)
    requires
        native.valid(),
    ensures
        PanelState::converted(native, config).wf(),
        PanelState::converted(native, config).alive,
{
}

} // verus!
