//! The vocabulary between the library and the window system.
//!
//! The library never touches a native window. It decides what has to be
//! sent to one and hands the host a list of [`NativeCall`]s, in the order in
//! which they are to be sent. Native objects are known by their address; a
//! length in points is carried as the bit pattern of its IEEE-754 double, so
//! that it can be stored and compared here and is only computed on by the
//! host.

use vstd::prelude::*;

verus! {

/// Window level of floating panels: above normal windows, below the menu bar.
pub const FLOATING_WINDOW_LEVEL: i32 = 3;

/// Style bit of a panel that does not activate its application when it gets
/// the focus.
pub const NON_ACTIVATING_PANEL_MASK: i32 = 1 << 7;

/// Collection behaviour bit: the window shows on every space.
pub const CAN_JOIN_ALL_SPACES: u64 = 1 << 0;

/// Collection behaviour bit: the window may share a space with a full-screen
/// window.
pub const FULL_SCREEN_AUXILIARY: u64 = 1 << 8;

/// Tracking option: report the pointer entering and leaving the area.
pub const TRACKING_MOUSE_ENTERED_AND_EXITED: u32 = 0x01;

/// Tracking option: report pointer motion inside the area.
pub const TRACKING_MOUSE_MOVED: u32 = 0x02;

/// Tracking option: report when the cursor has to be updated.
pub const TRACKING_CURSOR_UPDATE: u32 = 0x04;

/// Tracking option: report whether or not the application is active.
pub const TRACKING_ACTIVE_ALWAYS: u32 = 0x80;

/// The options with which a panel's tracking area is installed.
pub const TRACKING_OPTIONS: u32 = TRACKING_ACTIVE_ALWAYS | TRACKING_MOUSE_ENTERED_AND_EXITED
    | TRACKING_MOUSE_MOVED | TRACKING_CURSOR_UPDATE;

/// Autoresizing bit: the view's width follows its window.
pub const VIEW_WIDTH_SIZABLE: u64 = 2;

/// Autoresizing bit: the view's height follows its window.
pub const VIEW_HEIGHT_SIZABLE: u64 = 16;

/// The autoresizing mask given to a tracked content view.
pub const CONTENT_AUTORESIZING_MASK: u64 = VIEW_WIDTH_SIZABLE | VIEW_HEIGHT_SIZABLE;

/// The address that stands for no object.
pub const NIL: usize = 0;

/// The numbers behind the combined constants.
pub proof fn lemma_constant_values()
    ensures
        NON_ACTIVATING_PANEL_MASK == 128,
        CAN_JOIN_ALL_SPACES == 1,
        FULL_SCREEN_AUXILIARY == 256,
        TRACKING_OPTIONS == 0x87,
        CONTENT_AUTORESIZING_MASK == 18,
{
    assert(1i32 << 7 == 128i32) by (bit_vector);
    assert(1u64 << 0 == 1u64) by (bit_vector);
    assert(1u64 << 8 == 256u64) by (bit_vector);
    assert(0x80u32 | 0x01u32 | 0x02u32 | 0x04u32 == 0x87u32) by (bit_vector);
    assert(2u64 | 16u64 == 18u64) by (bit_vector);
}

/// Whether a style mask marks its window as a non-activating panel.
pub open spec fn non_activating(style_mask: i32) -> bool {
    style_mask & NON_ACTIVATING_PANEL_MASK != 0
}

/// Whether a collection behaviour lets the window be reached from every
/// space and beside a full-screen window.
pub open spec fn reaches_every_space(behaviour: u64) -> bool {
    behaviour & CAN_JOIN_ALL_SPACES != 0 && behaviour & FULL_SCREEN_AUXILIARY != 0
}

/// A change of the key-window status, as a listener is told of it.
#[derive(Debug, Clone, Copy, PartialEq, Eq, Structural)]
pub enum KeyEvent {
    BecameKey,
    ResignedKey,
}

impl KeyEvent {
    /// The name under which the event reaches a listener.
    pub open spec fn spec_name(self) -> Seq<char> {
        match self {
            KeyEvent::BecameKey => "became_key"@,
            KeyEvent::ResignedKey => "resigned_key"@,
        }
    }

    /// The name under which the event reaches a listener.
    pub fn name(&self) -> (r: &'static str)
        ensures
            r@ == self.spec_name(),
    {
        match self {
            KeyEvent::BecameKey => "became_key",
            KeyEvent::ResignedKey => "resigned_key",
        }
    }
}

/// The size of a content view, each length as the bits of its double.
#[derive(Debug, Clone, Copy, PartialEq, Eq, Structural)]
pub struct ContentSize {
    pub width_bits: u64,
    pub height_bits: u64,
}

/// A tracking area over a content view: the rectangle from the view's
/// origin with the given size, and the options it was installed with.
#[derive(Debug, Clone, Copy, PartialEq, Eq, Structural)]
pub struct TrackingArea {
    pub size: ContentSize,
    pub options: u32,
}

/// The tracking area that covers a content view of the given size.
pub open spec fn covering_area(size: ContentSize) -> TrackingArea {
    TrackingArea { size, options: TRACKING_OPTIONS }
}

/// One message for the host to send to a panel's native window, or one
/// thing for it to do on the panel's behalf.
#[derive(Debug, Clone, Copy, PartialEq, Eq)]
pub enum NativeCall {
    /// Make the window answer the system's two questions, whether it may
    /// become and whether it may resign the key window, as given.
    InstallKeyPolicy { can_become_key: bool, can_resign_key: bool },
    MakeKeyWindow,
    ResignKeyWindow,
    /// The argument is the sender, `NIL` for none.
    MakeKeyAndOrderFront(usize),
    OrderFrontRegardless,
    /// The argument is the sender, `NIL` for none.
    OrderOut(usize),
    /// The argument is the responder.
    MakeFirstResponder(usize),
    SetLevel(i32),
    /// The argument is the bits of the opacity, a double.
    SetAlphaValue(u64),
    SetContentSize(ContentSize),
    SetStyleMask(i32),
    SetCollectionBehavior(u64),
    /// The argument is the delegate, `NIL` to remove it.
    SetDelegate(usize),
    SetFloatingPanel(bool),
    SetAcceptsMouseMovedEvents(bool),
    SetIgnoresMouseEvents(bool),
    SetHidesOnDeactivate(bool),
    SetMovableByWindowBackground(bool),
    SetBecomesKeyOnlyIfNeeded(bool),
    SetWorksWhenModal(bool),
    SetOpaque(bool),
    SetHasShadow(bool),
    SetReleasedWhenClosed(bool),
    Close,
    /// Set the autoresizing mask of the content view.
    SetContentAutoresizingMask(u64),
    /// Install the tracking area on the content view, owned by the window.
    AddTrackingArea(TrackingArea),
    /// Remove the tracking area from the content view.
    RemoveTrackingArea,
    /// Report to the panel that the time has passed, this many
    /// milliseconds from now.
    ScheduleResign { after_ms: u64 },
    /// Tell the listener, known by the address it was registered with, of
    /// the event.
    Notify { delegate: usize, event: KeyEvent },
}

} // verus!
