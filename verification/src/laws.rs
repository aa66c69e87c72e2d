//! Laws of the panel's rule, proved of [`PanelState::step`].

use vstd::prelude::*;
use crate::native::{KeyEvent, NativeCall};
use crate::state::{lemma_step_keeps_valid, PanelRequest, PanelState};

verus! {

/// Whether a message tells a listener of a key-window event.
pub open spec fn is_notice(call: NativeCall) -> bool {
    call is Notify
}

/// Whether a listener is told of a key-window event among the messages.
pub open spec fn tells(calls: Seq<NativeCall>) -> bool {
    exists|i: int| 0 <= i < calls.len() && is_notice(#[trigger] calls[i])
}

/// The listener is told of the key window exactly when it changes hands: a
/// request tells a listener if and only if the panel has one and the
/// request makes it the key window or takes the key window from it. What it
/// is told is the event that happened.
pub proof fn lemma_listener_told_of_every_change(s: PanelState, request: PanelRequest)
    requires
        s.wf(),
        s.alive,
    ensures
        tells(s.step(request).calls) <==> s.delegate is Some && s.step(request).state.key != s.key,
        forall|i: int|
            0 <= i < s.step(request).calls.len() && is_notice(#[trigger] s.step(request).calls[i])
                ==> s.step(request).calls[i] == (NativeCall::Notify {
                delegate: s.delegate->Some_0,
                event: if s.key {
                    KeyEvent::ResignedKey
                } else {
                    KeyEvent::BecameKey
                },
            }),
{
    let calls = s.step(request).calls;
    let changed = s.delegate is Some && s.step(request).state.key != s.key;
    // By cases on the request. Where the key window changes hands, the
    // notice stands at a known place among the messages.
    match request {
        PanelRequest::Show => {
            if changed {
                assert(is_notice(calls[3]));
            }
        },
        PanelRequest::Activate => {
            if changed {
                assert(is_notice(calls[7]));
            }
        },
        PanelRequest::MakeKeyWindow => {
            if changed {
                assert(is_notice(calls[1]));
            }
        },
        PanelRequest::ResignKeyWindow => {
            if changed {
                assert(is_notice(calls[1]));
            }
        },
        PanelRequest::MakeKeyAndOrderFront(_) => {
            if changed {
                assert(is_notice(calls[1]));
            }
        },
        PanelRequest::OrderFrontRegardless => {},
        PanelRequest::OrderOut(_) => {
            if changed {
                assert(is_notice(calls[1]));
            }
        },
        PanelRequest::MakeFirstResponder(_) => {},
        PanelRequest::SetLevel(_) => {},
        PanelRequest::SetAlphaValue(_) => {},
        PanelRequest::SetContentSize(_) => {},
        PanelRequest::SetStyleMask(_) => {},
        PanelRequest::SetCollectionBehaviour(_) => {},
        PanelRequest::SetDelegate(_) => {},
        PanelRequest::SetFloatingPanel(_) => {},
        PanelRequest::SetAcceptsMouseMovedEvents(_) => {},
        PanelRequest::SetIgnoreMouseEvents(_) => {},
        PanelRequest::SetHidesOnDeactivate(_) => {},
        PanelRequest::SetMoveableByWindowBackground(_) => {},
        PanelRequest::SetBecomesKeyOnlyIfNeeded(_) => {},
        PanelRequest::SetWorksWhenModal(_) => {},
        PanelRequest::SetOpaque(_) => {},
        PanelRequest::SetHasShadow(_) => {},
        PanelRequest::SetReleasedWhenClosed(_) => {},
        PanelRequest::Close => {
            if changed {
                assert(is_notice(calls[2]));
            }
        },
        PanelRequest::MouseEntered => {
            if changed {
                assert(is_notice(calls[1]));
            }
        },
        PanelRequest::MouseExited { .. } => {
            if changed {
                assert(is_notice(calls[1]));
            }
        },
        PanelRequest::DebounceElapsed { .. } => {
            if changed {
                assert(is_notice(calls[1]));
            }
        },
        PanelRequest::WindowDidBecomeKey => {
            if changed {
                assert(is_notice(calls[0]));
            }
        },
        PanelRequest::WindowDidResignKey => {
            if changed {
                assert(is_notice(calls[0]));
            }
        },
        PanelRequest::ContentResized(_) => {},
    }
}

// The record after a request is a fixed point of the request. The proof goes
// by the kind of request, a few kinds at a time: taken all at once, the
// cases are more than the prover gets through.

/// Whether the request sets how the panel looks or where it stacks.
spec fn of_look(request: PanelRequest) -> bool {
    request is SetLevel
        || request is SetAlphaValue
        || request is SetStyleMask
        || request is SetCollectionBehaviour
}

/// Such a request, asked again, changes nothing.
#[verifier::rlimit(40)]
proof fn lemma_look_repeats(s: PanelState, request: PanelRequest)
    requires
        of_look(request),
    ensures
        s.step(request).state.step(request).state == s.step(request).state,
{
}

/// Whether the request sets the surface of the panel.
spec fn of_surface(request: PanelRequest) -> bool {
    request is SetOpaque
        || request is SetHasShadow
        || request is SetFloatingPanel
        || request is SetContentSize
}

/// Such a request, asked again, changes nothing.
#[verifier::rlimit(40)]
proof fn lemma_surface_repeats(s: PanelState, request: PanelRequest)
    requires
        of_surface(request),
    ensures
        s.step(request).state.step(request).state == s.step(request).state,
{
}

/// Whether the request sets how the panel takes the pointer, or who listens.
spec fn of_pointer(request: PanelRequest) -> bool {
    request is SetAcceptsMouseMovedEvents
        || request is SetIgnoreMouseEvents
        || request is SetMoveableByWindowBackground
        || request is SetDelegate
}

/// Such a request, asked again, changes nothing.
#[verifier::rlimit(40)]
proof fn lemma_pointer_repeats(s: PanelState, request: PanelRequest)
    requires
        of_pointer(request),
    ensures
        s.step(request).state.step(request).state == s.step(request).state,
{
}

/// Whether the request sets how the panel behaves beside other windows.
spec fn of_manners(request: PanelRequest) -> bool {
    request is SetHidesOnDeactivate
        || request is SetBecomesKeyOnlyIfNeeded
        || request is SetWorksWhenModal
        || request is SetReleasedWhenClosed
}

/// Such a request, asked again, changes nothing.
#[verifier::rlimit(40)]
proof fn lemma_manners_repeats(s: PanelState, request: PanelRequest)
    requires
        of_manners(request),
    ensures
        s.step(request).state.step(request).state == s.step(request).state,
{
}

/// Whether the request shows or hides the panel.
spec fn of_order(request: PanelRequest) -> bool {
    request is OrderOut
        || request == PanelRequest::Show
        || request == PanelRequest::Activate
        || request == PanelRequest::OrderFrontRegardless
}

/// Such a request, asked again, changes nothing.
#[verifier::rlimit(40)]
proof fn lemma_order_repeats(s: PanelState, request: PanelRequest)
    requires
        of_order(request),
    ensures
        s.step(request).state.step(request).state == s.step(request).state,
{
}

/// Whether the request hands over the key window or the first responder.
spec fn of_key(request: PanelRequest) -> bool {
    request is MakeKeyAndOrderFront
        || request is MakeFirstResponder
        || request == PanelRequest::MakeKeyWindow
        || request == PanelRequest::ResignKeyWindow
}

/// Such a request, asked again, changes nothing.
#[verifier::rlimit(40)]
proof fn lemma_key_repeats(s: PanelState, request: PanelRequest)
    requires
        of_key(request),
    ensures
        s.step(request).state.step(request).state == s.step(request).state,
{
}

/// Whether the request follows the pointer, or closes the panel.
spec fn of_track(request: PanelRequest) -> bool {
    request is MouseExited
        || request is DebounceElapsed
        || request == PanelRequest::MouseEntered
        || request == PanelRequest::Close
}

/// Such a request, asked again, changes nothing.
#[verifier::rlimit(40)]
proof fn lemma_track_repeats(s: PanelState, request: PanelRequest)
    requires
        of_track(request),
    ensures
        s.step(request).state.step(request).state == s.step(request).state,
{
}

/// Whether the request reports what the window system did.
spec fn of_report(request: PanelRequest) -> bool {
    request is ContentResized
        || request == PanelRequest::WindowDidBecomeKey
        || request == PanelRequest::WindowDidResignKey
}

/// Such a request, asked again, changes nothing.
#[verifier::rlimit(40)]
proof fn lemma_report_repeats(s: PanelState, request: PanelRequest)
    requires
        of_report(request),
    ensures
        s.step(request).state.step(request).state == s.step(request).state,
{
}

/// What is asked once need not be asked again: asking the same a second
/// time leaves the record as the first time left it and, of a panel that
/// the first time did not close, tells the listener nothing.
pub proof fn lemma_requests_are_idempotent(s: PanelState, request: PanelRequest)
    requires
        s.wf(),
        s.alive,
    ensures
        ({
            let once = s.step(request).state;
            &&& once.step(request).state == once
            &&& request != PanelRequest::Close ==> !tells(once.step(request).calls)
        }),
{
    let once = s.step(request).state;
    lemma_step_keeps_valid(s, request);
    if request != PanelRequest::Close {
        lemma_listener_told_of_every_change(once, request);
    }
    if of_look(request) {
        lemma_look_repeats(s, request);
    } else if of_surface(request) {
        lemma_surface_repeats(s, request);
    } else if of_pointer(request) {
        lemma_pointer_repeats(s, request);
    } else if of_manners(request) {
        lemma_manners_repeats(s, request);
    } else if of_order(request) {
        lemma_order_repeats(s, request);
    } else if of_key(request) {
        lemma_key_repeats(s, request);
    } else if of_track(request) {
        lemma_track_repeats(s, request);
    } else {
        assert(of_report(request));
        lemma_report_repeats(s, request);
    }
}

/// Showing assigns the first responder before it orders the panel to the
/// front, and makes the panel the key window exactly where it was
/// converted to do so.
pub proof fn lemma_show_order(s: PanelState)
    requires
        s.wf(),
        s.alive,
    ensures
        ({
            let shown = s.step(PanelRequest::Show);
            &&& shown.calls[0] == NativeCall::MakeFirstResponder(s.content_view)
            &&& shown.calls[1] == NativeCall::OrderFrontRegardless
            &&& shown.state.visible
            &&& shown.state.first_responder == Some(s.content_view)
            &&& s.key_on_show ==> shown.state.key && shown.calls[2] == NativeCall::MakeKeyWindow
            &&& !s.key_on_show ==> shown.state.key == s.key && shown.calls.len() == 2
        }),
{
}

/// Closing tells the native window to release itself when closed before it
/// closes it, and leaves a panel that is closed, hidden and not key.
pub proof fn lemma_close_releases_first(s: PanelState)
    requires
        s.wf(),
        s.alive,
    ensures
        ({
            let closed = s.step(PanelRequest::Close);
            &&& closed.calls[0] == NativeCall::SetReleasedWhenClosed(true)
            &&& closed.calls[1] == NativeCall::Close
            &&& !closed.state.alive
            &&& !closed.state.visible
            &&& !closed.state.key
            &&& closed.state.released_when_closed
        }),
{
}

/// A tracking area follows its content view: whatever is asked of a panel,
/// a tracking area that it has afterwards covers the content view as it is
/// afterwards; and nothing but closing removes one.
pub proof fn lemma_tracking_follows_content(s: PanelState, request: PanelRequest)
    requires
        s.wf(),
        s.alive,
    ensures
        ({
            let after = s.step(request).state;
            &&& after.tracking is Some ==> after.tracking->Some_0.size == after.content_size
            &&& request != PanelRequest::Close ==> (after.tracking is Some <==> s.tracking is Some)
        }),
{
    lemma_step_keeps_valid(s, request);
}

} // verus!
