//! How the pointer drives the focus of a panel that tracks it.
//!
//! A panel with a tracking area is `Idle` while the pointer is outside and
//! `Focused` while it is inside. Entering makes the panel the key window at
//! once. Leaving does not: the panel stays the key window for the debounce
//! interval, so that a pointer that trembles on the edge does not make the
//! focus flicker, and a pointer that comes back in time keeps it. The laws
//! here are proved of [`PanelState::step`].

use vstd::prelude::*;
use crate::native::NativeCall;
use crate::state::{debounce_due, debounce_left, FocusState, PanelRequest, PanelState};

verus! {

/// The pointer entering a tracked panel makes it the key window, with its
/// content view as first responder, whatever was the case before. A panel
/// without a tracking area takes no notice.
pub proof fn lemma_enter_focuses(s: PanelState)
    requires
        s.wf(),
        s.alive,
    ensures
        s.tracking is Some ==> {
            let entered = s.step(PanelRequest::MouseEntered);
            &&& entered.state.focus == FocusState::Focused
            &&& entered.state.key
            &&& entered.state.first_responder == Some(s.content_view)
            &&& entered.calls[0] == NativeCall::MakeKeyWindow
            &&& entered.calls.last() == NativeCall::MakeFirstResponder(s.content_view)
        },
        s.tracking is None ==> s.step(PanelRequest::MouseEntered) == s.ignore(),
{
}

/// The pointer leaving a focused panel does not take the key window from
/// it. The panel waits: as long as the debounce interval has not passed,
/// a report of the time changes nothing and asks for the rest of the
/// interval; once it has passed, the report makes the panel resign the key
/// window and go idle.
pub proof fn lemma_exit_waits_for_debounce(s: PanelState, left_at: u64, now: u64)
    requires
        s.wf(),
        s.alive,
        s.focus == FocusState::Focused,
        s.debounce_ms > 0,
    ensures
        ({
            let left = s.step(PanelRequest::MouseExited { now: left_at });
            let told = left.state.step(PanelRequest::DebounceElapsed { now });
            &&& left.state == PanelState { focus: FocusState::Leaving { since: left_at }, ..s }
            &&& left.state.key
            &&& left.calls == seq![NativeCall::ScheduleResign { after_ms: s.debounce_ms }]
            &&& !debounce_due(left_at, now, s.debounce_ms) ==> told.state == left.state
                && told.calls == seq![
                NativeCall::ScheduleResign {
                    after_ms: debounce_left(left_at, now, s.debounce_ms) as u64,
                },
            ]
            &&& debounce_due(left_at, now, s.debounce_ms) ==> told.state == s.resigned()
                && !told.state.key && told.state.focus == FocusState::Idle && told.calls[0]
                == NativeCall::ResignKeyWindow
        }),
{
}

/// With no debounce interval, the pointer leaving a focused panel makes it
/// resign the key window at once.
pub proof fn lemma_exit_without_debounce(s: PanelState, left_at: u64)
    requires
        s.wf(),
        s.alive,
        s.focus == FocusState::Focused,
        s.debounce_ms == 0,
    ensures
        ({
            let left = s.step(PanelRequest::MouseExited { now: left_at });
            &&& left.state == s.resigned()
            &&& !left.state.key
            &&& left.state.focus == FocusState::Idle
            &&& left.calls[0] == NativeCall::ResignKeyWindow
        }),
{
}

/// A pointer that comes back within the debounce interval keeps the focus:
/// the panel is focused again, and a report of the time, whenever it comes,
/// changes nothing and sends nothing.
pub proof fn lemma_return_cancels_resignation(s: PanelState, left_at: u64, now: u64)
    requires
        s.wf(),
        s.alive,
        s.focus == FocusState::Focused,
    ensures
        ({
            let left = s.step(PanelRequest::MouseExited { now: left_at }).state;
            let back = left.step(PanelRequest::MouseEntered).state;
            s.debounce_ms > 0 ==> {
                &&& back.focus == FocusState::Focused
                &&& back.key
                &&& back.step(PanelRequest::DebounceElapsed { now }) == back.ignore()
            }
        }),
{
}

/// Without a tracking area the pointer does not drive the focus: the
/// pointer entering or leaving, or the time being reported, changes nothing
/// and sends nothing. The focus of such a panel changes only by what is
/// asked of it and by what the window system does.
pub proof fn lemma_untracked_ignores_pointer(s: PanelState, now: u64)
    requires
        s.wf(),
        s.tracking is None,
    ensures
        s.step(PanelRequest::MouseEntered) == s.ignore(),
        s.step(PanelRequest::MouseExited { now }) == s.ignore(),
        s.step(PanelRequest::DebounceElapsed { now }) == s.ignore(),
{
}

/// The pointer leaving, or the time being reported, means nothing to a
/// panel that is idle.
pub proof fn lemma_idle_ignores(s: PanelState, now: u64)
    requires
        s.focus == FocusState::Idle,
    ensures
        s.step(PanelRequest::MouseExited { now }) == s.ignore(),
        s.step(PanelRequest::DebounceElapsed { now }) == s.ignore(),
{
}

/// The debounce arithmetic: an interval that has not passed has a rest,
/// which is more than nothing and no more than the whole; on a clock that
/// has not gone backwards, the time since the pointer left and the rest
/// make up the interval.
pub proof fn lemma_debounce_left(since: u64, now: u64, debounce_ms: u64)
    requires
        debounce_ms > 0,
        !debounce_due(since, now, debounce_ms),
    ensures
        0 < debounce_left(since, now, debounce_ms) <= debounce_ms,
        now >= since ==> (now - since) + debounce_left(since, now, debounce_ms) == debounce_ms,
        now < since ==> debounce_left(since, now, debounce_ms) == debounce_ms,
{
}

} // verus!
