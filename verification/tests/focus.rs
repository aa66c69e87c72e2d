use tauri_nspanel::{
    ContentSize, FocusState, KeyEvent, NativeCall, NativeWindow, RawNSPanel, WebviewPanelConfig,
    WindowHandle,
};

const WINDOW: usize = 0x1000;
const VIEW: usize = 0x2000;
const LISTENER: usize = 0x3000;

fn panel_with(debounce_ms: u64, with_tracking_area: bool) -> RawNSPanel {
    let native = NativeWindow {
        ns_window: WINDOW,
        content_view: VIEW,
        content_size: ContentSize {
            width_bits: 640.0f64.to_bits(),
            height_bits: 480.0f64.to_bits(),
        },
        style_mask: 0,
        collection_behaviour: 0,
        visible: true,
        key: false,
    };
    let config = WebviewPanelConfig {
        with_tracking_area,
        debounce_ms,
        delegate: Some(LISTENER),
        ..WebviewPanelConfig::default()
    };
    let window = WindowHandle { label: "overlay".to_string(), native };
    RawNSPanel::from_window(window, config).unwrap().0
}

fn became() -> NativeCall {
    NativeCall::Notify { delegate: LISTENER, event: KeyEvent::BecameKey }
}

fn resigned() -> NativeCall {
    NativeCall::Notify { delegate: LISTENER, event: KeyEvent::ResignedKey }
}

#[test]
fn pointer_enter_focuses_a_tracked_panel() {
    let mut panel = panel_with(20, true);
    assert_eq!(panel.focus(), FocusState::Idle);
    assert_eq!(
        panel.mouse_entered(),
        Ok(vec![NativeCall::MakeKeyWindow, became(), NativeCall::MakeFirstResponder(VIEW)])
    );
    assert_eq!(panel.focus(), FocusState::Focused);
    assert!(panel.is_key_window());
    assert_eq!(panel.first_responder(), Some(VIEW));
}

#[test]
fn pointer_enter_means_nothing_without_tracking() {
    let mut panel = panel_with(20, false);
    let before = panel.state();
    assert_eq!(panel.mouse_entered(), Ok(vec![]));
    assert_eq!(panel.state(), before);
    assert_eq!(panel.mouse_exited(10), Ok(vec![]));
    assert_eq!(panel.debounce_elapsed(1000), Ok(vec![]));
    assert_eq!(panel.state(), before);
}

#[test]
fn pointer_exit_resigns_after_the_debounce_and_not_before() {
    let mut panel = panel_with(20, true);
    panel.mouse_entered().unwrap();
    assert_eq!(panel.mouse_exited(100), Ok(vec![NativeCall::ScheduleResign { after_ms: 20 }]));
    assert_eq!(panel.focus(), FocusState::Leaving { since: 100 });
    assert!(panel.is_key_window());
    assert_eq!(panel.debounce_elapsed(105), Ok(vec![NativeCall::ScheduleResign { after_ms: 15 }]));
    assert!(panel.is_key_window());
    assert_eq!(panel.debounce_elapsed(119), Ok(vec![NativeCall::ScheduleResign { after_ms: 1 }]));
    assert!(panel.is_key_window());
    assert_eq!(panel.focus(), FocusState::Leaving { since: 100 });
    assert_eq!(panel.debounce_elapsed(120), Ok(vec![NativeCall::ResignKeyWindow, resigned()]));
    assert!(!panel.is_key_window());
    assert_eq!(panel.focus(), FocusState::Idle);
    assert_eq!(panel.debounce_elapsed(200), Ok(vec![]));
}

#[test]
fn clock_that_went_backwards_has_passed_nothing() {
    let mut panel = panel_with(20, true);
    panel.mouse_entered().unwrap();
    panel.mouse_exited(100).unwrap();
    assert_eq!(panel.debounce_elapsed(90), Ok(vec![NativeCall::ScheduleResign { after_ms: 20 }]));
    assert!(panel.is_key_window());
    assert_eq!(panel.focus(), FocusState::Leaving { since: 100 });
}

#[test]
fn debounce_holds_at_the_end_of_the_clock() {
    let mut panel = panel_with(u64::MAX, true);
    panel.mouse_entered().unwrap();
    panel.mouse_exited(0).unwrap();
    assert_eq!(
        panel.debounce_elapsed(u64::MAX - 1),
        Ok(vec![NativeCall::ScheduleResign { after_ms: 1 }])
    );
    assert_eq!(panel.debounce_elapsed(u64::MAX), Ok(vec![NativeCall::ResignKeyWindow, resigned()]));
    let mut late = panel_with(20, true);
    late.mouse_entered().unwrap();
    late.mouse_exited(u64::MAX - 5).unwrap();
    assert_eq!(
        late.debounce_elapsed(u64::MAX),
        Ok(vec![NativeCall::ScheduleResign { after_ms: 15 }])
    );
    assert!(late.is_key_window());
}

#[test]
fn pointer_exit_without_debounce_resigns_at_once() {
    let mut panel = panel_with(0, true);
    panel.mouse_entered().unwrap();
    assert_eq!(panel.mouse_exited(100), Ok(vec![NativeCall::ResignKeyWindow, resigned()]));
    assert!(!panel.is_key_window());
    assert_eq!(panel.focus(), FocusState::Idle);
}

#[test]
fn pointer_return_within_the_debounce_keeps_the_focus() {
    let mut panel = panel_with(20, true);
    panel.mouse_entered().unwrap();
    panel.mouse_exited(100).unwrap();
    assert_eq!(
        panel.mouse_entered(),
        Ok(vec![NativeCall::MakeKeyWindow, NativeCall::MakeFirstResponder(VIEW)])
    );
    assert_eq!(panel.focus(), FocusState::Focused);
    assert_eq!(panel.debounce_elapsed(120), Ok(vec![]));
    assert_eq!(panel.debounce_elapsed(500), Ok(vec![]));
    assert!(panel.is_key_window());
    assert_eq!(panel.focus(), FocusState::Focused);
}

#[test]
fn second_exit_keeps_the_first_time() {
    let mut panel = panel_with(20, true);
    panel.mouse_entered().unwrap();
    panel.mouse_exited(100).unwrap();
    assert_eq!(panel.mouse_exited(110), Ok(vec![]));
    assert_eq!(panel.focus(), FocusState::Leaving { since: 100 });
}

#[test]
fn pointer_exit_means_nothing_to_an_idle_panel() {
    let mut panel = panel_with(20, true);
    let before = panel.state();
    assert_eq!(panel.mouse_exited(5), Ok(vec![]));
    assert_eq!(panel.debounce_elapsed(50), Ok(vec![]));
    assert_eq!(panel.state(), before);
}

#[test]
fn losing_the_key_window_ends_the_focus() {
    let mut panel = panel_with(20, true);
    panel.mouse_entered().unwrap();
    assert_eq!(panel.window_did_resign_key(), Ok(vec![resigned()]));
    assert_eq!(panel.focus(), FocusState::Idle);
    panel.mouse_entered().unwrap();
    panel.mouse_exited(10).unwrap();
    assert_eq!(panel.order_out(None), Ok(vec![NativeCall::OrderOut(0), resigned()]));
    assert_eq!(panel.focus(), FocusState::Idle);
    assert_eq!(panel.debounce_elapsed(100), Ok(vec![]));
    panel.mouse_entered().unwrap();
    assert_eq!(panel.resign_key_window(), Ok(vec![NativeCall::ResignKeyWindow, resigned()]));
    assert_eq!(panel.focus(), FocusState::Idle);
}

#[test]
fn focused_panel_keeps_its_focus_through_a_resize() {
    let mut panel = panel_with(20, true);
    panel.mouse_entered().unwrap();
    let size = ContentSize { width_bits: 100.0f64.to_bits(), height_bits: 50.0f64.to_bits() };
    panel.content_resized(size).unwrap();
    assert_eq!(panel.focus(), FocusState::Focused);
    assert_eq!(panel.state().tracking.unwrap().size, size);
}
