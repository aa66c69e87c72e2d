use tauri_nspanel::{
    Batch, ContentSize, Error, FocusState, InitialStyle, KeyEvent, NativeCall, NativeWindow,
    NonInteractivePanelManager, PanelRequest, RawNSPanel, Store, TrackingArea,
    WebviewPanelConfig, WindowHandle,
};

const UI: u64 = 1;
const OTHER: u64 = 2;
const LISTENER: usize = 0x3000;

fn native(ns_window: usize) -> NativeWindow {
    NativeWindow {
        ns_window,
        content_view: ns_window + 8,
        content_size: ContentSize {
            width_bits: 320.0f64.to_bits(),
            height_bits: 240.0f64.to_bits(),
        },
        style_mask: 3,
        collection_behaviour: 0,
        visible: false,
        key: false,
    }
}

fn handle(label: &str, ns_window: usize) -> WindowHandle {
    WindowHandle { label: label.to_string(), native: native(ns_window) }
}

fn tracking() -> WebviewPanelConfig {
    WebviewPanelConfig { with_tracking_area: true, ..WebviewPanelConfig::default() }
}

fn calls_of(r: Result<Batch, Error>) -> Vec<NativeCall> {
    r.unwrap().calls
}

#[test]
fn store_starts_empty() {
    let store = Store::new();
    assert_eq!(store.len(), 0);
    assert!(!store.contains("main"));
    assert_eq!(store.lookup("main").err(), Some(Error::PanelNotFound));
    assert_eq!(Store::default().len(), 0);
}

#[test]
fn store_registers_and_finds_by_label() {
    let mut store = Store::new();
    let (panel, _) =
        RawNSPanel::from_window(handle("main", 0x100), WebviewPanelConfig::default()).unwrap();
    assert_eq!(store.register(panel), Ok(()));
    assert_eq!(store.len(), 1);
    assert!(store.contains("main"));
    assert!(!store.contains("mai"));
    let found = store.lookup("main").unwrap();
    assert_eq!(found.label(), "main");
    assert_eq!(found.handle(), 0x100);
    assert_eq!(store.lookup("other").err(), Some(Error::PanelNotFound));
}

#[test]
fn store_register_overwrites_silently() {
    let mut store = Store::new();
    let (first, _) =
        RawNSPanel::from_window(handle("main", 0x100), WebviewPanelConfig::default()).unwrap();
    let (side, _) =
        RawNSPanel::from_window(handle("side", 0x300), WebviewPanelConfig::default()).unwrap();
    let (second, _) =
        RawNSPanel::from_window(handle("main", 0x200), WebviewPanelConfig::default()).unwrap();
    store.register(first).unwrap();
    store.register(side).unwrap();
    assert_eq!(store.register(second), Ok(()));
    assert_eq!(store.len(), 2);
    assert_eq!(store.lookup("main").unwrap().handle(), 0x200);
    assert_eq!(store.lookup("side").unwrap().handle(), 0x300);
}

#[test]
fn store_refuses_a_closed_panel() {
    let mut store = Store::new();
    let (mut panel, _) =
        RawNSPanel::from_window(handle("main", 0x100), WebviewPanelConfig::default()).unwrap();
    panel.close().unwrap();
    assert_eq!(store.register(panel), Err(Error::InvalidHandle));
    assert_eq!(store.len(), 0);
}

#[test]
fn store_dispatch_changes_the_registered_panel() {
    let mut store = Store::new();
    store.convert(handle("main", 0x100), WebviewPanelConfig::default()).unwrap();
    let batch = store.dispatch("main", PanelRequest::SetLevel(8)).unwrap();
    assert_eq!(batch.window, 0x100);
    assert_eq!(batch.calls, vec![NativeCall::SetLevel(8)]);
    assert_eq!(store.lookup("main").unwrap().level(), 8);
    assert_eq!(
        store.dispatch("none", PanelRequest::SetLevel(8)).err(),
        Some(Error::PanelNotFound)
    );
}

#[test]
fn store_dispatch_of_close_takes_the_panel_out() {
    let mut store = Store::new();
    store.convert(handle("a", 0x100), WebviewPanelConfig::default()).unwrap();
    store.convert(handle("b", 0x200), WebviewPanelConfig::default()).unwrap();
    store.convert(handle("c", 0x300), WebviewPanelConfig::default()).unwrap();
    let batch = store.dispatch("b", PanelRequest::Close).unwrap();
    assert_eq!(batch.window, 0x200);
    assert_eq!(batch.calls, vec![NativeCall::SetReleasedWhenClosed(true), NativeCall::Close]);
    assert_eq!(store.len(), 2);
    assert!(!store.contains("b"));
    assert_eq!(store.lookup("a").unwrap().handle(), 0x100);
    assert_eq!(store.lookup("c").unwrap().handle(), 0x300);
}

#[test]
fn store_reset_forgets_every_panel() {
    let mut store = Store::new();
    store.convert(handle("a", 0x100), WebviewPanelConfig::default()).unwrap();
    store.convert(handle("b", 0x200), WebviewPanelConfig::default()).unwrap();
    store.reset();
    assert_eq!(store.len(), 0);
    assert!(!store.contains("a"));
    assert!(!store.contains("b"));
}

#[test]
fn store_convert_refuses_a_nil_window() {
    let mut store = Store::new();
    let r = store.convert(handle("main", 0), WebviewPanelConfig::default());
    assert_eq!(r.err(), Some(Error::InvalidHandle));
    assert_eq!(store.len(), 0);
}

#[test]
fn manager_knows_its_thread() {
    let manager = NonInteractivePanelManager::new(UI);
    assert_eq!(manager.ui_thread(), UI);
    assert_eq!(manager.len(UI), Ok(0));
    assert_eq!(manager.len(OTHER), Err(Error::WrongThread));
}

#[test]
fn unconverted_label_is_not_found() {
    let mut manager = NonInteractivePanelManager::new(UI);
    assert_eq!(manager.lookup(UI, "never").err(), Some(Error::PanelNotFound));
    assert_eq!(manager.show(UI, "never").err(), Some(Error::PanelNotFound));
    manager.convert(UI, handle("main", 0x100), WebviewPanelConfig::default()).unwrap();
    manager.show(UI, "main").unwrap();
    manager.dispatch(UI, "main", PanelRequest::SetLevel(2)).unwrap();
    assert_eq!(manager.lookup(UI, "never").err(), Some(Error::PanelNotFound));
    assert_eq!(manager.show(UI, "never").err(), Some(Error::PanelNotFound));
    assert_eq!(manager.hide_panel(UI, "never").err(), Some(Error::PanelNotFound));
    assert_eq!(manager.close(UI, "never").err(), Some(Error::PanelNotFound));
    assert_eq!(manager.on_focus_change(UI, "never", LISTENER).err(), Some(Error::PanelNotFound));
    assert_eq!(manager.len(UI), Ok(1));
}

#[test]
fn convert_then_lookup_gives_a_floating_non_activating_panel() {
    let mut manager = NonInteractivePanelManager::new(UI);
    let config = WebviewPanelConfig { with_tracking_area: false, ..WebviewPanelConfig::default() };
    let batch = manager.convert(UI, handle("main", 0x100), config).unwrap();
    assert_eq!(batch.window, 0x100);
    assert_eq!(batch.calls[0], NativeCall::InstallKeyPolicy {
        can_become_key: true,
        can_resign_key: true,
    });
    assert!(batch.calls.contains(&NativeCall::SetLevel(3)));
    assert!(batch.calls.contains(&NativeCall::SetStyleMask(3 | 128)));
    let panel = manager.lookup(UI, "main").unwrap();
    assert_eq!(panel.level(), 3);
    assert!(panel.is_non_activating());
    assert_eq!(panel.style_mask() & 128, 128);
    assert_eq!(panel.state().tracking, None);
}

#[test]
fn convert_with_standard_style_leaves_the_style_alone() {
    let mut manager = NonInteractivePanelManager::new(UI);
    let config = WebviewPanelConfig {
        initial_style: InitialStyle::Standard,
        ..WebviewPanelConfig::default()
    };
    manager.convert(UI, handle("main", 0x100), config).unwrap();
    let panel = manager.lookup(UI, "main").unwrap();
    assert_eq!(panel.style_mask(), 3);
    assert!(!panel.is_non_activating());
    assert_eq!(panel.level(), 3);
}

#[test]
fn convert_with_tracking_lets_the_pointer_drive_the_focus() {
    let mut manager = NonInteractivePanelManager::new(UI);
    manager.convert(UI, handle("main", 0x100), tracking()).unwrap();
    manager.dispatch(UI, "main", PanelRequest::MouseEntered).unwrap();
    assert!(manager.lookup(UI, "main").unwrap().is_key_window());
    assert_eq!(manager.lookup(UI, "main").unwrap().focus(), FocusState::Focused);
    manager.dispatch(UI, "main", PanelRequest::MouseExited { now: 1000 }).unwrap();
    manager.dispatch(UI, "main", PanelRequest::DebounceElapsed { now: 1019 }).unwrap();
    assert!(manager.lookup(UI, "main").unwrap().is_key_window());
    manager.dispatch(UI, "main", PanelRequest::DebounceElapsed { now: 1020 }).unwrap();
    assert!(!manager.lookup(UI, "main").unwrap().is_key_window());
    assert_eq!(manager.lookup(UI, "main").unwrap().focus(), FocusState::Idle);
}

#[test]
fn hide_twice_is_hide_once() {
    let mut manager = NonInteractivePanelManager::new(UI);
    manager.convert(UI, handle("main", 0x100), WebviewPanelConfig::default()).unwrap();
    manager.show(UI, "main").unwrap();
    assert_eq!(calls_of(manager.hide_panel(UI, "main")), vec![NativeCall::OrderOut(0)]);
    let once = manager.lookup(UI, "main").unwrap().state();
    assert!(!once.visible);
    assert_eq!(calls_of(manager.hide_panel(UI, "main")), vec![NativeCall::OrderOut(0)]);
    let twice = manager.lookup(UI, "main").unwrap().state();
    assert!(!twice.visible);
    assert_eq!(once, twice);
    assert_eq!(manager.len(UI), Ok(1));
}

#[test]
fn close_then_anything_is_not_found() {
    let mut manager = NonInteractivePanelManager::new(UI);
    manager.convert(UI, handle("main", 0x100), WebviewPanelConfig::default()).unwrap();
    let batch = manager.close(UI, "main").unwrap();
    assert_eq!(batch.window, 0x100);
    assert_eq!(batch.calls, vec![NativeCall::SetReleasedWhenClosed(true), NativeCall::Close]);
    assert_eq!(manager.len(UI), Ok(0));
    assert_eq!(manager.lookup(UI, "main").err(), Some(Error::PanelNotFound));
    assert_eq!(manager.show(UI, "main").err(), Some(Error::PanelNotFound));
    assert_eq!(manager.hide_panel(UI, "main").err(), Some(Error::PanelNotFound));
    assert_eq!(manager.close(UI, "main").err(), Some(Error::PanelNotFound));
    assert_eq!(manager.on_focus_change(UI, "main", LISTENER).err(), Some(Error::PanelNotFound));
    assert_eq!(
        manager.dispatch(UI, "main", PanelRequest::MouseEntered).err(),
        Some(Error::PanelNotFound)
    );
}

#[test]
fn closed_label_can_be_converted_again() {
    let mut manager = NonInteractivePanelManager::new(UI);
    manager.convert(UI, handle("main", 0x100), WebviewPanelConfig::default()).unwrap();
    manager.close(UI, "main").unwrap();
    manager.convert(UI, handle("main", 0x500), WebviewPanelConfig::default()).unwrap();
    assert_eq!(manager.lookup(UI, "main").unwrap().handle(), 0x500);
}

#[test]
fn second_convert_replaces_the_first() {
    let mut manager = NonInteractivePanelManager::new(UI);
    manager.convert(UI, handle("main", 0x100), WebviewPanelConfig::default()).unwrap();
    manager.dispatch(UI, "main", PanelRequest::SetLevel(9)).unwrap();
    manager.show(UI, "main").unwrap();
    let batch = manager.convert(UI, handle("main", 0x200), tracking()).unwrap();
    assert_eq!(batch.window, 0x200);
    assert_eq!(manager.len(UI), Ok(1));
    let panel = manager.lookup(UI, "main").unwrap();
    assert_eq!(panel.handle(), 0x200);
    assert_eq!(panel.level(), 3);
    assert_eq!(panel.is_visible(), Ok(false));
    assert!(!panel.is_key_window());
    assert_eq!(
        panel.state().tracking,
        Some(TrackingArea { size: native(0x200).content_size, options: 0x87 })
    );
    let mut fresh = NonInteractivePanelManager::new(UI);
    fresh.convert(UI, handle("main", 0x200), tracking()).unwrap();
    assert_eq!(fresh.lookup(UI, "main").unwrap().state(), panel.state());
}

#[test]
fn on_focus_change_registers_the_listener() {
    let mut manager = NonInteractivePanelManager::new(UI);
    manager.convert(UI, handle("main", 0x100), WebviewPanelConfig::default()).unwrap();
    assert_eq!(
        calls_of(manager.on_focus_change(UI, "main", LISTENER)),
        vec![NativeCall::SetDelegate(LISTENER)]
    );
    assert_eq!(
        calls_of(manager.show(UI, "main")),
        vec![
            NativeCall::MakeFirstResponder(0x108),
            NativeCall::OrderFrontRegardless,
            NativeCall::MakeKeyWindow,
            NativeCall::Notify { delegate: LISTENER, event: KeyEvent::BecameKey },
        ]
    );
    assert_eq!(
        calls_of(manager.hide_panel(UI, "main")),
        vec![
            NativeCall::OrderOut(0),
            NativeCall::Notify { delegate: LISTENER, event: KeyEvent::ResignedKey },
        ]
    );
}

#[test]
fn wrong_thread_is_refused_before_anything_else() {
    let mut manager = NonInteractivePanelManager::new(UI);
    manager.convert(UI, handle("main", 0x100), WebviewPanelConfig::default()).unwrap();
    let before = manager.lookup(UI, "main").unwrap().state();
    assert_eq!(manager.lookup(OTHER, "main").err(), Some(Error::WrongThread));
    assert_eq!(manager.lookup(OTHER, "never").err(), Some(Error::WrongThread));
    assert_eq!(manager.show(OTHER, "main").err(), Some(Error::WrongThread));
    assert_eq!(manager.show(OTHER, "never").err(), Some(Error::WrongThread));
    assert_eq!(manager.hide_panel(OTHER, "main").err(), Some(Error::WrongThread));
    assert_eq!(manager.close(OTHER, "main").err(), Some(Error::WrongThread));
    assert_eq!(manager.on_focus_change(OTHER, "main", LISTENER).err(), Some(Error::WrongThread));
    assert_eq!(
        manager.dispatch(OTHER, "main", PanelRequest::SetLevel(1)).err(),
        Some(Error::WrongThread)
    );
    assert_eq!(
        manager.convert(OTHER, handle("side", 0x200), WebviewPanelConfig::default()).err(),
        Some(Error::WrongThread)
    );
    assert_eq!(
        manager.convert(OTHER, handle("nil", 0), WebviewPanelConfig::default()).err(),
        Some(Error::WrongThread)
    );
    assert_eq!(manager.reset(OTHER), Err(Error::WrongThread));
    assert_eq!(manager.len(UI), Ok(1));
    assert_eq!(manager.lookup(UI, "main").unwrap().state(), before);
}

#[test]
fn manager_convert_refuses_a_nil_window() {
    let mut manager = NonInteractivePanelManager::new(UI);
    assert_eq!(
        manager.convert(UI, handle("main", 0), WebviewPanelConfig::default()).err(),
        Some(Error::InvalidHandle)
    );
    assert_eq!(manager.len(UI), Ok(0));
    assert_eq!(manager.lookup(UI, "main").err(), Some(Error::PanelNotFound));
}

#[test]
fn manager_reset_forgets_every_panel() {
    let mut manager = NonInteractivePanelManager::new(UI);
    manager.convert(UI, handle("a", 0x100), WebviewPanelConfig::default()).unwrap();
    manager.convert(UI, handle("b", 0x200), WebviewPanelConfig::default()).unwrap();
    assert_eq!(manager.len(UI), Ok(2));
    assert_eq!(manager.reset(UI), Ok(()));
    assert_eq!(manager.len(UI), Ok(0));
    assert_eq!(manager.show(UI, "a").err(), Some(Error::PanelNotFound));
}

#[test]
fn search_overlay_gains_and_loses_the_focus_with_the_pointer() {
    let mut manager = NonInteractivePanelManager::new(UI);
    manager.convert(UI, handle("search-overlay", 0x100), tracking()).unwrap();
    manager.show(UI, "search-overlay").unwrap();
    let entered = manager.dispatch(UI, "search-overlay", PanelRequest::MouseEntered).unwrap();
    assert_eq!(
        entered.calls,
        vec![NativeCall::MakeKeyWindow, NativeCall::MakeFirstResponder(0x108)]
    );
    let panel = manager.lookup(UI, "search-overlay").unwrap();
    assert!(panel.is_key_window());
    assert_eq!(panel.first_responder(), panel.content_view().ok());
    assert_eq!(panel.first_responder(), Some(0x108));
    manager.dispatch(UI, "search-overlay", PanelRequest::MouseExited { now: 5000 }).unwrap();
    assert!(manager.lookup(UI, "search-overlay").unwrap().is_key_window());
    let late = manager
        .dispatch(UI, "search-overlay", PanelRequest::DebounceElapsed { now: 5021 })
        .unwrap();
    assert_eq!(late.calls, vec![NativeCall::ResignKeyWindow]);
    assert!(!manager.lookup(UI, "search-overlay").unwrap().is_key_window());
}

#[test]
fn search_overlay_shown_is_key_before_the_pointer_comes() {
    let mut manager = NonInteractivePanelManager::new(UI);
    manager.convert(UI, handle("search-overlay", 0x100), tracking()).unwrap();
    manager.show(UI, "search-overlay").unwrap();
    let panel = manager.lookup(UI, "search-overlay").unwrap();
    assert!(panel.is_key_window());
    assert_eq!(panel.is_visible(), Ok(true));
    assert_eq!(panel.focus(), FocusState::Idle);
}

#[test]
fn converting_a_window_again_clears_its_tracking_area_first() {
    let mut manager = NonInteractivePanelManager::new(UI);
    manager.convert(UI, handle("main", 0x100), tracking()).unwrap();
    let again = manager.convert(UI, handle("main", 0x100), tracking()).unwrap();
    assert_eq!(again.calls[0], NativeCall::RemoveTrackingArea);
    assert_eq!(
        again.calls[1],
        NativeCall::InstallKeyPolicy { can_become_key: true, can_resign_key: true }
    );
    assert_eq!(again.calls.len(), 10);
    let plain = manager.convert(UI, handle("main", 0x100), WebviewPanelConfig::default()).unwrap();
    assert_eq!(plain.calls[0], NativeCall::RemoveTrackingArea);
    assert_eq!(plain.calls.len(), 8);
    assert_eq!(manager.lookup(UI, "main").unwrap().state().tracking, None);
    let last = manager.convert(UI, handle("main", 0x100), WebviewPanelConfig::default()).unwrap();
    assert_eq!(
        last.calls[0],
        NativeCall::InstallKeyPolicy { can_become_key: true, can_resign_key: true }
    );
    assert_eq!(last.calls.len(), 7);
    assert_eq!(manager.len(UI), Ok(1));
}

#[test]
fn converting_another_window_under_the_label_clears_nothing() {
    let mut manager = NonInteractivePanelManager::new(UI);
    manager.convert(UI, handle("main", 0x100), tracking()).unwrap();
    let other = manager.convert(UI, handle("main", 0x200), tracking()).unwrap();
    assert_eq!(other.window, 0x200);
    assert!(!other.calls.contains(&NativeCall::RemoveTrackingArea));
    assert_eq!(other.calls.len(), 9);
}
