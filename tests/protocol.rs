use dioxus_desktop_core::app::App;
use dioxus_desktop_core::config::WindowCloseBehaviour;
use dioxus_desktop_core::shortcut::ShortcutRegistry;
use dioxus_desktop_core::file_dialog::{drag_file_paths, FileDialogRequest, FileDropEvent};
use dioxus_desktop_core::hot_reload::{HotReloadMsg, LinkAction, LinkEvent, LinkState};
use dioxus_desktop_core::ipc::{IpcMessage, IpcMethod};

fn message(method: &str) -> IpcMessage {
    IpcMessage::new(method.to_string(), serde_json::Value::Null)
}

#[test]
fn method_names_map_to_methods() {
    assert!(matches!(message("file_dialog").method(), IpcMethod::FileDialog));
    assert!(matches!(message("user_event").method(), IpcMethod::UserEvent));
    assert!(matches!(message("query").method(), IpcMethod::Query));
    assert!(matches!(message("browser_open").method(), IpcMethod::BrowserOpen));
    assert!(matches!(message("initialize").method(), IpcMethod::Initialize));
    let m = message("window_resize");
    assert!(matches!(m.method(), IpcMethod::Other("window_resize")));
    assert!(matches!(message("Query").method(), IpcMethod::Other("Query")));
    assert!(matches!(message("").method(), IpcMethod::Other("")));
}

#[test]
fn params_are_handed_back_unchanged() {
    let v: serde_json::Value = serde_json::from_str("{\"href\":\"https://example.com\"}").unwrap();
    let m = IpcMessage::new("browser_open".to_string(), v.clone());
    assert_eq!(m.method_str(), "browser_open");
    assert_eq!(m.params(), v);
}

#[test]
fn single_event_request_replays_one_event() {
    let req = FileDialogRequest {
        target: 7,
        event: "input".to_string(),
        bubbles: true,
        files: vec!["/f".to_string()],
    };
    let events = req.replay_events();
    assert_eq!(events.len(), 1);
    assert_eq!(events[0].name, "input");
    assert_eq!(events[0].target, 7);
    assert!(events[0].bubbles);
    assert_eq!(events[0].files, vec!["/f".to_string()]);
}

#[test]
fn drag_uses_most_recent_native_paths() {
    let hovered = Some(FileDropEvent::Hovered(vec!["/a".to_string(), "/b".to_string()]));
    assert_eq!(drag_file_paths(&hovered), vec!["/a".to_string(), "/b".to_string()]);
    let dropped = Some(FileDropEvent::Dropped(vec!["/c".to_string()]));
    assert_eq!(drag_file_paths(&dropped), vec!["/c".to_string()]);
    assert!(drag_file_paths(&Some(FileDropEvent::Cancelled)).is_empty());
    assert!(drag_file_paths(&None).is_empty());
}

#[test]
fn absent_socket_disables_reload() {
    let (state, action) = LinkState::Connecting.step(LinkEvent::ConnectFailed);
    assert_eq!(state, LinkState::Closed);
    assert!(matches!(action, LinkAction::Stop));
    let (state, action) =
        state.step(LinkEvent::Line(Some(HotReloadMsg::UpdateAsset("a.css".to_string()))));
    assert_eq!(state, LinkState::Closed);
    assert!(matches!(action, LinkAction::Stop));
    let (state, action) = state.step(LinkEvent::Connected);
    assert_eq!(state, LinkState::Closed);
    assert!(matches!(action, LinkAction::Stop));
}

#[test]
fn connected_link_forwards_and_skips_malformed_lines() {
    let (state, action) = LinkState::Connecting.step(LinkEvent::Connected);
    assert_eq!(state, LinkState::Reading);
    assert!(matches!(action, LinkAction::ReadNext));
    let (state, action) = state.step(LinkEvent::Line(None));
    assert_eq!(state, LinkState::Reading);
    assert!(matches!(action, LinkAction::Malformed));
    let (state, action) = state.step(LinkEvent::WouldBlock);
    assert_eq!(state, LinkState::Reading);
    assert!(matches!(action, LinkAction::ReadNext));
    let (state, action) =
        state.step(LinkEvent::Line(Some(HotReloadMsg::UpdateAsset("a.css".to_string()))));
    assert_eq!(state, LinkState::Reading);
    assert!(matches!(action, LinkAction::Forward(HotReloadMsg::UpdateAsset(ref p)) if p == "a.css"));
    let (state, action) = state.step(LinkEvent::EndOfStream);
    assert_eq!(state, LinkState::Closed);
    assert!(matches!(action, LinkAction::Stop));
}

#[test]
fn read_failure_closes_link() {
    let (state, action) = LinkState::Reading.step(LinkEvent::ReadFailed);
    assert_eq!(state, LinkState::Closed);
    assert!(matches!(action, LinkAction::Stop));
}

#[test]
fn shortcut_callbacks_run_in_registration_order() {
    let mut reg: ShortcutRegistry<&str> = ShortcutRegistry::new();
    reg.add_shortcut(1, "first");
    reg.add_shortcut(2, "other");
    reg.add_shortcut(1, "second");
    assert_eq!(reg.call_handlers(1), Some(&vec!["first", "second"]));
    let app: App<u8, u8> = App::new(WindowCloseBehaviour::CloseWindow, 0);
    assert_eq!(app.handle_global_hotkey(&reg, 2), Some(&vec!["other"]));
    assert_eq!(app.handle_global_hotkey(&reg, 3), None);
    reg.remove_shortcut(1);
    assert_eq!(reg.call_handlers(1), None);
    assert_eq!(reg.call_handlers(2), Some(&vec!["other"]));
}
