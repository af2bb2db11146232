use dioxus_desktop_core::app::{App, IpcRoute, ReloadAction};
use dioxus_desktop_core::config::{ControlFlow, WindowCloseBehaviour};
use dioxus_desktop_core::file_dialog::{FileDialogRequest, FileDropEvent};
use dioxus_desktop_core::user_event::{EventKind, EventPayload, UserEvent};
use dioxus_desktop_core::hot_reload::{HotReloadMsg, Template};
use dioxus_desktop_core::ipc::{IpcMessage, UserWindowEvent};

fn app_with(behaviour: WindowCloseBehaviour, ids: &[u64]) -> App<&'static str, String> {
    let mut app = App::new(behaviour, "startup");
    for id in ids {
        assert!(app.queue_window(*id, format!("surface {}", id)));
    }
    app.handle_new_window();
    app
}

fn click(element: usize) -> UserEvent {
    UserEvent { element, name: "click".to_string(), bubbles: true, kind: EventKind::Plain }
}

fn msg(method: &str, params: &str) -> IpcMessage {
    IpcMessage::new(method.to_string(), serde_json::from_str(params).unwrap())
}

#[test]
fn new_app_is_empty_and_waiting() {
    let app: App<u8, u8> = App::new(WindowCloseBehaviour::CloseWindow, 7);
    assert_eq!(app.window_count(), 0);
    assert_eq!(app.pending_count(), 0);
    assert_eq!(app.control_flow(), ControlFlow::Wait);
    assert!(app.is_visible_before_start());
    assert!(app.has_startup_payload());
    assert_eq!(app.window_behavior(), WindowCloseBehaviour::CloseWindow);
}

#[test]
fn new_window_activates_pending_in_order() {
    let mut app: App<u8, &str> = App::new(WindowCloseBehaviour::CloseWindow, 0);
    assert!(app.queue_window(3, "c"));
    assert!(app.queue_window(1, "a"));
    assert!(app.is_pending(3));
    assert!(!app.contains_window(3));
    let polls = app.handle_new_window();
    assert_eq!(polls.len(), 2);
    assert!(matches!(polls[0], UserWindowEvent::Poll(3)));
    assert!(matches!(polls[1], UserWindowEvent::Poll(1)));
    assert_eq!(app.pending_count(), 0);
    assert_eq!(app.window(3), Some(&"c"));
    assert_eq!(app.window(1), Some(&"a"));
    assert!(app.handle_new_window().is_empty());
}

#[test]
fn queue_refuses_known_identity() {
    let mut app: App<u8, &str> = App::new(WindowCloseBehaviour::CloseWindow, 0);
    assert!(app.queue_window(5, "x"));
    assert!(!app.queue_window(5, "y"));
    app.handle_new_window();
    assert!(!app.queue_window(5, "z"));
    assert_eq!(app.window(5), Some(&"x"));
    assert_eq!(app.pending_count(), 0);
}

#[test]
fn last_window_exit_signals_only_when_empty() {
    let mut app = app_with(WindowCloseBehaviour::LastWindowExitsApp, &[1, 2]);
    assert!(!app.handle_close_requested(1));
    assert_eq!(app.control_flow(), ControlFlow::Wait);
    assert_eq!(app.window_count(), 1);
    app.window_destroyed(9);
    assert_eq!(app.control_flow(), ControlFlow::Wait);
    app.window_destroyed(2);
    assert_eq!(app.window_count(), 0);
    assert_eq!(app.control_flow(), ControlFlow::Exit);
}

#[test]
fn close_request_on_last_window_exits() {
    let mut app = app_with(WindowCloseBehaviour::LastWindowExitsApp, &[4]);
    app.handle_close_requested(4);
    assert_eq!(app.control_flow(), ControlFlow::Exit);
    app.tick();
    assert_eq!(app.control_flow(), ControlFlow::Wait);
}

#[test]
fn close_window_behaviour_never_exits() {
    let mut app = app_with(WindowCloseBehaviour::CloseWindow, &[1]);
    assert!(!app.handle_close_requested(1));
    assert_eq!(app.window_count(), 0);
    assert_eq!(app.control_flow(), ControlFlow::Wait);
    app.window_destroyed(1);
    assert_eq!(app.control_flow(), ControlFlow::Wait);
}

#[test]
fn hide_then_explicit_close_keeps_hidden_window() {
    let mut app = app_with(WindowCloseBehaviour::LastWindowHides, &[10, 20]);
    assert!(app.handle_close_requested(10));
    assert!(app.contains_window(10));
    assert!(app.contains_window(20));
    assert_eq!(app.control_flow(), ControlFlow::Wait);
    assert!(app.handle_close_requested(20));
    app.handle_close_msg(20);
    assert_eq!(app.window_count(), 1);
    assert!(app.contains_window(10));
    assert_eq!(app.control_flow(), ControlFlow::Wait);
}

#[test]
fn hide_of_unknown_window_does_nothing() {
    let mut app = app_with(WindowCloseBehaviour::LastWindowHides, &[1]);
    assert!(!app.handle_close_requested(2));
    assert_eq!(app.window_count(), 1);
}

#[test]
fn close_msg_exits_on_last_window() {
    let mut app = app_with(WindowCloseBehaviour::CloseWindow, &[1]);
    app.handle_close_msg(1);
    assert_eq!(app.control_flow(), ControlFlow::Exit);
}

#[test]
fn startup_payload_is_taken_once() {
    let mut app: App<&str, &str> = App::new(WindowCloseBehaviour::CloseWindow, "payload");
    assert_eq!(app.take_startup_payload(), "payload");
    assert!(!app.has_startup_payload());
    assert!(!app.is_started());
    app.handle_start_cause_init(8, "first", false);
    assert!(app.is_started());
    assert!(!app.has_startup_payload());
    assert!(!app.is_visible_before_start());
    assert_eq!(app.window(8), Some(&"first"));
    assert_eq!(app.handle_initialize_msg(8).map(|(v, _)| v), Some(false));
    assert!(matches!(app.handle_initialize_msg(8), Some((false, UserWindowEvent::Poll(8)))));
    assert!(app.handle_initialize_msg(9).is_none());
}

#[test]
fn ipc_routes_by_method() {
    let app = app_with(WindowCloseBehaviour::CloseWindow, &[1]);
    assert_eq!(app.route_ipc(&msg("initialize", "null"), 1), IpcRoute::Initialize);
    assert_eq!(app.route_ipc(&msg("user_event", "{}"), 1), IpcRoute::UserEvent);
    assert_eq!(app.route_ipc(&msg("query", "{}"), 1), IpcRoute::Query);
    assert_eq!(app.route_ipc(&msg("file_dialog", "{}"), 1), IpcRoute::FileDialog);
    assert_eq!(app.route_ipc(&msg("browser_open", "{\"href\":\"x\"}"), 1), IpcRoute::BrowserOpen);
    assert_eq!(app.route_ipc(&msg("resize", "{}"), 1), IpcRoute::Ignore);
}

#[test]
fn ipc_before_activation_is_ignored() {
    let mut app: App<u8, u8> = App::new(WindowCloseBehaviour::CloseWindow, 0);
    assert!(app.queue_window(2, 0));
    assert_eq!(app.route_ipc(&msg("user_event", "{}"), 2), IpcRoute::Ignore);
    assert!(app.handle_user_event_msg(Some(click(5)), &None, 2).is_none());
    app.handle_new_window();
    assert_eq!(app.route_ipc(&msg("user_event", "{}"), 2), IpcRoute::UserEvent);
    let replay = app.handle_user_event_msg(Some(click(5)), &None, 2).unwrap();
    assert_eq!(replay.name, "click");
    assert_eq!(replay.element, 5);
    assert!(replay.bubbles);
    assert!(matches!(replay.payload, EventPayload::Raw));
}

#[test]
fn malformed_params_replay_nothing() {
    let app = app_with(WindowCloseBehaviour::CloseWindow, &[1]);
    let decoded: Option<UserEvent> = serde_json::from_str::<usize>("{not json").ok().map(click);
    assert!(app.handle_user_event_msg(decoded, &None, 1).is_none());
    assert!(app.handle_file_dialog_msg(None, 1).is_empty());
    assert_eq!(app.handle_query_msg::<u32>(None, 1), None);
    assert_eq!(app.window_count(), 1);
    let next = app.handle_file_dialog_msg(
        Some(FileDialogRequest {
            target: 3,
            event: "change".to_string(),
            bubbles: true,
            files: vec!["/tmp/a.txt".to_string()],
        }),
        1,
    );
    assert_eq!(next.len(), 1);
    assert_eq!(next[0].name, "change");
    assert_eq!(next[0].files, vec!["/tmp/a.txt".to_string()]);
}

#[test]
fn query_goes_only_to_registered_window() {
    let app = app_with(WindowCloseBehaviour::CloseWindow, &[1]);
    assert_eq!(app.handle_query_msg(Some("r"), 1), Some("r"));
    assert_eq!(app.handle_query_msg(Some("r"), 2), None);
}

#[test]
fn combined_file_dialog_replays_input_then_change() {
    let app = app_with(WindowCloseBehaviour::CloseWindow, &[1]);
    let files = vec!["/x/1.png".to_string(), "/x/2.png".to_string()];
    let req = FileDialogRequest {
        target: 42,
        event: "change&input".to_string(),
        bubbles: false,
        files: files.clone(),
    };
    let events = app.handle_file_dialog_msg(Some(req), 1);
    assert_eq!(events.len(), 2);
    assert_eq!(events[0].name, "input");
    assert_eq!(events[1].name, "change");
    assert!(events.iter().all(|e| e.target == 42 && !e.bubbles && e.files == files));
}

#[test]
fn file_dialog_for_unknown_window_replays_nothing() {
    let app = app_with(WindowCloseBehaviour::CloseWindow, &[1]);
    let req = FileDialogRequest { target: 1, event: "input".to_string(), bubbles: true, files: vec![] };
    assert!(app.handle_file_dialog_msg(Some(req), 2).is_empty());
}

#[test]
fn template_update_keeps_every_window() {
    let mut app = app_with(WindowCloseBehaviour::CloseWindow, &[1, 2]);
    let t = Template { name: "app.rs:1:1:0".to_string(), body: "<div/>".to_string() };
    let action = app.handle_hot_reload_msg(HotReloadMsg::UpdateTemplate(t));
    match action {
        ReloadAction::ReplaceTemplate { template, mut windows } => {
            assert_eq!(template.name, "app.rs:1:1:0");
            windows.sort();
            assert_eq!(windows, vec![1, 2]);
        }
        _ => panic!("expected a template replacement"),
    }
    assert_eq!(app.window(1).map(|s| s.as_str()), Some("surface 1"));
    assert_eq!(app.window(2).map(|s| s.as_str()), Some("surface 2"));
    assert_eq!(app.control_flow(), ControlFlow::Wait);
    let action = app.handle_hot_reload_msg(HotReloadMsg::UpdateAsset("style.css".to_string()));
    match action {
        ReloadAction::KickAssets { mut windows } => {
            windows.sort();
            assert_eq!(windows, vec![1, 2]);
        }
        _ => panic!("expected an asset reload"),
    }
    assert_eq!(app.window_count(), 2);
}

#[test]
fn reload_shutdown_exits() {
    let mut app = app_with(WindowCloseBehaviour::CloseWindow, &[1]);
    assert!(matches!(app.handle_hot_reload_msg(HotReloadMsg::Shutdown), ReloadAction::Exit));
    assert_eq!(app.control_flow(), ControlFlow::Exit);
    assert_eq!(app.window_count(), 1);
}

#[test]
fn idle_poll_changes_nothing() {
    let app = app_with(WindowCloseBehaviour::CloseWindow, &[1]);
    for _ in 0..3 {
        assert_eq!(app.poll_vdom(1).map(|s| s.as_str()), Some("surface 1"));
    }
    assert!(app.poll_vdom(2).is_none());
    assert_eq!(app.window_count(), 1);
    assert_eq!(app.control_flow(), ControlFlow::Wait);
}

#[test]
fn mounted_event_becomes_element_handle() {
    let app = app_with(WindowCloseBehaviour::CloseWindow, &[4]);
    let ev = UserEvent { element: 9, name: "mounted".to_string(), bubbles: false, kind: EventKind::Mounted };
    let replay = app.handle_user_event_msg(Some(ev), &None, 4).unwrap();
    assert!(matches!(replay.payload, EventPayload::Element { element: 9, window: 4 }));
    assert_eq!(replay.name, "mounted");
}

#[test]
fn drag_with_files_uses_recent_drop_paths() {
    let app = app_with(WindowCloseBehaviour::CloseWindow, &[4]);
    let recent = Some(FileDropEvent::Dropped(vec!["/d/x.txt".to_string()]));
    let ev = UserEvent {
        element: 2,
        name: "drop".to_string(),
        bubbles: true,
        kind: EventKind::Drag { carries_files: true },
    };
    let replay = app.handle_user_event_msg(Some(ev), &recent, 4).unwrap();
    match replay.payload {
        EventPayload::DragFiles(paths) => assert_eq!(paths, vec!["/d/x.txt".to_string()]),
        _ => panic!("expected native drag paths"),
    }
    let ev = UserEvent {
        element: 2,
        name: "dragover".to_string(),
        bubbles: true,
        kind: EventKind::Drag { carries_files: false },
    };
    let replay = app.handle_user_event_msg(Some(ev), &recent, 4).unwrap();
    assert!(matches!(replay.payload, EventPayload::Raw));
}

#[test]
fn reload_with_no_windows_reaches_none() {
    let mut app = app_with(WindowCloseBehaviour::CloseWindow, &[]);
    match app.handle_hot_reload_msg(HotReloadMsg::UpdateAsset("a.css".to_string())) {
        ReloadAction::KickAssets { windows } => assert!(windows.is_empty()),
        _ => panic!("expected an asset reload"),
    }
    assert_eq!(app.window_ids(), Vec::<u64>::new());
}
