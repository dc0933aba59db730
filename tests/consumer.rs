use fluffy_injector::config::Config;
use fluffy_injector::icon::IconImage;
use fluffy_injector::injector::{
    InjectionAction, InjectionError, InjectionOutcome, InjectionSession, StepResult,
    ERROR_INVALID_PARAMETER,
};
use fluffy_injector::injector_app::InjectorApp;
use fluffy_injector::pipeline::{icon_message, BackgroundMessage};
use fluffy_injector::process::ProcessInfo;
use fluffy_injector::toast::ToastLevel;

fn record(name: &str, pid: u32, exe: &str) -> ProcessInfo {
    let exe = if exe.is_empty() { None } else { Some(exe.to_string()) };
    ProcessInfo::new(name.to_string(), pid, exe)
}

fn fresh(dlls: &[&str], last: Option<&str>) -> InjectorApp {
    let config = Config {
        dlls: dlls.iter().map(|s| s.to_string()).collect(),
        last_selected_app: last.map(|s| s.to_string()),
    };
    InjectorApp::new_at(config, 1_000_000)
}

#[test]
fn start_state_lists_saved_libraries() {
    let app = fresh(&["a.dll", "b.dll"], None);
    assert_eq!(app.dll_manager.get_dlls(), &vec!["a.dll".to_string(), "b.dll".to_string()]);
    assert!(app.is_loading_processes);
    assert!(app.auto_refresh);
    assert!(app.processes.is_empty());
    assert_eq!(app.selected_process, None);
    assert_eq!(app.last_refresh, 990_000);
}

#[test]
fn snapshot_requests_missing_icons_only() {
    let mut app = fresh(&[], None);
    let img = IconImage::from_rgba(1, 1, vec![0, 0, 0, 255]).unwrap();
    app.handle_background_message(BackgroundMessage::Icon((2, img)));
    let reqs = app.handle_background_message(BackgroundMessage::Processes(vec![
        record("one.exe", 1, "/p/one.exe"),
        record("two.exe", 2, "/p/two.exe"),
        record("nopath", 3, ""),
        record("four.exe", 4, "/p/four.exe"),
    ]));
    assert_eq!(reqs, vec![(1, "/p/one.exe".to_string()), (4, "/p/four.exe".to_string())]);
    assert!(!app.is_loading_processes);
    assert_eq!(app.processes.len(), 4);
}

#[test]
fn snapshot_replaces_previous_one_even_for_reused_pids() {
    let mut app = fresh(&[], None);
    app.handle_background_message(BackgroundMessage::Processes(vec![
        record("old.exe", 50, "/p/old.exe"),
        record("gone.exe", 51, ""),
    ]));
    app.selected_process = Some(50);
    assert_eq!(app.selected_process_name(), Some("old.exe"));
    app.handle_background_message(BackgroundMessage::Processes(vec![record(
        "new.exe",
        50,
        "/p/new.exe",
    )]));
    assert_eq!(app.processes.len(), 1);
    assert_eq!(app.selected_process_name(), Some("new.exe"));
    app.selected_process = Some(51);
    assert_eq!(app.selected_process_name(), None);
}

#[test]
fn last_chosen_process_is_selected_by_name() {
    let mut app = fresh(&[], Some("game.exe"));
    app.handle_background_message(BackgroundMessage::Processes(vec![
        record("shell.exe", 10, ""),
        record("game.exe", 20, ""),
        record("game.exe", 30, ""),
    ]));
    assert_eq!(app.selected_process, Some(20));
    app.handle_background_message(BackgroundMessage::Processes(vec![record("shell.exe", 10, "")]));
    assert_eq!(app.selected_process, Some(20));
}

#[test]
fn select_process_remembers_the_name() {
    let mut app = fresh(&[], None);
    app.select_process(9, "editor.exe".to_string());
    assert_eq!(app.selected_process, Some(9));
    assert_eq!(app.config.last_selected_app, Some("editor.exe".to_string()));
}

#[test]
fn duplicate_library_is_not_added() {
    let mut app = fresh(&["a.dll"], None);
    assert!(app.add_dll("b.dll".to_string()));
    assert!(!app.add_dll("a.dll".to_string()));
    assert_eq!(app.config.dlls, vec!["a.dll".to_string(), "b.dll".to_string()]);
    assert_eq!(app.dll_manager.get_dlls(), &app.config.dlls);
}

#[test]
fn removing_selected_library_updates_list_and_settings() {
    let mut app = fresh(&["a.dll", "b.dll", "c.dll"], None);
    assert!(!app.remove_selected_dll());
    app.dll_manager.select(Some(1));
    assert!(app.remove_selected_dll());
    assert_eq!(app.config.dlls, vec!["a.dll".to_string(), "c.dll".to_string()]);
    assert_eq!(app.dll_manager.get_dlls(), &app.config.dlls);
    assert_eq!(app.dll_manager.selected_dll(), None);
}

#[test]
fn injection_needs_process_and_library() {
    let mut app = fresh(&["a.dll", "b.dll"], None);
    assert_eq!(app.injection_target(), None);
    app.selected_process = Some(4242);
    assert_eq!(app.injection_target(), None);
    app.dll_manager.select(Some(1));
    assert_eq!(app.injection_target(), Some((4242, "b.dll".to_string())));
}

#[test]
fn refresh_starts_only_when_idle() {
    let mut app = fresh(&[], None);
    app.refresh_processes_at(2_000_000);
    assert_eq!(app.last_refresh, 990_000);
    app.handle_background_message(BackgroundMessage::Processes(vec![]));
    app.refresh_processes_at(2_000_000);
    assert!(app.is_loading_processes);
    assert_eq!(app.last_refresh, 2_000_000);
}

#[test]
fn tick_restarts_a_due_interval() {
    let mut app = fresh(&[], None);
    app.handle_background_message(BackgroundMessage::Processes(vec![]));
    app.tick_at(995_000);
    assert_eq!(app.last_refresh, 990_000);
    app.tick_at(995_001);
    assert_eq!(app.last_refresh, 995_001);
    app.auto_refresh = false;
    app.tick_at(2_000_000);
    assert_eq!(app.last_refresh, 995_001);
}

#[test]
fn toasts_expire_in_order() {
    let mut app = fresh(&[], None);
    app.add_toast(ToastLevel::Info, "first".to_string());
    app.add_toast(ToastLevel::Error, "second".to_string());
    assert_eq!(app.toasts.len(), 2);
    assert_eq!(app.toasts[1].level(), ToastLevel::Error);
    assert_eq!(app.toasts[1].message(), "second");
    app.retain_alive_toasts();
    assert_eq!(app.toasts.len(), 2);
    app.retain_alive_toasts_at(i64::MAX);
    assert!(app.toasts.is_empty());
}

#[test]
fn demo_process_end_to_end() {
    let mut app = fresh(&["/p/payload.dll"], None);
    let reqs = app.handle_background_message(BackgroundMessage::Processes(vec![record(
        "demo.exe",
        4242,
        "/p/demo.exe",
    )]));
    assert_eq!(reqs, vec![(4242, "/p/demo.exe".to_string())]);

    let (pid, _path) = reqs[0].clone();
    let icon = IconImage::from_bgra(16, 16, vec![0u8; 16 * 16 * 4]);
    let msg = icon_message(pid, icon).unwrap();
    match &msg {
        BackgroundMessage::Icon((p, img)) => {
            assert_eq!(*p, 4242);
            assert_eq!((img.width(), img.height()), (16, 16));
        }
        _ => panic!("expected an icon"),
    }
    assert!(app.handle_background_message(msg).is_empty());
    assert!(app.icon_cache.contains_key(&4242));
    assert!(app.request_missing_icons().is_empty());

    app.select_process(4242, "demo.exe".to_string());
    app.dll_manager.select(Some(0));
    let (pid, path) = app.injection_target().unwrap();
    assert_eq!((pid, path.as_str()), (4242, "/p/payload.dll"));
    let mut session = InjectionSession::new(pid, &path);
    match session.next_action() {
        InjectionAction::OpenProcess { pid } => assert_eq!(pid, 4242),
        other => panic!("unexpected {:?}", other),
    }
    session.advance(StepResult::Failed(ERROR_INVALID_PARAMETER));
    match session.outcome() {
        Some(InjectionOutcome::Failure { kind, .. }) => assert_eq!(kind, InjectionError::NotFound),
        other => panic!("unexpected {:?}", other),
    }
}

#[test]
fn start_state_reads_the_clock() {
    let app = InjectorApp::new(Config::default());
    assert!(app.last_refresh > 1_600_000_000_000);
    assert!(app.is_loading_processes);
}

#[test]
fn start_state_at_the_earliest_time() {
    let app = InjectorApp::new_at(Config::default(), i64::MIN);
    assert_eq!(app.last_refresh, i64::MIN);
    let app = InjectorApp::new_at(Config::default(), 0);
    assert_eq!(app.last_refresh, -10_000);
}
