use tinywgpu::app::{Action, App, Phase, Size, WindowEvent};

fn ready_app() -> App {
    let mut app = App::new().with_event_loop();
    let action = app.resumed();
    assert_eq!(action, Action::StartGraphicsInit);
    let action = app.user_event();
    assert_eq!(action, Action::Draw);
    app
}

#[test]
fn new_controller_starts_initializing() {
    let app = App::new();
    assert_eq!(app.phase, Phase::Init { has_callback: false });
    assert_eq!(app.name, "tinywgpu");
}

#[test]
fn configure_replaces_the_name_only() {
    let app = App::new().configure(String::from("demo"));
    assert_eq!(app.name, "demo");
    assert_eq!(app.phase, Phase::Init { has_callback: false });
}

#[test]
fn with_event_loop_installs_the_callback() {
    let app = App::new().with_event_loop();
    assert_eq!(app.phase, Phase::Init { has_callback: true });
    assert_eq!(app.name, "tinywgpu");
}

#[test]
fn resized_while_initializing_is_a_no_op() {
    let app = App::new().with_event_loop();
    let size = Size { width: 800, height: 600 };
    let action = app.window_event(WindowEvent::Resized(size));
    assert_eq!(action, Action::Ignore);
    assert_eq!(app.phase, Phase::Init { has_callback: true });
}

#[test]
fn redraw_while_initializing_warns() {
    let app = App::new().with_event_loop();
    let action = app.window_event(WindowEvent::RedrawRequested);
    assert_eq!(action, Action::WarnNotReady);
}

#[test]
fn graphics_ready_draws_once_immediately() {
    let mut app = App::new().with_event_loop();
    app.resumed();
    let action = app.user_event();
    assert_eq!(action, Action::Draw);
    assert_eq!(app.phase, Phase::Ready);
}

#[test]
fn close_requested_exits_in_any_state() {
    let initializing = App::new().with_event_loop();
    assert_eq!(
        initializing.window_event(WindowEvent::CloseRequested),
        Action::Exit
    );
    let ready = ready_app();
    assert_eq!(ready.window_event(WindowEvent::CloseRequested), Action::Exit);
}

#[test]
fn ready_forwards_resize_with_the_same_size() {
    let app = ready_app();
    let size = Size { width: 1024, height: 768 };
    let action = app.window_event(WindowEvent::Resized(size));
    assert_eq!(action, Action::Resize(size));
}

#[test]
fn ready_forwards_redraw_as_a_draw() {
    let app = ready_app();
    let action = app.window_event(WindowEvent::RedrawRequested);
    assert_eq!(action, Action::Draw);
}

#[test]
fn other_events_are_ignored_in_both_phases() {
    let initializing = App::new().with_event_loop();
    assert_eq!(initializing.window_event(WindowEvent::Other), Action::Ignore);
    let ready = ready_app();
    assert_eq!(ready.window_event(WindowEvent::Other), Action::Ignore);
}

#[test]
fn resumed_consumes_the_callback_only_once() {
    let mut app = App::new().with_event_loop();
    assert_eq!(app.resumed(), Action::StartGraphicsInit);
    assert_eq!(app.phase, Phase::Init { has_callback: false });
    assert_eq!(app.resumed(), Action::Ignore);
    assert_eq!(app.phase, Phase::Init { has_callback: false });
}

#[test]
fn resumed_without_a_callback_is_ignored() {
    let mut app = App::new();
    assert_eq!(app.resumed(), Action::Ignore);
    assert_eq!(app.phase, Phase::Init { has_callback: false });
}

#[test]
fn resumed_when_ready_is_ignored() {
    let mut app = ready_app();
    assert_eq!(app.resumed(), Action::Ignore);
    assert_eq!(app.phase, Phase::Ready);
}

#[test]
fn phase_labels() {
    assert_eq!(Phase::Ready.label(), "Ready");
    assert_eq!(Phase::Init { has_callback: true }.label(), "Init");
    assert_eq!(Phase::Init { has_callback: false }.label(), "Init");
}

#[test]
fn draw_and_resized_match_the_dispatch() {
    let init = App::new().with_event_loop();
    assert_eq!(init.draw(), Action::WarnNotReady);
    let size = Size { width: 320, height: 200 };
    assert_eq!(init.resized(size), Action::Ignore);
    let ready = ready_app();
    assert_eq!(ready.draw(), Action::Draw);
    assert_eq!(ready.resized(size), Action::Resize(size));
}
