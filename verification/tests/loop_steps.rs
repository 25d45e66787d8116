use cloudtui::app::{App, AppState};
use cloudtui::cloud::aws::Services;
use cloudtui::events::{action_for, Action, Key, LoopControl, LoopEvent};
use cloudtui::poller::{poll_step, BackendError, PollControl, PollEvent, PollerError};

fn fresh() -> App<Services> {
    App::new()
}

fn service_selection(app: &App<Services>) -> Option<usize> {
    match &app.state {
        AppState::Services { service } => service.items.selected(),
        AppState::Resources { .. } => panic!("expected the service level"),
    }
}

#[test]
fn key_binding() {
    assert!(matches!(action_for(Key::Char('q')), Action::Quit));
    assert!(matches!(action_for(Key::Enter), Action::Enter));
    assert!(matches!(action_for(Key::Esc), Action::Back));
    assert!(matches!(action_for(Key::Left), Action::Unselect));
    assert!(matches!(action_for(Key::Char('h')), Action::Unselect));
    assert!(matches!(action_for(Key::Up), Action::Up));
    assert!(matches!(action_for(Key::Char('k')), Action::Up));
    assert!(matches!(action_for(Key::Down), Action::Down));
    assert!(matches!(action_for(Key::Char('j')), Action::Down));
    assert!(matches!(action_for(Key::Char('x')), Action::Idle));
    assert!(matches!(action_for(Key::Other), Action::Idle));
}

#[test]
fn shutdown_stops_the_loop_without_a_broadcast() {
    let mut app = fresh();
    let control = app.on_event(LoopEvent::Shutdown);
    assert!(matches!(control, LoopControl::Stop { send_shutdown: false }));
    assert_eq!(service_selection(&app), None);
}

#[test]
fn quit_key_stops_the_loop_and_owes_the_broadcast() {
    let mut app = fresh();
    let control = app.on_event(LoopEvent::Input(Key::Char('q')));
    assert!(matches!(control, LoopControl::Stop { send_shutdown: true }));
}

#[test]
fn closed_channel_is_an_implicit_shutdown() {
    let mut app = fresh();
    let control = app.on_event(LoopEvent::ChannelClosed);
    assert!(matches!(control, LoopControl::Stop { send_shutdown: false }));
}

#[test]
fn published_data_replaces_the_active_list() {
    let mut app = fresh();
    let control = app.on_event(LoopEvent::Data(vec!["one".to_string()]));
    assert!(matches!(control, LoopControl::Continue));
    match &app.state {
        AppState::Services { service } => {
            assert_eq!(service.items.items(), &vec!["one".to_string()]);
        }
        AppState::Resources { .. } => unreachable!(),
    }
}

#[test]
fn keys_drive_navigation_transitions() {
    let mut app = fresh();
    assert!(matches!(app.on_event(LoopEvent::Input(Key::Down)), LoopControl::Continue));
    assert_eq!(service_selection(&app), Some(0));
    assert!(matches!(app.on_event(LoopEvent::Input(Key::Char('j'))), LoopControl::Continue));
    assert_eq!(service_selection(&app), Some(1));
    assert!(matches!(app.on_event(LoopEvent::Input(Key::Up)), LoopControl::Continue));
    assert_eq!(service_selection(&app), Some(0));
    assert!(matches!(app.on_event(LoopEvent::Input(Key::Char('h'))), LoopControl::Continue));
    assert_eq!(service_selection(&app), None);
    app.on_event(LoopEvent::Input(Key::Down));
    assert!(matches!(app.on_event(LoopEvent::Input(Key::Enter)), LoopControl::Continue));
    assert!(matches!(app.state, AppState::Resources { .. }));
    assert!(matches!(app.on_event(LoopEvent::Input(Key::Esc)), LoopControl::Continue));
    assert!(matches!(app.state, AppState::Services { .. }));
}

#[test]
fn tick_and_ignored_keys_change_nothing() {
    let mut app = fresh();
    app.on_event(LoopEvent::Input(Key::Down));
    assert!(matches!(app.on_event(LoopEvent::Tick), LoopControl::Continue));
    assert_eq!(service_selection(&app), Some(0));
    assert!(matches!(app.on_event(LoopEvent::Input(Key::Other)), LoopControl::Continue));
    assert_eq!(service_selection(&app), Some(0));
    assert!(matches!(app.on_event(LoopEvent::Input(Key::Char('x'))), LoopControl::Continue));
    assert_eq!(service_selection(&app), Some(0));
}

#[test]
fn enter_error_stays_local_to_the_iteration() {
    let mut app = fresh();
    app.on_event(LoopEvent::Data(vec!["NotAService".to_string()]));
    app.on_event(LoopEvent::Input(Key::Down));
    let control = app.on_event(LoopEvent::Input(Key::Enter));
    assert!(matches!(control, LoopControl::Continue));
    assert!(matches!(app.state, AppState::Services { .. }));
}

#[test]
fn poller_stops_cleanly_on_shutdown() {
    let control = poll_step(PollEvent::Shutdown);
    assert!(matches!(control, PollControl::Stop));
}

#[test]
fn poller_publishes_a_successful_listing_unchanged() {
    let names = vec!["stream-1".to_string(), "stream-2".to_string()];
    let control = poll_step(PollEvent::Listed(Ok(names.clone())));
    match control {
        PollControl::Publish(published) => assert_eq!(published, names),
        _ => panic!("a successful listing must be published"),
    }
}

#[test]
fn poller_fails_on_a_backend_error() {
    let control = poll_step(PollEvent::Listed(Err(BackendError {
        message: "access denied".to_string(),
    })));
    match control {
        PollControl::Fail(PollerError::Backend(e)) => assert_eq!(e.message, "access denied"),
        _ => panic!("a failed listing is fatal to the poller"),
    }
}

#[test]
fn poller_reports_a_closed_channel() {
    let control = poll_step(PollEvent::PublishFailed);
    assert!(matches!(control, PollControl::Fail(PollerError::ChannelClosed)));
}
