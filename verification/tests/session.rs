use dark_notify::Action;
use dark_notify::CallbackState;
use dark_notify::NativeTarget;
use dark_notify::ObserveError;
use dark_notify::Options;
use dark_notify::Session;
use dark_notify::TeardownEvent;
use dark_notify::Transport;
use dark_notify::initial_reaction;

const DARK_TOKEN: &str = "NSAppearanceNameDarkAqua";
const LIGHT_TOKEN: &str = "NSAppearanceNameAqua";

#[test]
fn initial_dark_then_each_transition_fires() {
    let opts = Options { exit: false, command: None, only_changes: false };
    let cb = opts.callback_state();
    let trigger = opts.trigger_initially();
    assert!(trigger);
    let first = initial_reaction(&cb, trigger, Some(DARK_TOKEN)).unwrap();
    assert_eq!(first.action, Action::Print("dark".to_string()));
    assert!(!first.exit);

    let mut target = NativeTarget { exists: true, observers: 0 };
    let mut transport = Transport::new();
    let session = Session::start(&mut target, &mut transport, cb).unwrap();
    assert_eq!(target.observers, 1);

    let on_light = session.on_notification(&transport, Some(LIGHT_TOKEN)).unwrap();
    assert_eq!(on_light.action, Action::Print("light".to_string()));
    let on_dark = session.on_notification(&transport, Some(DARK_TOKEN)).unwrap();
    assert_eq!(on_dark.action, Action::Print("dark".to_string()));

    let mut trace: Vec<TeardownEvent> = Vec::new();
    session.finish(&mut target, &mut transport, &mut trace);
    assert_eq!(target.observers, 0);
    assert_eq!(trace, vec![TeardownEvent::Unregistered, TeardownEvent::TransportDestroyed]);
}

#[test]
fn only_changes_without_transition_never_fires() {
    let opts = Options { exit: false, command: None, only_changes: true };
    let cb = opts.callback_state();
    assert!(!opts.trigger_initially());
    assert!(initial_reaction(&cb, opts.trigger_initially(), Some(LIGHT_TOKEN)).is_none());

    let mut target = NativeTarget { exists: true, observers: 0 };
    let mut transport = Transport::new();
    let session = Session::start(&mut target, &mut transport, cb).unwrap();
    assert!(session.on_notification(&transport, None).is_none());

    let mut trace: Vec<TeardownEvent> = Vec::new();
    session.finish(&mut target, &mut transport, &mut trace);
    assert_eq!(trace, vec![TeardownEvent::Unregistered, TeardownEvent::TransportDestroyed]);
}

#[test]
fn exit_mode_fires_exactly_once_and_ends_the_process() {
    let opts = Options { exit: true, command: None, only_changes: false };
    let cb = opts.callback_state();
    assert!(opts.trigger_initially());
    let only = initial_reaction(&cb, opts.trigger_initially(), Some(DARK_TOKEN)).unwrap();
    assert_eq!(only.action, Action::Print("dark".to_string()));
    assert!(only.exit);
}

#[test]
fn exit_mode_overrides_only_changes() {
    let opts = Options { exit: true, command: None, only_changes: true };
    assert!(opts.trigger_initially());
}

#[test]
fn command_mode_builds_the_spawned_shell_line() {
    let opts = Options { exit: false, command: Some("notify-send".to_string()), only_changes: false };
    let cb = opts.callback_state();
    let mut target = NativeTarget { exists: true, observers: 0 };
    let mut transport = Transport::new();
    let session = Session::start(&mut target, &mut transport, cb).unwrap();
    let r = session.on_notification(&transport, Some(DARK_TOKEN)).unwrap();
    assert_eq!(r.action, Action::RunShell("notify-send dark".to_string()));
    assert!(!r.exit);

    let mut trace: Vec<TeardownEvent> = Vec::new();
    session.finish(&mut target, &mut transport, &mut trace);
}

#[test]
fn start_on_missing_target_propagates_invalid_target() {
    let opts = Options { exit: false, command: None, only_changes: false };
    let cb = opts.callback_state();
    let mut target = NativeTarget { exists: false, observers: 0 };
    let mut transport = Transport::new();
    let r = Session::start(&mut target, &mut transport, cb);
    assert!(matches!(r, Err(ObserveError::InvalidTarget)));
    assert_eq!(target.observers, 0);
}

#[test]
fn missing_initial_payload_fires_nothing() {
    let opts = Options { exit: false, command: None, only_changes: false };
    let cb = opts.callback_state();
    assert!(initial_reaction(&cb, opts.trigger_initially(), None).is_none());
}
