use dark_notify::CallbackState;
use dark_notify::NativeTarget;
use dark_notify::ObserveError;
use dark_notify::ObserveOptions;
use dark_notify::Subscription;
use dark_notify::TeardownEvent;
use dark_notify::Transport;

#[test]
fn observe_nil_target_fails_without_registration() {
    let mut target = NativeTarget { exists: false, observers: 0 };
    let mut transport = Transport::new();
    let cb = CallbackState { command: None, exit_after: false };
    let r = Subscription::observe(
        &mut target,
        "effectiveAppearance",
        ObserveOptions::new_value(),
        &mut transport,
        cb,
    );
    assert!(matches!(r, Err(ObserveError::InvalidTarget)));
    assert_eq!(target.observers, 0);
}

#[test]
fn observe_registers_one_proxy_and_teardown_unregisters_it() {
    let mut target = NativeTarget { exists: true, observers: 0 };
    let mut transport = Transport::new();
    let cb = CallbackState { command: None, exit_after: false };
    let sub = Subscription::observe(
        &mut target,
        "effectiveAppearance",
        ObserveOptions::new_value(),
        &mut transport,
        cb,
    )
    .unwrap();
    assert_eq!(target.observers, 1);
    let mut trace: Vec<TeardownEvent> = Vec::new();
    sub.teardown(&mut target, &mut transport, &mut trace);
    assert_eq!(target.observers, 0);
    assert_eq!(trace, vec![TeardownEvent::Unregistered, TeardownEvent::TransportDestroyed]);
}

#[test]
fn teardown_after_target_is_gone_still_frees_the_transport() {
    let mut target = NativeTarget { exists: true, observers: 0 };
    let mut transport = Transport::new();
    let cb = CallbackState { command: None, exit_after: false };
    let sub = Subscription::observe(
        &mut target,
        "effectiveAppearance",
        ObserveOptions::new_value(),
        &mut transport,
        cb,
    )
    .unwrap();
    target = NativeTarget { exists: false, observers: 0 };
    let mut trace: Vec<TeardownEvent> = Vec::new();
    sub.teardown(&mut target, &mut transport, &mut trace);
    assert_eq!(trace, vec![TeardownEvent::TransportDestroyed]);
    assert_eq!(target.observers, 0);
}

#[test]
fn new_value_option_asks_for_the_new_value_alone() {
    assert_eq!(ObserveOptions::new_value().bits, 0x01);
}

#[test]
fn observe_error_description() {
    assert_eq!(ObserveError::InvalidTarget.describe(), "cannot observe on a nil object");
}
