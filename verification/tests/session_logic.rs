use shadowlink_rust_core::client::{
    client_build_error, login_error, missing_session_error, next_sync_action, restore_error,
    session_file_path, sqlite_store_path, store_error, store_path, DebugRoomState, SessionControl,
    StartMode, StoreStep, SyncAction, SyncOutcome, STORE_PASSPHRASE,
};
use shadowlink_rust_core::error::{ApiErrorKind, ErrorOrigin, ShadowLinkError};
use shadowlink_rust_core::location::{
    begin_live_location, check_live_interval, clamp_interval_secs, end_live_location, location_body,
};

#[test]
fn store_paths() {
    assert_eq!(store_path("/home/u"), "/home/u/shadowlink_data");
    assert_eq!(store_path("/home/u/"), "/home/u/shadowlink_data");
    assert_eq!(store_path(""), "shadowlink_data");
    assert_eq!(session_file_path("/srv"), "/srv/shadowlink_data/session.json");
    assert_eq!(sqlite_store_path("/srv"), "/srv/shadowlink_data/store");
    assert_eq!(session_file_path(""), "shadowlink_data/session.json");
    assert_ne!(session_file_path("/x"), sqlite_store_path("/x"));
    assert_eq!(STORE_PASSPHRASE, "shadowlink-dev-passphrase");
}

#[test]
fn login_errors_hide_credentials() {
    for kind in [ApiErrorKind::Forbidden, ApiErrorKind::UserDeactivated] {
        match login_error(ErrorOrigin::Api(kind), "M_FORBIDDEN: hunter2") {
            ShadowLinkError::AuthenticationFailed { reason } => assert_eq!(reason, "Invalid credentials"),
            e => panic!("unexpected {e:?}"),
        }
    }
    match login_error(ErrorOrigin::Api(ApiErrorKind::LimitExceeded), "429") {
        ShadowLinkError::AuthenticationFailed { reason } => {
            assert_eq!(reason, "Rate limited \u{2014} try again later")
        }
        e => panic!("unexpected {e:?}"),
    }
    match login_error(ErrorOrigin::Transport, "dns") {
        ShadowLinkError::ConnectionFailed { reason } => assert_eq!(reason, "Login failed: dns"),
        e => panic!("unexpected {e:?}"),
    }
}

#[test]
fn restore_and_build_errors() {
    assert!(matches!(
        restore_error(ErrorOrigin::Api(ApiErrorKind::UnknownToken), "x"),
        ShadowLinkError::SessionExpired
    ));
    match restore_error(ErrorOrigin::Api(ApiErrorKind::Other), "bad") {
        ShadowLinkError::StorageError { reason } => assert_eq!(reason, "Failed to restore session: bad"),
        e => panic!("unexpected {e:?}"),
    }
    match client_build_error(StartMode::Login, "no url") {
        ShadowLinkError::ConnectionFailed { reason } => assert_eq!(reason, "Failed to build client: no url"),
        e => panic!("unexpected {e:?}"),
    }
    match client_build_error(StartMode::Restore, "locked") {
        ShadowLinkError::StorageError { reason } => assert_eq!(reason, "Failed to open SQLite store: locked"),
        e => panic!("unexpected {e:?}"),
    }
}

#[test]
fn store_step_errors() {
    let cases = [
        (StoreStep::CreateDir, "Failed to create store directory: e"),
        (StoreStep::Serialize, "Failed to serialize session: e"),
        (StoreStep::Write, "Failed to write session file: e"),
        (StoreStep::Read, "Failed to read session file: e"),
        (StoreStep::Parse, "Failed to parse session file: e"),
    ];
    for (step, text) in cases {
        match store_error(step, "e") {
            ShadowLinkError::StorageError { reason } => assert_eq!(reason, text),
            e => panic!("unexpected {e:?}"),
        }
    }
    match missing_session_error() {
        ShadowLinkError::StorageError { reason } => {
            assert_eq!(reason, "No persisted session found. Please connect first.")
        }
        e => panic!("unexpected {e:?}"),
    }
}

#[test]
fn disconnect_twice_is_a_no_op() {
    let mut c = SessionControl::new();
    assert!(!c.begin_disconnect());
    c.sync_started();
    assert!(c.begin_disconnect());
    assert!(!c.begin_disconnect());
    assert!(!c.sync_running);
}

#[test]
fn live_location_runs_once_at_a_time() {
    let mut c = SessionControl::new();
    assert!(begin_live_location(&mut c).is_ok());
    match begin_live_location(&mut c) {
        Err(ShadowLinkError::OperationFailed { operation, detail }) => {
            assert_eq!(operation, "start_live_location");
            assert_eq!(detail, "Live location is already running");
        }
        other => panic!("unexpected {other:?}"),
    }
    assert!(end_live_location(&mut c));
    assert!(!end_live_location(&mut c));
    assert!(begin_live_location(&mut c).is_ok());
}

#[test]
fn live_interval_is_clamped() {
    assert_eq!(clamp_interval_secs(10), 10);
    assert_eq!(clamp_interval_secs(1), 5);
    assert_eq!(clamp_interval_secs(0), 5);
    assert_eq!(clamp_interval_secs(5), 5);
    assert_eq!(clamp_interval_secs(30), 30);
}

#[test]
fn location_body_defaults() {
    assert_eq!(location_body(Some("Office")), "Office");
    assert_eq!(location_body(None), "Location");
}

#[test]
fn sync_loop_decisions() {
    assert_eq!(next_sync_action(SyncOutcome::Cancelled), SyncAction::Stop);
    assert_eq!(next_sync_action(SyncOutcome::Failed), SyncAction::Backoff(5));
    assert_eq!(
        next_sync_action(SyncOutcome::Synced { message_count: 2, has_callback: true }),
        SyncAction::Deliver
    );
    assert_eq!(
        next_sync_action(SyncOutcome::Synced { message_count: 2, has_callback: false }),
        SyncAction::Continue
    );
    assert_eq!(
        next_sync_action(SyncOutcome::Synced { message_count: 0, has_callback: true }),
        SyncAction::Continue
    );
}

#[test]
fn debug_room_toggle() {
    let mut d = DebugRoomState::new();
    assert!(d.toggle(true));
    d.room_created("!dbg:h".into());
    assert!(!d.toggle(true));
    assert!(!d.toggle(false));
    assert!(!d.enabled);
    assert_eq!(d.room_id.as_deref(), Some("!dbg:h"));
    assert!(!d.toggle(true));
    let mut fresh = DebugRoomState::new();
    assert!(fresh.toggle(true));
    let e = fresh.creation_failed("403");
    assert!(!fresh.enabled);
    assert!(matches!(e, ShadowLinkError::OperationFailed { ref operation, .. } if operation == "enable_debug_room"));
}

#[test]
fn live_interval_under_five_is_refused() {
    for secs in [0, 1, 4] {
        match check_live_interval(secs) {
            Err(ShadowLinkError::Internal { message }) => {
                assert_eq!(message, "Live location interval must be at least 5 seconds")
            }
            other => panic!("unexpected {other:?}"),
        }
    }
    assert!(check_live_interval(5).is_ok());
    assert!(check_live_interval(60).is_ok());
}
