use shadowlink_rust_core::error::{
    leave_error, request_error, room_write_error, ApiErrorKind, ErrorOrigin, ShadowLinkError,
};

/// Every message is non-empty and does not leak credential values.
fn assert_safe_display(err: &ShadowLinkError) {
    let display = err.to_string();
    assert!(!display.is_empty(), "Display must not be empty");
    assert!(
        !display.contains("hunter2"),
        "Display must not leak credential value: {}",
        display
    );
    assert!(
        !display.contains("my_secret_p4ss"),
        "Display must not leak credential value: {}",
        display
    );
}

#[test]
fn test_connection_failed_display() {
    let err = ShadowLinkError::ConnectionFailed {
        reason: "DNS resolution failed".into(),
    };
    assert_safe_display(&err);
    assert!(err.to_string().contains("DNS resolution failed"));
}

#[test]
fn test_authentication_failed_display() {
    let err = ShadowLinkError::AuthenticationFailed {
        reason: "invalid password".into(),
    };
    assert_safe_display(&err);
    assert!(err.to_string().contains("invalid password"));
    assert!(!err.to_string().contains("hunter2"));
}

#[test]
fn test_session_expired_display() {
    let err = ShadowLinkError::SessionExpired;
    assert_safe_display(&err);
    assert!(err.to_string().contains("re-authentication"));
}

#[test]
fn test_not_in_room_display() {
    let err = ShadowLinkError::NotInRoom {
        room_id: "!test:example.com".into(),
    };
    assert_safe_display(&err);
    assert!(err.to_string().contains("!test:example.com"));
}

#[test]
fn test_room_not_found_display() {
    let err = ShadowLinkError::RoomNotFound {
        room_id: "!missing:example.com".into(),
    };
    assert_safe_display(&err);
    assert!(err.to_string().contains("!missing:example.com"));
}

#[test]
fn test_decryption_failed_display() {
    let err = ShadowLinkError::DecryptionFailed {
        event_id: "$abc123".into(),
    };
    assert_safe_display(&err);
    assert!(err.to_string().contains("$abc123"));
}

#[test]
fn test_media_too_large_display() {
    let err = ShadowLinkError::MediaTooLarge {
        size_bytes: 10_000_000,
        limit_bytes: 5_000_000,
    };
    assert_safe_display(&err);
    assert!(err.to_string().contains("10000000"));
    assert!(err.to_string().contains("5000000"));
}

#[test]
fn test_location_unavailable_display() {
    let err = ShadowLinkError::LocationUnavailable;
    assert_safe_display(&err);
}

#[test]
fn test_storage_error_display() {
    let err = ShadowLinkError::StorageError {
        reason: "disk full".into(),
    };
    assert_safe_display(&err);
    assert!(err.to_string().contains("disk full"));
}

#[test]
fn test_internal_error_display() {
    let err = ShadowLinkError::Internal {
        message: "unexpected null".into(),
    };
    assert_safe_display(&err);
    assert!(err.to_string().contains("unexpected null"));
}

#[test]
fn test_operation_failed_display() {
    let err = ShadowLinkError::OperationFailed {
        operation: "create_room".into(),
        detail: "403 Forbidden".into(),
    };
    assert_safe_display(&err);
    assert!(err.to_string().contains("create_room"));
    assert!(err.to_string().contains("403 Forbidden"));
}

#[test]
fn test_clone_round_trip() {
    let err = ShadowLinkError::ConnectionFailed {
        reason: "timeout".into(),
    };
    let cloned = err.clone();
    assert_eq!(err.to_string(), cloned.to_string());
}

#[test]
fn test_debug_round_trip() {
    let err = ShadowLinkError::DecryptionFailed {
        event_id: "$evt001".into(),
    };
    let debugged = format!("{:?}", err);
    assert!(debugged.contains("DecryptionFailed"));
    assert!(debugged.contains("$evt001"));
}

// ── Exact message texts ─────────────────────────────────────────────────

#[test]
fn exact_messages_of_every_variant() {
    let cases = vec![
        (ShadowLinkError::ConnectionFailed { reason: "x".into() }, "connection failed: x"),
        (ShadowLinkError::AuthenticationFailed { reason: "y".into() }, "authentication failed: y"),
        (ShadowLinkError::SessionExpired, "session expired \u{2014} re-authentication required"),
        (ShadowLinkError::NotInRoom { room_id: "!r:h".into() }, "not a member of room !r:h"),
        (ShadowLinkError::RoomNotFound { room_id: "!r:h".into() }, "room not found: !r:h"),
        (ShadowLinkError::DecryptionFailed { event_id: "$e".into() }, "decryption failed for event $e"),
        (
            ShadowLinkError::MediaTooLarge { size_bytes: 10_000_000, limit_bytes: 5_000_000 },
            "media too large: 10000000 bytes (limit: 5000000 bytes)",
        ),
        (ShadowLinkError::LocationUnavailable, "location services unavailable"),
        (ShadowLinkError::StorageError { reason: "disk full".into() }, "storage error: disk full"),
        (
            ShadowLinkError::OperationFailed { operation: "create_room".into(), detail: "403".into() },
            "create_room failed: 403",
        ),
        (ShadowLinkError::Internal { message: "oops".into() }, "internal error: oops"),
    ];
    for (err, text) in cases {
        assert_eq!(err.to_string(), text);
    }
}

#[test]
fn media_too_large_zero_and_max() {
    let err = ShadowLinkError::MediaTooLarge { size_bytes: 0, limit_bytes: u64::MAX };
    assert_eq!(
        err.to_string(),
        "media too large: 0 bytes (limit: 18446744073709551615 bytes)"
    );
}

#[test]
fn room_write_error_forbidden_means_not_in_room() {
    let e = room_write_error("send_text", "!r:h", ErrorOrigin::Api(ApiErrorKind::Forbidden), "403");
    assert!(matches!(e, ShadowLinkError::NotInRoom { ref room_id } if room_id == "!r:h"));
    let e = room_write_error("send_text", "!r:h", ErrorOrigin::Api(ApiErrorKind::TooLarge), "413");
    assert!(matches!(e, ShadowLinkError::OperationFailed { ref operation, ref detail }
        if operation == "send_text" && detail == "413"));
    let e = room_write_error("invite_user", "!r:h", ErrorOrigin::Transport, "timeout");
    assert!(matches!(e, ShadowLinkError::ConnectionFailed { ref reason } if reason == "timeout"));
}

#[test]
fn leave_and_request_errors() {
    assert!(matches!(leave_error("!r:h", ErrorOrigin::Api(ApiErrorKind::Forbidden), "403"),
        ShadowLinkError::NotInRoom { ref room_id } if room_id == "!r:h"));
    assert!(matches!(leave_error("!r:h", ErrorOrigin::Transport, "t"),
        ShadowLinkError::OperationFailed { ref operation, .. } if operation == "leave_room"));
    assert!(matches!(request_error("create_room", ErrorOrigin::Transport, "dns"),
        ShadowLinkError::ConnectionFailed { ref reason } if reason == "dns"));
    assert!(matches!(request_error("create_room", ErrorOrigin::Api(ApiErrorKind::Forbidden), "403"),
        ShadowLinkError::OperationFailed { ref operation, ref detail }
            if operation == "create_room" && detail == "403"));
}
