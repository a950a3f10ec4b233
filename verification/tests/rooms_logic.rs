use shadowlink_rust_core::error::{ApiErrorKind, ErrorOrigin, ShadowLinkError};
use shadowlink_rust_core::rooms::{
    assemble_room_list, check_family_room_name, derive_alias_localpart,
    family_room_after_failure, join_error, pin_encryption_error, pinned_home,
    plan_family_room, select_home_room, created_room, check_pin_membership, FamilyRoomStep, RoomInfo, RoomState,
};

// ── RoomState ─────────────────────────────────────────────────────────

#[test]
fn test_room_state_equality() {
    assert_eq!(RoomState::Joined, RoomState::Joined);
    assert_eq!(RoomState::Invited, RoomState::Invited);
    assert_eq!(RoomState::Left, RoomState::Left);
    assert_ne!(RoomState::Joined, RoomState::Invited);
    assert_ne!(RoomState::Joined, RoomState::Left);
    assert_ne!(RoomState::Invited, RoomState::Left);
}

#[test]
fn test_room_state_clone() {
    let a = RoomState::Joined;
    let b = a.clone();
    assert_eq!(a, b);
    assert_eq!(a, RoomState::Joined);
}

// ── RoomInfo ──────────────────────────────────────────────────────────

#[test]
fn test_room_info_construction() {
    let info = RoomInfo {
        room_id: "!test:example.com".into(),
        name: Some("Family Room".into()),
        alias: Some("#family-room:example.com".into()),
        member_count: 4,
        encrypted: true,
        is_home: true,
        state: RoomState::Joined,
    };
    assert_eq!(info.room_id, "!test:example.com");
    assert_eq!(info.name.as_deref(), Some("Family Room"));
    assert_eq!(info.alias.as_deref(), Some("#family-room:example.com"));
    assert_eq!(info.member_count, 4);
    assert!(info.encrypted);
    assert!(info.is_home);
    assert_eq!(info.state, RoomState::Joined);
}

#[test]
fn test_room_info_name_none() {
    let info = RoomInfo {
        room_id: "!unnamed:example.com".into(),
        name: None,
        alias: None,
        member_count: 1,
        encrypted: false,
        is_home: false,
        state: RoomState::Invited,
    };
    assert!(info.name.is_none());
    assert!(info.alias.is_none());
    assert!(!info.is_home);
    assert!(!info.encrypted);
    assert_eq!(info.state, RoomState::Invited);
}

#[test]
fn test_room_info_debug_does_not_panic() {
    let info = RoomInfo {
        room_id: "!debug:example.com".into(),
        name: Some("Debug".into()),
        alias: None,
        member_count: 0,
        encrypted: true,
        is_home: false,
        state: RoomState::Left,
    };
    let _ = format!("{:?}", info);
}

// ── Alias derivation ───────────────────────────────────────────────────

#[test]
fn test_derive_alias_localpart_basic() {
    assert_eq!(derive_alias_localpart("The Smith Family"), "the-smith-family");
}

#[test]
fn test_derive_alias_localpart_unicode_stripped() {
    assert_eq!(derive_alias_localpart("Über Family Room"), "ber-family-room");
}

#[test]
fn test_derive_alias_localpart_special_chars() {
    assert_eq!(derive_alias_localpart("Hello! World?"), "hello-world");
}

#[test]
fn test_derive_alias_localpart_double_hyphens_collapsed() {
    assert_eq!(derive_alias_localpart("Hello!  World?"), "hello-world");
    assert_eq!(derive_alias_localpart("a---b"), "a-b");
}

#[test]
fn test_derive_alias_localpart_dots_and_underscores() {
    assert_eq!(derive_alias_localpart("test.name_123"), "test.name_123");
}

#[test]
fn test_derive_alias_localpart_truncate() {
    let long = "a".repeat(300);
    let alias = derive_alias_localpart(&long);
    assert_eq!(alias.len(), 255);
}

#[test]
fn test_derive_alias_localpart_trim_leading_trailing() {
    assert_eq!(derive_alias_localpart("--hello--"), "hello");
    assert_eq!(derive_alias_localpart("..world.."), "world");
}

#[test]
fn alias_edge_cases() {
    assert_eq!(derive_alias_localpart(""), "");
    assert_eq!(derive_alias_localpart("!!!"), "");
    assert_eq!(derive_alias_localpart(" - . - "), "");
    assert_eq!(derive_alias_localpart("A=B"), "a=b");
    assert_eq!(derive_alias_localpart("a - b"), "a-b");
    assert_eq!(derive_alias_localpart("a-!-b"), "a-b");
    assert_eq!(derive_alias_localpart("ZZ top"), "zz-top");
}

#[test]
fn alias_is_cut_before_it_is_trimmed() {
    // 254 letters, then a hyphen and more: the cut leaves the hyphen last,
    // and the trim removes it.
    let name = format!("{}-bc", "a".repeat(254));
    assert_eq!(derive_alias_localpart(&name), "a".repeat(254));
    let name = format!("{} b", "a".repeat(254));
    assert_eq!(derive_alias_localpart(&name), "a".repeat(254));
    let name = format!("{}.xyz", "b".repeat(254));
    assert_eq!(derive_alias_localpart(&name), "b".repeat(254));
}

#[test]
fn alias_is_idempotent_on_examples() {
    for name in ["The Smith Family", "Über Family Room", "a---b", "..world..", "x.y_z=1"] {
        let once = derive_alias_localpart(name);
        assert_eq!(derive_alias_localpart(&once), once);
    }
}

// ── Family room planning ───────────────────────────────────────────────

#[test]
fn family_room_name_checks() {
    match check_family_room_name("") {
        Err(ShadowLinkError::OperationFailed { operation, detail }) => {
            assert_eq!(operation, "create_family_room");
            assert_eq!(detail, "Room name must not be empty");
        }
        other => panic!("unexpected {other:?}"),
    }
    match check_family_room_name(&"x".repeat(300)) {
        Err(ShadowLinkError::OperationFailed { operation, detail }) => {
            assert_eq!(operation, "create_family_room");
            assert_eq!(detail, "Room name too long (300 chars, max 255)");
        }
        other => panic!("unexpected {other:?}"),
    }
    // the limit counts characters, not bytes
    assert!(check_family_room_name(&"é".repeat(200)).is_ok());
    assert!(check_family_room_name(&"é".repeat(255)).is_ok());
    match check_family_room_name(&"é".repeat(256)) {
        Err(ShadowLinkError::OperationFailed { detail, .. }) => {
            assert_eq!(detail, "Room name too long (256 chars, max 255)");
        }
        other => panic!("unexpected {other:?}"),
    }
    assert!(check_family_room_name(&"x".repeat(255)).is_ok());
}

#[test]
fn family_room_first_request() {
    let req = plan_family_room("The Smith Family").unwrap();
    assert_eq!(req.name, "The Smith Family");
    assert_eq!(req.alias_localpart.as_deref(), Some("the-smith-family"));
    let req = plan_family_room("!!!").unwrap();
    assert!(req.alias_localpart.is_none());
    assert!(plan_family_room("").is_err());
}

#[test]
fn family_room_retry_without_alias_when_only_the_alias_is_refused() {
    for kind in [ApiErrorKind::RoomInUse, ApiErrorKind::InvalidParam, ApiErrorKind::Exclusive] {
        match family_room_after_failure("Fam", false, true, ErrorOrigin::Api(kind), "alias refused") {
            FamilyRoomStep::Retry(req) => {
                assert_eq!(req.name, "Fam");
                assert!(req.alias_localpart.is_none());
            }
            FamilyRoomStep::Fail(e) => panic!("unexpected failure {e:?}"),
        }
    }
    // a request without an alias is not retried
    match family_room_after_failure("Fam", false, false, ErrorOrigin::Api(ApiErrorKind::RoomInUse), "x") {
        FamilyRoomStep::Fail(ShadowLinkError::OperationFailed { detail, .. }) => assert_eq!(detail, "x"),
        _ => panic!("expected failure"),
    }
    match family_room_after_failure("Fam", false, true, ErrorOrigin::Api(ApiErrorKind::Forbidden), "no") {
        FamilyRoomStep::Fail(ShadowLinkError::OperationFailed { operation, detail }) => {
            assert_eq!(operation, "create_family_room");
            assert_eq!(detail, "no");
        }
        _ => panic!("expected failure"),
    }
    match family_room_after_failure("Fam", true, false, ErrorOrigin::Api(ApiErrorKind::RoomInUse), "again") {
        FamilyRoomStep::Fail(ShadowLinkError::OperationFailed { detail, .. }) => {
            assert_eq!(detail, "Room creation failed (with and without alias): again");
        }
        _ => panic!("expected failure"),
    }
}

// ── Room lists and the home room ───────────────────────────────────────

fn room(id: &str) -> RoomInfo {
    RoomInfo {
        room_id: id.into(),
        name: None,
        alias: None,
        member_count: 1,
        encrypted: false,
        is_home: false,
        state: RoomState::Left,
    }
}

#[test]
fn room_list_order_states_and_home_flag() {
    let home = Some("!b:h".to_string());
    let list = assemble_room_list(
        vec![room("!a:h"), room("!b:h")],
        vec![room("!c:h")],
        vec![room("!d:h")],
        &home,
    );
    let ids: Vec<&str> = list.iter().map(|r| r.room_id.as_str()).collect();
    assert_eq!(ids, vec!["!a:h", "!b:h", "!c:h", "!d:h"]);
    let states: Vec<RoomState> = list.iter().map(|r| r.state).collect();
    assert_eq!(
        states,
        vec![RoomState::Joined, RoomState::Joined, RoomState::Invited, RoomState::Left]
    );
    assert_eq!(list.iter().filter(|r| r.is_home).count(), 1);
    assert!(list[1].is_home);
}

#[test]
fn room_list_without_home() {
    let list = assemble_room_list(vec![room("!a:h")], vec![], vec![room("!d:h")], &None);
    assert!(list.iter().all(|r| !r.is_home));
}

#[test]
fn home_room_lookup_prefers_joined_then_invited_then_left() {
    let home = Some("!x:h".to_string());
    let r = select_home_room(vec![room("!a:h")], vec![room("!x:h")], vec![room("!x:h")], &home, None)
        .unwrap();
    assert_eq!(r.room_id, "!x:h");
    assert_eq!(r.state, RoomState::Invited);
    assert!(r.is_home);
    let r = select_home_room(vec![], vec![], vec![room("!x:h")], &home, None).unwrap();
    assert_eq!(r.state, RoomState::Left);
    assert!(select_home_room(vec![room("!a:h")], vec![], vec![], &home, None).is_none());
    assert!(select_home_room(vec![room("!x:h")], vec![], vec![], &None, None).is_none());
}

#[test]
fn home_room_falls_back_to_cached_info() {
    let home = Some("!x:h".to_string());
    let mut cached = room("!x:h");
    cached.state = RoomState::Joined;
    cached.name = Some("Family".into());
    let r = select_home_room(vec![room("!a:h")], vec![], vec![], &home, Some(cached.clone())).unwrap();
    assert_eq!(r.room_id, "!x:h");
    assert_eq!(r.name.as_deref(), Some("Family"));
    assert!(r.is_home);
    assert_eq!(r.state, RoomState::Left);
    // the listed room wins over the cache
    let r = select_home_room(vec![room("!x:h")], vec![], vec![], &home, Some(cached.clone())).unwrap();
    assert_eq!(r.state, RoomState::Joined);
    // a cache of another room is not used
    assert!(select_home_room(vec![], vec![], vec![], &Some("!y:h".to_string()), Some(cached)).is_none());
}

#[test]
fn home_lookup_agrees_with_list() {
    let home = Some("!c:h".to_string());
    let list = assemble_room_list(vec![room("!a:h")], vec![room("!c:h")], vec![], &home);
    let first = list.iter().find(|r| r.is_home).unwrap();
    let found = select_home_room(vec![room("!a:h")], vec![room("!c:h")], vec![], &home, None).unwrap();
    assert_eq!(first.room_id, found.room_id);
    assert_eq!(first.state, found.state);
}

#[test]
fn pinning_and_leaving() {
    let r = pinned_home(room("!a:h"));
    assert!(r.is_home && r.encrypted);
    assert_eq!(r.state, RoomState::Joined);
    let r = created_room(room("!a:h"));
    assert!(r.encrypted && !r.is_home);
    assert_eq!(r.state, RoomState::Joined);
}

#[test]
fn join_and_pin_errors() {
    match join_error(ErrorOrigin::Api(ApiErrorKind::Other), "M_UNKNOWN") {
        ShadowLinkError::OperationFailed { operation, detail } => {
            assert_eq!(operation, "accept_invite");
            assert_eq!(detail, "M_UNKNOWN");
        }
        e => panic!("unexpected {e:?}"),
    }
    assert!(matches!(join_error(ErrorOrigin::Transport, "dns"),
        ShadowLinkError::ConnectionFailed { ref reason } if reason == "dns"));
    match pin_encryption_error("403") {
        ShadowLinkError::OperationFailed { operation, detail } => {
            assert_eq!(operation, "set_home_room");
            assert_eq!(detail, "Failed to enable encryption: 403");
        }
        e => panic!("unexpected {e:?}"),
    }
}

#[test]
fn only_joined_rooms_can_be_pinned() {
    assert!(check_pin_membership("!a:h", RoomState::Joined).is_ok());
    for state in [RoomState::Invited, RoomState::Left] {
        match check_pin_membership("!a:h", state) {
            Err(ShadowLinkError::NotInRoom { room_id }) => assert_eq!(room_id, "!a:h"),
            other => panic!("unexpected {other:?}"),
        }
    }
}
