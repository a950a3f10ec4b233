//! Matrix identifiers: room and user IDs are checked by ruma's parsers.

use vstd::prelude::*;
use crate::error::{ShadowLinkError, ErrorModel};

verus! {

#[verifier::external_type_specification]
#[verifier::external_body]
pub struct ExOwnedRoomId(ruma::OwnedRoomId);

#[verifier::external_type_specification]
#[verifier::external_body]
pub struct ExOwnedUserId(ruma::OwnedUserId);

/// What ruma's room ID parser returns for `s`.
pub uninterp spec fn ruma_room_id(s: Seq<char>) -> Option<ruma::OwnedRoomId>;

/// What ruma's user ID parser returns for `s`.
pub uninterp spec fn ruma_user_id(s: Seq<char>) -> Option<ruma::OwnedUserId>;

/// Parses a room ID with ruma (`OwnedRoomId::from_str`).
///
/// Trusted. ruma's room ID check (`ruma_identifiers_validation::room_id`)
/// asks that the ID start with `!` and, unless ruma's
/// `compat-arbitrary-length-ids` feature is on, be at most 255 bytes long.
/// This crate depends on matrix-sdk, which turns that feature on, so the
/// contract states that an ID parses exactly when it starts with `!`. The
/// parsed value is named by `ruma_room_id`.
#[verifier::external_body]
fn parse_room_id(s: &str) -> (r: Option<ruma::OwnedRoomId>)
    ensures
        r == ruma_room_id(s@),
        r is Some ==> s@.len() > 0 && s@[0] == '!',
        s@.len() > 0 && s@[0] == '!' ==> r is Some,
{
    <ruma::OwnedRoomId as std::str::FromStr>::from_str(s).ok()
}

/// Parses a user ID with ruma (`UserId::parse`).
///
/// Trusted. ruma's user ID check asks for a leading `@`, a `:` and a valid
/// server name after the first `:` (host name, IPv4/IPv6 literal, optional
/// port); the contract names the parsed value and states that an accepted
/// ID starts with `@` and holds a `:`. The server-name rules are left
/// unsaid.
#[verifier::external_body]
fn parse_user_id(s: &str) -> (r: Option<ruma::OwnedUserId>)
    ensures
        r == ruma_user_id(s@),
        r is Some ==> s@.len() > 0 && s@[0] == '@' && s@.contains(':'),
{
    ruma::UserId::parse(s).ok()
}

/// The outcome of resolving `room_id`, given what the parser returned:
/// an ID that does not parse names no room.
pub fn room_id_outcome(room_id: &str, parsed: Option<ruma::OwnedRoomId>) -> (res: Result<
    ruma::OwnedRoomId,
    ShadowLinkError,
>)
    ensures
        match parsed {
            Some(id) => res == Ok::<ruma::OwnedRoomId, ShadowLinkError>(id),
            None => res matches Err(e) && e@ == (ErrorModel::RoomNotFound { room_id: room_id@ }),
        },
{
    match parsed {
        Some(id) => Ok(id),
        None => Err(ShadowLinkError::room_not_found(room_id)),
    }
}

/// Parses `room_id`; an ID that ruma refuses is reported as a room that
/// does not exist.
pub fn lookup_room_id(room_id: &str) -> (res: Result<ruma::OwnedRoomId, ShadowLinkError>)
    ensures
        res is Ok <==> room_id@.len() > 0 && room_id@[0] == '!',
        res matches Ok(id) ==> ruma_room_id(room_id@) == Some(id),
        res matches Err(e) ==> e@ == (ErrorModel::RoomNotFound { room_id: room_id@ }),
{
    room_id_outcome(room_id, parse_room_id(room_id))
}

/// The outcome of checking `user_id` for `operation`, given what the parser
/// returned.
pub fn user_id_outcome(operation: &str, user_id: &str, parsed: Option<ruma::OwnedUserId>) -> (res:
    Result<ruma::OwnedUserId, ShadowLinkError>)
    ensures
        match parsed {
            Some(id) => res == Ok::<ruma::OwnedUserId, ShadowLinkError>(id),
            None => res matches Err(e) && e@ == (ErrorModel::OperationFailed {
                operation: operation@,
                detail: "Invalid user ID: "@ + user_id@,
            }),
        },
{
    match parsed {
        Some(id) => Ok(id),
        None => Err(ShadowLinkError::operation_failed_with(operation, "Invalid user ID: ", user_id)),
    }
}

/// Parses `user_id` for `operation`; an ID that ruma refuses fails the
/// operation.
pub fn lookup_user_id(operation: &str, user_id: &str) -> (res: Result<
    ruma::OwnedUserId,
    ShadowLinkError,
>)
    ensures
        res is Ok <==> ruma_user_id(user_id@) is Some,
        res matches Ok(id) ==> ruma_user_id(user_id@) == Some(id),
        res is Ok ==> user_id@.len() > 0 && user_id@[0] == '@' && user_id@.contains(':'),
        res matches Err(e) ==> e@ == (ErrorModel::OperationFailed {
            operation: operation@,
            detail: "Invalid user ID: "@ + user_id@,
        }),
{
    user_id_outcome(operation, user_id, parse_user_id(user_id))
}

} // verus!
