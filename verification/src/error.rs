//! The library's error type, its mathematical model and its message text.

use vstd::prelude::*;
use crate::text::{decimal, push_decimal};

verus! {

/// Top-level error covering every subsystem failure.
///
/// Each variant maps to a specific failure mode; the message text of each
/// is given by [`ErrorModel::display`] and produced by
/// [`ShadowLinkError::to_string`].
#[derive(Debug, Clone)]
pub enum ShadowLinkError {
    /// Homeserver unreachable, DNS failure, or timeout.
    ConnectionFailed { reason: String },
    /// Valid homeserver, but credentials rejected.
    AuthenticationFailed { reason: String },
    /// Previously persisted session has expired and requires re-auth.
    SessionExpired,
    /// Attempted operation on a room the session is not a member of.
    NotInRoom { room_id: String },
    /// Referenced room does not exist or is not visible to this session.
    RoomNotFound { room_id: String },
    /// E2EE decryption failed.
    DecryptionFailed { event_id: String },
    /// Media upload exceeded the homeserver's size limit.
    MediaTooLarge { size_bytes: u64, limit_bytes: u64 },
    /// Location services unavailable on the device.
    LocationUnavailable,
    /// Persistence layer error.
    StorageError { reason: String },
    /// A specific operation failed.
    OperationFailed { operation: String, detail: String },
    /// Catch-all for unexpected internal errors.
    Internal { message: String },
}

/// The error as a mathematical value: every string field by its characters.
pub enum ErrorModel {
    ConnectionFailed { reason: Seq<char> },
    AuthenticationFailed { reason: Seq<char> },
    SessionExpired,
    NotInRoom { room_id: Seq<char> },
    RoomNotFound { room_id: Seq<char> },
    DecryptionFailed { event_id: Seq<char> },
    MediaTooLarge { size_bytes: u64, limit_bytes: u64 },
    LocationUnavailable,
    StorageError { reason: Seq<char> },
    OperationFailed { operation: Seq<char>, detail: Seq<char> },
    Internal { message: Seq<char> },
}

impl View for ShadowLinkError {
    type V = ErrorModel;

    open spec fn view(&self) -> ErrorModel {
        match self {
            ShadowLinkError::ConnectionFailed { reason } => ErrorModel::ConnectionFailed { reason: reason@ },
            ShadowLinkError::AuthenticationFailed { reason } => ErrorModel::AuthenticationFailed { reason: reason@ },
            ShadowLinkError::SessionExpired => ErrorModel::SessionExpired,
            ShadowLinkError::NotInRoom { room_id } => ErrorModel::NotInRoom { room_id: room_id@ },
            ShadowLinkError::RoomNotFound { room_id } => ErrorModel::RoomNotFound { room_id: room_id@ },
            ShadowLinkError::DecryptionFailed { event_id } => ErrorModel::DecryptionFailed { event_id: event_id@ },
            ShadowLinkError::MediaTooLarge { size_bytes, limit_bytes } => ErrorModel::MediaTooLarge {
                size_bytes: *size_bytes,
                limit_bytes: *limit_bytes,
            },
            ShadowLinkError::LocationUnavailable => ErrorModel::LocationUnavailable,
            ShadowLinkError::StorageError { reason } => ErrorModel::StorageError { reason: reason@ },
            ShadowLinkError::OperationFailed { operation, detail } => ErrorModel::OperationFailed {
                operation: operation@,
                detail: detail@,
            },
            ShadowLinkError::Internal { message } => ErrorModel::Internal { message: message@ },
        }
    }
}

impl ErrorModel {
    /// The human-readable message of the error.
    pub open spec fn display(self) -> Seq<char> {
        match self {
            ErrorModel::ConnectionFailed { reason } => "connection failed: "@ + reason,
            ErrorModel::AuthenticationFailed { reason } => "authentication failed: "@ + reason,
            ErrorModel::SessionExpired => "session expired \u{2014} re-authentication required"@,
            ErrorModel::NotInRoom { room_id } => "not a member of room "@ + room_id,
            ErrorModel::RoomNotFound { room_id } => "room not found: "@ + room_id,
            ErrorModel::DecryptionFailed { event_id } => "decryption failed for event "@ + event_id,
            ErrorModel::MediaTooLarge { size_bytes, limit_bytes } => "media too large: "@ + decimal(
                size_bytes as nat,
            ) + " bytes (limit: "@ + decimal(limit_bytes as nat) + " bytes)"@,
            ErrorModel::LocationUnavailable => "location services unavailable"@,
            ErrorModel::StorageError { reason } => "storage error: "@ + reason,
            ErrorModel::OperationFailed { operation, detail } => operation + " failed: "@ + detail,
            ErrorModel::Internal { message } => "internal error: "@ + message,
        }
    }
}

/// A new string holding `prefix` followed by `rest`.
pub fn concat_strs(prefix: &str, rest: &str) -> (s: String)
    ensures
        s@ == prefix@ + rest@,
{
    let mut s = prefix.to_owned();
    s.append(rest);
    s
}

impl ShadowLinkError {
    /// The error's message text (what the error displays as).
    pub fn to_string(&self) -> (s: String)
        ensures
            s@ == self@.display(),
    {
        match self {
            ShadowLinkError::ConnectionFailed { reason } => concat_strs("connection failed: ", reason.as_str()),
            ShadowLinkError::AuthenticationFailed { reason } => concat_strs(
                "authentication failed: ",
                reason.as_str(),
            ),
            ShadowLinkError::SessionExpired => "session expired \u{2014} re-authentication required".to_owned(),
            ShadowLinkError::NotInRoom { room_id } => concat_strs("not a member of room ", room_id.as_str()),
            ShadowLinkError::RoomNotFound { room_id } => concat_strs("room not found: ", room_id.as_str()),
            ShadowLinkError::DecryptionFailed { event_id } => concat_strs(
                "decryption failed for event ",
                event_id.as_str(),
            ),
            ShadowLinkError::MediaTooLarge { size_bytes, limit_bytes } => {
                let mut s = "media too large: ".to_owned();
                push_decimal(&mut s, *size_bytes);
                s.append(" bytes (limit: ");
                push_decimal(&mut s, *limit_bytes);
                s.append(" bytes)");
                s
            },
            ShadowLinkError::LocationUnavailable => "location services unavailable".to_owned(),
            ShadowLinkError::StorageError { reason } => concat_strs("storage error: ", reason.as_str()),
            ShadowLinkError::OperationFailed { operation, detail } => {
                let mut s = concat_strs(operation.as_str(), " failed: ");
                s.append(detail.as_str());
                s
            },
            ShadowLinkError::Internal { message } => concat_strs("internal error: ", message.as_str()),
        }
    }
}

/// Every error has a non-empty message.
pub proof fn lemma_display_nonempty(e: ErrorModel)
    ensures
        e.display().len() > 0,
{
    reveal_strlit("connection failed: ");
    reveal_strlit("authentication failed: ");
    reveal_strlit("session expired \u{2014} re-authentication required");
    reveal_strlit("not a member of room ");
    reveal_strlit("room not found: ");
    reveal_strlit("decryption failed for event ");
    reveal_strlit("media too large: ");
    reveal_strlit("location services unavailable");
    reveal_strlit("storage error: ");
    reveal_strlit(" failed: ");
    reveal_strlit("internal error: ");
}

/// `needle` occurs in `hay` as a contiguous run.
pub open spec fn is_infix(needle: Seq<char>, hay: Seq<char>) -> bool {
    exists|i: int| 0 <= i <= hay.len() - needle.len() && #[trigger] hay.subrange(i, i + needle.len()) == needle
}

proof fn lemma_infix_of_concat(a: Seq<char>, b: Seq<char>, c: Seq<char>)
    ensures
        is_infix(b, a + b + c),
{
    let h = a + b + c;
    assert(h.subrange(a.len() as int, (a.len() + b.len()) as int) =~= b);
}

/// Every string that an error carries shows in its message.
pub proof fn lemma_display_shows_fields(e: ErrorModel)
    ensures
        match e {
            ErrorModel::ConnectionFailed { reason } => is_infix(reason, e.display()),
            ErrorModel::AuthenticationFailed { reason } => is_infix(reason, e.display()),
            ErrorModel::NotInRoom { room_id } => is_infix(room_id, e.display()),
            ErrorModel::RoomNotFound { room_id } => is_infix(room_id, e.display()),
            ErrorModel::DecryptionFailed { event_id } => is_infix(event_id, e.display()),
            ErrorModel::MediaTooLarge { size_bytes, limit_bytes } => is_infix(decimal(size_bytes as nat), e.display())
                && is_infix(decimal(limit_bytes as nat), e.display()),
            ErrorModel::StorageError { reason } => is_infix(reason, e.display()),
            ErrorModel::OperationFailed { operation, detail } => is_infix(operation, e.display()) && is_infix(
                detail,
                e.display(),
            ),
            ErrorModel::Internal { message } => is_infix(message, e.display()),
            _ => true,
        },
{
    let empty = Seq::<char>::empty();
    match e {
        ErrorModel::ConnectionFailed { reason } => {
            lemma_infix_of_concat("connection failed: "@, reason, empty);
            assert("connection failed: "@ + reason + empty =~= e.display());
        },
        ErrorModel::AuthenticationFailed { reason } => {
            lemma_infix_of_concat("authentication failed: "@, reason, empty);
            assert("authentication failed: "@ + reason + empty =~= e.display());
        },
        ErrorModel::NotInRoom { room_id } => {
            lemma_infix_of_concat("not a member of room "@, room_id, empty);
            assert("not a member of room "@ + room_id + empty =~= e.display());
        },
        ErrorModel::RoomNotFound { room_id } => {
            lemma_infix_of_concat("room not found: "@, room_id, empty);
            assert("room not found: "@ + room_id + empty =~= e.display());
        },
        ErrorModel::DecryptionFailed { event_id } => {
            lemma_infix_of_concat("decryption failed for event "@, event_id, empty);
            assert("decryption failed for event "@ + event_id + empty =~= e.display());
        },
        ErrorModel::MediaTooLarge { size_bytes, limit_bytes } => {
            let s = decimal(size_bytes as nat);
            let l = decimal(limit_bytes as nat);
            let rest = " bytes (limit: "@ + l + " bytes)"@;
            lemma_infix_of_concat("media too large: "@, s, rest);
            assert("media too large: "@ + s + rest =~= e.display());
            let front = "media too large: "@ + s + " bytes (limit: "@;
            lemma_infix_of_concat(front, l, " bytes)"@);
            assert(front + l + " bytes)"@ =~= e.display());
        },
        ErrorModel::StorageError { reason } => {
            lemma_infix_of_concat("storage error: "@, reason, empty);
            assert("storage error: "@ + reason + empty =~= e.display());
        },
        ErrorModel::OperationFailed { operation, detail } => {
            lemma_infix_of_concat(empty, operation, " failed: "@ + detail);
            assert(empty + operation + (" failed: "@ + detail) =~= e.display());
            lemma_infix_of_concat(operation + " failed: "@, detail, empty);
            assert(operation + " failed: "@ + detail + empty =~= e.display());
        },
        ErrorModel::Internal { message } => {
            lemma_infix_of_concat("internal error: "@, message, empty);
            assert("internal error: "@ + message + empty =~= e.display());
        },
        _ => {},
    }
}

/// The kind of a Matrix client-API error, as far as the library's
/// decisions depend on it.
#[derive(Clone, Copy, Debug, PartialEq, Eq, Structural)]
pub enum ApiErrorKind {
    Forbidden,
    UserDeactivated,
    LimitExceeded,
    UnknownToken,
    TooLarge,
    RoomInUse,
    /// A malformed parameter (such as an invalid alias).
    InvalidParam,
    /// A namespace reserved by an application service (such as an alias).
    Exclusive,
    /// Any other kind, or an error body without a standard kind.
    Other,
}

/// Where a failed homeserver request failed: with a client-API error
/// answered by the server, or before any such answer (transport, local).
#[derive(Clone, Copy, Debug, PartialEq, Eq, Structural)]
pub enum ErrorOrigin {
    Api(ApiErrorKind),
    Transport,
}

impl ShadowLinkError {
    /// `OperationFailed` for `operation` with `detail`.
    pub fn operation_failed(operation: &str, detail: &str) -> (e: Self)
        ensures
            e@ == (ErrorModel::OperationFailed { operation: operation@, detail: detail@ }),
    {
        ShadowLinkError::OperationFailed { operation: operation.to_owned(), detail: detail.to_owned() }
    }

    /// `OperationFailed` for `operation`, its detail `prefix` followed by `detail`.
    pub fn operation_failed_with(operation: &str, prefix: &str, detail: &str) -> (e: Self)
        ensures
            e@ == (ErrorModel::OperationFailed { operation: operation@, detail: prefix@ + detail@ }),
    {
        ShadowLinkError::OperationFailed {
            operation: operation.to_owned(),
            detail: concat_strs(prefix, detail),
        }
    }

    /// `RoomNotFound` for `room_id`.
    pub fn room_not_found(room_id: &str) -> (e: Self)
        ensures
            e@ == (ErrorModel::RoomNotFound { room_id: room_id@ }),
    {
        ShadowLinkError::RoomNotFound { room_id: room_id.to_owned() }
    }

    /// `NotInRoom` for `room_id`.
    pub fn not_in_room(room_id: &str) -> (e: Self)
        ensures
            e@ == (ErrorModel::NotInRoom { room_id: room_id@ }),
    {
        ShadowLinkError::NotInRoom { room_id: room_id.to_owned() }
    }

    /// `StorageError` whose reason is `prefix` followed by `detail`.
    pub fn storage_error_with(prefix: &str, detail: &str) -> (e: Self)
        ensures
            e@ == (ErrorModel::StorageError { reason: prefix@ + detail@ }),
    {
        ShadowLinkError::StorageError { reason: concat_strs(prefix, detail) }
    }

    /// `ConnectionFailed` whose reason is `prefix` followed by `detail`.
    pub fn connection_failed_with(prefix: &str, detail: &str) -> (e: Self)
        ensures
            e@ == (ErrorModel::ConnectionFailed { reason: prefix@ + detail@ }),
    {
        ShadowLinkError::ConnectionFailed { reason: concat_strs(prefix, detail) }
    }
}

/// The error of a request that writes into a room (send, invite): a
/// refusal by the server means the session is not in the room; a failure
/// before any answer is a connection failure; any other failure is reported
/// as a failure of `operation`.
pub open spec fn room_write_error_model(
    operation: Seq<char>,
    room_id: Seq<char>,
    origin: ErrorOrigin,
    detail: Seq<char>,
) -> ErrorModel {
    match origin {
        ErrorOrigin::Api(ApiErrorKind::Forbidden) => ErrorModel::NotInRoom { room_id },
        ErrorOrigin::Transport => ErrorModel::ConnectionFailed { reason: detail },
        _ => ErrorModel::OperationFailed { operation, detail },
    }
}

/// Maps the failure of a room write to the library's error.
pub fn room_write_error(operation: &str, room_id: &str, origin: ErrorOrigin, detail: &str) -> (e:
    ShadowLinkError)
    ensures
        e@ == room_write_error_model(operation@, room_id@, origin, detail@),
        e@ is ConnectionFailed <==> origin is Transport,
        origin == ErrorOrigin::Api(ApiErrorKind::Forbidden) ==> e@ == (ErrorModel::NotInRoom {
            room_id: room_id@,
        }),
        origin is Api && origin != ErrorOrigin::Api(ApiErrorKind::Forbidden) ==> e@ == (
        ErrorModel::OperationFailed { operation: operation@, detail: detail@ }),
{
    match origin {
        ErrorOrigin::Api(ApiErrorKind::Forbidden) => ShadowLinkError::not_in_room(room_id),
        ErrorOrigin::Transport => ShadowLinkError::ConnectionFailed { reason: detail.to_owned() },
        _ => ShadowLinkError::operation_failed(operation, detail),
    }
}

/// A room write fails as a connection failure exactly when no answer came
/// from the server; a refusal means the session is not in the room, and
/// every other answer of the server (rate limiting among them) fails
/// `operation` with the detail.
pub proof fn lemma_room_write_error_classes(
    operation: Seq<char>,
    room_id: Seq<char>,
    origin: ErrorOrigin,
    detail: Seq<char>,
)
    ensures
        room_write_error_model(operation, room_id, origin, detail) is ConnectionFailed <==> origin is Transport,
        origin is Transport ==> room_write_error_model(operation, room_id, origin, detail) == (
        ErrorModel::ConnectionFailed { reason: detail }),
        origin == ErrorOrigin::Api(ApiErrorKind::Forbidden) ==> room_write_error_model(
            operation,
            room_id,
            origin,
            detail,
        ) == (ErrorModel::NotInRoom { room_id }),
        forall|k: ApiErrorKind|
            k != ApiErrorKind::Forbidden ==> #[trigger] room_write_error_model(
                operation,
                room_id,
                ErrorOrigin::Api(k),
                detail,
            ) == (ErrorModel::OperationFailed { operation, detail }),
{
}

/// The error of a failed request that no answer of the server explains as
/// a refusal: a failure before any answer is a connection failure, any
/// other is a failure of `operation`.
pub fn request_error(operation: &str, origin: ErrorOrigin, detail: &str) -> (e: ShadowLinkError)
    ensures
        origin is Transport ==> e@ == (ErrorModel::ConnectionFailed { reason: detail@ }),
        origin is Api ==> e@ == (ErrorModel::OperationFailed { operation: operation@, detail: detail@ }),
{
    match origin {
        ErrorOrigin::Transport => ShadowLinkError::ConnectionFailed { reason: detail.to_owned() },
        ErrorOrigin::Api(_) => ShadowLinkError::operation_failed(operation, detail),
    }
}

/// The error of a failed leave: a refusal by the server means the session
/// is not in the room; any other failure is a failure of `leave_room`.
pub fn leave_error(room_id: &str, origin: ErrorOrigin, detail: &str) -> (e: ShadowLinkError)
    ensures
        origin == ErrorOrigin::Api(ApiErrorKind::Forbidden) ==> e@ == (ErrorModel::NotInRoom { room_id: room_id@ }),
        origin != ErrorOrigin::Api(ApiErrorKind::Forbidden) ==> e@ == (ErrorModel::OperationFailed {
            operation: "leave_room"@,
            detail: detail@,
        }),
{
    match origin {
        ErrorOrigin::Api(ApiErrorKind::Forbidden) => ShadowLinkError::not_in_room(room_id),
        _ => ShadowLinkError::operation_failed("leave_room", detail),
    }
}

} // verus!
