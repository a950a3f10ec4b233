//! Session lifecycle: where the session is stored, how connection and
//! restore failures are reported, and the decisions of the session's
//! control state (sync loop, shutdown, debug room).

use vstd::prelude::*;
use crate::text::last_char;
use crate::error::{ShadowLinkError, ErrorModel, ErrorOrigin, ApiErrorKind, concat_strs};

verus! {

// ── Where the session lives on disk ───────────────────────────────────────

/// Directory, under the working directory, that holds the session store.
pub const STORE_DIR_NAME: &'static str = "shadowlink_data";

/// File, in the store directory, that holds the persisted session.
pub const SESSION_FILE_NAME: &'static str = "session.json";

/// Directory, in the store directory, of the SDK's SQLite state store.
pub const SQLITE_DIR_NAME: &'static str = "store";

/// Passphrase of the SQLite state store (development default).
pub const STORE_PASSPHRASE: &'static str = "shadowlink-dev-passphrase";

/// `component` appended to the path `base` (Unix separators): nothing is
/// put between them when `base` is empty or already ends with `/`.
pub open spec fn join_path(base: Seq<char>, component: Seq<char>) -> Seq<char> {
    if base.len() == 0 {
        component
    } else if base.last() == '/' {
        base + component
    } else {
        base + seq!['/'] + component
    }
}

/// Appends the relative path `component` to `base`.
fn push_path(base: &str, component: &str) -> (p: String)
    ensures
        p@ == join_path(base@, component@),
{
    match last_char(base) {
        None => component.to_owned(),
        Some(c) => {
            if c == '/' {
                concat_strs(base, component)
            } else {
                let mut p = concat_strs(base, "/");
                p.append(component);
                proof {
                    reveal_strlit("/");
                }
                p
            }
        },
    }
}

pub open spec fn store_path_spec(cwd: Seq<char>) -> Seq<char> {
    join_path(cwd, STORE_DIR_NAME@)
}

pub open spec fn session_file_path_spec(cwd: Seq<char>) -> Seq<char> {
    join_path(store_path_spec(cwd), SESSION_FILE_NAME@)
}

pub open spec fn sqlite_store_path_spec(cwd: Seq<char>) -> Seq<char> {
    join_path(store_path_spec(cwd), SQLITE_DIR_NAME@)
}

/// The session store directory, relative to the working directory `cwd`
/// (the empty string when the working directory is unknown).
pub fn store_path(cwd: &str) -> (p: String)
    ensures
        p@ == store_path_spec(cwd@),
{
    push_path(cwd, STORE_DIR_NAME)
}

/// The persisted session file.
pub fn session_file_path(cwd: &str) -> (p: String)
    ensures
        p@ == session_file_path_spec(cwd@),
{
    let dir = store_path(cwd);
    push_path(dir.as_str(), SESSION_FILE_NAME)
}

/// The SDK's SQLite state store directory.
pub fn sqlite_store_path(cwd: &str) -> (p: String)
    ensures
        p@ == sqlite_store_path_spec(cwd@),
{
    let dir = store_path(cwd);
    push_path(dir.as_str(), SQLITE_DIR_NAME)
}

/// The session file and the SQLite store are two different entries of the
/// store directory, whatever the working directory.
pub proof fn lemma_store_layout(cwd: Seq<char>)
    ensures
        session_file_path_spec(cwd) == store_path_spec(cwd) + seq!['/'] + SESSION_FILE_NAME@,
        sqlite_store_path_spec(cwd) == store_path_spec(cwd) + seq!['/'] + SQLITE_DIR_NAME@,
        session_file_path_spec(cwd) != sqlite_store_path_spec(cwd),
{
    reveal_strlit("shadowlink_data");
    reveal_strlit("session.json");
    reveal_strlit("store");
    let d = store_path_spec(cwd);
    assert(d.len() > 0);
    assert(d.last() == 'a');
    assert(session_file_path_spec(cwd).len() != sqlite_store_path_spec(cwd).len());
}

// ── Connection and restore failures ───────────────────────────────────────

/// How a session is being started.
#[derive(Clone, Copy, Debug, PartialEq, Eq, Structural)]
pub enum StartMode {
    /// Username/password login.
    Login,
    /// Restore of a persisted session.
    Restore,
}

/// The error when the SDK client cannot be built.
pub fn client_build_error(mode: StartMode, detail: &str) -> (e: ShadowLinkError)
    ensures
        mode == StartMode::Login ==> e@ == (ErrorModel::ConnectionFailed {
            reason: "Failed to build client: "@ + detail@,
        }),
        mode == StartMode::Restore ==> e@ == (ErrorModel::StorageError {
            reason: "Failed to open SQLite store: "@ + detail@,
        }),
{
    match mode {
        StartMode::Login => ShadowLinkError::connection_failed_with("Failed to build client: ", detail),
        StartMode::Restore => ShadowLinkError::storage_error_with("Failed to open SQLite store: ", detail),
    }
}

/// The answers of the homeserver that refuse a login as such: rejected
/// credentials, a deactivated account, or rate limiting.
pub open spec fn is_credential_refusal(origin: ErrorOrigin) -> bool {
    origin == ErrorOrigin::Api(ApiErrorKind::Forbidden) || origin == ErrorOrigin::Api(
        ApiErrorKind::UserDeactivated,
    ) || origin == ErrorOrigin::Api(ApiErrorKind::LimitExceeded)
}

pub open spec fn login_error_model(origin: ErrorOrigin, detail: Seq<char>) -> ErrorModel {
    match origin {
        ErrorOrigin::Api(ApiErrorKind::Forbidden) | ErrorOrigin::Api(ApiErrorKind::UserDeactivated) => ErrorModel::AuthenticationFailed {
            reason: "Invalid credentials"@,
        },
        ErrorOrigin::Api(ApiErrorKind::LimitExceeded) => ErrorModel::AuthenticationFailed {
            reason: "Rate limited \u{2014} try again later"@,
        },
        _ => ErrorModel::ConnectionFailed { reason: "Login failed: "@ + detail },
    }
}

/// The error of a failed login: rejected or deactivated credentials and
/// rate limiting are authentication failures (the password never appears
/// in the message); anything else is a connection failure.
pub fn login_error(origin: ErrorOrigin, detail: &str) -> (e: ShadowLinkError)
    ensures
        e@ == login_error_model(origin, detail@),
        e@ is AuthenticationFailed <==> is_credential_refusal(origin),
        !is_credential_refusal(origin) ==> e@ == (ErrorModel::ConnectionFailed {
            reason: "Login failed: "@ + detail@,
        }),
{
    match origin {
        ErrorOrigin::Api(ApiErrorKind::Forbidden) | ErrorOrigin::Api(ApiErrorKind::UserDeactivated) => {
            ShadowLinkError::AuthenticationFailed { reason: "Invalid credentials".to_owned() }
        },
        ErrorOrigin::Api(ApiErrorKind::LimitExceeded) => ShadowLinkError::AuthenticationFailed {
            reason: "Rate limited \u{2014} try again later".to_owned(),
        },
        _ => ShadowLinkError::connection_failed_with("Login failed: ", detail),
    }
}

/// A login fails as an authentication failure exactly when the homeserver
/// refused the credentials, found the account deactivated, or rate-limited
/// the login; every other failure, whatever the server answered, is a
/// connection failure whose reason is `Login failed: ` followed by the
/// detail.
pub proof fn lemma_login_error_classes(origin: ErrorOrigin, detail: Seq<char>)
    ensures
        login_error_model(origin, detail) is AuthenticationFailed <==> is_credential_refusal(origin),
        !is_credential_refusal(origin) ==> login_error_model(origin, detail) == (
        ErrorModel::ConnectionFailed { reason: "Login failed: "@ + detail }),
{
}

/// The error of a failed session restore: an unknown (expired) token means
/// the session expired; anything else is a storage error.
pub fn restore_error(origin: ErrorOrigin, detail: &str) -> (e: ShadowLinkError)
    ensures
        origin == ErrorOrigin::Api(ApiErrorKind::UnknownToken) ==> e@ == ErrorModel::SessionExpired,
        origin != ErrorOrigin::Api(ApiErrorKind::UnknownToken) ==> e@ == (ErrorModel::StorageError {
            reason: "Failed to restore session: "@ + detail@,
        }),
{
    match origin {
        ErrorOrigin::Api(ApiErrorKind::UnknownToken) => ShadowLinkError::SessionExpired,
        _ => ShadowLinkError::storage_error_with("Failed to restore session: ", detail),
    }
}

/// A step of saving or loading the persisted session.
#[derive(Clone, Copy, Debug, PartialEq, Eq, Structural)]
pub enum StoreStep {
    CreateDir,
    Serialize,
    Write,
    Read,
    Parse,
}

pub open spec fn store_step_prefix(step: StoreStep) -> Seq<char> {
    match step {
        StoreStep::CreateDir => "Failed to create store directory: "@,
        StoreStep::Serialize => "Failed to serialize session: "@,
        StoreStep::Write => "Failed to write session file: "@,
        StoreStep::Read => "Failed to read session file: "@,
        StoreStep::Parse => "Failed to parse session file: "@,
    }
}

/// The storage error of a failed step of saving or loading the session.
pub fn store_error(step: StoreStep, detail: &str) -> (e: ShadowLinkError)
    ensures
        e@ == (ErrorModel::StorageError { reason: store_step_prefix(step) + detail@ }),
{
    let prefix = match step {
        StoreStep::CreateDir => "Failed to create store directory: ",
        StoreStep::Serialize => "Failed to serialize session: ",
        StoreStep::Write => "Failed to write session file: ",
        StoreStep::Read => "Failed to read session file: ",
        StoreStep::Parse => "Failed to parse session file: ",
    };
    ShadowLinkError::storage_error_with(prefix, detail)
}

/// The storage error when no session was ever persisted.
pub fn missing_session_error() -> (e: ShadowLinkError)
    ensures
        e@ == (ErrorModel::StorageError { reason: "No persisted session found. Please connect first."@ }),
{
    ShadowLinkError::StorageError { reason: "No persisted session found. Please connect first.".to_owned() }
}

} // verus!

verus! {

// ── Session control state ─────────────────────────────────────────────────

/// The control state of a session: whether its sync loop runs and whether
/// a live-location broadcast runs.
#[derive(Clone, Copy, Debug, PartialEq, Eq, Structural)]
pub struct SessionControl {
    pub sync_running: bool,
    pub live_location_running: bool,
}

impl SessionControl {
    /// A session whose sync loop and live location are not running yet.
    pub fn new() -> (c: Self)
        ensures
            !c.sync_running,
            !c.live_location_running,
    {
        SessionControl { sync_running: false, live_location_running: false }
    }

    /// Records that the sync loop was started.
    pub fn sync_started(&mut self)
        ensures
            final(self).sync_running,
            final(self).live_location_running == old(self).live_location_running,
    {
        self.sync_running = true;
    }

    /// Begins shutting the session down. Returns whether there is a sync
    /// loop to stop and a logout to perform; on a session already shut down
    /// nothing is to be done.
    pub fn begin_disconnect(&mut self) -> (stop: bool)
        ensures
            stop == old(self).sync_running,
            *final(self) == after_disconnect(*old(self)),
    {
        let stop = self.sync_running;
        self.sync_running = false;
        stop
    }
}

/// The control state once shutdown has begun.
pub open spec fn after_disconnect(c: SessionControl) -> SessionControl {
    SessionControl { sync_running: false, live_location_running: c.live_location_running }
}

/// Shutting a session down twice: the second call finds nothing to stop
/// and changes nothing.
pub proof fn lemma_disconnect_idempotent(c: SessionControl)
    ensures
        !after_disconnect(c).sync_running,
        after_disconnect(after_disconnect(c)) == after_disconnect(c),
{
}

// ── Sync loop decisions ───────────────────────────────────────────────────

/// Seconds to wait after a failed sync before the next one.
pub const SYNC_RETRY_DELAY_SECS: u64 = 5;

/// What one round of the sync loop came back with.
#[derive(Clone, Copy, Debug, PartialEq, Eq, Structural)]
pub enum SyncOutcome {
    /// The session was told to stop.
    Cancelled,
    /// A sync response arrived, holding this many new messages in total;
    /// `has_callback` tells whether a message callback is registered.
    Synced { message_count: usize, has_callback: bool },
    /// The sync request failed.
    Failed,
}

/// What the sync loop does next.
#[derive(Clone, Copy, Debug, PartialEq, Eq, Structural)]
pub enum SyncAction {
    /// Leave the loop.
    Stop,
    /// Hand every new message to the callback, then sync again.
    Deliver,
    /// Sync again.
    Continue,
    /// Wait this many seconds, then sync again.
    Backoff(u64),
}

/// The decision of the sync loop after one round.
pub fn next_sync_action(outcome: SyncOutcome) -> (a: SyncAction)
    ensures
        a == (match outcome {
            SyncOutcome::Cancelled => SyncAction::Stop,
            SyncOutcome::Synced { message_count, has_callback } => if message_count > 0 && has_callback {
                SyncAction::Deliver
            } else {
                SyncAction::Continue
            },
            SyncOutcome::Failed => SyncAction::Backoff(SYNC_RETRY_DELAY_SECS),
        }),
{
    match outcome {
        SyncOutcome::Cancelled => SyncAction::Stop,
        SyncOutcome::Synced { message_count, has_callback } => {
            if message_count > 0 && has_callback {
                SyncAction::Deliver
            } else {
                SyncAction::Continue
            }
        },
        SyncOutcome::Failed => SyncAction::Backoff(SYNC_RETRY_DELAY_SECS),
    }
}

// ── Diagnostic debug room ─────────────────────────────────────────────────

/// Name of the diagnostic room.
pub const DEBUG_ROOM_NAME: &'static str = "ShadowLink Debug";

/// The session-scoped state of the diagnostic debug room.
pub struct DebugRoomState {
    /// The debug room, once created in this session.
    pub room_id: Option<String>,
    /// Whether diagnostic events are emitted.
    pub enabled: bool,
}

impl DebugRoomState {
    /// No debug room yet, emission off.
    pub fn new() -> (s: Self)
        ensures
            s.room_id is None,
            !s.enabled,
    {
        DebugRoomState { room_id: None, enabled: false }
    }

    /// Turns emission on or off. Returns whether the debug room must be
    /// created first: only when turning on and no debug room exists yet.
    /// Turning off keeps the room.
    pub fn toggle(&mut self, enabled: bool) -> (create: bool)
        ensures
            create == (enabled && old(self).room_id is None),
            final(self).enabled == enabled,
            final(self).room_id == old(self).room_id,
    {
        self.enabled = enabled;
        enabled && self.room_id.is_none()
    }

    /// Records the debug room that was just created.
    pub fn room_created(&mut self, room_id: String)
        ensures
            final(self).room_id == Some(room_id),
            final(self).enabled == old(self).enabled,
    {
        self.room_id = Some(room_id);
    }

    /// Records that creating the debug room failed: emission stays off.
    pub fn creation_failed(&mut self, detail: &str) -> (e: ShadowLinkError)
        ensures
            !final(self).enabled,
            final(self).room_id == old(self).room_id,
            e@ == (ErrorModel::OperationFailed { operation: "enable_debug_room"@, detail: detail@ }),
    {
        self.enabled = false;
        ShadowLinkError::operation_failed("enable_debug_room", detail)
    }
}

} // verus!
