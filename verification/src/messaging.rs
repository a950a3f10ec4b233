//! Messaging: the geo URI of location messages, media metadata, which
//! timeline events become messages, and how send failures are reported.

use vstd::prelude::*;
use crate::text::{chars_of, string_of};
use crate::error::{ShadowLinkError, ErrorModel, ErrorOrigin, ApiErrorKind};

verus! {

// ── geo URIs ──────────────────────────────────────────────────────────────

/// Whether `s` starts with `geo:`.
pub open spec fn has_geo_prefix(s: Seq<char>) -> bool {
    s.len() >= 4 && s[0] == 'g' && s[1] == 'e' && s[2] == 'o' && s[3] == ':'
}

/// Splits a geo URI (`geo:<lat>,<lng>`) into the text of its latitude and
/// of its longitude: the part after `geo:` is cut at its first comma.
/// `None` when the prefix or the comma is missing.
pub fn split_geo_uri(uri: &str) -> (parts: Option<(String, String)>)
    ensures
        parts is None <==> !has_geo_prefix(uri@) || !uri@.skip(4).contains(','),
        parts matches Some((lat, lng)) ==> has_geo_prefix(uri@) && !lat@.contains(',') && lat@ + seq![
            ',',
        ] + lng@ == uri@.skip(4),
{
    let v = chars_of(uri);
    let n = v.len();
    if !(n >= 4 && v[0] == 'g' && v[1] == 'e' && v[2] == 'o' && v[3] == ':') {
        return None;
    }
    let ghost rest = uri@.skip(4);
    let mut k: usize = 4;
    while k < n && v[k] != ','
        invariant
            4 <= k <= n,
            n == v@.len(),
            v@ == uri@,
            rest == uri@.skip(4),
            forall|j: int| 4 <= j < k ==> v@[j] != ',',
        decreases n - k,
    {
        k = k + 1;
    }
    if k == n {
        proof {
            assert forall|j: int| 0 <= j < rest.len() implies rest[j] != ',' by {
                assert(rest[j] == v@[j + 4]);
            }
        }
        return None;
    }
    let lat = string_of(&v, 4, k);
    let lng = string_of(&v, k + 1, n);
    proof {
        assert(rest[k - 4] == ',');
        assert forall|j: int| 0 <= j < lat@.len() implies lat@[j] != ',' by {
            assert(lat@[j] == v@[j + 4]);
        }
        assert(lat@ + seq![','] + lng@ =~= rest);
    }
    Some((lat, lng))
}

// ── Media metadata ────────────────────────────────────────────────────────

/// Metadata of a received media attachment.
#[derive(Clone, Debug)]
pub struct MediaInfo {
    pub mime_type: String,
    pub uri: String,
    pub filename: String,
    pub size_bytes: u64,
}

/// The metadata of a received attachment: a missing MIME type reads as the
/// empty string, a missing size as zero.
pub fn media_info(mime_type: Option<String>, uri: String, filename: String, size: Option<u64>) -> (m:
    MediaInfo)
    ensures
        m.mime_type@ == (match mime_type {
            Some(t) => t@,
            None => Seq::<char>::empty(),
        }),
        m.uri == uri,
        m.filename == filename,
        m.size_bytes == (match size {
            Some(n) => n,
            None => 0,
        }),
{
    let mime_type = match mime_type {
        Some(t) => t,
        None => String::new(),
    };
    let size_bytes = match size {
        Some(n) => n,
        None => 0,
    };
    MediaInfo { mime_type, uri, filename, size_bytes }
}

// ── Timeline events ───────────────────────────────────────────────────────

/// What a timeline event turned out to be once deserialized.
#[derive(Clone, Copy, Debug, PartialEq, Eq, Structural)]
pub enum TimelineKind {
    /// An encrypted room event.
    Encrypted,
    /// A room message.
    RoomMessage,
    /// Another message-like event.
    OtherMessageLike,
    /// A state or other non-message-like event.
    OtherEvent,
    /// The event could not be deserialized.
    Undecodable,
}

/// What to do with a timeline event.
#[derive(Clone, Copy, Debug, PartialEq, Eq, Structural)]
pub enum TimelineAction {
    /// Decrypt it, then extract a message from the decrypted event.
    Decrypt,
    /// Extract a message from it (only original room messages yield one).
    Extract,
    /// Skip it.
    Skip,
}

/// How the sync loop treats a timeline event.
pub fn timeline_action(kind: TimelineKind) -> (a: TimelineAction)
    ensures
        a == (match kind {
            TimelineKind::Encrypted => TimelineAction::Decrypt,
            TimelineKind::Undecodable => TimelineAction::Skip,
            _ => TimelineAction::Extract,
        }),
{
    match kind {
        TimelineKind::Encrypted => TimelineAction::Decrypt,
        TimelineKind::Undecodable => TimelineAction::Skip,
        _ => TimelineAction::Extract,
    }
}

// ── Sending media ─────────────────────────────────────────────────────────

pub open spec fn media_send_error_model(
    room_id: Seq<char>,
    size_bytes: u64,
    limit_bytes: u64,
    origin: ErrorOrigin,
    detail: Seq<char>,
) -> ErrorModel {
    match origin {
        ErrorOrigin::Api(ApiErrorKind::Forbidden) => ErrorModel::NotInRoom { room_id },
        ErrorOrigin::Api(ApiErrorKind::TooLarge) => ErrorModel::MediaTooLarge { size_bytes, limit_bytes },
        ErrorOrigin::Transport => ErrorModel::ConnectionFailed { reason: detail },
        _ => ErrorModel::OperationFailed { operation: "send_media"@, detail },
    }
}

/// A media upload is reported too large exactly when the homeserver said
/// so, with the attachment's size and the limit as given; every other
/// answer of the server but a refusal (rate limiting among them) fails
/// `send_media` with the detail.
pub proof fn lemma_media_send_error_classes(
    room_id: Seq<char>,
    size_bytes: u64,
    limit_bytes: u64,
    origin: ErrorOrigin,
    detail: Seq<char>,
)
    ensures
        media_send_error_model(room_id, size_bytes, limit_bytes, origin, detail) is MediaTooLarge
            <==> origin == ErrorOrigin::Api(ApiErrorKind::TooLarge),
        origin == ErrorOrigin::Api(ApiErrorKind::TooLarge) ==> media_send_error_model(
            room_id,
            size_bytes,
            limit_bytes,
            origin,
            detail,
        ) == (ErrorModel::MediaTooLarge { size_bytes, limit_bytes }),
        forall|k: ApiErrorKind|
            k != ApiErrorKind::Forbidden && k != ApiErrorKind::TooLarge ==> #[trigger] media_send_error_model(
                room_id,
                size_bytes,
                limit_bytes,
                ErrorOrigin::Api(k),
                detail,
            ) == (ErrorModel::OperationFailed { operation: "send_media"@, detail }),
{
}

/// The error of a failed media upload: refused means not in the room; too
/// large is reported with the attachment's size and the homeserver's upload
/// limit (`limit_bytes`, 0 when the server did not report one); a failure
/// before any answer is a connection failure.
pub fn media_send_error(
    room_id: &str,
    size_bytes: u64,
    limit_bytes: u64,
    origin: ErrorOrigin,
    detail: &str,
) -> (e: ShadowLinkError)
    ensures
        e@ == media_send_error_model(room_id@, size_bytes, limit_bytes, origin, detail@),
        e@ is MediaTooLarge <==> origin == ErrorOrigin::Api(ApiErrorKind::TooLarge),
        origin == ErrorOrigin::Api(ApiErrorKind::TooLarge) ==> e@ == (ErrorModel::MediaTooLarge {
            size_bytes,
            limit_bytes,
        }),
        origin is Api && origin != ErrorOrigin::Api(ApiErrorKind::Forbidden) && origin
            != ErrorOrigin::Api(ApiErrorKind::TooLarge) ==> e@ == (ErrorModel::OperationFailed {
            operation: "send_media"@,
            detail: detail@,
        }),
{
    match origin {
        ErrorOrigin::Api(ApiErrorKind::Forbidden) => ShadowLinkError::not_in_room(room_id),
        ErrorOrigin::Api(ApiErrorKind::TooLarge) => ShadowLinkError::MediaTooLarge { size_bytes, limit_bytes },
        ErrorOrigin::Transport => ShadowLinkError::ConnectionFailed { reason: detail.to_owned() },
        _ => ShadowLinkError::operation_failed("send_media", detail),
    }
}

} // verus!

verus! {

// ── MIME types ────────────────────────────────────────────────────────────

#[verifier::external_type_specification]
#[verifier::external_body]
pub struct ExMime(mime::Mime);

/// What the `mime` crate's parser returns for `s`.
pub uninterp spec fn mime_parse(s: Seq<char>) -> Option<mime::Mime>;

/// Parses a MIME type with the `mime` crate (`Mime::from_str`).
///
/// Trusted. The crate's parser (mime 0.3, `parse::parse`) accepts a type
/// token, a `/`, a subtype token and optional parameters; the contract names
/// the outcome and states that an accepted string holds a `/`. The token
/// and parameter grammar is left unsaid; the parsed value is named by
/// `mime_parse`.
#[verifier::external_body]
fn parse_mime(s: &str) -> (m: Option<mime::Mime>)
    ensures
        m == mime_parse(s@),
        m is Some ==> s@.contains('/'),
{
    <mime::Mime as std::str::FromStr>::from_str(s).ok()
}

/// The outcome of checking the MIME type of an upload, given what the
/// parser returned.
pub fn mime_outcome(mime_type: &str, parsed: Option<mime::Mime>) -> (res: Result<mime::Mime, ShadowLinkError>)
    ensures
        match parsed {
            Some(m) => res == Ok::<mime::Mime, ShadowLinkError>(m),
            None => res matches Err(e) && e@ == (ErrorModel::OperationFailed {
                operation: "send_media"@,
                detail: "Invalid MIME type: "@ + mime_type@,
            }),
        },
{
    match parsed {
        Some(m) => Ok(m),
        None => Err(ShadowLinkError::operation_failed_with("send_media", "Invalid MIME type: ", mime_type)),
    }
}

/// Parses the MIME type of an upload; one the `mime` crate refuses fails
/// the upload.
pub fn lookup_mime(mime_type: &str) -> (res: Result<mime::Mime, ShadowLinkError>)
    ensures
        res is Ok <==> mime_parse(mime_type@) is Some,
        res matches Ok(m) ==> mime_parse(mime_type@) == Some(m),
        res is Ok ==> mime_type@.contains('/'),
        res matches Err(e) ==> e@ == (ErrorModel::OperationFailed {
            operation: "send_media"@,
            detail: "Invalid MIME type: "@ + mime_type@,
        }),
{
    mime_outcome(mime_type, parse_mime(mime_type))
}

} // verus!
