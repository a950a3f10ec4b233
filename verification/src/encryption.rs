//! End-to-end encryption: device trust, cross-signing status and device
//! lookups.

use vstd::prelude::*;
use crate::error::{ShadowLinkError, ErrorModel};

verus! {

/// E2EE trust state of a device.
#[derive(Clone, Copy, Debug, PartialEq, Eq, Structural)]
pub enum DeviceTrust {
    /// Device has been explicitly verified by the user.
    Verified,
    /// Device is not trusted.
    Unverified,
    /// Device is explicitly blocked.
    Blocked,
    /// Device has been ignored (e.g., a previously unknown device).
    Ignored,
    /// Trust state is unknown (e.g., device not found).
    Unknown,
}

/// The local trust that the crypto store records for a device.
#[derive(Clone, Copy, Debug, PartialEq, Eq, Structural)]
pub enum LocalTrustState {
    Verified,
    BlackListed,
    Ignored,
    Unset,
}

/// The device trust that a local trust state stands for.
pub open spec fn device_trust_of(trust: LocalTrustState) -> DeviceTrust {
    match trust {
        LocalTrustState::Verified => DeviceTrust::Verified,
        LocalTrustState::BlackListed => DeviceTrust::Blocked,
        LocalTrustState::Unset => DeviceTrust::Unverified,
        LocalTrustState::Ignored => DeviceTrust::Ignored,
    }
}

/// Converts the crypto store's local trust into the library's device trust.
pub fn local_trust_to_device_trust(trust: LocalTrustState) -> (t: DeviceTrust)
    ensures
        t == device_trust_of(trust),
{
    match trust {
        LocalTrustState::Verified => DeviceTrust::Verified,
        LocalTrustState::BlackListed => DeviceTrust::Blocked,
        LocalTrustState::Unset => DeviceTrust::Unverified,
        LocalTrustState::Ignored => DeviceTrust::Ignored,
    }
}

/// Distinct local trust states give distinct device trusts, and none of
/// them is `Unknown`.
pub proof fn lemma_device_trust_injective(a: LocalTrustState, b: LocalTrustState)
    ensures
        device_trust_of(a) == device_trust_of(b) ==> a == b,
        device_trust_of(a) != DeviceTrust::Unknown,
{
}

/// Summary of the user's cross-signing status.
#[derive(Clone, Copy, Debug, PartialEq, Eq, Structural)]
pub struct CrossSigningStatus {
    /// Whether the user has cross-signing set up on their master key.
    pub has_master: bool,
    /// Whether the user has a self-signing key.
    pub has_self_signing: bool,
    /// Whether the user has a user-signing key.
    pub has_user_signing: bool,
}

/// The cross-signing status to report: the store's status when it has one,
/// otherwise no key at all.
pub fn cross_signing_summary(status: Option<CrossSigningStatus>) -> (s: CrossSigningStatus)
    ensures
        s == (match status {
            Some(st) => st,
            None => CrossSigningStatus { has_master: false, has_self_signing: false, has_user_signing: false },
        }),
{
    match status {
        Some(st) => st,
        None => CrossSigningStatus { has_master: false, has_self_signing: false, has_user_signing: false },
    }
}

/// A snapshot of a device and its trust state.
#[derive(Clone, Debug)]
pub struct DeviceInfo {
    pub user_id: String,
    pub device_id: String,
    pub display_name: Option<String>,
    pub trust: DeviceTrust,
}

/// Which device was looked up.
#[derive(Clone, Copy, Debug, PartialEq, Eq, Structural)]
pub enum DeviceQuery {
    /// A given device of a given user.
    Device,
    /// The session's own device.
    OwnDevice,
}

pub open spec fn device_query_operation(q: DeviceQuery) -> Seq<char> {
    match q {
        DeviceQuery::Device => "get_device"@,
        DeviceQuery::OwnDevice => "get_own_device"@,
    }
}

pub open spec fn device_missing_detail(q: DeviceQuery) -> Seq<char> {
    match q {
        DeviceQuery::Device => "Device not found"@,
        DeviceQuery::OwnDevice => "Own device not found"@,
    }
}

/// The outcome of a device lookup: a device the store does not know fails
/// the lookup.
pub fn device_lookup(query: DeviceQuery, found: Option<DeviceInfo>) -> (res: Result<DeviceInfo, ShadowLinkError>)
    ensures
        match found {
            Some(d) => res == Ok::<DeviceInfo, ShadowLinkError>(d),
            None => res matches Err(e) && e@ == (ErrorModel::OperationFailed {
                operation: device_query_operation(query),
                detail: device_missing_detail(query),
            }),
        },
{
    match found {
        Some(d) => Ok(d),
        None => match query {
            DeviceQuery::Device => Err(ShadowLinkError::operation_failed("get_device", "Device not found")),
            DeviceQuery::OwnDevice => Err(
                ShadowLinkError::operation_failed("get_own_device", "Own device not found"),
            ),
        },
    }
}

} // verus!
