//! ShadowLink core: the verified decision logic of a privacy-first Matrix
//! client (errors, room bookkeeping, alias derivation, session lifecycle,
//! message and location helpers, device trust).

pub mod text;
pub mod error;
pub mod rooms;
pub mod ids;
pub mod client;
pub mod location;
pub mod messaging;
pub mod encryption;
