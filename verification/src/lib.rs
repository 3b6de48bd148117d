//! The lifecycle of paid access entitlements: registration and extension,
//! the expiry sweeps, auto-renewal with its cooldown and its circuit
//! breaker, the referral forest, the promo-code ledger and the temporary
//! lifting of device limits. The library decides and keeps the books; the
//! caller talks to the database and to the provisioning service.

pub mod decimal;
pub mod entitlement;
pub mod error;
pub mod extension;
pub mod limit_override;
pub mod models;
pub mod plan;
pub mod promo;
pub mod provisioning;
pub mod referral;
pub mod registration;
pub mod registry;
pub mod renewal;
pub mod sweeper;
pub mod traffic;
