//! Monetization: entitlements and SKUs.

use vstd::prelude::*;
use crate::snowflake::Snowflake;

verus! {

/// A user's or guild's access to a premium offering.
#[derive(Debug, Clone)]
pub struct Entitlement {
    /// The entitlement's unique ID.
    pub id: Snowflake,
    /// ID of the SKU.
    pub sku_id: Snowflake,
    /// ID of the application the entitlement belongs to.
    pub application_id: Snowflake,
    /// ID of the user that is granted access to the entitlement's SKU.
    pub user_id: Option<Snowflake>,
    /// Type of entitlement (see `EntitlementType`).
    pub kind: u8,
    /// Whether the entitlement has been deleted.
    pub deleted: bool,
    /// Start date at which the entitlement is valid (ISO 8601).
    pub starts_at: Option<String>,
    /// Date at which the entitlement is no longer valid (ISO 8601).
    pub ends_at: Option<String>,
    /// ID of the guild that is granted access to the entitlement's SKU.
    pub guild_id: Option<Snowflake>,
    /// Whether the entitlement was consumed. Only applies to consumable items.
    pub consumed: Option<bool>,
}

/// Entitlement type codes.
pub struct EntitlementType;

impl EntitlementType {
    /// An entitlement bought through an application subscription.
    pub const APPLICATION_SUBSCRIPTION: u8 = 8;
}

/// A premium offering.
#[derive(Debug, Clone)]
pub struct Sku {
    /// The SKU's unique ID.
    pub id: Snowflake,
    /// Type of SKU (5 = SUBSCRIPTION, 6 = SUBSCRIPTION_GROUP).
    pub kind: u8,
    /// ID of the parent application.
    pub application_id: Snowflake,
    /// Customer-facing name of the premium offering.
    pub name: String,
    /// System-generated URL slug.
    pub slug: String,
    /// SKU flags as a bitfield.
    pub flags: u64,
}

} // verus!
