//! The operation surface of the registry: the request messages the
//! dispatcher routes and the shapes it answers with.

use vstd::prelude::*;

use crate::state::Property;

verus! {

/// The bootstrap request. The seed is recorded by the surrounding
/// environment for reporting; the offer counter itself always starts at
/// zero so that identifiers stay contiguous with the ledger.
#[derive(Clone, Copy, Debug, PartialEq, Eq, Structural)]
pub struct InstantiateMsg {
    pub count: i32,
}

/// A state-mutating request, routed by [`crate::contract::execute`].
#[derive(Clone, Debug, PartialEq)]
pub enum ExecuteMsg {
    /// A liveness check; leaves the registry unchanged.
    Increment {},
    /// Ask the administrator to approve `address` as a broker.
    MakeBroker { address: String },
    /// Ask a broker to record a new offer.
    MakeOffer { property: Property },
    /// Ask the administrator to hand the slot to `address`.
    UpdateAdmin { address: String },
}

/// A read-only request, routed by [`crate::contract::query`].
#[derive(Clone, Copy, Debug, PartialEq, Eq, Structural)]
pub enum QueryMsg {
    /// Fetch the offer stored under `id`.
    GetOffer { id: i32 },
}

/// The answer to a successful [`QueryMsg::GetOffer`].
#[derive(Clone, Debug, PartialEq)]
pub struct PropertyResponse {
    pub property: Property,
}

/// The observable event a successful mutating operation reports, carrying
/// what the operation decided: which identity became a broker, which
/// identifier a new offer received, who holds the administrator slot now.
#[derive(Clone, Debug, PartialEq)]
pub enum ExecEvent {
    /// The liveness check was acknowledged.
    Incremented {},
    /// `broker` was appended to the broker set.
    BrokerAdded { broker: String },
    /// A new offer was stored under `id`.
    OfferCreated { id: i32 },
    /// The administrator slot now holds `admin`.
    AdminUpdated { admin: Option<String> },
}

} // verus!
