use vstd::prelude::*;

verus! {

/// Parameters of instantiation; the instantiating account becomes the admin.
#[derive(Clone, Debug, PartialEq, Eq)]
pub struct InstantiateMsg {}

/// Administrative operations.
#[derive(Clone, Debug, PartialEq, Eq)]
pub enum ExecuteMsg {
    /// Routes queries for `chain_id` (or, without one, the default route)
    /// over `connection_id`.
    RegisterInterchainQueryChannel { chain_id: Option<String>, connection_id: String },
    /// Removes the route for `chain_id` (or the default route).
    UnregisterInterchainQueryChannel { chain_id: Option<String> },
    /// Asks the query subsystem to remove a query, and stops delivering its results.
    RemoveInterchainQuery { query_id: u64 },
}

/// Read-only queries.
#[derive(Clone, Debug, PartialEq, Eq)]
pub enum QueryMsg {
    /// The current balance snapshot of a registered query.
    Balance { query_id: u64 },
}

/// Parameters of migration.
#[derive(Clone, Debug, PartialEq, Eq)]
pub struct MigrateMsg {}

/// The request carried by an inbound packet: the balance of `denom` held by
/// `addr` on the chain `chain_id` (or on the default route's chain).
#[derive(Clone, Debug, PartialEq, Eq)]
pub struct IbcRegisterBalanceQuery {
    pub chain_id: Option<String>,
    pub addr: String,
    pub denom: String,
}

/// The query subsystem's answer to a registration: the new query's identifier.
#[derive(Clone, Debug, PartialEq, Eq)]
pub struct MsgRegisterInterchainQueryResponse {
    pub id: u64,
}

} // verus!
