use vstd::prelude::*;

use cosmwasm_std::Timestamp;
use neutron_sdk::bindings::msg::NeutronMsg;
use neutron_sdk::interchain_queries::check_query_type;
use neutron_sdk::interchain_queries::types::QueryType;
use neutron_sdk::interchain_queries::v045::new_register_balance_query_msg;

use crate::contract::QueryKind;
use crate::ibc::{KvKey, KvQueryRegistration};

verus! {

/// The storage key of the bank balance of account `addr` in `denom`, as the
/// query subsystem builds it; none where it refuses the address.
pub uninterp spec fn balance_query_key(addr: Seq<char>, denom: Seq<char>) -> Option<Seq<u8>>;

/// The store that bank balances are kept in.
pub open spec fn bank_store() -> Seq<char> {
    "bank"@
}

/// Relies on neutron_sdk's `v045::new_register_balance_query_msg`. On success
/// it builds a key-value `RegisterInterchainQuery` message over
/// `connection_id` with period `update_period` and one key, in the "bank"
/// store: the balance key of `addr` in `denom`. It fails only where `addr`
/// does not decode as a bech32 address of at most 255 bytes. The message's
/// fields are handed back as plain values.
#[verifier::external_body]
pub(crate) fn register_balance_query(
    connection_id: String,
    addr: String,
    denom: String,
    update_period: u64,
) -> (r: Result<KvQueryRegistration, String>)
    ensures
        match r {
            Ok(q) => {
                &&& q.connection_id@ == connection_id@
                &&& q.update_period == update_period
                &&& q.keys@.len() == 1
                &&& q.keys@[0].path@ == bank_store()
                &&& balance_query_key(addr@, denom@) == Some(q.keys@[0].key@)
            },
            Err(_) => balance_query_key(addr@, denom@) is None,
        },
{
    match new_register_balance_query_msg(connection_id, addr, denom, update_period) {
        Ok(NeutronMsg::RegisterInterchainQuery { keys, connection_id, update_period, .. }) => {
            let keys = keys.into_iter().map(|k| KvKey { path: k.path, key: k.key.0 }).collect();
            Ok(KvQueryRegistration { connection_id, keys, update_period })
        },
        Ok(_) => Err(String::from("not a query registration")),
        Err(e) => Err(e.to_string()),
    }
}

/// Relies on neutron_sdk's `check_query_type`, which succeeds exactly when the
/// two query types are equal; here the expected type is the key-value one.
#[verifier::external_body]
pub(crate) fn is_kv_query(kind: QueryKind) -> (r: bool)
    ensures
        r == (kind is Kv),
{
    let actual = match kind {
        QueryKind::Kv => QueryType::KV,
        QueryKind::Tx => QueryType::TX,
    };
    check_query_type(actual, QueryType::KV).is_ok()
}

/// Relies on cosmwasm_std's `Timestamp::plus_seconds`, which adds whole
/// seconds to a timestamp kept in nanoseconds and panics past `u64::MAX`.
#[verifier::external_body]
pub(crate) fn plus_seconds(now_nanos: u64, seconds: u64) -> (r: u64)
    requires
        now_nanos + seconds * 1_000_000_000 <= u64::MAX,
    ensures
        r == now_nanos + seconds * 1_000_000_000,
{
    Timestamp::from_nanos(now_nanos).plus_seconds(seconds).nanos()
}

} // verus!
