use vstd::prelude::*;

use crate::error::ContractError;
use crate::msg::ExecuteMsg;
use crate::sdk::{is_kv_query, plus_seconds};
use crate::state::{chain_key, ContractState};

verus! {

/// How long, in seconds, an outbound result packet may take to be delivered.
pub const PACKET_TIMEOUT_SECONDS: u64 = 120;

/// The delivery deadline, in nanoseconds, of a packet sent at `now_nanos`.
pub open spec fn packet_deadline(now_nanos: u64) -> int {
    now_nanos + PACKET_TIMEOUT_SECONDS * 1_000_000_000
}

/// A request to the query subsystem to remove the query `query_id`.
#[derive(Clone, Copy, Debug, PartialEq, Eq)]
pub struct QueryRemoval {
    pub query_id: u64,
}

/// The kind of a registered interchain query.
#[derive(Clone, Copy, Debug, PartialEq, Eq)]
pub enum QueryKind {
    /// Reads key-value pairs of the remote chain's state.
    Kv,
    /// Searches the remote chain's transactions.
    Tx,
}

/// A packet to send: `data` on channel `channel_id`, to be delivered before
/// `timeout_nanos`.
#[derive(Clone, Debug, PartialEq, Eq)]
pub struct OutboundPacket {
    pub channel_id: String,
    pub data: Vec<u8>,
    pub timeout_nanos: u64,
}

impl ContractState {
    /// Handles an administrative operation sent by `sender`. Only the admin may
    /// send one. Routes are set and removed here; removing a query hands back
    /// the request that asks the query subsystem to remove it, and stops the
    /// delivery of its results.
    pub fn execute(&mut self, sender: &String, msg: ExecuteMsg) -> (r: Result<
        Option<QueryRemoval>,
        ContractError,
    >)
        requires
            old(self).wf(),
        ensures
            final(self).wf(),
            sender@ != old(self)@.admin ==> r == Err::<Option<QueryRemoval>, ContractError>(
                ContractError::Unauthorized {  },
            ) && final(self)@ == old(self)@,
            sender@ == old(self)@.admin ==> match msg {
                ExecuteMsg::RegisterInterchainQueryChannel { chain_id, connection_id } => r == Ok::<
                    Option<QueryRemoval>,
                    ContractError,
                >(None) && final(self)@ == old(self)@.with_route(
                    chain_key(chain_id),
                    connection_id@,
                ),
                ExecuteMsg::UnregisterInterchainQueryChannel { chain_id } => r == Ok::<
                    Option<QueryRemoval>,
                    ContractError,
                >(None) && final(self)@ == old(self)@.without_route(chain_key(chain_id)),
                ExecuteMsg::RemoveInterchainQuery { query_id } => r == Ok::<
                    Option<QueryRemoval>,
                    ContractError,
                >(Some((QueryRemoval { query_id }))) && final(self)@ == old(self)@.without_query(
                    query_id,
                ),
            },
    {
        if !(*sender == self.admin) {
            return Err(ContractError::Unauthorized {  });
        }
        match msg {
            ExecuteMsg::RegisterInterchainQueryChannel { chain_id, connection_id } => {
                self.register_route(chain_id, connection_id);
                Ok(None)
            },
            ExecuteMsg::UnregisterInterchainQueryChannel { chain_id } => {
                self.unregister_route(&chain_id);
                Ok(None)
            },
            ExecuteMsg::RemoveInterchainQuery { query_id } => {
                self.remove_query_owner(query_id);
                Ok(Some(QueryRemoval { query_id }))
            },
        }
    }

    /// Handles the notice that query `query_id` has a new result, received at
    /// block time `now_nanos`. `registered` is the kind of the query as the
    /// query subsystem has it registered, and `payload` the encoded balance
    /// snapshot to deliver; each is the reason it could not be read instead.
    ///
    /// The result goes, as one packet, to the channel that owns the query,
    /// due two minutes after `now_nanos`. The state is never changed.
    pub fn sudo_kv_query_result(
        &self,
        query_id: u64,
        registered: Result<QueryKind, String>,
        payload: Result<Vec<u8>, String>,
        now_nanos: u64,
    ) -> (r: Result<OutboundPacket, ContractError>)
        requires
            self.wf(),
        ensures
            !self@.ownership.contains_key(query_id) ==> r == Err::<OutboundPacket, ContractError>(
                ContractError::UnownedQuery { query_id },
            ),
            self@.ownership.contains_key(query_id) ==> match registered {
                Err(reason) => r == Err::<OutboundPacket, ContractError>(
                    ContractError::QueryUnavailable { reason },
                ),
                Ok(QueryKind::Tx) => r == Err::<OutboundPacket, ContractError>(
                    ContractError::UnexpectedQueryType { query_id },
                ),
                Ok(QueryKind::Kv) => match payload {
                    Err(reason) => r == Err::<OutboundPacket, ContractError>(
                        ContractError::QueryUnavailable { reason },
                    ),
                    Ok(data) => if packet_deadline(now_nanos) > u64::MAX {
                        r == Err::<OutboundPacket, ContractError>(
                            ContractError::DeadlineOutOfRange {  },
                        )
                    } else {
                        match r {
                            Ok(p) => {
                                &&& p.channel_id@ == self@.ownership[query_id]
                                &&& p.data == data
                                &&& p.timeout_nanos == packet_deadline(now_nanos)
                            },
                            Err(_) => false,
                        }
                    },
                },
            },
            r is Ok ==> self@.ownership.contains_key(query_id),
            match r {
                Ok(p) => now_nanos < p.timeout_nanos && p.timeout_nanos <= now_nanos
                    + PACKET_TIMEOUT_SECONDS * 1_000_000_000,
                Err(_) => true,
            },
    {
        let channel_id = match self.query_owner(query_id) {
            None => {
                return Err(ContractError::UnownedQuery { query_id });
            },
            Some(c) => c,
        };
        let kind = match registered {
            Err(reason) => {
                return Err(ContractError::QueryUnavailable { reason });
            },
            Ok(kind) => kind,
        };
        if !is_kv_query(kind) {
            return Err(ContractError::UnexpectedQueryType { query_id });
        }
        let data = match payload {
            Err(reason) => {
                return Err(ContractError::QueryUnavailable { reason });
            },
            Ok(data) => data,
        };
        if now_nanos > u64::MAX - PACKET_TIMEOUT_SECONDS * 1_000_000_000 {
            return Err(ContractError::DeadlineOutOfRange {  });
        }
        let timeout_nanos = plus_seconds(now_nanos, PACKET_TIMEOUT_SECONDS);
        Ok(OutboundPacket { channel_id, data, timeout_nanos })
    }
}

} // verus!
