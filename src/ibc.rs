use vstd::prelude::*;

use crate::error::ContractError;
use crate::sdk::{balance_query_key, bank_store, register_balance_query};
use crate::state::{chain_key, reply_id_after, ChannelInfo, ContractState, IbcEndpoint};

pub use crate::msg::IbcRegisterBalanceQuery;
pub use crate::msg::MsgRegisterInterchainQueryResponse;

verus! {

/// The protocol version both ends of a channel must declare.
pub const IBC_VERSION: &'static str = "icq-1";

/// How often, in blocks, a registered query is refreshed.
pub const ICQ_UPDATE_PERIOD: u64 = 5;

/// The protocol version as characters.
pub open spec fn ibc_version() -> Seq<char> {
    IBC_VERSION@
}

/// Whether a channel delivers its packets in order.
#[derive(Clone, Copy, Debug, PartialEq, Eq)]
pub enum IbcOrder {
    Unordered,
    Ordered,
}

/// A channel proposed or established in a handshake.
#[derive(Clone, Debug, PartialEq, Eq)]
pub struct IbcChannel {
    pub endpoint: IbcEndpoint,
    pub counterparty_endpoint: IbcEndpoint,
    pub order: IbcOrder,
    pub version: String,
    pub connection_id: String,
}

/// Whether a handshake with `channel`, where the counterparty declared
/// `counterparty_version` if it is known yet, is acceptable.
pub open spec fn handshake_accepted(channel: IbcChannel, counterparty_version: Option<Seq<char>>) -> bool {
    &&& channel.order is Unordered
    &&& channel.version@ == ibc_version()
    &&& match counterparty_version {
        Some(v) => v == ibc_version(),
        None => true,
    }
}

/// The view of an optional string.
pub open spec fn opt_view(s: Option<&str>) -> Option<Seq<char>> {
    match s {
        Some(v) => Some(v@),
        None => None,
    }
}

/// The record kept for an established channel.
pub open spec fn channel_record(channel: IbcChannel) -> ChannelInfo {
    ChannelInfo {
        id: channel.endpoint.channel_id,
        counterparty_endpoint: channel.counterparty_endpoint,
        connection_id: channel.connection_id,
    }
}

/// A storage key on the remote chain: a key within the store `path`.
#[derive(Clone, Debug, PartialEq, Eq)]
pub struct KvKey {
    pub path: String,
    pub key: Vec<u8>,
}

/// The registration of a key-value interchain query: the values under `keys`
/// are read over `connection_id` every `update_period` blocks.
#[derive(Clone, Debug, PartialEq, Eq)]
pub struct KvQueryRegistration {
    pub connection_id: String,
    pub keys: Vec<KvKey>,
    pub update_period: u64,
}

/// A registration dispatched for an inbound packet.
#[derive(Clone, Debug, PartialEq, Eq)]
pub struct Dispatch {
    /// The reply id the registration is dispatched under.
    pub reply_id: u64,
    pub query: KvQueryRegistration,
}

/// What becomes of an inbound packet: its acknowledgement is a success with a
/// registration dispatched, or a failure with its reason.
pub enum PacketReceipt {
    Dispatched(Dispatch),
    Rejected(ContractError),
}

/// What a registration reply leads to.
#[derive(Clone, Debug, PartialEq, Eq)]
pub enum ReplyOutcome {
    /// The query `query_id` now belongs to `channel_id`.
    QueryCreated { query_id: u64, channel_id: String },
    /// A failure acknowledgement with its reason; nothing was recorded.
    Failed(ContractError),
}

fn version_string() -> (r: String)
    ensures
        r@ == ibc_version(),
{
    String::from_str(IBC_VERSION)
}

/// The result of validating a handshake with `channel`, where the
/// counterparty declared `counterparty_version` if it is known yet: success
/// exactly when it is accepted; else an ordered channel gives
/// `OrderingMismatch`, and a wrong version gives `VersionMismatch` with the
/// local version, or failing that the counterparty's, as `actual`.
pub open spec fn handshake_result(
    channel: IbcChannel,
    counterparty_version: Option<Seq<char>>,
    r: Result<(), ContractError>,
) -> bool {
    &&& r is Ok <==> handshake_accepted(channel, counterparty_version)
    &&& channel.order is Ordered ==> r == Err::<(), ContractError>(
        ContractError::OrderingMismatch {  },
    )
    &&& channel.order is Unordered && channel.version@ != ibc_version() ==> match r {
        Err(ContractError::VersionMismatch { actual, expected }) => actual@ == channel.version@
            && expected@ == ibc_version(),
        _ => false,
    }
    &&& channel.order is Unordered && channel.version@ == ibc_version() && !handshake_accepted(
        channel,
        counterparty_version,
    ) ==> match r {
        Err(ContractError::VersionMismatch { actual, expected }) => counterparty_version == Some(
            actual@,
        ) && expected@ == ibc_version(),
        _ => false,
    }
}

/// Accepts a channel only if it is unordered and both ends speak our
/// protocol version; a counterparty version not yet known is accepted.
pub fn validate_order_and_version(channel: &IbcChannel, counterparty_version: Option<&str>) -> (r:
    Result<(), ContractError>)
    ensures
        handshake_result(*channel, opt_view(counterparty_version), r),
{
    if let IbcOrder::Ordered = channel.order {
        return Err(ContractError::OrderingMismatch {  });
    }
    let expected = version_string();
    if !(channel.version == expected) {
        return Err(ContractError::VersionMismatch { actual: channel.version.clone(), expected });
    }
    if let Some(v) = counterparty_version {
        let actual = String::from_str(v);
        if !(actual == expected) {
            return Err(ContractError::VersionMismatch { actual, expected });
        }
    }
    Ok(())
}

/// The opening steps of a handshake: nothing is recorded, the channel is only validated.
pub fn ibc_channel_open(channel: &IbcChannel, counterparty_version: Option<&str>) -> (r: Result<
    (),
    ContractError,
>)
    ensures
        handshake_result(*channel, opt_view(counterparty_version), r),
{
    validate_order_and_version(channel, counterparty_version)
}

impl ContractState {
    /// The last step of a handshake: a valid channel is recorded as established.
    pub fn ibc_channel_connect(&mut self, channel: IbcChannel, counterparty_version: Option<&str>) -> (r:
        Result<(), ContractError>)
        requires
            old(self).wf(),
        ensures
            final(self).wf(),
            handshake_result(channel, opt_view(counterparty_version), r),
            r is Ok ==> final(self)@ == old(self)@.with_channel(channel_record(channel)),
            r is Err ==> final(self)@ == old(self)@,
    {
        match validate_order_and_version(&channel, counterparty_version) {
            Err(e) => Err(e),
            Ok(()) => {
                let info = ChannelInfo {
                    id: channel.endpoint.channel_id,
                    counterparty_endpoint: channel.counterparty_endpoint,
                    connection_id: channel.connection_id,
                };
                self.record_channel(info);
                Ok(())
            },
        }
    }

    /// A closed channel is forgotten.
    pub fn ibc_channel_close(&mut self, channel: &IbcChannel)
        requires
            old(self).wf(),
        ensures
            final(self).wf(),
            final(self)@ == old(self)@.without_channel(channel.endpoint.channel_id@),
    {
        self.remove_channel(&channel.endpoint.channel_id);
    }
    /// Handles a balance request received on `channel_id`. `request` is the
    /// decoded payload, or why it could not be decoded.
    ///
    /// The route for the requested chain gives the connection; the registration
    /// of the balance query is then dispatched, after the channel has been
    /// recorded as waiting on its reply. Every failure becomes a failure
    /// acknowledgement and leaves the state as it was.
    pub fn ibc_packet_receive(
        &mut self,
        channel_id: String,
        request: Result<IbcRegisterBalanceQuery, String>,
    ) -> (r: PacketReceipt)
        requires
            old(self).wf(),
        ensures
            final(self).wf(),
            match request {
                Err(reason) => r == PacketReceipt::Rejected(ContractError::InvalidPacket { reason })
                    && final(self)@ == old(self)@,
                Ok(q) => if !old(self)@.routes.contains_key(chain_key(q.chain_id)) {
                    r == PacketReceipt::Rejected(
                        ContractError::RouteNotConfigured { chain_id: q.chain_id },
                    ) && final(self)@ == old(self)@
                } else if balance_query_key(q.addr@, q.denom@) is None {
                    (match r {
                        PacketReceipt::Rejected(ContractError::InvalidQueryRequest { .. }) => true,
                        _ => false,
                    }) && final(self)@ == old(self)@
                } else if old(self)@.pending.contains_key(reply_id_after(old(self)@.next_reply_id)) {
                    r == PacketReceipt::Rejected(ContractError::ReplyIdsExhausted {  })
                        && final(self)@ == old(self)@
                } else {
                    (match r {
                        PacketReceipt::Dispatched(d) => {
                            &&& d.reply_id == old(self)@.next_reply_id
                            &&& !old(self)@.pending.contains_key(d.reply_id)
                            &&& d.query.connection_id@ == old(self)@.routes[chain_key(q.chain_id)]
                            &&& d.query.update_period == ICQ_UPDATE_PERIOD
                            &&& d.query.keys@.len() == 1
                            &&& d.query.keys@[0].path@ == bank_store()
                            &&& Some(d.query.keys@[0].key@) == balance_query_key(q.addr@, q.denom@)
                        },
                        _ => false,
                    }) && final(self)@ == old(self)@.with_dispatch(channel_id@)
                },
            },
    {
        let q = match request {
            Err(reason) => {
                return PacketReceipt::Rejected(ContractError::InvalidPacket { reason });
            },
            Ok(q) => q,
        };
        let connection_id = match self.lookup_route(&q.chain_id) {
            None => {
                return PacketReceipt::Rejected(
                    ContractError::RouteNotConfigured { chain_id: q.chain_id },
                );
            },
            Some(c) => c,
        };
        let built = register_balance_query(connection_id, q.addr, q.denom, ICQ_UPDATE_PERIOD);
        self.dispatch_registration(channel_id, built)
    }

    /// Dispatches a query registration for `channel_id`. `built` is the
    /// registration as the query subsystem built it, or why it refused to.
    ///
    /// The channel is recorded as waiting on the reply before the message goes
    /// out under the next reply id, which no registration is waiting on. The
    /// id after it must be free as well, so that the next dispatch gets a fresh
    /// one too; where it is not, or where the subsystem refused, the packet gets
    /// a failure acknowledgement and the state stays as it was.
    pub fn dispatch_registration(
        &mut self,
        channel_id: String,
        built: Result<KvQueryRegistration, String>,
    ) -> (r: PacketReceipt)
        requires
            old(self).wf(),
        ensures
            final(self).wf(),
            match built {
                Err(reason) => r == PacketReceipt::Rejected(
                    ContractError::InvalidQueryRequest { reason },
                ) && final(self)@ == old(self)@,
                Ok(query) => if old(self)@.pending.contains_key(
                    reply_id_after(old(self)@.next_reply_id),
                ) {
                    r == PacketReceipt::Rejected(ContractError::ReplyIdsExhausted {  })
                        && final(self)@ == old(self)@
                } else {
                    &&& !old(self)@.pending.contains_key(old(self)@.next_reply_id)
                    &&& r == PacketReceipt::Dispatched(
                        (Dispatch { reply_id: old(self)@.next_reply_id, query }),
                    )
                    &&& final(self)@ == old(self)@.with_dispatch(channel_id@)
                },
            },
    {
        match built {
            Err(reason) => PacketReceipt::Rejected(ContractError::InvalidQueryRequest { reason }),
            Ok(_) if !self.can_dispatch() => PacketReceipt::Rejected(
                ContractError::ReplyIdsExhausted {  },
            ),
            Ok(query) => {
                let reply_id = self.record_dispatch(channel_id);
                PacketReceipt::Dispatched(Dispatch { reply_id, query })
            },
        }
    }

    /// Handles the reply to the registration dispatched under `reply_id`.
    /// `result` is the decoded answer of a registration that succeeded (none
    /// where it carried no readable answer), or the error of one that failed.
    ///
    /// A reply nobody waits on aborts the call. A failed or unreadable one
    /// becomes a failure acknowledgement and changes no state. A readable one
    /// hands the new query to the channel that asked for it and ends the wait.
    pub fn reply(
        &mut self,
        reply_id: u64,
        result: Result<Option<MsgRegisterInterchainQueryResponse>, String>,
    ) -> (r: Result<ReplyOutcome, ContractError>)
        requires
            old(self).wf(),
        ensures
            final(self).wf(),
            !old(self)@.pending.contains_key(reply_id) ==> r == Err::<ReplyOutcome, ContractError>(
                ContractError::UnknownReplyId { id: reply_id },
            ) && final(self)@ == old(self)@,
            old(self)@.pending.contains_key(reply_id) ==> match result {
                Err(reason) => r == Ok::<ReplyOutcome, ContractError>(
                    ReplyOutcome::Failed(ContractError::RegistrationFailed { reason }),
                ) && final(self)@ == old(self)@,
                Ok(None) => r == Ok::<ReplyOutcome, ContractError>(
                    ReplyOutcome::Failed(ContractError::CorrelationDecodeFailure {  }),
                ) && final(self)@ == old(self)@,
                Ok(Some(resp)) => (match r {
                    Ok(ReplyOutcome::QueryCreated { query_id, channel_id }) => query_id == resp.id
                        && channel_id@ == old(self)@.pending[reply_id],
                    _ => false,
                }) && final(self)@ == old(self)@.with_query_created(reply_id, resp.id),
            },
    {
        let channel_id = match self.pending_channel(reply_id) {
            None => {
                return Err(ContractError::UnknownReplyId { id: reply_id });
            },
            Some(c) => c,
        };
        match result {
            Err(reason) => Ok(ReplyOutcome::Failed(ContractError::RegistrationFailed { reason })),
            Ok(None) => Ok(ReplyOutcome::Failed(ContractError::CorrelationDecodeFailure {  })),
            Ok(Some(resp)) => {
                self.record_query_created(reply_id, resp.id);
                Ok(ReplyOutcome::QueryCreated { query_id: resp.id, channel_id })
            },
        }
    }
}

} // verus!
