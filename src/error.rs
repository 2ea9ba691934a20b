use vstd::prelude::*;

verus! {

/// Every way in which a call into the contract can fail.
#[derive(Clone, Debug, PartialEq, Eq)]
pub enum ContractError {
    /// The proposed channel is ordered; only unordered channels are accepted.
    OrderingMismatch {},
    /// A side of the handshake declared a protocol version other than ours.
    VersionMismatch { actual: String, expected: String },
    /// The caller of an administrative operation is not the contract's admin.
    Unauthorized {},
    /// An inbound packet's payload could not be decoded.
    InvalidPacket { reason: String },
    /// No route to a connection is registered for the requested remote chain.
    RouteNotConfigured { chain_id: Option<String> },
    /// The query subsystem refused to build the registration for the request.
    InvalidQueryRequest { reason: String },
    /// The query subsystem reported that a registration failed.
    RegistrationFailed { reason: String },
    /// A successful registration reply carried no readable query identifier.
    CorrelationDecodeFailure {},
    /// The reply id after the next one is still awaited, so no fresh id could
    /// be handed out next; this can only happen once reply ids wrap around.
    ReplyIdsExhausted {},
    /// A reply arrived under an identifier that no dispatch is waiting on.
    UnknownReplyId { id: u64 },
    /// A result arrived for a query that no channel owns.
    UnownedQuery { query_id: u64 },
    /// The registered query could not be read back from the query subsystem.
    QueryUnavailable { reason: String },
    /// The registered query is not a key-value query.
    UnexpectedQueryType { query_id: u64 },
    /// The block time is so late that a packet deadline after it does not fit
    /// in a timestamp.
    DeadlineOutOfRange {},
}

} // verus!
