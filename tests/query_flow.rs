use wasm_icq::contract::{OutboundPacket, QueryKind, QueryRemoval};
use wasm_icq::ibc::{
    IbcRegisterBalanceQuery, MsgRegisterInterchainQueryResponse, PacketReceipt, ReplyOutcome,
    ICQ_UPDATE_PERIOD,
};
use wasm_icq::msg::ExecuteMsg;
use wasm_icq::state::{ContractState, PendingCorrelation, ICQ_CREATED_RECEIVE_ID};
use wasm_icq::msg::InstantiateMsg;
use wasm_icq::ContractError;

const ADDR: &str = "cosmos1qypqxpq9qcrsszg2pvxq6rs0zqg3yyc5lzv7xu";
const NOW: u64 = 1_700_000_000_000_000_000;

fn admin() -> String {
    "admin".to_string()
}

fn request(chain_id: Option<&str>, addr: &str, denom: &str) -> IbcRegisterBalanceQuery {
    IbcRegisterBalanceQuery {
        chain_id: chain_id.map(|c| c.to_string()),
        addr: addr.to_string(),
        denom: denom.to_string(),
    }
}

fn routed_state() -> ContractState {
    let mut state = ContractState::instantiate(admin(), InstantiateMsg {});
    let msg = ExecuteMsg::RegisterInterchainQueryChannel {
        chain_id: Some("neutron-1".to_string()),
        connection_id: "connection-0".to_string(),
    };
    assert_eq!(state.execute(&admin(), msg), Ok(None));
    state
}

fn dispatch(state: &mut ContractState, channel: &str, denom: &str) -> u64 {
    match state.ibc_packet_receive(channel.to_string(), Ok(request(Some("neutron-1"), ADDR, denom))) {
        PacketReceipt::Dispatched(d) => d.reply_id,
        PacketReceipt::Rejected(e) => panic!("rejected: {:?}", e),
    }
}

fn created(id: u64) -> Result<Option<MsgRegisterInterchainQueryResponse>, String> {
    Ok(Some(MsgRegisterInterchainQueryResponse { id }))
}

#[test]
fn balance_request_round_trip() {
    let mut state = routed_state();
    let receipt =
        state.ibc_packet_receive("channel-0".to_string(), Ok(request(Some("neutron-1"), ADDR, "uatom")));
    let reply_id = match receipt {
        PacketReceipt::Dispatched(d) => {
            assert_eq!(d.reply_id, ICQ_CREATED_RECEIVE_ID);
            assert_eq!(d.query.connection_id, "connection-0");
            assert_eq!(d.query.update_period, ICQ_UPDATE_PERIOD);
            assert_eq!(d.query.update_period, 5);
            assert_eq!(d.query.keys.len(), 1);
            assert_eq!(d.query.keys[0].path, "bank");
            let mut key = vec![2u8, 20u8];
            key.extend(1u8..=20u8);
            key.extend_from_slice(b"uatom");
            assert_eq!(d.query.keys[0].key, key);
            d.reply_id
        }
        PacketReceipt::Rejected(e) => panic!("rejected: {:?}", e),
    };
    assert_eq!(state.pending_channel(reply_id), Some("channel-0".to_string()));

    let outcome = state.reply(reply_id, created(42));
    assert_eq!(
        outcome,
        Ok(ReplyOutcome::QueryCreated { query_id: 42, channel_id: "channel-0".to_string() })
    );
    assert_eq!(state.query_owner(42), Some("channel-0".to_string()));
    assert_eq!(state.pending_channel(reply_id), None);

    let payload = b"{\"last_submitted_local_height\":7,\"balances\":{\"coins\":[]}}".to_vec();
    let packet = state.sudo_kv_query_result(42, Ok(QueryKind::Kv), Ok(payload.clone()), NOW);
    assert_eq!(
        packet,
        Ok(OutboundPacket {
            channel_id: "channel-0".to_string(),
            data: payload,
            timeout_nanos: NOW + 120_000_000_000,
        })
    );
}

#[test]
fn result_for_unowned_query_is_refused() {
    let state = routed_state();
    let packet = state.sudo_kv_query_result(99, Ok(QueryKind::Kv), Ok(vec![1, 2, 3]), NOW);
    assert_eq!(packet, Err(ContractError::UnownedQuery { query_id: 99 }));
    let packet = state.sudo_kv_query_result(99, Err("no such query".to_string()), Ok(vec![]), NOW);
    assert_eq!(packet, Err(ContractError::UnownedQuery { query_id: 99 }));
}

#[test]
fn result_of_wrong_kind_or_unreadable_is_refused() {
    let mut state = routed_state();
    let reply_id = dispatch(&mut state, "channel-0", "uatom");
    assert!(state.reply(reply_id, created(5)).is_ok());
    assert_eq!(
        state.sudo_kv_query_result(5, Ok(QueryKind::Tx), Ok(vec![1]), NOW),
        Err(ContractError::UnexpectedQueryType { query_id: 5 })
    );
    assert_eq!(
        state.sudo_kv_query_result(5, Err("gone".to_string()), Ok(vec![1]), NOW),
        Err(ContractError::QueryUnavailable { reason: "gone".to_string() })
    );
    assert_eq!(
        state.sudo_kv_query_result(5, Ok(QueryKind::Kv), Err("no result yet".to_string()), NOW),
        Err(ContractError::QueryUnavailable { reason: "no result yet".to_string() })
    );
}

#[test]
fn timeout_is_two_minutes_after_block_time() {
    let mut state = routed_state();
    let reply_id = dispatch(&mut state, "channel-0", "uatom");
    assert!(state.reply(reply_id, created(1)).is_ok());
    let packet = state.sudo_kv_query_result(1, Ok(QueryKind::Kv), Ok(vec![]), 0).unwrap();
    assert_eq!(packet.timeout_nanos, 120_000_000_000);
    let last = u64::MAX - 120_000_000_000;
    let packet = state.sudo_kv_query_result(1, Ok(QueryKind::Kv), Ok(vec![]), last).unwrap();
    assert_eq!(packet.timeout_nanos, u64::MAX);
}

#[test]
fn concurrent_registrations_are_attributed_to_their_channels() {
    let mut state = routed_state();
    let first = dispatch(&mut state, "channel-0", "uatom");
    let second = dispatch(&mut state, "channel-1", "untrn");
    assert_ne!(first, second);
    assert_eq!(
        state.reply(second, created(8)),
        Ok(ReplyOutcome::QueryCreated { query_id: 8, channel_id: "channel-1".to_string() })
    );
    assert_eq!(
        state.reply(first, created(7)),
        Ok(ReplyOutcome::QueryCreated { query_id: 7, channel_id: "channel-0".to_string() })
    );
    assert_eq!(state.query_owner(7), Some("channel-0".to_string()));
    assert_eq!(state.query_owner(8), Some("channel-1".to_string()));
    assert_eq!(state.ownership.len(), 2);
    assert!(state.pending.is_empty());
}

#[test]
fn packet_for_unrouted_chain_is_rejected() {
    let mut state = ContractState::instantiate(admin(), InstantiateMsg {});
    let before = state.clone();
    let receipt =
        state.ibc_packet_receive("channel-0".to_string(), Ok(request(Some("neutron-1"), ADDR, "uatom")));
    match receipt {
        PacketReceipt::Rejected(e) => assert_eq!(
            e,
            ContractError::RouteNotConfigured { chain_id: Some("neutron-1".to_string()) }
        ),
        PacketReceipt::Dispatched(_) => panic!("dispatched without a route"),
    }
    assert_eq!(state, before);
}

#[test]
fn default_route_serves_requests_without_chain() {
    let mut state = ContractState::instantiate(admin(), InstantiateMsg {});
    let msg = ExecuteMsg::RegisterInterchainQueryChannel {
        chain_id: None,
        connection_id: "connection-5".to_string(),
    };
    assert_eq!(state.execute(&admin(), msg), Ok(None));
    match state.ibc_packet_receive("channel-0".to_string(), Ok(request(None, ADDR, "uatom"))) {
        PacketReceipt::Dispatched(d) => assert_eq!(d.query.connection_id, "connection-5"),
        PacketReceipt::Rejected(e) => panic!("rejected: {:?}", e),
    }
    match state.ibc_packet_receive("channel-0".to_string(), Ok(request(Some("x-1"), ADDR, "uatom"))) {
        PacketReceipt::Rejected(e) => {
            assert_eq!(e, ContractError::RouteNotConfigured { chain_id: Some("x-1".to_string()) })
        }
        PacketReceipt::Dispatched(_) => panic!("dispatched without a route"),
    }
}

#[test]
fn register_then_unregister_route() {
    let mut state = routed_state();
    let chain = Some("neutron-1".to_string());
    assert_eq!(state.lookup_route(&chain), Some("connection-0".to_string()));
    let msg = ExecuteMsg::RegisterInterchainQueryChannel {
        chain_id: chain.clone(),
        connection_id: "connection-4".to_string(),
    };
    assert_eq!(state.execute(&admin(), msg), Ok(None));
    assert_eq!(state.lookup_route(&chain), Some("connection-4".to_string()));
    assert_eq!(state.routes.len(), 1);
    let msg = ExecuteMsg::UnregisterInterchainQueryChannel { chain_id: chain.clone() };
    assert_eq!(state.execute(&admin(), msg), Ok(None));
    assert_eq!(state.lookup_route(&chain), None);
}

#[test]
fn undecodable_packet_is_rejected() {
    let mut state = routed_state();
    let before = state.clone();
    match state.ibc_packet_receive("channel-0".to_string(), Err("missing field `addr`".to_string())) {
        PacketReceipt::Rejected(e) => assert_eq!(
            e,
            ContractError::InvalidPacket { reason: "missing field `addr`".to_string() }
        ),
        PacketReceipt::Dispatched(_) => panic!("dispatched an undecodable packet"),
    }
    assert_eq!(state, before);
}

#[test]
fn non_bech32_address_is_rejected() {
    let mut state = routed_state();
    let before = state.clone();
    match state.ibc_packet_receive("channel-0".to_string(), Ok(request(Some("neutron-1"), "addr1", "uatom"))) {
        PacketReceipt::Rejected(ContractError::InvalidQueryRequest { reason }) => {
            assert!(!reason.is_empty())
        }
        PacketReceipt::Rejected(e) => panic!("wrong error {:?}", e),
        PacketReceipt::Dispatched(_) => panic!("dispatched an invalid address"),
    }
    assert_eq!(state, before);
}

#[test]
fn reply_with_unknown_id_aborts() {
    let mut state = routed_state();
    let before = state.clone();
    assert_eq!(state.reply(4242, created(1)), Err(ContractError::UnknownReplyId { id: 4242 }));
    assert_eq!(state, before);
}

#[test]
fn failed_or_unreadable_reply_records_nothing() {
    let mut state = routed_state();
    let reply_id = dispatch(&mut state, "channel-0", "uatom");
    let before = state.clone();
    assert_eq!(
        state.reply(reply_id, Err("insufficient deposit".to_string())),
        Ok(ReplyOutcome::Failed(ContractError::RegistrationFailed {
            reason: "insufficient deposit".to_string()
        }))
    );
    assert_eq!(state, before);
    assert_eq!(
        state.reply(reply_id, Ok(None)),
        Ok(ReplyOutcome::Failed(ContractError::CorrelationDecodeFailure {}))
    );
    assert_eq!(state, before);
    assert!(state.ownership.is_empty());
}

#[test]
fn dispatch_refused_when_following_reply_id_is_awaited() {
    let mut state = routed_state();
    state.next_reply_id = u64::MAX;
    state.pending.push(PendingCorrelation { reply_id: 0, channel_id: "channel-9".to_string() });
    assert!(state.is_well_formed());
    let before = state.clone();
    match state.ibc_packet_receive("channel-0".to_string(), Ok(request(Some("neutron-1"), ADDR, "uatom"))) {
        PacketReceipt::Rejected(e) => assert_eq!(e, ContractError::ReplyIdsExhausted {}),
        PacketReceipt::Dispatched(_) => panic!("dispatched under a reused reply id"),
    }
    assert_eq!(state, before);
    assert_eq!(state.reply(0, Err("gone".to_string())).is_ok(), true);
    assert_eq!(state, before);
    assert_eq!(
        state.reply(0, created(9)),
        Ok(ReplyOutcome::QueryCreated { query_id: 9, channel_id: "channel-9".to_string() })
    );
    assert_eq!(dispatch(&mut state, "channel-0", "uatom"), u64::MAX);
    assert_eq!(state.next_reply_id, 0);
    assert_eq!(dispatch(&mut state, "channel-1", "uatom"), 0);
}

#[test]
fn awaited_next_reply_id_is_not_well_formed() {
    let mut state = routed_state();
    let next = state.next_reply_id;
    state.pending.push(PendingCorrelation { reply_id: next, channel_id: "channel-0".to_string() });
    assert!(!state.is_well_formed());
}

#[test]
fn deadline_past_timestamp_range_is_refused() {
    let mut state = routed_state();
    let reply_id = dispatch(&mut state, "channel-0", "uatom");
    assert!(state.reply(reply_id, created(1)).is_ok());
    let late = u64::MAX - 120_000_000_000 + 1;
    assert_eq!(
        state.sudo_kv_query_result(1, Ok(QueryKind::Kv), Ok(vec![]), late),
        Err(ContractError::DeadlineOutOfRange {})
    );
    assert_eq!(
        state.sudo_kv_query_result(2, Ok(QueryKind::Kv), Ok(vec![]), u64::MAX),
        Err(ContractError::UnownedQuery { query_id: 2 })
    );
}

#[test]
fn only_admin_may_execute() {
    let mut state = ContractState::instantiate(admin(), InstantiateMsg {});
    let msg = ExecuteMsg::RegisterInterchainQueryChannel {
        chain_id: None,
        connection_id: "connection-0".to_string(),
    };
    assert_eq!(state.execute(&"mallory".to_string(), msg), Err(ContractError::Unauthorized {}));
    assert!(state.routes.is_empty());
}

#[test]
fn remove_query_stops_delivery() {
    let mut state = routed_state();
    let reply_id = dispatch(&mut state, "channel-0", "uatom");
    assert!(state.reply(reply_id, created(42)).is_ok());
    let msg = ExecuteMsg::RemoveInterchainQuery { query_id: 42 };
    assert_eq!(
        state.execute(&admin(), msg),
        Ok(Some(QueryRemoval { query_id: 42 }))
    );
    assert_eq!(state.query_owner(42), None);
    assert_eq!(
        state.sudo_kv_query_result(42, Ok(QueryKind::Kv), Ok(vec![]), NOW),
        Err(ContractError::UnownedQuery { query_id: 42 })
    );
}

#[test]
fn duplicate_keys_are_not_well_formed() {
    let mut state = routed_state();
    assert!(state.is_well_formed());
    let copy = state.routes[0].clone();
    state.routes.push(copy);
    assert!(!state.is_well_formed());
}
