use cw_ibc_query_receiver::contract::{
    execute, execute_receive, instantiate, query, query_latest_ibc_query_result,
};
use cw_ibc_query_receiver::error::ContractError;
use cw_ibc_query_receiver::ibc::{
    IbcEndpoint, IbcPacket, IbcPacketAckMsg, IbcTimeout, IbcTimeoutBlock,
};
use cw_ibc_query_receiver::msg::{
    BankMsg, Coin, Env, ExecuteMsg, InstantiateMsg, MessageInfo, QueryMsg, ReceiveIbcResponseMsg,
    Response,
};
use cw_ibc_query_receiver::state::{IbcQueryResultResponse, ResultStore};

const RECEIVER: &str = "receiver";

fn mock_env(block_time: u64) -> Env {
    Env { block_time }
}

fn mock_info(sender: &str, funds: &[Coin]) -> MessageInfo {
    MessageInfo { sender: sender.to_string(), funds: funds.to_vec() }
}

fn coin(amount: u128, denom: &str) -> Coin {
    Coin { denom: denom.to_string(), amount }
}

fn setup() -> Result<Response, ContractError> {
    let msg = InstantiateMsg {};
    let info = mock_info(RECEIVER, &[]);
    instantiate(mock_env(1_571_797_419_879_305_533), info, msg)
}

fn ack(channel: &str, relayer: &str, answer: &[u8]) -> IbcPacketAckMsg {
    IbcPacketAckMsg {
        acknowledgement: answer.to_vec(),
        original_packet: IbcPacket {
            data: b"query".to_vec(),
            src: IbcEndpoint { port_id: "wasm.querier".to_string(), channel_id: channel.to_string() },
            dest: IbcEndpoint { port_id: "wasm.host".to_string(), channel_id: "channel-7".to_string() },
            sequence: 3,
            timeout: IbcTimeout {
                block: Some(IbcTimeoutBlock { revision: 1, height: 500 }),
                timestamp: None,
            },
        },
        relayer: relayer.to_string(),
    }
}

fn receive_msg(ack: IbcPacketAckMsg, funds: &[Coin]) -> ExecuteMsg {
    ExecuteMsg::ReceiveIbcResponse(ReceiveIbcResponseMsg { msg: ack, funds: funds.to_vec() })
}

fn latest(store: &ResultStore, channel: &str) -> Result<IbcQueryResultResponse, ContractError> {
    query(store, mock_env(0), QueryMsg::LatestQueryResult { channel_id: channel.to_string() })
        .map(|r| r.clone())
}

#[test]
fn instantiate_works() {
    let res = setup().unwrap();
    println!("RES: {:?}", res.clone());
    assert_eq!(0, res.messages.len())
}

#[test]
fn instantiate_records_action() {
    let res = setup().unwrap();
    assert_eq!(res.attributes.len(), 1);
    assert_eq!(res.attributes[0].key, "action");
    assert_eq!(res.attributes[0].value, "instantiate");
}

#[test]
fn fresh_store_finds_nothing() {
    setup().unwrap();
    let store = ResultStore::new();
    assert_eq!(latest(&store, "channel-0"), Err(ContractError::NotFound));
    assert_eq!(latest(&store, ""), Err(ContractError::NotFound));
}

#[test]
fn unknown_channel_is_not_found() {
    let store = ResultStore::new();
    assert_eq!(
        query_latest_ibc_query_result(&store, "channel-99".to_string()),
        Err(ContractError::NotFound)
    );
}

#[test]
fn put_put_get_keeps_last() {
    let mut store = ResultStore::new();
    let r1 = IbcQueryResultResponse { last_update_time: 10, response: ack("channel-1", "a", b"one") };
    let r2 = IbcQueryResultResponse { last_update_time: 20, response: ack("channel-1", "b", b"two") };
    store.put("channel-1".to_string(), r1);
    store.put("channel-1".to_string(), r2.clone());
    assert_eq!(store.get(&"channel-1".to_string()), Some(&r2));
    assert_eq!(store.get(&"channel-2".to_string()), None);
}

#[test]
fn put_keeps_other_channels() {
    let mut store = ResultStore::new();
    let r1 = IbcQueryResultResponse { last_update_time: 10, response: ack("channel-1", "a", b"one") };
    let r2 = IbcQueryResultResponse { last_update_time: 20, response: ack("channel-2", "b", b"two") };
    store.put("channel-1".to_string(), r1.clone());
    store.put("channel-2".to_string(), r2.clone());
    assert_eq!(store.get(&"channel-1".to_string()), Some(&r1));
    assert_eq!(store.get(&"channel-2".to_string()), Some(&r2));
}

#[test]
fn payment_by_invoker_is_rejected() {
    let mut store = ResultStore::new();
    let info = mock_info("invoker", &[coin(5, "uatom")]);
    let res = execute(&mut store, mock_env(100), info, receive_msg(ack("channel-0", "addr1", b"x"), &[]), true);
    assert_eq!(res, Err(ContractError::UnexpectedPayment));
    assert_eq!(latest(&store, "channel-0"), Err(ContractError::NotFound));
}

#[test]
fn payment_by_invoker_keeps_earlier_result() {
    let mut store = ResultStore::new();
    let first = ack("channel-0", "addr1", b"first");
    execute(&mut store, mock_env(100), mock_info("invoker", &[]), receive_msg(first.clone(), &[]), true)
        .unwrap();
    let info = mock_info("invoker", &[coin(1, "uatom"), coin(2, "uosmo")]);
    let res = execute(&mut store, mock_env(200), info, receive_msg(ack("channel-0", "addr1", b"second"), &[]), true);
    assert_eq!(res, Err(ContractError::UnexpectedPayment));
    assert_eq!(
        latest(&store, "channel-0"),
        Ok(IbcQueryResultResponse { last_update_time: 100, response: first })
    );
}

#[test]
fn payment_is_checked_before_address() {
    let mut store = ResultStore::new();
    let info = mock_info("invoker", &[coin(5, "uatom")]);
    let res = execute(&mut store, mock_env(100), info, receive_msg(ack("channel-0", "bad!", b"x"), &[]), false);
    assert_eq!(res, Err(ContractError::UnexpectedPayment));
}

#[test]
fn invalid_relayer_is_rejected() {
    let mut store = ResultStore::new();
    let info = mock_info("invoker", &[]);
    let res = execute(&mut store, mock_env(100), info, receive_msg(ack("channel-0", "bad!", b"x"), &[coin(100, "uatom")]), false);
    assert_eq!(res, Err(ContractError::InvalidAddress));
    assert_eq!(latest(&store, "channel-0"), Err(ContractError::NotFound));
}

#[test]
fn receive_pays_relayer_and_stores_result() {
    setup().unwrap();
    let mut store = ResultStore::new();
    let x = ack("channel-0", "addr1", b"{\"balance\":\"42\"}");
    let info = mock_info("invoker", &[]);
    let res = execute(&mut store, mock_env(1_000), info, receive_msg(x.clone(), &[coin(100, "uatom")]), true)
        .unwrap();
    assert_eq!(res.messages.len(), 1);
    assert_eq!(
        res.messages[0],
        BankMsg::Send { to_address: "addr1".to_string(), amount: vec![coin(100, "uatom")] }
    );
    assert!(res.attributes.is_empty());
    assert_eq!(
        latest(&store, "channel-0"),
        Ok(IbcQueryResultResponse { last_update_time: 1_000, response: x })
    );
}

#[test]
fn receive_without_funds_still_sends() {
    let mut store = ResultStore::new();
    let x = ack("channel-3", "addr2", b"");
    let res = execute_receive(&mut store, mock_env(7), mock_info("relayer", &[]), x.clone(), true).unwrap();
    assert_eq!(res.messages, vec![BankMsg::Send { to_address: "addr2".to_string(), amount: vec![] }]);
    assert_eq!(store.get(&"channel-3".to_string()).map(|r| r.response.clone()), Some(x));
}

#[test]
fn receive_keys_by_source_channel() {
    let mut store = ResultStore::new();
    let x = ack("channel-5", "addr1", b"y");
    execute_receive(&mut store, mock_env(9), mock_info("relayer", &[]), x, true).unwrap();
    assert_eq!(latest(&store, "channel-7"), Err(ContractError::NotFound));
    assert_eq!(latest(&store, "channel-5").map(|r| r.last_update_time), Ok(9));
}

#[test]
fn execute_receive_rejects_invalid_relayer() {
    let mut store = ResultStore::new();
    let res = execute_receive(&mut store, mock_env(9), mock_info("relayer", &[coin(3, "u")]), ack("channel-5", "", b"y"), false);
    assert_eq!(res, Err(ContractError::InvalidAddress));
    assert_eq!(store.get(&"channel-5".to_string()), None);
}

#[test]
fn second_receive_replaces_first() {
    let mut store = ResultStore::new();
    let a1 = ack("channel-0", "addr1", b"first");
    let a2 = ack("channel-0", "addr2", b"second");
    execute(&mut store, mock_env(100), mock_info("i", &[]), receive_msg(a1, &[coin(1, "u")]), true).unwrap();
    execute(&mut store, mock_env(50), mock_info("i", &[]), receive_msg(a2.clone(), &[coin(2, "u")]), true).unwrap();
    assert_eq!(
        latest(&store, "channel-0"),
        Ok(IbcQueryResultResponse { last_update_time: 50, response: a2 })
    );
}
