//! The entry points: instantiation, receipt of acknowledgements, and lookup
//! of the latest result of a channel.
use vstd::prelude::*;

use crate::error::ContractError;
use crate::ibc::IbcPacketAckMsg;
use crate::msg::{
    Attribute, BankMsg, Env, ExecuteMsg, InstantiateMsg, MessageInfo, QueryMsg, Response,
};
use crate::state::{stored, IbcQueryResultResponse, ResultStore};

verus! {

#[verifier::external_type_specification]
#[verifier::external_body]
pub struct ExPaymentError(cw_utils::PaymentError);

/// Relies on cw_utils::nonpayable: it fails exactly when any coins were sent.
#[verifier::external_body]
fn nonpayable(info: &MessageInfo) -> (r: Result<(), cw_utils::PaymentError>)
    ensures
        r is Ok <==> info.funds@.len() == 0,
{
    let info = cosmwasm_std::MessageInfo {
        sender: cosmwasm_std::Addr::unchecked(info.sender.clone()),
        funds: info.funds.iter().map(|c| cosmwasm_std::Coin::new(c.amount, c.denom.clone())).collect(),
    };
    cw_utils::nonpayable(&info)
}

/// The result recorded for an acknowledgement received at the time of `env`.
pub open spec fn recorded(env: Env, msg: IbcPacketAckMsg) -> IbcQueryResultResponse {
    IbcQueryResultResponse { last_update_time: env.block_time, response: msg }
}

/// The store contents after `msg` was received at the time of `env`: its
/// source channel now maps to it.
pub open spec fn after_receive(
    m: Map<Seq<char>, IbcQueryResultResponse>,
    env: Env,
    msg: IbcPacketAckMsg,
) -> Map<Seq<char>, IbcQueryResultResponse> {
    m.insert(msg.source_channel(), recorded(env, msg))
}

/// What `latest` answers for `channel` on the store contents `m`.
pub open spec fn latest_of(
    m: Map<Seq<char>, IbcQueryResultResponse>,
    channel: Seq<char>,
) -> Result<IbcQueryResultResponse, ContractError> {
    match stored(m, channel) {
        Some(v) => Ok(v),
        None => Err(ContractError::NotFound),
    }
}

/// A store that holds nothing, as after instantiation, answers `NotFound`
/// for every channel.
pub proof fn lemma_empty_store_finds_nothing(store: &ResultStore, channel: Seq<char>)
    requires
        store@ == Map::<Seq<char>, IbcQueryResultResponse>::empty(),
    ensures
        latest_of(store@, channel) == Err::<IbcQueryResultResponse, _>(ContractError::NotFound),
{
}

/// Of two acknowledgements received on one channel, the later one is the
/// channel's latest result, and the store keeps no trace of the earlier one.
pub proof fn lemma_second_receive_replaces_first(
    m: Map<Seq<char>, IbcQueryResultResponse>,
    env1: Env,
    msg1: IbcPacketAckMsg,
    env2: Env,
    msg2: IbcPacketAckMsg,
)
    requires
        msg1.source_channel() == msg2.source_channel(),
    ensures
        after_receive(after_receive(m, env1, msg1), env2, msg2) == after_receive(m, env2, msg2),
        latest_of(after_receive(after_receive(m, env1, msg1), env2, msg2), msg2.source_channel())
            == Ok::<_, ContractError>(recorded(env2, msg2)),
{
    assert(after_receive(after_receive(m, env1, msg1), env2, msg2) =~= after_receive(
        m,
        env2,
        msg2,
    ));
}

/// Instantiation takes no configuration, initializes no state and always
/// succeeds; it records the action and sends nothing.
pub fn instantiate(_env: Env, _info: MessageInfo, _msg: InstantiateMsg) -> (r: Result<
    Response,
    ContractError,
>)
    ensures
        r matches Ok(resp) && resp.messages@.len() == 0 && resp.attributes@.len() == 1
            && resp.attributes@[0].key@ == "action"@ && resp.attributes@[0].value@
            == "instantiate"@,
{
    let mut attributes: Vec<Attribute> = Vec::new();
    attributes.push(Attribute { key: "action".to_owned(), value: "instantiate".to_owned() });
    Ok(Response { messages: Vec::new(), attributes })
}

/// Dispatches a state-changing call. The invoker may attach no funds; the
/// acknowledgement is then received with the funds of its delivery.
/// `relayer_valid` is the host's verdict on the relayer's address.
pub fn execute(
    store: &mut ResultStore,
    env: Env,
    info: MessageInfo,
    msg: ExecuteMsg,
    relayer_valid: bool,
) -> (r: Result<Response, ContractError>)
    requires
        old(store).wf(),
    ensures
        final(store).wf(),
        match msg {
            ExecuteMsg::ReceiveIbcResponse(m) => match r {
                Ok(resp) => {
                    &&& info.funds@.len() == 0
                    &&& relayer_valid
                    &&& resp.pays_only(m.msg.relayer, m.funds)
                    &&& final(store)@ == after_receive(old(store)@, env, m.msg)
                },
                Err(e) => {
                    &&& final(store)@ == old(store)@
                    &&& if info.funds@.len() > 0 {
                        e == ContractError::UnexpectedPayment
                    } else {
                        !relayer_valid && e == ContractError::InvalidAddress
                    }
                },
            },
        },
{
    if nonpayable(&info).is_err() {
        return Err(ContractError::UnexpectedPayment);
    }
    match msg {
        ExecuteMsg::ReceiveIbcResponse(m) => {
            let delivery = MessageInfo { sender: info.sender, funds: m.funds };
            execute_receive(store, env, delivery, m.msg, relayer_valid)
        },
    }
}

/// Receives an acknowledgement delivered with `info`. Where the host found
/// the relayer's address valid, all funds of the delivery go to the relayer
/// and the acknowledgement becomes the latest result of the channel its
/// packet left from; otherwise nothing changes.
pub fn execute_receive(
    store: &mut ResultStore,
    env: Env,
    info: MessageInfo,
    msg: IbcPacketAckMsg,
    relayer_valid: bool,
) -> (r: Result<Response, ContractError>)
    requires
        old(store).wf(),
    ensures
        final(store).wf(),
        match r {
            Ok(resp) => {
                &&& relayer_valid
                &&& resp.pays_only(msg.relayer, info.funds)
                &&& final(store)@ == after_receive(old(store)@, env, msg)
            },
            Err(e) => {
                &&& !relayer_valid
                &&& e == ContractError::InvalidAddress
                &&& final(store)@ == old(store)@
            },
        },
{
    if !relayer_valid {
        return Err(ContractError::InvalidAddress);
    }
    let relayer_addr = msg.relayer.clone();
    let bank_msg = BankMsg::Send { to_address: relayer_addr, amount: info.funds };
    let channel_id = msg.original_packet.src.channel_id.clone();
    store.put(channel_id, IbcQueryResultResponse { last_update_time: env.block_time, response: msg });
    let mut messages: Vec<BankMsg> = Vec::new();
    messages.push(bank_msg);
    Ok(Response { messages, attributes: Vec::new() })
}

/// Dispatches a read-only call.
pub fn query(store: &ResultStore, _env: Env, msg: QueryMsg) -> (r: Result<
    &IbcQueryResultResponse,
    ContractError,
>)
    requires
        store.wf(),
    ensures
        match msg {
            QueryMsg::LatestQueryResult { channel_id } => match r {
                Ok(v) => latest_of(store@, channel_id@) == Ok::<_, ContractError>(*v),
                Err(e) => latest_of(store@, channel_id@) == Err::<IbcQueryResultResponse, _>(e),
            },
        },
{
    match msg {
        QueryMsg::LatestQueryResult { channel_id } => query_latest_ibc_query_result(
            store,
            channel_id,
        ),
    }
}

/// The latest result received on `channel_id`, or `NotFound`.
pub fn query_latest_ibc_query_result(store: &ResultStore, channel_id: String) -> (r: Result<
    &IbcQueryResultResponse,
    ContractError,
>)
    requires
        store.wf(),
    ensures
        match r {
            Ok(v) => latest_of(store@, channel_id@) == Ok::<_, ContractError>(*v),
            Err(e) => latest_of(store@, channel_id@) == Err::<IbcQueryResultResponse, _>(e),
        },
{
    match store.get(&channel_id) {
        Some(v) => Ok(v),
        None => Err(ContractError::NotFound),
    }
}

} // verus!
