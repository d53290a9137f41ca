//! What the contract is called with and what it answers.
use vstd::prelude::*;

use crate::ibc::IbcPacketAckMsg;

verus! {

/// An amount of one denomination of tokens.
#[derive(Clone, Debug, PartialEq, Eq)]
pub struct Coin {
    pub denom: String,
    pub amount: u128,
}

/// Who invoked a call and the funds attached to it.
#[derive(Clone, Debug, PartialEq, Eq)]
pub struct MessageInfo {
    pub sender: String,
    pub funds: Vec<Coin>,
}

/// The environment of a call: the time of the current block, in nanoseconds.
#[derive(Clone, Copy, Debug, PartialEq, Eq)]
pub struct Env {
    pub block_time: u64,
}

/// Instantiation takes no configuration.
#[derive(Clone, Copy, Debug, PartialEq, Eq)]
pub struct InstantiateMsg {}

/// An acknowledgement handed over for receipt, together with the funds that
/// accompany its delivery and are owed to the relayer.
#[derive(Clone, Debug, PartialEq, Eq)]
pub struct ReceiveIbcResponseMsg {
    pub msg: IbcPacketAckMsg,
    pub funds: Vec<Coin>,
}

/// The operations that change state.
#[derive(Clone, Debug, PartialEq, Eq)]
pub enum ExecuteMsg {
    ReceiveIbcResponse(ReceiveIbcResponseMsg),
}

/// The read-only operations.
#[derive(Clone, Debug, PartialEq, Eq)]
pub enum QueryMsg {
    LatestQueryResult { channel_id: String },
}

/// A transfer of tokens for the host to carry out alongside the call.
#[derive(Clone, Debug, PartialEq, Eq)]
pub enum BankMsg {
    Send { to_address: String, amount: Vec<Coin> },
}

/// A key and a value describing what a call did.
#[derive(Clone, Debug, PartialEq, Eq)]
pub struct Attribute {
    pub key: String,
    pub value: String,
}

/// What a successful call hands back to the host: effects to carry out and
/// attributes to record.
#[derive(Clone, Debug, PartialEq, Eq)]
pub struct Response {
    pub messages: Vec<BankMsg>,
    pub attributes: Vec<Attribute>,
}

impl Response {
    /// The response holds one transfer of `amount` to `to_address` and nothing else.
    pub open spec fn pays_only(&self, to_address: String, amount: Vec<Coin>) -> bool {
        &&& self.messages@.len() == 1
        &&& self.messages@[0] == (BankMsg::Send { to_address, amount })
        &&& self.attributes@.len() == 0
    }
}

} // verus!
