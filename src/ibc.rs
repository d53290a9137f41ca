//! The acknowledgement packet as the transport hands it over.
use vstd::prelude::*;

verus! {

/// One end of a channel: a port and the channel's identifier on that chain.
#[derive(Clone, Debug, PartialEq, Eq)]
pub struct IbcEndpoint {
    pub port_id: String,
    pub channel_id: String,
}

/// A block height on the counterparty chain after which a packet times out.
#[derive(Clone, Copy, Debug, PartialEq, Eq)]
pub struct IbcTimeoutBlock {
    pub revision: u64,
    pub height: u64,
}

/// When a packet times out: a block height, a time in nanoseconds, or both.
#[derive(Clone, Copy, Debug, PartialEq, Eq)]
pub struct IbcTimeout {
    pub block: Option<IbcTimeoutBlock>,
    pub timestamp: Option<u64>,
}

/// An outbound packet: its data, both of its ends, its sequence number and its timeout.
#[derive(Clone, Debug, PartialEq, Eq)]
pub struct IbcPacket {
    pub data: Vec<u8>,
    pub src: IbcEndpoint,
    pub dest: IbcEndpoint,
    pub sequence: u64,
    pub timeout: IbcTimeout,
}

/// An acknowledgement as delivered: the answer, the packet it answers, and
/// the address of the relayer that carried it.
#[derive(Clone, Debug, PartialEq, Eq)]
pub struct IbcPacketAckMsg {
    pub acknowledgement: Vec<u8>,
    pub original_packet: IbcPacket,
    pub relayer: String,
}

impl IbcPacketAckMsg {
    /// The local channel the acknowledged packet was sent on.
    pub open spec fn source_channel(&self) -> Seq<char> {
        self.original_packet.src.channel_id@
    }
}

} // verus!
