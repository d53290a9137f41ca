//! The result store: the latest query result of each channel.
use vstd::prelude::*;

use crate::ibc::IbcPacketAckMsg;

verus! {

/// The latest result received on a channel: when it was processed, in
/// nanoseconds of block time, and the acknowledgement verbatim.
#[derive(Clone, Debug, PartialEq, Eq)]
pub struct IbcQueryResultResponse {
    pub last_update_time: u64,
    pub response: IbcPacketAckMsg,
}

struct Entry {
    channel_id: String,
    result: IbcQueryResultResponse,
}

/// A mapping from channel identifier to the latest result received on it.
/// Each channel has at most one entry; a new result replaces the old one.
pub struct ResultStore {
    entries: Vec<Entry>,
    contents: Ghost<Map<Seq<char>, IbcQueryResultResponse>>,
}

/// The result kept for `channel` in the store contents `m`, if any.
pub open spec fn stored(
    m: Map<Seq<char>, IbcQueryResultResponse>,
    channel: Seq<char>,
) -> Option<IbcQueryResultResponse> {
    if m.contains_key(channel) {
        Some(m[channel])
    } else {
        None
    }
}

/// Last write wins: after putting `r1` and then `r2` under one channel, the
/// channel holds `r2`, and the store is as if only `r2` had been put.
pub proof fn lemma_put_put_get(
    m: Map<Seq<char>, IbcQueryResultResponse>,
    channel: Seq<char>,
    r1: IbcQueryResultResponse,
    r2: IbcQueryResultResponse,
)
    ensures
        stored(m.insert(channel, r1).insert(channel, r2), channel) == Some(r2),
        m.insert(channel, r1).insert(channel, r2) == m.insert(channel, r2),
{
    assert(m.insert(channel, r1).insert(channel, r2) =~= m.insert(channel, r2));
}

impl View for ResultStore {
    type V = Map<Seq<char>, IbcQueryResultResponse>;

    closed spec fn view(&self) -> Map<Seq<char>, IbcQueryResultResponse> {
        self.contents@
    }
}

impl ResultStore {
    /// The entries hold exactly the contents, one entry per channel.
    pub closed spec fn wf(&self) -> bool {
        &&& forall|i: int|
            0 <= i < self.entries@.len() ==> {
                let e = #[trigger] self.entries@[i];
                &&& self.contents@.contains_key(e.channel_id@)
                &&& self.contents@[e.channel_id@] == e.result
            }
        &&& forall|k: Seq<char>|
            #[trigger] self.contents@.contains_key(k) ==> exists|i: int|
                0 <= i < self.entries@.len() && (#[trigger] self.entries@[i]).channel_id@ == k
        &&& forall|i: int, j: int|
            0 <= i < j < self.entries@.len() ==> (#[trigger] self.entries@[i]).channel_id@
                != (#[trigger] self.entries@[j]).channel_id@
    }

    /// An empty store.
    pub fn new() -> (r: ResultStore)
        ensures
            r.wf(),
            r@ == Map::<Seq<char>, IbcQueryResultResponse>::empty(),
    {
        ResultStore { entries: Vec::new(), contents: Ghost(Map::empty()) }
    }

    /// Where the entry of `channel_id` stands, if there is one.
    fn position(&self, channel_id: &String) -> (r: Option<usize>)
        requires
            self.wf(),
        ensures
            match r {
                Some(i) => i < self.entries@.len() && self.entries@[i as int].channel_id@
                    == channel_id@,
                None => !self@.contains_key(channel_id@),
            },
    {
        let mut i: usize = 0;
        while i < self.entries.len()
            invariant
                self.wf(),
                i <= self.entries@.len(),
                forall|j: int| 0 <= j < i ==> (#[trigger] self.entries@[j]).channel_id@ != channel_id@,
            decreases self.entries@.len() - i,
        {
            if self.entries[i].channel_id == *channel_id {
                return Some(i);
            }
            i = i + 1;
        }
        None
    }

    /// The latest result of `channel_id`, or `None` where nothing was
    /// ever stored for it.
    pub fn get(&self, channel_id: &String) -> (r: Option<&IbcQueryResultResponse>)
        requires
            self.wf(),
        ensures
            match r {
                Some(v) => stored(self@, channel_id@) == Some(*v),
                None => stored(self@, channel_id@) is None,
            },
    {
        match self.position(channel_id) {
            Some(i) => Some(&self.entries[i].result),
            None => None,
        }
    }

    /// Stores `result` as the latest result of `channel_id`, replacing any
    /// earlier one.
    pub fn put(&mut self, channel_id: String, result: IbcQueryResultResponse)
        requires
            old(self).wf(),
        ensures
            final(self).wf(),
            final(self)@ == old(self)@.insert(channel_id@, result),
    {
        let ghost key = channel_id@;
        let ghost before = self.entries@;
        let ghost contents = self.contents@.insert(key, result);
        match self.position(&channel_id) {
            Some(i) => {
                self.entries.set(i, Entry { channel_id, result });
                self.contents = Ghost(contents);
                assert forall|k: Seq<char>| #[trigger] self.contents@.contains_key(k) implies exists|
                    j: int,
                | 0 <= j < self.entries@.len() && (#[trigger] self.entries@[j]).channel_id@ == k by {
                    if k != key {
                        let j = choose|j: int|
                            0 <= j < before.len() && (#[trigger] before[j]).channel_id@ == k;
                        assert(self.entries@[j] == before[j]);
                    } else {
                        assert(self.entries@[i as int].channel_id@ == k);
                    }
                }
            },
            None => {
                self.entries.push(Entry { channel_id, result });
                self.contents = Ghost(contents);
                assert forall|k: Seq<char>| #[trigger] self.contents@.contains_key(k) implies exists|
                    j: int,
                | 0 <= j < self.entries@.len() && (#[trigger] self.entries@[j]).channel_id@ == k by {
                    if k != key {
                        let j = choose|j: int|
                            0 <= j < before.len() && (#[trigger] before[j]).channel_id@ == k;
                        assert(self.entries@[j] == before[j]);
                    } else {
                        assert(self.entries@[before.len() as int].channel_id@ == k);
                    }
                }
            },
        }
    }
}

} // verus!
