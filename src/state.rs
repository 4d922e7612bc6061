use crate::keyed::{keys_unique, lookup, Keyed};
use crate::types::ContentMetadata;
use vstd::prelude::*;

verus! {

/// A stored content object with its access bookkeeping.
pub struct ContentData {
    pub id: String,
    pub content: Vec<u8>,
    pub metadata: ContentMetadata,
    pub created_at: u64,
    pub last_accessed: u64,
    /// Number of times this content has been accessed
    pub access_count: u64,
}

/// A registered storage node with its capacity and usage accounting.
pub struct NodeInfo {
    pub id: String,
    pub location: String,
    pub capacity: u64,
    pub used_capacity: u64,
    pub available: bool,
    pub created_at: u64,
    /// Amount of data this node has served
    pub data_served: u64,
}

/// The nodes that hold (or are asked to hold) one content object.
pub struct AvailabilityEntry {
    pub content_id: String,
    pub node_ids: Vec<String>,
}

impl Keyed for ContentData {
    open spec fn key(&self) -> Seq<char> {
        self.id@
    }

    fn key_ref(&self) -> (r: &String) {
        &self.id
    }
}

impl Keyed for NodeInfo {
    open spec fn key(&self) -> Seq<char> {
        self.id@
    }

    fn key_ref(&self) -> (r: &String) {
        &self.id
    }
}

impl Keyed for AvailabilityEntry {
    open spec fn key(&self) -> Seq<char> {
        self.content_id@
    }

    fn key_ref(&self) -> (r: &String) {
        &self.content_id
    }
}

/// The texts of a sequence of strings.
pub open spec fn texts(v: Seq<String>) -> Seq<Seq<char>> {
    v.map_values(|x: String| x@)
}

/// No text occurs twice in `s`.
pub open spec fn no_dups(s: Seq<Seq<char>>) -> bool {
    forall|i: int, j: int| 0 <= i < s.len() && 0 <= j < s.len() && i != j ==> s[i] != s[j]
}

/// The sum of the capacities of the nodes of `s`.
pub open spec fn sum_capacity(s: Seq<NodeInfo>) -> int
    decreases s.len(),
{
    if s.len() == 0 {
        0
    } else {
        sum_capacity(s.drop_last()) + s.last().capacity
    }
}

/// The sum of the bytes served by the nodes of `s`.
pub open spec fn sum_served(s: Seq<NodeInfo>) -> int
    decreases s.len(),
{
    if s.len() == 0 {
        0
    } else {
        sum_served(s.drop_last()) + s.last().data_served
    }
}

pub proof fn lemma_sums_push(s: Seq<NodeInfo>, r: NodeInfo)
    ensures
        sum_capacity(s.push(r)) == sum_capacity(s) + r.capacity,
        sum_served(s.push(r)) == sum_served(s) + r.data_served,
{
    assert(s.push(r).drop_last() == s);
}

pub proof fn lemma_sums_update(s: Seq<NodeInfo>, i: int, r: NodeInfo)
    requires
        0 <= i < s.len(),
    ensures
        sum_capacity(s.update(i, r)) == sum_capacity(s) - s[i].capacity + r.capacity,
        sum_served(s.update(i, r)) == sum_served(s) - s[i].data_served + r.data_served,
    decreases s.len(),
{
    let t = s.update(i, r);
    if i == s.len() - 1 {
        assert(t.drop_last() == s.drop_last());
    } else {
        lemma_sums_update(s.drop_last(), i, r);
        assert(t.drop_last() == s.drop_last().update(i, r));
    }
}

pub proof fn lemma_sums_nonneg(s: Seq<NodeInfo>)
    ensures
        sum_capacity(s) >= 0,
        sum_served(s) >= 0,
    decreases s.len(),
{
    if s.len() > 0 {
        lemma_sums_nonneg(s.drop_last());
    }
}

/// Each node's served bytes are at most the sum over all nodes.
pub proof fn lemma_served_le_sum(s: Seq<NodeInfo>, i: int)
    requires
        0 <= i < s.len(),
    ensures
        s[i].data_served <= sum_served(s),
    decreases s.len(),
{
    lemma_sums_nonneg(s.drop_last());
    if i < s.len() - 1 {
        lemma_served_le_sum(s.drop_last(), i);
    }
}

/// The whole registry: content records, node records, the availability
/// index, and the aggregate counters.
pub struct DCDNState {
    /// Content records, keyed by content id
    pub content_map: Vec<ContentData>,
    /// For each content id, the nodes that hold it
    pub content_availability: Vec<AvailabilityEntry>,
    /// Node records, keyed by node id
    pub nodes: Vec<NodeInfo>,
    /// Total number of registered nodes
    pub node_count: u64,
    /// Total storage capacity across all nodes
    pub total_capacity: u64,
    /// Total amount of data served (for payment calculations)
    pub total_data_served: u64,
}

impl DCDNState {
    /// The record stored under content id `id`.
    pub open spec fn content(&self, id: Seq<char>) -> Option<ContentData> {
        lookup(self.content_map@, id)
    }

    /// The record of node `id`.
    pub open spec fn node(&self, id: Seq<char>) -> Option<NodeInfo> {
        lookup(self.nodes@, id)
    }

    /// The availability entry of content id `id`, as its node ids.
    pub open spec fn holders(&self, id: Seq<char>) -> Option<Seq<Seq<char>>> {
        match lookup(self.content_availability@, id) {
            Some(e) => Some(texts(e.node_ids@)),
            None => None,
        }
    }

    pub open spec fn wf(&self) -> bool {
        &&& keys_unique(self.content_map@)
        &&& keys_unique(self.nodes@)
        &&& keys_unique(self.content_availability@)
        &&& forall|i: int|
            0 <= i < self.content_availability@.len() ==> no_dups(
                texts(#[trigger] self.content_availability@[i].node_ids@),
            )
        &&& forall|i: int|
            0 <= i < self.nodes@.len() ==> #[trigger] self.nodes@[i].used_capacity
                <= self.nodes@[i].capacity
        &&& self.node_count == self.nodes@.len()
        &&& self.total_capacity == sum_capacity(self.nodes@)
        &&& self.total_data_served == sum_served(self.nodes@)
    }

    /// An empty registry.
    pub fn new() -> (r: DCDNState)
        ensures
            r.wf(),
            r.content_map@.len() == 0,
            r.nodes@.len() == 0,
            r.content_availability@.len() == 0,
            forall|id: Seq<char>| r.content(id) is None,
            forall|id: Seq<char>| r.node(id) is None,
            forall|id: Seq<char>| r.holders(id) is None,
            r.node_count == 0,
            r.total_capacity == 0,
            r.total_data_served == 0,
    {
        DCDNState {
            content_map: Vec::new(),
            content_availability: Vec::new(),
            nodes: Vec::new(),
            node_count: 0,
            total_capacity: 0,
            total_data_served: 0,
        }
    }
}

} // verus!
