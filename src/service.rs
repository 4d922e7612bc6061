use crate::keyed::find;
use crate::state::{texts, ContentData, DCDNState, NodeInfo};
use crate::types::ContentMetadata;
use vstd::prelude::*;

verus! {

/// Read-only queries over a snapshot of the registry. No query changes it.
pub struct DCDNService {
    pub state: DCDNState,
}

/// A copy of `v`, string by string.
fn copy_strings(v: &Vec<String>) -> (r: Vec<String>)
    ensures
        r@ == v@,
{
    let mut out: Vec<String> = Vec::new();
    let mut i: usize = 0;
    while i < v.len()
        invariant
            i <= v@.len(),
            out@ == v@.take(i as int),
        decreases v@.len() - i,
    {
        out.push(v[i].clone());
        assert(out@ =~= v@.take(i + 1));
        i += 1;
    }
    assert(v@.take(v@.len() as int) =~= v@);
    out
}

impl DCDNService {
    pub open spec fn wf(&self) -> bool {
        self.state.wf()
    }

    /// Queries over `state`.
    pub fn new(state: DCDNState) -> (r: DCDNService)
        requires
            state.wf(),
        ensures
            r.wf(),
            r.state == state,
    {
        DCDNService { state }
    }

    /// Whether content is stored under `content_id`.
    pub fn content_exists(&self, content_id: &String) -> (r: bool)
        requires
            self.wf(),
        ensures
            r == self.state.content(content_id@) is Some,
    {
        find(&self.state.content_map, content_id).is_some()
    }

    pub fn get_node_count(&self) -> (r: u64)
        ensures
            r == self.state.node_count,
    {
        self.state.node_count
    }

    pub fn get_total_capacity(&self) -> (r: u64)
        ensures
            r == self.state.total_capacity,
    {
        self.state.total_capacity
    }

    pub fn get_total_data_served(&self) -> (r: u64)
        ensures
            r == self.state.total_data_served,
    {
        self.state.total_data_served
    }

    /// The record of node `node_id`.
    pub fn get_node(&self, node_id: &String) -> (r: Option<&NodeInfo>)
        requires
            self.wf(),
        ensures
            match r {
                Some(n) => self.state.node(node_id@) == Some(*n),
                None => self.state.node(node_id@) is None,
            },
    {
        match find(&self.state.nodes, node_id) {
            Some(i) => Some(&self.state.nodes[i]),
            None => None,
        }
    }

    /// The record of content `content_id`.
    pub fn get_content(&self, content_id: &String) -> (r: Option<&ContentData>)
        requires
            self.wf(),
        ensures
            match r {
                Some(c) => self.state.content(content_id@) == Some(*c),
                None => self.state.content(content_id@) is None,
            },
    {
        match find(&self.state.content_map, content_id) {
            Some(i) => Some(&self.state.content_map[i]),
            None => None,
        }
    }

    /// The metadata of content `content_id`.
    pub fn get_content_metadata(&self, content_id: &String) -> (r: Option<&ContentMetadata>)
        requires
            self.wf(),
        ensures
            match r {
                Some(m) => self.state.content(content_id@) matches Some(c) && c.metadata == *m,
                None => self.state.content(content_id@) is None,
            },
    {
        match self.get_content(content_id) {
            Some(c) => Some(&c.metadata),
            None => None,
        }
    }

    /// The nodes recorded as holding content `content_id`; none where it has
    /// no availability entry.
    pub fn get_content_nodes(&self, content_id: &String) -> (r: Vec<String>)
        requires
            self.wf(),
        ensures
            texts(r@) == match self.state.holders(content_id@) {
                Some(h) => h,
                None => Seq::<Seq<char>>::empty(),
            },
    {
        match find(&self.state.content_availability, content_id) {
            Some(i) => copy_strings(&self.state.content_availability[i].node_ids),
            None => {
                let r: Vec<String> = Vec::new();
                assert(texts(r@) =~= Seq::<Seq<char>>::empty());
                r
            },
        }
    }
}

} // verus!
