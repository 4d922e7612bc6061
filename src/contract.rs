use crate::digest::{content_digest, sha256_hex};
use crate::keyed::{find, lemma_lookup_push, lemma_lookup_update};
use crate::state::{
    lemma_served_le_sum, lemma_sums_push, lemma_sums_update, ContentData, DCDNState, NodeInfo,
};
use crate::transitions::{
    download_post, op_post, register_post, report_post, update_metadata_post, upload_post,
};
use crate::types::{
    reply_unit, stamped, ContentMetadata, DCDNResponse, DcdnError, Operation,
};
use vstd::prelude::*;

verus! {

/// `used + b`, clamped to `cap`.
pub open spec fn clamp_add(used: int, b: int, cap: int) -> int {
    if used + b <= cap {
        used + b
    } else {
        cap
    }
}

/// The record of a node just registered.
pub open spec fn fresh_node(id: String, location: String, capacity: u64, now: u64) -> NodeInfo {
    NodeInfo {
        id,
        location,
        capacity,
        used_capacity: 0,
        available: true,
        created_at: now,
        data_served: 0,
    }
}

/// The record of node `n` after it reported serving `b` bytes.
pub open spec fn after_usage(n: NodeInfo, b: u64) -> NodeInfo {
    NodeInfo {
        id: n.id,
        location: n.location,
        capacity: n.capacity,
        used_capacity: clamp_add(n.used_capacity as int, b as int, n.capacity as int) as u64,
        available: n.available,
        created_at: n.created_at,
        data_served: (n.data_served + b) as u64,
    }
}

/// The record of content `bytes` just stored under `id` at time `now`.
pub open spec fn fresh_content(id: String, bytes: Vec<u8>, metadata: ContentMetadata, now: u64) -> ContentData {
    ContentData {
        id,
        content: bytes,
        metadata: stamped(metadata, id),
        created_at: now,
        last_accessed: now,
        access_count: 0,
    }
}

/// The record `c` after a download at time `now`.
pub open spec fn after_access(c: ContentData, now: u64) -> ContentData {
    ContentData {
        id: c.id,
        content: c.content,
        metadata: c.metadata,
        created_at: c.created_at,
        last_accessed: now,
        access_count: (c.access_count + 1) as u64,
    }
}

/// The record `c` with its metadata replaced by `m`.
pub open spec fn with_metadata(c: ContentData, m: ContentMetadata) -> ContentData {
    ContentData {
        id: c.id,
        content: c.content,
        metadata: m,
        created_at: c.created_at,
        last_accessed: c.last_accessed,
        access_count: c.access_count,
    }
}

/// The operation handler of the registry. Each method is one atomic
/// operation: it checks every precondition before it changes anything.
pub struct DCDNContract {
    pub state: DCDNState,
}

impl DCDNContract {
    pub open spec fn wf(&self) -> bool {
        self.state.wf()
    }

    /// A handler over an empty registry.
    pub fn new() -> (r: DCDNContract)
        ensures
            r.wf(),
            r.state.content_map@.len() == 0,
            r.state.nodes@.len() == 0,
            r.state.content_availability@.len() == 0,
            forall|id: Seq<char>| r.state.content(id) is None,
            forall|id: Seq<char>| r.state.node(id) is None,
            forall|id: Seq<char>| r.state.holders(id) is None,
            r.state.node_count == 0,
            r.state.total_capacity == 0,
            r.state.total_data_served == 0,
    {
        DCDNContract { state: DCDNState::new() }
    }

    /// Stores `content` under `id`, the digest that names it, at time `now`.
    /// Fails, changing nothing, where content is already stored under `id`.
    pub fn upload_content_with_id(
        &mut self,
        content: Vec<u8>,
        metadata: ContentMetadata,
        id: String,
        now: u64,
    ) -> (r: Result<String, DcdnError>)
        requires
            old(self).wf(),
        ensures
            final(self).wf(),
            upload_post(old(self).state, final(self).state, content, metadata, id@, now, r),
            r is Ok ==> r == Ok::<String, DcdnError>(id),
    {
        if find(&self.state.content_map, &id).is_some() {
            return Err(DcdnError::DuplicateContent);
        }
        let mut metadata = metadata;
        metadata.content_hash = Some(id.clone());
        let record = ContentData {
            id: id.clone(),
            content,
            metadata,
            created_at: now,
            last_accessed: now,
            access_count: 0,
        };
        proof {
            lemma_lookup_push(self.state.content_map@, record);
        }
        self.state.content_map.push(record);
        Ok(id)
    }

    /// Stores `content` under its SHA-256 digest in hex, at time `now`.
    /// Fails, changing nothing, where that content is already stored.
    pub fn upload_content(&mut self, content: Vec<u8>, metadata: ContentMetadata, now: u64) -> (r:
        Result<String, DcdnError>)
        requires
            old(self).wf(),
        ensures
            final(self).wf(),
            upload_post(
                old(self).state,
                final(self).state,
                content,
                metadata,
                sha256_hex(content@),
                now,
                r,
            ),
    {
        let id = content_digest(&content);
        self.upload_content_with_id(content, metadata, id, now)
    }

    /// Returns a copy of the bytes of content `content_id`, and records the
    /// access at time `now`.
    pub fn download_content(&mut self, content_id: String, now: u64) -> (r: Result<Vec<u8>, DcdnError>)
        requires
            old(self).wf(),
            old(self).state.content(content_id@) matches Some(c) ==> c.access_count < u64::MAX,
        ensures
            final(self).wf(),
            download_post(old(self).state, final(self).state, content_id@, now, r),
    {
        let i = match find(&self.state.content_map, &content_id) {
            Some(i) => i,
            None => {
                return Err(DcdnError::ContentNotFound);
            },
        };
        let ghost before = self.state.content_map@;
        let count = self.state.content_map[i].access_count + 1;
        self.state.content_map[i].last_accessed = now;
        self.state.content_map[i].access_count = count;
        proof {
            let r = after_access(before[i as int], now);
            assert(self.state.content_map@ == before.update(i as int, r));
            lemma_lookup_update(before, i as int, r);
        }
        Ok(self.state.content_map[i].content.clone())
    }

    /// Replaces the metadata of content `content_id` with `metadata`.
    pub fn update_metadata(&mut self, content_id: String, metadata: ContentMetadata) -> (r: Result<
        (),
        DcdnError,
    >)
        requires
            old(self).wf(),
        ensures
            final(self).wf(),
            update_metadata_post(old(self).state, final(self).state, content_id@, metadata, r),
    {
        let i = match find(&self.state.content_map, &content_id) {
            Some(i) => i,
            None => {
                return Err(DcdnError::ContentNotFound);
            },
        };
        let ghost before = self.state.content_map@;
        self.state.content_map[i].metadata = metadata;
        proof {
            let r = with_metadata(before[i as int], metadata);
            assert(self.state.content_map@ == before.update(i as int, r));
            lemma_lookup_update(before, i as int, r);
        }
        Ok(())
    }

    /// Registers a node with the given capacity, at time `now`.
    pub fn register_node(&mut self, node_id: String, location: String, capacity: u64, now: u64) -> (r:
        Result<(), DcdnError>)
        requires
            old(self).wf(),
            old(self).state.node_count < u64::MAX,
            old(self).state.total_capacity + capacity <= u64::MAX,
        ensures
            final(self).wf(),
            register_post(old(self).state, final(self).state, node_id, location, capacity, now, r),
    {
        if find(&self.state.nodes, &node_id).is_some() {
            return Err(DcdnError::NodeAlreadyRegistered);
        }
        let ghost before = self.state.nodes@;
        let info = NodeInfo {
            id: node_id,
            location,
            capacity,
            used_capacity: 0,
            available: true,
            created_at: now,
            data_served: 0,
        };
        proof {
            lemma_lookup_push(before, info);
            lemma_sums_push(before, info);
        }
        self.state.nodes.push(info);
        self.state.node_count = self.state.node_count + 1;
        self.state.total_capacity = self.state.total_capacity + capacity;
        proof {
            assert(self.state.nodes@ == before.push(info));
            assert forall|i: int| 0 <= i < self.state.nodes@.len() implies #[trigger] self.state.nodes@[i].used_capacity
                <= self.state.nodes@[i].capacity by {
                if i < before.len() {
                    assert(self.state.nodes@[i] == before[i]);
                }
            }
        }
        Ok(())
    }

    /// Records that node `node_id` served `bytes_served` bytes of content
    /// `content_id`.
    pub fn report_usage(&mut self, node_id: String, content_id: String, bytes_served: u64) -> (r:
        Result<(), DcdnError>)
        requires
            old(self).wf(),
            old(self).state.total_data_served + bytes_served <= u64::MAX,
        ensures
            final(self).wf(),
            report_post(old(self).state, final(self).state, node_id@, content_id@, bytes_served, r),
    {
        let i = match find(&self.state.nodes, &node_id) {
            Some(i) => i,
            None => {
                return Err(DcdnError::NodeNotFound);
            },
        };
        if find(&self.state.content_map, &content_id).is_none() {
            return Err(DcdnError::ContentNotFound);
        }
        let ghost before = self.state.nodes@;
        proof {
            lemma_served_le_sum(before, i as int);
        }
        let cap = self.state.nodes[i].capacity;
        let used = self.state.nodes[i].used_capacity;
        let new_used: u64 = if bytes_served <= cap - used {
            used + bytes_served
        } else {
            cap
        };
        let served = self.state.nodes[i].data_served + bytes_served;
        self.state.nodes[i].used_capacity = new_used;
        self.state.nodes[i].data_served = served;
        self.state.total_data_served = self.state.total_data_served + bytes_served;
        proof {
            let r = after_usage(before[i as int], bytes_served);
            assert(self.state.nodes@ == before.update(i as int, r));
            lemma_lookup_update(before, i as int, r);
            lemma_sums_update(before, i as int, r);
            assert forall|j: int| 0 <= j < self.state.nodes@.len() implies #[trigger] self.state.nodes@[j].used_capacity
                <= self.state.nodes@[j].capacity by {
                if j != i {
                    assert(self.state.nodes@[j] == before[j]);
                }
            }
        }
        Ok(())
    }
    /// Whether applying `op` keeps every counter within `u64`.
    pub open spec fn admits(&self, op: Operation) -> bool {
        match op {
            Operation::Download { content_id } => self.state.content(content_id@) matches Some(
                c,
            ) ==> c.access_count < u64::MAX,
            Operation::RegisterNode { capacity, .. } => self.state.node_count < u64::MAX
                && self.state.total_capacity + capacity <= u64::MAX,
            Operation::ReportUsage { bytes_served, .. } => self.state.total_data_served
                + bytes_served <= u64::MAX,
            _ => true,
        }
    }

    /// Whether applying `op` keeps every counter within `u64`.
    pub fn within_limits(&self, op: &Operation) -> (r: bool)
        requires
            self.wf(),
        ensures
            r == self.admits(*op),
    {
        match op {
            Operation::Download { content_id } => match find(&self.state.content_map, content_id) {
                Some(i) => self.state.content_map[i].access_count < u64::MAX,
                None => true,
            },
            Operation::RegisterNode { capacity, .. } => self.state.node_count < u64::MAX
                && *capacity <= u64::MAX - self.state.total_capacity,
            Operation::ReportUsage { bytes_served, .. } => *bytes_served <= u64::MAX
                - self.state.total_data_served,
            _ => true,
        }
    }

    /// Applies one operation at time `now` and answers it.
    pub fn execute_operation(&mut self, op: Operation, now: u64) -> (resp: DCDNResponse)
        requires
            old(self).wf(),
            old(self).admits(op),
        ensures
            final(self).wf(),
            op_post(old(self).state, final(self).state, op, now, resp),
    {
        match op {
            Operation::Upload { content, metadata } => {
                let r = self.upload_content(content, metadata, now);
                match r {
                    Ok(content_id) => DCDNResponse::UploadSuccess { content_id },
                    Err(e) => DCDNResponse::Error { message: e.message() },
                }
            },
            Operation::RequestCache { content_id, node_id } => {
                let r = self.request_cache(content_id, node_id);
                reply_unit(r, DCDNResponse::CacheRequestAccepted)
            },
            Operation::UpdateAvailability { content_id, node_id, available } => {
                self.update_availability(content_id, node_id, available);
                DCDNResponse::CacheRequestAccepted
            },
            Operation::Download { content_id } => {
                let r = self.download_content(content_id, now);
                match r {
                    Ok(content) => DCDNResponse::DownloadSuccess { content },
                    Err(e) => DCDNResponse::Error { message: e.message() },
                }
            },
            Operation::RegisterNode { node_id, location, capacity } => {
                let r = self.register_node(node_id, location, capacity, now);
                reply_unit(r, DCDNResponse::NodeRegistered)
            },
            Operation::ReportUsage { node_id, content_id, bytes_served } => {
                let r = self.report_usage(node_id, content_id, bytes_served);
                reply_unit(r, DCDNResponse::UsageReported)
            },
            Operation::UpdateMetadata { content_id, metadata } => {
                let r = self.update_metadata(content_id, metadata);
                reply_unit(r, DCDNResponse::MetadataUpdated)
            },
        }
    }
}

} // verus!
