//! What each operation does to the registry, as a relation between the state
//! before, the state after, the inputs and the result.
use crate::availability::{set_holder, with_holder};
use crate::contract::{after_access, after_usage, fresh_content, fresh_node, with_metadata};
use crate::state::DCDNState;
use crate::digest::sha256_hex;
use crate::types::{
    download_reply, unit_reply, upload_reply, ContentMetadata, DCDNResponse, DcdnError, Operation,
};
use vstd::prelude::*;

verus! {

/// No content record other than that of `id` changed.
pub open spec fn other_contents_kept(s0: DCDNState, s1: DCDNState, id: Seq<char>) -> bool {
    forall|k: Seq<char>| k != id ==> #[trigger] s1.content(k) == s0.content(k)
}

/// No node record other than that of `id` changed.
pub open spec fn other_nodes_kept(s0: DCDNState, s1: DCDNState, id: Seq<char>) -> bool {
    forall|k: Seq<char>| k != id ==> #[trigger] s1.node(k) == s0.node(k)
}

/// No availability entry other than that of `id` changed.
pub open spec fn other_holders_kept(s0: DCDNState, s1: DCDNState, id: Seq<char>) -> bool {
    forall|k: Seq<char>| k != id ==> #[trigger] s1.holders(k) == s0.holders(k)
}

/// The node records and the three counters are unchanged.
pub open spec fn nodes_kept(s0: DCDNState, s1: DCDNState) -> bool {
    &&& s1.nodes == s0.nodes
    &&& s1.node_count == s0.node_count
    &&& s1.total_capacity == s0.total_capacity
    &&& s1.total_data_served == s0.total_data_served
}

/// Storing `content` under `id`.
pub open spec fn upload_post(
    s0: DCDNState,
    s1: DCDNState,
    content: Vec<u8>,
    metadata: ContentMetadata,
    id: Seq<char>,
    now: u64,
    r: Result<String, DcdnError>,
) -> bool {
    if s0.content(id) is Some {
        r == Err::<String, DcdnError>(DcdnError::DuplicateContent) && s1 == s0
    } else {
        &&& r matches Ok(h) && h@ == id
        &&& s1.content(id) == Some(fresh_content(r->Ok_0, content, metadata, now))
        &&& other_contents_kept(s0, s1, id)
        &&& s1.content_availability == s0.content_availability
        &&& nodes_kept(s0, s1)
    }
}

/// Downloading content `id` at time `now`.
pub open spec fn download_post(
    s0: DCDNState,
    s1: DCDNState,
    id: Seq<char>,
    now: u64,
    r: Result<Vec<u8>, DcdnError>,
) -> bool {
    match s0.content(id) {
        None => r == Err::<Vec<u8>, DcdnError>(DcdnError::ContentNotFound) && s1 == s0,
        Some(c) => {
            &&& r matches Ok(b) && b@ == c.content@
            &&& s1.content(id) == Some(after_access(c, now))
            &&& other_contents_kept(s0, s1, id)
            &&& s1.content_availability == s0.content_availability
            &&& nodes_kept(s0, s1)
        },
    }
}

/// Replacing the metadata of content `id`.
pub open spec fn update_metadata_post(
    s0: DCDNState,
    s1: DCDNState,
    id: Seq<char>,
    metadata: ContentMetadata,
    r: Result<(), DcdnError>,
) -> bool {
    match s0.content(id) {
        None => r == Err::<(), DcdnError>(DcdnError::ContentNotFound) && s1 == s0,
        Some(c) => {
            &&& r == Ok::<(), DcdnError>(())
            &&& s1.content(id) == Some(with_metadata(c, metadata))
            &&& other_contents_kept(s0, s1, id)
            &&& s1.content_availability == s0.content_availability
            &&& nodes_kept(s0, s1)
        },
    }
}

/// Registering node `node_id`.
pub open spec fn register_post(
    s0: DCDNState,
    s1: DCDNState,
    node_id: String,
    location: String,
    capacity: u64,
    now: u64,
    r: Result<(), DcdnError>,
) -> bool {
    if s0.node(node_id@) is Some {
        r == Err::<(), DcdnError>(DcdnError::NodeAlreadyRegistered) && s1 == s0
    } else {
        &&& r == Ok::<(), DcdnError>(())
        &&& s1.node(node_id@) == Some(fresh_node(node_id, location, capacity, now))
        &&& other_nodes_kept(s0, s1, node_id@)
        &&& s1.node_count == s0.node_count + 1
        &&& s1.total_capacity == s0.total_capacity + capacity
        &&& s1.total_data_served == s0.total_data_served
        &&& s1.content_map == s0.content_map
        &&& s1.content_availability == s0.content_availability
    }
}

/// Node `node_id` reporting `bytes` served of content `content_id`.
pub open spec fn report_post(
    s0: DCDNState,
    s1: DCDNState,
    node_id: Seq<char>,
    content_id: Seq<char>,
    bytes: u64,
    r: Result<(), DcdnError>,
) -> bool {
    if s0.node(node_id) is None {
        r == Err::<(), DcdnError>(DcdnError::NodeNotFound) && s1 == s0
    } else if s0.content(content_id) is None {
        r == Err::<(), DcdnError>(DcdnError::ContentNotFound) && s1 == s0
    } else {
        &&& r == Ok::<(), DcdnError>(())
        &&& s1.node(node_id) == Some(after_usage(s0.node(node_id).unwrap(), bytes))
        &&& other_nodes_kept(s0, s1, node_id)
        &&& s1.node_count == s0.node_count
        &&& s1.total_capacity == s0.total_capacity
        &&& s1.total_data_served == s0.total_data_served + bytes
        &&& s1.content_map == s0.content_map
        &&& s1.content_availability == s0.content_availability
    }
}

/// Asking node `node_id` to hold content `content_id`.
pub open spec fn request_cache_post(
    s0: DCDNState,
    s1: DCDNState,
    content_id: Seq<char>,
    node_id: Seq<char>,
    r: Result<(), DcdnError>,
) -> bool {
    if s0.content(content_id) is None {
        r == Err::<(), DcdnError>(DcdnError::ContentNotFound) && s1 == s0
    } else if s0.node(node_id) is None {
        r == Err::<(), DcdnError>(DcdnError::NodeNotFound) && s1 == s0
    } else {
        &&& r == Ok::<(), DcdnError>(())
        &&& s1.holders(content_id) == Some(with_holder(s0.holders(content_id), node_id))
        &&& other_holders_kept(s0, s1, content_id)
        &&& s1.content_map == s0.content_map
        &&& nodes_kept(s0, s1)
    }
}

/// Marking node `node_id` as holding content `content_id` or not.
pub open spec fn availability_post(
    s0: DCDNState,
    s1: DCDNState,
    content_id: Seq<char>,
    node_id: Seq<char>,
    present: bool,
) -> bool {
    &&& s1.holders(content_id) == set_holder(s0.holders(content_id), node_id, present)
    &&& other_holders_kept(s0, s1, content_id)
    &&& s1.content_map == s0.content_map
    &&& nodes_kept(s0, s1)
}

/// Applying `op` at time `now` takes `s0` to `s1` and answers `resp`.
pub open spec fn op_post(
    s0: DCDNState,
    s1: DCDNState,
    op: Operation,
    now: u64,
    resp: DCDNResponse,
) -> bool {
    match op {
        Operation::Upload { content, metadata } => exists|r: Result<String, DcdnError>|
            #[trigger] upload_post(
                s0,
                s1,
                content,
                metadata,
                sha256_hex(content@),
                now,
                r,
            ) && upload_reply(resp, r),
        Operation::RequestCache { content_id, node_id } => exists|r: Result<(), DcdnError>|
            #[trigger] request_cache_post(
                s0,
                s1,
                content_id@,
                node_id@,
                r,
            ) && unit_reply(resp, r, DCDNResponse::CacheRequestAccepted),
        Operation::UpdateAvailability { content_id, node_id, available } => {
            &&& availability_post(
                s0,
                s1,
                content_id@,
                node_id@,
                available,
            )
            &&& resp == DCDNResponse::CacheRequestAccepted
        },
        Operation::Download { content_id } => exists|r: Result<Vec<u8>, DcdnError>|
            #[trigger] download_post(s0, s1, content_id@, now, r)
                && download_reply(resp, r),
        Operation::RegisterNode { node_id, location, capacity } => exists|
            r: Result<(), DcdnError>,
        |
            #[trigger] register_post(
                s0,
                s1,
                node_id,
                location,
                capacity,
                now,
                r,
            ) && unit_reply(resp, r, DCDNResponse::NodeRegistered),
        Operation::ReportUsage { node_id, content_id, bytes_served } => exists|
            r: Result<(), DcdnError>,
        |
            #[trigger] report_post(
                s0,
                s1,
                node_id@,
                content_id@,
                bytes_served,
                r,
            ) && unit_reply(resp, r, DCDNResponse::UsageReported),
        Operation::UpdateMetadata { content_id, metadata } => exists|
            r: Result<(), DcdnError>,
        |
            #[trigger] update_metadata_post(
                s0,
                s1,
                content_id@,
                metadata,
                r,
            ) && unit_reply(resp, r, DCDNResponse::MetadataUpdated),
    }
}

} // verus!
