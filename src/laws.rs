//! Properties of the registry that relate several operations.
use crate::availability::with_holder;
use crate::contract::{clamp_add, fresh_content};
use crate::digest::sha256_hex;
use crate::keyed::keyed_at;
use crate::state::{no_dups, sum_capacity, sum_served, texts, DCDNState};
use crate::transitions::{download_post, op_post, request_cache_post, upload_post};
use crate::types::{ContentMetadata, DCDNResponse, DcdnError, Operation};
use vstd::prelude::*;

verus! {

/// `ss[0]` is taken to `ss[ops.len()]` by applying `ops[i]` at time
/// `nows[i]` in turn, with answers `resps[i]`.
pub open spec fn run(
    ss: Seq<DCDNState>,
    ops: Seq<Operation>,
    nows: Seq<u64>,
    resps: Seq<DCDNResponse>,
) -> bool {
    &&& ss.len() == ops.len() + 1
    &&& nows.len() == ops.len()
    &&& resps.len() == ops.len()
    &&& forall|i: int| 0 <= i < ops.len() ==> #[trigger] op_post(ss[i], ss[i + 1], ops[i], nows[i], resps[i])
    &&& forall|i: int| 0 <= i < ss.len() ==> #[trigger] ss[i].wf()
}

/// Every operation of `ops` registers a node or reports usage.
pub open spec fn node_ops_only(ops: Seq<Operation>) -> bool {
    forall|i: int|
        0 <= i < ops.len() ==> (#[trigger] ops[i] is RegisterNode || ops[i] is ReportUsage)
}

/// The capacities of the nodes that the first `k` operations registered.
pub open spec fn registered_capacity(ops: Seq<Operation>, resps: Seq<DCDNResponse>, k: int) -> int
    decreases k,
{
    if k <= 0 {
        0
    } else {
        registered_capacity(ops, resps, k - 1) + match ops[k - 1] {
            Operation::RegisterNode { capacity, .. } => if resps[k - 1]
                == DCDNResponse::NodeRegistered {
                capacity as int
            } else {
                0
            },
            _ => 0,
        }
    }
}

/// The number of nodes that the first `k` operations registered.
pub open spec fn registered_count(ops: Seq<Operation>, resps: Seq<DCDNResponse>, k: int) -> int
    decreases k,
{
    if k <= 0 {
        0
    } else {
        registered_count(ops, resps, k - 1) + if ops[k - 1] is RegisterNode && resps[k - 1]
            == DCDNResponse::NodeRegistered {
            1int
        } else {
            0
        }
    }
}

/// The bytes that the first `k` operations reported as served, by the node
/// `n` where `n` is `Some`, or by any node.
pub open spec fn reported_bytes(
    ops: Seq<Operation>,
    resps: Seq<DCDNResponse>,
    n: Option<Seq<char>>,
    k: int,
) -> int
    decreases k,
{
    if k <= 0 {
        0
    } else {
        reported_bytes(ops, resps, n, k - 1) + match ops[k - 1] {
            Operation::ReportUsage { node_id, bytes_served, .. } => if resps[k - 1]
                == DCDNResponse::UsageReported && (n is None || n == Some(node_id@)) {
                bytes_served as int
            } else {
                0
            },
            _ => 0,
        }
    }
}

/// Uploading the same bytes twice into a registry that does not hold them:
/// the first upload stores them under their digest and answers it, the second
/// is refused as a duplicate and changes nothing, so no second record exists.
pub proof fn lemma_upload_twice(
    s0: DCDNState,
    s1: DCDNState,
    s2: DCDNState,
    b1: Vec<u8>,
    b2: Vec<u8>,
    m1: ContentMetadata,
    m2: ContentMetadata,
    t1: u64,
    t2: u64,
    r1: Result<String, DcdnError>,
    r2: Result<String, DcdnError>,
)
    requires
        s0.wf(),
        b1@ == b2@,
        s0.content(sha256_hex(b1@)) is None,
        upload_post(s0, s1, b1, m1, sha256_hex(b1@), t1, r1),
        upload_post(s1, s2, b2, m2, sha256_hex(b2@), t2, r2),
    ensures
        r1 matches Ok(h) && h@ == sha256_hex(b1@),
        s1.content(sha256_hex(b1@)) == Some(fresh_content(r1->Ok_0, b1, m1, t1)),
        r2 == Err::<String, DcdnError>(DcdnError::DuplicateContent),
        s2 == s1,
{
}

/// A node registered with capacity `C` and no usage ends any sequence of
/// operations that only register nodes and report usage with a used capacity
/// of `min(C, S)`, where `S` is the sum of the bytes it reported with
/// success; it never exceeds `C`.
pub proof fn lemma_capacity_clamp(
    ss: Seq<DCDNState>,
    ops: Seq<Operation>,
    nows: Seq<u64>,
    resps: Seq<DCDNResponse>,
    n: Seq<char>,
)
    requires
        run(ss, ops, nows, resps),
        node_ops_only(ops),
        ss[0].node(n) matches Some(x) && x.used_capacity == 0,
    ensures
        ss.last().node(n) matches Some(x) && {
            &&& x.capacity == ss[0].node(n).unwrap().capacity
            &&& x.used_capacity == clamp_add(
                0,
                reported_bytes(ops, resps, Some(n), ops.len() as int),
                x.capacity as int,
            )
            &&& x.used_capacity <= x.capacity
        },
    decreases ops.len(),
{
    let k = ops.len() as int;
    if k > 0 {
        let ss0 = ss.drop_last();
        let ops0 = ops.drop_last();
        let nows0 = nows.drop_last();
        let resps0 = resps.drop_last();
        assert forall|i: int| 0 <= i < ops0.len() implies #[trigger] op_post(
            ss0[i],
            ss0[i + 1],
            ops0[i],
            nows0[i],
            resps0[i],
        ) by {
            assert(op_post(ss[i], ss[i + 1], ops[i], nows[i], resps[i]));
        }
        assert forall|i: int| 0 <= i < ss0.len() implies #[trigger] ss0[i].wf() by {
            assert(ss[i].wf());
        }
        assert forall|i: int| 0 <= i < ops0.len() implies (#[trigger] ops0[i] is RegisterNode
            || ops0[i] is ReportUsage) by {
            assert(ops[i] is RegisterNode || ops[i] is ReportUsage);
        }
        lemma_capacity_clamp(ss0, ops0, nows0, resps0, n);
        assert(ss0.last() == ss[k - 1]);
        assert(op_post(ss[k - 1], ss[k], ops[k - 1], nows[k - 1], resps[k - 1]));
        assert(reported_bytes(ops0, resps0, Some(n), k - 1) == reported_bytes(ops, resps, Some(n), k - 1)) by {
            lemma_reported_prefix(ops, resps, ops0, resps0, Some(n), k - 1);
        }
    }
}

proof fn lemma_reported_prefix(
    ops: Seq<Operation>,
    resps: Seq<DCDNResponse>,
    ops0: Seq<Operation>,
    resps0: Seq<DCDNResponse>,
    n: Option<Seq<char>>,
    k: int,
)
    requires
        0 <= k <= ops0.len(),
        k <= ops.len(),
        k <= resps.len(),
        k <= resps0.len(),
        forall|i: int| 0 <= i < k ==> ops0[i] == ops[i] && resps0[i] == resps[i],
    ensures
        reported_bytes(ops0, resps0, n, k) == reported_bytes(ops, resps, n, k),
        registered_capacity(ops0, resps0, k) == registered_capacity(ops, resps, k),
        registered_count(ops0, resps0, k) == registered_count(ops, resps, k),
    decreases k,
{
    if k > 0 {
        lemma_reported_prefix(ops, resps, ops0, resps0, n, k - 1);
    }
}

/// Over any sequence of operations that only register nodes and report
/// usage, the node count grows by the number of nodes registered, the total
/// capacity by their capacities, and the total served by the bytes of every
/// report that succeeded; at every point each total is the sum of the
/// corresponding field over the registered nodes.
pub proof fn lemma_aggregates(
    ss: Seq<DCDNState>,
    ops: Seq<Operation>,
    nows: Seq<u64>,
    resps: Seq<DCDNResponse>,
)
    requires
        run(ss, ops, nows, resps),
        node_ops_only(ops),
    ensures
        ss.last().node_count == ss[0].node_count + registered_count(ops, resps, ops.len() as int),
        ss.last().total_capacity == ss[0].total_capacity + registered_capacity(
            ops,
            resps,
            ops.len() as int,
        ),
        ss.last().total_data_served == ss[0].total_data_served + reported_bytes(
            ops,
            resps,
            None,
            ops.len() as int,
        ),
        ss.last().node_count == ss.last().nodes@.len(),
        ss.last().total_capacity == sum_capacity(ss.last().nodes@),
        ss.last().total_data_served == sum_served(ss.last().nodes@),
    decreases ops.len(),
{
    let k = ops.len() as int;
    assert(ss.last().wf());
    if k > 0 {
        let ss0 = ss.drop_last();
        let ops0 = ops.drop_last();
        let nows0 = nows.drop_last();
        let resps0 = resps.drop_last();
        assert forall|i: int| 0 <= i < ops0.len() implies #[trigger] op_post(
            ss0[i],
            ss0[i + 1],
            ops0[i],
            nows0[i],
            resps0[i],
        ) by {
            assert(op_post(ss[i], ss[i + 1], ops[i], nows[i], resps[i]));
        }
        assert forall|i: int| 0 <= i < ss0.len() implies #[trigger] ss0[i].wf() by {
            assert(ss[i].wf());
        }
        assert forall|i: int| 0 <= i < ops0.len() implies (#[trigger] ops0[i] is RegisterNode
            || ops0[i] is ReportUsage) by {
            assert(ops[i] is RegisterNode || ops[i] is ReportUsage);
        }
        lemma_aggregates(ss0, ops0, nows0, resps0);
        assert(ss0.last() == ss[k - 1]);
        assert(op_post(ss[k - 1], ss[k], ops[k - 1], nows[k - 1], resps[k - 1]));
        assert(ops[k - 1] is RegisterNode || ops[k - 1] is ReportUsage);
        lemma_reported_prefix(ops, resps, ops0, resps0, None, k - 1);
    }
}

/// Asking the same registered node twice to hold the same stored content
/// succeeds both times, and leaves the node in the content's availability
/// entry exactly once.
pub proof fn lemma_request_cache_twice(
    s0: DCDNState,
    s1: DCDNState,
    s2: DCDNState,
    c: Seq<char>,
    n: Seq<char>,
    r1: Result<(), DcdnError>,
    r2: Result<(), DcdnError>,
)
    requires
        s0.wf(),
        s0.content(c) is Some,
        s0.node(n) is Some,
        request_cache_post(s0, s1, c, n, r1),
        request_cache_post(s1, s2, c, n, r2),
    ensures
        r1 is Ok && r2 is Ok,
        s2.holders(c) == s1.holders(c),
        s2.holders(c) matches Some(h) && h.contains(n) && forall|i: int, j: int|
            0 <= i < h.len() && 0 <= j < h.len() && h[i] == n && h[j] == n ==> i == j,
{
    if s0.holders(c) is Some {
        let k = choose|k: int| keyed_at(s0.content_availability@, k, c);
        assert(keyed_at(s0.content_availability@, k, c));
        assert(no_dups(texts(s0.content_availability@[k].node_ids@)));
    }
    let h = with_holder(s0.holders(c), n);
    if s0.holders(c) is None {
        assert(h[0] == n);
    } else {
        let h0 = s0.holders(c).unwrap();
        if !h0.contains(n) {
            assert(h[h0.len() as int] == n);
            assert forall|i: int, j: int|
                0 <= i < h.len() && 0 <= j < h.len() && h[i] == n && h[j] == n implies i == j by {
                if i < h0.len() {
                    assert(h0[i] == h[i]);
                }
                if j < h0.len() {
                    assert(h0[j] == h[j]);
                }
            }
        }
    }
}

/// A download answers a copy of the stored bytes, counts one more access,
/// and records `now` as the time of the last access.
pub proof fn lemma_download_counts(
    s0: DCDNState,
    s1: DCDNState,
    id: Seq<char>,
    now: u64,
    r: Result<Vec<u8>, DcdnError>,
)
    requires
        s0.content(id) matches Some(c) && c.access_count < u64::MAX,
        download_post(s0, s1, id, now, r),
    ensures
        r matches Ok(b) && b@ == s0.content(id).unwrap().content@,
        s1.content(id) matches Some(c) && {
            &&& c.access_count == s0.content(id).unwrap().access_count + 1
            &&& c.last_accessed == now
            &&& c.content == s0.content(id).unwrap().content
        },
{
}

/// Downloading content just uploaded answers the uploaded bytes, and leaves
/// one access recorded, at the time of the download.
pub proof fn lemma_download_after_upload(
    s0: DCDNState,
    s1: DCDNState,
    s2: DCDNState,
    b: Vec<u8>,
    m: ContentMetadata,
    t1: u64,
    t2: u64,
    r1: Result<String, DcdnError>,
    r2: Result<Vec<u8>, DcdnError>,
)
    requires
        s0.wf(),
        s0.content(sha256_hex(b@)) is None,
        upload_post(s0, s1, b, m, sha256_hex(b@), t1, r1),
        download_post(s1, s2, sha256_hex(b@), t2, r2),
    ensures
        r2 matches Ok(x) && x@ == b@,
        s2.content(sha256_hex(b@)) matches Some(c) && c.access_count == 1 && c.last_accessed == t2,
{
}

} // verus!
