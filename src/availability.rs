use crate::contract::DCDNContract;
use crate::keyed::{find, lemma_lookup_push, lemma_lookup_update};
use crate::state::{no_dups, texts, AvailabilityEntry};
use crate::transitions::{availability_post, request_cache_post};
use crate::types::DcdnError;
use vstd::prelude::*;

verus! {

/// The predicate that holds of every text but `n`.
pub open spec fn other_than(n: Seq<char>) -> spec_fn(Seq<char>) -> bool {
    |x: Seq<char>| x != n
}

/// The node ids of an availability entry `h` (absent: none) once `n` is added,
/// where it is not there yet.
pub open spec fn with_holder(h: Option<Seq<Seq<char>>>, n: Seq<char>) -> Seq<Seq<char>> {
    match h {
        Some(s) => if s.contains(n) {
            s
        } else {
            s.push(n)
        },
        None => seq![n],
    }
}

/// The availability entry `h` once `n` is taken out of it; an absent entry
/// stays absent.
pub open spec fn without_holder(h: Option<Seq<Seq<char>>>, n: Seq<char>) -> Option<Seq<Seq<char>>> {
    match h {
        Some(s) => Some(s.filter(other_than(n))),
        None => None,
    }
}

/// The availability entry `h` after node `n` is marked present or absent.
pub open spec fn set_holder(h: Option<Seq<Seq<char>>>, n: Seq<char>, present: bool) -> Option<
    Seq<Seq<char>>,
> {
    if present {
        Some(with_holder(h, n))
    } else {
        without_holder(h, n)
    }
}

proof fn lemma_texts_push(v: Seq<String>, x: String)
    ensures
        texts(v.push(x)) == texts(v).push(x@),
{
    assert(texts(v.push(x)) =~= texts(v).push(x@));
}

proof fn lemma_filter_no_dups(s: Seq<Seq<char>>, p: spec_fn(Seq<char>) -> bool)
    requires
        no_dups(s),
    ensures
        no_dups(s.filter(p)),
    decreases s.len(),
{
    reveal(Seq::filter);
    if s.len() > 0 {
        let d = s.drop_last();
        assert(no_dups(d)) by {
            assert forall|i: int, j: int| 0 <= i < d.len() && 0 <= j < d.len() && i != j implies d[i]
                != d[j] by {
                assert(d[i] == s[i] && d[j] == s[j]);
            }
        }
        lemma_filter_no_dups(d, p);
        if p(s.last()) {
            let f = d.filter(p);
            if f.contains(s.last()) {
                d.lemma_filter_contains_rev(p, s.last());
                let k = choose|k: int| 0 <= k < d.len() && d[k] == s.last();
                assert(s[k] == s[s.len() - 1]);
            }
            let g = f.push(s.last());
            assert forall|i: int, j: int| 0 <= i < g.len() && 0 <= j < g.len() && i != j implies g[i]
                != g[j] by {
                if i < f.len() && j < f.len() {
                } else if i < f.len() {
                    assert(f.contains(f[i]));
                } else if j < f.len() {
                    assert(f.contains(f[j]));
                }
            }
        }
    }
}

/// Whether `v` holds the text of `x`.
fn contains_text(v: &Vec<String>, x: &String) -> (r: bool)
    ensures
        r == texts(v@).contains(x@),
{
    let mut i: usize = 0;
    while i < v.len()
        invariant
            i <= v@.len(),
            forall|j: int| 0 <= j < i ==> v@[j]@ != x@,
        decreases v@.len() - i,
    {
        if v[i].eq(x) {
            assert(texts(v@)[i as int] == x@);
            return true;
        }
        i += 1;
    }
    false
}

/// The strings of `v` whose text is not that of `x`, in order.
fn without_text(v: &Vec<String>, x: &String) -> (r: Vec<String>)
    ensures
        texts(r@) == texts(v@).filter(other_than(x@)),
{
    let mut out: Vec<String> = Vec::new();
    let mut i: usize = 0;
    while i < v.len()
        invariant
            i <= v@.len(),
            texts(out@) == texts(v@.take(i as int)).filter(other_than(x@)),
        decreases v@.len() - i,
    {
        let ghost prefix = v@.take(i as int);
        proof {
            assert(v@.take(i + 1) == prefix.push(v@[i as int]));
            lemma_texts_push(prefix, v@[i as int]);
            texts(prefix).lemma_filter_push(v@[i as int]@, other_than(x@));
        }
        if !v[i].eq(x) {
            let s = v[i].clone();
            proof {
                lemma_texts_push(out@, s);
            }
            out.push(s);
        }
        i += 1;
    }
    assert(v@.take(v@.len() as int) == v@);
    out
}

impl DCDNContract {
    /// Adds `node_id` to the availability entry of `content_id`, creating the
    /// entry where there is none.
    fn insert_holder(&mut self, content_id: String, node_id: String)
        requires
            old(self).wf(),
        ensures
            final(self).wf(),
            final(self).state.holders(content_id@) == Some(
                with_holder(old(self).state.holders(content_id@), node_id@),
            ),
            forall|k: Seq<char>|
                k != content_id@ ==> #[trigger] final(self).state.holders(k) == old(
                    self,
                ).state.holders(k),
            final(self).state.content_map == old(self).state.content_map,
            final(self).state.nodes == old(self).state.nodes,
            final(self).state.node_count == old(self).state.node_count,
            final(self).state.total_capacity == old(self).state.total_capacity,
            final(self).state.total_data_served == old(self).state.total_data_served,
    {
        let ghost before = self.state.content_availability@;
        match find(&self.state.content_availability, &content_id) {
            Some(k) => {
                if !contains_text(&self.state.content_availability[k].node_ids, &node_id) {
                    let ghost old_ids = before[k as int].node_ids@;
                    self.state.content_availability[k].node_ids.push(node_id);
                    proof {
                        let e = self.state.content_availability@[k as int];
                        assert(e.node_ids@ == old_ids.push(node_id));
                        lemma_texts_push(old_ids, node_id);
                        assert(self.state.content_availability@ == before.update(k as int, e));
                        lemma_lookup_update(before, k as int, e);
                        let t = texts(e.node_ids@);
                        assert(no_dups(texts(old_ids)));
                        assert forall|a: int, b: int| 0 <= a < t.len() && 0 <= b < t.len() && a != b implies t[a]
                            != t[b] by {
                            if a < t.len() - 1 && b < t.len() - 1 {
                                assert(t[a] == texts(old_ids)[a] && t[b] == texts(old_ids)[b]);
                            } else if a < t.len() - 1 {
                                assert(t[a] == texts(old_ids)[a]);
                            } else {
                                assert(t[b] == texts(old_ids)[b]);
                            }
                        }
                        assert forall|j: int| 0 <= j < self.state.content_availability@.len() implies no_dups(
                            texts(#[trigger] self.state.content_availability@[j].node_ids@),
                        ) by {
                            if j != k {
                                assert(self.state.content_availability@[j] == before[j]);
                            }
                        }
                    }
                }
            },
            None => {
                let mut ids: Vec<String> = Vec::new();
                ids.push(node_id);
                let e = AvailabilityEntry { content_id, node_ids: ids };
                proof {
                    lemma_lookup_push(before, e);
                    assert(texts(e.node_ids@) =~= seq![node_id@]);
                }
                self.state.content_availability.push(e);
                proof {
                    assert(self.state.content_availability@ == before.push(e));
                    assert forall|j: int| 0 <= j < self.state.content_availability@.len() implies no_dups(
                        texts(#[trigger] self.state.content_availability@[j].node_ids@),
                    ) by {
                        if j < before.len() {
                            assert(self.state.content_availability@[j] == before[j]);
                        }
                    }
                }
            },
        }
    }

    /// Takes `node_id` out of the availability entry of `content_id`; an
    /// absent entry stays absent.
    fn remove_holder(&mut self, content_id: String, node_id: String)
        requires
            old(self).wf(),
        ensures
            final(self).wf(),
            final(self).state.holders(content_id@) == without_holder(
                old(self).state.holders(content_id@),
                node_id@,
            ),
            forall|k: Seq<char>|
                k != content_id@ ==> #[trigger] final(self).state.holders(k) == old(
                    self,
                ).state.holders(k),
            final(self).state.content_map == old(self).state.content_map,
            final(self).state.nodes == old(self).state.nodes,
            final(self).state.node_count == old(self).state.node_count,
            final(self).state.total_capacity == old(self).state.total_capacity,
            final(self).state.total_data_served == old(self).state.total_data_served,
    {
        let ghost before = self.state.content_availability@;
        if let Some(k) = find(&self.state.content_availability, &content_id) {
            let kept = without_text(&self.state.content_availability[k].node_ids, &node_id);
            let ghost old_ids = before[k as int].node_ids@;
            proof {
                assert(no_dups(texts(old_ids)));
                lemma_filter_no_dups(texts(old_ids), other_than(node_id@));
            }
            self.state.content_availability[k].node_ids = kept;
            proof {
                let e = self.state.content_availability@[k as int];
                assert(self.state.content_availability@ == before.update(k as int, e));
                lemma_lookup_update(before, k as int, e);
                assert forall|j: int| 0 <= j < self.state.content_availability@.len() implies no_dups(
                    texts(#[trigger] self.state.content_availability@[j].node_ids@),
                ) by {
                    if j != k {
                        assert(self.state.content_availability@[j] == before[j]);
                    }
                }
            }
        }
    }

    /// Records that node `node_id` holds content `content_id`. Both must be
    /// registered; adding a node that is already recorded changes nothing.
    pub fn request_cache(&mut self, content_id: String, node_id: String) -> (r: Result<(), DcdnError>)
        requires
            old(self).wf(),
        ensures
            final(self).wf(),
            request_cache_post(old(self).state, final(self).state, content_id@, node_id@, r),
    {
        if find(&self.state.content_map, &content_id).is_none() {
            return Err(DcdnError::ContentNotFound);
        }
        if find(&self.state.nodes, &node_id).is_none() {
            return Err(DcdnError::NodeNotFound);
        }
        self.insert_holder(content_id, node_id);
        Ok(())
    }

    /// Marks node `node_id` as holding content `content_id` or not. Neither
    /// id is checked against the registries; this always succeeds.
    pub fn update_availability(&mut self, content_id: String, node_id: String, available: bool)
        requires
            old(self).wf(),
        ensures
            final(self).wf(),
            availability_post(old(self).state, final(self).state, content_id@, node_id@, available),
    {
        if available {
            self.insert_holder(content_id, node_id);
        } else {
            self.remove_holder(content_id, node_id);
        }
    }
}

} // verus!
