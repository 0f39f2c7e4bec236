//! Chunk retrieval with multi-candidate fallback. A download is planned
//! over the candidate list sorted by ascending priority; candidates are
//! attempted strictly one after another, any transport failure moves to
//! the next candidate, the first complete byte stream is decompressed and
//! returned, and only the exhaustion of every candidate fails the whole
//! retrieval — with an aggregate error, not any single attempt's.
//!
//! The machine here decides; its driver performs the requests it asks for
//! and reports each outcome back.

use vstd::prelude::*;
use vstd::seq_lib::{to_multiset_build, to_multiset_contains, to_multiset_len, to_multiset_remove};
use vstd::multiset::{group_multiset_axioms, lemma_multiset_empty_len};
use crate::cdn::{Cdn, spec_chunk_url};
use crate::session::{decompress, zlib_inflate, SessionError};

verus! {

/// Candidates stand in ascending priority order: lower values first.
pub open spec fn spec_sorted_by_priority(s: Seq<Cdn>) -> bool {
    forall|i: int, j: int| 0 <= i <= j < s.len() ==> s[i].priority <= s[j].priority
}

/// What the transport reports for one candidate attempt: the complete raw
/// byte stream, or a failure (a connection error, a non-success status, or
/// a mid-stream read error).
pub enum AttemptOutcome {
    Delivered(Vec<u8>),
    Failed(SessionError),
}

/// What the retrieval procedure asks its driver to do next: fetch a URL
/// and report the outcome, accept the chunk's decompressed bytes, or give
/// up.
pub enum ChunkStep {
    Request(String),
    Done(Vec<u8>),
    Failed(SessionError),
}

fn exhausted_error() -> (r: SessionError)
    ensures
        r matches SessionError::DownloadError(m) && m@ == "All CDN attempts failed"@,
{
    SessionError::DownloadError("All CDN attempts failed".to_owned())
}

/// Reorders candidates into ascending priority order; the result holds
/// exactly the candidates given.
fn sort_by_priority(v: Vec<Cdn>) -> (r: Vec<Cdn>)
    ensures
        spec_sorted_by_priority(r@),
        r@.to_multiset() == v@.to_multiset(),
{
    broadcast use group_multiset_axioms;

    let mut rest = v;
    let mut plan: Vec<Cdn> = Vec::new();
    let ghost all = rest@;
    proof {
        to_multiset_len(plan@);
        lemma_multiset_empty_len(plan@.to_multiset());
        assert(plan@.to_multiset().add(rest@.to_multiset()) =~= all.to_multiset());
    }
    while rest.len() > 0
        invariant
            plan@.to_multiset().add(rest@.to_multiset()) == all.to_multiset(),
            spec_sorted_by_priority(plan@),
            forall|i: int, j: int|
                0 <= i < plan@.len() && 0 <= j < rest@.len() ==> plan@[i].priority
                    <= rest@[j].priority,
        decreases rest@.len(),
    {
        let mut m: usize = 0;
        let mut k: usize = 1;
        while k < rest.len()
            invariant
                rest@.len() > 0,
                m < rest@.len(),
                k <= rest@.len(),
                forall|i: int| 0 <= i < k ==> rest@[m as int].priority <= rest@[i].priority,
            decreases rest@.len() - k,
        {
            if rest[k].priority < rest[m].priority {
                m = k;
            }
            k = k + 1;
        }
        let ghost plan0 = plan@;
        let ghost rest0 = rest@;
        let ghost x = rest0[m as int];
        let picked = rest.remove(m);
        plan.push(picked);
        proof {
            assert(rest0[m as int] == x);
            assert(rest0.contains(x));
            to_multiset_contains(rest0, x);
            assert(rest0.to_multiset().count(x) > 0);
            to_multiset_remove(rest0, m as int);
            assert(rest@ == rest0.remove(m as int));
            assert(rest@.to_multiset() == rest0.to_multiset().remove(x));
            to_multiset_build(plan0, x);
            assert(plan@ == plan0.push(x));
            assert(plan@.to_multiset() == plan0.to_multiset().insert(x));
            assert(plan@.to_multiset().add(rest@.to_multiset()) =~= plan0.to_multiset().add(
                rest0.to_multiset(),
            ));
            assert forall|j: int| 0 <= j < rest@.len() implies x.priority
                <= rest@[j].priority by {
                if j < m {
                    assert(rest@[j] == rest0[j]);
                } else {
                    assert(rest@[j] == rest0[j + 1]);
                }
            }
            assert forall|i: int, j: int|
                0 <= i < plan0.len() && 0 <= j < rest@.len() implies plan0[i].priority
                <= rest@[j].priority by {
                if j < m {
                    assert(rest@[j] == rest0[j]);
                } else {
                    assert(rest@[j] == rest0[j + 1]);
                }
            }
            assert forall|i: int, j: int|
                0 <= i <= j < plan@.len() implies plan@[i].priority <= plan@[j].priority by {
                if j < plan@.len() - 1 {
                    assert(plan@[i] == plan0[i] && plan@[j] == plan0[j]);
                } else if i < plan@.len() - 1 {
                    assert(plan0[i].priority <= rest0[m as int].priority);
                }
            }
        }
    }
    proof {
        to_multiset_len(rest@);
        lemma_multiset_empty_len(rest@.to_multiset());
        assert(plan@.to_multiset() =~= plan@.to_multiset().add(rest@.to_multiset()));
    }
    plan
}

/// One chunk retrieval in progress: the ordered candidate plan, the chunk
/// being addressed, the strategy flag, and how many candidates have been
/// attempted and failed so far.
pub struct ChunkDownload {
    pub plan: Vec<Cdn>,
    pub chunk_hash: String,
    pub is_gog_depot: bool,
    pub attempted: usize,
}

impl ChunkDownload {
    /// The retrieval's standing well-formedness: the plan is in ascending
    /// priority order, the hash is long enough to shard, and no more
    /// candidates were attempted than exist.
    pub open spec fn wf(&self) -> bool {
        &&& spec_sorted_by_priority(self.plan@)
        &&& self.chunk_hash@.len() >= 4
        &&& self.attempted <= self.plan@.len()
    }

    /// Attempts run in ascending priority order: in a well-formed
    /// retrieval, every candidate attempted earlier has a priority no
    /// greater than any candidate attempted later.
    pub proof fn lemma_plan_priority_order(self, i: int, j: int)
        requires
            self.wf(),
            0 <= i <= j < self.plan@.len(),
        ensures
            self.plan@[i].priority <= self.plan@[j].priority,
    {
    }

    /// Plans a retrieval: the candidates, in ascending priority order
    /// whatever order they were given in, with nothing attempted yet.
    pub fn new(cdns: Vec<Cdn>, chunk_hash: &str, is_gog_depot: bool) -> (r: Self)
        requires
            chunk_hash@.len() >= 4,
        ensures
            r.wf(),
            r.attempted == 0,
            r.plan@.to_multiset() == cdns@.to_multiset(),
            r.chunk_hash@ == chunk_hash@,
            r.is_gog_depot == is_gog_depot,
    {
        ChunkDownload {
            plan: sort_by_priority(cdns),
            chunk_hash: chunk_hash.to_owned(),
            is_gog_depot,
            attempted: 0,
        }
    }

    /// The opening step: a request against the best candidate, or — with
    /// no candidates at all — immediate exhaustion.
    pub fn start(&self) -> (r: ChunkStep)
        requires
            self.wf(),
            self.attempted == 0,
        ensures
            self.plan@.len() == 0 ==> (r matches ChunkStep::Failed(e) && e matches
                SessionError::DownloadError(m) && m@ == "All CDN attempts failed"@),
            self.plan@.len() > 0 ==> (r matches ChunkStep::Request(u) && u@ == spec_chunk_url(
                self.plan@[0]@,
                self.chunk_hash@,
                self.is_gog_depot,
            )),
    {
        if self.plan.len() == 0 {
            ChunkStep::Failed(exhausted_error())
        } else {
            ChunkStep::Request(
                self.plan[0].resolve_chunk_url(self.chunk_hash.as_str(), self.is_gog_depot),
            )
        }
    }

    /// Consumes the outcome of the outstanding attempt. A delivered stream
    /// is decompressed: its bytes are the result, or a malformed stream
    /// fails the retrieval distinctly. A transport failure moves on to the
    /// next candidate in priority order; when none is left, the retrieval
    /// fails with the aggregate exhaustion error, not the raw error of any
    /// single attempt.
    pub fn on_outcome(&mut self, outcome: AttemptOutcome) -> (r: ChunkStep)
        requires
            old(self).wf(),
            old(self).attempted < old(self).plan@.len(),
        ensures
            final(self).wf(),
            final(self).plan == old(self).plan,
            final(self).chunk_hash == old(self).chunk_hash,
            final(self).is_gog_depot == old(self).is_gog_depot,
            outcome matches AttemptOutcome::Delivered(bytes) ==> {
                &&& final(self).attempted == old(self).attempted
                &&& (zlib_inflate(bytes@) matches Some(d) ==> (r matches ChunkStep::Done(out)
                    && out@ == d))
                &&& (zlib_inflate(bytes@) is None ==> (r matches ChunkStep::Failed(e)
                    && e is DecompressionError))
            },
            outcome matches AttemptOutcome::Failed(_) ==> {
                &&& final(self).attempted == old(self).attempted + 1
                &&& (final(self).attempted < final(self).plan@.len() ==> (r matches
                    ChunkStep::Request(u) && u@ == spec_chunk_url(
                    final(self).plan@[final(self).attempted as int]@,
                    final(self).chunk_hash@,
                    final(self).is_gog_depot,
                )))
                &&& (final(self).attempted == final(self).plan@.len() ==> (r matches
                    ChunkStep::Failed(e) && e matches SessionError::DownloadError(m) && m@
                    == "All CDN attempts failed"@))
            },
    {
        match outcome {
            AttemptOutcome::Delivered(bytes) => match decompress(&bytes) {
                Ok(out) => ChunkStep::Done(out),
                Err(e) => ChunkStep::Failed(e),
            },
            AttemptOutcome::Failed(_) => {
                let n = self.plan.len();
                self.attempted = self.attempted + 1;
                if self.attempted < n {
                    ChunkStep::Request(
                        self.plan[self.attempted].resolve_chunk_url(
                            self.chunk_hash.as_str(),
                            self.is_gog_depot,
                        ),
                    )
                } else {
                    ChunkStep::Failed(exhausted_error())
                }
            },
        }
    }
}

} // verus!
