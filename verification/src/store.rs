//! The proof store: every job ever created in this process, by identifier.
//! Jobs are never removed, identifiers are never reused, and a job that has
//! reached an end is never changed again.

use std::collections::HashMap;
use vstd::prelude::*;
use vstd::set_lib::lemma_len_subset;
use crate::job_id::{job_id_text, lemma_job_id_text_injective};
use crate::status::{JobStatus, JobStatusView, ProofJob, ProofJobView, ProofType, status_follows};

verus! {

broadcast use vstd::std_specs::hash::group_hash_axioms;

/// The identifier `k` steps after `c`, counting around the end of the
/// 64-bit range.
pub open spec fn wrap_add(c: u64, k: int) -> u64 {
    if c + k < 0x1_0000_0000_0000_0000 {
        (c + k) as u64
    } else {
        (c + k - 0x1_0000_0000_0000_0000) as u64
    }
}

/// How many steps after `c` the identifier `x` lies.
pub open spec fn steps_from(c: u64, x: u64) -> int {
    if x >= c {
        x - c
    } else {
        x - c + 0x1_0000_0000_0000_0000
    }
}

/// `id` is the first identifier at or after `candidate`, counting around,
/// that is not in `taken`.
pub open spec fn is_first_free(taken: Set<u64>, candidate: u64, id: u64) -> bool {
    &&& !taken.contains(id)
    &&& forall|j: int| 0 <= j < steps_from(candidate, id) ==> taken.contains(#[trigger] wrap_add(candidate, j))
}

/// The record a job is created with.
pub open spec fn new_job(kind: ProofType) -> ProofJobView {
    ProofJobView { kind, status: JobStatusView::Executing }
}

/// The identifiers that lie fewer than `n` steps after `c`.
spec fn window(c: u64, n: int) -> Set<u64> {
    Set::new(|x: u64| steps_from(c, x) < n)
}

proof fn lemma_window_len(c: u64, n: int)
    requires
        0 <= n <= 0x1_0000_0000_0000_0000,
    ensures
        window(c, n).finite(),
        window(c, n).len() == n,
    decreases n,
{
    if n == 0 {
        assert(window(c, 0) =~= Set::<u64>::empty());
    } else {
        lemma_window_len(c, n - 1);
        let x = wrap_add(c, n - 1);
        assert(steps_from(c, x) == n - 1);
        assert(!window(c, n - 1).contains(x));
        assert(window(c, n) =~= window(c, n - 1).insert(x)) by {
            assert forall|y: u64| window(c, n).contains(y) <==> window(c, n - 1).insert(x).contains(
                y,
            ) by {
                if steps_from(c, y) == n - 1 {
                    assert(y == x);
                }
            }
        }
    }
}

/// If the first `n` identifiers after `c` are all taken, at least `n`
/// identifiers are taken.
proof fn lemma_taken_run(taken: Set<u64>, c: u64, n: int)
    requires
        taken.finite(),
        0 <= n <= 0x1_0000_0000_0000_0000,
        forall|j: int| 0 <= j < n ==> taken.contains(#[trigger] wrap_add(c, j)),
    ensures
        n <= taken.len(),
{
    lemma_window_len(c, n);
    assert forall|x: u64| window(c, n).contains(x) implies taken.contains(x) by {
        assert(x == wrap_add(c, steps_from(c, x)));
    }
    lemma_len_subset(window(c, n), taken);
}

/// The mapping from job identifier to job.
pub struct ProofStore {
    jobs: HashMap<u64, ProofJob>,
    issued: Ghost<Seq<u64>>,
}

impl View for ProofStore {
    type V = Map<u64, ProofJobView>;

    /// The jobs of the store, by identifier.
    closed spec fn view(&self) -> Map<u64, ProofJobView> {
        Map::new(|id: u64| self.jobs@.contains_key(id), |id: u64| self.jobs@[id]@)
    }
}

impl ProofStore {
    /// The identifiers that `create` has returned so far, oldest first.
    pub closed spec fn issued(&self) -> Seq<u64> {
        self.issued@
    }

    /// The store's invariant: no identifier was issued twice, and the jobs
    /// of the store are exactly those whose identifiers were issued.
    pub closed spec fn wf(&self) -> bool {
        &&& self.issued@.no_duplicates()
        &&& forall|id: u64| self.jobs@.contains_key(id) <==> self.issued@.contains(id)
    }

    /// An empty store.
    pub fn new() -> (store: ProofStore)
        ensures
            store.wf(),
            store@ == Map::<u64, ProofJobView>::empty(),
            store.issued() == Seq::<u64>::empty(),
    {
        let store = ProofStore { jobs: HashMap::new(), issued: Ghost(Seq::empty()) };
        assert(store@ =~= Map::<u64, ProofJobView>::empty());
        store
    }

    /// How many jobs the store holds.
    pub fn len(&self) -> (n: usize)
        ensures
            n == self@.dom().len(),
    {
        assert(self@.dom() =~= self.jobs@.dom());
        self.jobs.len()
    }

    /// Whether a job was created under `id`.
    pub fn contains(&self, id: u64) -> (found: bool)
        ensures
            found == self@.contains_key(id),
    {
        self.jobs.contains_key(&id)
    }

    /// The job under `id`, or `None` if none was ever created under it.
    pub fn get(&self, id: u64) -> (job: Option<&ProofJob>)
        ensures
            match job {
                Some(j) => self@.contains_key(id) && j@ == self@[id],
                None => !self@.contains_key(id),
            },
    {
        self.jobs.get(&id)
    }

    /// Creates a job of `kind` in state executing, under the first
    /// identifier at or after `candidate` that no job has, and returns that
    /// identifier.
    pub fn create(&mut self, kind: ProofType, candidate: u64) -> (id: u64)
        requires
            old(self).wf(),
        ensures
            final(self).wf(),
            is_first_free(old(self)@.dom(), candidate, id),
            !old(self)@.contains_key(id),
            !old(self).issued().contains(id),
            final(self)@ == old(self)@.insert(id, new_job(kind)),
            final(self).issued() == old(self).issued().push(id),
    {
        let mut id: u64 = candidate;
        let ghost mut k: int = 0;
        let ghost taken: Set<u64> = self.jobs@.dom();
        proof {
            assert(self@.dom() =~= taken);
            assert(self.jobs.len() == taken.len());
        }
        while self.jobs.contains_key(&id)
            invariant
                taken == self.jobs@.dom(),
                taken.finite(),
                taken.len() <= usize::MAX,
                0 <= k <= taken.len(),
                id == wrap_add(candidate, k),
                forall|j: int| 0 <= j < k ==> taken.contains(#[trigger] wrap_add(candidate, j)),
            decreases taken.len() - k,
        {
            proof {
                assert(self.jobs.len() == taken.len());
                lemma_taken_run(taken, candidate, k + 1);
                assert(wrap_add(candidate, k + 1) == wrap_add(id, 1));
                k = k + 1;
            }
            id = if id == u64::MAX {
                0
            } else {
                id + 1
            };
        }
        proof {
            assert(self.jobs.len() == taken.len());
            assert(steps_from(candidate, id) == k);
        }
        let ghost before = self@;
        let ghost before_jobs = self.jobs@;
        let job = ProofJob { kind, status: JobStatus::Executing };
        self.jobs.insert(id, job);
        self.issued = Ghost(self.issued@.push(id));
        proof {
            let log = old(self).issued@;
            assert(!log.contains(id));
            assert(self@ =~= before.insert(id, new_job(kind)));
            assert forall|x: u64| self.jobs@.contains_key(x) <==> log.push(id).contains(x) by {
                if x == id {
                    assert(log.push(id)[log.len() as int] == id);
                } else if log.contains(x) {
                    let i = choose|i: int| 0 <= i < log.len() && log[i] == x;
                    assert(log.push(id)[i] == x);
                }
            }
            assert(log.push(id).no_duplicates());
        }
        id
    }

    /// Moves the job under `id` to `status`, if there is such a job and
    /// `status` may follow the state it is in. Otherwise nothing changes:
    /// in particular a job that has reached an end stays as it is.
    pub fn set(&mut self, id: u64, status: JobStatus) -> (applied: bool)
        requires
            old(self).wf(),
        ensures
            final(self).wf(),
            final(self).issued() == old(self).issued(),
            applied == (old(self)@.contains_key(id) && status_follows(
                old(self)@[id].status,
                status@,
            )),
            applied ==> final(self)@ == old(self)@.insert(
                id,
                ProofJobView { kind: old(self)@[id].kind, status: status@ },
            ),
            !applied ==> final(self)@ == old(self)@,
    {
        let ghost before = self@;
        let next: Option<ProofType> = match self.jobs.get(&id) {
            None => None,
            Some(job) => {
                let allowed: bool = match job.status {
                    JobStatus::Requested => match status {
                        JobStatus::Executing => true,
                        _ => false,
                    },
                    JobStatus::Executing => status.is_terminal(),
                    _ => false,
                };
                if allowed {
                    Some(job.kind)
                } else {
                    None
                }
            },
        };
        match next {
            None => false,
            Some(kind) => {
                let ghost status_view = status@;
                self.jobs.insert(id, ProofJob { kind, status });
                proof {
                    assert(self@ =~= before.insert(
                        id,
                        ProofJobView { kind: before[id].kind, status: status_view },
                    ));
                }
                true
            },
        }
    }
}

/// However many jobs were created, the identifiers that were returned
/// are pairwise distinct, and so are their texts; and a job is in the
/// store exactly if its identifier was returned: jobs are never removed.
pub proof fn lemma_issued_ids_are_distinct(store: ProofStore)
    requires
        store.wf(),
    ensures
        store.issued().no_duplicates(),
        forall|i: int, j: int|
            0 <= i < j < store.issued().len() ==> store.issued()[i] != store.issued()[j]
                && job_id_text(store.issued()[i]) != job_id_text(store.issued()[j]),
        forall|id: u64| store@.contains_key(id) <==> store.issued().contains(id),
{
    assert forall|i: int, j: int| 0 <= i < j < store.issued().len() implies store.issued()[i]
        != store.issued()[j] && job_id_text(store.issued()[i]) != job_id_text(
        store.issued()[j],
    ) by {
        if job_id_text(store.issued()[i]) == job_id_text(store.issued()[j]) {
            lemma_job_id_text_injective(store.issued()[i], store.issued()[j]);
        }
    }
}

} // verus!
