//! Reading the job back: the assembled job view and the total check.
use vstd::prelude::*;
use crate::escrow::{EscrowView, MilestoneEscrow};
use crate::types::{Error, Job, JobMeta, Milestone};

verus! {

/// Every one of the job's milestones is stored.
pub open spec fn all_milestones_stored(s: EscrowView, meta: JobMeta) -> bool {
    forall|i: u32| i < meta.milestone_count ==> #[trigger] s.milestones.contains_key(i)
}

/// The job's milestones, in index order.
pub open spec fn job_milestones(s: EscrowView, meta: JobMeta) -> Seq<Milestone> {
    Seq::new(meta.milestone_count as nat, |i: int| s.milestones[i as u32])
}

/// `job` reports the record `meta` with the milestones `milestones`.
pub open spec fn job_reports(job: Job, meta: JobMeta, milestones: Seq<Milestone>) -> bool {
    &&& job.client == meta.client
    &&& job.freelancer == meta.freelancer
    &&& job.arbiter == meta.arbiter
    &&& job.token == meta.token
    &&& job.funded == meta.funded
    &&& job.auto_release_seconds == meta.auto_release_seconds
    &&& job.milestones@ == milestones
}

/// The sum of the amounts of milestones `0..n`, added in index order the
/// way `checked_job_total` does it: the first missing milestone gives
/// `InvalidMilestone`, the first non-positive amount or overflowing sum
/// gives `InvalidAmount`.
pub open spec fn running_total(milestones: Map<u32, Milestone>, n: nat) -> Result<int, Error>
    decreases n,
{
    if n == 0 {
        Ok(0)
    } else {
        match running_total(milestones, (n - 1) as nat) {
            Err(e) => Err(e),
            Ok(t) => {
                let i = (n - 1) as u32;
                if !milestones.contains_key(i) {
                    Err(Error::InvalidMilestone)
                } else if milestones[i].amount <= 0 || t + milestones[i].amount > i128::MAX {
                    Err(Error::InvalidAmount)
                } else {
                    Ok(t + milestones[i].amount)
                }
            },
        }
    }
}

/// A successful running total lies between 0 and `i128::MAX`.
proof fn lemma_running_total_range(milestones: Map<u32, Milestone>, n: nat)
    ensures
        running_total(milestones, n) matches Ok(t) ==> 0 <= t <= i128::MAX,
    decreases n,
{
    if n > 0 {
        lemma_running_total_range(milestones, (n - 1) as nat);
    }
}

impl MilestoneEscrow {
    /// The job record with its milestones `0..milestone_count`, read from
    /// storage; `InvalidMilestone` if one of them is missing.
    pub fn assemble_job(&self, meta: &JobMeta) -> (r: Result<Job, Error>)
        ensures
            all_milestones_stored(self@, *meta) ==> (r matches Ok(job) && job_reports(
                job,
                *meta,
                job_milestones(self@, *meta),
            )),
            !all_milestones_stored(self@, *meta) ==> r == Err::<Job, Error>(
                Error::InvalidMilestone,
            ),
    {
        let mut milestones: Vec<Milestone> = Vec::new();
        let mut i: u32 = 0;
        while i < meta.milestone_count
            invariant
                i <= meta.milestone_count,
                milestones@ =~= Seq::new(i as nat, |j: int| self@.milestones[j as u32]),
                forall|j: u32| j < i ==> #[trigger] self@.milestones.contains_key(j),
            decreases meta.milestone_count - i,
        {
            let m = match self.load_milestone(i) {
                Ok(m) => m,
                Err(e) => {
                    return Err(e);
                },
            };
            milestones.push(m);
            i = i + 1;
        }
        Ok(
            Job {
                client: meta.client,
                freelancer: meta.freelancer,
                arbiter: meta.arbiter,
                token: meta.token,
                milestones,
                funded: meta.funded,
                auto_release_seconds: meta.auto_release_seconds,
            },
        )
    }

    /// The whole job as stored; `NotInitialized` before `initialize`,
    /// `InvalidMilestone` if one of its milestones is missing.
    pub fn get_job(&self) -> (r: Result<Job, Error>)
        ensures
            match self@.job {
                None => r == Err::<Job, Error>(Error::NotInitialized),
                Some(meta) => if all_milestones_stored(self@, meta) {
                    r matches Ok(job) && job_reports(job, meta, job_milestones(self@, meta))
                } else {
                    r == Err::<Job, Error>(Error::InvalidMilestone)
                },
            },
    {
        let meta = self.load_job_meta()?;
        self.assemble_job(&meta)
    }

    /// Re-adds the amounts of the job's milestones, in index order, and
    /// checks the sum against the recorded total (`InvalidAmount` when they
    /// differ).
    pub fn checked_job_total(&self, meta: &JobMeta) -> (r: Result<i128, Error>)
        ensures
            r == match running_total(self@.milestones, meta.milestone_count as nat) {
                Err(e) => Err(e),
                Ok(t) => if t != meta.total_amount {
                    Err::<i128, Error>(Error::InvalidAmount)
                } else {
                    Ok(t as i128)
                },
            },
    {
        let mut total_amount: i128 = 0;
        let mut index: u32 = 0;
        while index < meta.milestone_count
            invariant
                index <= meta.milestone_count,
                running_total(self@.milestones, index as nat) == Ok::<int, Error>(
                    total_amount as int,
                ),
            decreases meta.milestone_count - index,
        {
            proof {
                assert((index + 1) as nat - 1 == index as nat);
            }
            let milestone = match self.load_milestone(index) {
                Ok(m) => m,
                Err(e) => {
                    proof {
                        lemma_running_total_stays_err(
                            self@.milestones,
                            (index + 1) as nat,
                            meta.milestone_count as nat,
                        );
                    }
                    return Err(e);
                },
            };
            total_amount = match Self::checked_add_amount(total_amount, milestone.amount) {
                Ok(t) => t,
                Err(e) => {
                    proof {
                        lemma_running_total_stays_err(
                            self@.milestones,
                            (index + 1) as nat,
                            meta.milestone_count as nat,
                        );
                    }
                    return Err(e);
                },
            };
            index = index + 1;
        }
        proof {
            lemma_running_total_range(self@.milestones, meta.milestone_count as nat);
        }
        if total_amount != meta.total_amount {
            return Err(Error::InvalidAmount);
        }
        Ok(total_amount)
    }
}

/// Once the running total has failed, it stays failed with the same error.
proof fn lemma_running_total_stays_err(milestones: Map<u32, Milestone>, n: nat, m: nat)
    requires
        n <= m,
        running_total(milestones, n) is Err,
    ensures
        running_total(milestones, m) == running_total(milestones, n),
    decreases m - n,
{
    if n < m {
        lemma_running_total_stays_err(milestones, n, (m - 1) as nat);
    }
}

} // verus!
