//! Funding the escrow, delivering milestones, and the time-locked
//! auto-release.
use vstd::prelude::*;
use crate::escrow::{EscrowView, MilestoneEscrow};
use crate::invariants::{
    evolves, lemma_claim_keeps, lemma_fund_keeps, lemma_mark_delivered_keeps, owed_total, wf,
};
use crate::rules::{fits_i128, released_milestone, remaining};
use crate::types::{
    is_zero, Address, DeliveredEvent, Error, FundedEvent, JobMeta, Milestone, MilestoneStatus,
    Transfer,
};

verus! {

/// The error `fund` ends with, if any.
pub open spec fn fund_error(s: EscrowView, client: Address) -> Option<Error> {
    if client == s.contract {
        Some(Error::InvalidAddress)
    } else {
        match s.job {
            None => Some(Error::NotInitialized),
            Some(meta) => if meta.funded {
                Some(Error::AlreadyFunded)
            } else if meta.client != client {
                Some(Error::Unauthorized)
            } else {
                None
            },
        }
    }
}

/// The storage after a successful `fund`: the job is marked funded.
pub open spec fn funded_state(s: EscrowView) -> EscrowView {
    EscrowView { job: Some(JobMeta { funded: true, ..s.job.unwrap() }), ..s }
}

/// The deposit `fund` makes: the job's total, from the client to the
/// contract.
pub open spec fn fund_transfer(s: EscrowView, client: Address) -> Transfer {
    Transfer {
        token: s.job.unwrap().token,
        from: client,
        to: s.contract,
        amount: s.job.unwrap().total_amount,
    }
}

/// The event `fund` publishes.
pub open spec fn funded_event(s: EscrowView, client: Address) -> FundedEvent {
    let meta = s.job.unwrap();
    FundedEvent {
        contract_id: s.contract,
        client,
        freelancer: meta.freelancer,
        arbiter: meta.arbiter,
        token: meta.token,
        total_amount: meta.total_amount,
        milestone_count: meta.milestone_count,
        auto_release_seconds: meta.auto_release_seconds,
        funded: true,
    }
}

/// The error `mark_delivered` ends with, if any.
pub open spec fn mark_delivered_error(s: EscrowView, freelancer: Address, index: u32) -> Option<
    Error,
> {
    if is_zero(freelancer) {
        Some(Error::InvalidAddress)
    } else {
        match s.job {
            None => Some(Error::NotInitialized),
            Some(meta) => if meta.freelancer != freelancer {
                Some(Error::Unauthorized)
            } else if !meta.funded {
                Some(Error::NotFunded)
            } else if index >= meta.milestone_count || !s.milestones.contains_key(index) {
                Some(Error::InvalidMilestone)
            } else if s.milestones[index].status != MilestoneStatus::Pending {
                Some(Error::InvalidStatus)
            } else if s.milestones[index].amount <= 0 {
                Some(Error::InvalidAmount)
            } else {
                None
            },
        }
    }
}

/// The storage after milestone `index` is marked delivered at `now`: its
/// status and delivery time change, and the delivery time is also written
/// to temporary storage.
pub open spec fn delivered_state(s: EscrowView, index: u32, now: u64) -> EscrowView {
    EscrowView {
        milestones: s.milestones.insert(
            index,
            Milestone {
                status: MilestoneStatus::Delivered,
                delivered_at: now,
                ..s.milestones[index]
            },
        ),
        delivered_at: s.delivered_at.insert(index, now),
        ..s
    }
}

/// The event `mark_delivered` publishes.
pub open spec fn delivered_event(s: EscrowView, index: u32, now: u64) -> DeliveredEvent {
    let meta = s.job.unwrap();
    DeliveredEvent {
        contract_id: s.contract,
        milestone_index: index,
        freelancer: meta.freelancer,
        client: meta.client,
        delivered_at: now,
        status: MilestoneStatus::Delivered,
        amount: s.milestones[index].amount,
    }
}

/// When milestone `index` was delivered: the temporary entry if the ledger
/// still holds it, else the time kept on the milestone itself.
pub open spec fn delivery_time(s: EscrowView, index: u32) -> u64 {
    if s.delivered_at.contains_key(index) {
        s.delivered_at[index]
    } else {
        s.milestones[index].delivered_at
    }
}

/// The ledger time from which milestone `index` may be claimed.
pub open spec fn release_deadline(s: EscrowView, index: u32) -> int {
    delivery_time(s, index) + s.job.unwrap().auto_release_seconds
}

/// The error `claim_auto_release` ends with, if any.
pub open spec fn claim_error(s: EscrowView, freelancer: Address, index: u32, now: u64) -> Option<
    Error,
> {
    match s.job {
        None => Some(Error::NotInitialized),
        Some(meta) => if meta.freelancer != freelancer {
            Some(Error::Unauthorized)
        } else if index >= meta.milestone_count || !s.milestones.contains_key(index) {
            Some(Error::InvalidMilestone)
        } else if s.milestones[index].status != MilestoneStatus::Delivered {
            Some(Error::InvalidStatus)
        } else if meta.auto_release_seconds == 0 || release_deadline(s, index) > u64::MAX {
            Some(Error::InvalidAmount)
        } else if now < release_deadline(s, index) {
            Some(Error::DeadlineNotPassed)
        } else if !fits_i128(remaining(s.milestones[index])) || remaining(s.milestones[index])
            <= 0 {
            Some(Error::InvalidAmount)
        } else {
            None
        },
    }
}

/// The storage after milestone `index` is paid out in full.
pub open spec fn release_state(s: EscrowView, index: u32) -> EscrowView {
    EscrowView {
        milestones: s.milestones.insert(index, released_milestone(s.milestones[index])),
        ..s
    }
}

/// The payment of what remains of milestone `index` from the contract to
/// `to`.
pub open spec fn payout(s: EscrowView, index: u32, to: Address) -> Transfer {
    Transfer {
        token: s.job.unwrap().token,
        from: s.contract,
        to,
        amount: remaining(s.milestones[index]) as i128,
    }
}

impl MilestoneEscrow {
    /// The client deposits the job's total into the escrow.  The caller's
    /// authorization is checked by the host between the address check and
    /// the rest.  On success, returns the deposit to perform and the event to
    /// publish.
    pub fn fund(&mut self, client: Address) -> (r: Result<(Transfer, FundedEvent), Error>)
        ensures
            r == match fund_error(old(self)@, client) {
                Some(e) => Err(e),
                None => Ok((fund_transfer(old(self)@, client), funded_event(old(self)@, client))),
            },
            r is Err ==> final(self)@ == old(self)@,
            r is Ok ==> final(self)@ == funded_state(old(self)@),
            r is Ok ==> evolves(old(self)@, final(self)@) && owed_total(final(self)@)
                == owed_total(old(self)@),
            r is Ok && wf(old(self)@) ==> wf(final(self)@),
    {
        self.validate_fund_client(client)?;
        let mut meta = self.load_job_meta()?;
        if meta.funded {
            return Err(Error::AlreadyFunded);
        }
        if meta.client != client {
            return Err(Error::Unauthorized);
        }
        let total_amount = meta.total_amount;
        let transfer = Transfer {
            token: meta.token,
            from: client,
            to: self.contract_address(),
            amount: total_amount,
        };
        meta.funded = true;
        self.store_job_meta(meta);
        let event = FundedEvent {
            contract_id: self.contract_address(),
            client,
            freelancer: meta.freelancer,
            arbiter: meta.arbiter,
            token: meta.token,
            total_amount,
            milestone_count: meta.milestone_count,
            auto_release_seconds: meta.auto_release_seconds,
            funded: meta.funded,
        };
        proof {
            lemma_fund_keeps(old(self)@, client);
        }
        Ok((transfer, event))
    }

    /// The freelancer marks pending milestone `index` delivered at ledger
    /// time `now`.  The all-zero addresses are refused before the host
    /// checks the caller's authorization.
    pub fn mark_delivered(&mut self, freelancer: Address, milestone_index: u32, now: u64) -> (r:
        Result<DeliveredEvent, Error>)
        ensures
            r == match mark_delivered_error(old(self)@, freelancer, milestone_index) {
                Some(e) => Err(e),
                None => Ok(delivered_event(old(self)@, milestone_index, now)),
            },
            r is Err ==> final(self)@ == old(self)@,
            r is Ok ==> final(self)@ == delivered_state(old(self)@, milestone_index, now),
            r is Ok ==> evolves(old(self)@, final(self)@),
            r is Ok && wf(old(self)@) ==> wf(final(self)@) && owed_total(final(self)@)
                == owed_total(old(self)@),
    {
        if Self::is_zero_address(freelancer) {
            return Err(Error::InvalidAddress);
        }
        let meta = self.load_job_meta()?;
        if meta.freelancer != freelancer {
            return Err(Error::Unauthorized);
        }
        if !meta.funded {
            return Err(Error::NotFunded);
        }
        if milestone_index >= meta.milestone_count {
            return Err(Error::InvalidMilestone);
        }
        let mut milestone = self.load_milestone(milestone_index)?;
        if milestone.status != MilestoneStatus::Pending {
            return Err(Error::InvalidStatus);
        }
        if milestone.amount <= 0 {
            return Err(Error::InvalidAmount);
        }
        milestone.status = MilestoneStatus::Delivered;
        milestone.delivered_at = now;
        self.store_milestone(milestone_index, milestone);
        self.store_delivered_at(milestone_index, now);
        proof {
            lemma_mark_delivered_keeps(old(self)@, freelancer, milestone_index, now);
        }
        Ok(
            DeliveredEvent {
                contract_id: self.contract_address(),
                milestone_index,
                freelancer: meta.freelancer,
                client: meta.client,
                delivered_at: now,
                status: MilestoneStatus::Delivered,
                amount: milestone.amount,
            },
        )
    }

    /// The freelancer claims a delivered milestone once the auto-release
    /// window has passed since delivery (at ledger time `now`).  The
    /// milestone is recorded as released before the payment, which the
    /// returned transfer describes, is made.
    pub fn claim_auto_release(&mut self, freelancer: Address, milestone_index: u32, now: u64) -> (r:
        Result<Transfer, Error>)
        ensures
            r == match claim_error(old(self)@, freelancer, milestone_index, now) {
                Some(e) => Err(e),
                None => Ok(payout(old(self)@, milestone_index, freelancer)),
            },
            r is Err ==> final(self)@ == old(self)@,
            r is Ok ==> final(self)@ == release_state(old(self)@, milestone_index),
            r matches Ok(t) ==> evolves(old(self)@, final(self)@) && (wf(old(self)@) ==> wf(
                final(self)@,
            ) && owed_total(final(self)@) == owed_total(old(self)@) - t.amount),
    {
        let meta = self.load_job_meta()?;
        if meta.freelancer != freelancer {
            return Err(Error::Unauthorized);
        }
        if milestone_index >= meta.milestone_count {
            return Err(Error::InvalidMilestone);
        }
        let mut milestone = self.load_milestone(milestone_index)?;
        if milestone.status != MilestoneStatus::Delivered {
            return Err(Error::InvalidStatus);
        }
        if meta.auto_release_seconds == 0 {
            return Err(Error::InvalidAmount);
        }
        let delivered_at = match self.load_delivered_at(milestone_index) {
            Some(t) => t,
            None => milestone.delivered_at,
        };
        let deadline = match delivered_at.checked_add(meta.auto_release_seconds) {
            Some(d) => d,
            None => {
                return Err(Error::InvalidAmount);
            },
        };
        if now < deadline {
            return Err(Error::DeadlineNotPassed);
        }
        let remaining = match milestone.amount.checked_sub(milestone.released_amount) {
            Some(v) => v,
            None => {
                return Err(Error::InvalidAmount);
            },
        };
        if remaining <= 0 {
            return Err(Error::InvalidAmount);
        }
        milestone.released_amount = milestone.amount;
        milestone.status = MilestoneStatus::Released;
        self.store_milestone(milestone_index, milestone);
        proof {
            lemma_claim_keeps(old(self)@, freelancer, milestone_index, now);
        }
        Ok(
            Transfer {
                token: meta.token,
                from: self.contract_address(),
                to: meta.freelancer,
                amount: remaining,
            },
        )
    }

    /// Seconds from `now` until milestone `index` may be auto-released
    /// (negative once the deadline has passed): the deadline and `now`, each
    /// taken as an `i64`, subtracted.  The job and the milestone must be
    /// stored, the deadline must fit in a `u64` and the difference in an
    /// `i64`; the contract panics otherwise.
    pub fn time_until_auto_release(&self, milestone_index: u32, now: u64) -> (r: i64)
        requires
            self@.job is Some,
            self@.milestones.contains_key(milestone_index),
            release_deadline(self@, milestone_index) <= u64::MAX,
            i64::MIN <= (release_deadline(self@, milestone_index) as u64 as i64) - (now as i64)
                <= i64::MAX,
        ensures
            r == (release_deadline(self@, milestone_index) as u64 as i64) - (now as i64),
    {
        let meta = self.load_job_meta().unwrap();
        let milestone = self.load_milestone(milestone_index).unwrap();
        let delivered_at = match self.load_delivered_at(milestone_index) {
            Some(t) => t,
            None => milestone.delivered_at,
        };
        let deadline = delivered_at + meta.auto_release_seconds;
        (deadline as i64) - (now as i64)
    }
}

} // verus!
