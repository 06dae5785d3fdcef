//! Raising a dispute over a milestone and the arbiter's resolution of it.
use vstd::prelude::*;
use crate::escrow::{EscrowView, MilestoneEscrow};
use crate::invariants::{
    evolves, lemma_raise_dispute_keeps, lemma_resolve_dispute_keeps, owed_total, wf,
};
use crate::lifecycle::payout;
use crate::rules::{disputable, fits_i128, released_milestone, remaining};
use crate::types::{Address, Error, Milestone, MilestoneStatus, Transfer};

verus! {

/// The error `raise_dispute` ends with, if any.
pub open spec fn raise_dispute_error(s: EscrowView, caller: Address, index: u32) -> Option<Error> {
    match s.job {
        None => Some(Error::NotInitialized),
        Some(meta) => if meta.client != caller && meta.freelancer != caller {
            Some(Error::Unauthorized)
        } else if !s.milestones.contains_key(index) {
            Some(Error::InvalidMilestone)
        } else if !disputable(s.milestones[index].status) {
            Some(Error::InvalidStatus)
        } else {
            None
        },
    }
}

/// The storage after milestone `index` is put in dispute.
pub open spec fn disputed_state(s: EscrowView, index: u32) -> EscrowView {
    EscrowView {
        milestones: s.milestones.insert(
            index,
            Milestone { status: MilestoneStatus::Disputed, ..s.milestones[index] },
        ),
        ..s
    }
}

/// The error `resolve_dispute` ends with, if any.
pub open spec fn resolve_dispute_error(s: EscrowView, arbiter: Address, index: u32) -> Option<
    Error,
> {
    match s.job {
        None => Some(Error::NotInitialized),
        Some(meta) => if meta.arbiter != arbiter {
            Some(Error::Unauthorized)
        } else if !s.milestones.contains_key(index) {
            Some(Error::InvalidMilestone)
        } else if s.milestones[index].status != MilestoneStatus::Disputed {
            Some(Error::InvalidStatus)
        } else {
            None
        },
    }
}

/// A disputed milestone after the arbiter's decision: released (and paid
/// out in full if anything remained) in the freelancer's favour, refunded
/// otherwise.
pub open spec fn resolved_milestone(m: Milestone, release_to_freelancer: bool) -> Milestone {
    if release_to_freelancer {
        if remaining(m) > 0 {
            released_milestone(m)
        } else {
            Milestone { status: MilestoneStatus::Released, ..m }
        }
    } else {
        Milestone { status: MilestoneStatus::Refunded, ..m }
    }
}

/// The payment a resolution makes: what remains of the milestone, to the
/// freelancer or back to the client; none when nothing remains.
pub open spec fn resolution_payout(s: EscrowView, index: u32, release_to_freelancer: bool) -> Option<
    Transfer,
> {
    if remaining(s.milestones[index]) > 0 {
        Some(
            payout(
                s,
                index,
                if release_to_freelancer {
                    s.job.unwrap().freelancer
                } else {
                    s.job.unwrap().client
                },
            ),
        )
    } else {
        None
    }
}

/// The storage after the resolution of the dispute over milestone `index`.
pub open spec fn resolved_state(s: EscrowView, index: u32, release_to_freelancer: bool) -> EscrowView {
    EscrowView {
        milestones: s.milestones.insert(
            index,
            resolved_milestone(s.milestones[index], release_to_freelancer),
        ),
        ..s
    }
}

impl MilestoneEscrow {
    /// The client or the freelancer freezes milestone `index` (pending,
    /// delivered or partially released) for arbitration.
    pub fn raise_dispute(&mut self, caller: Address, milestone_index: u32) -> (r: Result<(), Error>)
        ensures
            r == match raise_dispute_error(old(self)@, caller, milestone_index) {
                Some(e) => Err(e),
                None => Ok(()),
            },
            r is Err ==> final(self)@ == old(self)@,
            r is Ok ==> final(self)@ == disputed_state(old(self)@, milestone_index),
            r is Ok ==> evolves(old(self)@, final(self)@),
            r is Ok && wf(old(self)@) ==> wf(final(self)@) && owed_total(final(self)@)
                == owed_total(old(self)@),
    {
        let meta = self.load_job_meta()?;
        if meta.client != caller && meta.freelancer != caller {
            return Err(Error::Unauthorized);
        }
        let mut milestone = self.load_milestone(milestone_index)?;
        if milestone.status != MilestoneStatus::Pending && milestone.status
            != MilestoneStatus::Delivered && milestone.status != MilestoneStatus::PartiallyReleased {
            return Err(Error::InvalidStatus);
        }
        milestone.status = MilestoneStatus::Disputed;
        self.store_milestone(milestone_index, milestone);
        proof {
            lemma_raise_dispute_keeps(old(self)@, caller, milestone_index);
        }
        Ok(())
    }

    /// The arbiter settles the dispute over milestone `index`: what remains
    /// of it goes to the freelancer (`release_to_freelancer`) or back to the
    /// client.  Returns the payment to make, if anything remained.  The
    /// contract panics when the remaining amount does not fit in an `i128`.
    pub fn resolve_dispute(
        &mut self,
        arbiter: Address,
        milestone_index: u32,
        release_to_freelancer: bool,
    ) -> (r: Result<Option<Transfer>, Error>)
        requires
            resolve_dispute_error(old(self)@, arbiter, milestone_index) is None ==> fits_i128(
                remaining(old(self)@.milestones[milestone_index]),
            ),
        ensures
            r == match resolve_dispute_error(old(self)@, arbiter, milestone_index) {
                Some(e) => Err(e),
                None => Ok(resolution_payout(old(self)@, milestone_index, release_to_freelancer)),
            },
            r is Err ==> final(self)@ == old(self)@,
            r is Ok ==> final(self)@ == resolved_state(
                old(self)@,
                milestone_index,
                release_to_freelancer,
            ),
            r matches Ok(paid) ==> evolves(old(self)@, final(self)@) && (wf(old(self)@) ==> wf(
                final(self)@,
            ) && owed_total(final(self)@) == owed_total(old(self)@) - match paid {
                Some(t) => t.amount as int,
                None => 0,
            }),
    {
        let meta = self.load_job_meta()?;
        if meta.arbiter != arbiter {
            return Err(Error::Unauthorized);
        }
        let mut milestone = self.load_milestone(milestone_index)?;
        if milestone.status != MilestoneStatus::Disputed {
            return Err(Error::InvalidStatus);
        }
        let remaining = milestone.amount - milestone.released_amount;
        let mut transfer: Option<Transfer> = None;
        if release_to_freelancer {
            if remaining > 0 {
                transfer = Some(
                    Transfer {
                        token: meta.token,
                        from: self.contract_address(),
                        to: meta.freelancer,
                        amount: remaining,
                    },
                );
                milestone.released_amount = milestone.amount;
            }
            milestone.status = MilestoneStatus::Released;
        } else {
            if remaining > 0 {
                transfer = Some(
                    Transfer {
                        token: meta.token,
                        from: self.contract_address(),
                        to: meta.client,
                        amount: remaining,
                    },
                );
            }
            milestone.status = MilestoneStatus::Refunded;
        }
        self.store_milestone(milestone_index, milestone);
        proof {
            lemma_resolve_dispute_keeps(old(self)@, arbiter, milestone_index, release_to_freelancer);
        }
        Ok(transfer)
    }
}

} // verus!
