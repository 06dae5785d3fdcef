//! The client's releases of milestone funds, in part or in full.
use vstd::prelude::*;
use crate::escrow::{EscrowView, MilestoneEscrow};
use crate::invariants::{
    evolves, lemma_approve_milestone_keeps, lemma_approve_partial_keeps, owed_total, wf,
};
use crate::lifecycle::{payout, release_state};
use crate::rules::{approvable, fits_i128, released_milestone, remaining};
use crate::types::{is_zero, Address, ApprovedEvent, Error, Milestone, MilestoneStatus, Transfer};

verus! {

/// The error `approve_partial` ends with, if any.
pub open spec fn approve_partial_error(
    s: EscrowView,
    client: Address,
    index: u32,
    amount: i128,
) -> Option<Error> {
    if is_zero(client) || client == s.contract {
        Some(Error::InvalidAddress)
    } else {
        match s.job {
            None => Some(Error::NotInitialized),
            Some(meta) => if meta.client != client {
                Some(Error::Unauthorized)
            } else if index >= meta.milestone_count || !s.milestones.contains_key(index) {
                Some(Error::InvalidMilestone)
            } else if !approvable(s.milestones[index].status) {
                Some(Error::InvalidStatus)
            } else if amount <= 0 || !fits_i128(remaining(s.milestones[index])) || amount
                > remaining(s.milestones[index]) {
                Some(Error::InvalidAmount)
            } else {
                None
            },
        }
    }
}

/// A milestone after `amount` more of it has been paid: released once the
/// whole amount is paid, partially released before.
pub open spec fn partially_released(m: Milestone, amount: i128) -> Milestone {
    let paid = (m.released_amount + amount) as i128;
    Milestone {
        released_amount: paid,
        status: if paid == m.amount {
            MilestoneStatus::Released
        } else {
            MilestoneStatus::PartiallyReleased
        },
        ..m
    }
}

/// The storage after `approve_partial` pays `amount` of milestone `index`;
/// the temporary completion flag is set when that completes the milestone.
pub open spec fn partial_state(s: EscrowView, index: u32, amount: i128) -> EscrowView {
    let m = partially_released(s.milestones[index], amount);
    EscrowView {
        milestones: s.milestones.insert(index, m),
        released_flags: if m.status == MilestoneStatus::Released {
            s.released_flags.insert(index, true)
        } else {
            s.released_flags
        },
        ..s
    }
}

/// The event a release of `amount` from milestone `index` publishes, `m`
/// being the milestone after it.
pub open spec fn approved_event(s: EscrowView, index: u32, amount: i128, m: Milestone) -> ApprovedEvent {
    let meta = s.job.unwrap();
    ApprovedEvent {
        contract_id: s.contract,
        milestone_index: index,
        client: meta.client,
        freelancer: meta.freelancer,
        token: meta.token,
        amount,
        released_amount: m.released_amount,
        remaining: (m.amount - m.released_amount) as i128,
        status: m.status,
    }
}

/// The error `approve_milestone` ends with, if any.
pub open spec fn approve_milestone_error(s: EscrowView, client: Address, index: u32) -> Option<
    Error,
> {
    match s.job {
        None => Some(Error::NotInitialized),
        Some(meta) => if meta.client != client {
            Some(Error::Unauthorized)
        } else if index >= meta.milestone_count || !s.milestones.contains_key(index) {
            Some(Error::InvalidMilestone)
        } else if s.milestones[index].amount <= 0 {
            Some(Error::InvalidAmount)
        } else if !approvable(s.milestones[index].status) {
            Some(Error::InvalidStatus)
        } else if !fits_i128(remaining(s.milestones[index])) || remaining(s.milestones[index])
            <= 0 {
            Some(Error::InvalidAmount)
        } else {
            None
        },
    }
}

/// The storage after `approve_milestone` pays milestone `index` in full and
/// sets its temporary completion flag.
pub open spec fn approved_state(s: EscrowView, index: u32) -> EscrowView {
    EscrowView { released_flags: s.released_flags.insert(index, true), ..release_state(s, index) }
}

impl MilestoneEscrow {
    /// The client pays `amount` of delivered milestone `index` to the
    /// freelancer.  The all-zero addresses and the contract's own address
    /// are refused before the host checks the caller's authorization.
    pub fn approve_partial(&mut self, client: Address, milestone_index: u32, amount: i128) -> (r:
        Result<(Transfer, ApprovedEvent), Error>)
        ensures
            r == match approve_partial_error(old(self)@, client, milestone_index, amount) {
                Some(e) => Err(e),
                None => Ok(
                    (
                        Transfer {
                            token: old(self)@.job.unwrap().token,
                            from: old(self)@.contract,
                            to: old(self)@.job.unwrap().freelancer,
                            amount,
                        },
                        approved_event(
                            old(self)@,
                            milestone_index,
                            amount,
                            partially_released(old(self)@.milestones[milestone_index], amount),
                        ),
                    ),
                ),
            },
            r is Err ==> final(self)@ == old(self)@,
            r is Ok ==> final(self)@ == partial_state(old(self)@, milestone_index, amount),
            r matches Ok((t, _)) ==> evolves(old(self)@, final(self)@) && (wf(old(self)@) ==> wf(
                final(self)@,
            ) && owed_total(final(self)@) == owed_total(old(self)@) - t.amount),
    {
        if Self::is_zero_address(client) || client == self.contract_address() {
            return Err(Error::InvalidAddress);
        }
        let meta = self.load_job_meta()?;
        if meta.client != client {
            return Err(Error::Unauthorized);
        }
        if milestone_index >= meta.milestone_count {
            return Err(Error::InvalidMilestone);
        }
        let milestone = self.load_milestone(milestone_index)?;
        if milestone.status != MilestoneStatus::Delivered && milestone.status
            != MilestoneStatus::PartiallyReleased {
            return Err(Error::InvalidStatus);
        }
        if amount <= 0 {
            return Err(Error::InvalidAmount);
        }
        let remaining = match milestone.amount.checked_sub(milestone.released_amount) {
            Some(v) => v,
            None => {
                return Err(Error::InvalidAmount);
            },
        };
        if amount > remaining {
            return Err(Error::InvalidAmount);
        }
        let transfer = Transfer {
            token: meta.token,
            from: self.contract_address(),
            to: meta.freelancer,
            amount,
        };
        let mut updated = milestone;
        updated.released_amount = match updated.released_amount.checked_add(amount) {
            Some(v) => v,
            None => {
                return Err(Error::InvalidAmount);
            },
        };
        if updated.released_amount == updated.amount {
            updated.status = MilestoneStatus::Released;
            self.store_milestone_released(milestone_index);
        } else {
            updated.status = MilestoneStatus::PartiallyReleased;
        }
        self.store_milestone(milestone_index, updated);
        let event_remaining = match updated.amount.checked_sub(updated.released_amount) {
            Some(v) => v,
            None => {
                return Err(Error::InvalidAmount);
            },
        };
        let event = ApprovedEvent {
            contract_id: self.contract_address(),
            milestone_index,
            client: meta.client,
            freelancer: meta.freelancer,
            token: meta.token,
            amount,
            released_amount: updated.released_amount,
            remaining: event_remaining,
            status: updated.status,
        };
        proof {
            lemma_approve_partial_keeps(old(self)@, client, milestone_index, amount);
        }
        Ok((transfer, event))
    }

    /// The client pays what remains of delivered milestone `index` to the
    /// freelancer, completing it.
    pub fn approve_milestone(&mut self, client: Address, milestone_index: u32) -> (r: Result<
        (Transfer, ApprovedEvent),
        Error,
    >)
        ensures
            r == match approve_milestone_error(old(self)@, client, milestone_index) {
                Some(e) => Err(e),
                None => Ok(
                    (
                        payout(old(self)@, milestone_index, old(self)@.job.unwrap().freelancer),
                        approved_event(
                            old(self)@,
                            milestone_index,
                            remaining(old(self)@.milestones[milestone_index]) as i128,
                            released_milestone(old(self)@.milestones[milestone_index]),
                        ),
                    ),
                ),
            },
            r is Err ==> final(self)@ == old(self)@,
            r is Ok ==> final(self)@ == approved_state(old(self)@, milestone_index),
            r matches Ok((t, _)) ==> evolves(old(self)@, final(self)@) && (wf(old(self)@) ==> wf(
                final(self)@,
            ) && owed_total(final(self)@) == owed_total(old(self)@) - t.amount),
    {
        let meta = self.load_job_meta()?;
        if meta.client != client {
            return Err(Error::Unauthorized);
        }
        if milestone_index >= meta.milestone_count {
            return Err(Error::InvalidMilestone);
        }
        let mut milestone = self.load_milestone(milestone_index)?;
        if milestone.amount <= 0 {
            return Err(Error::InvalidAmount);
        }
        if milestone.status != MilestoneStatus::Delivered && milestone.status
            != MilestoneStatus::PartiallyReleased {
            return Err(Error::InvalidStatus);
        }
        let remaining = match milestone.amount.checked_sub(milestone.released_amount) {
            Some(v) => v,
            None => {
                return Err(Error::InvalidAmount);
            },
        };
        if remaining <= 0 {
            return Err(Error::InvalidAmount);
        }
        let transfer = Transfer {
            token: meta.token,
            from: self.contract_address(),
            to: meta.freelancer,
            amount: remaining,
        };
        milestone.released_amount = milestone.amount;
        milestone.status = MilestoneStatus::Released;
        self.store_milestone(milestone_index, milestone);
        self.store_milestone_released(milestone_index);
        let event_remaining = match milestone.amount.checked_sub(milestone.released_amount) {
            Some(v) => v,
            None => {
                return Err(Error::InvalidAmount);
            },
        };
        let event = ApprovedEvent {
            contract_id: self.contract_address(),
            milestone_index,
            client: meta.client,
            freelancer: meta.freelancer,
            token: meta.token,
            amount: remaining,
            released_amount: milestone.released_amount,
            remaining: event_remaining,
            status: milestone.status,
        };
        proof {
            lemma_approve_milestone_keeps(old(self)@, client, milestone_index);
        }
        Ok((transfer, event))
    }
}

} // verus!
