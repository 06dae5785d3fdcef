//! Spec-level vocabulary shared by the contracts of the calls.
use vstd::prelude::*;
use crate::types::{Milestone, MilestoneStatus};

verus! {

/// The part of a milestone's amount not yet paid to the freelancer.
pub open spec fn remaining(m: Milestone) -> int {
    m.amount - m.released_amount
}

/// `x` fits in an `i128`.
pub open spec fn fits_i128(x: int) -> bool {
    i128::MIN <= x <= i128::MAX
}

/// The statuses from which the client may release funds.
pub open spec fn approvable(status: MilestoneStatus) -> bool {
    status == MilestoneStatus::Delivered || status == MilestoneStatus::PartiallyReleased
}

/// The statuses from which a dispute may be raised.
pub open spec fn disputable(status: MilestoneStatus) -> bool {
    status == MilestoneStatus::Pending || status == MilestoneStatus::Delivered || status
        == MilestoneStatus::PartiallyReleased
}

/// A milestone paid out in full.
pub open spec fn released_milestone(m: Milestone) -> Milestone {
    Milestone { released_amount: m.amount, status: MilestoneStatus::Released, ..m }
}

} // verus!
