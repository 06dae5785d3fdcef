//! What every call of the contract keeps: the well-formedness of the stored
//! state, the one-way progress of the job and its milestones, and the
//! accounting of what the escrow still owes the parties.
use vstd::prelude::*;
use crate::admin::{
    add_token_error, all_positive, amounts_valid, initial_milestone, initial_milestones,
    initialize_error, initialized, remove_token_error, sum_amounts, transfer_admin_error,
};
use crate::approval::{
    approve_milestone_error, approve_partial_error, approved_state, partial_state,
    partially_released,
};
use crate::dispute::{
    disputed_state, raise_dispute_error, resolution_payout, resolve_dispute_error, resolved_state,
};
use crate::escrow::EscrowView;
use crate::lifecycle::{
    claim_error, delivered_state, fund_error, funded_state, mark_delivered_error, release_state,
};
use crate::rules::remaining;
use crate::types::{Address, JobMeta, Milestone, MilestoneStatus, MAX_WHITELIST_SIZE};

verus! {

/// A milestone that has been paid out or refunded; no call changes it again.
pub open spec fn settled(status: MilestoneStatus) -> bool {
    status == MilestoneStatus::Released || status == MilestoneStatus::Refunded
}

/// The order in which a milestone moves through its statuses.
pub open spec fn status_rank(status: MilestoneStatus) -> int {
    match status {
        MilestoneStatus::Pending => 0,
        MilestoneStatus::Delivered => 1,
        MilestoneStatus::PartiallyReleased => 2,
        MilestoneStatus::Disputed => 3,
        MilestoneStatus::Released => 4,
        MilestoneStatus::Refunded => 4,
    }
}

/// A milestone the contract itself can produce: a positive amount, a paid
/// part between zero and the amount, and a paid part that agrees with the
/// status.
pub open spec fn milestone_wf(m: Milestone) -> bool {
    &&& 0 < m.amount
    &&& 0 <= m.released_amount <= m.amount
    &&& (m.status == MilestoneStatus::Pending || m.status == MilestoneStatus::Delivered)
        ==> m.released_amount == 0
    &&& m.status == MilestoneStatus::PartiallyReleased ==> 0 < m.released_amount < m.amount
    &&& m.status == MilestoneStatus::Released ==> m.released_amount == m.amount
    &&& (m.status == MilestoneStatus::Disputed || m.status == MilestoneStatus::Refunded)
        ==> m.released_amount < m.amount
}

/// What the escrow still owes on a milestone (to the freelancer or, on a
/// refund, to the client): nothing once it is settled, the unpaid part
/// before.  Before the job is funded this is owed but not yet deposited.
pub open spec fn owed(m: Milestone) -> int {
    if settled(m.status) {
        0
    } else {
        m.amount - m.released_amount
    }
}

/// The sum of the amounts of milestones `0..n`.
pub open spec fn amounts_upto(ms: Map<u32, Milestone>, n: nat) -> int
    decreases n,
{
    if n == 0 {
        0
    } else {
        amounts_upto(ms, (n - 1) as nat) + ms[(n - 1) as u32].amount
    }
}

/// The sum of what the escrow owes on milestones `0..n`.
pub open spec fn owed_upto(ms: Map<u32, Milestone>, n: nat) -> int
    decreases n,
{
    if n == 0 {
        0
    } else {
        owed_upto(ms, (n - 1) as nat) + owed(ms[(n - 1) as u32])
    }
}

/// What the escrow owes on the whole job (nothing before initialization).
pub open spec fn owed_total(s: EscrowView) -> int {
    match s.job {
        Some(meta) => owed_upto(s.milestones, meta.milestone_count as nat),
        None => 0,
    }
}

/// A whitelist with no token twice and at most `MAX_WHITELIST_SIZE` tokens.
pub open spec fn whitelist_wf(w: Seq<Address>) -> bool {
    w.no_duplicates() && w.len() <= MAX_WHITELIST_SIZE
}

/// The stored milestones are exactly `0..milestone_count`, each well formed,
/// and their amounts add up to the recorded total.
pub open spec fn milestones_wf(s: EscrowView, meta: JobMeta) -> bool {
    &&& forall|i: u32| #[trigger]
        s.milestones.contains_key(i) <==> i < meta.milestone_count
    &&& forall|i: u32| #[trigger]
        s.milestones.contains_key(i) ==> milestone_wf(s.milestones[i])
    &&& meta.total_amount == amounts_upto(s.milestones, meta.milestone_count as nat)
}

/// The storage of a contract that only its own calls have written:
/// nothing but temporary entries before initialization; afterwards an
/// admin, a well-formed whitelist and well-formed milestones.
pub open spec fn wf(s: EscrowView) -> bool {
    match s.job {
        None => s.admin is None && s.whitelist is None && s.milestones.dom() =~= Set::empty(),
        Some(meta) => {
            &&& s.admin is Some
            &&& s.whitelist is Some
            &&& whitelist_wf(s.whitelist.unwrap())
            &&& milestones_wf(s, meta)
        },
    }
}

/// A milestone moves forward only: same amount, paid part never shrinking,
/// status never going back, and a settled milestone never changing.
pub open spec fn milestone_progress(a: Milestone, b: Milestone) -> bool {
    &&& b.amount == a.amount
    &&& a.released_amount <= b.released_amount
    &&& settled(a.status) ==> b == a
    &&& status_rank(a.status) <= status_rank(b.status)
}

/// The job record keeps its parties, token, window, count and total; once
/// funded it stays funded.
pub open spec fn job_progress(a: JobMeta, b: JobMeta) -> bool {
    &&& b == JobMeta { funded: b.funded, ..a }
    &&& a.funded ==> b.funded
}

/// `post` is a state that the calls can reach from `pre`: same contract,
/// the job record only progresses, and every stored milestone stays stored
/// and only progresses.
pub open spec fn evolves(pre: EscrowView, post: EscrowView) -> bool {
    &&& post.contract == pre.contract
    &&& pre.job is Some ==> (post.job is Some && job_progress(pre.job.unwrap(), post.job.unwrap()))
    &&& forall|i: u32| #[trigger]
        pre.milestones.contains_key(i) ==> post.milestones.contains_key(i) && milestone_progress(
            pre.milestones[i],
            post.milestones[i],
        )
}

/// Replacing milestone `k` changes the sums over `0..n` by the difference
/// at `k`, when `k < n`, and not at all otherwise.
pub proof fn lemma_sums_after_insert(ms: Map<u32, Milestone>, n: nat, k: u32, m: Milestone)
    requires
        n <= u32::MAX + 1,
    ensures
        amounts_upto(ms.insert(k, m), n) == amounts_upto(ms, n) + if k < n {
            m.amount - ms[k].amount
        } else {
            0
        },
        owed_upto(ms.insert(k, m), n) == owed_upto(ms, n) + if k < n {
            owed(m) - owed(ms[k])
        } else {
            0
        },
    decreases n,
{
    if n > 0 {
        lemma_sums_after_insert(ms, (n - 1) as nat, k, m);
    }
}

/// Under well-formed milestones, what the escrow owes lies between nothing
/// and the sum of the amounts.
pub proof fn lemma_owed_bounds(ms: Map<u32, Milestone>, n: nat)
    requires
        n <= u32::MAX + 1,
        forall|i: u32| i < n ==> #[trigger] ms.contains_key(i) && milestone_wf(ms[i]),
    ensures
        0 <= owed_upto(ms, n) <= amounts_upto(ms, n),
    decreases n,
{
    if n > 0 {
        lemma_owed_bounds(ms, (n - 1) as nat);
        let last = (n - 1) as u32;
        assert(ms.contains_key(last) && milestone_wf(ms[last]));
    }
}

/// The freshly initialized milestones hold the given amounts, all still
/// owed.
pub proof fn lemma_initial_sums(ms: Map<u32, Milestone>, amounts: Seq<i128>, n: nat)
    requires
        n <= amounts.len() <= u32::MAX,
    ensures
        amounts_upto(initial_milestones(ms, amounts), n) == sum_amounts(amounts.subrange(0, n as int)),
        owed_upto(initial_milestones(ms, amounts), n) == sum_amounts(amounts.subrange(0, n as int)),
    decreases n,
{
    if n > 0 {
        lemma_initial_sums(ms, amounts, (n - 1) as nat);
        assert(amounts.subrange(0, n as int).drop_last() =~= amounts.subrange(0, (n - 1) as int));
        let i = (n - 1) as u32;
        assert(initial_milestones(ms, amounts)[i] == initial_milestone(amounts[i as int]));
    } else {
        assert(amounts.subrange(0, 0) =~= Seq::<i128>::empty());
    }
}

/// With valid amounts, the milestones written by `initialize` are well
/// formed.
pub proof fn lemma_initial_wf(ms: Map<u32, Milestone>, amounts: Seq<i128>)
    requires
        amounts_valid(amounts),
        amounts.len() <= u32::MAX,
    ensures
        forall|i: u32|
            i < amounts.len() ==> milestone_wf(#[trigger] initial_milestones(ms, amounts)[i]),
{
    assert forall|i: u32| i < amounts.len() implies milestone_wf(
        #[trigger] initial_milestones(ms, amounts)[i],
    ) by {
        assert(amounts[i as int] > 0);
    }
}

/// With positive amounts, the sum is not negative.
pub proof fn lemma_sum_amounts_nonneg(amounts: Seq<i128>)
    requires
        all_positive(amounts),
    ensures
        sum_amounts(amounts) >= 0,
    decreases amounts.len(),
{
    if amounts.len() > 0 {
        assert(all_positive(amounts.drop_last())) by {
            assert forall|i: int| 0 <= i < amounts.drop_last().len() implies amounts.drop_last()[i]
                > 0 by {
                assert(amounts.drop_last()[i] == amounts[i]);
            }
        }
        lemma_sum_amounts_nonneg(amounts.drop_last());
    }
}

/// A successful `initialize` from a well-formed (hence empty) storage
/// yields well-formed storage owing the whole total, and is progress.
pub proof fn lemma_initialize_keeps(
    s: EscrowView,
    admin: Address,
    client: Address,
    freelancer: Address,
    arbiter: Address,
    token: Address,
    auto_release_seconds: u64,
    amounts: Seq<i128>,
)
    requires
        initialize_error(s, amounts) is None,
        amounts.len() <= u32::MAX,
        wf(s),
    ensures
        wf(initialized(s, admin, client, freelancer, arbiter, token, auto_release_seconds, amounts)),
        evolves(
            s,
            initialized(s, admin, client, freelancer, arbiter, token, auto_release_seconds, amounts),
        ),
        owed_total(
            initialized(s, admin, client, freelancer, arbiter, token, auto_release_seconds, amounts),
        ) == sum_amounts(amounts),
{
    let post = initialized(
        s,
        admin,
        client,
        freelancer,
        arbiter,
        token,
        auto_release_seconds,
        amounts,
    );
    let meta = post.job.unwrap();
    let n = amounts.len();
    lemma_initial_sums(s.milestones, amounts, n);
    assert(amounts.subrange(0, n as int) =~= amounts);
    lemma_sum_amounts_nonneg(amounts);
    lemma_initial_wf(s.milestones, amounts);
    assert(meta.milestone_count as nat == n);
    assert forall|i: u32| #[trigger] post.milestones.contains_key(i) <==> i < meta.milestone_count by {
        assert(!s.milestones.dom().contains(i));
    }
    assert(seq![token].no_duplicates());
}

/// No duplicates survive removing one position.
pub proof fn lemma_remove_keeps_no_duplicates(w: Seq<Address>, k: int)
    requires
        w.no_duplicates(),
        0 <= k < w.len(),
    ensures
        w.remove(k).no_duplicates(),
        !w.remove(k).contains(w[k]),
{
    w.remove_ensures(k);
    let r = w.remove(k);
    assert forall|i: int, j: int| 0 <= i < r.len() && 0 <= j < r.len() && i != j implies r[i]
        != r[j] by {
        let oi = if i < k { i } else { i + 1 };
        let oj = if j < k { j } else { j + 1 };
        assert(r[i] == w[oi] && r[j] == w[oj]);
    }
    assert forall|i: int| 0 <= i < r.len() implies r[i] != w[k] by {
        let oi = if i < k { i } else { i + 1 };
        assert(r[i] == w[oi]);
    }
}

/// The calls on the admin role and the whitelist keep well-formedness,
/// leave the job and its funds alone, and are progress.
pub proof fn lemma_admin_calls_keep(s: EscrowView, caller: Address, who: Address)
    requires
        wf(s),
    ensures
        transfer_admin_error(s, caller) is None ==> {
            let post = EscrowView { admin: Some(who), ..s };
            wf(post) && evolves(s, post) && owed_total(post) == owed_total(s)
        },
        add_token_error(s, caller, who) is None ==> {
            let post = EscrowView { whitelist: Some(s.whitelist.unwrap().push(who)), ..s };
            wf(post) && evolves(s, post) && owed_total(post) == owed_total(s)
        },
        remove_token_error(s, caller, who) is None ==> {
            let post = EscrowView { whitelist: Some(s.whitelist.unwrap().remove_value(who)), ..s };
            wf(post) && evolves(s, post) && owed_total(post) == owed_total(s)
        },
{
    if add_token_error(s, caller, who) is None {
        let w = s.whitelist.unwrap();
        let p = w.push(who);
        assert forall|i: int, j: int| 0 <= i < p.len() && 0 <= j < p.len() && i != j implies p[i]
            != p[j] by {
            if i < w.len() && j < w.len() {
            } else if i == w.len() {
                assert(p[j] == w[j]);
                if w[j] == who {
                    assert(w.contains(who));
                }
            } else {
                assert(p[i] == w[i]);
                if w[i] == who {
                    assert(w.contains(who));
                }
            }
        }
    }
    if remove_token_error(s, caller, who) is None {
        let w = s.whitelist.unwrap();
        w.index_of_first_ensures(who);
        let k = w.index_of_first(who).unwrap();
        lemma_remove_keeps_no_duplicates(w, k);
    }
}

/// A successful `fund` keeps well-formedness and what is owed, and is
/// progress.
pub proof fn lemma_fund_keeps(s: EscrowView, client: Address)
    requires
        fund_error(s, client) is None,
    ensures
        wf(s) ==> wf(funded_state(s)),
        evolves(s, funded_state(s)),
        owed_total(funded_state(s)) == owed_total(s),
{
}

/// Replacing one of the job's milestones by a well-formed one of the same
/// amount keeps the milestones well formed.
pub proof fn lemma_replace_keeps_wf(s: EscrowView, post: EscrowView, k: u32, m: Milestone)
    requires
        wf(s),
        s.job is Some,
        s.milestones.contains_key(k),
        milestone_wf(m),
        m.amount == s.milestones[k].amount,
        post.job == s.job,
        post.admin == s.admin,
        post.whitelist == s.whitelist,
        post.milestones == s.milestones.insert(k, m),
    ensures
        wf(post),
        owed_total(post) == owed_total(s) + owed(m) - owed(s.milestones[k]),
{
    let meta = s.job.unwrap();
    lemma_sums_after_insert(s.milestones, meta.milestone_count as nat, k, m);
}

/// A successful `mark_delivered` keeps well-formedness and what is owed,
/// and is progress.
pub proof fn lemma_mark_delivered_keeps(s: EscrowView, freelancer: Address, index: u32, now: u64)
    requires
        mark_delivered_error(s, freelancer, index) is None,
    ensures
        wf(s) ==> wf(delivered_state(s, index, now)) && owed_total(delivered_state(s, index, now))
            == owed_total(s),
        evolves(s, delivered_state(s, index, now)),
{
    let post = delivered_state(s, index, now);
    if wf(s) {
        lemma_replace_keeps_wf(s, post, index, post.milestones[index]);
    }
}

/// A successful `claim_auto_release` keeps well-formedness, lowers what
/// is owed by exactly what it pays, and is progress.
pub proof fn lemma_claim_keeps(s: EscrowView, freelancer: Address, index: u32, now: u64)
    requires
        claim_error(s, freelancer, index, now) is None,
    ensures
        wf(s) ==> wf(release_state(s, index)) && owed_total(release_state(s, index))
            == owed_total(s) - remaining(s.milestones[index]),
        evolves(s, release_state(s, index)),
{
    let post = release_state(s, index);
    if wf(s) {
        lemma_replace_keeps_wf(s, post, index, post.milestones[index]);
    }
}

/// A successful `approve_partial` keeps well-formedness, lowers what is
/// owed by exactly what it pays, and is progress.
pub proof fn lemma_approve_partial_keeps(s: EscrowView, client: Address, index: u32, amount: i128)
    requires
        approve_partial_error(s, client, index, amount) is None,
    ensures
        wf(s) ==> wf(partial_state(s, index, amount)) && owed_total(
            partial_state(s, index, amount),
        ) == owed_total(s) - amount,
        evolves(s, partial_state(s, index, amount)),
{
    let post = partial_state(s, index, amount);
    if wf(s) {
        lemma_replace_keeps_wf(s, post, index, partially_released(s.milestones[index], amount));
    }
}

/// A successful `approve_milestone` keeps well-formedness, lowers what
/// is owed by exactly what it pays, and is progress.
pub proof fn lemma_approve_milestone_keeps(s: EscrowView, client: Address, index: u32)
    requires
        approve_milestone_error(s, client, index) is None,
    ensures
        wf(s) ==> wf(approved_state(s, index)) && owed_total(approved_state(s, index))
            == owed_total(s) - remaining(s.milestones[index]),
        evolves(s, approved_state(s, index)),
{
    let post = approved_state(s, index);
    if wf(s) {
        lemma_replace_keeps_wf(s, post, index, post.milestones[index]);
    }
}

/// A successful `raise_dispute` keeps well-formedness and what is owed,
/// and is progress.
pub proof fn lemma_raise_dispute_keeps(s: EscrowView, caller: Address, index: u32)
    requires
        raise_dispute_error(s, caller, index) is None,
    ensures
        wf(s) ==> wf(disputed_state(s, index)) && owed_total(disputed_state(s, index))
            == owed_total(s),
        evolves(s, disputed_state(s, index)),
{
    let post = disputed_state(s, index);
    if wf(s) {
        lemma_replace_keeps_wf(s, post, index, post.milestones[index]);
    }
}

/// A successful `resolve_dispute` keeps well-formedness, lowers what is
/// owed by exactly what it pays, and is progress.
pub proof fn lemma_resolve_dispute_keeps(s: EscrowView, arbiter: Address, index: u32, release: bool)
    requires
        resolve_dispute_error(s, arbiter, index) is None,
    ensures
        wf(s) ==> wf(resolved_state(s, index, release)) && owed_total(
            resolved_state(s, index, release),
        ) == owed_total(s) - match resolution_payout(s, index, release) {
            Some(t) => t.amount as int,
            None => 0,
        },
        evolves(s, resolved_state(s, index, release)),
{
    let post = resolved_state(s, index, release);
    if wf(s) {
        lemma_replace_keeps_wf(s, post, index, post.milestones[index]);
    }
}

} // verus!
