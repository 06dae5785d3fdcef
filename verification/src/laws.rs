//! Properties of the escrow that relate several of its calls.
use vstd::prelude::*;
use crate::admin::{
    add_token_error, amounts_valid, initial_milestone, initialize_error, initialized,
    remove_token_error, sum_amounts, token_whitelisted, transfer_admin_error,
};
use crate::approval::{approve_milestone_error, approve_partial_error, approved_state, partial_state};
use crate::dispute::{raise_dispute_error, resolution_payout, resolve_dispute_error};
use crate::escrow::{empty_storage, EscrowView};
use crate::invariants::{
    amounts_upto, owed, owed_upto, evolves, lemma_approve_milestone_keeps, lemma_approve_partial_keeps,
    lemma_claim_keeps, lemma_initial_sums, lemma_owed_bounds, lemma_resolve_dispute_keeps,
    owed_total, milestone_progress, settled, wf,
};
use crate::lifecycle::{
    claim_error, delivered_state, fund_error, fund_transfer, funded_state, mark_delivered_error,
    release_deadline,
};
use crate::report::{all_milestones_stored, job_milestones, running_total};
use crate::rules::remaining;
use crate::types::{Address, Error, Milestone};

verus! {

/// A freshly deployed contract is well formed and owes nothing.
pub proof fn law_fresh_contract_is_well_formed(contract: Address)
    ensures
        wf(empty_storage(contract)),
        owed_total(empty_storage(contract)) == 0,
{
}

/// A job is set up once: with a job stored, `initialize` always ends with
/// `AlreadyInitialized`.
pub proof fn law_initialize_only_once(s: EscrowView, amounts: Seq<i128>)
    requires
        s.job is Some,
    ensures
        initialize_error(s, amounts) == Some(Error::AlreadyInitialized),
{
}

/// What `initialize` stores is what `get_job` and `is_token_whitelisted`
/// report: one pending milestone per amount, in order, the token on the
/// whitelist, an unfunded job whose total is the sum of the amounts.
pub proof fn law_initialize_then_read_back(
    s: EscrowView,
    admin: Address,
    client: Address,
    freelancer: Address,
    arbiter: Address,
    token: Address,
    auto_release_seconds: u64,
    amounts: Seq<i128>,
)
    requires
        initialize_error(s, amounts) is None,
        amounts.len() <= u32::MAX,
    ensures
        ({
            let post = initialized(
                s,
                admin,
                client,
                freelancer,
                arbiter,
                token,
                auto_release_seconds,
                amounts,
            );
            let meta = post.job.unwrap();
            &&& all_milestones_stored(post, meta)
            &&& job_milestones(post, meta) == amounts.map_values(|a: i128| initial_milestone(a))
            &&& token_whitelisted(post, token)
            &&& !meta.funded
            &&& meta.total_amount == sum_amounts(amounts)
        }),
{
    let post = initialized(s, admin, client, freelancer, arbiter, token, auto_release_seconds, amounts);
    let meta = post.job.unwrap();
    assert(job_milestones(post, meta) =~= amounts.map_values(|a: i128| initial_milestone(a)));
    assert(post.whitelist.unwrap()[0] == token);
    crate::invariants::lemma_sum_amounts_nonneg(amounts);
}

/// The client funds the job once: after a successful `fund`, every further
/// `fund` fails.
pub proof fn law_fund_only_once(s: EscrowView, client: Address, anyone: Address)
    requires
        fund_error(s, client) is None,
    ensures
        fund_error(funded_state(s), anyone) is Some,
{
}

/// A settled (released or refunded) milestone refuses every call that
/// names it: no delivery, claim, approval, dispute or resolution succeeds.
pub proof fn law_settled_milestone_refuses_every_call(
    s: EscrowView,
    index: u32,
    who: Address,
    amount: i128,
    now: u64,
)
    requires
        s.milestones.contains_key(index),
        settled(s.milestones[index].status),
    ensures
        mark_delivered_error(s, who, index) is Some,
        claim_error(s, who, index, now) is Some,
        approve_partial_error(s, who, index, amount) is Some,
        approve_milestone_error(s, who, index) is Some,
        raise_dispute_error(s, who, index) is Some,
        resolve_dispute_error(s, who, index) is Some,
{
}

/// In a well-formed contract, what the escrow owes on the job (the unpaid
/// part of its unsettled milestones) never exceeds the job's total nor
/// falls below zero.
pub proof fn law_owed_within_total(s: EscrowView)
    requires
        wf(s),
        s.job is Some,
    ensures
        0 <= owed_total(s) <= s.job.unwrap().total_amount,
{
    let meta = s.job.unwrap();
    assert(crate::invariants::milestones_wf(s, meta));
    assert forall|i: u32| i < meta.milestone_count implies #[trigger] s.milestones.contains_key(i)
        && crate::invariants::milestone_wf(s.milestones[i]) by {
        assert(s.milestones.contains_key(i));
    }
    lemma_owed_bounds(s.milestones, meta.milestone_count as nat);
}

/// Funding deposits exactly what the escrow owes: in a well-formed contract
/// whose milestones are all still unpaid and unsettled (as `initialize`
/// leaves them), the deposit `fund` asks for is what the escrow owes.
pub proof fn law_fund_deposits_what_is_owed(s: EscrowView, client: Address)
    requires
        wf(s),
        fund_error(s, client) is None,
        forall|i: u32| #[trigger]
            s.milestones.contains_key(i) ==> s.milestones[i].released_amount == 0 && !settled(
                s.milestones[i].status,
            ),
    ensures
        fund_transfer(s, client).amount == owed_total(s),
{
    let meta = s.job.unwrap();
    lemma_untouched_owes_all(s.milestones, meta.milestone_count as nat);
}

/// Milestones all unpaid and unsettled owe their whole amounts.
proof fn lemma_untouched_owes_all(ms: Map<u32, Milestone>, n: nat)
    requires
        n <= u32::MAX + 1,
        forall|i: u32| #[trigger]
            ms.contains_key(i) ==> ms[i].released_amount == 0 && !settled(ms[i].status),
        forall|i: u32| i < n ==> #[trigger] ms.contains_key(i),
    ensures
        owed_upto(ms, n) == amounts_upto(ms, n),
    decreases n,
{
    if n > 0 {
        lemma_untouched_owes_all(ms, (n - 1) as nat);
        assert(ms.contains_key((n - 1) as u32));
        assert(owed(ms[(n - 1) as u32]) == ms[(n - 1) as u32].amount);
    }
}

/// The escrow never pays out more than it owes on the job: in a
/// well-formed contract, what a partial release, a full approval, an
/// auto-release claim or a dispute resolution pays is at most what the
/// escrow still owes.  Together with `law_fund_deposits_what_is_owed` and
/// the exact decrease each paying call states, what a funded escrow has
/// been paid and has not paid out again is always what it still owes.
pub proof fn law_payouts_within_what_is_owed(
    s: EscrowView,
    who: Address,
    index: u32,
    amount: i128,
    now: u64,
    release: bool,
)
    requires
        wf(s),
    ensures
        approve_partial_error(s, who, index, amount) is None ==> amount <= owed_total(s),
        approve_milestone_error(s, who, index) is None ==> remaining(s.milestones[index])
            <= owed_total(s),
        claim_error(s, who, index, now) is None ==> remaining(s.milestones[index]) <= owed_total(
            s,
        ),
        resolve_dispute_error(s, who, index) is None ==> match resolution_payout(s, index, release) {
            Some(t) => t.amount <= owed_total(s),
            None => true,
        },
{
    if approve_partial_error(s, who, index, amount) is None {
        lemma_approve_partial_keeps(s, who, index, amount);
        law_owed_within_total(partial_state(s, index, amount));
    }
    if approve_milestone_error(s, who, index) is None {
        lemma_approve_milestone_keeps(s, who, index);
        law_owed_within_total(approved_state(s, index));
    }
    if claim_error(s, who, index, now) is None {
        lemma_claim_keeps(s, who, index, now);
        law_owed_within_total(crate::lifecycle::release_state(s, index));
    }
    if resolve_dispute_error(s, who, index) is None {
        lemma_resolve_dispute_keeps(s, who, index, release);
        law_owed_within_total(crate::dispute::resolved_state(s, index, release));
    }
}

/// Releasing, in part, everything that remains of a milestone is the same
/// as approving the milestone: same storage afterwards and the same
/// payment.
pub proof fn law_partial_release_of_remainder_is_full_approval(
    s: EscrowView,
    client: Address,
    index: u32,
)
    requires
        wf(s),
        approve_partial_error(s, client, index, remaining(s.milestones[index]) as i128) is None,
    ensures
        approve_milestone_error(s, client, index) is None,
        partial_state(s, index, remaining(s.milestones[index]) as i128) == approved_state(s, index),
{
    let m = s.milestones[index];
    assert(crate::invariants::milestone_wf(m));
    assert(partial_state(s, index, remaining(m) as i128).milestones =~= approved_state(
        s,
        index,
    ).milestones);
}

/// Marking a milestone delivered at `now` starts its auto-release window:
/// the deadline becomes `now` plus the window.
pub proof fn law_delivery_starts_the_window(s: EscrowView, freelancer: Address, index: u32, now: u64)
    requires
        mark_delivered_error(s, freelancer, index) is None,
    ensures
        release_deadline(delivered_state(s, index, now), index) == now + s.job.unwrap().auto_release_seconds,
{
}

/// While `time_until_auto_release` reports time left (and neither the
/// deadline nor `now` exceeds `i64::MAX`), `claim_auto_release` fails.
pub proof fn law_claim_waits_for_the_countdown(s: EscrowView, freelancer: Address, index: u32, now: u64)
    requires
        s.job is Some,
        s.milestones.contains_key(index),
        release_deadline(s, index) <= i64::MAX,
        now <= i64::MAX,
        (release_deadline(s, index) as u64 as i64) - (now as i64) > 0,
    ensures
        claim_error(s, freelancer, index, now) is Some,
{
    assert(release_deadline(s, index) as u64 as i64 == release_deadline(s, index));
    assert(now as i64 == now);
}

/// A token the admin adds is then whitelisted.
pub proof fn law_added_token_is_whitelisted(s: EscrowView, admin: Address, token: Address)
    requires
        add_token_error(s, admin, token) is None,
    ensures
        token_whitelisted(EscrowView { whitelist: Some(s.whitelist.unwrap().push(token)), ..s }, token),
{
    assert(s.whitelist.unwrap().push(token).last() == token);
}

/// In a well-formed contract, a token the admin removes is no longer
/// whitelisted.
pub proof fn law_removed_token_is_not_whitelisted(s: EscrowView, admin: Address, token: Address)
    requires
        wf(s),
        remove_token_error(s, admin, token) is None,
    ensures
        !token_whitelisted(
            EscrowView { whitelist: Some(s.whitelist.unwrap().remove_value(token)), ..s },
            token,
        ),
{
    let w = s.whitelist.unwrap();
    w.index_of_first_ensures(token);
    crate::invariants::lemma_remove_keeps_no_duplicates(w, w.index_of_first(token).unwrap());
}

/// Adding a token and then removing it again restores the whitelist.
pub proof fn law_add_then_remove_restores_the_whitelist(s: EscrowView, admin: Address, token: Address)
    requires
        add_token_error(s, admin, token) is None,
    ensures
        ({
            let added = EscrowView { whitelist: Some(s.whitelist.unwrap().push(token)), ..s };
            &&& remove_token_error(added, admin, token) is None
            &&& (EscrowView {
                whitelist: Some(added.whitelist.unwrap().remove_value(token)),
                ..added
            }) == s
        }),
{
    let w = s.whitelist.unwrap();
    let p = w.push(token);
    assert(p[w.len() as int] == token);
    p.index_of_first_ensures(token);
    let k = p.index_of_first(token).unwrap();
    if k < w.len() {
        assert(w[k] == token);
        assert(w.contains(token));
    }
    assert(p.remove(k) =~= w);
}

/// After the admin role is handed over, the former admin is refused and
/// the new admin is accepted.
pub proof fn law_admin_handover(s: EscrowView, current: Address, next: Address, token: Address)
    requires
        transfer_admin_error(s, current) is None,
        current != next,
    ensures
        ({
            let post = EscrowView { admin: Some(next), ..s };
            &&& transfer_admin_error(post, current) == Some(Error::Unauthorized)
            &&& add_token_error(post, current, token) == Some(Error::Unauthorized)
            &&& remove_token_error(post, current, token) == Some(Error::Unauthorized)
            &&& transfer_admin_error(post, next) is None
        }),
{
}

/// With positive amounts whose sum fits, the running total of the first
/// `n` milestones is their plain sum.
proof fn lemma_running_total_is_sum(ms: Map<u32, Milestone>, n: nat, count: nat)
    requires
        n <= count <= u32::MAX + 1,
        forall|i: u32| i < count ==> #[trigger] ms.contains_key(i) && ms[i].amount > 0,
        amounts_upto(ms, count) <= i128::MAX,
    ensures
        running_total(ms, n) == Ok::<int, Error>(amounts_upto(ms, n)),
    decreases n,
{
    if n > 0 {
        lemma_amounts_monotone(ms, n, count);
        lemma_running_total_is_sum(ms, (n - 1) as nat, count);
        assert(ms.contains_key((n - 1) as u32));
    }
}

/// With positive amounts, a longer prefix has a larger sum.
proof fn lemma_amounts_monotone(ms: Map<u32, Milestone>, n: nat, count: nat)
    requires
        n <= count <= u32::MAX + 1,
        forall|i: u32| i < count ==> #[trigger] ms.contains_key(i) && ms[i].amount > 0,
    ensures
        amounts_upto(ms, n) <= amounts_upto(ms, count),
    decreases count - n,
{
    if n < count {
        lemma_amounts_monotone(ms, n + 1, count);
        assert(ms.contains_key(n as u32));
    }
}

/// In a well-formed contract the recorded total is the sum of the
/// milestone amounts, so `checked_job_total` succeeds with it.
pub proof fn law_recorded_total_checks_out(s: EscrowView)
    requires
        wf(s),
        s.job is Some,
    ensures
        running_total(s.milestones, s.job.unwrap().milestone_count as nat) == Ok::<int, Error>(
            s.job.unwrap().total_amount as int,
        ),
{
    let meta = s.job.unwrap();
    assert(crate::invariants::milestones_wf(s, meta));
    assert forall|i: u32| i < meta.milestone_count implies #[trigger] s.milestones.contains_key(i)
        && s.milestones[i].amount > 0 by {
        assert(s.milestones.contains_key(i));
        assert(crate::invariants::milestone_wf(s.milestones[i]));
    }
    lemma_running_total_is_sum(
        s.milestones,
        meta.milestone_count as nat,
        meta.milestone_count as nat,
    );
}

/// Progress composes over a sequence of calls: if each of two steps only
/// moves the job and its milestones forward, so does the two together, so
/// no run of successful calls ever sends a milestone back in its life cycle
/// or changes one that is settled.
pub proof fn law_progress_composes(a: EscrowView, b: EscrowView, c: EscrowView)
    requires
        evolves(a, b),
        evolves(b, c),
    ensures
        evolves(a, c),
{
    assert forall|i: u32| #[trigger] a.milestones.contains_key(i) implies c.milestones.contains_key(i)
        && milestone_progress(a.milestones[i], c.milestones[i]) by {
        assert(b.milestones.contains_key(i));
    }
}

} // verus!
