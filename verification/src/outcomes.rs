//! What each call of the contract is for, stated from its inputs alone:
//! on which states and arguments it succeeds, who is paid and how much,
//! and how the milestone it names changes.  Each law is phrased over the
//! plain fields of the storage, so that it pins down the spec functions
//! the calls' contracts are written with.
use vstd::prelude::*;
use crate::admin::{
    add_token_error, initialize_error, initialized, remove_token_error, sum_amounts,
    token_whitelisted, transfer_admin_error,
};
use crate::approval::{
    approve_milestone_error, approve_partial_error, approved_event, approved_state,
    partial_state, partially_released,
};
use crate::dispute::{
    disputed_state, raise_dispute_error, resolution_payout, resolve_dispute_error,
    resolved_state,
};
use crate::escrow::EscrowView;
use crate::lifecycle::{
    claim_error, delivered_event, delivered_state, fund_error, fund_transfer, funded_event,
    funded_state, mark_delivered_error, payout, release_deadline, release_state,
};
use crate::invariants::{amounts_upto, evolves, wf};
use crate::report::{all_milestones_stored, job_milestones, job_reports, running_total};
use crate::types::{
    Address, AddressKind, Error, Job, JobMeta, Milestone, MilestoneStatus, Transfer,
    MAX_WHITELIST_SIZE,
};

verus! {

// ---------------------------------------------------------------------------
// Disputes
// ---------------------------------------------------------------------------

/// Only the job's arbiter settles a dispute, and only over a stored
/// milestone that is in dispute: every other caller or status is refused.
pub proof fn law_only_the_arbiter_settles_a_disputed_milestone(
    s: EscrowView,
    arbiter: Address,
    index: u32,
)
    ensures
        resolve_dispute_error(s, arbiter, index) is None <==> (s.job is Some && arbiter
            == s.job.unwrap().arbiter && s.milestones.contains_key(index)
            && s.milestones[index].status == MilestoneStatus::Disputed),
{
}

/// The arbiter's decision decides who is paid: what remains unpaid of the
/// milestone goes, in full, to the freelancer when the arbiter releases it
/// and back to the client when the arbiter refunds it, whatever part was
/// released before.  Nothing is paid when nothing remains.  The milestone
/// ends `Released` (fully paid) or `Refunded` (its paid part unchanged);
/// nothing else in storage changes.  (`resolve_dispute` itself requires
/// that what remains fits in an `i128`.)
pub proof fn law_dispute_pays_the_party_the_arbiter_chooses(
    s: EscrowView,
    arbiter: Address,
    index: u32,
    release_to_freelancer: bool,
)
    requires
        resolve_dispute_error(s, arbiter, index) is None,
        s.milestones[index].amount - s.milestones[index].released_amount <= i128::MAX,
    ensures
        ({
            let m = s.milestones[index];
            let meta = s.job.unwrap();
            let left = m.amount - m.released_amount;
            let paid = resolution_payout(s, index, release_to_freelancer);
            let after = resolved_state(s, index, release_to_freelancer).milestones[index];
            &&& left > 0 ==> paid is Some && paid.unwrap().token == meta.token
                && paid.unwrap().from == s.contract && paid.unwrap().amount == left
            &&& left > 0 && release_to_freelancer ==> paid is Some && paid.unwrap().to
                == meta.freelancer
            &&& left > 0 && !release_to_freelancer ==> paid is Some && paid.unwrap().to
                == meta.client
            &&& left <= 0 ==> paid is None
            &&& after.amount == m.amount && after.delivered_at == m.delivered_at
            &&& release_to_freelancer ==> after.status == MilestoneStatus::Released
            &&& release_to_freelancer && left > 0 ==> after.released_amount == m.amount
            &&& release_to_freelancer && left <= 0 ==> after.released_amount == m.released_amount
            &&& !release_to_freelancer ==> after.status == MilestoneStatus::Refunded
                && after.released_amount == m.released_amount
            &&& resolved_state(s, index, release_to_freelancer) == (EscrowView {
                milestones: s.milestones.insert(index, after),
                ..s
            })
        }),
{
}

/// Either party may dispute: the client and the freelancer alike may freeze
/// a stored milestone that is pending, delivered or partially released, and
/// nobody else may; the caller matters only through being one of the two.
pub proof fn law_either_party_may_dispute(s: EscrowView, caller: Address, index: u32)
    ensures
        raise_dispute_error(s, caller, index) is None <==> (s.job is Some && (caller
            == s.job.unwrap().client || caller == s.job.unwrap().freelancer)
            && s.milestones.contains_key(index) && (s.milestones[index].status
            == MilestoneStatus::Pending || s.milestones[index].status == MilestoneStatus::Delivered
            || s.milestones[index].status == MilestoneStatus::PartiallyReleased)),
        s.job is Some ==> raise_dispute_error(s, s.job.unwrap().client, index)
            == raise_dispute_error(s, s.job.unwrap().freelancer, index),
{
}

/// A dispute freezes the milestone and touches nothing else: its status
/// becomes `Disputed`, its amounts and delivery time stay.
pub proof fn law_dispute_only_freezes(s: EscrowView, caller: Address, index: u32)
    requires
        raise_dispute_error(s, caller, index) is None,
    ensures
        ({
            let m = s.milestones[index];
            disputed_state(s, index) == (EscrowView {
                milestones: s.milestones.insert(
                    index,
                    Milestone {
                        amount: m.amount,
                        released_amount: m.released_amount,
                        status: MilestoneStatus::Disputed,
                        delivered_at: m.delivered_at,
                    },
                ),
                ..s
            })
        }),
{
}

// ---------------------------------------------------------------------------
// Releases by the client
// ---------------------------------------------------------------------------

/// The client may release any positive amount up to what remains unpaid of
/// a delivered or partially released milestone, the whole milestone
/// included; anything else is refused.  (An address with an all-zero key is
/// one of the two zero addresses, which are refused.)
pub proof fn law_partial_release_accepts_every_amount_up_to_what_remains(
    s: EscrowView,
    client: Address,
    index: u32,
    amount: i128,
)
    ensures
        approve_partial_error(s, client, index, amount) is None <==> ({
            &&& !(client.key_hi == 0 && client.key_lo == 0)
            &&& client != s.contract
            &&& s.job is Some
            &&& client == s.job.unwrap().client
            &&& index < s.job.unwrap().milestone_count
            &&& s.milestones.contains_key(index)
            &&& (s.milestones[index].status == MilestoneStatus::Delivered
                || s.milestones[index].status == MilestoneStatus::PartiallyReleased)
            &&& s.milestones[index].amount - s.milestones[index].released_amount <= i128::MAX
            &&& 0 < amount <= s.milestones[index].amount - s.milestones[index].released_amount
        }),
{
    assert(client.kind == AddressKind::Account || client.kind == AddressKind::Contract);
}

/// A partial release adds the amount to the paid part; the milestone is
/// `Released`, with its completion flag set, exactly when that pays it in
/// full, and `PartiallyReleased` otherwise.  The event reports the amount,
/// the new paid part and what still remains.
pub proof fn law_partial_release_adds_to_the_paid_part(
    s: EscrowView,
    client: Address,
    index: u32,
    amount: i128,
)
    requires
        approve_partial_error(s, client, index, amount) is None,
    ensures
        ({
            let m = s.milestones[index];
            let post = partial_state(s, index, amount);
            let after = post.milestones[index];
            let ev = approved_event(s, index, amount, partially_released(m, amount));
            &&& after.released_amount == m.released_amount + amount
            &&& after.amount == m.amount && after.delivered_at == m.delivered_at
            &&& (m.released_amount + amount == m.amount ==> after.status
                == MilestoneStatus::Released && post.released_flags == s.released_flags.insert(
                index,
                true,
            ))
            &&& (m.released_amount + amount != m.amount ==> after.status
                == MilestoneStatus::PartiallyReleased && post.released_flags == s.released_flags)
            &&& post.milestones == s.milestones.insert(index, after)
            &&& post.job == s.job && post.admin == s.admin && post.whitelist == s.whitelist
                && post.delivered_at == s.delivered_at && post.contract == s.contract
            &&& ev.amount == amount && ev.released_amount == m.released_amount + amount
                && ev.remaining == m.amount - m.released_amount - amount && ev.status
                == after.status && ev.milestone_index == index && ev.contract_id == s.contract
                && ev.client == s.job.unwrap().client && ev.freelancer == s.job.unwrap().freelancer
                && ev.token == s.job.unwrap().token
        }),
{
}

/// The client may approve a stored, positive, delivered or partially
/// released milestone with something left unpaid; anything else is refused.
pub proof fn law_approval_needs_a_delivered_unpaid_milestone(
    s: EscrowView,
    client: Address,
    index: u32,
)
    ensures
        approve_milestone_error(s, client, index) is None <==> ({
            &&& s.job is Some
            &&& client == s.job.unwrap().client
            &&& index < s.job.unwrap().milestone_count
            &&& s.milestones.contains_key(index)
            &&& s.milestones[index].amount > 0
            &&& (s.milestones[index].status == MilestoneStatus::Delivered
                || s.milestones[index].status == MilestoneStatus::PartiallyReleased)
            &&& 0 < s.milestones[index].amount - s.milestones[index].released_amount <= i128::MAX
        }),
{
}

/// Approval pays the freelancer everything that remains, marks the
/// milestone `Released` and fully paid, and sets its completion flag; the
/// event reports the amount paid, the milestone fully paid and nothing
/// remaining.
pub proof fn law_approval_pays_the_freelancer_the_rest(s: EscrowView, client: Address, index: u32)
    requires
        approve_milestone_error(s, client, index) is None,
    ensures
        ({
            let m = s.milestones[index];
            let meta = s.job.unwrap();
            let t = payout(s, index, meta.freelancer);
            let post = approved_state(s, index);
            let ev = approved_event(
                s,
                index,
                (m.amount - m.released_amount) as i128,
                crate::rules::released_milestone(m),
            );
            &&& ev.amount == m.amount - m.released_amount && ev.released_amount == m.amount
                && ev.remaining == 0 && ev.status == MilestoneStatus::Released
                && ev.milestone_index == index && ev.contract_id == s.contract && ev.client
                == meta.client && ev.freelancer == meta.freelancer && ev.token == meta.token
            &&& t == Transfer {
                token: meta.token,
                from: s.contract,
                to: meta.freelancer,
                amount: (m.amount - m.released_amount) as i128,
            }
            &&& post == (EscrowView {
                milestones: s.milestones.insert(
                    index,
                    Milestone {
                        amount: m.amount,
                        released_amount: m.amount,
                        status: MilestoneStatus::Released,
                        delivered_at: m.delivered_at,
                    },
                ),
                released_flags: s.released_flags.insert(index, true),
                ..s
            })
        }),
{
}

// ---------------------------------------------------------------------------
// Funding, delivery and the auto-release
// ---------------------------------------------------------------------------

/// Only the job's client funds it, once, and never as the contract itself;
/// the deposit is the job's total, from the client to the contract, and
/// funding changes nothing but the funded flag.
pub proof fn law_funding_is_the_clients_deposit_of_the_total(s: EscrowView, client: Address)
    ensures
        fund_error(s, client) is None <==> (client != s.contract && s.job is Some
            && !s.job.unwrap().funded && client == s.job.unwrap().client),
        fund_error(s, client) is None ==> ({
            let meta = s.job.unwrap();
            &&& fund_transfer(s, client) == Transfer {
                token: meta.token,
                from: client,
                to: s.contract,
                amount: meta.total_amount,
            }
            &&& funded_state(s) == (EscrowView {
                job: Some(JobMeta { funded: true, ..meta }),
                ..s
            })
            &&& funded_event(s, client).total_amount == meta.total_amount
            &&& funded_event(s, client).client == client
            &&& funded_event(s, client).token == meta.token
            &&& funded_event(s, client).contract_id == s.contract
            &&& funded_event(s, client).funded
            &&& funded_event(s, client).freelancer == meta.freelancer
            &&& funded_event(s, client).arbiter == meta.arbiter
            &&& funded_event(s, client).milestone_count == meta.milestone_count
            &&& funded_event(s, client).auto_release_seconds == meta.auto_release_seconds
        }),
{
}

/// Only the job's freelancer (never a zero address) delivers, only once
/// the job is funded, and only a stored, pending, positive milestone of the
/// job.
pub proof fn law_delivery_needs_a_funded_pending_milestone(
    s: EscrowView,
    freelancer: Address,
    index: u32,
)
    ensures
        mark_delivered_error(s, freelancer, index) is None <==> ({
            &&& !(freelancer.key_hi == 0 && freelancer.key_lo == 0)
            &&& s.job is Some
            &&& freelancer == s.job.unwrap().freelancer
            &&& s.job.unwrap().funded
            &&& index < s.job.unwrap().milestone_count
            &&& s.milestones.contains_key(index)
            &&& s.milestones[index].status == MilestoneStatus::Pending
            &&& s.milestones[index].amount > 0
        }),
        s.job is Some && !(freelancer.key_hi == 0 && freelancer.key_lo == 0) && freelancer
            == s.job.unwrap().freelancer && s.job.unwrap().funded && index
            < s.job.unwrap().milestone_count && s.milestones.contains_key(index)
            && s.milestones[index].status != MilestoneStatus::Pending ==> mark_delivered_error(
            s,
            freelancer,
            index,
        ) == Some(Error::InvalidStatus),
{
    assert(freelancer.kind == AddressKind::Account || freelancer.kind == AddressKind::Contract);
}

/// Delivery records the ledger time on the milestone and in temporary
/// storage, makes it `Delivered`, and changes nothing else.
pub proof fn law_delivery_records_the_time(s: EscrowView, freelancer: Address, index: u32, now: u64)
    requires
        mark_delivered_error(s, freelancer, index) is None,
    ensures
        ({
            let m = s.milestones[index];
            let meta = s.job.unwrap();
            &&& delivered_state(s, index, now) == (EscrowView {
                milestones: s.milestones.insert(
                    index,
                    Milestone {
                        amount: m.amount,
                        released_amount: m.released_amount,
                        status: MilestoneStatus::Delivered,
                        delivered_at: now,
                    },
                ),
                delivered_at: s.delivered_at.insert(index, now),
                ..s
            })
            &&& delivered_event(s, index, now).delivered_at == now
            &&& delivered_event(s, index, now).amount == m.amount
            &&& delivered_event(s, index, now).milestone_index == index
            &&& delivered_event(s, index, now).freelancer == meta.freelancer
            &&& delivered_event(s, index, now).client == meta.client
            &&& delivered_event(s, index, now).contract_id == s.contract
            &&& delivered_event(s, index, now).status == MilestoneStatus::Delivered
        }),
{
}

/// The auto-release deadline is the delivery time (the temporary entry
/// while the ledger keeps it, else the time on the milestone) plus the
/// job's window.
pub proof fn law_deadline_is_delivery_plus_window(s: EscrowView, index: u32)
    ensures
        release_deadline(s, index) == (if s.delivered_at.contains_key(index) {
            s.delivered_at[index]
        } else {
            s.milestones[index].delivered_at
        }) + s.job.unwrap().auto_release_seconds,
{
}

/// The freelancer may claim a delivered milestone of the job exactly when
/// the window is set, the deadline fits and has been reached, and something
/// remains unpaid.
pub proof fn law_claim_needs_a_passed_deadline(
    s: EscrowView,
    freelancer: Address,
    index: u32,
    now: u64,
)
    ensures
        claim_error(s, freelancer, index, now) is None <==> ({
            &&& s.job is Some
            &&& freelancer == s.job.unwrap().freelancer
            &&& index < s.job.unwrap().milestone_count
            &&& s.milestones.contains_key(index)
            &&& s.milestones[index].status == MilestoneStatus::Delivered
            &&& s.job.unwrap().auto_release_seconds > 0
            &&& release_deadline(s, index) <= u64::MAX
            &&& now >= release_deadline(s, index)
            &&& 0 < s.milestones[index].amount - s.milestones[index].released_amount <= i128::MAX
        }),
{
}

/// A claim pays the freelancer everything that remains and marks the
/// milestone `Released` and fully paid; nothing else changes.
pub proof fn law_claim_pays_the_freelancer_the_rest(
    s: EscrowView,
    freelancer: Address,
    index: u32,
    now: u64,
)
    requires
        claim_error(s, freelancer, index, now) is None,
    ensures
        ({
            let m = s.milestones[index];
            let meta = s.job.unwrap();
            &&& payout(s, index, freelancer) == Transfer {
                token: meta.token,
                from: s.contract,
                to: meta.freelancer,
                amount: (m.amount - m.released_amount) as i128,
            }
            &&& release_state(s, index) == (EscrowView {
                milestones: s.milestones.insert(
                    index,
                    Milestone {
                        amount: m.amount,
                        released_amount: m.amount,
                        status: MilestoneStatus::Released,
                        delivered_at: m.delivered_at,
                    },
                ),
                ..s
            })
        }),
{
}

// ---------------------------------------------------------------------------
// Reading the job back
// ---------------------------------------------------------------------------

/// `get_job` reports every milestone exactly as stored, in index order, and
/// the job record's parties, token, funded flag and window as stored.
pub proof fn law_job_is_reported_as_stored(s: EscrowView, meta: JobMeta, job: Job)
    requires
        all_milestones_stored(s, meta),
        job_reports(job, meta, job_milestones(s, meta)),
    ensures
        job.milestones@.len() == meta.milestone_count,
        forall|i: int|
            0 <= i < meta.milestone_count ==> #[trigger] job.milestones@[i] == s.milestones[i as u32],
        job.client == meta.client,
        job.freelancer == meta.freelancer,
        job.arbiter == meta.arbiter,
        job.token == meta.token,
        job.funded == meta.funded,
        job.auto_release_seconds == meta.auto_release_seconds,
{
}

/// The job can be read back exactly when each of its milestones is stored.
pub proof fn law_job_readable_when_all_milestones_stored(s: EscrowView, meta: JobMeta)
    ensures
        all_milestones_stored(s, meta) <==> forall|i: u32|
            i < meta.milestone_count ==> #[trigger] s.milestones.contains_key(i),
{
}

// ---------------------------------------------------------------------------
// Setup and administration
// ---------------------------------------------------------------------------

/// The sum of the milestone amounts is their plain sum: nothing for no
/// amounts, and each further amount adds to it.
pub proof fn law_sum_of_amounts_adds_up(amounts: Seq<i128>, x: i128)
    ensures
        sum_amounts(Seq::<i128>::empty()) == 0,
        sum_amounts(amounts.push(x)) == sum_amounts(amounts) + x,
{
    assert(amounts.push(x).drop_last() =~= amounts);
}

/// `initialize` succeeds on a contract without a job exactly when every
/// amount is positive and their sum fits; it then stores the admin, a
/// whitelist of just the token, one pending, unpaid milestone per amount
/// in order, and an unfunded job record with the parties, the window, the
/// count and the total.
pub proof fn law_initialize_sets_up_the_job(
    s: EscrowView,
    admin: Address,
    client: Address,
    freelancer: Address,
    arbiter: Address,
    token: Address,
    window: u64,
    amounts: Seq<i128>,
)
    requires
        amounts.len() <= u32::MAX,
    ensures
        initialize_error(s, amounts) is None <==> (s.job is None && (forall|i: int|
            0 <= i < amounts.len() ==> #[trigger] amounts[i] > 0) && sum_amounts(amounts)
            <= i128::MAX),
        ({
            let post = initialized(s, admin, client, freelancer, arbiter, token, window, amounts);
            &&& post.admin == Some(admin)
            &&& post.whitelist == Some(seq![token])
            &&& post.job == Some(
                JobMeta {
                    client,
                    freelancer,
                    arbiter,
                    token,
                    funded: false,
                    auto_release_seconds: window,
                    milestone_count: amounts.len() as u32,
                    total_amount: sum_amounts(amounts) as i128,
                },
            )
            &&& forall|i: u32| #[trigger]
                post.milestones.contains_key(i) <==> (i < amounts.len()
                    || s.milestones.contains_key(i))
            &&& forall|i: u32|
                i < amounts.len() ==> #[trigger] post.milestones[i] == Milestone {
                    amount: amounts[i as int],
                    released_amount: 0,
                    status: MilestoneStatus::Pending,
                    delivered_at: 0,
                }
            &&& post.contract == s.contract && post.delivered_at == s.delivered_at
                && post.released_flags == s.released_flags
        }),
{
}

/// Only the stored admin hands the role over.
pub proof fn law_only_the_admin_hands_over(s: EscrowView, current: Address)
    ensures
        transfer_admin_error(s, current) is None <==> s.admin == Some(current),
{
}

/// A token is whitelisted exactly when it occurs somewhere in the stored
/// whitelist, at any position.
pub proof fn law_whitelisted_means_listed(s: EscrowView, token: Address)
    ensures
        token_whitelisted(s, token) <==> (s.whitelist is Some && exists|k: int|
            0 <= k < s.whitelist.unwrap().len() && #[trigger] s.whitelist.unwrap()[k] == token),
{
    if s.whitelist is Some {
        let w = s.whitelist.unwrap();
        if w.contains(token) {
            let k = choose|k: int| 0 <= k < w.len() && w[k] == token;
            assert(w[k] == token);
        }
    }
}

/// The admin adds a token exactly when it is not listed and the list has
/// room; adding puts it at the end and keeps every token already listed.
pub proof fn law_adding_a_token_keeps_the_others(
    s: EscrowView,
    admin: Address,
    token: Address,
    other: Address,
)
    ensures
        add_token_error(s, admin, token) is None <==> (s.admin == Some(admin) && s.whitelist is Some
            && !s.whitelist.unwrap().contains(token) && s.whitelist.unwrap().len()
            < MAX_WHITELIST_SIZE),
        add_token_error(s, admin, token) is None && token_whitelisted(s, other)
            ==> token_whitelisted(
            EscrowView { whitelist: Some(s.whitelist.unwrap().push(token)), ..s },
            other,
        ),
{
    if add_token_error(s, admin, token) is None && token_whitelisted(s, other) {
        let w = s.whitelist.unwrap();
        let k = choose|k: int| 0 <= k < w.len() && w[k] == other;
        assert(w.push(token)[k] == other);
    }
}

/// The admin removes a listed token; removing it keeps every other token
/// listed.
pub proof fn law_removing_a_token_keeps_the_others(
    s: EscrowView,
    admin: Address,
    token: Address,
    other: Address,
)
    ensures
        remove_token_error(s, admin, token) is None <==> (s.admin == Some(admin)
            && s.whitelist is Some && s.whitelist.unwrap().contains(token)),
        remove_token_error(s, admin, token) is None && other != token && token_whitelisted(
            s,
            other,
        ) ==> token_whitelisted(
            EscrowView { whitelist: Some(s.whitelist.unwrap().remove_value(token)), ..s },
            other,
        ),
{
    if remove_token_error(s, admin, token) is None && other != token && token_whitelisted(
        s,
        other,
    ) {
        let w = s.whitelist.unwrap();
        w.index_of_first_ensures(token);
        let p = w.index_of_first(token).unwrap();
        let k = choose|k: int| 0 <= k < w.len() && w[k] == other;
        let r = w.remove(p);
        if k < p {
            assert(r[k] == other);
        } else {
            assert(k != p);
            assert(r[k - 1] == other);
        }
    }
}

// ---------------------------------------------------------------------------
// Which error a refused call reports
// ---------------------------------------------------------------------------

/// Before `initialize`, every call on the job reports `NotInitialized`
/// (after the address checks that come first).
pub proof fn law_without_a_job_calls_report_not_initialized(
    s: EscrowView,
    who: Address,
    index: u32,
    amount: i128,
    now: u64,
)
    requires
        s.job is None,
    ensures
        who != s.contract ==> fund_error(s, who) == Some(Error::NotInitialized),
        !(who.key_hi == 0 && who.key_lo == 0) ==> mark_delivered_error(s, who, index) == Some(
            Error::NotInitialized,
        ),
        claim_error(s, who, index, now) == Some(Error::NotInitialized),
        !(who.key_hi == 0 && who.key_lo == 0) && who != s.contract ==> approve_partial_error(
            s,
            who,
            index,
            amount,
        ) == Some(Error::NotInitialized),
        approve_milestone_error(s, who, index) == Some(Error::NotInitialized),
        raise_dispute_error(s, who, index) == Some(Error::NotInitialized),
        resolve_dispute_error(s, who, index) == Some(Error::NotInitialized),
{
    assert(who.kind == AddressKind::Account || who.kind == AddressKind::Contract);
}

/// A caller who is not the party a call is for is refused with
/// `Unauthorized`: funding, approving and releasing are the client's,
/// delivering and claiming the freelancer's, disputing either party's,
/// resolving the arbiter's, and the whitelist and the role the admin's.
pub proof fn law_strangers_are_unauthorized(
    s: EscrowView,
    who: Address,
    token: Address,
    index: u32,
    amount: i128,
    now: u64,
)
    requires
        s.job is Some,
    ensures
        ({
            let meta = s.job.unwrap();
            &&& who != s.contract && !meta.funded && who != meta.client ==> fund_error(s, who)
                == Some(Error::Unauthorized)
            &&& !(who.key_hi == 0 && who.key_lo == 0) && who != meta.freelancer
                ==> mark_delivered_error(s, who, index) == Some(Error::Unauthorized)
            &&& who != meta.freelancer ==> claim_error(s, who, index, now) == Some(
                Error::Unauthorized,
            )
            &&& !(who.key_hi == 0 && who.key_lo == 0) && who != s.contract && who != meta.client
                ==> approve_partial_error(s, who, index, amount) == Some(Error::Unauthorized)
            &&& who != meta.client ==> approve_milestone_error(s, who, index) == Some(
                Error::Unauthorized,
            )
            &&& who != meta.client && who != meta.freelancer ==> raise_dispute_error(s, who, index)
                == Some(Error::Unauthorized)
            &&& who != meta.arbiter ==> resolve_dispute_error(s, who, index) == Some(
                Error::Unauthorized,
            )
        }),
        s.admin is Some && s.admin != Some(who) ==> transfer_admin_error(s, who) == Some(
            Error::Unauthorized,
        ) && add_token_error(s, who, token) == Some(Error::Unauthorized) && remove_token_error(
            s,
            who,
            token,
        ) == Some(Error::Unauthorized),
        s.admin is None ==> transfer_admin_error(s, who) == Some(Error::NotInitialized)
            && add_token_error(s, who, token) == Some(Error::NotInitialized) && remove_token_error(
            s,
            who,
            token,
        ) == Some(Error::NotInitialized),
{
    assert(who.kind == AddressKind::Account || who.kind == AddressKind::Contract);
}

/// For the right party, an index past the job's milestones is refused
/// with `InvalidMilestone`.
pub proof fn law_out_of_range_index_is_invalid_milestone(
    s: EscrowView,
    index: u32,
    amount: i128,
    now: u64,
)
    requires
        s.job is Some,
        index >= s.job.unwrap().milestone_count,
    ensures
        ({
            let meta = s.job.unwrap();
            &&& !(meta.freelancer.key_hi == 0 && meta.freelancer.key_lo == 0) && meta.funded
                ==> mark_delivered_error(s, meta.freelancer, index) == Some(
                Error::InvalidMilestone,
            )
            &&& claim_error(s, meta.freelancer, index, now) == Some(Error::InvalidMilestone)
            &&& !(meta.client.key_hi == 0 && meta.client.key_lo == 0) && meta.client != s.contract
                ==> approve_partial_error(s, meta.client, index, amount) == Some(
                Error::InvalidMilestone,
            )
            &&& approve_milestone_error(s, meta.client, index) == Some(Error::InvalidMilestone)
        }),
{
    let meta = s.job.unwrap();
    assert(meta.freelancer.kind == AddressKind::Account || meta.freelancer.kind
        == AddressKind::Contract);
    assert(meta.client.kind == AddressKind::Account || meta.client.kind == AddressKind::Contract);
}

/// A delivered milestone claimed by its freelancer before the deadline is
/// refused with `DeadlineNotPassed`, provided the window is set and the
/// deadline fits.
pub proof fn law_early_claim_reports_deadline_not_passed(s: EscrowView, index: u32, now: u64)
    requires
        s.job is Some,
        index < s.job.unwrap().milestone_count,
        s.milestones.contains_key(index),
        s.milestones[index].status == MilestoneStatus::Delivered,
        s.job.unwrap().auto_release_seconds > 0,
        release_deadline(s, index) <= u64::MAX,
        now < release_deadline(s, index),
    ensures
        claim_error(s, s.job.unwrap().freelancer, index, now) == Some(Error::DeadlineNotPassed),
{
}

/// Whitelist refusals: a listed token cannot be added again
/// (`TokenAlreadyWhitelisted`), a full list takes no new token
/// (`InvalidAmount`), and an unlisted token cannot be removed
/// (`TokenNotWhitelisted`).
pub proof fn law_whitelist_refusals(s: EscrowView, admin: Address, token: Address)
    requires
        s.admin == Some(admin),
        s.whitelist is Some,
    ensures
        s.whitelist.unwrap().contains(token) ==> add_token_error(s, admin, token) == Some(
            Error::TokenAlreadyWhitelisted,
        ),
        !s.whitelist.unwrap().contains(token) && s.whitelist.unwrap().len() >= MAX_WHITELIST_SIZE
            ==> add_token_error(s, admin, token) == Some(Error::InvalidAmount),
        !s.whitelist.unwrap().contains(token) ==> remove_token_error(s, admin, token) == Some(
            Error::TokenNotWhitelisted,
        ),
{
}

/// A second `initialize` reports `AlreadyInitialized`; a non-positive
/// amount, or amounts whose sum does not fit, report `InvalidAmount`.
pub proof fn law_initialize_refusals(s: EscrowView, amounts: Seq<i128>, k: int)
    ensures
        s.job is Some ==> initialize_error(s, amounts) == Some(Error::AlreadyInitialized),
        s.job is None && 0 <= k < amounts.len() && amounts[k] <= 0 ==> initialize_error(
            s,
            amounts,
        ) == Some(Error::InvalidAmount),
        s.job is None && sum_amounts(amounts) > i128::MAX ==> initialize_error(s, amounts) == Some(
            Error::InvalidAmount,
        ),
{
}

// ---------------------------------------------------------------------------
// The recomputed total
// ---------------------------------------------------------------------------

/// The sum of the amounts of milestones `0..n` is their plain sum: nothing
/// for no milestones, and milestone `n` adds its amount.
pub proof fn law_milestone_sums_add_up(ms: Map<u32, Milestone>, n: nat)
    requires
        n <= u32::MAX,
    ensures
        amounts_upto(ms, 0) == 0,
        amounts_upto(ms, n + 1) == amounts_upto(ms, n) + ms[n as u32].amount,
{
}

/// Re-adding the job's amounts succeeds only when every milestone of the
/// range is stored with a positive amount; with positive amounts whose sum
/// fits, it gives exactly that sum; a missing milestone, all before it
/// fine, reports `InvalidMilestone`.
pub proof fn law_running_total_is_the_sum(ms: Map<u32, Milestone>, n: nat)
    requires
        n <= u32::MAX + 1,
    ensures
        running_total(ms, n) is Ok ==> forall|i: u32|
            i < n ==> #[trigger] ms.contains_key(i) && ms[i].amount > 0,
        (forall|i: u32| i < n ==> #[trigger] ms.contains_key(i) && ms[i].amount > 0)
            && amounts_upto(ms, n) <= i128::MAX ==> running_total(ms, n) == Ok::<int, Error>(
            amounts_upto(ms, n),
        ),
    decreases n,
{
    if n > 0 {
        law_running_total_is_the_sum(ms, (n - 1) as nat);
        let last = (n - 1) as u32;
        if (forall|i: u32| i < n ==> #[trigger] ms.contains_key(i) && ms[i].amount > 0) {
            assert(ms.contains_key(last));
            assert(amounts_upto(ms, (n - 1) as nat) <= amounts_upto(ms, n));
        }
        if running_total(ms, n) is Ok {
            assert forall|i: u32| i < n implies #[trigger] ms.contains_key(i) && ms[i].amount > 0 by {
                if i < last {
                }
            }
        }
    }
}

/// A missing milestone stops the total with `InvalidMilestone` when every
/// milestone before it is stored with a positive amount and their sum fits.
pub proof fn law_missing_milestone_stops_the_total(ms: Map<u32, Milestone>, k: u32, n: nat)
    requires
        k < n <= u32::MAX + 1,
        !ms.contains_key(k),
        forall|i: u32| i < k ==> #[trigger] ms.contains_key(i) && ms[i].amount > 0,
        amounts_upto(ms, k as nat) <= i128::MAX,
    ensures
        running_total(ms, n) == Err::<int, Error>(Error::InvalidMilestone),
    decreases n,
{
    if n == k + 1 {
        law_running_total_is_the_sum(ms, k as nat);
    } else {
        law_missing_milestone_stops_the_total(ms, k, (n - 1) as nat);
    }
}

// ---------------------------------------------------------------------------
// What the invariants mean
// ---------------------------------------------------------------------------

/// Progress never goes back: a settled milestone never changes again, a
/// delivered one never becomes pending, a dispute is never lifted but by a
/// settlement, the paid part never shrinks, the amount never changes, and a
/// funded job stays funded with the same parties and total.
pub proof fn law_progress_never_goes_back(a: EscrowView, b: EscrowView, index: u32)
    requires
        evolves(a, b),
        a.milestones.contains_key(index),
    ensures
        ({
            let before = a.milestones[index];
            let after = b.milestones[index];
            &&& b.milestones.contains_key(index)
            &&& after.amount == before.amount
            &&& after.released_amount >= before.released_amount
            &&& (before.status == MilestoneStatus::Released || before.status
                == MilestoneStatus::Refunded) ==> after == before
            &&& before.status != MilestoneStatus::Pending ==> after.status
                != MilestoneStatus::Pending
            &&& before.status == MilestoneStatus::Disputed ==> (after.status
                == MilestoneStatus::Disputed || after.status == MilestoneStatus::Released
                || after.status == MilestoneStatus::Refunded)
        }),
        a.job is Some ==> b.job is Some && (a.job.unwrap().funded ==> b.job.unwrap().funded)
            && b.job.unwrap().client == a.job.unwrap().client && b.job.unwrap().freelancer
            == a.job.unwrap().freelancer && b.job.unwrap().arbiter == a.job.unwrap().arbiter
            && b.job.unwrap().token == a.job.unwrap().token && b.job.unwrap().total_amount
            == a.job.unwrap().total_amount && b.job.unwrap().milestone_count
            == a.job.unwrap().milestone_count,
{
}

/// In well-formed storage every milestone of the job is stored with a
/// positive amount and a paid part between nothing and the amount: nothing
/// paid while pending or delivered, part of it while partially released,
/// all of it once released, and the milestones' amounts add up to the
/// job's total.
pub proof fn law_well_formed_milestones(s: EscrowView, index: u32)
    requires
        wf(s),
        s.job is Some,
        index < s.job.unwrap().milestone_count,
    ensures
        ({
            let m = s.milestones[index];
            &&& s.milestones.contains_key(index)
            &&& 0 < m.amount
            &&& 0 <= m.released_amount <= m.amount
            &&& (m.status == MilestoneStatus::Pending || m.status == MilestoneStatus::Delivered)
                ==> m.released_amount == 0
            &&& m.status == MilestoneStatus::PartiallyReleased ==> 0 < m.released_amount
                < m.amount
            &&& m.status == MilestoneStatus::Released ==> m.released_amount == m.amount
        }),
        s.job.unwrap().total_amount == amounts_upto(s.milestones, s.job.unwrap().milestone_count as nat),
        s.admin is Some && s.whitelist is Some,
{
    assert(s.milestones.contains_key(index));
}

} // verus!
