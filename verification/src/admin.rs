//! Setting up the job, and the administration of the token whitelist.
use vstd::prelude::*;
use crate::escrow::{EscrowView, MilestoneEscrow};
use crate::invariants::{evolves, lemma_admin_calls_keep, lemma_initialize_keeps, owed_total, wf};
use crate::types::{Address, Error, JobMeta, Milestone, MilestoneStatus, MAX_WHITELIST_SIZE};

verus! {

/// Every amount is positive.
pub open spec fn all_positive(amounts: Seq<i128>) -> bool {
    forall|i: int| 0 <= i < amounts.len() ==> amounts[i] > 0
}

/// The sum of the amounts.
pub open spec fn sum_amounts(amounts: Seq<i128>) -> int
    decreases amounts.len(),
{
    if amounts.len() == 0 {
        0
    } else {
        sum_amounts(amounts.drop_last()) + amounts.last()
    }
}

/// A list of milestone amounts that `initialize` accepts: every amount is
/// positive and their total fits in an `i128`.
pub open spec fn amounts_valid(amounts: Seq<i128>) -> bool {
    all_positive(amounts) && sum_amounts(amounts) <= i128::MAX
}

/// A new milestone of the given amount.
pub open spec fn initial_milestone(amount: i128) -> Milestone {
    Milestone { amount, released_amount: 0, status: MilestoneStatus::Pending, delivered_at: 0 }
}

/// The milestone entries after `initialize` has written one new milestone
/// per amount at indices `0..amounts.len()`; other entries stay.
pub open spec fn initial_milestones(old: Map<u32, Milestone>, amounts: Seq<i128>) -> Map<
    u32,
    Milestone,
> {
    Map::new(
        |i: u32| old.contains_key(i) || i < amounts.len(),
        |i: u32|
            if i < amounts.len() {
                initial_milestone(amounts[i as int])
            } else {
                old[i]
            },
    )
}

/// The error `initialize` ends with, if any.
pub open spec fn initialize_error(s: EscrowView, amounts: Seq<i128>) -> Option<Error> {
    if s.job is Some {
        Some(Error::AlreadyInitialized)
    } else if !amounts_valid(amounts) {
        Some(Error::InvalidAmount)
    } else {
        None
    }
}

/// The storage after a successful `initialize`.
pub open spec fn initialized(
    s: EscrowView,
    admin: Address,
    client: Address,
    freelancer: Address,
    arbiter: Address,
    token: Address,
    auto_release_seconds: u64,
    amounts: Seq<i128>,
) -> EscrowView {
    EscrowView {
        admin: Some(admin),
        whitelist: Some(seq![token]),
        job: Some(
            JobMeta {
                client,
                freelancer,
                arbiter,
                token,
                funded: false,
                auto_release_seconds,
                milestone_count: amounts.len() as u32,
                total_amount: sum_amounts(amounts) as i128,
            },
        ),
        milestones: initial_milestones(s.milestones, amounts),
        ..s
    }
}

/// The error `transfer_admin` ends with, if any.
pub open spec fn transfer_admin_error(s: EscrowView, current_admin: Address) -> Option<Error> {
    match s.admin {
        None => Some(Error::NotInitialized),
        Some(a) => if a != current_admin {
            Some(Error::Unauthorized)
        } else {
            None
        },
    }
}

/// The error `add_whitelisted_token` ends with, if any.
pub open spec fn add_token_error(s: EscrowView, admin: Address, token: Address) -> Option<Error> {
    match s.admin {
        None => Some(Error::NotInitialized),
        Some(a) => if a != admin {
            Some(Error::Unauthorized)
        } else {
            match s.whitelist {
                None => Some(Error::NotInitialized),
                Some(w) => if w.contains(token) {
                    Some(Error::TokenAlreadyWhitelisted)
                } else if w.len() >= MAX_WHITELIST_SIZE {
                    Some(Error::InvalidAmount)
                } else {
                    None
                },
            }
        },
    }
}

/// The error `remove_whitelisted_token` ends with, if any.
pub open spec fn remove_token_error(s: EscrowView, admin: Address, token: Address) -> Option<
    Error,
> {
    match s.admin {
        None => Some(Error::NotInitialized),
        Some(a) => if a != admin {
            Some(Error::Unauthorized)
        } else {
            match s.whitelist {
                None => Some(Error::NotInitialized),
                Some(w) => if !w.contains(token) {
                    Some(Error::TokenNotWhitelisted)
                } else {
                    None
                },
            }
        },
    }
}

/// `k` is the first position of `token` in `w`.
pub open spec fn first_occurrence(w: Seq<Address>, token: Address, k: int) -> bool {
    &&& 0 <= k < w.len()
    &&& w[k] == token
    &&& forall|j: int| 0 <= j < k ==> w[j] != token
}

/// The answer of `is_token_whitelisted`.
pub open spec fn token_whitelisted(s: EscrowView, token: Address) -> bool {
    match s.whitelist {
        Some(w) => w.contains(token),
        None => false,
    }
}

/// The position of the first occurrence of `token` in `w`, if any.
fn position_of(w: &Vec<Address>, token: Address) -> (r: Option<usize>)
    ensures
        match r {
            Some(k) => first_occurrence(w@, token, k as int),
            None => !w@.contains(token),
        },
{
    let mut i: usize = 0;
    while i < w.len()
        invariant
            i <= w.len(),
            forall|j: int| 0 <= j < i ==> w@[j] != token,
        decreases w.len() - i,
    {
        if w[i] == token {
            return Some(i);
        }
        i = i + 1;
    }
    None
}

impl MilestoneEscrow {
    /// Sets up the job: stores the admin, a whitelist holding `token`, one
    /// pending milestone per amount and the job record.  Fails with
    /// `AlreadyInitialized` once a job is stored, and with `InvalidAmount`
    /// unless every amount is positive and their total fits in an `i128`.
    pub fn initialize(
        &mut self,
        admin: Address,
        client: Address,
        freelancer: Address,
        arbiter: Address,
        token: Address,
        auto_release_seconds: u64,
        milestone_amounts: &Vec<i128>,
    ) -> (r: Result<(), Error>)
        requires
            milestone_amounts.len() <= u32::MAX,
        ensures
            r == match initialize_error(old(self)@, milestone_amounts@) {
                Some(e) => Err(e),
                None => Ok(()),
            },
            r is Err ==> final(self)@ == old(self)@,
            r is Ok ==> final(self)@ == initialized(
                old(self)@,
                admin,
                client,
                freelancer,
                arbiter,
                token,
                auto_release_seconds,
                milestone_amounts@,
            ),
            r is Ok && wf(old(self)@) ==> wf(final(self)@) && evolves(old(self)@, final(self)@)
                && owed_total(final(self)@) == sum_amounts(milestone_amounts@),
    {
        if self.has_job() {
            return Err(Error::AlreadyInitialized);
        }
        let milestone_count = milestone_amounts.len() as u32;
        let ghost amounts = milestone_amounts@;
        let mut total_amount: i128 = 0;
        let mut i: usize = 0;
        while i < milestone_amounts.len()
            invariant
                i <= amounts.len(),
                amounts == milestone_amounts@,
                self@ == old(self)@,
                old(self)@.job is None,
                all_positive(amounts.subrange(0, i as int)),
                total_amount == sum_amounts(amounts.subrange(0, i as int)),
            decreases amounts.len() - i,
        {
            let amount = milestone_amounts[i];
            let ghost prefix = amounts.subrange(0, i as int);
            let ghost next = amounts.subrange(0, i + 1);
            assert(next.drop_last() =~= prefix);
            match Self::checked_add_amount(total_amount, amount) {
                Ok(t) => {
                    total_amount = t;
                },
                Err(e) => {
                    proof {
                        assert(amounts[i as int] == amount);
                        if amount > 0 {
                            assert(sum_amounts(next) == total_amount + amount);
                            lemma_prefix_sum_bound(amounts, i as int + 1);
                        }
                    }
                    return Err(e);
                },
            }
            i = i + 1;
        }
        assert(amounts.subrange(0, amounts.len() as int) =~= amounts);
        self.store_admin(admin);
        let mut whitelist: Vec<Address> = Vec::new();
        whitelist.push(token);
        self.store_whitelist(whitelist);
        let ghost before = self@;
        assert(initial_milestones(before.milestones, amounts.subrange(0, 0)) =~= before.milestones);
        let mut j: usize = 0;
        while j < milestone_amounts.len()
            invariant
                j <= amounts.len(),
                amounts == milestone_amounts@,
                amounts.len() <= u32::MAX,
                self@ == (EscrowView {
                    milestones: initial_milestones(before.milestones, amounts.subrange(0, j as int)),
                    ..before
                }),
            decreases amounts.len() - j,
        {
            let amount = milestone_amounts[j];
            self.store_milestone(
                j as u32,
                Milestone {
                    amount,
                    released_amount: 0,
                    status: MilestoneStatus::Pending,
                    delivered_at: 0,
                },
            );
            j = j + 1;
            assert(self@.milestones =~= initial_milestones(
                before.milestones,
                amounts.subrange(0, j as int),
            ));
        }
        assert(amounts.subrange(0, amounts.len() as int) =~= amounts);
        let meta = JobMeta {
            client,
            freelancer,
            arbiter,
            token,
            funded: false,
            auto_release_seconds,
            milestone_count,
            total_amount,
        };
        self.store_job_meta(meta);
        assert(self@.whitelist == Some(seq![token])) by {
            assert(whitelist@ =~= seq![token]);
        }
        proof {
            if wf(old(self)@) {
                lemma_initialize_keeps(
                    old(self)@,
                    admin,
                    client,
                    freelancer,
                    arbiter,
                    token,
                    auto_release_seconds,
                    amounts,
                );
            }
        }
        Ok(())
    }

    /// Hands the admin role from `current_admin` to `new_admin`.
    pub fn transfer_admin(&mut self, current_admin: Address, new_admin: Address) -> (r: Result<
        (),
        Error,
    >)
        ensures
            r == match transfer_admin_error(old(self)@, current_admin) {
                Some(e) => Err(e),
                None => Ok(()),
            },
            r is Err ==> final(self)@ == old(self)@,
            r is Ok ==> final(self)@ == (EscrowView { admin: Some(new_admin), ..old(self)@ }),
            r is Ok && wf(old(self)@) ==> wf(final(self)@) && evolves(old(self)@, final(self)@)
                && owed_total(final(self)@) == owed_total(old(self)@),
    {
        let stored_admin = self.load_admin()?;
        if current_admin != stored_admin {
            return Err(Error::Unauthorized);
        }
        self.store_admin(new_admin);
        proof {
            if wf(old(self)@) {
                lemma_admin_calls_keep(old(self)@, current_admin, new_admin);
            }
        }
        Ok(())
    }

    /// Appends `token` to the whitelist, for the admin only; refuses a token
    /// already listed and a list already holding `MAX_WHITELIST_SIZE` tokens.
    pub fn add_whitelisted_token(&mut self, admin: Address, token: Address) -> (r: Result<
        (),
        Error,
    >)
        ensures
            r == match add_token_error(old(self)@, admin, token) {
                Some(e) => Err(e),
                None => Ok(()),
            },
            r is Err ==> final(self)@ == old(self)@,
            r is Ok ==> final(self)@ == (EscrowView {
                whitelist: Some(old(self)@.whitelist.unwrap().push(token)),
                ..old(self)@
            }),
            r is Ok && wf(old(self)@) ==> wf(final(self)@) && evolves(old(self)@, final(self)@)
                && owed_total(final(self)@) == owed_total(old(self)@),
    {
        let stored_admin = self.load_admin()?;
        if admin != stored_admin {
            return Err(Error::Unauthorized);
        }
        let mut whitelist = self.load_whitelist()?;
        if position_of(&whitelist, token).is_some() {
            return Err(Error::TokenAlreadyWhitelisted);
        }
        if whitelist.len() >= MAX_WHITELIST_SIZE as usize {
            return Err(Error::InvalidAmount);
        }
        whitelist.push(token);
        self.store_whitelist(whitelist);
        proof {
            if wf(old(self)@) {
                lemma_admin_calls_keep(old(self)@, admin, token);
            }
        }
        Ok(())
    }

    /// Removes the first occurrence of `token` from the whitelist, for the
    /// admin only; `TokenNotWhitelisted` when it is not listed.
    pub fn remove_whitelisted_token(&mut self, admin: Address, token: Address) -> (r: Result<
        (),
        Error,
    >)
        ensures
            r == match remove_token_error(old(self)@, admin, token) {
                Some(e) => Err(e),
                None => Ok(()),
            },
            r is Err ==> final(self)@ == old(self)@,
            r is Ok ==> final(self)@ == (EscrowView {
                whitelist: Some(old(self)@.whitelist.unwrap().remove_value(token)),
                ..old(self)@
            }),
            r is Ok && wf(old(self)@) ==> wf(final(self)@) && evolves(old(self)@, final(self)@)
                && owed_total(final(self)@) == owed_total(old(self)@),
    {
        let stored_admin = self.load_admin()?;
        if admin != stored_admin {
            return Err(Error::Unauthorized);
        }
        let mut whitelist = self.load_whitelist()?;
        match position_of(&whitelist, token) {
            Some(index) => {
                proof {
                    whitelist@.index_of_first_ensures(token);
                }
                whitelist.remove(index);
                self.store_whitelist(whitelist);
                proof {
                    if wf(old(self)@) {
                        lemma_admin_calls_keep(old(self)@, admin, token);
                    }
                }
                Ok(())
            },
            None => Err(Error::TokenNotWhitelisted),
        }
    }

    /// Whether `token` is on the whitelist (`false` before initialization).
    pub fn is_token_whitelisted(&self, token: Address) -> (r: bool)
        ensures
            r == token_whitelisted(self@, token),
    {
        match self.load_whitelist() {
            Ok(w) => position_of(&w, token).is_some(),
            Err(_) => false,
        }
    }

    /// The whitelist, in order; `NotInitialized` before initialization.
    pub fn get_whitelisted_tokens(&self) -> (r: Result<Vec<Address>, Error>)
        ensures
            match self@.whitelist {
                Some(w) => r matches Ok(v) && v@ == w,
                None => r == Err::<Vec<Address>, Error>(Error::NotInitialized),
            },
    {
        self.load_whitelist()
    }
}

/// With positive amounts, a prefix that overflows makes the whole sum
/// overflow.
proof fn lemma_prefix_sum_bound(amounts: Seq<i128>, n: int)
    requires
        0 <= n <= amounts.len(),
    ensures
        all_positive(amounts) ==> sum_amounts(amounts.subrange(0, n)) <= sum_amounts(amounts),
    decreases amounts.len() - n,
{
    if n < amounts.len() {
        lemma_prefix_sum_bound(amounts, n + 1);
        assert(amounts.subrange(0, n + 1).drop_last() =~= amounts.subrange(0, n));
    } else {
        assert(amounts.subrange(0, n) =~= amounts);
    }
}

} // verus!
