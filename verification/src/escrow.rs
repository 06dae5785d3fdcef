//! The contract's storage and the primitive reads and writes on it.
//!
//! `MilestoneEscrow` holds everything the contract keeps in ledger storage,
//! key by key (see `DataKey`), together with the address the contract runs
//! under.  Its view `EscrowView` is the mathematical picture the contracts
//! of every call are written against.
use std::collections::HashMap;
use vstd::prelude::*;
use crate::types::{Address, AddressKind, Error, JobMeta, Milestone};

verus! {

broadcast use vstd::std_specs::hash::group_hash_axioms;

/// The contents of the contract's storage.
pub struct EscrowView {
    /// The address the contract runs under.
    pub contract: Address,
    /// `DataKey::Admin`.
    pub admin: Option<Address>,
    /// `DataKey::WhitelistedTokens`.
    pub whitelist: Option<Seq<Address>>,
    /// `DataKey::Job`.
    pub job: Option<JobMeta>,
    /// `DataKey::Milestone(i)`, for each `i` present.
    pub milestones: Map<u32, Milestone>,
    /// `DataKey::DeliveredAt(i)` (temporary), for each `i` present.
    pub delivered_at: Map<u32, u64>,
    /// `DataKey::MilestoneReleased(i)` (temporary), for each `i` present.
    pub released_flags: Map<u32, bool>,
}

/// The escrow contract: its storage and the address it runs under.
#[derive(Clone)]
pub struct MilestoneEscrow {
    contract: Address,
    admin: Option<Address>,
    whitelist: Option<Vec<Address>>,
    job: Option<JobMeta>,
    milestones: HashMap<u32, Milestone>,
    delivered_at: HashMap<u32, u64>,
    released_flags: HashMap<u32, bool>,
}

pub open spec fn seq_option(w: Option<Vec<Address>>) -> Option<Seq<Address>> {
    match w {
        Some(v) => Some(v@),
        None => None,
    }
}

impl View for MilestoneEscrow {
    type V = EscrowView;

    closed spec fn view(&self) -> EscrowView {
        EscrowView {
            contract: self.contract,
            admin: self.admin,
            whitelist: seq_option(self.whitelist),
            job: self.job,
            milestones: self.milestones@,
            delivered_at: self.delivered_at@,
            released_flags: self.released_flags@,
        }
    }
}

/// The storage of a freshly deployed contract: nothing stored yet.
pub open spec fn empty_storage(contract: Address) -> EscrowView {
    EscrowView {
        contract,
        admin: None,
        whitelist: None,
        job: None,
        milestones: Map::empty(),
        delivered_at: Map::empty(),
        released_flags: Map::empty(),
    }
}

/// A copy of `w`, element by element.
fn copy_addresses(w: &Vec<Address>) -> (r: Vec<Address>)
    ensures
        r@ == w@,
{
    let mut r: Vec<Address> = Vec::new();
    let mut i: usize = 0;
    while i < w.len()
        invariant
            i <= w.len(),
            r@ == w@.subrange(0, i as int),
        decreases w.len() - i,
    {
        r.push(w[i]);
        i = i + 1;
        assert(r@ =~= w@.subrange(0, i as int));
    }
    assert(w@.subrange(0, w.len() as int) =~= w@);
    r
}

impl MilestoneEscrow {
    /// A contract deployed at `contract`, with empty storage.
    pub fn new(contract: Address) -> (s: Self)
        ensures
            s@ == empty_storage(contract),
    {
        MilestoneEscrow {
            contract,
            admin: None,
            whitelist: None,
            job: None,
            milestones: HashMap::new(),
            delivered_at: HashMap::new(),
            released_flags: HashMap::new(),
        }
    }

    /// The address the contract runs under.
    pub fn contract_address(&self) -> (a: Address)
        ensures
            a == self@.contract,
    {
        self.contract
    }

    /// Whether the job record is stored.
    pub fn has_job(&self) -> (r: bool)
        ensures
            r == self@.job is Some,
    {
        self.job.is_some()
    }

    /// Reads the job record.
    pub fn load_job_meta(&self) -> (r: Result<JobMeta, Error>)
        ensures
            r == match self@.job {
                Some(m) => Ok(m),
                None => Err::<JobMeta, Error>(Error::NotInitialized),
            },
    {
        match self.job {
            Some(m) => Ok(m),
            None => Err(Error::NotInitialized),
        }
    }

    /// Writes the job record.
    pub fn store_job_meta(&mut self, meta: JobMeta)
        ensures
            final(self)@ == (EscrowView { job: Some(meta), ..old(self)@ }),
    {
        self.job = Some(meta);
    }

    /// Reads the admin address.
    pub fn load_admin(&self) -> (r: Result<Address, Error>)
        ensures
            r == match self@.admin {
                Some(a) => Ok(a),
                None => Err::<Address, Error>(Error::NotInitialized),
            },
    {
        match self.admin {
            Some(a) => Ok(a),
            None => Err(Error::NotInitialized),
        }
    }

    /// Writes the admin address.
    pub fn store_admin(&mut self, admin: Address)
        ensures
            final(self)@ == (EscrowView { admin: Some(admin), ..old(self)@ }),
    {
        self.admin = Some(admin);
    }

    /// Reads the token whitelist.
    pub fn load_whitelist(&self) -> (r: Result<Vec<Address>, Error>)
        ensures
            match self@.whitelist {
                Some(w) => r matches Ok(v) && v@ == w,
                None => r == Err::<Vec<Address>, Error>(Error::NotInitialized),
            },
    {
        match &self.whitelist {
            Some(w) => Ok(copy_addresses(w)),
            None => Err(Error::NotInitialized),
        }
    }

    /// Writes the token whitelist.
    pub fn store_whitelist(&mut self, whitelist: Vec<Address>)
        ensures
            final(self)@ == (EscrowView { whitelist: Some(whitelist@), ..old(self)@ }),
    {
        self.whitelist = Some(whitelist);
    }

    /// Reads milestone `index`; `InvalidMilestone` when none is stored.
    pub fn load_milestone(&self, index: u32) -> (r: Result<Milestone, Error>)
        ensures
            r == if self@.milestones.contains_key(index) {
                Ok(self@.milestones[index])
            } else {
                Err::<Milestone, Error>(Error::InvalidMilestone)
            },
    {
        match self.milestones.get(&index) {
            Some(m) => Ok(*m),
            None => Err(Error::InvalidMilestone),
        }
    }

    /// Writes milestone `index`.
    pub fn store_milestone(&mut self, index: u32, milestone: Milestone)
        ensures
            final(self)@ == (EscrowView {
                milestones: old(self)@.milestones.insert(index, milestone),
                ..old(self)@
            }),
    {
        self.milestones.insert(index, milestone);
    }

    /// Writes the delivery time of milestone `index` to temporary storage.
    pub fn store_delivered_at(&mut self, index: u32, timestamp: u64)
        ensures
            final(self)@ == (EscrowView {
                delivered_at: old(self)@.delivered_at.insert(index, timestamp),
                ..old(self)@
            }),
    {
        self.delivered_at.insert(index, timestamp);
    }

    /// Reads the delivery time of milestone `index` from temporary storage;
    /// `None` if it was never written or has been evicted.
    pub fn load_delivered_at(&self, index: u32) -> (r: Option<u64>)
        ensures
            r == if self@.delivered_at.contains_key(index) {
                Some(self@.delivered_at[index])
            } else {
                None::<u64>
            },
    {
        match self.delivered_at.get(&index) {
            Some(t) => Some(*t),
            None => None,
        }
    }

    /// Writes the temporary completion flag of milestone `index`.
    pub fn store_milestone_released(&mut self, index: u32)
        ensures
            final(self)@ == (EscrowView {
                released_flags: old(self)@.released_flags.insert(index, true),
                ..old(self)@
            }),
    {
        self.released_flags.insert(index, true);
    }

    /// Reads the temporary completion flag of milestone `index`; `None` if
    /// it was never written or has been evicted.
    pub fn load_milestone_released(&self, index: u32) -> (r: Option<bool>)
        ensures
            r == if self@.released_flags.contains_key(index) {
                Some(self@.released_flags[index])
            } else {
                None::<bool>
            },
    {
        match self.released_flags.get(&index) {
            Some(b) => Some(*b),
            None => None,
        }
    }

    /// Whether the temporary completion flag of milestone `index` is set;
    /// `false` if it was never written or has been evicted.
    pub fn is_milestone_released_flag(&self, index: u32) -> (r: bool)
        ensures
            r == (self@.released_flags.contains_key(index) && self@.released_flags[index]),
    {
        match self.load_milestone_released(index) {
            Some(b) => b,
            None => false,
        }
    }

    /// Drops the temporary entries of milestone `index`, as the ledger does
    /// once their time to live has run out.
    pub fn evict_temporary(&mut self, index: u32)
        ensures
            final(self)@ == (EscrowView {
                delivered_at: old(self)@.delivered_at.remove(index),
                released_flags: old(self)@.released_flags.remove(index),
                ..old(self)@
            }),
    {
        self.delivered_at.remove(&index);
        self.released_flags.remove(&index);
    }

    /// Whether `a` is the all-zero account or the all-zero contract address.
    pub fn is_zero_address(a: Address) -> (r: bool)
        ensures
            r == crate::types::is_zero(a),
    {
        a.key_hi == 0 && a.key_lo == 0 && (a.kind == AddressKind::Account || a.kind
            == AddressKind::Contract)
    }

    /// Adds a milestone amount to a running total: `InvalidAmount` unless the
    /// amount is positive and the sum fits in an `i128`.
    pub fn checked_add_amount(total: i128, amount: i128) -> (r: Result<i128, Error>)
        ensures
            r == if amount <= 0 || total + amount > i128::MAX {
                Err::<i128, Error>(Error::InvalidAmount)
            } else {
                Ok((total + amount) as i128)
            },
    {
        if amount <= 0 {
            return Err(Error::InvalidAmount);
        }
        match total.checked_add(amount) {
            Some(t) => Ok(t),
            None => Err(Error::InvalidAmount),
        }
    }

    /// Refuses the contract's own address as the funding client.
    pub fn validate_fund_client(&self, client: Address) -> (r: Result<(), Error>)
        ensures
            r == if client == self@.contract {
                Err::<(), Error>(Error::InvalidAddress)
            } else {
                Ok(())
            },
    {
        if client == self.contract {
            return Err(Error::InvalidAddress);
        }
        Ok(())
    }
}

} // verus!
