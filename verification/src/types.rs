//! The values that the escrow stores, receives and emits.
use vstd::prelude::*;

verus! {

/// Upper bound on the number of tokens the whitelist may hold at any one
/// time.  `add_whitelisted_token` refuses to grow the list past it.
pub const MAX_WHITELIST_SIZE: u32 = 50;

/// Errors a contract call can end with.  A failed call leaves the stored
/// state exactly as it was.
#[derive(Clone, Copy, Debug, PartialEq, Eq, Structural)]
pub enum Error {
    AlreadyInitialized,
    NotInitialized,
    AlreadyFunded,
    NotFunded,
    Unauthorized,
    InvalidMilestone,
    InvalidStatus,
    TokenNotWhitelisted,
    TokenAlreadyWhitelisted,
    InvalidAmount,
    DeadlineNotPassed,
    InvalidAddress,
}

/// The two kinds of ledger address: a user account (an ed25519 key) or a
/// deployed contract (a contract hash).
#[derive(Clone, Copy, Debug, PartialEq, Eq, Hash, Structural)]
pub enum AddressKind {
    Account,
    Contract,
}

/// A ledger address: its kind and its 32-byte key, held as two 128-bit
/// halves (`key_hi` the first sixteen bytes, big-endian, `key_lo` the last
/// sixteen).
#[derive(Clone, Copy, Debug, PartialEq, Eq, Hash, Structural)]
pub struct Address {
    pub kind: AddressKind,
    pub key_hi: u128,
    pub key_lo: u128,
}

/// The all-zero account address (strkey `GAAA…AWHF`).
pub open spec fn is_zero_account(a: Address) -> bool {
    a.kind == AddressKind::Account && a.key_hi == 0 && a.key_lo == 0
}

/// The all-zero contract address (strkey `CAAA…BSC4`).
pub open spec fn is_zero_contract(a: Address) -> bool {
    a.kind == AddressKind::Contract && a.key_hi == 0 && a.key_lo == 0
}

/// Either of the two all-zero addresses, which no party may act as.
pub open spec fn is_zero(a: Address) -> bool {
    is_zero_account(a) || is_zero_contract(a)
}

/// Where a milestone stands in its life cycle.
#[derive(Clone, Copy, Debug, PartialEq, Eq, Structural)]
pub enum MilestoneStatus {
    Pending,
    Delivered,
    PartiallyReleased,
    Released,
    Disputed,
    Refunded,
}

/// One milestone of the job: the amount escrowed for it, how much of that
/// has been paid to the freelancer, its status, and the ledger time at
/// which it was marked delivered (0 before that).
#[derive(Clone, Copy, Debug, PartialEq, Eq, Structural)]
pub struct Milestone {
    pub amount: i128,
    pub released_amount: i128,
    pub status: MilestoneStatus,
    pub delivered_at: u64,
}

/// The job record kept in instance storage: the parties, the payment token,
/// whether the client has funded the escrow, the auto-release window, the
/// number of milestones and their total.
#[derive(Clone, Copy, Debug, PartialEq, Eq, Structural)]
pub struct JobMeta {
    pub client: Address,
    pub freelancer: Address,
    pub arbiter: Address,
    pub token: Address,
    pub funded: bool,
    pub auto_release_seconds: u64,
    pub milestone_count: u32,
    pub total_amount: i128,
}

/// The whole job as `get_job` reports it: the job record with its
/// milestones in index order.
#[derive(Clone, Debug, PartialEq, Eq)]
pub struct Job {
    pub client: Address,
    pub freelancer: Address,
    pub arbiter: Address,
    pub token: Address,
    pub milestones: Vec<Milestone>,
    pub funded: bool,
    pub auto_release_seconds: u64,
}

/// The storage keys of the contract.  `Job`, `Admin` and
/// `WhitelistedTokens` live in instance storage, `Milestone(i)` in
/// persistent storage, `DeliveredAt(i)` and `MilestoneReleased(i)` in
/// temporary storage, which the ledger may evict.
#[derive(Clone, Copy, Debug, PartialEq, Eq, Structural)]
pub enum DataKey {
    Job,
    Milestone(u32),
    Admin,
    WhitelistedTokens,
    DeliveredAt(u32),
    MilestoneReleased(u32),
}

/// A token movement that a call asks for: `amount` units of `token` from
/// `from` to `to`.  The contract performs it with the token contract's
/// `transfer`; if that fails, the whole call is undone.
#[derive(Clone, Copy, Debug, PartialEq, Eq, Structural)]
pub struct Transfer {
    pub token: Address,
    pub from: Address,
    pub to: Address,
    pub amount: i128,
}

/// Event payload describing an initialized job.
#[derive(Clone, Debug, PartialEq, Eq)]
pub struct InitializedEvent {
    pub client: Address,
    pub freelancer: Address,
    pub arbiter: Address,
    pub token: Address,
    pub milestone_amounts: Vec<i128>,
}

/// Event published (topic `fund`) when the client funds the escrow.
#[derive(Clone, Copy, Debug, PartialEq, Eq, Structural)]
pub struct FundedEvent {
    pub contract_id: Address,
    pub client: Address,
    pub freelancer: Address,
    pub arbiter: Address,
    pub token: Address,
    pub total_amount: i128,
    pub milestone_count: u32,
    pub auto_release_seconds: u64,
    pub funded: bool,
}

/// Event published (topic `deliver`) when a milestone is marked delivered.
#[derive(Clone, Copy, Debug, PartialEq, Eq, Structural)]
pub struct DeliveredEvent {
    pub contract_id: Address,
    pub milestone_index: u32,
    pub freelancer: Address,
    pub client: Address,
    pub delivered_at: u64,
    pub status: MilestoneStatus,
    pub amount: i128,
}

/// Event published (topic `approve`) when the client releases funds of a
/// milestone, in part or in full.
#[derive(Clone, Copy, Debug, PartialEq, Eq, Structural)]
pub struct ApprovedEvent {
    pub contract_id: Address,
    pub milestone_index: u32,
    pub client: Address,
    pub freelancer: Address,
    pub token: Address,
    pub amount: i128,
    pub released_amount: i128,
    pub remaining: i128,
    pub status: MilestoneStatus,
}

/// Event payload describing a raised dispute.
#[derive(Clone, Copy, Debug, PartialEq, Eq, Structural)]
pub struct DisputeRaisedEvent {
    pub milestone_index: u32,
}

/// Event payload describing a resolved dispute.
#[derive(Clone, Copy, Debug, PartialEq, Eq, Structural)]
pub struct DisputeResolvedEvent {
    pub milestone_index: u32,
    pub released_to_freelancer: bool,
}

} // verus!
