# milestone_escrow

A milestone escrow between a client, a freelancer and an arbiter, written
in Verus. The client funds a job split into milestones, the freelancer marks
milestones delivered, the client releases funds in part or in full (or the
freelancer claims them once the auto-release window has passed), and the
arbiter settles disputes.

## Layout

- `src/` — the verified library.
  - `types.rs`: addresses, milestones, the job record, storage keys, events.
  - `escrow.rs`: `MilestoneEscrow`, the contract's storage, and its view
    `EscrowView` against which every contract is stated.
  - `admin.rs`, `lifecycle.rs`, `approval.rs`, `dispute.rs`, `report.rs`:
    the contract calls, each with an exact `ensures` (the error it ends with,
    the storage afterwards, the token transfer and event it asks for).
  - `invariants.rs`: well-formedness of the storage, one-way progress of
    milestones, and the accounting of what the escrow still owes; every
    call's contract states that it keeps them.
  - `laws.rs`: properties that relate several calls.
- `tests/` — scenario tests over a small stand-in for the ledger host, and
  direct tests of the laws and error cases.
- `app/` — the library deployed as a ledger contract: it checks
  authorizations, loads and stores ledger entries, performs token transfers
  and publishes events around the verified calls.
