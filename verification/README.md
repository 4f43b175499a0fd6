# chatcheckout

Verified logic of two Soroban contracts: an escrow that holds a buyer's
payment until it is released to the seller, refunded, or settled by dispute,
and a multisig account whose signer keys and threshold authorize it.

- `src/` is the library, verified with Verus. Each contract entry point is a
  transition of the contract's storage, modelled as plain values: it says
  which address must authorize the call, and on success which token
  transfers and which event the host must carry out. A failed call leaves
  the storage unchanged.
  - `address`: ledger addresses as plain values.
  - `escrow`: errors, events, fee arithmetic, storage, validation, nonce
    handling, the entry points (`contract`) and properties that relate
    several calls (`laws`). Each escrow keeps the fee-collection mode it was
    created with, so that a later configuration change does not alter what
    it pays out. Every settlement of an escrow (release, refund or dispute
    resolution) pays out exactly its deposit; an escrow that is not disputed
    again after its release pays out at most its deposit.
  - `multisig`: errors, keys and their byte order, storage, and the entry
    points, including the signature-list check of the account.
- `app/` holds the Soroban contracts themselves: it loads and stores the
  entries of host storage, asks for authorization, makes the token transfers,
  publishes the events and verifies Ed25519 signatures.
- `tests/` exercises the library.
