# hivemind_market

A verified library for a decentralised AI-execution marketplace: listings,
runner and hardware offers, service quotes, payment authorizations, escrow,
settlement events and their dispute resolutions, refunds and slashing, media
jobs, miner profiles, heartbeats, benchmarks and onboarding, and the local
runner's engine descriptors and cache. Every record check returns its
findings (issues that invalidate a record, warnings that do not) in the order
the rules apply, and its contract states exactly which findings come out for
which record.

## Layout

- `src/` is the library, verified with Verus. Each module states its rules
  as spec functions over the records' fields and proves the executable checks
  and builders against them; laws that relate several operations are public
  proof functions (`lemma_*`).
  - `text`, `text_order`, `ieee`, `clock`: text predicates, a total order on
    texts, IEEE 754 predicates over bit patterns, RFC 3339 timestamps.
  - `findings`: the findings of a check and the shared signature and id rules.
  - `kinds`, `tiers`: the enumerations and the tier-selection rules.
  - `listing`, `offers`, `quote`, `payment`, `escrow`, `settlement`,
    `receipt_settlement`, `refund`, `slashing`, `shortlist`: the marketplace.
  - `media`, `miner`, `local_runner`: media jobs, miners, the local runner.
  - `store_order`, `stores`, `device_stores`: the store entry of each record
    kind, store order, and the summaries of the quote, payment, escrow,
    refund, audit, media-job and miner-record stores.
- `tests/` runs the library on concrete records.
- `app/` is the process side: the system clock, the environment, the cache
  directory, finding the records of a store, the Ollama HTTP client, and the
  floating-point arithmetic (costs, scores, tolerances, averages and rates)
  whose results the library takes as arguments or leaves to its caller.

## What callers supply

Records are signed over a canonical JSON encoding and may carry an Ed25519
identity envelope. Computing those encodings, hashes and envelope checks is
outside the library: a check takes them as a `SignedContent` (the canonical
id, the development signature, and the envelope check's payload hash and
findings). Builders return records unsigned, with an empty id; the signer
completes a record with its `seal_*` function, which takes the canonical id
and the signature and refuses a signer other than the record's own (the
`*_envelope` functions name each record's signing context and signer).
Deadlines and the order of timestamps are decided on parsed instants by
`clock::passed_before`, `clock::reached_by` and `clock::out_of_order`. Amounts, scores and sizes are IEEE 754 bit patterns;
comparisons that need floating-point arithmetic with a tolerance are taken as
booleans.
