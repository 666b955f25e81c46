# strata_asm

Building blocks of the Strata Anchor State Machine (ASM), written in Verus: every
function under `src/` carries a contract that Verus proves.

- `common`, `aux`, `logs`: errors, log entries, auxiliary requests and payloads, the
  genesis configuration registry, the relay and collector interfaces, log type IDs.
- `admin`: the administration subprotocol (multisig authorities, the queue of updates,
  action handling, enactment of ready updates) and the laws of its queue.
- `bridge`: the bridge subprotocol (deposit parsing and validation, the deposits and
  assignments tables, withdrawal assignment and fulfillment, dispatch of transactions by type,
  incoming messages) and the
  laws of its deposit table.
- `ol_core`: checkpoint validation of the OL core subprotocol (progression checks,
  rolling hash of L1 commitments, proof public parameters, message checks).
- `debug`: the debug subprotocol's mock logs and withdrawal intents.
- `stf`: the manager that collects relayed messages, logs and requests, the spec's magic
  bytes, the grouping of tagged transactions by subprotocol, and what loading a
  subprotocol decides (the source of its state, its auxiliary payloads).
- `btc`, `hash`: Bitcoin transactions as plain values and the calls into `bitcoin`
  and `secp256k1` (transaction ids, taproot signatures and sighashes, key tweaks, P2TR
  scripts, Schnorr verification, SHA-256), each behind a trusted item with its contract.

`app/` holds what stays outside the verified library: conversion of `bitcoin`
transactions, borsh/serde forms of library types, typed genesis registry access, and
the abort on a failed withdrawal assignment.
