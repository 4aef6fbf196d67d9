# pump-rust-client

Toolkit for the `pump` (bonding curve) and `pump_amm` Solana programs, verified
with Verus: quotes, instruction builders, account decoding and program-derived
addresses. Nothing in the library talks to a cluster.

## Layout

- `src/math/` holds the quote arithmetic, the fee tables and the laws of both
  markets: trades never overdraw a reserve, round trips never profit, and before
  fees more input never buys less.
- `src/sdk/` holds `PumpSdk`: quotes with slippage, the v2, legacy and AMM
  instruction builders, coin creation, routing between curve and pool, and the
  choice of fee recipients. `src/sdk/laws.rs` states what holds across builders.
- `src/state/`, `src/account_wrapper.rs` and `src/accounts/` model program accounts
  as byte layouts. Short accounts read as if padded with zeros; what is written
  reads back.
- `src/pda/`, `src/pubkey.rs` and `src/constants/` derive addresses.
- `src/client.rs`, `src/clone_accounts/`, `src/snapshot.rs` and
  `src/local_validator.rs` hold what the RPC client, the cloning tool and the local
  validator compute.
- `app/` is ordinary Rust around the library. Besides the crates of `Cargo.toml` it
  uses `anchor-lang` with the program interfaces under `idls/`, `solana-client`,
  and, for the validator, `solana-test-validator`, `solana-rpc`, `solana-faucet`,
  `solana-streamer` and `crossbeam-channel`.

## Keys

A `Pubkey` is an array of 32 bytes, and the all-zero key stands for "none". An
address whose seeds admit no bump is `None`, and so is everything built on it.

## Trust

Calls into outside crates stand behind small wrappers whose contracts are
believed: address derivation, the token and system instructions, compute-budget
instructions, account packing, lookup tables, snapshot files, rent and random choice. Each names
the function it calls and what it claims of it.
