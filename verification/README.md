# canas

Escrow, provider staking and settlement rules of the CANAS.NET job market, verified
with Verus.

1. `create_job`: a requester locks USDC into the job's escrow vault.
2. `assign_job`: the admin routes the job to a staked provider.
3. `deliver_job`: the provider attests its output by a perceptual hash.
4. `settle_job`: the requester at once, or the admin after the dispute window, splits
   the escrow between the provider and the treasury; vault and job are closed.

`cancel_job` and `refund_job` return the escrow; `slash_provider` takes a misbehaving
provider's bond.

## Layout

- `src/accounts.rs`: the accounts of each instruction and the rules that they have to
  meet (`validate`).
- `src/program.rs`: the instructions as they are called from outside. Each tests the
  rules about its accounts first.
- `src/admin.rs`, `src/providers.rs`, `src/jobs.rs`: what the instructions do on
  accounts that meet the rules.
- `src/token.rs`: an instruction that moves tokens names one call to the token program
  at a time and is asked again with the replies so far.
- `src/address.rs`, `src/keys.rs`: addresses and their derivation from seeds, which is
  done by `anchor_lang`.
- `src/laws.rs`, `src/market.rs`: what holds of the instructions together, and of the
  whole market at all times.
- `src/history.rs`: what holds along every history, through any number of
  configurations, and along every run under one configuration, such as that a job is
  paid out at most once.
- `app/`: the on-chain program, with the framework's account types and the calls to the
  token program.
