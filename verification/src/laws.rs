//! What holds of the instructions taken together: where the money goes, who may
//! close a job and when, and what can never change.

use crate::accounts::{
    AdminOnly, AssignJob, CancelJob, CloseConfig, CloseProvider, CreateJob, Initialize, RefundJob,
    RegisterProvider, SettleJob, SlashProvider, TopUpBond,
};
use crate::address::{derived_at, PdaSigner, Seeds};
use crate::admin::{
    initial_config, mints_checks, reconfigured, with_admin, with_mints, with_params, with_paused,
};
use crate::errors::CanasError;
use crate::jobs::{
    assign_job_checks, assign_job_end, assigned, cancel_job_calls, cancel_job_checks,
    cancel_job_end, create_job_calls, create_job_checks, create_job_end, deliver_job_checks,
    delivered, occupied, paid, provider_share, refund_job_calls, refund_job_checks,
    refund_job_end, relieved, settle_job_calls, settle_job_checks, settle_job_end, settlement,
    share, treasury_share,
};
use crate::keys::Pubkey;
use crate::providers::{
    close_provider_calls, register_provider_calls, register_provider_checks,
    register_provider_end, slash_provider_calls, slash_provider_checks, slash_provider_end,
    slashed, top_up_bond_calls, top_up_bond_end,
};
use crate::state::{
    Account, Config, Job, Provider, TokenAccount, BPS_DENOM, STATUS_ASSIGNED, STATUS_DELIVERED,
    STATUS_OPEN,
};
use crate::token::{drawn, outflow, TokenCall};
use vstd::prelude::*;

verus! {

// ---- the split of a payment ----

/// A share of at most the whole is the exact part, rounded down, and never more
/// than the whole.
pub proof fn share_is_rounded_down(amount: u64, bps: u16)
    requires
        bps <= BPS_DENOM,
    ensures
        share(amount, bps) as int * BPS_DENOM <= amount * bps < (share(amount, bps) + 1)
            * BPS_DENOM,
        share(amount, bps) <= amount,
{
    assert(0 <= amount * bps <= amount * 10_000) by (nonlinear_arith)
        requires
            0 <= bps <= 10_000,
            amount >= 0,
    ;
}

/// The three shares of a payment never exceed it, and rounding loses less than
/// one unit for each of them.
pub proof fn shares_make_the_whole(amount: u64, config: Config)
    requires
        config.well_formed(),
    ensures
        amount - 3 < share(amount, config.provider_bps) + share(amount, config.verifier_bps)
            + share(amount, config.protocol_bps) <= amount,
{
    share_is_rounded_down(amount, config.provider_bps);
    share_is_rounded_down(amount, config.verifier_bps);
    share_is_rounded_down(amount, config.protocol_bps);
    let (p, v, q) = (
        config.provider_bps as int,
        config.verifier_bps as int,
        config.protocol_bps as int,
    );
    assert(amount * p + amount * v + amount * q == amount * 10_000) by (nonlinear_arith)
        requires
            p + v + q == 10_000,
    ;
}

/// What a settlement reports adds up to what the vault held: the provider's, the
/// verifiers' and the protocol's part.
pub proof fn settlement_adds_up(a: SettleJob)
    requires
        a.config.data.well_formed(),
        a.vault.data.amount >= a.job.data.amount,
    ensures
        settlement(a).provider_amt + settlement(a).verifier_amt + settlement(a).protocol_amt
            == a.vault.data.amount,
{
    shares_make_the_whole(a.job.data.amount, a.config.data);
}

/// A donation to the vault changes nothing for the provider: it goes to the
/// treasury.
pub proof fn donation_goes_to_treasury(a: SettleJob, donation: u64)
    requires
        a.config.data.well_formed(),
        a.vault.data.amount >= a.job.data.amount,
        a.vault.data.amount + donation <= u64::MAX,
    ensures
        ({
            let b = SettleJob {
                vault: Account {
                    data: TokenAccount {
                        amount: (a.vault.data.amount + donation) as u64,
                        ..a.vault.data
                    },
                    ..a.vault
                },
                ..a
            };
            &&& provider_share(b) == provider_share(a)
            &&& treasury_share(b) == treasury_share(a) + donation
            &&& forall|now: i64| settle_job_checks(b, now) == settle_job_checks(a, now)
        }),
{
    share_is_rounded_down(a.job.data.amount, a.config.data.provider_bps);
}

// ---- where the money goes ----

/// Bounds on the flow out of `key` over `calls` that draw on it and never pay it.
proof fn lemma_flow_bounds(calls: Seq<TokenCall>, key: Pubkey, total: int)
    requires
        forall|i: int| 0 <= i < calls.len() ==> drawn(#[trigger] calls[i], key) >= 0,
        outflow(calls, key) <= total,
    ensures
        forall|k: int|
            0 <= k <= calls.len() ==> 0 <= outflow(#[trigger] calls.take(k), key) <= total,
    decreases calls.len(),
{
    if calls.len() > 0 {
        let shorter = calls.drop_last();
        assert forall|i: int| 0 <= i < shorter.len() implies drawn(
            #[trigger] shorter[i],
            key,
        ) >= 0 by {
            assert(shorter[i] == calls[i]);
        }
        assert(drawn(calls[calls.len() - 1], key) >= 0);
        lemma_flow_bounds(shorter, key, total);
        assert(shorter.take(shorter.len() as int) =~= shorter);
        assert forall|k: int| 0 <= k <= calls.len() implies 0 <= outflow(
            #[trigger] calls.take(k),
            key,
        ) <= total by {
            if k < calls.len() {
                assert(calls.take(k) =~= shorter.take(k));
            } else {
                assert(calls.take(k) =~= calls);
            }
        }
    } else {
        assert forall|k: int| 0 <= k <= calls.len() implies 0 <= outflow(
            #[trigger] calls.take(k),
            key,
        ) <= total by {
            assert(calls.take(k) =~= calls);
        }
    }
}

/// A settlement empties the vault, never draws more than it holds on the way, and
/// then closes it. No account that is paid is the vault itself.
pub proof fn settle_drains_vault(a: SettleJob, now: i64)
    requires
        settle_job_checks(a, now) is Ok,
        provider_share(a) > 0 ==> a.provider_payout.key != a.vault.key,
        treasury_share(a) > 0 ==> a.treasury.key != a.vault.key,
    ensures
        outflow(settle_job_calls(a), a.vault.key) == a.vault.data.amount,
        forall|k: int|
            0 <= k <= settle_job_calls(a).len() ==> 0 <= outflow(
                #[trigger] settle_job_calls(a).take(k),
                a.vault.key,
            ) <= a.vault.data.amount,
        settle_job_calls(a).last() matches TokenCall::CloseAccount { account, destination, .. }
            && account == a.vault.key && destination == a.requester,
{
    reveal_with_fuel(outflow, 4);
    lemma_flow_bounds(settle_job_calls(a), a.vault.key, a.vault.data.amount as int);
}

/// A settlement pays the provider exactly its share and the treasury exactly the
/// rest, where these are two accounts apart from the vault.
pub proof fn settle_pays_each_part(a: SettleJob, now: i64)
    requires
        settle_job_checks(a, now) is Ok,
        a.provider_payout.key != a.vault.key,
        a.treasury.key != a.vault.key,
        a.provider_payout.key != a.treasury.key,
    ensures
        outflow(settle_job_calls(a), a.provider_payout.key) == -provider_share(a),
        outflow(settle_job_calls(a), a.treasury.key) == -treasury_share(a),
        provider_share(a) + treasury_share(a) == a.vault.data.amount,
{
    reveal_with_fuel(outflow, 4);
}

/// A settlement pays no account but the payout account of the provider's record
/// and the treasury of the configuration: the signer picks no destination.
pub proof fn settle_pays_only_fixed_accounts(a: SettleJob)
    requires
        a.constraints() is Ok,
    ensures
        forall|i: int|
            0 <= i < settle_job_calls(a).len() ==> match #[trigger] settle_job_calls(a)[i] {
                TokenCall::Transfer { from, to, .. } => from == a.vault.key && (to
                    == a.provider.data.payout || to == a.config.data.treasury),
                TokenCall::CloseAccount { account, destination, .. } => account == a.vault.key
                    && destination == a.job.data.requester,
            },
{
}

/// A bond or an escrow that is paid in goes into the vault whole.
pub proof fn deposits_fill_vaults(
    p: RegisterProvider,
    t: TopUpBond,
    c: CreateJob,
    amount: u64,
)
    ensures
        p.provider_token.key != p.bond_vault.key ==> {
            &&& outflow(register_provider_calls(p, amount), p.bond_vault.key) == -amount
            &&& outflow(register_provider_calls(p, amount), p.provider_token.key) == amount
        },
        t.provider_token.key != t.bond_vault.key ==> {
            &&& outflow(top_up_bond_calls(t, amount), t.bond_vault.key) == -amount
            &&& outflow(top_up_bond_calls(t, amount), t.provider_token.key) == amount
        },
        c.requester_token.key != c.vault.key ==> {
            &&& outflow(create_job_calls(c, amount), c.vault.key) == -amount
            &&& outflow(create_job_calls(c, amount), c.requester_token.key) == amount
        },
{
    reveal_with_fuel(outflow, 2);
}

/// Two token accounts at one address are one account.
pub open spec fn agree(x: Account<TokenAccount>, y: Account<TokenAccount>) -> bool {
    x.key == y.key ==> x.data == y.data
}

/// A cancellation empties the vault into a token account that the requester owns,
/// and closes the vault; its rent goes to the requester.
pub proof fn cancel_refunds_requester(a: CancelJob)
    requires
        a.constraints() is Ok,
        a.vault.data.owner == a.job.key,
        agree(a.vault, a.requester_token),
    ensures
        a.requester_token.data.owner == a.job.data.requester,
        outflow(cancel_job_calls(a), a.vault.key) == a.vault.data.amount,
        outflow(cancel_job_calls(a), a.requester_token.key) == -a.vault.data.amount,
        cancel_job_calls(a).last() matches TokenCall::CloseAccount { account, destination, .. }
            && account == a.vault.key && destination == a.job.data.requester,
{
    reveal_with_fuel(outflow, 3);
}

/// A refund empties the vault into a token account that the requester owns, and
/// closes the vault; its rent goes to the requester.
pub proof fn refund_refunds_requester(a: RefundJob)
    requires
        a.constraints() is Ok,
        a.vault.data.owner == a.job.key,
        agree(a.vault, a.requester_token),
    ensures
        a.requester_token.data.owner == a.job.data.requester,
        outflow(refund_job_calls(a), a.vault.key) == a.vault.data.amount,
        outflow(refund_job_calls(a), a.requester_token.key) == -a.vault.data.amount,
        refund_job_calls(a).last() matches TokenCall::CloseAccount { account, destination, .. }
            && account == a.vault.key && destination == a.job.data.requester,
{
    reveal_with_fuel(outflow, 3);
}

/// A provider that closes gets back everything that its bond vault holds, and the
/// rent of the vault.
pub proof fn close_provider_returns_bond(a: CloseProvider)
    requires
        a.constraints() is Ok,
        a.bond_vault.data.owner == a.provider.key,
        agree(a.bond_vault, a.provider_token),
    ensures
        a.provider_token.data.owner == a.authority,
        outflow(close_provider_calls(a), a.bond_vault.key) == a.bond_vault.data.amount,
        outflow(close_provider_calls(a), a.provider_token.key) == -a.bond_vault.data.amount,
        close_provider_calls(a).last() matches TokenCall::CloseAccount { account, destination, .. }
            && account == a.bond_vault.key && destination == a.authority,
{
    reveal_with_fuel(outflow, 3);
}

// ---- several instructions in a row ----

/// A job that is opened and then cancelled leaves every token account with what it
/// had: the requester, whom the checks let cancel, gets back exactly what was paid in.
pub proof fn cancelling_undoes_opening(
    c: CreateJob,
    amount: u64,
    params_hash: [u8; 32],
    model_hash: [u8; 32],
    now: i64,
    x: CancelJob,
)
    requires
        c.vault.data.amount == 0,
        c.requester_token.key != c.vault.key,
        create_job_end(c, amount, params_hash, model_hash, now) matches Ok((b, _)) && x.job
            == b.job,
        x.vault.key == c.vault.key,
        x.vault.data.amount == c.vault.data.amount - outflow(
            create_job_calls(c, amount),
            c.vault.key,
        ),
        x.requester_token.key == c.requester_token.key,
    ensures
        x.authority == c.requester ==> cancel_job_checks(x) is Ok,
        outflow(cancel_job_calls(x), x.requester_token.key) == -amount,
        forall|key: Pubkey|
            outflow(create_job_calls(c, amount), key) + #[trigger] outflow(cancel_job_calls(x), key)
                == 0,
{
    reveal_with_fuel(outflow, 3);
}

/// Registering, topping up, being slashed and closing costs the authority exactly what
/// was slashed. The vault starts empty, nobody else pays into it, and what is slashed
/// goes neither to the vault nor to the authority's own tokens.
pub proof fn staking_costs_what_is_slashed(
    p: RegisterProvider,
    bond_amount: u64,
    t: TopUpBond,
    addition: u64,
    q: SlashProvider,
    amount: u64,
    x: CloseProvider,
)
    requires
        p.provider_token.key != p.bond_vault.key,
        q.slash_destination.key != p.bond_vault.key,
        q.slash_destination.key != p.provider_token.key,
        t.provider_token.key == p.provider_token.key,
        x.provider_token.key == p.provider_token.key,
        p.bond_vault.data.amount == 0,
        t.bond_vault.key == p.bond_vault.key,
        q.bond_vault.key == p.bond_vault.key,
        x.bond_vault.key == p.bond_vault.key,
        t.bond_vault.data.amount == p.bond_vault.data.amount - outflow(
            register_provider_calls(p, bond_amount),
            p.bond_vault.key,
        ),
        q.bond_vault.data.amount == t.bond_vault.data.amount - outflow(
            top_up_bond_calls(t, addition),
            p.bond_vault.key,
        ),
        slash_provider_checks(q, amount) is Ok,
        x.bond_vault.data.amount == q.bond_vault.data.amount - outflow(
            slash_provider_calls(q, amount),
            p.bond_vault.key,
        ),
    ensures
        outflow(register_provider_calls(p, bond_amount), p.provider_token.key) + outflow(
            top_up_bond_calls(t, addition),
            p.provider_token.key,
        ) + outflow(slash_provider_calls(q, amount), p.provider_token.key) + outflow(
            close_provider_calls(x),
            p.provider_token.key,
        ) == amount,
        outflow(slash_provider_calls(q, amount), q.slash_destination.key) == -amount,
{
    reveal_with_fuel(outflow, 3);
}

/// The accounts of the next slash of the same provider, after one of `amount`.
pub open spec fn after_slash(
    q: SlashProvider,
    amount: u64,
    reputation_penalty: u32,
) -> SlashProvider {
    SlashProvider {
        provider: Account {
            data: slashed(q.provider.data, amount, reputation_penalty),
            ..q.provider
        },
        bond_vault: Account {
            data: TokenAccount {
                amount: (q.bond_vault.data.amount - amount) as u64,
                ..q.bond_vault.data
            },
            ..q.bond_vault
        },
        ..q
    }
}

/// Two slashes are one of their sum: they are allowed if and only if it is, leave the
/// provider as it does, and move as many tokens. What is slashed goes out of the vault.
pub proof fn slashes_add_up(
    q: SlashProvider,
    first: u64,
    first_penalty: u32,
    second: u64,
    second_penalty: u32,
)
    requires
        first > 0,
        second > 0,
        first + second <= u64::MAX,
        first_penalty + second_penalty <= u32::MAX,
        q.slash_destination.key != q.bond_vault.key,
    ensures
        ({
            let r = after_slash(q, first, first_penalty);
            let sum = (first + second) as u64;
            let penalty = (first_penalty + second_penalty) as u32;
            &&& slash_provider_checks(q, sum) is Ok <==> slash_provider_checks(q, first) is Ok
                && slash_provider_checks(r, second) is Ok
            &&& slash_provider_checks(q, first) is Ok ==> r.bond_vault.data.amount
                == q.bond_vault.data.amount - outflow(
                slash_provider_calls(q, first),
                q.bond_vault.key,
            )
            &&& slashed(slashed(q.provider.data, first, first_penalty), second, second_penalty)
                == slashed(q.provider.data, sum, penalty)
            &&& forall|key: Pubkey|
                outflow(slash_provider_calls(q, first), key) + #[trigger] outflow(
                    slash_provider_calls(r, second),
                    key,
                ) == outflow(slash_provider_calls(q, sum), key)
        }),
{
    reveal_with_fuel(outflow, 2);
}

// ---- for whom the program signs ----

/// A call that the program signs carries the seeds that derive its authority.
pub open spec fn rightly_signed(call: TokenCall) -> bool {
    match call {
        TokenCall::Transfer { authority, signer, .. } => signer matches Some(s) && derived_at(
            authority,
            s,
        ),
        TokenCall::CloseAccount { authority, signer, .. } => signer matches Some(s) && derived_at(
            authority,
            s,
        ),
    }
}

/// Every call that empties or closes a vault is signed by the account that owns
/// the vault: the job or the provider record at the address its seeds derive.
pub proof fn vault_calls_are_rightly_signed(
    s: SettleJob,
    c: CancelJob,
    r: RefundJob,
    p: CloseProvider,
    q: SlashProvider,
    amount: u64,
)
    ensures
        s.constraints() is Ok ==> forall|i: int|
            0 <= i < settle_job_calls(s).len() ==> rightly_signed(
                #[trigger] settle_job_calls(s)[i],
            ),
        c.constraints() is Ok ==> forall|i: int|
            0 <= i < cancel_job_calls(c).len() ==> rightly_signed(
                #[trigger] cancel_job_calls(c)[i],
            ),
        r.constraints() is Ok ==> forall|i: int|
            0 <= i < refund_job_calls(r).len() ==> rightly_signed(
                #[trigger] refund_job_calls(r)[i],
            ),
        p.constraints() is Ok ==> forall|i: int|
            0 <= i < close_provider_calls(p).len() ==> rightly_signed(
                #[trigger] close_provider_calls(p)[i],
            ),
        q.constraints() is Ok ==> forall|i: int|
            0 <= i < slash_provider_calls(q, amount).len() ==> rightly_signed(
                #[trigger] slash_provider_calls(q, amount)[i],
            ),
{
}

/// A configuration that `initialize` has written at the address derived with its
/// bump admits the admin, and no other key, to the admin's instructions.
pub proof fn initialized_config_admits_its_admin(
    a: Initialize,
    treasury: Pubkey,
    provider_bps: u16,
    verifier_bps: u16,
    protocol_bps: u16,
    dispute_window: i64,
    signer: Pubkey,
)
    requires
        derived_at(a.config.key, (PdaSigner { seeds: Seeds::Config, bump: a.config_bump })),
    ensures
        ({
            let config = Account {
                data: initial_config(
                    a.admin,
                    treasury,
                    provider_bps,
                    verifier_bps,
                    protocol_bps,
                    dispute_window,
                    a.config_bump,
                ),
                ..a.config
            };
            (AdminOnly { config, admin: signer }).constraints() is Ok <==> signer == a.admin
        }),
{
}

/// The records that `register_provider` and `create_job` write at the addresses
/// derived with their bumps are found there again by the seeds they hold.
pub proof fn new_records_keep_their_address(
    p: RegisterProvider,
    bond_amount: u64,
    c: CreateJob,
    amount: u64,
    params_hash: [u8; 32],
    model_hash: [u8; 32],
    now: i64,
)
    ensures
        derived_at(
            p.provider.key,
            (PdaSigner {
                seeds: Seeds::Provider { authority: p.authority },
                bump: p.provider_bump,
            }),
        ) ==> (register_provider_end(p, bond_amount) matches Ok((b, _)) ==> derived_at(
            b.provider.key,
            b.provider.data.signer(),
        )),
        derived_at(
            c.job.key,
            (PdaSigner {
                seeds: Seeds::Job { requester: c.requester, nonce: c.config.data.job_count },
                bump: c.job_bump,
            }),
        ) ==> (create_job_end(c, amount, params_hash, model_hash, now) matches Ok((b, _))
            ==> derived_at(b.job.key, b.job.data.signer())),
{
}

// ---- the configuration ----

/// A mint that is set is locked: a successful `set_mints` leaves it as it is, and
/// an attempt to change it is refused.
pub proof fn mints_are_locked_once_set(config: Config, usdc_mint: Pubkey, cnsnet_mint: Pubkey)
    ensures
        mints_checks(config, usdc_mint, cnsnet_mint) is Ok ==> {
            let after = with_mints(config, usdc_mint, cnsnet_mint);
            &&& config.usdc_mint != Pubkey::unset() ==> after.usdc_mint == config.usdc_mint
            &&& config.cnsnet_mint != Pubkey::unset() ==> after.cnsnet_mint == config.cnsnet_mint
        },
        config.usdc_mint != Pubkey::unset() && usdc_mint != config.usdc_mint ==> mints_checks(
            config,
            usdc_mint,
            cnsnet_mint,
        ) == Err::<(), CanasError>(CanasError::MintLocked),
        config.cnsnet_mint != Pubkey::unset() && cnsnet_mint != config.cnsnet_mint
            ==> mints_checks(config, usdc_mint, cnsnet_mint) == Err::<(), CanasError>(
            CanasError::MintLocked,
        ),
{
}

/// The bond mint can be left unset at first and set by a second call that repeats
/// the payment mint.
pub proof fn bond_mint_can_be_set_later(config: Config, usdc_mint: Pubkey, cnsnet_mint: Pubkey)
    requires
        config.cnsnet_mint == Pubkey::unset(),
        mints_checks(config, usdc_mint, Pubkey::unset()) is Ok,
    ensures
        mints_checks(
            with_mints(config, usdc_mint, Pubkey::unset()),
            usdc_mint,
            cnsnet_mint,
        ) is Ok,
{
}

/// No instruction but `set_mints` changes a mint.
pub proof fn mints_change_only_by_set_mints(
    config: Config,
    provider_bps: u16,
    verifier_bps: u16,
    protocol_bps: u16,
    dispute_window: i64,
    key: Pubkey,
    paused: bool,
    c: CreateJob,
    amount: u64,
    params_hash: [u8; 32],
    model_hash: [u8; 32],
    now: i64,
    s: SettleJob,
)
    ensures
        same_mints(
            config,
            with_params(config, provider_bps, verifier_bps, protocol_bps, dispute_window, key),
        ),
        same_mints(config, with_paused(config, paused)),
        same_mints(config, with_admin(config, key)),
        create_job_end(c, amount, params_hash, model_hash, now) matches Ok((b, _)) ==> same_mints(
            c.config.data,
            b.config.data,
        ),
        settle_job_end(s) matches Ok((b, _)) ==> same_mints(s.config.data, b.config.data),
{
}

/// Two configurations with the same mints.
pub open spec fn same_mints(a: Config, b: Config) -> bool {
    a.usdc_mint == b.usdc_mint && a.cnsnet_mint == b.cnsnet_mint
}

/// After the admin role is handed over, the new admin and no other key is admitted
/// to the admin's instructions.
pub proof fn admin_role_is_handed_over(a: AdminOnly, new_admin: Pubkey, signer: Pubkey)
    requires
        a.constraints() is Ok,
    ensures
        (AdminOnly { admin: signer, ..reconfigured(a, with_admin(a.config.data, new_admin)) })
            .constraints() is Ok <==> signer == new_admin,
{
}

/// So it is with the routing of jobs, with slashing and with the closing of the
/// configuration. The last needs a new admin that is not the configuration itself,
/// which cannot receive its own rent.
pub proof fn handed_over_role_routes_slashes_and_closes(
    a: AssignJob,
    p: SlashProvider,
    c: CloseConfig,
    new_admin: Pubkey,
    signer: Pubkey,
)
    ensures
        a.constraints() is Ok ==> {
            let config = Account { data: with_admin(a.config.data, new_admin), ..a.config };
            (AssignJob { config, admin: signer, ..a }).constraints() is Ok <==> signer == new_admin
        },
        p.constraints() is Ok ==> {
            let config = Account { data: with_admin(p.config.data, new_admin), ..p.config };
            (SlashProvider { config, admin: signer, ..p }).constraints() is Ok <==> signer
                == new_admin
        },
        c.constraints() is Ok && new_admin != c.config.key ==> {
            let config = Account { data: with_admin(c.config.data, new_admin), ..c.config };
            (CloseConfig { config, admin: signer }).constraints() is Ok <==> signer == new_admin
        },
{
}

/// The account of the configuration, with the opening of jobs paused or not.
pub open spec fn repaused(config: Account<Config>, paused: bool) -> Account<Config> {
    Account { data: with_paused(config.data, paused), ..config }
}

/// A pause stops the opening of new jobs, and its end allows it again.
pub proof fn pause_stops_new_jobs(config: Config, amount: u64)
    ensures
        create_job_checks(with_paused(config, true), amount) == Err::<(), CanasError>(
            CanasError::Paused,
        ),
        create_job_checks(config, amount) is Ok ==> create_job_checks(
            with_paused(config, false),
            amount,
        ) is Ok,
{
}

/// A pause does not stand against settling a job: account rules, checks, calls and
/// end are the same, and the pause itself is kept.
pub proof fn pause_leaves_settlement(a: SettleJob, paused: bool, now: i64)
    ensures
        ({
            let b = SettleJob { config: repaused(a.config, paused), ..a };
            &&& b.constraints() == a.constraints()
            &&& settle_job_checks(b, now) == settle_job_checks(a, now)
            &&& settle_job_calls(b) == settle_job_calls(a)
            &&& settle_job_end(b) == (match settle_job_end(a) {
                Ok((t, outcome)) => Ok(
                    (SettleJob { config: repaused(t.config, paused), ..t }, outcome),
                ),
                Err(error) => Err(error),
            })
        }),
{
}

/// A pause does not stand against cancelling or refunding a job.
pub proof fn pause_leaves_refunds(
    c: CancelJob,
    r: RefundJob,
    paused: bool,
    reputation_penalty: u32,
    now: i64,
)
    ensures
        ({
            let b = CancelJob { config: repaused(c.config, paused), ..c };
            &&& b.constraints() == c.constraints()
            &&& cancel_job_checks(b) == cancel_job_checks(c)
            &&& cancel_job_calls(b) == cancel_job_calls(c)
            &&& cancel_job_end(b) == (match cancel_job_end(c) {
                Ok((t, outcome)) => Ok(
                    (CancelJob { config: repaused(t.config, paused), ..t }, outcome),
                ),
                Err(error) => Err(error),
            })
        }),
        ({
            let b = RefundJob { config: repaused(r.config, paused), ..r };
            &&& b.constraints() == r.constraints()
            &&& refund_job_checks(b, now) == refund_job_checks(r, now)
            &&& refund_job_calls(b) == refund_job_calls(r)
            &&& refund_job_end(b, reputation_penalty) == (match refund_job_end(
                r,
                reputation_penalty,
            ) {
                Ok((t, outcome)) => Ok(
                    (RefundJob { config: repaused(t.config, paused), ..t }, outcome),
                ),
                Err(error) => Err(error),
            })
        }),
{
}

/// A pause does not stand against routing a job that is open already.
pub proof fn pause_leaves_routing(a: AssignJob, paused: bool, now: i64)
    ensures
        ({
            let b = AssignJob { config: repaused(a.config, paused), ..a };
            &&& b.constraints() == a.constraints()
            &&& assign_job_checks(b.job.data, b.provider.data) == assign_job_checks(
                a.job.data,
                a.provider.data,
            )
            &&& assign_job_end(b, now) == (
                AssignJob {
                    config: repaused(a.config, paused),
                    ..assign_job_end(a, now).0
                },
                assign_job_end(a, now).1,
            )
        }),
{
}

/// A pause does not stand against registering or slashing a provider.
pub proof fn pause_leaves_providers(
    p: RegisterProvider,
    q: SlashProvider,
    paused: bool,
    amount: u64,
    reputation_penalty: u32,
)
    ensures
        ({
            let b = RegisterProvider { config: repaused(p.config, paused), ..p };
            &&& b.constraints() == p.constraints()
            &&& register_provider_checks(b, amount) == register_provider_checks(p, amount)
            &&& register_provider_calls(b, amount) == register_provider_calls(p, amount)
            &&& register_provider_end(b, amount) == (match register_provider_end(p, amount) {
                Ok((t, event)) => Ok(
                    (RegisterProvider { config: repaused(t.config, paused), ..t }, event),
                ),
                Err(error) => Err(error),
            })
        }),
        ({
            let b = SlashProvider { config: repaused(q.config, paused), ..q };
            &&& b.constraints() == q.constraints()
            &&& slash_provider_checks(b, amount) == slash_provider_checks(q, amount)
            &&& slash_provider_calls(b, amount) == slash_provider_calls(q, amount)
            &&& slash_provider_end(b, amount, reputation_penalty) == (match slash_provider_end(
                q,
                amount,
                reputation_penalty,
            ) {
                Ok((t, event)) => Ok(
                    (SlashProvider { config: repaused(t.config, paused), ..t }, event),
                ),
                Err(error) => Err(error),
            })
        }),
{
}

/// A pause does not stand against the admin's other instructions.
pub proof fn pause_leaves_administration(a: AdminOnly, c: CloseConfig, paused: bool)
    ensures
        (AdminOnly { config: repaused(a.config, paused), ..a }).constraints() == a.constraints(),
        (CloseConfig { config: repaused(c.config, paused), ..c }).constraints() == c.constraints(),
        forall|usdc_mint: Pubkey, cnsnet_mint: Pubkey|
            mints_checks(with_paused(a.config.data, paused), usdc_mint, cnsnet_mint)
                == mints_checks(a.config.data, usdc_mint, cnsnet_mint),
{
}

// ---- the life of a job ----

/// What the requester and the provider agreed on: everything but the progress.
pub open spec fn same_terms(a: Job, b: Job) -> bool {
    &&& a.requester == b.requester
    &&& a.mint == b.mint
    &&& a.amount == b.amount
    &&& a.nonce == b.nonce
    &&& a.params_hash == b.params_hash
    &&& a.model_hash == b.model_hash
    &&& a.created_at == b.created_at
    &&& a.bump == b.bump
}

/// Routing and delivery never touch the terms of a job, and delivery never its
/// provider.
pub proof fn terms_never_change(job: Job, provider: Pubkey, output_phash: [u8; 32], now: i64)
    ensures
        same_terms(job, assigned(job, provider, now)),
        same_terms(job, delivered(job, output_phash, now)),
        delivered(job, output_phash, now).provider == job.provider,
        delivered(job, output_phash, now).assigned_at == job.assigned_at,
{
}

/// A job goes from open to assigned to delivered, one step at a time: each step
/// is allowed in one status only and can be taken once.
pub proof fn status_moves_forward(
    job: Job,
    provider: Provider,
    other: Provider,
    key: Pubkey,
    output_phash: [u8; 32],
    now: i64,
)
    ensures
        assign_job_checks(job, provider) is Ok ==> job.status == STATUS_OPEN,
        deliver_job_checks(job) is Ok <==> job.status == STATUS_ASSIGNED,
        deliver_job_checks(assigned(job, key, now)) is Ok,
        assign_job_checks(assigned(job, key, now), other) == Err::<(), CanasError>(
            CanasError::BadStatus,
        ),
        deliver_job_checks(delivered(job, output_phash, now)) == Err::<(), CanasError>(
            CanasError::BadStatus,
        ),
        assign_job_checks(delivered(job, output_phash, now), other) == Err::<(), CanasError>(
            CanasError::BadStatus,
        ),
{
}

/// Only a delivered job is settled, only an open one is cancelled, and only one
/// in a provider's hands is refunded; only the requester and the admin can do so.
pub proof fn closing_needs_status_and_standing(
    s: SettleJob,
    c: CancelJob,
    r: RefundJob,
    now: i64,
)
    ensures
        settle_job_checks(s, now) is Ok ==> s.job.data.status == STATUS_DELIVERED && (s.authority
            == s.job.data.requester || s.authority == s.config.data.admin),
        cancel_job_checks(c) is Ok ==> c.job.data.status == STATUS_OPEN && (c.authority
            == c.job.data.requester || c.authority == c.config.data.admin),
        refund_job_checks(r, now) is Ok ==> (r.job.data.status == STATUS_ASSIGNED
            || r.job.data.status == STATUS_DELIVERED) && (r.authority == r.job.data.requester
            || r.authority == r.config.data.admin),
{
}

/// The dispute window binds: an admin that is not the requester settles, and a
/// requester that is not the admin gets a refund, only once it has elapsed; a
/// delivered job is refunded by the admin alone.
pub proof fn window_binds(s: SettleJob, r: RefundJob, now: i64)
    ensures
        settle_job_checks(s, now) is Ok && s.authority != s.job.data.requester ==> now
            >= s.job.data.delivered_at + s.config.data.dispute_window,
        refund_job_checks(r, now) is Ok && r.authority != r.config.data.admin ==> {
            &&& r.job.data.status == STATUS_ASSIGNED
            &&& now >= r.job.data.assigned_at + r.config.data.dispute_window
        },
{
}

// ---- providers ----

/// A provider that has lost its whole stake gets no further job, also after it
/// has topped its bond up.
pub proof fn slashed_out_provider_gets_no_job(
    provider: Provider,
    amount: u64,
    penalty: u32,
    job: Job,
    t: TopUpBond,
    addition: u64,
)
    requires
        amount >= provider.bond,
    ensures
        slashed(provider, amount, penalty).bond == 0,
        assign_job_checks(job, slashed(provider, amount, penalty)) is Err,
        t.provider.data == slashed(provider, amount, penalty) ==> (top_up_bond_end(
            t,
            addition,
        ) matches Ok((b, _)) ==> assign_job_checks(job, b.provider.data) is Err),
{
}

/// A job that is assigned and then settled or refunded leaves the provider with as
/// many jobs in flight as before.
pub proof fn closing_a_job_releases_its_provider(
    provider: Provider,
    job: Job,
    amount: u64,
    penalty: u32,
)
    requires
        assign_job_checks(job, provider) is Ok,
    ensures
        occupied(provider).in_flight == provider.in_flight + 1,
        paid(occupied(provider), amount).in_flight == provider.in_flight,
        relieved(occupied(provider), penalty).in_flight == provider.in_flight,
{
}

} // verus!
