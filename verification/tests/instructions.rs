use canas::accounts::{
    AdminOnly, AssignJob, CancelJob, CloseConfig, CloseProvider, CreateJob, DeliverJob,
    Initialize, RefundJob, RegisterProvider, SettleJob, SlashProvider, TopUpBond,
};
use canas::address::{PdaSigner, Seeds};
use canas::admin;
use canas::errors::{CanasError, Constraint, Failure};
use canas::events::{Closed, JobAssigned, JobCreated, JobDelivered, JobRefunded, JobSettled};
use canas::events::{Closing, ProviderRegistered, ProviderSlashed};
use canas::jobs;
use canas::providers;
use canas::state::{
    Account, Config, Job, Provider, TokenAccount, STATUS_ASSIGNED, STATUS_DELIVERED, STATUS_OPEN,
};
use canas::token::{next_call, Step, TokenCall, TokenReply};
use canas::Pubkey;

fn key(n: u8) -> Pubkey {
    Pubkey { bytes: [n; 32] }
}

const ADMIN: u8 = 1;
const TREASURY: u8 = 2;
const USDC: u8 = 3;
const CNSNET: u8 = 4;
const REQUESTER: u8 = 6;
const AUTHORITY: u8 = 9;
const CONFIG_AT: u8 = 11;
const PROVIDER_AT: u8 = 12;
const JOB_AT: u8 = 13;
const VAULT_AT: u8 = 14;
const BOND_AT: u8 = 15;
const PAYOUT: u8 = 21;
const PROVIDER_TOKEN: u8 = 22;
const REQUESTER_TOKEN: u8 = 31;
const STRANGER: u8 = 99;

const COMPLETED: TokenReply = TokenReply::Completed;
const REFUSED: TokenReply = TokenReply::Refused;

fn config() -> Account<Config> {
    Account {
        key: key(CONFIG_AT),
        data: Config {
            admin: key(ADMIN),
            treasury: key(TREASURY),
            usdc_mint: key(USDC),
            cnsnet_mint: key(CNSNET),
            provider_bps: 9_000,
            verifier_bps: 700,
            protocol_bps: 300,
            dispute_window: 100,
            job_count: 7,
            total_settled: 40,
            paused: false,
            bump: 250,
        },
    }
}

fn provider() -> Account<Provider> {
    Account {
        key: key(PROVIDER_AT),
        data: Provider {
            authority: key(AUTHORITY),
            payout: key(PAYOUT),
            bond: 60,
            reputation: 9_000,
            jobs_done: 5,
            total_earned: 1_000,
            in_flight: 1,
            active: true,
            bump: 251,
        },
    }
}

fn job(status: u8) -> Account<Job> {
    Account {
        key: key(JOB_AT),
        data: Job {
            requester: key(REQUESTER),
            provider: if status == STATUS_OPEN { Pubkey::default() } else { key(PROVIDER_AT) },
            mint: key(USDC),
            amount: 1_000,
            nonce: 3,
            params_hash: [51; 32],
            model_hash: [52; 32],
            output_phash: if status == STATUS_DELIVERED { [53; 32] } else { [0; 32] },
            created_at: 10,
            assigned_at: if status == STATUS_OPEN { 0 } else { 20 },
            delivered_at: if status == STATUS_DELIVERED { 30 } else { 0 },
            status,
            bump: 252,
        },
    }
}

fn tokens(k: u8, mint: u8, owner: u8, amount: u64) -> Account<TokenAccount> {
    Account { key: key(k), data: TokenAccount { mint: key(mint), owner: key(owner), amount } }
}

fn job_signer() -> Option<PdaSigner> {
    Some(PdaSigner { seeds: Seeds::Job { requester: key(REQUESTER), nonce: 3 }, bump: 252 })
}

fn provider_signer() -> Option<PdaSigner> {
    Some(PdaSigner { seeds: Seeds::Provider { authority: key(AUTHORITY) }, bump: 251 })
}

fn out_of_vault(to: u8, amount: u64) -> TokenCall {
    TokenCall::Transfer {
        from: key(VAULT_AT),
        to: key(to),
        authority: key(JOB_AT),
        signer: job_signer(),
        amount,
    }
}

fn close_vault() -> TokenCall {
    TokenCall::CloseAccount {
        account: key(VAULT_AT),
        destination: key(REQUESTER),
        authority: key(JOB_AT),
        signer: job_signer(),
    }
}

fn failure<T>(error: CanasError) -> Result<Step<T>, Failure> {
    Err(Failure::Program(error))
}

// ---- configuration ----

fn fresh() -> Initialize {
    let mut config = config();
    config.data.job_count = 99;
    Initialize { config, config_bump: 249, admin: key(ADMIN) }
}

#[test]
fn initialize_writes_a_fresh_config() {
    let mut a = fresh();
    assert_eq!(admin::initialize(&mut a, key(TREASURY), 9_000, 700, 300, 0), Ok(()));
    assert_eq!(
        a.config.data,
        Config {
            admin: key(ADMIN),
            treasury: key(TREASURY),
            usdc_mint: Pubkey::default(),
            cnsnet_mint: Pubkey::default(),
            provider_bps: 9_000,
            verifier_bps: 700,
            protocol_bps: 300,
            dispute_window: 0,
            job_count: 0,
            total_settled: 0,
            paused: false,
            bump: 249,
        }
    );
}

#[test]
fn initialize_refuses_bad_params_and_changes_nothing() {
    let mut a = fresh();
    assert_eq!(
        admin::initialize(&mut a, key(TREASURY), 9_000, 700, 301, -1),
        Err(CanasError::BadSplit)
    );
    assert_eq!(
        admin::initialize(&mut a, key(TREASURY), u16::MAX, u16::MAX, u16::MAX, 0),
        Err(CanasError::BadSplit)
    );
    assert_eq!(
        admin::initialize(&mut a, key(TREASURY), 10_000, 0, 0, -1),
        Err(CanasError::BadWindow)
    );
    assert_eq!(a, fresh());
}

fn by_admin() -> AdminOnly {
    AdminOnly { config: config(), admin: key(ADMIN) }
}

#[test]
fn mints_are_set_once() {
    let mut a = by_admin();
    a.config.data.usdc_mint = Pubkey::default();
    a.config.data.cnsnet_mint = Pubkey::default();
    assert_eq!(admin::set_mints(&mut a, key(USDC), Pubkey::default()), Ok(()));
    assert_eq!(admin::set_mints(&mut a, key(USDC), key(CNSNET)), Ok(()));
    assert_eq!(a, by_admin());
    assert_eq!(admin::set_mints(&mut a, key(USDC), key(CNSNET)), Ok(()));
    assert_eq!(admin::set_mints(&mut a, key(5), key(CNSNET)), Err(CanasError::MintLocked));
    assert_eq!(admin::set_mints(&mut a, key(USDC), key(5)), Err(CanasError::MintLocked));
    assert_eq!(
        admin::set_mints(&mut a, key(USDC), Pubkey::default()),
        Err(CanasError::MintLocked)
    );
    assert_eq!(a, by_admin());
}

#[test]
fn params_are_replaced_together() {
    let mut a = by_admin();
    assert_eq!(admin::set_params(&mut a, 1, 2, 9_997, 5, key(8)), Ok(()));
    let mut expected = by_admin();
    expected.config.data.provider_bps = 1;
    expected.config.data.verifier_bps = 2;
    expected.config.data.protocol_bps = 9_997;
    expected.config.data.dispute_window = 5;
    expected.config.data.treasury = key(8);
    assert_eq!(a, expected);
    assert_eq!(
        admin::set_params(&mut a, 1, 2, 9_996, 5, key(8)),
        Err(CanasError::BadSplit)
    );
    assert_eq!(
        admin::set_params(&mut a, 1, 2, 9_997, i64::MIN, key(8)),
        Err(CanasError::BadWindow)
    );
    assert_eq!(a, expected);
}

#[test]
fn pause_and_admin_are_set() {
    let mut a = by_admin();
    assert_eq!(admin::set_paused(&mut a, true), Ok(()));
    assert!(a.config.data.paused);
    assert_eq!(admin::set_paused(&mut a, false), Ok(()));
    assert_eq!(a, by_admin());
    assert_eq!(admin::set_admin(&mut a, key(77)), Ok(()));
    assert!(a.config.data.admin == key(77));
}

#[test]
fn closed_config_pays_its_rent_to_the_admin() {
    let a = CloseConfig { config: config(), admin: key(ADMIN) };
    assert_eq!(
        admin::close_config(&a),
        Ok(Closed { account: key(CONFIG_AT), rent_to: key(ADMIN) })
    );
}

// ---- providers ----

fn registering() -> RegisterProvider {
    let mut provider = provider();
    provider.data.bond = 0;
    RegisterProvider {
        config: config(),
        authority: key(AUTHORITY),
        cnsnet_mint: key(CNSNET),
        payout: tokens(PAYOUT, USDC, AUTHORITY, 0),
        provider,
        provider_bump: 248,
        bond_vault: tokens(BOND_AT, CNSNET, PROVIDER_AT, 0),
        provider_token: tokens(PROVIDER_TOKEN, CNSNET, AUTHORITY, 500),
    }
}

#[test]
fn registration_stakes_the_bond_first() {
    let mut a = registering();
    assert_eq!(
        providers::register_provider(&mut a, 60, &vec![]),
        Ok(Step::Call(TokenCall::Transfer {
            from: key(PROVIDER_TOKEN),
            to: key(BOND_AT),
            authority: key(AUTHORITY),
            signer: None,
            amount: 60,
        }))
    );
    assert_eq!(a, registering());
    assert_eq!(
        providers::register_provider(&mut a, 60, &vec![COMPLETED]),
        Ok(Step::Done(ProviderRegistered {
            provider: key(PROVIDER_AT),
            authority: key(AUTHORITY),
            bond: 60,
        }))
    );
    assert_eq!(
        a.provider.data,
        Provider {
            authority: key(AUTHORITY),
            payout: key(PAYOUT),
            bond: 60,
            reputation: 9_000,
            jobs_done: 0,
            total_earned: 0,
            in_flight: 0,
            active: true,
            bump: 248,
        }
    );
}

#[test]
fn registration_is_refused_in_order() {
    let mut a = registering();
    a.payout.data.mint = key(5);
    assert_eq!(
        providers::register_provider(&mut a, 60, &vec![]),
        failure(CanasError::WrongMint)
    );
    assert_eq!(
        providers::register_provider(&mut a, 0, &vec![]),
        failure(CanasError::ZeroAmount)
    );
    a.config.data.cnsnet_mint = Pubkey::default();
    assert_eq!(
        providers::register_provider(&mut a, 0, &vec![]),
        failure(CanasError::MintNotSet)
    );
    let mut a = registering();
    assert_eq!(
        providers::register_provider(&mut a, 60, &vec![REFUSED]),
        Err(Failure::TokenRefused)
    );
    assert_eq!(a, registering());
}

fn topping_up() -> TopUpBond {
    TopUpBond {
        authority: key(AUTHORITY),
        provider: provider(),
        bond_vault: tokens(BOND_AT, CNSNET, PROVIDER_AT, 60),
        provider_token: tokens(PROVIDER_TOKEN, CNSNET, AUTHORITY, 500),
    }
}

#[test]
fn top_up_adds_to_the_bond() {
    let mut a = topping_up();
    assert_eq!(providers::top_up_bond(&mut a, 0, &vec![]), failure(CanasError::ZeroAmount));
    assert_eq!(
        providers::top_up_bond(&mut a, 5, &vec![]),
        Ok(Step::Call(TokenCall::Transfer {
            from: key(PROVIDER_TOKEN),
            to: key(BOND_AT),
            authority: key(AUTHORITY),
            signer: None,
            amount: 5,
        }))
    );
    assert_eq!(providers::top_up_bond(&mut a, 5, &vec![COMPLETED]), Ok(Step::Done(())));
    assert_eq!(a.provider.data.bond, 65);
}

#[test]
fn top_up_does_not_overflow() {
    let mut a = topping_up();
    let before = a;
    assert_eq!(
        providers::top_up_bond(&mut a, u64::MAX - 59, &vec![COMPLETED]),
        failure(CanasError::Overflow)
    );
    assert_eq!(a, before);
    assert_eq!(
        providers::top_up_bond(&mut a, u64::MAX - 60, &vec![COMPLETED]),
        Ok(Step::Done(()))
    );
    assert_eq!(a.provider.data.bond, u64::MAX);
}

fn closing_provider(in_flight: u32, held: u64) -> CloseProvider {
    let mut provider = provider();
    provider.data.in_flight = in_flight;
    CloseProvider {
        authority: key(AUTHORITY),
        provider,
        bond_vault: tokens(BOND_AT, CNSNET, PROVIDER_AT, held),
        provider_token: tokens(PROVIDER_TOKEN, CNSNET, AUTHORITY, 500),
    }
}

#[test]
fn closing_provider_returns_what_the_vault_holds() {
    let a = closing_provider(0, 75);
    let close = TokenCall::CloseAccount {
        account: key(BOND_AT),
        destination: key(AUTHORITY),
        authority: key(PROVIDER_AT),
        signer: provider_signer(),
    };
    let closed = Closed { account: key(PROVIDER_AT), rent_to: key(AUTHORITY) };
    assert_eq!(
        providers::close_provider(&a, &vec![]),
        Ok(Step::Call(TokenCall::Transfer {
            from: key(BOND_AT),
            to: key(PROVIDER_TOKEN),
            authority: key(PROVIDER_AT),
            signer: provider_signer(),
            amount: 75,
        }))
    );
    assert_eq!(providers::close_provider(&a, &vec![COMPLETED]), Ok(Step::Call(close)));
    assert_eq!(
        providers::close_provider(&a, &vec![COMPLETED, COMPLETED]),
        Ok(Step::Done(closed))
    );
    let empty = closing_provider(0, 0);
    assert_eq!(providers::close_provider(&empty, &vec![]), Ok(Step::Call(close)));
    assert_eq!(providers::close_provider(&empty, &vec![COMPLETED]), Ok(Step::Done(closed)));
}

#[test]
fn provider_with_jobs_in_flight_cannot_close() {
    assert_eq!(
        providers::close_provider(&closing_provider(1, 75), &vec![]),
        failure(CanasError::JobsInFlight)
    );
}

fn slashing(held: u64) -> SlashProvider {
    SlashProvider {
        config: config(),
        admin: key(ADMIN),
        provider: provider(),
        bond_vault: tokens(BOND_AT, CNSNET, PROVIDER_AT, held),
        slash_destination: tokens(41, CNSNET, ADMIN, 0),
    }
}

#[test]
fn slash_takes_bond_and_reputation() {
    let mut a = slashing(60);
    assert_eq!(
        providers::slash_provider(&mut a, 20, 500, &vec![]),
        Ok(Step::Call(TokenCall::Transfer {
            from: key(BOND_AT),
            to: key(41),
            authority: key(PROVIDER_AT),
            signer: provider_signer(),
            amount: 20,
        }))
    );
    assert_eq!(
        providers::slash_provider(&mut a, 20, 500, &vec![COMPLETED]),
        Ok(Step::Done(ProviderSlashed { provider: key(PROVIDER_AT), amount: 20, new_bond: 40 }))
    );
    assert_eq!(a.provider.data.bond, 40);
    assert_eq!(a.provider.data.reputation, 8_500);
    assert!(a.provider.data.active);
}

#[test]
fn slash_to_nothing_deactivates_for_good() {
    let mut a = slashing(90);
    assert_eq!(
        providers::slash_provider(&mut a, 80, u32::MAX, &vec![COMPLETED]),
        Ok(Step::Done(ProviderSlashed { provider: key(PROVIDER_AT), amount: 80, new_bond: 0 }))
    );
    assert_eq!(a.provider.data.reputation, 0);
    assert!(!a.provider.data.active);
    let mut t = TopUpBond { provider: a.provider, ..topping_up() };
    assert_eq!(providers::top_up_bond(&mut t, 5, &vec![COMPLETED]), Ok(Step::Done(())));
    let mut r = AssignJob {
        config: config(),
        admin: key(ADMIN),
        job: job(STATUS_OPEN),
        provider: t.provider,
    };
    assert_eq!(jobs::assign_job(&mut r, 20), Err(CanasError::ProviderInactive));
}

#[test]
fn slash_is_bounded_by_the_vault() {
    let mut a = slashing(60);
    assert_eq!(
        providers::slash_provider(&mut a, 0, 1, &vec![]),
        failure(CanasError::ZeroAmount)
    );
    assert_eq!(
        providers::slash_provider(&mut a, 61, 1, &vec![]),
        failure(CanasError::InsufficientBond)
    );
    assert_eq!(a, slashing(60));
}

// ---- jobs ----

fn creating() -> CreateJob {
    CreateJob {
        config: config(),
        requester: key(REQUESTER),
        mint: key(USDC),
        job: job(STATUS_DELIVERED),
        job_bump: 247,
        vault: tokens(VAULT_AT, USDC, JOB_AT, 0),
        requester_token: tokens(REQUESTER_TOKEN, USDC, REQUESTER, 5_000),
    }
}

#[test]
fn new_job_locks_the_payment() {
    let mut a = creating();
    assert_eq!(
        jobs::create_job(&mut a, 1_000, [51; 32], [52; 32], 10, &vec![]),
        Ok(Step::Call(TokenCall::Transfer {
            from: key(REQUESTER_TOKEN),
            to: key(VAULT_AT),
            authority: key(REQUESTER),
            signer: None,
            amount: 1_000,
        }))
    );
    assert_eq!(a, creating());
    assert_eq!(
        jobs::create_job(&mut a, 1_000, [51; 32], [52; 32], 10, &vec![COMPLETED]),
        Ok(Step::Done(JobCreated {
            job: key(JOB_AT),
            requester: key(REQUESTER),
            amount: 1_000,
            nonce: 7,
        }))
    );
    let mut expected = job(STATUS_OPEN).data;
    expected.nonce = 7;
    expected.bump = 247;
    assert_eq!(a.job.data, expected);
    assert_eq!(a.config.data.job_count, 8);
}

#[test]
fn new_job_is_refused_in_order() {
    let mut a = creating();
    let mut attempt = |a: &mut CreateJob, amount: u64| {
        jobs::create_job(a, amount, [0; 32], [0; 32], 10, &vec![COMPLETED])
    };
    assert_eq!(attempt(&mut a, 0), failure(CanasError::ZeroAmount));
    a.config.data.job_count = u64::MAX;
    let before = a;
    assert_eq!(attempt(&mut a, 1), failure(CanasError::Overflow));
    assert_eq!(a, before);
    a.config.data.usdc_mint = Pubkey::default();
    assert_eq!(attempt(&mut a, 0), failure(CanasError::MintNotSet));
    a.config.data.paused = true;
    assert_eq!(attempt(&mut a, 0), failure(CanasError::Paused));
}

fn assigning(status: u8) -> AssignJob {
    AssignJob { config: config(), admin: key(ADMIN), job: job(status), provider: provider() }
}

#[test]
fn open_job_is_assigned() {
    let mut a = assigning(STATUS_OPEN);
    assert_eq!(
        jobs::assign_job(&mut a, 20),
        Ok(JobAssigned { job: key(JOB_AT), provider: key(PROVIDER_AT) })
    );
    assert_eq!(a.job, job(STATUS_ASSIGNED));
    assert_eq!(a.provider.data.in_flight, 2);
}

#[test]
fn assignment_is_refused_in_order() {
    let mut a = assigning(STATUS_ASSIGNED);
    a.provider.data.active = false;
    a.provider.data.in_flight = u32::MAX;
    assert_eq!(jobs::assign_job(&mut a, 20), Err(CanasError::BadStatus));
    a.job = job(STATUS_OPEN);
    assert_eq!(jobs::assign_job(&mut a, 20), Err(CanasError::ProviderInactive));
    a.provider.data.active = true;
    let before = a;
    assert_eq!(jobs::assign_job(&mut a, 20), Err(CanasError::Overflow));
    assert_eq!(a, before);
}

#[test]
fn assigned_job_is_delivered_once() {
    let mut a = DeliverJob {
        authority: key(AUTHORITY),
        job: job(STATUS_ASSIGNED),
        provider: provider(),
    };
    assert_eq!(
        jobs::deliver_job(&mut a, [53; 32], 30),
        Ok(JobDelivered { job: key(JOB_AT), output_phash: [53; 32] })
    );
    assert_eq!(a.job, job(STATUS_DELIVERED));
    assert_eq!(jobs::deliver_job(&mut a, [54; 32], 31), Err(CanasError::BadStatus));
    assert_eq!(a.job, job(STATUS_DELIVERED));
    a.job = job(STATUS_OPEN);
    assert_eq!(jobs::deliver_job(&mut a, [54; 32], 31), Err(CanasError::BadStatus));
}

fn settling(signer: u8, held: u64) -> SettleJob {
    SettleJob {
        config: config(),
        authority: key(signer),
        requester: key(REQUESTER),
        job: job(STATUS_DELIVERED),
        vault: tokens(VAULT_AT, USDC, JOB_AT, held),
        provider: provider(),
        provider_payout: tokens(PAYOUT, USDC, AUTHORITY, 0),
        treasury: tokens(TREASURY, USDC, ADMIN, 0),
    }
}

fn settled(verifier_amt: u64, protocol_amt: u64) -> Closing<JobSettled> {
    Closing {
        event: JobSettled {
            job: key(JOB_AT),
            provider: key(PROVIDER_AT),
            provider_amt: 900,
            verifier_amt,
            protocol_amt,
        },
        closed: Closed { account: key(JOB_AT), rent_to: key(REQUESTER) },
    }
}

#[test]
fn settlement_splits_the_escrow() {
    let mut a = settling(REQUESTER, 1_000);
    let mut replies = vec![];
    assert_eq!(
        jobs::settle_job(&mut a, 0, &replies),
        Ok(Step::Call(out_of_vault(PAYOUT, 900)))
    );
    replies.push(COMPLETED);
    assert_eq!(
        jobs::settle_job(&mut a, 0, &replies),
        Ok(Step::Call(out_of_vault(TREASURY, 100)))
    );
    replies.push(COMPLETED);
    assert_eq!(jobs::settle_job(&mut a, 0, &replies), Ok(Step::Call(close_vault())));
    assert_eq!(a, settling(REQUESTER, 1_000));
    replies.push(COMPLETED);
    assert_eq!(jobs::settle_job(&mut a, 0, &replies), Ok(Step::Done(settled(70, 30))));
    assert_eq!(a.provider.data.jobs_done, 6);
    assert_eq!(a.provider.data.total_earned, 1_900);
    assert_eq!(a.provider.data.in_flight, 0);
    assert_eq!(a.provider.data.reputation, 9_002);
    assert_eq!(a.config.data.total_settled, 1_040);
}

#[test]
fn donation_to_the_vault_goes_to_the_treasury() {
    let mut a = settling(REQUESTER, 1_234);
    assert_eq!(
        jobs::settle_job(&mut a, 0, &vec![COMPLETED]),
        Ok(Step::Call(out_of_vault(TREASURY, 334)))
    );
    assert_eq!(
        jobs::settle_job(&mut a, 0, &vec![COMPLETED, COMPLETED, COMPLETED]),
        Ok(Step::Done(settled(70, 264)))
    );
}

#[test]
fn short_vault_is_settled_only_if_it_covers_the_provider() {
    let mut a = settling(REQUESTER, 930);
    assert_eq!(
        jobs::settle_job(&mut a, 0, &vec![COMPLETED, COMPLETED, COMPLETED]),
        Ok(Step::Done(settled(70, 0)))
    );
    let mut a = settling(REQUESTER, 899);
    assert_eq!(jobs::settle_job(&mut a, 0, &vec![]), failure(CanasError::Overflow));
}

#[test]
fn empty_parts_are_not_transferred() {
    let mut a = settling(REQUESTER, 900);
    assert_eq!(
        jobs::settle_job(&mut a, 0, &vec![COMPLETED]),
        Ok(Step::Call(close_vault()))
    );
    let mut a = settling(REQUESTER, 1_000);
    a.config.data.provider_bps = 0;
    a.config.data.protocol_bps = 9_300;
    assert_eq!(
        jobs::settle_job(&mut a, 0, &vec![]),
        Ok(Step::Call(out_of_vault(TREASURY, 1_000)))
    );
}

#[test]
fn shares_are_rounded_down_without_overflow() {
    let mut a = settling(REQUESTER, u64::MAX);
    a.job.data.amount = u64::MAX;
    a.config.data.provider_bps = 3_333;
    a.config.data.verifier_bps = 3_333;
    a.config.data.protocol_bps = 3_334;
    // floor(18446744073709551615 * 3333 / 10000)
    assert_eq!(
        jobs::settle_job(&mut a, 0, &vec![]),
        Ok(Step::Call(out_of_vault(PAYOUT, 6_148_299_799_767_393_553)))
    );
    a.provider.data.total_earned = 0;
    let done = jobs::settle_job(&mut a, 0, &vec![COMPLETED, COMPLETED, COMPLETED]);
    if let Ok(Step::Done(outcome)) = done {
        let e = outcome.event;
        let sum = e.provider_amt as u128 + e.verifier_amt as u128 + e.protocol_amt as u128;
        assert_eq!(sum, u64::MAX as u128);
        assert_eq!(e.verifier_amt, 6_148_299_799_767_393_553);
    } else {
        panic!("not settled");
    }
}

#[test]
fn admin_settles_after_the_window() {
    let mut a = settling(ADMIN, 1_000);
    assert_eq!(
        jobs::settle_job(&mut a, 129, &vec![]),
        failure(CanasError::WindowNotElapsed)
    );
    assert_eq!(
        jobs::settle_job(&mut a, 130, &vec![]),
        Ok(Step::Call(out_of_vault(PAYOUT, 900)))
    );
    a.job.data.requester = key(ADMIN);
    assert!(jobs::settle_job(&mut a, 0, &vec![]).is_ok());
}

#[test]
fn settlement_is_refused() {
    let mut a = settling(STRANGER, 1_000);
    assert_eq!(jobs::settle_job(&mut a, 500, &vec![]), failure(CanasError::Unauthorized));
    a.job = job(STATUS_ASSIGNED);
    assert_eq!(jobs::settle_job(&mut a, 500, &vec![]), failure(CanasError::BadStatus));
    let mut a = settling(REQUESTER, 1_000);
    assert_eq!(
        jobs::settle_job(&mut a, 500, &vec![COMPLETED, REFUSED]),
        Err(Failure::TokenRefused)
    );
    assert_eq!(a, settling(REQUESTER, 1_000));
}

#[test]
fn settlement_counters_do_not_overflow() {
    let all = vec![COMPLETED, COMPLETED, COMPLETED];
    let mut a = settling(REQUESTER, 1_000);
    a.provider.data.jobs_done = u64::MAX;
    assert_eq!(jobs::settle_job(&mut a, 0, &all), failure(CanasError::Overflow));
    let mut a = settling(REQUESTER, 1_000);
    a.provider.data.total_earned = u64::MAX - 899;
    assert_eq!(jobs::settle_job(&mut a, 0, &all), failure(CanasError::Overflow));
    let mut a = settling(REQUESTER, 1_000);
    a.config.data.total_settled = u128::MAX - 999;
    let before = a;
    assert_eq!(jobs::settle_job(&mut a, 0, &all), failure(CanasError::Overflow));
    assert_eq!(a, before);
}

#[test]
fn reputation_stops_at_its_maximum() {
    let all = vec![COMPLETED, COMPLETED, COMPLETED];
    for (before, after) in [(9_997, 9_999), (9_998, 10_000), (9_999, 10_000), (10_000, 10_000)] {
        let mut a = settling(REQUESTER, 1_000);
        a.provider.data.reputation = before;
        a.provider.data.in_flight = 0;
        assert!(jobs::settle_job(&mut a, 0, &all).is_ok());
        assert_eq!(a.provider.data.reputation, after);
        assert_eq!(a.provider.data.in_flight, 0);
    }
}

#[test]
fn window_that_ends_beyond_the_clock_never_elapses() {
    let mut a = settling(ADMIN, 1_000);
    a.config.data.dispute_window = i64::MAX;
    let before = a;
    assert_eq!(
        jobs::settle_job(&mut a, 1_000, &vec![]),
        failure(CanasError::WindowNotElapsed)
    );
    assert_eq!(
        jobs::settle_job(&mut a, i64::MAX, &vec![COMPLETED, COMPLETED, COMPLETED]),
        failure(CanasError::WindowNotElapsed)
    );
    assert_eq!(a, before);
    a.authority = key(REQUESTER);
    assert_eq!(
        jobs::settle_job(&mut a, 0, &vec![]),
        Ok(Step::Call(out_of_vault(PAYOUT, 900)))
    );
    let mut r = refunding(REQUESTER, STATUS_ASSIGNED, 1_000);
    r.config.data.dispute_window = i64::MAX;
    assert_eq!(
        jobs::refund_job(&mut r, 0, 1_000, &vec![]),
        failure(CanasError::WindowNotElapsed)
    );
    assert_eq!(
        jobs::refund_job(&mut r, 0, i64::MAX, &vec![COMPLETED, COMPLETED]),
        failure(CanasError::WindowNotElapsed)
    );
    r.authority = key(ADMIN);
    assert_eq!(
        jobs::refund_job(&mut r, 0, 1_000, &vec![]),
        Ok(Step::Call(out_of_vault(REQUESTER_TOKEN, 1_000)))
    );
}

fn cancelling(signer: u8, status: u8, held: u64) -> CancelJob {
    CancelJob {
        config: config(),
        authority: key(signer),
        requester: key(REQUESTER),
        job: job(status),
        vault: tokens(VAULT_AT, USDC, JOB_AT, held),
        requester_token: tokens(REQUESTER_TOKEN, USDC, REQUESTER, 0),
    }
}

fn refunded(amount: u64) -> Closing<JobRefunded> {
    Closing {
        event: JobRefunded { job: key(JOB_AT), amount },
        closed: Closed { account: key(JOB_AT), rent_to: key(REQUESTER) },
    }
}

#[test]
fn open_job_is_cancelled_in_full() {
    for signer in [REQUESTER, ADMIN] {
        let a = cancelling(signer, STATUS_OPEN, 1_001);
        assert_eq!(
            jobs::cancel_job(&a, &vec![]),
            Ok(Step::Call(out_of_vault(REQUESTER_TOKEN, 1_001)))
        );
        assert_eq!(jobs::cancel_job(&a, &vec![COMPLETED]), Ok(Step::Call(close_vault())));
        assert_eq!(
            jobs::cancel_job(&a, &vec![COMPLETED, COMPLETED]),
            Ok(Step::Done(refunded(1_001)))
        );
    }
    let a = cancelling(REQUESTER, STATUS_OPEN, 0);
    assert_eq!(jobs::cancel_job(&a, &vec![]), Ok(Step::Call(close_vault())));
    assert_eq!(jobs::cancel_job(&a, &vec![COMPLETED]), Ok(Step::Done(refunded(0))));
}

#[test]
fn cancellation_is_refused() {
    assert_eq!(
        jobs::cancel_job(&cancelling(STRANGER, STATUS_OPEN, 5), &vec![]),
        failure(CanasError::Unauthorized)
    );
    assert_eq!(
        jobs::cancel_job(&cancelling(STRANGER, STATUS_ASSIGNED, 5), &vec![]),
        failure(CanasError::BadStatus)
    );
}

fn refunding(signer: u8, status: u8, held: u64) -> RefundJob {
    RefundJob {
        config: config(),
        authority: key(signer),
        requester: key(REQUESTER),
        job: job(status),
        vault: tokens(VAULT_AT, USDC, JOB_AT, held),
        provider: provider(),
        requester_token: tokens(REQUESTER_TOKEN, USDC, REQUESTER, 0),
    }
}

#[test]
fn refund_releases_and_dings_the_provider() {
    let mut a = refunding(ADMIN, STATUS_DELIVERED, 1_000);
    assert_eq!(
        jobs::refund_job(&mut a, 250, 0, &vec![]),
        Ok(Step::Call(out_of_vault(REQUESTER_TOKEN, 1_000)))
    );
    assert_eq!(
        jobs::refund_job(&mut a, 250, 0, &vec![COMPLETED]),
        Ok(Step::Call(close_vault()))
    );
    assert_eq!(
        jobs::refund_job(&mut a, 250, 0, &vec![COMPLETED, COMPLETED]),
        Ok(Step::Done(refunded(1_000)))
    );
    assert_eq!(a.provider.data.in_flight, 0);
    assert_eq!(a.provider.data.reputation, 8_750);
    let mut a = refunding(ADMIN, STATUS_ASSIGNED, 0);
    assert_eq!(
        jobs::refund_job(&mut a, 9_001, 0, &vec![COMPLETED]),
        Ok(Step::Done(refunded(0)))
    );
    assert_eq!(a.provider.data.reputation, 0);
}

#[test]
fn requester_is_refunded_only_after_the_window() {
    let mut a = refunding(REQUESTER, STATUS_ASSIGNED, 1_000);
    assert_eq!(
        jobs::refund_job(&mut a, 0, 119, &vec![]),
        failure(CanasError::WindowNotElapsed)
    );
    assert_eq!(
        jobs::refund_job(&mut a, 0, 120, &vec![]),
        Ok(Step::Call(out_of_vault(REQUESTER_TOKEN, 1_000)))
    );
    let mut a = refunding(REQUESTER, STATUS_DELIVERED, 1_000);
    assert_eq!(jobs::refund_job(&mut a, 0, 900, &vec![]), failure(CanasError::Unauthorized));
    let mut a = refunding(STRANGER, STATUS_ASSIGNED, 1_000);
    assert_eq!(jobs::refund_job(&mut a, 0, 900, &vec![]), failure(CanasError::Unauthorized));
    let mut a = refunding(STRANGER, STATUS_OPEN, 1_000);
    assert_eq!(jobs::refund_job(&mut a, 0, 900, &vec![]), failure(CanasError::BadStatus));
}

// ---- rules about the accounts ----

#[test]
fn settlement_accounts_are_held_to_every_rule() {
    let good = settling(REQUESTER, 1_000);
    let wrong_mint = Err(Failure::Program(CanasError::WrongMint));
    let wrong_destination = Err(Failure::Program(CanasError::WrongDestination));
    let seeds = Err(Failure::Constraint(Constraint::Seeds));
    assert_eq!(good.check(true, true, true, true), Ok(()));
    assert_eq!(good.check(false, true, true, true), seeds);
    assert_eq!(good.check(true, false, true, true), seeds);
    assert_eq!(good.check(true, true, false, true), seeds);
    assert_eq!(good.check(true, true, true, false), seeds);
    let a = SettleJob { requester: key(STRANGER), ..good };
    assert_eq!(
        a.check(true, false, true, true),
        Err(Failure::Constraint(Constraint::Address))
    );
    let mut a = good;
    a.job.data.provider = key(STRANGER);
    assert_eq!(
        a.check(true, true, false, true),
        Err(Failure::Program(CanasError::Unauthorized))
    );
    let mut a = good;
    a.job.key = key(REQUESTER);
    assert_eq!(
        a.check(true, true, false, true),
        Err(Failure::Constraint(Constraint::Close))
    );
    let mut a = good;
    a.provider_payout = tokens(STRANGER, USDC, AUTHORITY, 0);
    assert_eq!(a.check(true, true, true, true), wrong_destination);
    a.provider_payout = tokens(STRANGER, CNSNET, AUTHORITY, 0);
    assert_eq!(a.check(true, true, true, true), wrong_mint);
    let mut a = good;
    a.treasury = tokens(STRANGER, USDC, ADMIN, 0);
    assert_eq!(a.check(true, true, true, true), wrong_destination);
    a.treasury = tokens(STRANGER, CNSNET, ADMIN, 0);
    assert_eq!(a.check(true, true, true, true), wrong_mint);
}

#[test]
fn refunds_go_to_the_requester_s_tokens() {
    let good = cancelling(REQUESTER, STATUS_OPEN, 5);
    assert_eq!(good.check(true, true, true), Ok(()));
    let mut a = good;
    a.requester_token = tokens(REQUESTER_TOKEN, CNSNET, REQUESTER, 0);
    assert_eq!(a.check(true, true, true), Err(Failure::Program(CanasError::WrongMint)));
    a.requester_token = tokens(REQUESTER_TOKEN, USDC, STRANGER, 0);
    assert_eq!(
        a.check(true, true, true),
        Err(Failure::Program(CanasError::WrongDestination))
    );
    let good = refunding(REQUESTER, STATUS_ASSIGNED, 5);
    assert_eq!(good.check(true, true, true, true), Ok(()));
    let mut a = good;
    a.requester_token = tokens(REQUESTER_TOKEN, CNSNET, REQUESTER, 0);
    assert_eq!(
        a.check(true, true, true, true),
        Err(Failure::Program(CanasError::WrongMint))
    );
    a.requester_token = tokens(REQUESTER_TOKEN, USDC, STRANGER, 0);
    assert_eq!(
        a.check(true, true, true, true),
        Err(Failure::Program(CanasError::WrongDestination))
    );
    a.job.data.provider = key(STRANGER);
    assert_eq!(
        a.check(true, true, true, true),
        Err(Failure::Program(CanasError::Unauthorized))
    );
}

#[test]
fn only_the_admin_assigns_and_slashes() {
    let a = AssignJob { admin: key(STRANGER), ..assigning(STATUS_OPEN) };
    let has_one = Err(Failure::Constraint(Constraint::HasOne));
    assert_eq!(a.check(true, true, true), has_one);
    assert_eq!(assigning(STATUS_OPEN).check(true, true, true), Ok(()));
    let a = SlashProvider { admin: key(STRANGER), ..slashing(60) };
    assert_eq!(a.check(true, true, true), has_one);
    let a = SlashProvider { slash_destination: tokens(41, USDC, ADMIN, 0), ..slashing(60) };
    assert_eq!(a.check(true, true, true), Err(Failure::Program(CanasError::WrongMint)));
    assert_eq!(slashing(60).check(true, true, true), Ok(()));
}

#[test]
fn only_the_assigned_provider_delivers() {
    let good = DeliverJob {
        authority: key(AUTHORITY),
        job: job(STATUS_ASSIGNED),
        provider: provider(),
    };
    assert_eq!(good.check(true, true), Ok(()));
    let mut a = good;
    a.job.data.provider = key(STRANGER);
    assert_eq!(a.check(true, true), Err(Failure::Program(CanasError::Unauthorized)));
    let a = DeliverJob { authority: key(STRANGER), ..good };
    assert_eq!(a.check(true, true), Err(Failure::Constraint(Constraint::HasOne)));
}

#[test]
fn provider_does_not_receive_its_own_rent() {
    let good = closing_provider(0, 5);
    assert_eq!(good.check(true, true), Ok(()));
    let mut a = good;
    a.provider.key = key(AUTHORITY);
    assert_eq!(a.check(true, true), Err(Failure::Constraint(Constraint::Close)));
    let a = CloseProvider { provider_token: tokens(PROVIDER_TOKEN, USDC, AUTHORITY, 0), ..good };
    assert_eq!(a.check(true, true), Err(Failure::Program(CanasError::WrongMint)));
    let a = CloseProvider { provider_token: tokens(PROVIDER_TOKEN, CNSNET, STRANGER, 0), ..good };
    assert_eq!(a.check(true, true), Err(Failure::Constraint(Constraint::TokenOwner)));
}

// ---- the rest ----

#[test]
fn next_call_follows_the_replies() {
    let calls = vec![out_of_vault(PAYOUT, 1), close_vault()];
    assert_eq!(next_call(&calls, &vec![]), Ok(Some(calls[0])));
    assert_eq!(next_call(&calls, &vec![COMPLETED]), Ok(Some(calls[1])));
    assert_eq!(next_call(&calls, &vec![COMPLETED, COMPLETED]), Ok(None));
    assert_eq!(next_call(&calls, &vec![REFUSED]), Err(Failure::TokenRefused));
    assert_eq!(next_call(&calls, &vec![COMPLETED, REFUSED]), Err(Failure::TokenRefused));
}

#[test]
fn stored_sizes() {
    assert_eq!(Config::SIZE, 168);
    assert_eq!(Provider::SIZE, 98);
    assert_eq!(Job::SIZE, 234);
}

#[test]
fn errors_have_their_texts() {
    assert_eq!(CanasError::BadSplit.msg(), "fee split must sum to 10000 bps");
    assert_eq!(CanasError::BadWindow.msg(), "dispute window must be non-negative");
    assert_eq!(CanasError::WindowNotElapsed.msg(), "dispute window has not elapsed");
    assert_eq!(CanasError::Overflow.msg(), "arithmetic overflow");
}
