use canas::accounts::{
    AdminOnly, AssignJob, CancelJob, CloseConfig, CloseProvider, CreateJob, DeliverJob, Initialize,
    RefundJob, RegisterProvider, SettleJob, SlashProvider, TopUpBond,
};
use canas::address::{PdaSigner, Seeds};
use canas::errors::{CanasError, Constraint, Failure};
use canas::program;
use canas::state::{Account, Config, Job, Provider, TokenAccount};
use canas::token::{Step, TokenCall, TokenReply};
use canas::Pubkey;

fn key(n: u8) -> Pubkey {
    Pubkey { bytes: [n; 32] }
}

const ADMIN: u8 = 1;
const TREASURY: u8 = 2;
const USDC: u8 = 3;
const CNSNET: u8 = 4;
const REQUESTER: u8 = 6;
const AUTHORITY: u8 = 9;
const PAYOUT: u8 = 21;
const PROVIDER_TOKEN: u8 = 22;
const REQUESTER_TOKEN: u8 = 31;
const SLASH_TO: u8 = 41;

fn tokens(k: Pubkey, mint: u8, owner: Pubkey, amount: u64) -> Account<TokenAccount> {
    Account { key: k, data: TokenAccount { mint: key(mint), owner, amount } }
}

fn blank_config() -> Config {
    Config {
        admin: Pubkey::default(),
        treasury: Pubkey::default(),
        usdc_mint: Pubkey::default(),
        cnsnet_mint: Pubkey::default(),
        provider_bps: 0,
        verifier_bps: 0,
        protocol_bps: 0,
        dispute_window: 0,
        job_count: 0,
        total_settled: 0,
        paused: false,
        bump: 0,
    }
}

fn blank_provider() -> Provider {
    Provider {
        authority: Pubkey::default(),
        payout: Pubkey::default(),
        bond: 0,
        reputation: 0,
        jobs_done: 0,
        total_earned: 0,
        in_flight: 0,
        active: false,
        bump: 0,
    }
}

fn blank_job() -> Job {
    Job {
        requester: Pubkey::default(),
        provider: Pubkey::default(),
        mint: Pubkey::default(),
        amount: 0,
        nonce: 0,
        params_hash: [0; 32],
        model_hash: [0; 32],
        output_phash: [0; 32],
        created_at: 0,
        assigned_at: 0,
        delivered_at: 0,
        status: 0,
        bump: 0,
    }
}

/// Runs an instruction with every call completed; gives the calls and the outcome.
fn run<E>(
    mut step: impl FnMut(&Vec<TokenReply>) -> Result<Step<E>, Failure>,
) -> (Vec<TokenCall>, E) {
    let mut calls = vec![];
    let mut replies = vec![];
    loop {
        match step(&replies).unwrap() {
            Step::Call(call) => {
                calls.push(call);
                replies.push(TokenReply::Completed);
            }
            Step::Done(outcome) => return (calls, outcome),
        }
    }
}

fn drawn_from(calls: &Vec<TokenCall>, k: Pubkey) -> i128 {
    let mut sum: i128 = 0;
    for call in calls {
        if let TokenCall::Transfer { from, to, amount, .. } = call {
            if *from == k {
                sum += *amount as i128;
            }
            if *to == k {
                sum -= *amount as i128;
            }
        }
    }
    sum
}

/// Every call out of a vault carries the seeds that derive its authority.
fn rightly_signed(calls: &Vec<TokenCall>) -> bool {
    calls.iter().all(|call| {
        let (authority, signer): (Pubkey, Option<PdaSigner>) = match call {
            TokenCall::Transfer { authority, signer, .. } => (*authority, *signer),
            TokenCall::CloseAccount { authority, signer, .. } => (*authority, *signer),
        };
        signer.unwrap().is_at(&authority)
    })
}

struct World {
    config: Account<Config>,
    provider: Account<Provider>,
    bond_vault: Account<TokenAccount>,
}

/// A configuration with its mints and one provider with a bond of 60.
fn world() -> World {
    let (config_at, config_bump) = Seeds::Config.find().unwrap();
    let mut a = Initialize {
        config: Account { key: config_at, data: blank_config() },
        config_bump,
        admin: key(ADMIN),
    };
    assert_eq!(a.validate(), Ok(()));
    assert_eq!(program::initialize(&mut a, key(TREASURY), 9_000, 700, 300, 100), Ok(()));
    let mut a = AdminOnly { config: a.config, admin: key(ADMIN) };
    assert_eq!(a.validate(), Ok(()));
    assert_eq!(program::set_mints(&mut a, key(USDC), key(CNSNET)), Ok(()));
    let config = a.config;

    let (provider_at, provider_bump) =
        Seeds::Provider { authority: key(AUTHORITY) }.find().unwrap();
    let (bond_at, _) = Seeds::Bond { provider: provider_at }.find().unwrap();
    let mut a = RegisterProvider {
        config,
        authority: key(AUTHORITY),
        cnsnet_mint: key(CNSNET),
        payout: tokens(key(PAYOUT), USDC, key(AUTHORITY), 0),
        provider: Account { key: provider_at, data: blank_provider() },
        provider_bump,
        bond_vault: tokens(bond_at, CNSNET, provider_at, 0),
        provider_token: tokens(key(PROVIDER_TOKEN), CNSNET, key(AUTHORITY), 500),
    };
    assert_eq!(a.validate(), Ok(()));
    let (calls, _) = run(|replies| program::register_provider(&mut a, 60, replies));
    assert_eq!(drawn_from(&calls, bond_at), -60);
    assert_eq!(drawn_from(&calls, key(PROVIDER_TOKEN)), 60);
    World { config, provider: a.provider, bond_vault: tokens(bond_at, CNSNET, provider_at, 60) }
}

/// The accounts of a new job of the requester.
fn new_job(w: &World) -> CreateJob {
    let seeds = Seeds::Job { requester: key(REQUESTER), nonce: w.config.data.job_count };
    let (job_at, job_bump) = seeds.find().unwrap();
    let (vault_at, _) = Seeds::Vault { job: job_at }.find().unwrap();
    CreateJob {
        config: w.config,
        requester: key(REQUESTER),
        mint: key(USDC),
        job: Account { key: job_at, data: blank_job() },
        job_bump,
        vault: tokens(vault_at, USDC, job_at, 0),
        requester_token: tokens(key(REQUESTER_TOKEN), USDC, key(REQUESTER), 5_000),
    }
}

/// Opens a job of 1000; gives the job and its vault.
fn open(w: &mut World, now: i64) -> (Account<Job>, Account<TokenAccount>) {
    let mut a = new_job(w);
    assert_eq!(a.validate(), Ok(()));
    let (calls, _) =
        run(|replies| program::create_job(&mut a, 1_000, [51; 32], [52; 32], now, replies));
    assert_eq!(drawn_from(&calls, a.vault.key), -1_000);
    w.config = a.config;
    (a.job, tokens(a.vault.key, USDC, a.job.key, 1_000))
}

fn assign(w: &mut World, job: Account<Job>, now: i64) -> Account<Job> {
    let mut a =
        AssignJob { config: w.config, admin: key(ADMIN), job, provider: w.provider };
    assert_eq!(a.validate(), Ok(()));
    assert!(program::assign_job(&mut a, now).is_ok());
    w.provider = a.provider;
    a.job
}

fn deliver(w: &World, job: Account<Job>, now: i64) -> Account<Job> {
    let mut a = DeliverJob { authority: key(AUTHORITY), job, provider: w.provider };
    assert_eq!(a.validate(), Ok(()));
    assert!(program::deliver_job(&mut a, [53; 32], now).is_ok());
    a.job
}

fn settle(w: &World, job: Account<Job>, vault: Account<TokenAccount>, signer: u8) -> SettleJob {
    SettleJob {
        config: w.config,
        authority: key(signer),
        requester: key(REQUESTER),
        job,
        vault,
        provider: w.provider,
        provider_payout: tokens(key(PAYOUT), USDC, key(AUTHORITY), 0),
        treasury: tokens(key(TREASURY), USDC, key(ADMIN), 0),
    }
}

fn close(w: &World) -> CloseProvider {
    CloseProvider {
        authority: key(AUTHORITY),
        provider: w.provider,
        bond_vault: w.bond_vault,
        provider_token: tokens(key(PROVIDER_TOKEN), CNSNET, key(AUTHORITY), 440),
    }
}

#[test]
fn job_is_opened_assigned_delivered_and_settled() {
    let mut w = world();
    let (job, mut vault) = open(&mut w, 10);
    let terms = job.data;
    let job = assign(&mut w, job, 20);
    assert_eq!(w.provider.data.in_flight, 1);
    assert_eq!(
        program::close_provider(&close(&w), &vec![]),
        Err(Failure::Program(CanasError::JobsInFlight))
    );
    let job = deliver(&w, job, 30);
    assert!(job.data.requester == terms.requester && job.data.mint == terms.mint);
    assert_eq!(job.data.amount, terms.amount);
    assert_eq!(job.data.nonce, terms.nonce);
    assert_eq!(job.data.params_hash, terms.params_hash);
    assert_eq!(job.data.model_hash, terms.model_hash);

    // A donation does not stand in the way.
    vault.data.amount += 17;
    let mut a = settle(&w, job, vault, REQUESTER);
    assert_eq!(a.validate(), Ok(()));
    let (calls, outcome) = run(|replies| program::settle_job(&mut a, 40, replies));
    assert!(rightly_signed(&calls));
    assert_eq!(drawn_from(&calls, vault.key), 1_017);
    assert_eq!(drawn_from(&calls, key(PAYOUT)), -900);
    assert_eq!(drawn_from(&calls, key(TREASURY)), -117);
    let e = outcome.event;
    assert_eq!(e.provider_amt + e.verifier_amt + e.protocol_amt, 1_017);
    w.provider = a.provider;
    w.config = a.config;
    assert_eq!(w.provider.data.in_flight, 0);
    assert_eq!(w.config.data.total_settled, 1_000);
    assert!(w.config.data.usdc_mint == key(USDC) && w.config.data.cnsnet_mint == key(CNSNET));

    let a = close(&w);
    assert_eq!(a.validate(), Ok(()));
    let (calls, closed) = run(|replies| program::close_provider(&a, replies));
    assert!(rightly_signed(&calls));
    assert_eq!(drawn_from(&calls, w.bond_vault.key), 60);
    assert_eq!(drawn_from(&calls, key(PROVIDER_TOKEN)), -60);
    assert!(closed.account == w.provider.key && closed.rent_to == key(AUTHORITY));
}

#[test]
fn paused_market_opens_no_job_but_closes_them() {
    let mut w = world();
    let (open_job, open_vault) = open(&mut w, 10);
    let (second, second_vault) = open(&mut w, 11);
    assert!(open_job.key != second.key);
    assert_eq!(second.data.nonce, 1);
    let mut a = AdminOnly { config: w.config, admin: key(ADMIN) };
    assert_eq!(program::set_paused(&mut a, true), Ok(()));
    w.config = a.config;
    let mut a = new_job(&w);
    assert_eq!(a.validate(), Ok(()));
    assert_eq!(
        program::create_job(&mut a, 1_000, [51; 32], [52; 32], 12, &vec![]),
        Err(Failure::Program(CanasError::Paused))
    );
    let second = assign(&mut w, second, 20);

    let a = CancelJob {
        config: w.config,
        authority: key(REQUESTER),
        requester: key(REQUESTER),
        job: open_job,
        vault: open_vault,
        requester_token: tokens(key(REQUESTER_TOKEN), USDC, key(REQUESTER), 0),
    };
    assert_eq!(a.validate(), Ok(()));
    let (calls, _) = run(|replies| program::cancel_job(&a, replies));
    assert!(rightly_signed(&calls));
    assert_eq!(drawn_from(&calls, open_vault.key), 1_000);
    assert_eq!(drawn_from(&calls, key(REQUESTER_TOKEN)), -1_000);

    let mut a = RefundJob {
        config: w.config,
        authority: key(REQUESTER),
        requester: key(REQUESTER),
        job: second,
        vault: second_vault,
        provider: w.provider,
        requester_token: tokens(key(REQUESTER_TOKEN), USDC, key(REQUESTER), 0),
    };
    assert_eq!(a.validate(), Ok(()));
    let (calls, _) = run(|replies| program::refund_job(&mut a, 100, 120, replies));
    assert!(rightly_signed(&calls));
    assert_eq!(drawn_from(&calls, second_vault.key), 1_000);
    assert_eq!(a.provider.data.in_flight, 0);
    assert_eq!(a.provider.data.reputation, 8_900);
}

fn slash(w: &World, signer: u8) -> SlashProvider {
    SlashProvider {
        config: w.config,
        admin: key(signer),
        provider: w.provider,
        bond_vault: w.bond_vault,
        slash_destination: tokens(key(SLASH_TO), CNSNET, key(ADMIN), 0),
    }
}

#[test]
fn paused_market_still_registers_and_slashes() {
    let mut w = world();
    let mut a = AdminOnly { config: w.config, admin: key(ADMIN) };
    assert_eq!(program::set_paused(&mut a, true), Ok(()));
    w.config = a.config;
    let (provider_at, provider_bump) = Seeds::Provider { authority: key(8) }.find().unwrap();
    let (bond_at, _) = Seeds::Bond { provider: provider_at }.find().unwrap();
    let mut a = RegisterProvider {
        config: w.config,
        authority: key(8),
        cnsnet_mint: key(CNSNET),
        payout: tokens(key(23), USDC, key(8), 0),
        provider: Account { key: provider_at, data: blank_provider() },
        provider_bump,
        bond_vault: tokens(bond_at, CNSNET, provider_at, 0),
        provider_token: tokens(key(24), CNSNET, key(8), 500),
    };
    assert_eq!(a.validate(), Ok(()));
    let (_, event) = run(|replies| program::register_provider(&mut a, 70, replies));
    assert_eq!(event.bond, 70);
    let mut a = slash(&w, ADMIN);
    assert_eq!(a.validate(), Ok(()));
    let (_, event) = run(|replies| program::slash_provider(&mut a, 60, 10, replies));
    assert_eq!(event.new_bond, 0);
}

#[test]
fn slashed_bond_leaves_the_vault() {
    let w = world();
    let mut a = slash(&w, ADMIN);
    assert_eq!(a.validate(), Ok(()));
    let (calls, event) = run(|replies| program::slash_provider(&mut a, 25, 10, replies));
    assert!(rightly_signed(&calls));
    assert_eq!(drawn_from(&calls, w.bond_vault.key), 25);
    assert_eq!(event.new_bond, 35);
    assert_eq!(a.provider.data.bond, 35);
}

#[test]
fn admin_role_is_handed_over() {
    let mut w = world();
    let (job, _) = open(&mut w, 10);
    let mut a = AdminOnly { config: w.config, admin: key(ADMIN) };
    assert_eq!(program::set_admin(&mut a, key(77)), Ok(()));
    let has_one = Err(Failure::Constraint(Constraint::HasOne));
    assert_eq!(a.validate(), has_one);
    assert_eq!(program::set_admin(&mut a, key(ADMIN)), has_one);
    a.admin = key(77);
    assert_eq!(a.validate(), Ok(()));
    w.config = a.config;

    assert!(slash(&w, ADMIN).validate().is_err());
    assert_eq!(slash(&w, 77).validate(), Ok(()));
    let a = AssignJob { config: w.config, admin: key(ADMIN), job, provider: w.provider };
    assert!(a.validate().is_err());
    assert_eq!(AssignJob { admin: key(77), ..a }.validate(), Ok(()));
    let a = CloseConfig { config: w.config, admin: key(ADMIN) };
    assert!(a.validate().is_err());
    assert_eq!(CloseConfig { admin: key(77), ..a }.validate(), Ok(()));
}

#[test]
fn closed_job_does_not_come_back() {
    let mut w = world();
    let (first, vault) = open(&mut w, 10);
    let a = CancelJob {
        config: w.config,
        authority: key(REQUESTER),
        requester: key(REQUESTER),
        job: first,
        vault,
        requester_token: tokens(key(REQUESTER_TOKEN), USDC, key(REQUESTER), 0),
    };
    assert_eq!(a.validate(), Ok(()));
    let (_, outcome) = run(|replies| program::cancel_job(&a, replies));
    assert!(outcome.closed.account == first.key);
    assert!(first.data.nonce < w.config.data.job_count);

    // The address of the closed job is no place for the next one.
    let mut again = new_job(&w);
    assert_eq!(again.validate(), Ok(()));
    again.job.key = first.key;
    again.job_bump = first.data.bump;
    again.vault = tokens(vault.key, USDC, first.key, 0);
    assert!(again.validate().is_err());

    let (second, second_vault) = open(&mut w, 50);
    assert_eq!(second.data.nonce, first.data.nonce + 1);
    assert!(second.key != first.key && second_vault.key != vault.key);
}

#[test]
fn mints_stay_while_a_job_and_a_bond_are_there() {
    let mut w = world();
    let (job, _) = open(&mut w, 10);
    let mut a = AdminOnly { config: w.config, admin: key(ADMIN) };
    let locked = Err(Failure::Program(CanasError::MintLocked));
    assert_eq!(program::set_mints(&mut a, key(5), key(CNSNET)), locked);
    assert_eq!(program::set_mints(&mut a, key(USDC), key(5)), locked);
    assert!(a.config.data.usdc_mint == job.data.mint);
}

#[test]
fn other_provider_s_record_does_not_deliver() {
    let mut w = world();
    let (job, _) = open(&mut w, 10);
    let job = assign(&mut w, job, 20);
    let (other_at, bump) = Seeds::Provider { authority: key(8) }.find().unwrap();
    let mut data = w.provider.data;
    data.authority = key(8);
    data.bump = bump;
    let a = DeliverJob { authority: key(8), job, provider: Account { key: other_at, data } };
    assert_eq!(a.validate(), Err(Failure::Program(CanasError::Unauthorized)));
}

#[test]
fn nobody_but_the_admin_administers() {
    let w = world();
    let has_one = Err(Failure::Constraint(Constraint::HasOne));
    let before = AdminOnly { config: w.config, admin: key(REQUESTER) };
    let mut a = before;
    assert_eq!(program::set_paused(&mut a, true), has_one);
    assert_eq!(program::set_admin(&mut a, key(REQUESTER)), has_one);
    assert_eq!(program::set_mints(&mut a, key(USDC), key(CNSNET)), has_one);
    assert_eq!(program::set_params(&mut a, 9_000, 700, 300, 5, key(REQUESTER)), has_one);
    assert_eq!(a, before);
    let mut a = CloseConfig { config: w.config, admin: key(REQUESTER) };
    assert_eq!(program::close_config(&a), Err(Failure::Constraint(Constraint::HasOne)));
    a.admin = key(ADMIN);
    let closed = program::close_config(&a).unwrap();
    assert!(closed.account == w.config.key && closed.rent_to == key(ADMIN));
}

#[test]
fn broken_rule_comes_before_the_checks() {
    let mut w = world();
    let seeds = Failure::Constraint(Constraint::Seeds);
    let (config_at, config_bump) = Seeds::Config.find().unwrap();
    let mut a = Initialize {
        config: Account { key: config_at, data: blank_config() },
        config_bump: config_bump.wrapping_sub(1),
        admin: key(ADMIN),
    };
    assert_eq!(program::initialize(&mut a, key(TREASURY), 1, 1, 1, -1), Err(seeds));
    a.config_bump = config_bump;
    assert_eq!(
        program::initialize(&mut a, key(TREASURY), 1, 1, 1, -1),
        Err(Failure::Program(CanasError::BadSplit))
    );

    let mut a = new_job(&w);
    a.vault.key = key(99);
    assert_eq!(program::create_job(&mut a, 0, [51; 32], [52; 32], 1, &vec![]), Err(seeds));
    let mut a = new_job(&w);
    assert_eq!(
        program::create_job(&mut a, 0, [51; 32], [52; 32], 1, &vec![]),
        Err(Failure::Program(CanasError::ZeroAmount))
    );

    let (job, vault) = open(&mut w, 10);
    let mut a = AssignJob { config: w.config, admin: key(REQUESTER), job, provider: w.provider };
    let has_one = Failure::Constraint(Constraint::HasOne);
    assert_eq!(program::assign_job(&mut a, 20), Err(has_one));
    assert_eq!(a.job, job);
    let mut a = settle(&w, job, vault, REQUESTER);
    a.requester = key(99);
    assert_eq!(
        program::settle_job(&mut a, 20, &vec![]),
        Err(Failure::Constraint(Constraint::Address))
    );
    let mut a = slash(&w, REQUESTER);
    assert_eq!(program::slash_provider(&mut a, 0, 0, &vec![]), Err(has_one));
    let mut a = close(&w);
    a.bond_vault.key = key(99);
    assert_eq!(program::close_provider(&a, &vec![]), Err(seeds));
}

#[test]
fn cancelling_gives_back_what_opening_took() {
    let mut w = world();
    let mut c = new_job(&w);
    let (paid, _) =
        run(|replies| program::create_job(&mut c, 1_000, [51; 32], [52; 32], 5, replies));
    w.config = c.config;
    let a = CancelJob {
        config: w.config,
        authority: key(REQUESTER),
        requester: key(REQUESTER),
        job: c.job,
        vault: tokens(c.vault.key, USDC, c.job.key, 1_000),
        requester_token: tokens(key(REQUESTER_TOKEN), USDC, key(REQUESTER), 4_000),
    };
    let (back, _) = run(|replies| program::cancel_job(&a, replies));
    for k in [key(REQUESTER_TOKEN), c.vault.key] {
        assert_eq!(drawn_from(&paid, k) + drawn_from(&back, k), 0);
    }
    assert_eq!(drawn_from(&back, key(REQUESTER_TOKEN)), -1_000);
}

#[test]
fn staking_costs_what_was_slashed() {
    let mut w = world();
    let mut t = TopUpBond {
        authority: key(AUTHORITY),
        provider: w.provider,
        bond_vault: w.bond_vault,
        provider_token: tokens(key(PROVIDER_TOKEN), CNSNET, key(AUTHORITY), 440),
    };
    let (added, _) = run(|replies| program::top_up_bond(&mut t, 40, replies));
    w.provider = t.provider;
    w.bond_vault.data.amount = 100;
    let mut q = slash(&w, ADMIN);
    let (taken, _) = run(|replies| program::slash_provider(&mut q, 25, 10, replies));
    w.provider = q.provider;
    w.bond_vault.data.amount = 75;
    let a = close(&w);
    let (back, _) = run(|replies| program::close_provider(&a, replies));
    let own = key(PROVIDER_TOKEN);
    let cost = 60 + drawn_from(&added, own) + drawn_from(&taken, own) + drawn_from(&back, own);
    assert_eq!(cost, 25);
    assert_eq!(drawn_from(&taken, key(SLASH_TO)), -25);
}

#[test]
fn two_slashes_are_one_of_their_sum() {
    let mut w = world();
    let mut once = slash(&w, ADMIN);
    run(|replies| program::slash_provider(&mut once, 60, 9_100, replies));
    let mut first = slash(&w, ADMIN);
    run(|replies| program::slash_provider(&mut first, 25, 100, replies));
    w.provider = first.provider;
    w.bond_vault.data.amount -= 25;
    let mut second = slash(&w, ADMIN);
    run(|replies| program::slash_provider(&mut second, 35, 9_000, replies));
    assert_eq!(second.provider, once.provider);
    assert_eq!(second.provider.data.bond, 0);
    assert!(!second.provider.data.active);
}

#[test]
fn bond_stays_covered_under_the_next_configuration() {
    let mut w = world();
    let (job, _) = open(&mut w, 10);
    let (second, _) = open(&mut w, 11);
    assert_eq!((job.data.nonce, second.data.nonce, w.config.data.job_count), (0, 1, 2));
    let job = assign(&mut w, job, 20);
    let a = CloseConfig { config: w.config, admin: key(ADMIN) };
    assert!(program::close_config(&a).is_ok());
    let mut a = Initialize {
        config: Account { key: w.config.key, data: blank_config() },
        config_bump: w.config.data.bump,
        admin: key(ADMIN),
    };
    assert_eq!(program::initialize(&mut a, key(TREASURY), 9_000, 700, 300, 100), Ok(()));
    w.config = a.config;
    assert_eq!(w.config.data.job_count, 0);

    // Record, vault and count are as before, and the job goes on.
    assert!(w.provider.data.active && w.provider.data.bond == w.bond_vault.data.amount);
    assert_eq!(w.provider.data.in_flight, 1);
    let done = deliver(&w, job, 30);
    assert!(done.data.provider == job.data.provider);
    assert_eq!(done.data.assigned_at, job.data.assigned_at);
    assert_eq!(
        program::close_provider(&close(&w), &vec![]),
        Err(Failure::Program(CanasError::JobsInFlight))
    );
}
