use canas::accounts::{AdminOnly, CloseConfig, CreateJob, Initialize, RegisterProvider, TopUpBond};
use canas::address::{
    matches_derived, matches_found, matches_found_with, PdaSigner, Seeds,
};
use canas::errors::{CanasError, Constraint, Failure};
use canas::keys::id;
use canas::state::{Account, Config, Job, Provider, TokenAccount};
use canas::Pubkey;
use std::str::FromStr;

type ChainKey = anchor_lang::prelude::Pubkey;

fn key(n: u8) -> Pubkey {
    Pubkey { bytes: [n; 32] }
}

fn config(bump: u8) -> Config {
    Config {
        admin: key(1),
        treasury: key(2),
        usdc_mint: key(3),
        cnsnet_mint: key(4),
        provider_bps: 9_000,
        verifier_bps: 700,
        protocol_bps: 300,
        dispute_window: 100,
        job_count: 7,
        total_settled: 0,
        paused: false,
        bump,
    }
}

fn provider(authority: Pubkey, bump: u8) -> Provider {
    Provider {
        authority,
        payout: key(21),
        bond: 10,
        reputation: 9_000,
        jobs_done: 0,
        total_earned: 0,
        in_flight: 0,
        active: true,
        bump,
    }
}

fn tokens(k: Pubkey, mint: Pubkey, owner: Pubkey, amount: u64) -> Account<TokenAccount> {
    Account { key: k, data: TokenAccount { mint, owner, amount } }
}

fn blank_job() -> Job {
    Job {
        requester: Pubkey::default(),
        provider: Pubkey::default(),
        mint: Pubkey::default(),
        amount: 0,
        nonce: 0,
        params_hash: [0; 32],
        model_hash: [0; 32],
        output_phash: [0; 32],
        created_at: 0,
        assigned_at: 0,
        delivered_at: 0,
        status: 0,
        bump: 0,
    }
}

const SEEDS: Failure = Failure::Constraint(Constraint::Seeds);

#[test]
fn program_id_is_the_deployed_one() {
    let deployed = ChainKey::from_str("8e23bCyweHUVuiS3zhbhibuad5h6mXjwftTzPTjBomDq").unwrap();
    assert_eq!(id().bytes, deployed.to_bytes());
}

#[test]
fn unset_key_is_the_system_address() {
    assert_eq!(Pubkey::default().bytes, ChainKey::default().to_bytes());
    assert!(Pubkey::default() == Pubkey { bytes: [0; 32] });
    let mut last = [0u8; 32];
    last[31] = 1;
    assert!(Pubkey::default() != Pubkey { bytes: last });
}

#[test]
fn seeds_are_the_labels_and_the_fields() {
    assert_eq!(Seeds::Config.to_parts(), vec![b"config".to_vec()]);
    assert_eq!(
        Seeds::Provider { authority: key(5) }.to_parts(),
        vec![b"provider".to_vec(), vec![5; 32]]
    );
    assert_eq!(
        Seeds::Job { requester: key(6), nonce: 0x0102_0304_0506_0708 }.to_parts(),
        vec![b"job".to_vec(), vec![6; 32], vec![8, 7, 6, 5, 4, 3, 2, 1]]
    );
    assert_eq!(
        Seeds::Bond { provider: key(7) }.to_parts(),
        vec![b"bond".to_vec(), vec![7; 32]]
    );
    assert_eq!(
        Seeds::Vault { job: key(8) }.to_parts(),
        vec![b"vault".to_vec(), vec![8; 32]]
    );
    assert_eq!(
        PdaSigner { seeds: Seeds::Vault { job: key(8) }, bump: 254 }.to_parts(),
        vec![b"vault".to_vec(), vec![8; 32], vec![254]]
    );
}

#[test]
fn found_address_is_the_chain_s() {
    let program = ChainKey::new_from_array(id().bytes);
    let (chain_key, chain_bump) =
        ChainKey::find_program_address(&[b"job", &[6; 32], &9u64.to_le_bytes()], &program);
    let seeds = Seeds::Job { requester: key(6), nonce: 9 };
    let (found, bump) = seeds.find().unwrap();
    assert_eq!(found.bytes, chain_key.to_bytes());
    assert_eq!(bump, chain_bump);
    assert!(seeds.is_found(&found));
    assert!(seeds.is_found_with(&found, bump));
    assert!(!seeds.is_found_with(&found, bump.wrapping_add(1)));
    assert!(!seeds.is_found(&key(6)));
}

#[test]
fn found_bump_derives_the_found_address() {
    let seeds = Seeds::Provider { authority: key(9) };
    let (found, bump) = seeds.find().unwrap();
    let signer = PdaSigner { seeds, bump };
    assert_eq!(signer.address(), Some(found));
    assert!(signer.is_at(&found));
    assert!(!signer.is_at(&key(9)));
    assert!(!PdaSigner { seeds: Seeds::Provider { authority: key(10) }, bump }.is_at(&found));
}

#[test]
fn bump_above_the_found_one_derives_nothing() {
    // The search goes down from 255, so every higher bump failed.
    let mut seen = false;
    for n in 0..40u8 {
        let seeds = Seeds::Provider { authority: key(n) };
        let (_, bump) = seeds.find().unwrap();
        if bump < 255 {
            seen = true;
            assert_eq!(PdaSigner { seeds, bump: bump + 1 }.address(), None);
        }
    }
    assert!(seen);
}

#[test]
fn derivation_results_are_compared_as_a_whole() {
    assert!(matches_derived(Some(key(1)), &key(1)));
    assert!(!matches_derived(Some(key(2)), &key(1)));
    assert!(!matches_derived(None, &key(1)));
    assert!(matches_found(Some((key(1), 3)), &key(1)));
    assert!(!matches_found(Some((key(2), 3)), &key(1)));
    assert!(!matches_found(None, &key(1)));
    assert!(matches_found_with(Some((key(1), 3)), &key(1), 3));
    assert!(!matches_found_with(Some((key(1), 3)), &key(1), 4));
    assert!(!matches_found_with(Some((key(2), 3)), &key(1), 3));
    assert!(!matches_found_with(None, &key(1), 3));
}

#[test]
fn initialize_accounts_need_the_found_bump() {
    let (at, bump) = Seeds::Config.find().unwrap();
    let good = Initialize {
        config: Account { key: at, data: config(0) },
        config_bump: bump,
        admin: key(1),
    };
    assert_eq!(good.validate(), Ok(()));
    let wrong_bump = Initialize { config_bump: bump.wrapping_sub(1), ..good };
    assert_eq!(wrong_bump.validate(), Err(SEEDS));
    let elsewhere = Initialize { config: Account { key: key(5), data: config(0) }, ..good };
    assert_eq!(elsewhere.validate(), Err(SEEDS));
}

#[test]
fn admin_accounts_need_address_and_admin() {
    let (at, bump) = Seeds::Config.find().unwrap();
    let config = Account { key: at, data: config(bump) };
    assert_eq!(AdminOnly { config, admin: key(1) }.validate(), Ok(()));
    assert_eq!(
        AdminOnly { config, admin: key(2) }.validate(),
        Err(Failure::Constraint(Constraint::HasOne))
    );
    let elsewhere = Account { key: key(5), ..config };
    assert_eq!(AdminOnly { config: elsewhere, admin: key(2) }.validate(), Err(SEEDS));
}

#[test]
fn config_does_not_receive_its_own_rent() {
    let (at, bump) = Seeds::Config.find().unwrap();
    let mut data = config(bump);
    assert_eq!(
        CloseConfig { config: Account { key: at, data }, admin: key(1) }.validate(),
        Ok(())
    );
    data.admin = at;
    assert_eq!(
        CloseConfig { config: Account { key: at, data }, admin: at }.validate(),
        Err(Failure::Constraint(Constraint::Close))
    );
}

#[test]
fn registration_accounts_are_held_to_every_rule() {
    let (config_at, config_bump) = Seeds::Config.find().unwrap();
    let (provider_at, provider_bump) = Seeds::Provider { authority: key(9) }.find().unwrap();
    let (bond_at, _) = Seeds::Bond { provider: provider_at }.find().unwrap();
    let good = RegisterProvider {
        config: Account { key: config_at, data: config(config_bump) },
        authority: key(9),
        cnsnet_mint: key(4),
        payout: tokens(key(21), key(3), key(9), 0),
        provider: Account { key: provider_at, data: provider(Pubkey::default(), 0) },
        provider_bump,
        bond_vault: tokens(bond_at, key(4), provider_at, 0),
        provider_token: tokens(key(22), key(4), key(9), 50),
    };
    assert_eq!(good.validate(), Ok(()));
    let bad = RegisterProvider { authority: key(10), ..good };
    assert_eq!(bad.validate(), Err(SEEDS));
    let bad = RegisterProvider { bond_vault: tokens(key(5), key(4), provider_at, 0), ..good };
    assert_eq!(bad.validate(), Err(SEEDS));
    let bad = RegisterProvider { cnsnet_mint: key(5), ..good };
    assert_eq!(bad.validate(), Err(Failure::Program(CanasError::WrongMint)));
    let bad = RegisterProvider { payout: tokens(key(21), key(5), key(9), 0), ..good };
    assert_eq!(bad.validate(), Err(Failure::Constraint(Constraint::TokenMint)));
    let bad = RegisterProvider { provider_token: tokens(key(22), key(4), key(8), 50), ..good };
    assert_eq!(bad.validate(), Err(Failure::Constraint(Constraint::TokenOwner)));
    let bad = RegisterProvider { provider_token: tokens(key(22), key(5), key(9), 50), ..good };
    assert_eq!(bad.validate(), Err(Failure::Constraint(Constraint::TokenMint)));
}

#[test]
fn registered_provider_can_top_up() {
    let (provider_at, bump) = Seeds::Provider { authority: key(9) }.find().unwrap();
    let (bond_at, _) = Seeds::Bond { provider: provider_at }.find().unwrap();
    let good = TopUpBond {
        authority: key(9),
        provider: Account { key: provider_at, data: provider(key(9), bump) },
        bond_vault: tokens(bond_at, key(4), provider_at, 10),
        provider_token: tokens(key(22), key(4), key(9), 50),
    };
    assert_eq!(good.validate(), Ok(()));
    let bad = TopUpBond { authority: key(10), ..good };
    assert_eq!(bad.validate(), Err(SEEDS));
    let bad = TopUpBond {
        provider: Account { key: provider_at, data: provider(key(10), bump) },
        ..good
    };
    assert_eq!(bad.validate(), Err(Failure::Constraint(Constraint::HasOne)));
    let bad = TopUpBond { provider_token: tokens(key(22), key(5), key(9), 50), ..good };
    assert_eq!(bad.validate(), Err(Failure::Program(CanasError::WrongMint)));
}

#[test]
fn job_accounts_take_the_job_count_as_seed() {
    let (config_at, config_bump) = Seeds::Config.find().unwrap();
    let (job_at, job_bump) = Seeds::Job { requester: key(6), nonce: 7 }.find().unwrap();
    let (vault_at, _) = Seeds::Vault { job: job_at }.find().unwrap();
    let good = CreateJob {
        config: Account { key: config_at, data: config(config_bump) },
        requester: key(6),
        mint: key(3),
        job: Account { key: job_at, data: blank_job() },
        job_bump,
        vault: tokens(vault_at, key(3), job_at, 0),
        requester_token: tokens(key(31), key(3), key(6), 500),
    };
    assert_eq!(good.validate(), Ok(()));
    let mut later = good;
    later.config.data.job_count = 8;
    assert_eq!(later.validate(), Err(SEEDS));
    let bad = CreateJob { mint: key(5), ..good };
    assert_eq!(bad.validate(), Err(Failure::Program(CanasError::WrongMint)));
    let bad = CreateJob { requester_token: tokens(key(31), key(3), key(7), 500), ..good };
    assert_eq!(bad.validate(), Err(Failure::Constraint(Constraint::TokenOwner)));
    let bad = CreateJob { requester_token: tokens(key(31), key(4), key(6), 500), ..good };
    assert_eq!(bad.validate(), Err(Failure::Constraint(Constraint::TokenMint)));
}
