//! The market as a whole: all records and vaults at one time, what always holds of
//! them, and that every instruction keeps it.

use crate::accounts::{
    AssignJob, CancelJob, CloseProvider, CreateJob, DeliverJob, RefundJob, RegisterProvider,
    SettleJob, SlashProvider, TopUpBond,
};
use crate::address::{address_of, lemma_found_key_is_address, Seeds};
use crate::admin::{
    initial_config, mints_checks, params_checks, with_admin, with_mints, with_params, with_paused,
};
use crate::jobs::{
    assign_job_checks, assign_job_end, cancel_job_calls, cancel_job_checks, create_job_calls,
    create_job_checks, create_job_end, deliver_job_checks, deliver_job_end, refund_job_calls,
    refund_job_checks, refund_job_end, settle_job_calls, settle_job_checks, settle_job_end,
};
use crate::keys::Pubkey;
use crate::laws::{same_mints, share_is_rounded_down};
use crate::providers::{
    close_provider_calls, close_provider_checks, register_provider_calls,
    register_provider_checks, register_provider_end, slash_provider_calls, slash_provider_checks,
    slash_provider_end, top_up_bond_calls, top_up_bond_checks, top_up_bond_end,
};
use crate::state::{
    Account, Config, Job, Provider, STATUS_ASSIGNED, STATUS_DELIVERED, STATUS_OPEN,
};
use crate::token::{drawn, outflow, TokenCall};
use vstd::prelude::*;

verus! {

/// Everything that the program keeps.
pub struct Market {
    /// The account of the configuration is there.
    pub configured: bool,
    /// The configuration, or the last one if it has been closed.
    pub config: Config,
    /// The provider records, by address.
    pub providers: Map<Pubkey, Provider>,
    /// What the bond vault of each provider holds, by the provider's address.
    pub bonds: Map<Pubkey, int>,
    /// The job records, by address.
    pub jobs: Map<Pubkey, Job>,
    /// What the escrow vault of each job holds, by the job's address.
    pub escrows: Map<Pubkey, int>,
}

/// The jobs in the hands of the provider at `provider`.
pub open spec fn in_hand(jobs: Map<Pubkey, Job>, provider: Pubkey) -> Set<Pubkey> {
    jobs.dom().filter(
        |job: Pubkey| jobs[job].status != STATUS_OPEN && jobs[job].provider == provider,
    )
}

/// The address of the bond vault of the provider at `provider`.
pub open spec fn bond_at(provider: Pubkey) -> Pubkey {
    address_of(Seeds::Bond { provider })
}

/// The address of the escrow vault of the job at `job`.
pub open spec fn escrow_at(job: Pubkey) -> Pubkey {
    address_of(Seeds::Vault { job })
}

impl Market {
    /// A market before the first provider and the first job.
    pub open spec fn empty(config: Config) -> Market {
        Market {
            configured: true,
            config,
            providers: Map::empty(),
            bonds: Map::empty(),
            jobs: Map::empty(),
            escrows: Map::empty(),
        }
    }

    // ---- what holds under every configuration ----

    /// The provider's record is sound and counts its jobs in flight.
    pub open spec fn provider_sound(self, p: Pubkey) -> bool {
        &&& self.providers[p].well_formed()
        &&& self.providers[p].in_flight == in_hand(self.jobs, p).len()
    }

    /// The job's record is sound, and its provider, if it has one, is registered.
    pub open spec fn job_sound(self, j: Pubkey) -> bool {
        &&& self.jobs[j].well_formed()
        &&& self.jobs[j].status != STATUS_OPEN ==> self.providers.contains_key(
            self.jobs[j].provider,
        )
    }

    /// The seeds are those of a vault that is there.
    pub open spec fn has_vault(self, seeds: Seeds) -> bool {
        match seeds {
            Seeds::Bond { provider } => self.providers.contains_key(provider),
            Seeds::Vault { job } => self.jobs.contains_key(job),
            _ => false,
        }
    }

    /// No vault is at `key`.
    pub open spec fn no_vault_at(self, key: Pubkey) -> bool {
        forall|seeds: Seeds| #[trigger] self.has_vault(seeds) ==> address_of(seeds) != key
    }

    /// No two vaults are at one address.
    pub open spec fn vaults_apart(self) -> bool {
        forall|s: Seeds, t: Seeds|
            #![trigger self.has_vault(s), self.has_vault(t)]
            self.has_vault(s) && self.has_vault(t) && s != t ==> address_of(s) != address_of(t)
    }

    /// Every record is sound and has its vault.
    pub open spec fn books_sound(self) -> bool {
        &&& self.configured ==> self.config.well_formed()
        &&& self.bonds.dom() == self.providers.dom()
        &&& self.jobs.dom().finite()
        &&& self.escrows.dom() == self.jobs.dom()
        &&& self.vaults_apart()
        &&& forall|p: Pubkey| #[trigger]
            self.providers.contains_key(p) ==> self.provider_sound(p)
        &&& forall|j: Pubkey| #[trigger] self.jobs.contains_key(j) ==> self.job_sound(j)
    }

    /// The vault covers what its record says: the bond, or the amount of the job.
    pub open spec fn covers(self, seeds: Seeds) -> bool {
        match seeds {
            Seeds::Bond { provider } => self.bonds[provider] >= self.providers[provider].bond,
            Seeds::Vault { job } => self.escrows[job] >= self.jobs[job].amount,
            _ => true,
        }
    }

    /// Every vault covers what its record says.
    pub open spec fn vaults_cover(self) -> bool {
        forall|seeds: Seeds| #[trigger] self.has_vault(seeds) ==> self.covers(seeds)
    }

    /// What holds of the market at all times, whatever becomes of the configuration.
    pub open spec fn backed(self) -> bool {
        self.books_sound() && self.vaults_cover()
    }

    // ---- what holds under one configuration ----

    /// The job is paid in the mint of payments, which is set, and its nonce has been
    /// given out.
    pub open spec fn job_follows_config(self, j: Pubkey) -> bool {
        &&& self.jobs[j].mint == self.config.usdc_mint
        &&& self.config.usdc_mint != Pubkey::unset()
        &&& self.jobs[j].nonce < self.config.job_count
    }

    /// No two jobs share a nonce.
    pub open spec fn nonces_distinct(self) -> bool {
        forall|j: Pubkey, k: Pubkey|
            #![trigger self.jobs.contains_key(j), self.jobs.contains_key(k)]
            self.jobs.contains_key(j) && self.jobs.contains_key(k) && j != k ==> self.jobs[j].nonce
                != self.jobs[k].nonce
    }

    /// The records go with the configuration: where there is a provider, the mint of
    /// bonds is set; every job follows; and nonces tell jobs apart.
    pub open spec fn follows_config(self) -> bool {
        &&& forall|p: Pubkey| #[trigger]
            self.providers.contains_key(p) ==> self.config.cnsnet_mint != Pubkey::unset()
        &&& forall|j: Pubkey| #[trigger] self.jobs.contains_key(j) ==> self.job_follows_config(j)
        &&& self.nonces_distinct()
    }

    /// What holds of the market at all times under one configuration.
    pub open spec fn consistent(self) -> bool {
        self.backed() && self.follows_config()
    }

    // ---- records ----

    /// The record is the one that the market keeps at its address.
    pub open spec fn holds_job(self, job: Account<Job>) -> bool {
        self.jobs.contains_key(job.key) && self.jobs[job.key] == job.data
    }

    /// The record is the one that the market keeps at its address.
    pub open spec fn holds_provider(self, provider: Account<Provider>) -> bool {
        self.providers.contains_key(provider.key) && self.providers[provider.key] == provider.data
    }

    /// The account is the one of the configuration, which is there.
    pub open spec fn holds_config(self, config: Account<Config>) -> bool {
        self.configured && self.config == config.data
    }

    /// The market with another configuration.
    pub open spec fn with_config(self, config: Config) -> Market {
        Market { config, ..self }
    }

    /// The market with the account of the configuration, or without it.
    pub open spec fn with_configured(self, configured: bool) -> Market {
        Market { configured, ..self }
    }

    /// The market with a provider record written.
    pub open spec fn with_provider(self, provider: Account<Provider>) -> Market {
        Market { providers: self.providers.insert(provider.key, provider.data), ..self }
    }

    /// The market with a bond vault that holds `amount`.
    pub open spec fn with_bond(self, provider: Pubkey, amount: int) -> Market {
        Market { bonds: self.bonds.insert(provider, amount), ..self }
    }

    /// The market with a job record written.
    pub open spec fn with_job(self, job: Account<Job>) -> Market {
        Market { jobs: self.jobs.insert(job.key, job.data), ..self }
    }

    /// The market with an escrow vault that holds `amount`.
    pub open spec fn with_escrow(self, job: Pubkey, amount: int) -> Market {
        Market { escrows: self.escrows.insert(job, amount), ..self }
    }

    /// The market without a provider record and its vault.
    pub open spec fn without_provider(self, provider: Pubkey) -> Market {
        Market {
            providers: self.providers.remove(provider),
            bonds: self.bonds.remove(provider),
            ..self
        }
    }

    /// The market without a job record and its vault.
    pub open spec fn without_job(self, job: Pubkey) -> Market {
        Market { jobs: self.jobs.remove(job), escrows: self.escrows.remove(job), ..self }
    }

    /// The market after `calls`: every vault holds less by what they take out of it,
    /// and more by what they bring in.
    pub open spec fn moved(self, calls: Seq<TokenCall>) -> Market {
        Market {
            bonds: Map::new(
                |p: Pubkey| self.bonds.contains_key(p),
                |p: Pubkey| self.bonds[p] - outflow(calls, bond_at(p)),
            ),
            escrows: Map::new(
                |j: Pubkey| self.escrows.contains_key(j),
                |j: Pubkey| self.escrows[j] - outflow(calls, escrow_at(j)),
            ),
            ..self
        }
    }
}

// ---- how a change to one job changes what the providers have in hand ----

proof fn lemma_in_hand_insert(jobs: Map<Pubkey, Job>, key: Pubkey, job: Job, p: Pubkey)
    requires
        jobs.dom().finite(),
        jobs.contains_key(key) ==> jobs[key].status == STATUS_OPEN || (job.status != STATUS_OPEN
            && jobs[key].provider == job.provider),
    ensures
        in_hand(jobs.insert(key, job), p).len() == in_hand(jobs, p).len() + (if job.status
            != STATUS_OPEN && job.provider == p && !in_hand(jobs, p).contains(key) {
            1int
        } else {
            0
        }),
{
    let before = in_hand(jobs, p);
    let after = in_hand(jobs.insert(key, job), p);
    if job.status != STATUS_OPEN && job.provider == p {
        assert(after =~= before.insert(key));
    } else {
        assert(after =~= before);
    }
}

proof fn lemma_in_hand_remove(jobs: Map<Pubkey, Job>, key: Pubkey, p: Pubkey)
    requires
        jobs.dom().finite(),
        jobs.contains_key(key),
    ensures
        in_hand(jobs.remove(key), p).len() == in_hand(jobs, p).len() - (if jobs[key].status
            != STATUS_OPEN && jobs[key].provider == p {
            1int
        } else {
            0
        }),
{
    let before = in_hand(jobs, p);
    let after = in_hand(jobs.remove(key), p);
    assert(after =~= before.remove(key));
}

// ---- vaults that come and go ----

/// A vault that is new, at an address where none was, is apart from the others.
proof fn lemma_new_vault_apart(m: Market, n: Market, own: Seeds)
    requires
        m.vaults_apart(),
        m.no_vault_at(address_of(own)),
        forall|s: Seeds| #[trigger] n.has_vault(s) && s != own ==> m.has_vault(s),
    ensures
        n.vaults_apart(),
{
    assert forall|s: Seeds, t: Seeds|
        #![trigger n.has_vault(s), n.has_vault(t)]
        n.has_vault(s) && n.has_vault(t) && s != t implies address_of(s) != address_of(t) by {
        if s != own {
            assert(m.has_vault(s));
        }
        if t != own {
            assert(m.has_vault(t));
        }
    }
}

/// Vaults that are left, of those there were, are apart and covered as before.
proof fn lemma_vaults_left(m: Market, n: Market)
    requires
        m.backed(),
        forall|s: Seeds| #[trigger] n.has_vault(s) ==> m.has_vault(s) && (m.covers(s)
            ==> n.covers(s)),
    ensures
        n.vaults_apart(),
        n.vaults_cover(),
{
    assert forall|s: Seeds, t: Seeds|
        #![trigger n.has_vault(s), n.has_vault(t)]
        n.has_vault(s) && n.has_vault(t) && s != t implies address_of(s) != address_of(t) by {
        assert(m.has_vault(s) && m.has_vault(t));
    }
}

// ---- what calls to the token program do to the vaults ----

proof fn lemma_no_draw(calls: Seq<TokenCall>, key: Pubkey)
    requires
        forall|i: int| 0 <= i < calls.len() ==> drawn(#[trigger] calls[i], key) <= 0,
    ensures
        outflow(calls, key) <= 0,
    decreases calls.len(),
{
    if calls.len() > 0 {
        let shorter = calls.drop_last();
        assert forall|i: int| 0 <= i < shorter.len() implies drawn(
            #[trigger] shorter[i],
            key,
        ) <= 0 by {
            assert(shorter[i] == calls[i]);
        }
        lemma_no_draw(shorter, key);
        assert(drawn(calls[calls.len() - 1], key) <= 0);
    }
}

/// `calls` take tokens from the account at `source` alone.
spec fn draw_only_from(calls: Seq<TokenCall>, source: Pubkey) -> bool {
    forall|i: int|
        0 <= i < calls.len() ==> (#[trigger] calls[i] matches TokenCall::Transfer { from, .. }
            ==> from == source)
}

proof fn lemma_others_never_lose(calls: Seq<TokenCall>, source: Pubkey)
    requires
        draw_only_from(calls, source),
    ensures
        forall|key: Pubkey| key != source ==> #[trigger] outflow(calls, key) <= 0,
{
    assert forall|key: Pubkey| key != source implies #[trigger] outflow(calls, key) <= 0 by {
        lemma_no_draw(calls, key);
    }
}

/// No call changes a record.
proof fn lemma_moved_books(m: Market, calls: Seq<TokenCall>)
    requires
        m.books_sound(),
    ensures
        m.moved(calls).books_sound(),
        m.follows_config() ==> m.moved(calls).follows_config(),
{
    let n = m.moved(calls);
    assert(n.bonds.dom() =~= m.bonds.dom());
    assert(n.escrows.dom() =~= m.escrows.dom());
    assert forall|s: Seeds, t: Seeds|
        #![trigger n.has_vault(s), n.has_vault(t)]
        n.has_vault(s) && n.has_vault(t) && s != t implies address_of(s) != address_of(t) by {
        assert(m.has_vault(s) && m.has_vault(t));
    }
    assert forall|p: Pubkey| #[trigger] n.providers.contains_key(p) implies n.provider_sound(p) by {
        assert(m.providers.contains_key(p));
    }
    assert forall|j: Pubkey| #[trigger] n.jobs.contains_key(j) implies n.job_sound(j) by {
        assert(m.jobs.contains_key(j));
    }
    if m.follows_config() {
        assert forall|j: Pubkey| #[trigger] n.jobs.contains_key(j) implies n.job_follows_config(
            j,
        ) by {
            assert(m.jobs.contains_key(j));
        }
        assert forall|j: Pubkey, k: Pubkey|
            #![trigger n.jobs.contains_key(j), n.jobs.contains_key(k)]
            n.jobs.contains_key(j) && n.jobs.contains_key(k) && j != k implies n.jobs[j].nonce
            != n.jobs[k].nonce by {
            assert(m.jobs.contains_key(j) && m.jobs.contains_key(k));
        }
    }
}

/// Calls that draw on one account alone leave every vault covered that is not that
/// account, and so the market backed if the vault of `own` is covered in the end.
proof fn lemma_moved_covers(m: Market, calls: Seq<TokenCall>, source: Pubkey, own: Seeds)
    requires
        m.books_sound(),
        draw_only_from(calls, source),
        forall|s: Seeds| #[trigger]
            m.has_vault(s) && s != own ==> address_of(s) != source && m.covers(s),
        m.has_vault(own) ==> m.moved(calls).covers(own),
    ensures
        m.moved(calls).backed(),
        m.follows_config() ==> m.moved(calls).follows_config(),
{
    let n = m.moved(calls);
    lemma_moved_books(m, calls);
    lemma_others_never_lose(calls, source);
    assert forall|s: Seeds| #[trigger] n.has_vault(s) implies n.covers(s) by {
        assert(m.has_vault(s));
        if s != own {
            match s {
                Seeds::Bond { provider } => {
                    assert(m.bonds.contains_key(provider));
                    assert(outflow(calls, bond_at(provider)) <= 0);
                },
                Seeds::Vault { job } => {
                    assert(m.escrows.contains_key(job));
                    assert(outflow(calls, escrow_at(job)) <= 0);
                },
                _ => {},
            }
        }
    }
}

/// Nothing moves without a call.
pub proof fn lemma_moved_by_nothing(m: Market)
    ensures
        m.moved(seq![]) == m,
{
    let n = m.moved(seq![]);
    assert(n.bonds =~= m.bonds);
    assert(n.escrows =~= m.escrows);
}

// ---- every instruction keeps the market backed, and in step with the configuration ----

/// Before anything is there, the market is backed.
pub proof fn empty_market_is_backed(config: Config)
    ensures
        Market::empty(config).with_configured(false).backed(),
        Market::empty(config).with_configured(false).follows_config(),
{
}

/// `initialize` opens a consistent market.
pub proof fn initialize_opens_market(
    admin: Pubkey,
    treasury: Pubkey,
    provider_bps: u16,
    verifier_bps: u16,
    protocol_bps: u16,
    dispute_window: i64,
    bump: u8,
)
    requires
        params_checks(provider_bps, verifier_bps, protocol_bps, dispute_window) is Ok,
    ensures
        Market::empty(
            initial_config(
                admin,
                treasury,
                provider_bps,
                verifier_bps,
                protocol_bps,
                dispute_window,
                bump,
            ),
        ).consistent(),
{
}

proof fn lemma_config_write(m: Market, configured: bool, config: Config)
    requires
        m.backed(),
        configured ==> config.well_formed(),
    ensures
        m.with_configured(configured).with_config(config).backed(),
{
    let n = m.with_configured(configured).with_config(config);
    assert forall|s: Seeds, t: Seeds|
        #![trigger n.has_vault(s), n.has_vault(t)]
        n.has_vault(s) && n.has_vault(t) && s != t implies address_of(s) != address_of(t) by {
        assert(m.has_vault(s) && m.has_vault(t));
    }
    assert forall|s: Seeds| #[trigger] n.has_vault(s) implies n.covers(s) by {
        assert(m.has_vault(s));
    }
}

/// Another configuration in place of a closed one, and the closing itself, leave the
/// market backed: what the vaults and the records hold does not rest on it.
pub proof fn new_configuration_keeps_backing(m: Market, config: Config)
    requires
        m.backed(),
        config.well_formed(),
    ensures
        m.with_configured(false).backed(),
        m.with_configured(true).with_config(config).backed(),
{
    lemma_config_write(m, false, m.config);
    lemma_config_write(m, true, config);
}

/// `set_mints`, `set_params`, `set_paused` and `set_admin` keep the market backed, and
/// in step with the configuration.
pub proof fn admin_keeps_market(
    m: Market,
    usdc_mint: Pubkey,
    cnsnet_mint: Pubkey,
    provider_bps: u16,
    verifier_bps: u16,
    protocol_bps: u16,
    dispute_window: i64,
    key: Pubkey,
    paused: bool,
)
    requires
        m.backed(),
    ensures
        ({
            let n = m.with_config(with_mints(m.config, usdc_mint, cnsnet_mint));
            &&& n.backed()
            &&& mints_checks(m.config, usdc_mint, cnsnet_mint) is Ok && m.follows_config()
                ==> n.follows_config()
        }),
        params_checks(provider_bps, verifier_bps, protocol_bps, dispute_window) is Ok ==> {
            let n = m.with_config(
                with_params(
                    m.config,
                    provider_bps,
                    verifier_bps,
                    protocol_bps,
                    dispute_window,
                    key,
                ),
            );
            &&& n.backed()
            &&& m.follows_config() ==> n.follows_config()
        },
        m.with_config(with_paused(m.config, paused)).backed(),
        m.follows_config() ==> m.with_config(with_paused(m.config, paused)).follows_config(),
        m.with_config(with_admin(m.config, key)).backed(),
        m.follows_config() ==> m.with_config(with_admin(m.config, key)).follows_config(),
{
    lemma_config_write(m, m.configured, with_mints(m.config, usdc_mint, cnsnet_mint));
    if params_checks(provider_bps, verifier_bps, protocol_bps, dispute_window) is Ok {
        lemma_config_write(
            m,
            m.configured,
            with_params(m.config, provider_bps, verifier_bps, protocol_bps, dispute_window, key),
        );
    }
    lemma_config_write(m, m.configured, with_paused(m.config, paused));
    lemma_config_write(m, m.configured, with_admin(m.config, key));
}

/// `register_provider` keeps the market backed, and in step with the configuration.
/// Record and vault are new, and the bond comes out of no vault.
pub proof fn register_provider_keeps_market(m: Market, a: RegisterProvider, bond_amount: u64)
    requires
        m.backed(),
        m.holds_config(a.config),
        !m.providers.contains_key(a.provider.key),
        m.no_vault_at(a.bond_vault.key),
        m.no_vault_at(a.provider_token.key),
        a.provider_token.key != a.bond_vault.key,
        a.constraints() is Ok,
        register_provider_checks(a, bond_amount) is Ok,
    ensures
        register_provider_end(a, bond_amount) matches Ok((b, _)) && {
            let n = m.with_provider(b.provider).with_bond(a.provider.key, 0).moved(
                register_provider_calls(a, bond_amount),
            );
            &&& n.backed()
            &&& m.follows_config() ==> n.follows_config()
        },
{
    reveal_with_fuel(outflow, 2);
    let p = a.provider.key;
    let own = Seeds::Bond { provider: p };
    lemma_found_key_is_address(a.bond_vault.key, own);
    if let Ok((b, _)) = register_provider_end(a, bond_amount) {
        let calls = register_provider_calls(a, bond_amount);
        let r = m.with_provider(b.provider).with_bond(p, 0);
        assert(in_hand(m.jobs, p) =~= Set::<Pubkey>::empty()) by {
            assert forall|j: Pubkey| !in_hand(m.jobs, p).contains(j) by {
                if in_hand(m.jobs, p).contains(j) {
                    assert(m.jobs.contains_key(j));
                }
            }
        }
        assert(r.bonds.dom() =~= r.providers.dom());
        assert forall|s: Seeds| #[trigger] r.has_vault(s) && s != own implies address_of(s)
            != a.provider_token.key && r.covers(s) by {
            assert(m.has_vault(s));
        }
        lemma_new_vault_apart(m, r, own);
        assert forall|q: Pubkey| #[trigger] r.providers.contains_key(q) implies r.provider_sound(
            q,
        ) by {
            if q != p {
                assert(m.providers.contains_key(q));
            }
        }
        assert forall|j: Pubkey| #[trigger] r.jobs.contains_key(j) implies r.job_sound(j) by {
            assert(m.jobs.contains_key(j));
        }
        lemma_moved_covers(r, calls, a.provider_token.key, own);
    }
}

/// `top_up_bond` keeps the market backed, and in step with the configuration. The
/// tokens come out of no vault.
pub proof fn top_up_bond_keeps_market(m: Market, a: TopUpBond, amount: u64)
    requires
        m.backed(),
        m.holds_provider(a.provider),
        m.no_vault_at(a.provider_token.key),
        a.constraints() is Ok,
        top_up_bond_checks(amount) is Ok,
    ensures
        top_up_bond_end(a, amount) matches Ok((b, _)) ==> {
            let n = m.with_provider(b.provider).moved(top_up_bond_calls(a, amount));
            &&& n.backed()
            &&& m.follows_config() ==> n.follows_config()
        },
{
    reveal_with_fuel(outflow, 2);
    let own = Seeds::Bond { provider: a.provider.key };
    lemma_found_key_is_address(a.bond_vault.key, own);
    assert(m.has_vault(own));
    if let Ok((b, _)) = top_up_bond_end(a, amount) {
        lemma_provider_write(m, b.provider);
        lemma_moved_covers(
            m.with_provider(b.provider),
            top_up_bond_calls(a, amount),
            a.provider_token.key,
            own,
        );
    }
}

/// `slash_provider` keeps the market backed, and in step with the configuration.
pub proof fn slash_provider_keeps_market(
    m: Market,
    a: SlashProvider,
    amount: u64,
    reputation_penalty: u32,
)
    requires
        m.backed(),
        m.holds_provider(a.provider),
        m.bonds[a.provider.key] == a.bond_vault.data.amount,
        a.constraints() is Ok,
        slash_provider_checks(a, amount) is Ok,
    ensures
        slash_provider_end(a, amount, reputation_penalty) matches Ok((b, _)) && {
            let n = m.with_provider(b.provider).moved(slash_provider_calls(a, amount));
            &&& n.backed()
            &&& m.follows_config() ==> n.follows_config()
        },
{
    reveal_with_fuel(outflow, 2);
    let own = Seeds::Bond { provider: a.provider.key };
    lemma_found_key_is_address(a.bond_vault.key, own);
    assert(m.has_vault(own));
    if let Ok((b, _)) = slash_provider_end(a, amount, reputation_penalty) {
        lemma_provider_write(m, b.provider);
        lemma_moved_covers(
            m.with_provider(b.provider),
            slash_provider_calls(a, amount),
            a.bond_vault.key,
            own,
        );
    }
}

/// A provider record can be written anew with as many jobs in flight. Every vault but
/// its own stays covered.
proof fn lemma_provider_write(m: Market, provider: Account<Provider>)
    requires
        m.backed(),
        m.providers.contains_key(provider.key),
        provider.data.well_formed(),
        provider.data.in_flight == m.providers[provider.key].in_flight,
    ensures
        m.with_provider(provider).books_sound(),
        m.follows_config() ==> m.with_provider(provider).follows_config(),
        forall|s: Seeds| #[trigger]
            m.with_provider(provider).has_vault(s) ==> m.has_vault(s) && (s != (Seeds::Bond {
                provider: provider.key,
            }) ==> m.with_provider(provider).covers(s)),
{
    let n = m.with_provider(provider);
    assert(n.providers.dom() =~= m.providers.dom());
    assert forall|s: Seeds| #[trigger] n.has_vault(s) implies m.has_vault(s) && (s != (Seeds::Bond {
        provider: provider.key,
    }) ==> n.covers(s)) by {
        assert(m.has_vault(s));
    }
    assert(n.vaults_apart()) by {
        assert forall|s: Seeds, t: Seeds|
            #![trigger n.has_vault(s), n.has_vault(t)]
            n.has_vault(s) && n.has_vault(t) && s != t implies address_of(s) != address_of(t) by {
            assert(m.has_vault(s) && m.has_vault(t));
        }
    }
    assert forall|p: Pubkey| #[trigger] n.providers.contains_key(p) implies n.provider_sound(p) by {
        assert(m.providers.contains_key(p));
    }
    assert forall|j: Pubkey| #[trigger] n.jobs.contains_key(j) implies n.job_sound(j) by {
        assert(m.jobs.contains_key(j));
    }
    if m.follows_config() {
        assert forall|j: Pubkey| #[trigger] n.jobs.contains_key(j) implies n.job_follows_config(
            j,
        ) by {
            assert(m.jobs.contains_key(j));
        }
    }
}

/// `close_provider` keeps the market backed, and in step with the configuration: no
/// job loses its provider.
pub proof fn close_provider_keeps_market(m: Market, a: CloseProvider)
    requires
        m.backed(),
        m.holds_provider(a.provider),
        a.constraints() is Ok,
        close_provider_checks(a) is Ok,
    ensures
        in_hand(m.jobs, a.provider.key) == Set::<Pubkey>::empty(),
        ({
            let n = m.without_provider(a.provider.key).moved(close_provider_calls(a));
            &&& n.backed()
            &&& m.follows_config() ==> n.follows_config()
        }),
{
    let p = a.provider.key;
    let own = Seeds::Bond { provider: p };
    let r = m.without_provider(p);
    lemma_found_key_is_address(a.bond_vault.key, own);
    assert(m.has_vault(own));
    assert(m.providers.contains_key(p));
    assert(in_hand(m.jobs, p).finite());
    assert(in_hand(m.jobs, p) =~= Set::<Pubkey>::empty());
    assert forall|s: Seeds| #[trigger] r.has_vault(s) implies m.has_vault(s) && r.covers(s)
        && address_of(s) != a.bond_vault.key by {
        assert(m.has_vault(s));
    }
    lemma_vaults_left(m, r);
    assert(r.bonds.dom() =~= r.providers.dom());
    assert forall|j: Pubkey| #[trigger] r.jobs.contains_key(j) implies r.job_sound(j) by {
        assert(m.jobs.contains_key(j));
        if m.jobs[j].status != STATUS_OPEN && m.jobs[j].provider == p {
            assert(in_hand(m.jobs, p).contains(j));
        }
    }
    assert forall|q: Pubkey| #[trigger] r.providers.contains_key(q) implies r.provider_sound(q) by {
        assert(m.providers.contains_key(q));
    }
    lemma_moved_covers(r, close_provider_calls(a), a.bond_vault.key, own);
}

/// `create_job` keeps the market backed, and in step with the configuration. Record
/// and vault are new, and the escrow comes out of no vault.
pub proof fn create_job_keeps_market(
    m: Market,
    a: CreateJob,
    amount: u64,
    params_hash: [u8; 32],
    model_hash: [u8; 32],
    now: i64,
)
    requires
        m.backed(),
        m.holds_config(a.config),
        !m.jobs.contains_key(a.job.key),
        m.no_vault_at(a.vault.key),
        m.no_vault_at(a.requester_token.key),
        a.requester_token.key != a.vault.key,
        a.constraints() is Ok,
        create_job_checks(m.config, amount) is Ok,
    ensures
        create_job_end(a, amount, params_hash, model_hash, now) matches Ok((b, _)) ==> {
            let n = m.with_config(b.config.data).with_job(b.job).with_escrow(a.job.key, 0).moved(
                create_job_calls(a, amount),
            );
            &&& n.backed()
            &&& m.follows_config() ==> n.follows_config()
        },
{
    reveal_with_fuel(outflow, 2);
    let own = Seeds::Vault { job: a.job.key };
    lemma_found_key_is_address(a.vault.key, own);
    if let Ok((b, _)) = create_job_end(a, amount, params_hash, model_hash, now) {
        let r = m.with_config(b.config.data).with_job(b.job).with_escrow(a.job.key, 0);
        assert forall|s: Seeds| #[trigger] r.has_vault(s) && s != own implies m.has_vault(s)
            && address_of(s) != a.requester_token.key && r.covers(s) by {
            assert(m.has_vault(s));
        }
        lemma_new_vault_apart(m, r, own);
        assert(r.escrows.dom() =~= r.jobs.dom());
        assert forall|p: Pubkey| #[trigger]
            r.providers.contains_key(p) implies r.provider_sound(p) by {
            assert(m.providers.contains_key(p));
            lemma_in_hand_insert(m.jobs, b.job.key, b.job.data, p);
        }
        assert forall|j: Pubkey| #[trigger] r.jobs.contains_key(j) implies r.job_sound(j) by {
            if j != a.job.key {
                assert(m.jobs.contains_key(j));
            }
        }
        if m.follows_config() {
            assert forall|j: Pubkey| #[trigger]
                r.jobs.contains_key(j) implies r.job_follows_config(j) by {
                if j != a.job.key {
                    assert(m.jobs.contains_key(j));
                }
            }
        }
        lemma_moved_covers(r, create_job_calls(a, amount), a.requester_token.key, own);
    }
}

proof fn lemma_job_write(m: Market, job: Account<Job>, provider: Account<Provider>)
    requires
        m.backed(),
        m.jobs.contains_key(job.key),
        m.providers.contains_key(provider.key),
        job.data.well_formed(),
        job.data.amount == m.jobs[job.key].amount,
        job.data.mint == m.jobs[job.key].mint,
        job.data.nonce == m.jobs[job.key].nonce,
        job.data.status != STATUS_OPEN,
        job.data.provider == provider.key,
        m.jobs[job.key].status == STATUS_OPEN || m.jobs[job.key].provider == provider.key,
        provider.data.well_formed(),
        provider.data.bond == m.providers[provider.key].bond,
        provider.data.in_flight == m.providers[provider.key].in_flight + (if m.jobs[job.key].status
            == STATUS_OPEN {
            1int
        } else {
            0
        }),
    ensures
        m.with_job(job).with_provider(provider).backed(),
        m.follows_config() ==> m.with_job(job).with_provider(provider).follows_config(),
{
    let n = m.with_job(job).with_provider(provider);
    assert(n.providers.dom() =~= m.providers.dom());
    assert(n.jobs.dom() =~= m.jobs.dom());
    assert forall|s: Seeds| #[trigger] n.has_vault(s) implies m.has_vault(s) && (m.covers(s)
        ==> n.covers(s)) by {}
    lemma_vaults_left(m, n);
    assert forall|p: Pubkey| #[trigger] n.providers.contains_key(p) implies n.provider_sound(p) by {
        assert(m.providers.contains_key(p));
        lemma_in_hand_insert(m.jobs, job.key, job.data, p);
    }
    assert forall|j: Pubkey| #[trigger] n.jobs.contains_key(j) implies n.job_sound(j) by {
        assert(m.jobs.contains_key(j));
    }
    if m.follows_config() {
        assert forall|j: Pubkey| #[trigger] n.jobs.contains_key(j) implies n.job_follows_config(
            j,
        ) by {
            assert(m.jobs.contains_key(j));
        }
        assert forall|j: Pubkey, k: Pubkey|
            #![trigger n.jobs.contains_key(j), n.jobs.contains_key(k)]
            n.jobs.contains_key(j) && n.jobs.contains_key(k) && j != k implies n.jobs[j].nonce
            != n.jobs[k].nonce by {
            assert(m.jobs.contains_key(j) && m.jobs.contains_key(k));
        }
    }
}

/// `assign_job` keeps the market backed, and in step with the configuration.
pub proof fn assign_job_keeps_market(m: Market, a: AssignJob, now: i64)
    requires
        m.backed(),
        m.holds_job(a.job),
        m.holds_provider(a.provider),
        assign_job_checks(a.job.data, a.provider.data) is Ok,
    ensures
        ({
            let b = assign_job_end(a, now).0;
            let n = m.with_job(b.job).with_provider(b.provider);
            &&& n.backed()
            &&& m.follows_config() ==> n.follows_config()
        }),
{
    let b = assign_job_end(a, now).0;
    assert(m.jobs.contains_key(a.job.key) && m.providers.contains_key(a.provider.key));
    lemma_job_write(m, b.job, b.provider);
}

/// `deliver_job` keeps the market backed, and in step with the configuration.
pub proof fn deliver_job_keeps_market(m: Market, a: DeliverJob, output_phash: [u8; 32], now: i64)
    requires
        m.backed(),
        m.holds_job(a.job),
        deliver_job_checks(a.job.data) is Ok,
    ensures
        ({
            let n = m.with_job(deliver_job_end(a, output_phash, now).0.job);
            &&& n.backed()
            &&& m.follows_config() ==> n.follows_config()
        }),
{
    let b = deliver_job_end(a, output_phash, now).0;
    let p = a.job.data.provider;
    assert(m.jobs.contains_key(a.job.key));
    assert(m.providers.contains_key(p));
    let record = Account { key: p, data: m.providers[p] };
    lemma_job_write(m, b.job, record);
    assert(m.with_job(b.job).with_provider(record).providers =~= m.providers);
}

/// A job leaves with its vault; `calls` draw on that vault alone, and the rest of the
/// market is as sound as before.
proof fn lemma_job_leaves(
    m: Market,
    n: Market,
    job: Pubkey,
    calls: Seq<TokenCall>,
    source: Pubkey,
)
    requires
        m.backed(),
        m.jobs.contains_key(job),
        source == escrow_at(job),
        draw_only_from(calls, source),
        n.jobs == m.jobs.remove(job),
        n.escrows == m.escrows.remove(job),
        n.bonds == m.bonds,
        n.providers.dom() == m.providers.dom(),
        forall|p: Pubkey| #[trigger]
            m.providers.contains_key(p) ==> n.provider_sound(p) && n.providers[p].bond
                == m.providers[p].bond,
        n.configured == m.configured,
        m.config.well_formed() ==> n.config.well_formed(),
        n.config.job_count == m.config.job_count,
        same_mints(n.config, m.config),
    ensures
        n.moved(calls).backed(),
        m.follows_config() ==> n.moved(calls).follows_config(),
{
    assert(m.has_vault(Seeds::Vault { job }));
    assert forall|s: Seeds| #[trigger] n.has_vault(s) implies m.has_vault(s) && (m.covers(s)
        ==> n.covers(s)) && address_of(s) != source by {
        assert(m.has_vault(s));
    }
    lemma_vaults_left(m, n);
    assert(n.escrows.dom() =~= n.jobs.dom());
    assert forall|p: Pubkey| #[trigger] n.providers.contains_key(p) implies n.provider_sound(p) by {
        assert(m.providers.contains_key(p));
    }
    assert forall|j: Pubkey| #[trigger] n.jobs.contains_key(j) implies n.job_sound(j) by {
        assert(m.jobs.contains_key(j));
    }
    if m.follows_config() {
        assert forall|p: Pubkey| #[trigger]
            n.providers.contains_key(p) implies n.config.cnsnet_mint != Pubkey::unset() by {
            assert(m.providers.contains_key(p));
        }
        assert forall|j: Pubkey| #[trigger] n.jobs.contains_key(j) implies n.job_follows_config(
            j,
        ) by {
            assert(m.jobs.contains_key(j));
        }
        assert forall|j: Pubkey, k: Pubkey|
            #![trigger n.jobs.contains_key(j), n.jobs.contains_key(k)]
            n.jobs.contains_key(j) && n.jobs.contains_key(k) && j != k implies n.jobs[j].nonce
            != n.jobs[k].nonce by {
            assert(m.jobs.contains_key(j) && m.jobs.contains_key(k));
        }
    }
    lemma_moved_covers(n, calls, source, Seeds::Vault { job });
}

/// So it is where the job was in the hands of a provider, which is released.
proof fn lemma_job_released(
    m: Market,
    job: Pubkey,
    provider: Account<Provider>,
    config: Config,
    calls: Seq<TokenCall>,
    source: Pubkey,
)
    requires
        m.backed(),
        m.jobs.contains_key(job),
        m.jobs[job].status != STATUS_OPEN,
        m.jobs[job].provider == provider.key,
        source == escrow_at(job),
        draw_only_from(calls, source),
        m.config.well_formed() ==> config.well_formed(),
        config.job_count == m.config.job_count,
        same_mints(config, m.config),
        provider.data.well_formed(),
        provider.data.bond == m.providers[provider.key].bond,
        provider.data.in_flight == m.providers[provider.key].in_flight - 1,
    ensures
        ({
            let n = m.with_config(config).with_provider(provider).without_job(job).moved(calls);
            &&& n.backed()
            &&& m.follows_config() ==> n.follows_config()
        }),
{
    let n = m.with_config(config).with_provider(provider).without_job(job);
    assert(m.providers.contains_key(provider.key));
    assert(n.providers.dom() =~= m.providers.dom());
    assert forall|p: Pubkey| #[trigger] m.providers.contains_key(p) implies n.provider_sound(p)
        && n.providers[p].bond == m.providers[p].bond by {
        lemma_in_hand_remove(m.jobs, job, p);
    }
    lemma_job_leaves(m, n, job, calls, source);
}

proof fn lemma_job_counts(m: Market, job: Pubkey)
    requires
        m.backed(),
        m.jobs.contains_key(job),
        m.jobs[job].status != STATUS_OPEN,
    ensures
        m.providers.contains_key(m.jobs[job].provider),
        m.providers[m.jobs[job].provider].in_flight > 0,
{
    let p = m.jobs[job].provider;
    assert(in_hand(m.jobs, p).contains(job));
    assert(m.providers.contains_key(p));
}

/// `settle_job` keeps the market backed, and in step with the configuration.
pub proof fn settle_job_keeps_market(m: Market, a: SettleJob, now: i64)
    requires
        m.backed(),
        m.holds_config(a.config),
        m.holds_job(a.job),
        m.holds_provider(a.provider),
        a.constraints() is Ok,
        settle_job_checks(a, now) is Ok,
    ensures
        settle_job_end(a) matches Ok((b, _)) ==> {
            let n = m.with_config(b.config.data).with_provider(b.provider).without_job(
                a.job.key,
            ).moved(settle_job_calls(a));
            &&& n.backed()
            &&& m.follows_config() ==> n.follows_config()
        },
{
    assert(m.jobs.contains_key(a.job.key) && m.providers.contains_key(a.provider.key));
    lemma_job_counts(m, a.job.key);
    lemma_found_key_is_address(a.vault.key, Seeds::Vault { job: a.job.key });
    if let Ok((b, _)) = settle_job_end(a) {
        lemma_job_released(
            m,
            a.job.key,
            b.provider,
            b.config.data,
            settle_job_calls(a),
            a.vault.key,
        );
    }
}

/// `refund_job` keeps the market backed, and in step with the configuration.
pub proof fn refund_job_keeps_market(m: Market, a: RefundJob, reputation_penalty: u32, now: i64)
    requires
        m.backed(),
        m.holds_job(a.job),
        m.holds_provider(a.provider),
        a.constraints() is Ok,
        refund_job_checks(a, now) is Ok,
    ensures
        refund_job_end(a, reputation_penalty) matches Ok((b, _)) && {
            let n = m.with_provider(b.provider).without_job(a.job.key).moved(refund_job_calls(a));
            &&& n.backed()
            &&& m.follows_config() ==> n.follows_config()
        },
{
    assert(m.jobs.contains_key(a.job.key) && m.providers.contains_key(a.provider.key));
    lemma_job_counts(m, a.job.key);
    lemma_found_key_is_address(a.vault.key, Seeds::Vault { job: a.job.key });
    if let Ok((b, _)) = refund_job_end(a, reputation_penalty) {
        lemma_job_released(
            m,
            a.job.key,
            b.provider,
            m.config,
            refund_job_calls(a),
            a.vault.key,
        );
    }
}

/// `cancel_job` keeps the market backed, and in step with the configuration.
pub proof fn cancel_job_keeps_market(m: Market, a: CancelJob)
    requires
        m.backed(),
        m.holds_job(a.job),
        a.constraints() is Ok,
        cancel_job_checks(a) is Ok,
    ensures
        ({
            let n = m.without_job(a.job.key).moved(cancel_job_calls(a));
            &&& n.backed()
            &&& m.follows_config() ==> n.follows_config()
        }),
{
    let n = m.without_job(a.job.key);
    assert(m.jobs.contains_key(a.job.key));
    lemma_found_key_is_address(a.vault.key, Seeds::Vault { job: a.job.key });
    assert forall|p: Pubkey| #[trigger] m.providers.contains_key(p) implies n.provider_sound(p)
        && n.providers[p].bond == m.providers[p].bond by {
        lemma_in_hand_remove(m.jobs, a.job.key, p);
    }
    lemma_job_leaves(m, n, a.job.key, cancel_job_calls(a), a.vault.key);
}

/// A donation to any vault keeps the market backed, and in step with the
/// configuration.
pub proof fn donation_keeps_market(m: Market, key: Pubkey, donation: nat)
    requires
        m.backed(),
    ensures
        m.jobs.contains_key(key) ==> {
            let n = m.with_escrow(key, m.escrows[key] + donation);
            &&& n.backed()
            &&& m.follows_config() ==> n.follows_config()
        },
        m.providers.contains_key(key) ==> {
            let n = m.with_bond(key, m.bonds[key] + donation);
            &&& n.backed()
            &&& m.follows_config() ==> n.follows_config()
        },
{
    if m.jobs.contains_key(key) {
        let n = m.with_escrow(key, m.escrows[key] + donation);
        assert(n.escrows.dom() =~= m.escrows.dom());
        assert forall|s: Seeds| #[trigger] n.has_vault(s) implies m.has_vault(s) && (m.covers(s)
            ==> n.covers(s)) by {}
        lemma_vaults_left(m, n);
    }
    if m.providers.contains_key(key) {
        let n = m.with_bond(key, m.bonds[key] + donation);
        assert(n.bonds.dom() =~= m.bonds.dom());
        assert forall|s: Seeds| #[trigger] n.has_vault(s) implies m.has_vault(s) && (m.covers(s)
            ==> n.covers(s)) by {}
        lemma_vaults_left(m, n);
    }
}

// ---- what this is good for ----

/// A provider with a job in its hands cannot close, and one without can.
pub proof fn provider_closes_only_without_jobs(m: Market, a: CloseProvider)
    requires
        m.backed(),
        m.holds_provider(a.provider),
    ensures
        close_provider_checks(a) is Ok <==> in_hand(m.jobs, a.provider.key) == Set::<
            Pubkey,
        >::empty(),
{
    let hand = in_hand(m.jobs, a.provider.key);
    assert(m.providers.contains_key(a.provider.key));
    assert(hand.finite());
    if hand.len() == 0 {
        assert(hand =~= Set::<Pubkey>::empty());
    }
}

/// No job is stuck: the checks let the requester cancel an open job, get an assigned
/// one refunded once the window has elapsed, and settle a delivered one; they let the
/// admin cancel the first and refund the other two at any time, and settle the last
/// once the window has elapsed. Nothing that the vault holds can stand against it.
pub proof fn every_job_can_be_closed(
    m: Market,
    c: CancelJob,
    r: RefundJob,
    s: SettleJob,
    now: i64,
)
    requires
        m.backed(),
    ensures
        c.job.data.status == STATUS_OPEN && (c.authority == c.job.data.requester || c.authority
            == c.config.data.admin) ==> cancel_job_checks(c) is Ok,
        r.job.data.status == STATUS_ASSIGNED && r.authority == r.job.data.requester && now
            >= r.job.data.assigned_at + r.config.data.dispute_window ==> refund_job_checks(
            r,
            now,
        ) is Ok,
        (r.job.data.status == STATUS_ASSIGNED || r.job.data.status == STATUS_DELIVERED)
            && r.authority == r.config.data.admin ==> refund_job_checks(r, now) is Ok,
        m.holds_config(s.config) && m.holds_job(s.job) && m.escrows[s.job.key]
            == s.vault.data.amount && s.job.data.status == STATUS_DELIVERED && (s.authority
            == s.job.data.requester || (s.authority == s.config.data.admin && now
            >= s.job.data.delivered_at + s.config.data.dispute_window)) ==> settle_job_checks(
            s,
            now,
        ) is Ok,
{
    if m.holds_config(s.config) && m.holds_job(s.job) {
        assert(m.has_vault(Seeds::Vault { job: s.job.key }));
        share_is_rounded_down(s.job.data.amount, s.config.data.provider_bps);
    }
}

/// A new job has seeds that no other job has: its nonce is a fresh one.
pub proof fn new_job_has_fresh_nonce(m: Market, other: Pubkey)
    requires
        m.consistent(),
        m.jobs.contains_key(other),
    ensures
        m.jobs[other].nonce != m.config.job_count,
{
}

} // verus!
