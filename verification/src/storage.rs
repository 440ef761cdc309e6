//! The durable state of the ledger and the accessors that read and write it.
//!
//! Every entry is kept under a logical key, as a host's key-value store
//! would keep it: one map per family of keys, and plain fields for the
//! entries that exist once.

use std::collections::HashMap;
use vstd::prelude::*;
use vstd::std_specs::hash::*;
use crate::env::{Env, EnvView};
use crate::supply::{balance_of, balances_non_negative, sum_balances};
use crate::types::{Address, BrazaError, Event, TokenMetadata, VestingSchedule};
use crate::vesting::schedule_valid;

verus! {

broadcast use group_hash_axioms;

/// The largest total supply that can ever exist.
pub const MAX_SUPPLY: i128 = 2_100_000_000_000_000;

/// The supply created for the administrator at initialization.
pub const INITIAL_SUPPLY: i128 = 1_000_000_000_000_000;

/// How many schedules one beneficiary may have.
pub const MAX_VESTING_SCHEDULES: u32 = 50;

/// How many schedules may exist over all beneficiaries.
pub const MAX_GLOBAL_VESTING_SCHEDULES: u32 = 10_000;

/// The fee that a host may charge for keeping one schedule.
pub const VESTING_STORAGE_FEE: i128 = 1_000_000;

/// The smallest grant that can be vested.
pub const MIN_VESTING_AMOUNT: i128 = 1_000;

/// The ticks that must pass between two schedules for one beneficiary.
pub const VESTING_CREATION_COOLDOWN_LEDGERS: u32 = 1_440;

/// The ticks that must pass between two privileged issuances.
pub const MINT_TIMELOCK_TICKS: u32 = 17_280;

/// The ticks that must pass between two privileged destructions.
pub const BURN_TIMELOCK_TICKS: u32 = 17_280;

/// The largest amount that one issuance or destruction may move.
pub const MAX_PER_TX: i128 = 100_000_000_000_000;

/// The lifetime, in ticks, that a host gives an entry it touches.
pub const CRITICAL_STORAGE_TTL: u32 = 6_307_200;

/// The remaining lifetime below which a host extends an entry.
pub const CRITICAL_STORAGE_THRESHOLD: u32 = 518_400;

/// The remaining lifetime below which a host extends shared entries.
pub const LEDGER_THRESHOLD_SHARED: u32 = 518_400;

/// The lifetime, in ticks, that a host gives shared entries.
pub const LEDGER_BUMP_SHARED: u32 = 6_307_200;

/// The durable state.
pub struct Storage {
    pub admin: Option<Address>,
    pub paused: bool,
    pub total_supply: i128,
    pub locked_balance: i128,
    pub metadata: Option<TokenMetadata>,
    pub reentrancy_locked: bool,
    pub last_mint_time: Option<u32>,
    pub last_burn_time: Option<u32>,
    pub global_vesting_count: u32,
    pub storage_fee_pool: i128,
    pub balances: HashMap<Address, i128>,
    pub blacklist: HashMap<Address, bool>,
    /// Keyed by [`allowance_key`] of owner and spender; no entry is zero
    /// after [`set_allowance`].
    pub allowances: HashMap<u128, i128>,
    pub vesting_counts: HashMap<Address, u32>,
    /// Keyed by [`vesting_key`] of beneficiary and schedule id.
    pub vestings: HashMap<u128, VestingSchedule>,
    pub last_vesting_times: HashMap<Address, u32>,
    pub kyc_levels: HashMap<Address, u32>,
    /// The tick at which each principal's tier was last put on file.
    pub kyc_timestamps: HashMap<Address, u32>,
    pub accredited: HashMap<Address, bool>,
    /// The tick at which each principal was last marked as accredited or
    /// not.
    pub accredited_timestamps: HashMap<Address, u32>,
    pub countries: HashMap<Address, String>,
    pub blocked_countries: Vec<String>,
    pub risk_scores: HashMap<Address, u32>,
    /// The tick at which each principal's risk score was last put on file.
    pub risk_timestamps: HashMap<Address, u32>,
    pub daily_limits: HashMap<Address, i128>,
    pub volume_days: HashMap<Address, u32>,
    pub volume_amounts: HashMap<Address, i128>,
}

/// The mathematical model of a [`Storage`].
pub struct StorageView {
    pub admin: Option<Address>,
    pub paused: bool,
    pub total_supply: i128,
    pub locked_balance: i128,
    pub metadata: Option<TokenMetadata>,
    pub reentrancy_locked: bool,
    pub last_mint_time: Option<u32>,
    pub last_burn_time: Option<u32>,
    pub global_vesting_count: u32,
    pub storage_fee_pool: i128,
    pub balances: Map<Address, i128>,
    pub blacklist: Map<Address, bool>,
    pub allowances: Map<u128, i128>,
    pub vesting_counts: Map<Address, u32>,
    pub vestings: Map<u128, VestingSchedule>,
    pub last_vesting_times: Map<Address, u32>,
    pub kyc_levels: Map<Address, u32>,
    pub kyc_timestamps: Map<Address, u32>,
    pub accredited: Map<Address, bool>,
    pub accredited_timestamps: Map<Address, u32>,
    pub countries: Map<Address, Seq<char>>,
    pub blocked_countries: Set<Seq<char>>,
    pub risk_scores: Map<Address, u32>,
    pub risk_timestamps: Map<Address, u32>,
    pub daily_limits: Map<Address, i128>,
    pub volume_days: Map<Address, u32>,
    pub volume_amounts: Map<Address, i128>,
}

/// The key under which the allowance that `owner` grants `spender` is kept.
pub open spec fn allowance_key(owner: Address, spender: Address) -> u128 {
    (owner * 0x1_0000_0000_0000_0000 + spender) as u128
}

/// The key under which schedule `id` of `beneficiary` is kept.
pub open spec fn vesting_key(beneficiary: Address, id: u32) -> u128 {
    (beneficiary * 0x1_0000_0000 + id) as u128
}

/// Two pairs of owner and spender share a key only if they are the same
/// pair.
pub proof fn lemma_allowance_key_injective(o1: Address, s1: Address, o2: Address, s2: Address)
    ensures
        allowance_key(o1, s1) == allowance_key(o2, s2) <==> (o1 == o2 && s1 == s2),
{
}

/// Two pairs of beneficiary and id share a key only if they are the same
/// pair.
pub proof fn lemma_vesting_key_injective(b1: Address, i1: u32, b2: Address, i2: u32)
    ensures
        vesting_key(b1, i1) == vesting_key(b2, i2) <==> (b1 == b2 && i1 == i2),
{
}

/// The view of a list of country codes: the set of their texts.
pub open spec fn code_set(codes: Seq<String>) -> Set<Seq<char>> {
    Set::new(|c: Seq<char>| exists|i: int| 0 <= i < codes.len() && #[trigger] codes[i]@ == c)
}

impl View for Storage {
    type V = StorageView;

    open spec fn view(&self) -> StorageView {
        StorageView {
            admin: self.admin,
            paused: self.paused,
            total_supply: self.total_supply,
            locked_balance: self.locked_balance,
            metadata: self.metadata,
            reentrancy_locked: self.reentrancy_locked,
            last_mint_time: self.last_mint_time,
            last_burn_time: self.last_burn_time,
            global_vesting_count: self.global_vesting_count,
            storage_fee_pool: self.storage_fee_pool,
            balances: self.balances@,
            blacklist: self.blacklist@,
            allowances: self.allowances@,
            vesting_counts: self.vesting_counts@,
            vestings: self.vestings@,
            last_vesting_times: self.last_vesting_times@,
            kyc_levels: self.kyc_levels@,
            kyc_timestamps: self.kyc_timestamps@,
            accredited: self.accredited@,
            accredited_timestamps: self.accredited_timestamps@,
            countries: self.countries@.map_values(|s: String| s@),
            blocked_countries: code_set(self.blocked_countries@),
            risk_scores: self.risk_scores@,
            risk_timestamps: self.risk_timestamps@,
            daily_limits: self.daily_limits@,
            volume_days: self.volume_days@,
            volume_amounts: self.volume_amounts@,
        }
    }
}

impl StorageView {
    /// The state before initialization: nothing stored.
    pub open spec fn empty() -> StorageView {
        StorageView {
            admin: None,
            paused: false,
            total_supply: 0,
            locked_balance: 0,
            metadata: None,
            reentrancy_locked: false,
            last_mint_time: None,
            last_burn_time: None,
            global_vesting_count: 0,
            storage_fee_pool: 0,
            balances: Map::empty(),
            blacklist: Map::empty(),
            allowances: Map::empty(),
            vesting_counts: Map::empty(),
            vestings: Map::empty(),
            last_vesting_times: Map::empty(),
            kyc_levels: Map::empty(),
            kyc_timestamps: Map::empty(),
            accredited: Map::empty(),
            accredited_timestamps: Map::empty(),
            countries: Map::empty(),
            blocked_countries: Set::empty(),
            risk_scores: Map::empty(),
            risk_timestamps: Map::empty(),
            daily_limits: Map::empty(),
            volume_days: Map::empty(),
            volume_amounts: Map::empty(),
        }
    }

    /// What `who` holds.
    pub open spec fn balance(self, who: Address) -> i128 {
        balance_of(self.balances, who)
    }

    /// Whether `who` is on the blacklist.
    pub open spec fn blacklisted(self, who: Address) -> bool {
        self.blacklist.dom().contains(who) && self.blacklist[who]
    }

    /// What `spender` may still draw from `owner`.
    pub open spec fn allowance(self, owner: Address, spender: Address) -> i128 {
        let k = allowance_key(owner, spender);
        if self.allowances.dom().contains(k) {
            self.allowances[k]
        } else {
            0
        }
    }

    /// How many schedules were created for `beneficiary`.
    pub open spec fn vesting_count(self, beneficiary: Address) -> u32 {
        if self.vesting_counts.dom().contains(beneficiary) {
            self.vesting_counts[beneficiary]
        } else {
            0
        }
    }

    /// Schedule `id` of `beneficiary`, if it exists.
    pub open spec fn schedule(self, beneficiary: Address, id: u32) -> Option<VestingSchedule> {
        let k = vesting_key(beneficiary, id);
        if self.vestings.dom().contains(k) {
            Some(self.vestings[k])
        } else {
            None
        }
    }

    /// The tick at which the last schedule for `user` was created.
    pub open spec fn last_vesting_time(self, user: Address) -> Option<u32> {
        if self.last_vesting_times.dom().contains(user) {
            Some(self.last_vesting_times[user])
        } else {
            None
        }
    }

    /// The supply that is not reserved by grants, never below zero or
    /// above what an amount can hold.
    pub open spec fn circulating_supply(self) -> i128 {
        let d = self.total_supply - self.locked_balance;
        if d > i128::MAX {
            i128::MAX
        } else if d < i128::MIN {
            i128::MIN
        } else {
            d as i128
        }
    }

    /// Every stored schedule is valid.
    pub open spec fn schedules_valid(self) -> bool {
        forall|k: u128| #[trigger]
            self.vestings.dom().contains(k) ==> schedule_valid(self.vestings[k])
    }

    /// The ledger's invariant: the balances are finitely many, no balance
    /// and no allowance is negative, no allowance entry is zero, every
    /// schedule is valid, the locked balance lies between zero and the
    /// total supply, and the balances and the locked balance together make
    /// up the total supply.
    pub open spec fn wf(self) -> bool {
        &&& self.balances.dom().finite()
        &&& balances_non_negative(self.balances)
        &&& forall|k: u128| #[trigger] self.allowances.dom().contains(k) ==> self.allowances[k] > 0
        &&& self.schedules_valid()
        &&& 0 <= self.locked_balance <= self.total_supply
        &&& sum_balances(self.balances) + self.locked_balance == self.total_supply
    }
}

impl Storage {
    /// The state before initialization: nothing stored.
    pub fn new() -> (s: Storage)
        ensures
            s@ == StorageView::empty(),
    {
        let s = Storage {
            admin: None,
            paused: false,
            total_supply: 0,
            locked_balance: 0,
            metadata: None,
            reentrancy_locked: false,
            last_mint_time: None,
            last_burn_time: None,
            global_vesting_count: 0,
            storage_fee_pool: 0,
            balances: HashMap::new(),
            blacklist: HashMap::new(),
            allowances: HashMap::new(),
            vesting_counts: HashMap::new(),
            vestings: HashMap::new(),
            last_vesting_times: HashMap::new(),
            kyc_levels: HashMap::new(),
            kyc_timestamps: HashMap::new(),
            accredited: HashMap::new(),
            accredited_timestamps: HashMap::new(),
            countries: HashMap::new(),
            blocked_countries: Vec::new(),
            risk_scores: HashMap::new(),
            risk_timestamps: HashMap::new(),
            daily_limits: HashMap::new(),
            volume_days: HashMap::new(),
            volume_amounts: HashMap::new(),
        };
        assert(s@.countries =~= Map::<Address, Seq<char>>::empty());
        assert(s@.blocked_countries =~= Set::<Seq<char>>::empty());
        s
    }
}

/// A flag that exists once in the durable state.
#[derive(Copy, Clone, Debug, PartialEq, Eq, Structural)]
pub enum Flag {
    Paused,
    ReentrancyLock,
}

impl EnvView {
    /// The world in which `user` holds `amt`.
    pub open spec fn set_balance(self, user: Address, amt: i128) -> EnvView {
        self.with_storage(
            StorageView { balances: self.storage.balances.insert(user, amt), ..self.storage },
        )
    }

    /// The world in which no balance is stored for `user`.
    pub open spec fn remove_balance(self, user: Address) -> EnvView {
        self.with_storage(
            StorageView { balances: self.storage.balances.remove(user), ..self.storage },
        )
    }

    /// The world in which the total supply is `amt`.
    pub open spec fn set_total_supply(self, amt: i128) -> EnvView {
        self.with_storage(StorageView { total_supply: amt, ..self.storage })
    }

    /// The world in which the locked balance is `amt`.
    pub open spec fn set_locked_balance(self, amt: i128) -> EnvView {
        self.with_storage(StorageView { locked_balance: amt, ..self.storage })
    }

    /// The world in which `admin` is the administrator.
    pub open spec fn set_admin(self, admin: Address) -> EnvView {
        self.with_storage(StorageView { admin: Some(admin), ..self.storage })
    }

    /// The world in which the ledger is paused or not.
    pub open spec fn set_paused(self, val: bool) -> EnvView {
        self.with_storage(StorageView { paused: val, ..self.storage })
    }

    /// The world in which `meta` is the token's metadata.
    pub open spec fn set_metadata(self, meta: TokenMetadata) -> EnvView {
        self.with_storage(StorageView { metadata: Some(meta), ..self.storage })
    }

    /// The world in which the guard is set or clear.
    pub open spec fn set_reentrancy_guard(self, locked: bool) -> EnvView {
        self.with_storage(StorageView { reentrancy_locked: locked, ..self.storage })
    }

    /// The world in which the last issuance happened at `ledger`.
    pub open spec fn set_last_mint_time(self, ledger: u32) -> EnvView {
        self.with_storage(StorageView { last_mint_time: Some(ledger), ..self.storage })
    }

    /// The world in which the last destruction happened at `ledger`.
    pub open spec fn set_last_burn_time(self, ledger: u32) -> EnvView {
        self.with_storage(StorageView { last_burn_time: Some(ledger), ..self.storage })
    }

    /// The world in which `count` schedules exist over all beneficiaries.
    pub open spec fn set_global_vesting_count(self, count: u32) -> EnvView {
        self.with_storage(StorageView { global_vesting_count: count, ..self.storage })
    }

    /// The world in which the fee pool holds `amt`.
    pub open spec fn set_storage_fee_pool(self, amt: i128) -> EnvView {
        self.with_storage(StorageView { storage_fee_pool: amt, ..self.storage })
    }

    /// The world in which `addr` is on the blacklist or off it.
    pub open spec fn set_blacklisted(self, addr: Address, val: bool) -> EnvView {
        self.with_storage(
            StorageView { blacklist: self.storage.blacklist.insert(addr, val), ..self.storage },
        )
    }

    /// Writing zero removes the entry; any other amount is stored.
    pub open spec fn set_allowance(self, from: Address, spender: Address, amount: i128) -> EnvView {
        let k = allowance_key(from, spender);
        let allowances = if amount == 0 {
            self.storage.allowances.remove(k)
        } else {
            self.storage.allowances.insert(k, amount)
        };
        self.with_storage(StorageView { allowances, ..self.storage })
    }

    /// The world in which `count` schedules were created for `beneficiary`.
    pub open spec fn set_vesting_count(self, beneficiary: Address, count: u32) -> EnvView {
        self.with_storage(
            StorageView {
                vesting_counts: self.storage.vesting_counts.insert(beneficiary, count),
                ..self.storage
            },
        )
    }

    /// The world in which `schedule` is schedule `id` of `beneficiary`.
    pub open spec fn set_vesting_schedule(
        self,
        beneficiary: Address,
        id: u32,
        schedule: VestingSchedule,
    ) -> EnvView {
        self.with_storage(
            StorageView {
                vestings: self.storage.vestings.insert(vesting_key(beneficiary, id), schedule),
                ..self.storage
            },
        )
    }

    /// The world without schedule `id` of `beneficiary`.
    pub open spec fn remove_vesting_schedule(self, beneficiary: Address, id: u32) -> EnvView {
        self.with_storage(
            StorageView {
                vestings: self.storage.vestings.remove(vesting_key(beneficiary, id)),
                ..self.storage
            },
        )
    }

    /// The world in which the last schedule for `user` was created at `seq`.
    pub open spec fn set_last_vesting_creation_time(self, user: Address, seq: u32) -> EnvView {
        self.with_storage(
            StorageView {
                last_vesting_times: self.storage.last_vesting_times.insert(user, seq),
                ..self.storage
            },
        )
    }

    /// The counters of schedules, fees and locked funds at zero and both
    /// timelocks open.
    pub open spec fn reset_global_state(self) -> EnvView {
        self.with_storage(
            StorageView {
                global_vesting_count: 0,
                storage_fee_pool: 0,
                locked_balance: 0,
                last_mint_time: None,
                last_burn_time: None,
                ..self.storage
            },
        )
    }

    /// Schedules `0..n` of `beneficiary` gone, everything else as it was.
    pub open spec fn without_schedules(self, beneficiary: Address, n: int) -> EnvView {
        self.with_storage(
            StorageView {
                vestings: self.storage.vestings.remove_keys(schedule_keys(beneficiary, n)),
                ..self.storage
            },
        )
    }

    /// What [`increment_vesting_count`] answers: the new count of
    /// `user`, unless a cap is reached.
    pub open spec fn vesting_count_check(self, user: Address) -> Result<u32, BrazaError> {
        if self.storage.vesting_count(user) >= MAX_VESTING_SCHEDULES {
            Err(BrazaError::MaxVestingSchedulesExceeded)
        } else if self.storage.global_vesting_count >= MAX_GLOBAL_VESTING_SCHEDULES {
            Err(BrazaError::GlobalVestingLimitExceeded)
        } else {
            Ok((self.storage.vesting_count(user) + 1) as u32)
        }
    }

    /// Both counters of schedules one higher for `user`.
    pub open spec fn count_vesting(self, user: Address) -> EnvView {
        self.set_vesting_count(
            user,
            (self.storage.vesting_count(user) + 1) as u32,
        ).set_global_vesting_count((self.storage.global_vesting_count + 1) as u32)
    }

    /// Whether `user` may get another schedule at the current tick.
    pub open spec fn vesting_cooldown_expired(self, user: Address) -> bool {
        match self.storage.last_vesting_time(user) {
            None => true,
            Some(last) => elapsed_since(self.ledger_sequence, last)
                >= VESTING_CREATION_COOLDOWN_LEDGERS,
        }
    }
}

/// The ticks from `last` to `now`; zero where `now` lies before `last`.
pub open spec fn elapsed_since(now: u32, last: u32) -> u32 {
    if now >= last {
        (now - last) as u32
    } else {
        0
    }
}

/// The keys of schedules `0..n` of `beneficiary`.
pub open spec fn schedule_keys(beneficiary: Address, n: int) -> Set<u128> {
    Set::new(|k: u128| exists|i: u32| i < n && k == #[trigger] vesting_key(beneficiary, i))
}

/// The schedules of `beneficiary` with an id below `n`, by rising id.
pub open spec fn schedules_below(s: StorageView, beneficiary: Address, n: nat) -> Seq<
    VestingSchedule,
>
    decreases n,
{
    if n == 0 {
        Seq::empty()
    } else {
        let rest = schedules_below(s, beneficiary, (n - 1) as nat);
        match s.schedule(beneficiary, (n - 1) as u32) {
            Some(schedule) => rest.push(schedule),
            None => rest,
        }
    }
}

/// The key under which the allowance that `owner` grants `spender` is kept.
pub fn make_allowance_key(owner: Address, spender: Address) -> (k: u128)
    ensures
        k == allowance_key(owner, spender),
{
    (owner as u128) * 0x1_0000_0000_0000_0000u128 + (spender as u128)
}

/// The key under which schedule `id` of `beneficiary` is kept.
pub fn make_vesting_key(beneficiary: Address, id: u32) -> (k: u128)
    ensures
        k == vesting_key(beneficiary, id),
{
    (beneficiary as u128) * 0x1_0000_0000u128 + (id as u128)
}

/// The token's metadata.
pub fn get_metadata(env: &Env) -> (meta: TokenMetadata)
    requires
        env@.storage.metadata is Some,
    ensures
        Some(meta) == env@.storage.metadata,
{
    match &env.storage.metadata {
        Some(m) => TokenMetadata {
            name: m.name.clone(),
            symbol: m.symbol.clone(),
            decimals: m.decimals,
        },
        None => TokenMetadata { name: String::new(), symbol: String::new(), decimals: 0 },
    }
}

/// Stores the token's metadata.
pub fn set_metadata(env: &mut Env, meta: TokenMetadata)
    ensures
        final(env)@ == old(env)@.set_metadata(meta),
{
    env.storage.metadata = Some(meta);
}

/// Whether `addr` is on the blacklist.
pub fn is_blacklisted(env: &Env, addr: Address) -> (b: bool)
    ensures
        b == env@.storage.blacklisted(addr),
{
    match env.storage.blacklist.get(&addr) {
        Some(v) => *v,
        None => false,
    }
}

/// Puts `addr` on the blacklist or takes it off.
pub fn set_blacklisted(env: &mut Env, addr: Address, val: bool)
    ensures
        final(env)@ == old(env)@.set_blacklisted(addr, val),
{
    env.storage.blacklist.insert(addr, val);
}

/// How many schedules were created for `beneficiary`.
pub fn get_vesting_count(env: &Env, beneficiary: Address) -> (n: u32)
    ensures
        n == env@.storage.vesting_count(beneficiary),
{
    match env.storage.vesting_counts.get(&beneficiary) {
        Some(v) => *v,
        None => 0,
    }
}

/// Schedule `id` of `beneficiary`, if it exists.
pub fn get_vesting_schedule(env: &Env, beneficiary: Address, id: u32) -> (s: Option<
    VestingSchedule,
>)
    ensures
        s == env@.storage.schedule(beneficiary, id),
{
    let key = make_vesting_key(beneficiary, id);
    match env.storage.vestings.get(&key) {
        Some(v) => Some(*v),
        None => None,
    }
}

/// Stores `schedule` as schedule `id` of `beneficiary`.
pub fn set_vesting_schedule(
    env: &mut Env,
    beneficiary: Address,
    id: u32,
    schedule: &VestingSchedule,
)
    ensures
        final(env)@ == old(env)@.set_vesting_schedule(beneficiary, id, *schedule),
{
    let key = make_vesting_key(beneficiary, id);
    env.storage.vestings.insert(key, *schedule);
}

/// Deletes schedule `id` of `beneficiary`.
pub fn remove_vesting_schedule(env: &mut Env, beneficiary: Address, id: u32)
    ensures
        final(env)@ == old(env)@.remove_vesting_schedule(beneficiary, id),
{
    let key = make_vesting_key(beneficiary, id);
    env.storage.vestings.remove(&key);
}

/// Every schedule of `beneficiary` with an id from zero up to the count of
/// schedules created for it, by rising id.
pub fn get_all_vesting_schedules(env: &Env, beneficiary: Address) -> (v: Vec<VestingSchedule>)
    ensures
        v@ == schedules_below(
            env@.storage,
            beneficiary,
            (env@.storage.vesting_count(beneficiary) + 1) as nat,
        ),
{
    let count = get_vesting_count(env, beneficiary);
    let mut v: Vec<VestingSchedule> = Vec::new();
    let mut id: u32 = 0;
    loop
        invariant_except_break
            v@ == schedules_below(env@.storage, beneficiary, id as nat),
        invariant
            id <= count,
            count == env@.storage.vesting_count(beneficiary),
        ensures
            v@ == schedules_below(env@.storage, beneficiary, (count + 1) as nat),
        decreases count - id,
    {
        if let Some(s) = get_vesting_schedule(env, beneficiary, id) {
            v.push(s);
        }
        assert(v@ == schedules_below(env@.storage, beneficiary, (id + 1) as nat));
        if id == count {
            break;
        }
        id += 1;
    }
    v
}

/// How many schedules exist over all beneficiaries.
pub fn get_global_vesting_count(env: &Env) -> (n: u32)
    ensures
        n == env@.storage.global_vesting_count,
{
    env.storage.global_vesting_count
}

fn increment_global_vesting_count(env: &mut Env)
    requires
        old(env)@.storage.global_vesting_count < u32::MAX,
    ensures
        final(env)@ == old(env)@.set_global_vesting_count(
            (old(env)@.storage.global_vesting_count + 1) as u32,
        ),
{
    let c = get_global_vesting_count(env);
    env.storage.global_vesting_count = c + 1;
}

/// Takes one off the global count of schedules, which never falls below
/// zero.
pub fn decrement_global_vesting_count(env: &mut Env)
    ensures
        final(env)@ == old(env)@.set_global_vesting_count(
            if old(env)@.storage.global_vesting_count > 0 {
                (old(env)@.storage.global_vesting_count - 1) as u32
            } else {
                0
            },
        ),
{
    let c = get_global_vesting_count(env);
    if c > 0 {
        env.storage.global_vesting_count = c - 1;
    }
}

/// The fees collected for keeping schedules.
pub fn get_storage_fee_pool(env: &Env) -> (p: i128)
    ensures
        p == env@.storage.storage_fee_pool,
{
    env.storage.storage_fee_pool
}

/// Adds `amount` to the fee pool; the pool stays as it is where the sum
/// would not fit.
pub fn add_to_storage_fee_pool(env: &mut Env, amount: i128)
    ensures
        final(env)@ == old(env)@.set_storage_fee_pool(
            if i128::MIN <= old(env)@.storage.storage_fee_pool + amount <= i128::MAX {
                (old(env)@.storage.storage_fee_pool + amount) as i128
            } else {
                old(env)@.storage.storage_fee_pool
            },
        ),
{
    let cur = get_storage_fee_pool(env);
    let new = match cur.checked_add(amount) {
        Some(n) => n,
        None => cur,
    };
    env.storage.storage_fee_pool = new;
}

/// Takes `amount` out of the fee pool, or fails with
/// `InsufficientBalance` where the pool holds less, and with
/// `OverflowError` where the difference would not fit.
pub fn withdraw_from_storage_fee_pool(env: &mut Env, amount: i128) -> (r: Result<(), BrazaError>)
    ensures
        r == (if amount > old(env)@.storage.storage_fee_pool {
            Err::<(), BrazaError>(BrazaError::InsufficientBalance)
        } else if old(env)@.storage.storage_fee_pool - amount > i128::MAX {
            Err(BrazaError::OverflowError)
        } else {
            Ok(())
        }),
        final(env)@ == (if r is Ok {
            old(env)@.set_storage_fee_pool((old(env)@.storage.storage_fee_pool - amount) as i128)
        } else {
            old(env)@
        }),
{
    let cur = get_storage_fee_pool(env);
    if amount > cur {
        return Err(BrazaError::InsufficientBalance);
    }
    match cur.checked_sub(amount) {
        Some(n) => {
            env.storage.storage_fee_pool = n;
            Ok(())
        },
        None => Err(BrazaError::OverflowError),
    }
}

/// What `spender` may still draw from `from`.
pub fn get_allowance(env: &Env, from: Address, spender: Address) -> (a: i128)
    ensures
        a == env@.storage.allowance(from, spender),
{
    let key = make_allowance_key(from, spender);
    match env.storage.allowances.get(&key) {
        Some(v) => *v,
        None => 0,
    }
}

/// Whether an allowance of `from` for `spender` is stored.
pub fn has_allowance(env: &Env, from: Address, spender: Address) -> (b: bool)
    ensures
        b == env@.storage.allowances.dom().contains(allowance_key(from, spender)),
{
    let key = make_allowance_key(from, spender);
    env.storage.allowances.contains_key(&key)
}

/// Stores what `spender` may draw from `from`; zero removes the entry.
pub fn set_allowance(env: &mut Env, from: Address, spender: Address, amount: i128)
    ensures
        final(env)@ == old(env)@.set_allowance(from, spender, amount),
{
    let key = make_allowance_key(from, spender);
    if amount == 0 {
        env.storage.allowances.remove(&key);
    } else {
        env.storage.allowances.insert(key, amount);
    }
}

/// Deletes the allowance of `from` for `spender`.
pub fn remove_allowance(env: &mut Env, from: Address, spender: Address)
    ensures
        final(env)@ == old(env)@.set_allowance(from, spender, 0),
{
    let key = make_allowance_key(from, spender);
    env.storage.allowances.remove(&key);
}

/// The part of the supply that grants hold back.
pub fn get_locked_balance(env: &Env) -> (b: i128)
    ensures
        b == env@.storage.locked_balance,
{
    env.storage.locked_balance
}

/// Stores `amt` as the locked balance.
pub fn set_locked_balance(env: &mut Env, amt: i128)
    ensures
        final(env)@ == old(env)@.set_locked_balance(amt),
{
    env.storage.locked_balance = amt;
}

/// Adds `amt` to the locked balance and returns the new value, or fails
/// with `InvalidAmount` where the sum would not fit.
pub fn increment_locked_balance(env: &mut Env, amt: i128) -> (r: Result<i128, BrazaError>)
    ensures
        r == (if i128::MIN <= old(env)@.storage.locked_balance + amt <= i128::MAX {
            Ok::<i128, BrazaError>((old(env)@.storage.locked_balance + amt) as i128)
        } else {
            Err(BrazaError::InvalidAmount)
        }),
        final(env)@ == (match r {
            Ok(new) => old(env)@.set_locked_balance(new),
            Err(_) => old(env)@,
        }),
{
    let cur = get_locked_balance(env);
    match cur.checked_add(amt) {
        Some(new) => {
            set_locked_balance(env, new);
            Ok(new)
        },
        None => Err(BrazaError::InvalidAmount),
    }
}

/// Takes `amt` off the locked balance and returns the new value, or fails
/// with `InsufficientBalance` where less is locked, and with
/// `OverflowError` where the difference would not fit.
pub fn decrement_locked_balance(env: &mut Env, amt: i128) -> (r: Result<i128, BrazaError>)
    ensures
        r == (if old(env)@.storage.locked_balance < amt {
            Err::<i128, BrazaError>(BrazaError::InsufficientBalance)
        } else if old(env)@.storage.locked_balance - amt > i128::MAX {
            Err(BrazaError::OverflowError)
        } else {
            Ok((old(env)@.storage.locked_balance - amt) as i128)
        }),
        final(env)@ == (match r {
            Ok(new) => old(env)@.set_locked_balance(new),
            Err(_) => old(env)@,
        }),
{
    let cur = get_locked_balance(env);
    if cur < amt {
        return Err(BrazaError::InsufficientBalance);
    }
    match cur.checked_sub(amt) {
        Some(new) => {
            set_locked_balance(env, new);
            Ok(new)
        },
        None => Err(BrazaError::OverflowError),
    }
}

/// The supply that grants do not hold back.
pub fn get_circulating_supply(env: &Env) -> (c: i128)
    ensures
        c == env@.storage.circulating_supply(),
{
    let total = get_total_supply(env);
    let locked = get_locked_balance(env);
    match total.checked_sub(locked) {
        Some(d) => d,
        None => if locked < 0 {
            i128::MAX
        } else {
            i128::MIN
        },
    }
}

/// Fails with `InsufficientBalance` exactly when `burn` exceeds the
/// circulating supply.
pub fn validate_burn_not_locked(env: &Env, burn: i128) -> (r: Result<(), BrazaError>)
    ensures
        r == (if burn > env@.storage.circulating_supply() {
            Err::<(), BrazaError>(BrazaError::InsufficientBalance)
        } else {
            Ok(())
        }),
{
    let circ = get_circulating_supply(env);
    if burn > circ {
        return Err(BrazaError::InsufficientBalance);
    }
    Ok(())
}

/// The global count of schedules, its cap, the fee pool and the cap of
/// schedules for one beneficiary.
pub fn get_vesting_stats(env: &Env) -> (stats: (u32, u32, i128, u32))
    ensures
        stats == (
            env@.storage.global_vesting_count,
            MAX_GLOBAL_VESTING_SCHEDULES,
            env@.storage.storage_fee_pool,
            MAX_VESTING_SCHEDULES,
        ),
{
    (
        get_global_vesting_count(env),
        MAX_GLOBAL_VESTING_SCHEDULES,
        get_storage_fee_pool(env),
        MAX_VESTING_SCHEDULES,
    )
}

/// Whether nine tenths of the global cap of schedules are used.
pub fn is_near_global_vesting_limit(env: &Env) -> (b: bool)
    ensures
        b == (env@.storage.global_vesting_count >= 9_000),
{
    let cur = get_global_vesting_count(env);
    let thr = (MAX_GLOBAL_VESTING_SCHEDULES * 90) / 100;
    cur >= thr
}

/// Whether a call is in progress.
pub fn is_reentrancy_locked(env: &Env) -> (b: bool)
    ensures
        b == env@.storage.reentrancy_locked,
{
    env.storage.reentrancy_locked
}

/// Sets or clears the flag that marks a call in progress.
pub fn set_reentrancy_guard(env: &mut Env, locked: bool)
    ensures
        final(env)@ == old(env)@.set_reentrancy_guard(locked),
{
    env.storage.reentrancy_locked = locked;
}

/// Fails with `Unauthorized` exactly when a call is in progress.
pub fn assert_no_reentrancy(env: &Env) -> (r: Result<(), BrazaError>)
    ensures
        r == (if env@.storage.reentrancy_locked {
            Err::<(), BrazaError>(BrazaError::Unauthorized)
        } else {
            Ok(())
        }),
{
    if is_reentrancy_locked(env) {
        return Err(BrazaError::Unauthorized);
    }
    Ok(())
}

/// The tick of the last privileged issuance.
pub fn get_last_mint_time(env: &Env) -> (t: Option<u32>)
    ensures
        t == env@.storage.last_mint_time,
{
    env.storage.last_mint_time
}

/// Records the tick of a privileged issuance.
pub fn set_last_mint_time(env: &mut Env, ledger: u32)
    ensures
        final(env)@ == old(env)@.set_last_mint_time(ledger),
{
    env.storage.last_mint_time = Some(ledger);
}

/// The tick of the last privileged destruction.
pub fn get_last_burn_time(env: &Env) -> (t: Option<u32>)
    ensures
        t == env@.storage.last_burn_time,
{
    env.storage.last_burn_time
}

/// Records the tick of a privileged destruction.
pub fn set_last_burn_time(env: &mut Env, ledger: u32)
    ensures
        final(env)@ == old(env)@.set_last_burn_time(ledger),
{
    env.storage.last_burn_time = Some(ledger);
}

/// The tick at which the last schedule for `user` was created.
pub fn get_last_vesting_creation_time(env: &Env, user: Address) -> (t: Option<u32>)
    ensures
        t == env@.storage.last_vesting_time(user),
{
    match env.storage.last_vesting_times.get(&user) {
        Some(v) => Some(*v),
        None => None,
    }
}

/// Records the tick at which a schedule for `user` was created.
pub fn set_last_vesting_creation_time(env: &mut Env, user: Address, seq: u32)
    ensures
        final(env)@ == old(env)@.set_last_vesting_creation_time(user, seq),
{
    env.storage.last_vesting_times.insert(user, seq);
}

/// Whether `user` may get another schedule at the current tick.
pub fn is_vesting_cooldown_expired(env: &Env, user: Address) -> (b: bool)
    ensures
        b == env@.vesting_cooldown_expired(user),
{
    match get_last_vesting_creation_time(env, user) {
        None => true,
        Some(last) => {
            let now = env.ledger_sequence;
            now.saturating_sub(last) >= VESTING_CREATION_COOLDOWN_LEDGERS
        },
    }
}

/// The ticks that `user` still has to wait for another schedule; `None`
/// where there is nothing to wait for.
pub fn get_vesting_cooldown_remaining(env: &Env, user: Address) -> (r: Option<u32>)
    ensures
        r == (match env@.storage.last_vesting_time(user) {
            None => None::<u32>,
            Some(last) => if elapsed_since(env@.ledger_sequence, last)
                < VESTING_CREATION_COOLDOWN_LEDGERS {
                Some(
                    (VESTING_CREATION_COOLDOWN_LEDGERS - elapsed_since(
                        env@.ledger_sequence,
                        last,
                    )) as u32,
                )
            } else {
                None
            },
        }),
{
    match get_last_vesting_creation_time(env, user) {
        None => None,
        Some(last) => {
            let now = env.ledger_sequence;
            let el = now.saturating_sub(last);
            if el < VESTING_CREATION_COOLDOWN_LEDGERS {
                Some(VESTING_CREATION_COOLDOWN_LEDGERS - el)
            } else {
                None
            }
        },
    }
}

/// Notifies that the balance of `user` changed by `amount`.
pub fn emit_balance_event(env: &mut Env, user: Address, amount: i128)
    ensures
        final(env)@ == old(env)@.emit(Event::BalanceChanged { user, amount }),
{
    env.events.push(Event::BalanceChanged { user, amount });
}

/// Notifies that `admin` was set as administrator.
pub fn emit_admin_event(env: &mut Env, admin: Address)
    ensures
        final(env)@ == old(env)@.emit(Event::AdminSet { admin }),
{
    env.events.push(Event::AdminSet { admin });
}

/// Succeeds exactly when `caller` is the administrator.
pub fn ensure_admin(env: &Env, caller: Address) -> (r: Result<(), BrazaError>)
    ensures
        r == (if env@.storage.admin == Some(caller) {
            Ok::<(), BrazaError>(())
        } else {
            Err(BrazaError::Unauthorized)
        }),
{
    match env.storage.admin {
        Some(admin) => {
            if admin != caller {
                return Err(BrazaError::Unauthorized);
            }
            Ok(())
        },
        None => Err(BrazaError::Unauthorized),
    }
}

/// Fails with `Paused` exactly when the ledger is paused.
pub fn assert_not_paused(env: &Env) -> (r: Result<(), BrazaError>)
    ensures
        r == (if env@.storage.paused {
            Err::<(), BrazaError>(BrazaError::Paused)
        } else {
            Ok(())
        }),
{
    if is_paused(env) {
        return Err(BrazaError::Paused);
    }
    Ok(())
}

/// Credits `amt` to `user`, or fails with `OverflowError` where the new
/// balance would not fit.
pub fn add_balance(env: &mut Env, user: Address, amt: i128) -> (r: Result<(), BrazaError>)
    ensures
        r == (if i128::MIN <= old(env)@.storage.balance(user) + amt <= i128::MAX {
            Ok::<(), BrazaError>(())
        } else {
            Err(BrazaError::OverflowError)
        }),
        final(env)@ == (if r is Ok {
            old(env)@.set_balance(user, (old(env)@.storage.balance(user) + amt) as i128)
        } else {
            old(env)@
        }),
{
    let cur = get_balance(env, user);
    match cur.checked_add(amt) {
        Some(new) => {
            set_balance(env, user, new);
            Ok(())
        },
        None => Err(BrazaError::OverflowError),
    }
}

/// Debits `amt` from `user`, or fails with `InsufficientBalance` where
/// `user` holds less, and with `OverflowError` where the new balance would
/// not fit.
pub fn sub_balance(env: &mut Env, user: Address, amt: i128) -> (r: Result<(), BrazaError>)
    ensures
        r == (if old(env)@.storage.balance(user) < amt {
            Err::<(), BrazaError>(BrazaError::InsufficientBalance)
        } else if old(env)@.storage.balance(user) - amt > i128::MAX {
            Err(BrazaError::OverflowError)
        } else {
            Ok(())
        }),
        final(env)@ == (if r is Ok {
            old(env)@.set_balance(user, (old(env)@.storage.balance(user) - amt) as i128)
        } else {
            old(env)@
        }),
{
    let cur = get_balance(env, user);
    if cur < amt {
        return Err(BrazaError::InsufficientBalance);
    }
    match cur.checked_sub(amt) {
        Some(new) => {
            set_balance(env, user, new);
            Ok(())
        },
        None => Err(BrazaError::OverflowError),
    }
}

/// Puts the counters of schedules, fees and locked funds back to zero and
/// opens both timelocks.
pub fn reset_global_state(env: &mut Env)
    ensures
        final(env)@ == old(env)@.reset_global_state(),
{
    env.storage.global_vesting_count = 0;
    env.storage.storage_fee_pool = 0;
    env.storage.locked_balance = 0;
    env.storage.last_mint_time = None;
    env.storage.last_burn_time = None;
}

/// Deletes the stored balance of `addr`.
pub fn cleanup_balance(env: &mut Env, addr: Address)
    ensures
        final(env)@ == old(env)@.remove_balance(addr),
{
    env.storage.balances.remove(&addr);
}

/// Deletes every schedule of `addr` with an id from zero up to the count
/// of schedules created for it, and the count itself.
pub fn cleanup_vesting_user(env: &mut Env, addr: Address)
    ensures
        final(env)@ == old(env)@.with_storage(
            StorageView {
                vesting_counts: old(env)@.storage.vesting_counts.remove(addr),
                vestings: old(env)@.storage.vestings.remove_keys(
                    schedule_keys(addr, old(env)@.storage.vesting_count(addr) + 1),
                ),
                ..old(env)@.storage
            },
        ),
{
    let cnt = get_vesting_count(env, addr);
    remove_schedules_through(env, addr, cnt);
    env.storage.vesting_counts.remove(&addr);
}

/// Deletes schedules `0..=last` of `beneficiary`.
fn remove_schedules_through(env: &mut Env, beneficiary: Address, last: u32)
    ensures
        final(env)@ == old(env)@.without_schedules(beneficiary, last + 1),
{
    let mut id: u32 = 0;
    proof {
        assert(schedule_keys(beneficiary, 0) =~= Set::<u128>::empty());
        assert(env@.storage.vestings.remove_keys(Set::<u128>::empty())
            =~= env@.storage.vestings);
    }
    loop
        invariant_except_break
            env@ == old(env)@.without_schedules(beneficiary, id as int),
        invariant
            id <= last,
        ensures
            env@ == old(env)@.without_schedules(beneficiary, last + 1),
        decreases last - id,
    {
        let ghost before = env@.storage.vestings;
        remove_vesting_schedule(env, beneficiary, id);
        proof {
            let start = old(env)@.storage.vestings;
            assert(schedule_keys(beneficiary, id + 1) =~= schedule_keys(
                beneficiary,
                id as int,
            ).insert(vesting_key(beneficiary, id)));
            assert(before.remove(vesting_key(beneficiary, id)) =~= start.remove_keys(
                schedule_keys(beneficiary, id + 1),
            ));
        }
        if id == last {
            break;
        }
        id += 1;
    }
}

/// The value of `flag`.
pub fn get_bool(env: &Env, flag: Flag) -> (b: bool)
    ensures
        b == (match flag {
            Flag::Paused => env@.storage.paused,
            Flag::ReentrancyLock => env@.storage.reentrancy_locked,
        }),
{
    match flag {
        Flag::Paused => env.storage.paused,
        Flag::ReentrancyLock => env.storage.reentrancy_locked,
    }
}

/// Stores `val` as the value of `flag`.
pub fn set_bool(env: &mut Env, flag: Flag, val: bool)
    ensures
        final(env)@ == (match flag {
            Flag::Paused => old(env)@.set_paused(val),
            Flag::ReentrancyLock => old(env)@.set_reentrancy_guard(val),
        }),
{
    match flag {
        Flag::Paused => {
            env.storage.paused = val;
        },
        Flag::ReentrancyLock => {
            env.storage.reentrancy_locked = val;
        },
    }
}

/// The current tick.
pub fn ledger_seq(env: &Env) -> (seq: u32)
    ensures
        seq == env@.ledger_sequence,
{
    env.ledger_sequence
}

/// Whether an administrator is stored.
pub fn has_admin(env: &Env) -> (b: bool)
    ensures
        b == (env@.storage.admin is Some),
{
    env.storage.admin.is_some()
}

/// The administrator.
pub fn get_admin(env: &Env) -> (admin: Address)
    requires
        env@.storage.admin is Some,
    ensures
        Some(admin) == env@.storage.admin,
{
    match env.storage.admin {
        Some(a) => a,
        None => 0,
    }
}

/// Stores `admin` as the administrator.
pub fn set_admin(env: &mut Env, admin: Address)
    ensures
        final(env)@ == old(env)@.set_admin(admin),
{
    env.storage.admin = Some(admin);
}

/// Whether the ledger is paused.
pub fn is_paused(env: &Env) -> (b: bool)
    ensures
        b == env@.storage.paused,
{
    env.storage.paused
}

/// Pauses or resumes the ledger.
pub fn set_paused(env: &mut Env, val: bool)
    ensures
        final(env)@ == old(env)@.set_paused(val),
{
    env.storage.paused = val;
}

/// The total supply.
pub fn get_total_supply(env: &Env) -> (s: i128)
    ensures
        s == env@.storage.total_supply,
{
    env.storage.total_supply
}

/// Stores `amt` as the total supply.
pub fn set_total_supply(env: &mut Env, amt: i128)
    ensures
        final(env)@ == old(env)@.set_total_supply(amt),
{
    env.storage.total_supply = amt;
}

/// What `user` holds; zero where nothing is stored.
pub fn get_balance(env: &Env, user: Address) -> (b: i128)
    ensures
        b == env@.storage.balance(user),
{
    match env.storage.balances.get(&user) {
        Some(v) => *v,
        None => 0,
    }
}

/// Stores `amt` as the balance of `user`.
pub fn set_balance(env: &mut Env, user: Address, amt: i128)
    ensures
        final(env)@ == old(env)@.set_balance(user, amt),
{
    env.storage.balances.insert(user, amt);
}

/// Counts one more schedule for `user` and returns the new count, or
/// fails where `user` or the ledger as a whole has reached its cap.
pub fn increment_vesting_count(env: &mut Env, user: Address) -> (r: Result<u32, BrazaError>)
    ensures
        r == old(env)@.vesting_count_check(user),
        final(env)@ == (if r is Ok {
            old(env)@.count_vesting(user)
        } else {
            old(env)@
        }),
{
    let cur = get_vesting_count(env, user);
    if cur >= MAX_VESTING_SCHEDULES {
        return Err(BrazaError::MaxVestingSchedulesExceeded);
    }
    let global = get_global_vesting_count(env);
    if global >= MAX_GLOBAL_VESTING_SCHEDULES {
        return Err(BrazaError::GlobalVestingLimitExceeded);
    }
    let new = cur + 1;
    env.storage.vesting_counts.insert(user, new);
    increment_global_vesting_count(env);
    Ok(new)
}

/// Stores a schedule for `beneficiary` that is not revocable, with a
/// start tick of the caller's choice and under the id one below the new
/// count, and returns that id. No funds move. Fails where `beneficiary`
/// or the ledger as a whole has reached its cap of schedules.
pub fn create_test_vesting(
    env: &mut Env,
    beneficiary: Address,
    amount: i128,
    start: u32,
    cliff: u32,
    duration: u32,
) -> (r: Result<u32, BrazaError>)
    ensures
        r == (match old(env)@.vesting_count_check(beneficiary) {
            Ok(count) => Ok::<u32, BrazaError>((count - 1) as u32),
            Err(e) => Err(e),
        }),
        final(env)@ == (match r {
            Ok(id) => old(env)@.count_vesting(beneficiary).set_vesting_schedule(
                beneficiary,
                id,
                VestingSchedule {
                    beneficiary,
                    total_amount: amount,
                    released_amount: 0,
                    start_ledger: start,
                    cliff_ledgers: cliff,
                    duration_ledgers: duration,
                    revocable: false,
                    revoked: false,
                },
            ),
            Err(_) => old(env)@,
        }),
{
    let id = increment_vesting_count(env, beneficiary)?;
    let schedule = VestingSchedule {
        beneficiary,
        total_amount: amount,
        released_amount: 0,
        start_ledger: start,
        cliff_ledgers: cliff,
        duration_ledgers: duration,
        revocable: false,
        revoked: false,
    };
    set_vesting_schedule(env, beneficiary, id - 1, &schedule);
    Ok(id - 1)
}

/// Deletes every schedule of `beneficiary` with an id from zero up to
/// the count of schedules created for it, and puts that count to zero.
pub fn clear_all_vestings(env: &mut Env, beneficiary: Address)
    ensures
        final(env)@ == old(env)@.without_schedules(
            beneficiary,
            old(env)@.storage.vesting_count(beneficiary) + 1,
        ).set_vesting_count(beneficiary, 0),
{
    let count = get_vesting_count(env, beneficiary);
    remove_schedules_through(env, beneficiary, count);
    env.storage.vesting_counts.insert(beneficiary, 0);
}

} // verus!
