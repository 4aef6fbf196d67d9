//! Choice of fee recipients.

use vstd::prelude::*;

use crate::key_order::{dedupe_sorted, strictly_sorted};
use crate::pubkey::{is_default_key, Pubkey, DEFAULT_KEY};
use crate::sdk::PumpSdk;
use crate::state::pump_amm::GlobalConfig;
use crate::state::Global;

verus! {

/// Whether `key` is a protocol fee recipient of `global`: mayhem coins have their own.
pub open spec fn fee_candidate(global: &Global, is_mayhem: bool, key: Pubkey) -> bool {
    &&& key != DEFAULT_KEY
    &&& if is_mayhem {
        key == global.reserved_fee_recipient || global.reserved_fee_recipients@.contains(key)
    } else {
        key == global.fee_recipient || global.fee_recipients@.contains(key)
    }
}

/// Whether `key` is a buyback fee recipient of `global`.
pub open spec fn buyback_candidate(global: &Global, key: Pubkey) -> bool {
    key != DEFAULT_KEY && global.buyback_fee_recipients@.contains(key)
}

/// Whether `key` is a protocol fee recipient of the AMM.
pub open spec fn amm_fee_candidate(config: &GlobalConfig, key: Pubkey) -> bool {
    key != DEFAULT_KEY && config.protocol_fee_recipients@.contains(key)
}

/// Whether `key` is a buyback fee recipient of the AMM.
pub open spec fn amm_buyback_candidate(config: &GlobalConfig, key: Pubkey) -> bool {
    key != DEFAULT_KEY && config.buyback_fee_recipients@.contains(key)
}

/// Whether `keys` lists in order exactly the keys that `candidate` admits.
pub open spec fn lists_exactly(keys: Seq<Pubkey>, candidate: spec_fn(Pubkey) -> bool) -> bool {
    &&& strictly_sorted(keys)
    &&& forall|key: Pubkey| #[trigger] keys.contains(key) <==> candidate(key)
}

/// The keys of `pool` that are set, in order and each once; `primary` too where it is set.
pub(crate) fn set_keys(primary: Option<Pubkey>, pool: &Vec<Pubkey>) -> (r: Vec<Pubkey>)
    ensures
        strictly_sorted(r@),
        forall|key: Pubkey|
            #[trigger] r@.contains(key) <==> key != DEFAULT_KEY && (primary == Some(key)
                || pool@.contains(key)),
{
    let mut keys: Vec<Pubkey> = Vec::new();
    if let Some(key) = primary {
        if !is_default_key(&key) {
            keys.push(key);
            assert(keys@[0] == key);
        }
    }
    let ghost first = keys@;
    assert(forall|key: Pubkey|
        #[trigger] first.contains(key) <==> key != DEFAULT_KEY && primary == Some(key));
    let mut i: usize = 0;
    while i < pool.len()
        invariant
            i <= pool@.len(),
            forall|key: Pubkey|
                #[trigger] keys@.contains(key) <==> key != DEFAULT_KEY && (primary == Some(key)
                    || pool@.take(i as int).contains(key)),
        decreases pool@.len() - i,
    {
        let ghost before = keys@;
        let ghost seen = pool@.take(i as int);
        let ghost next = pool@.take(i + 1);
        assert(next =~= seen.push(pool@[i as int]));
        if !is_default_key(&pool[i]) {
            keys.push(pool[i]);
        }
        assert forall|key: Pubkey| #[trigger]
            keys@.contains(key) <==> key != DEFAULT_KEY && (primary == Some(key) || next.contains(
                key,
            )) by {
            lemma_push_contains(seen, pool@[i as int], key);
            lemma_push_contains(before, pool@[i as int], key);
            assert(before.contains(key) <==> key != DEFAULT_KEY && (primary == Some(key)
                || seen.contains(key)));
        }
        i = i + 1;
    }
    assert(pool@.take(i as int) =~= pool@);
    dedupe_sorted(&mut keys);
    keys
}

proof fn lemma_push_contains(keys: Seq<Pubkey>, last: Pubkey, key: Pubkey)
    ensures
        keys.push(last).contains(key) <==> keys.contains(key) || key == last,
{
    let longer = keys.push(last);
    assert(longer[keys.len() as int] == last);
    if keys.contains(key) {
        let j = choose|j: int| 0 <= j < keys.len() && keys[j] == key;
        assert(longer[j] == key);
    }
    if longer.contains(key) {
        let j = choose|j: int| 0 <= j < longer.len() && longer[j] == key;
        if j < keys.len() {
            assert(keys[j] == key);
        }
    }
}

/// The protocol fee recipients of `global`, in order and each once.
pub fn fee_candidates(global: &Global, is_mayhem: bool) -> (r: Vec<Pubkey>)
    ensures
        lists_exactly(r@, |key: Pubkey| fee_candidate(global, is_mayhem, key)),
{
    if is_mayhem {
        set_keys(Some(global.reserved_fee_recipient), &global.reserved_fee_recipients)
    } else {
        set_keys(Some(global.fee_recipient), &global.fee_recipients)
    }
}

/// The buyback fee recipients of `global`, in order and each once.
pub fn buyback_candidates(global: &Global) -> (r: Vec<Pubkey>)
    ensures
        lists_exactly(r@, |key: Pubkey| buyback_candidate(global, key)),
{
    set_keys(None, &global.buyback_fee_recipients)
}

/// The protocol fee recipients of the AMM, in order and each once.
pub fn amm_fee_candidates(config: &GlobalConfig) -> (r: Vec<Pubkey>)
    ensures
        lists_exactly(r@, |key: Pubkey| amm_fee_candidate(config, key)),
{
    set_keys(None, &config.protocol_fee_recipients)
}

/// The buyback fee recipients of the AMM, in order and each once.
pub fn amm_buyback_candidates(config: &GlobalConfig) -> (r: Vec<Pubkey>)
    ensures
        lists_exactly(r@, |key: Pubkey| amm_buyback_candidate(config, key)),
{
    set_keys(None, &config.buyback_fee_recipients)
}

/// Calls `fastrand::usize` on `..len`. Claimed: the number is below `len`; which one
/// it is, chance decides. The call panics for an empty range.
#[verifier::external_body]
fn random_index(len: usize) -> (r: usize)
    requires
        len > 0,
    ensures
        r < len,
{
    fastrand::usize(..len)
}

/// The candidate at `index`, where there is one.
pub fn pick_pubkey(candidates: &Vec<Pubkey>, index: usize) -> (r: Option<Pubkey>)
    ensures
        r == (if index < candidates@.len() {
            Some(candidates@[index as int])
        } else {
            None
        }),
{
    if index < candidates.len() {
        Some(candidates[index])
    } else {
        None
    }
}

/// Some candidate, where there is one; chance decides which.
fn pick_random_pubkey(candidates: &Vec<Pubkey>) -> (r: Option<Pubkey>)
    ensures
        match r {
            Some(key) => candidates@.contains(key),
            None => candidates@.len() == 0,
        },
{
    if candidates.len() == 0 {
        return None;
    }
    let index: usize = random_index(candidates.len());
    pick_pubkey(candidates, index)
}

impl PumpSdk {
    /// A protocol fee recipient of `global`, by chance among those that are set.
    pub fn fee_recipient_from_pump_global(global: &Global, is_mayhem: bool) -> (r: Option<Pubkey>)
        ensures
            match r {
                Some(key) => fee_candidate(global, is_mayhem, key),
                None => forall|key: Pubkey| !#[trigger] fee_candidate(global, is_mayhem, key),
            },
    {
        let keys = fee_candidates(global, is_mayhem);
        assert(forall|key: Pubkey|
            #[trigger] fee_candidate(global, is_mayhem, key) <==> keys@.contains(key));
        pick_random_pubkey(&keys)
    }

    /// A buyback fee recipient of `global`, by chance among those that are set.
    pub fn buyback_fee_recipient_from_pump_global(global: &Global) -> (r: Option<Pubkey>)
        ensures
            match r {
                Some(key) => buyback_candidate(global, key),
                None => forall|key: Pubkey| !#[trigger] buyback_candidate(global, key),
            },
    {
        let keys = buyback_candidates(global);
        assert(forall|key: Pubkey|
            #[trigger] buyback_candidate(global, key) <==> keys@.contains(key));
        pick_random_pubkey(&keys)
    }

    /// A protocol fee recipient of the AMM, by chance among those that are set.
    pub fn protocol_fee_recipient_from_amm_global(global_config: &GlobalConfig) -> (r: Option<
        Pubkey,
    >)
        ensures
            match r {
                Some(key) => amm_fee_candidate(global_config, key),
                None => forall|key: Pubkey| !#[trigger] amm_fee_candidate(global_config, key),
            },
    {
        let keys = amm_fee_candidates(global_config);
        assert(forall|key: Pubkey|
            #[trigger] amm_fee_candidate(global_config, key) <==> keys@.contains(key));
        pick_random_pubkey(&keys)
    }

    /// A buyback fee recipient of the AMM, by chance among those that are set.
    pub fn buyback_fee_recipient_from_amm_global(global_config: &GlobalConfig) -> (r: Option<
        Pubkey,
    >)
        ensures
            match r {
                Some(key) => amm_buyback_candidate(global_config, key),
                None => forall|key: Pubkey| !#[trigger] amm_buyback_candidate(global_config, key),
            },
    {
        let keys = amm_buyback_candidates(global_config);
        assert(forall|key: Pubkey|
            #[trigger] amm_buyback_candidate(global_config, key) <==> keys@.contains(key));
        pick_random_pubkey(&keys)
    }

    /// A protocol and a buyback fee recipient of `global`; nothing where either list
    /// has none set.
    pub fn pump_fee_recipients_pair(global: &Global, is_mayhem: bool) -> (r: Option<
        (Pubkey, Pubkey),
    >)
        ensures
            match r {
                Some((fee, buyback)) => fee_candidate(global, is_mayhem, fee) && buyback_candidate(
                    global,
                    buyback,
                ),
                None => no_recipients(global, is_mayhem),
            },
    {
        let fee = Self::fee_recipient_from_pump_global(global, is_mayhem)?;
        let buyback = Self::buyback_fee_recipient_from_pump_global(global)?;
        Some((fee, buyback))
    }

    /// A protocol and a buyback fee recipient of the AMM; nothing where either list
    /// has none set.
    pub fn amm_fee_recipients_pair(global_config: &GlobalConfig) -> (r: Option<(Pubkey, Pubkey)>)
        ensures
            match r {
                Some((fee, buyback)) => amm_fee_candidate(global_config, fee)
                    && amm_buyback_candidate(global_config, buyback),
                None => no_amm_recipients(global_config),
            },
    {
        let fee = Self::protocol_fee_recipient_from_amm_global(global_config)?;
        let buyback = Self::buyback_fee_recipient_from_amm_global(global_config)?;
        Some((fee, buyback))
    }
}

/// Whether `global` lacks a protocol or a buyback fee recipient.
pub open spec fn no_recipients(global: &Global, is_mayhem: bool) -> bool {
    ||| forall|key: Pubkey| !#[trigger] fee_candidate(global, is_mayhem, key)
    ||| forall|key: Pubkey| !#[trigger] buyback_candidate(global, key)
}

/// Whether the AMM lacks a protocol or a buyback fee recipient.
pub open spec fn no_amm_recipients(config: &GlobalConfig) -> bool {
    ||| forall|key: Pubkey| !#[trigger] amm_fee_candidate(config, key)
    ||| forall|key: Pubkey| !#[trigger] amm_buyback_candidate(config, key)
}

/// Whether `r` is an outcome of building with recipients of `global` picked by
/// chance: what `build` gives for some pair of them, or nothing where there is none.
pub open spec fn built_with_recipients<T>(
    global: &Global,
    is_mayhem: bool,
    build: spec_fn(Pubkey, Pubkey) -> Option<T>,
    r: Option<T>,
) -> bool {
    ||| r is None && no_recipients(global, is_mayhem)
    ||| exists|fee: Pubkey, buyback: Pubkey|
        {
            &&& #[trigger] fee_candidate(global, is_mayhem, fee)
            &&& #[trigger] buyback_candidate(global, buyback)
            &&& r == build(fee, buyback)
        }
}

/// As [`built_with_recipients`], with recipients of the AMM.
pub open spec fn built_with_amm_recipients<T>(
    config: &GlobalConfig,
    build: spec_fn(Pubkey, Pubkey) -> Option<T>,
    r: Option<T>,
) -> bool {
    ||| r is None && no_amm_recipients(config)
    ||| exists|fee: Pubkey, buyback: Pubkey|
        {
            &&& #[trigger] amm_fee_candidate(config, fee)
            &&& #[trigger] amm_buyback_candidate(config, buyback)
            &&& r == build(fee, buyback)
        }
}

} // verus!
