//! Laws of snapshots: which accounts are asked for, and what the replies call for.

use vstd::prelude::*;

use crate::account_wrapper::{holds_account, AccountState};
use crate::bytes::{
    le_bytes, le_value, lemma_byte_ranges, lemma_le_bytes_len, lemma_le_round_trip,
};
use crate::client::Account;
use crate::clone_accounts::plan::{
    addresses_marked, curve_requests_view, fixed_requests, followed_up, mint_bytes,
    mint_requests_view, pool_requests_view, receives_fees, requests_of, AccountRequest,
    AccountRole, RequestView,
};
use crate::clone_accounts::Network;
use crate::constants::{
    pump, pump_agent_payments, pump_amm, DEVNET_ALT, FEE_PROGRAM_ID, MAINNET_ALT,
    MAYHEM_PROGRAM_ID, NATIVE_MINT, SPL_TOKEN_2022_PROGRAM_ID, SPL_TOKEN_PROGRAM_ID,
};
use crate::errors::ClientResult;
use crate::pda::mayhem;
use crate::pubkey::Pubkey;
use crate::sdk::account_laws::{curve_of, seeded, token_account};
use crate::sdk::list_laws::{is_listed, may_receive, vault_of};
use crate::state::pump_amm::Pool;
use crate::state::{BondingCurve, Global};

verus! {

/// An account that a snapshot asks for.
pub struct Wanted {
    pub label: Seq<char>,
    pub role: AccountRole,
    pub address: Option<Pubkey>,
    pub required: bool,
}

/// An account without which a run fails.
pub open spec fn needs(label: Seq<char>, address: Option<Pubkey>) -> Wanted {
    Wanted { label, role: AccountRole::Plain, address, required: true }
}

/// An account that may be missing.
pub open spec fn takes(label: Seq<char>, address: Option<Pubkey>) -> Wanted {
    Wanted { label, role: AccountRole::Plain, address, required: false }
}

/// Whether all wanted accounts have an address.
pub open spec fn all_have_addresses(table: Seq<Wanted>) -> bool {
    forall|i: int| 0 <= i < table.len() ==> (#[trigger] table[i]).address is Some
}

/// Whether a list asks the chosen cluster for the wanted accounts, in order and for no
/// others; there is one exactly where they have addresses.
pub open spec fn asks_for(list: Option<Seq<RequestView>>, table: Seq<Wanted>) -> bool {
    match list {
        Some(list) => {
            &&& all_have_addresses(table)
            &&& list.len() == table.len()
            &&& forall|i: int|
                0 <= i < list.len() ==> {
                    let request = #[trigger] list[i];
                    &&& request.label == table[i].label
                    &&& request.role == table[i].role
                    &&& Some(request.address) == table[i].address
                    &&& request.required == table[i].required
                    &&& !request.fetch_from_mainnet
                }
        },
        None => !all_have_addresses(table),
    }
}

/// Wanted accounts that all have an address have one each.
proof fn lemma_each(table: Seq<Wanted>)
    requires
        all_have_addresses(table),
    ensures
        table.len() > 0 ==> table[0].address is Some,
        table.len() > 1 ==> table[1].address is Some,
        table.len() > 2 ==> table[2].address is Some,
        table.len() > 3 ==> table[3].address is Some,
        table.len() > 4 ==> table[4].address is Some,
        table.len() > 5 ==> table[5].address is Some,
        table.len() > 6 ==> table[6].address is Some,
        table.len() > 7 ==> table[7].address is Some,
        table.len() > 8 ==> table[8].address is Some,
        table.len() > 9 ==> table[9].address is Some,
        table.len() > 10 ==> table[10].address is Some,
        table.len() > 11 ==> table[11].address is Some,
        table.len() > 12 ==> table[12].address is Some,
{
}

/// The program state of every snapshot, and the lookup table of the cluster.
pub open spec fn program_state(network: Network, agent_program: Pubkey) -> Seq<Wanted> {
    let curve_program = pump::PROGRAM_ID;
    let pool_program = pump_amm::PROGRAM_ID;
    seq![
        needs("pump:global"@, seeded(seq![pump::GLOBAL_SEED@], curve_program)),
        takes("pump:event_authority"@, seeded(seq![pump::EVENT_AUTHORITY_SEED@], curve_program)),
        takes("pump:mint_authority"@, seeded(seq![pump::MINT_AUTHORITY_SEED@], curve_program)),
        needs(
            "pump:global_volume_accumulator"@,
            seeded(seq![pump::GLOBAL_VOLUME_ACCUMULATOR_SEED@], curve_program),
        ),
        needs(
            "pump:fee_config"@,
            seeded(seq![pump::FEE_CONFIG_SEED@, curve_program@], FEE_PROGRAM_ID),
        ),
        takes(
            "pump_amm:global_config"@,
            seeded(seq![pump_amm::GLOBAL_CONFIG_SEED@], pool_program),
        ),
        takes(
            "pump_amm:event_authority"@,
            seeded(seq![pump_amm::EVENT_AUTHORITY_SEED@], pool_program),
        ),
        takes(
            "pump_amm:global_volume_accumulator"@,
            seeded(seq![pump_amm::GLOBAL_VOLUME_ACCUMULATOR_SEED@], pool_program),
        ),
        needs(
            "pump_amm:fee_config"@,
            seeded(seq![pump_amm::FEE_CONFIG_SEED@, pool_program@], FEE_PROGRAM_ID),
        ),
        takes(
            "pump_agent_payments:global_config"@,
            seeded(seq![pump_agent_payments::GLOBAL_CONFIG_SEED@], agent_program),
        ),
        needs(
            "mayhem:global_params"@,
            seeded(seq![mayhem::GLOBAL_PARAMS_SEED@], MAYHEM_PROGRAM_ID),
        ),
        needs("mayhem:sol_vault"@, seeded(seq![mayhem::SOL_VAULT_SEED@], MAYHEM_PROGRAM_ID)),
        match network {
            Network::Devnet => needs("alt:devnet"@, Some(DEVNET_ALT)),
            Network::Mainnet => needs("alt:mainnet"@, Some(MAINNET_ALT)),
        },
    ]
}

/// Every snapshot asks for the program state.
pub proof fn law_snapshots_hold_the_program_state(network: Network, agent_program: Pubkey)
    ensures
        asks_for(fixed_requests(network, agent_program), program_state(network, agent_program)),
{
    let table = program_state(network, agent_program);
    if all_have_addresses(table) {
        lemma_each(table);
    }
}

/// A coin is asked for by its mint and by its curve, which is then read.
pub proof fn law_coins_are_asked_for(mint: Pubkey)
    ensures
        asks_for(
            mint_requests_view(mint),
            seq![
                needs("mint"@, Some(mint)),
                Wanted {
                    label: "bonding_curve"@,
                    role: AccountRole::BondingCurve,
                    address: curve_of(mint),
                    required: true,
                },
            ],
        ),
{
    let table = seq![
        needs("mint"@, Some(mint)),
        Wanted {
            label: "bonding_curve"@,
            role: AccountRole::BondingCurve,
            address: curve_of(mint),
            required: true,
        },
    ];
    if all_have_addresses(table) {
        lemma_each(table);
    }
}

/// The pool that the bonding-curve program opens for a coin: number zero of the coin's
/// pool authority, against wrapped SOL.
pub open spec fn opened_pool(mint: Pubkey) -> Option<Pubkey> {
    match seeded(seq![pump::POOL_AUTHORITY_SEED@, mint@], pump::PROGRAM_ID) {
        Some(authority) => seeded(
            seq![pump_amm::POOL_SEED@, seq![0u8, 0u8], authority@, mint@, NATIVE_MINT@],
            pump_amm::PROGRAM_ID,
        ),
        None => None,
    }
}

/// The accounts round a curve; for a completed one its pool, which is then read.
pub open spec fn round_curve(mint: Pubkey, creator: Pubkey, complete: bool) -> Seq<Wanted> {
    let curve = curve_of(mint);
    seq![
        takes("creator_vault"@, vault_of(creator)),
        takes("sharing_config"@, seeded(seq![pump::SHARING_CONFIG_SEED@, mint@], FEE_PROGRAM_ID)),
        takes(
            "bonding_curve_v2"@,
            seeded(seq![pump::BONDING_CURVE_V2_SEED@, mint@], pump::PROGRAM_ID),
        ),
        takes(
            "bonding_curve_base_ata"@,
            token_account(curve, mint, SPL_TOKEN_2022_PROGRAM_ID),
        ),
        takes(
            "bonding_curve_wsol_ata"@,
            token_account(curve, NATIVE_MINT, SPL_TOKEN_PROGRAM_ID),
        ),
    ] + (if complete {
        seq![
            Wanted {
                label: "pool"@,
                role: AccountRole::Pool,
                address: opened_pool(mint),
                required: false,
            },
        ]
    } else {
        Seq::empty()
    })
}

/// A curve is asked for with the accounts round it.
pub proof fn law_accounts_round_a_curve(mint: Pubkey, curve: &BondingCurve)
    ensures
        asks_for(
            curve_requests_view(mint, curve),
            round_curve(mint, curve.creator, curve.complete),
        ),
{
    let table = round_curve(mint, curve.creator, curve.complete);
    if all_have_addresses(table) {
        lemma_each(table);
    }
    reveal_with_fuel(le_bytes, 3);
    assert(le_bytes(0, 2) =~= seq![0u8, 0u8]);
}

/// The accounts round a pool: its liquidity mint and its vaults, which must be there,
/// and where the coin's creator is paid in wrapped SOL.
pub open spec fn round_pool(pool: &Pool) -> Seq<Wanted> {
    let authority = seeded(
        seq![pump_amm::CREATOR_VAULT_SEED@, pool.coin_creator@],
        pump_amm::PROGRAM_ID,
    );
    seq![
        needs("lp_mint"@, Some(pool.lp_mint)),
        needs("pool_base_token_account"@, Some(pool.pool_base_token_account)),
        needs("pool_quote_token_account"@, Some(pool.pool_quote_token_account)),
        takes("coin_creator_vault_authority"@, authority),
        takes(
            "coin_creator_vault_quote_ata"@,
            token_account(authority, NATIVE_MINT, SPL_TOKEN_PROGRAM_ID),
        ),
    ]
}

/// A pool is asked for with the accounts round it.
pub proof fn law_accounts_round_a_pool(pool: &Pool)
    ensures
        asks_for(pool_requests_view(pool), round_pool(pool)),
{
    let table = round_pool(pool);
    if all_have_addresses(table) {
        lemma_each(table);
    }
}

/// One request is fetched from where it is marked for, and a list of requests as its
/// parts are, one after the other.
pub proof fn law_addresses_follow_their_marks(
    first: Seq<AccountRequest>,
    second: Seq<AccountRequest>,
    request: AccountRequest,
    from_mainnet: bool,
)
    ensures
        request.fetch_from_mainnet == from_mainnet ==> addresses_marked(
            seq![request],
            from_mainnet,
        ) == seq![request.address],
        request.fetch_from_mainnet != from_mainnet ==> addresses_marked(
            seq![request],
            from_mainnet,
        ).len() == 0,
        addresses_marked(first + second, from_mainnet) == addresses_marked(first, from_mainnet)
            + addresses_marked(second, from_mainnet),
    decreases second.len(),
{
    let single = seq![request];
    assert(single.drop_last() =~= Seq::<AccountRequest>::empty());
    assert(addresses_marked(single.drop_last(), from_mainnet) =~= Seq::<Pubkey>::empty());
    assert(single.last() == request);
    if request.fetch_from_mainnet == from_mainnet {
        assert(addresses_marked(single, from_mainnet) =~= seq![request.address]);
    }
    if second.len() == 0 {
        assert(first + second =~= first);
    } else {
        law_addresses_follow_their_marks(first, second.drop_last(), request, from_mainnet);
        assert((first + second).drop_last() =~= first + second.drop_last());
        assert((first + second).last() == second.last());
    }
    assert(addresses_marked(first + second, from_mainnet) =~= addresses_marked(
        first,
        from_mainnet,
    ) + addresses_marked(second, from_mainnet));
}

proof fn lemma_same_account<T: AccountState>(data: Seq<u8>, a: T, b: T)
    requires
        holds_account(data, a),
        holds_account(data, b),
    ensures
        a == b,
{
    a.lemma_injective(&b);
}

/// The reply that holds a coin's curve calls for the accounts round that curve, the one
/// that holds its pool for those round that pool; any other reply, and a missing
/// account, for nothing more.
pub proof fn law_replies_are_followed_up(
    mint: Pubkey,
    role: AccountRole,
    reply: Option<Account>,
    r: ClientResult<Option<Vec<AccountRequest>>>,
    curve: BondingCurve,
    pool: Pool,
)
    requires
        followed_up(mint, role, reply, r),
    ensures
        role == AccountRole::BondingCurve ==> (reply matches Some(account) && holds_account(
            account.data@,
            curve,
        ) ==> (r matches Ok(list) && requests_of(list) == curve_requests_view(mint, &curve))),
        role == AccountRole::Pool ==> (reply matches Some(account) && holds_account(
            account.data@,
            pool,
        ) ==> (r matches Ok(list) && requests_of(list) == pool_requests_view(&pool))),
        role == AccountRole::Plain || reply is None ==> (r matches Ok(list) && requests_of(list)
            == Some(Seq::<RequestView>::empty())),
{
    if let Some(account) = reply {
        if role == AccountRole::BondingCurve && holds_account(account.data@, curve) {
            crate::accounts::law_wrong_tag_holds_nothing::<BondingCurve>(account.data@);
            if let Ok(list) = r {
                let other = choose|other: BondingCurve| #[trigger]
                    holds_account(account.data@, other) && requests_of(list)
                        == curve_requests_view(mint, &other);
                lemma_same_account(account.data@, curve, other);
            }
        }
        if role == AccountRole::Pool && holds_account(account.data@, pool) {
            crate::accounts::law_wrong_tag_holds_nothing::<Pool>(account.data@);
            if let Ok(list) = r {
                let other = choose|other: Pool| #[trigger]
                    holds_account(account.data@, other) && requests_of(list)
                        == pool_requests_view(&other);
                lemma_same_account(account.data@, pool, other);
            }
        }
    }
}

/// Fees are received by those who may receive the fees of trades, in mayhem mode or out
/// of it, and by the buyback recipients.
pub proof fn law_fee_receivers(global: &Global, key: Pubkey)
    ensures
        receives_fees(global, key) <==> {
            ||| may_receive(global, true, key)
            ||| may_receive(global, false, key)
            ||| is_listed(global.buyback_fee_recipients@, key)
        },
{
}

/// A token mint is 82 bytes: a set authority, the supply, the decimals, the mark of an
/// initialized mint, and zeros, which stand for no freeze authority.
pub proof fn law_mint_layout(authority: Pubkey, supply: u64, decimals: u8)
    ensures
        ({
            let data = mint_bytes(authority, supply, decimals);
            &&& data.len() == 82
            &&& le_value(data.subrange(0, 4)) == 1
            &&& data.subrange(4, 36) == authority@
            &&& le_value(data.subrange(36, 44)) == supply
            &&& data[44] == decimals
            &&& data[45] == 1
            &&& le_value(data.subrange(46, 82)) == 0
        }),
{
    lemma_byte_ranges();
    lemma_le_round_trip(1, 4);
    lemma_le_round_trip(supply as nat, 8);
    lemma_zero_value(36);
    lemma_le_bytes_len(1, 4);
    lemma_le_bytes_len(supply as nat, 8);
    lemma_le_bytes_len(0, 36);
    let data = mint_bytes(authority, supply, decimals);
    assert(data.subrange(0, 4) =~= le_bytes(1, 4));
    assert(data.subrange(4, 36) =~= authority@);
    assert(data.subrange(36, 44) =~= le_bytes(supply as nat, 8));
    assert(data.subrange(46, 82) =~= le_bytes(0, 36));
}

proof fn lemma_zero_value(n: nat)
    ensures
        le_value(le_bytes(0, n)) == 0,
    decreases n,
{
    if n > 0 {
        lemma_zero_value((n - 1) as nat);
        assert(le_bytes(0, n).skip(1) =~= le_bytes(0, (n - 1) as nat));
    }
}

} // verus!
