//! What a snapshot fetches, and what it makes of each reply.

use vstd::prelude::*;

use crate::account_wrapper::holds_account;
use crate::accounts::pump_amm::decode_pool;
use crate::accounts::{decode_bonding_curve, decoding};
use crate::bytes::le_bytes;
use crate::client::Account;
use crate::clone_accounts::Network;
use crate::constants::{
    NATIVE_MINT, SPL_TOKEN_2022_PROGRAM_ID, SPL_TOKEN_PROGRAM_ID, SYSTEM_PROGRAM_ID,
};
use crate::errors::ClientResult;
use crate::key_order::strictly_sorted;
use crate::pda;
use crate::pda::{address_of, associated_token_pda};
use crate::pubkey::{same_key, Pubkey, DEFAULT_KEY};
use crate::sdk::recipients::set_keys;
use crate::state::pump_amm::Pool;
use crate::state::{BondingCurve, Global};

verus! {

/// What else a fetched account is read for.
#[derive(Clone, Copy, Debug, PartialEq, Eq, Structural)]
pub enum AccountRole {
    /// Nothing.
    Plain,
    /// The curve, which tells what stands round it.
    BondingCurve,
    /// The pool, which tells what stands round it.
    Pool,
}

/// An account to fetch. A run fails where a required one is missing; another one is
/// skipped. One marked `fetch_from_mainnet` comes from mainnet whatever the cluster.
#[derive(Clone, Copy, Debug)]
pub struct AccountRequest {
    pub label: &'static str,
    pub role: AccountRole,
    pub address: Pubkey,
    pub required: bool,
    pub fetch_from_mainnet: bool,
}

/// What a request asks for.
pub struct RequestView {
    pub label: Seq<char>,
    pub role: AccountRole,
    pub address: Pubkey,
    pub required: bool,
    pub fetch_from_mainnet: bool,
}

impl View for AccountRequest {
    type V = RequestView;

    open spec fn view(&self) -> RequestView {
        RequestView {
            label: self.label@,
            role: self.role,
            address: self.address,
            required: self.required,
            fetch_from_mainnet: self.fetch_from_mainnet,
        }
    }
}

/// What each request of a list asks for.
pub open spec fn request_views(requests: Seq<AccountRequest>) -> Seq<RequestView> {
    requests.map_values(|request: AccountRequest| request@)
}

/// What a list of requests asks for, where there is one.
pub open spec fn requests_of(requests: Option<Vec<AccountRequest>>) -> Option<Seq<RequestView>> {
    match requests {
        Some(list) => Some(request_views(list@)),
        None => None,
    }
}

/// A request to the chosen cluster, where its address exists.
pub open spec fn asked_as(
    role: AccountRole,
    label: Seq<char>,
    address: Option<Pubkey>,
    required: bool,
) -> Option<RequestView> {
    match address {
        Some(address) => Some(
            RequestView { label, role, address, required, fetch_from_mainnet: false },
        ),
        None => None,
    }
}

/// A request for an account that is not read further.
pub open spec fn asked(label: Seq<char>, address: Option<Pubkey>, required: bool) -> Option<
    RequestView,
> {
    asked_as(AccountRole::Plain, label, address, required)
}

/// A list of requests with one more; nothing where either is missing.
pub open spec fn and_also(list: Option<Seq<RequestView>>, last: Option<RequestView>) -> Option<
    Seq<RequestView>,
> {
    match (list, last) {
        (Some(list), Some(last)) => Some(list.push(last)),
        _ => None,
    }
}

/// Adds a request to a list.
fn ask_as(
    list: Option<Vec<AccountRequest>>,
    role: AccountRole,
    label: &'static str,
    pda: Option<(Pubkey, u8)>,
    required: bool,
) -> (r: Option<Vec<AccountRequest>>)
    ensures
        requests_of(r) == and_also(
            requests_of(list),
            asked_as(role, label@, address_of(pda), required),
        ),
{
    let mut list = list?;
    let (address, _) = pda?;
    let ghost before = list@;
    list.push(AccountRequest { label, role, address, required, fetch_from_mainnet: false });
    assert(request_views(list@) =~= request_views(before).push(
        RequestView { label: label@, role, address, required, fetch_from_mainnet: false },
    ));
    Some(list)
}

/// Adds a request for an account that is not read further.
fn ask(
    list: Option<Vec<AccountRequest>>,
    label: &'static str,
    pda: Option<(Pubkey, u8)>,
    required: bool,
) -> (r: Option<Vec<AccountRequest>>)
    ensures
        requests_of(r) == and_also(requests_of(list), asked(label@, address_of(pda), required)),
{
    ask_as(list, AccountRole::Plain, label, pda, required)
}

/// A list of no requests.
fn no_requests() -> (r: Option<Vec<AccountRequest>>)
    ensures
        requests_of(r) == Some(Seq::<RequestView>::empty()),
{
    let list: Vec<AccountRequest> = Vec::new();
    assert(request_views(list@) =~= Seq::<RequestView>::empty());
    Some(list)
}

/// The program state that every snapshot holds, the cluster's lookup table last.
pub open spec fn fixed_requests(network: Network, agent_program: Pubkey) -> Option<
    Seq<RequestView>,
> {
    let list = Some(Seq::empty());
    let list = and_also(list, asked("pump:global"@, address_of(pda::pump::global_pda()), true));
    let list = and_also(
        list,
        asked("pump:event_authority"@, address_of(pda::pump::event_authority_pda()), false),
    );
    let list = and_also(
        list,
        asked("pump:mint_authority"@, address_of(pda::pump::mint_authority_pda()), false),
    );
    let list = and_also(
        list,
        asked(
            "pump:global_volume_accumulator"@,
            address_of(pda::pump::global_volume_accumulator_pda()),
            true,
        ),
    );
    let list = and_also(
        list,
        asked("pump:fee_config"@, address_of(pda::pump::fee_config_pda()), true),
    );
    let list = and_also(
        list,
        asked("pump_amm:global_config"@, address_of(pda::pump_amm::global_config_pda()), false),
    );
    let list = and_also(
        list,
        asked("pump_amm:event_authority"@, address_of(pda::pump_amm::event_authority_pda()), false),
    );
    let list = and_also(
        list,
        asked(
            "pump_amm:global_volume_accumulator"@,
            address_of(pda::pump_amm::global_volume_accumulator_pda()),
            false,
        ),
    );
    let list = and_also(
        list,
        asked("pump_amm:fee_config"@, address_of(pda::pump_amm::fee_config_pda()), true),
    );
    let list = and_also(
        list,
        asked(
            "pump_agent_payments:global_config"@,
            address_of(pda::pump_agent_payments::global_config_pda(agent_program)),
            false,
        ),
    );
    let list = and_also(
        list,
        asked("mayhem:global_params"@, address_of(pda::mayhem::global_params_pda()), true),
    );
    let list = and_also(
        list,
        asked("mayhem:sol_vault"@, address_of(pda::mayhem::sol_vault_pda()), true),
    );
    and_also(list, asked(network.lookup_table_label(), Some(network.lookup_table()), true))
}

/// The program state that every snapshot holds, the cluster's lookup table last.
pub fn fixed_pdas(network: Network, agent_program: Pubkey) -> (r: Option<Vec<AccountRequest>>)
    ensures
        requests_of(r) == fixed_requests(network, agent_program),
{
    let list = no_requests();
    let list = ask(list, "pump:global", pda::pump::global(), true);
    let list = ask(list, "pump:event_authority", pda::pump::event_authority(), false);
    let list = ask(list, "pump:mint_authority", pda::pump::mint_authority(), false);
    let list = ask(
        list,
        "pump:global_volume_accumulator",
        pda::pump::global_volume_accumulator(),
        true,
    );
    let list = ask(list, "pump:fee_config", pda::pump::fee_config(), true);
    let list = ask(list, "pump_amm:global_config", pda::pump_amm::global_config(), false);
    let list = ask(list, "pump_amm:event_authority", pda::pump_amm::event_authority(), false);
    let list = ask(
        list,
        "pump_amm:global_volume_accumulator",
        pda::pump_amm::global_volume_accumulator(),
        false,
    );
    let list = ask(list, "pump_amm:fee_config", pda::pump_amm::fee_config(), true);
    let list = ask(
        list,
        "pump_agent_payments:global_config",
        pda::pump_agent_payments::global_config(&agent_program),
        false,
    );
    let list = ask(list, "mayhem:global_params", pda::mayhem::global_params(), true);
    let list = ask(list, "mayhem:sol_vault", pda::mayhem::sol_vault(), true);
    ask(list, network.alt_label(), Some((network.alt(), 0)), true)
}

/// The addresses of the requests marked for mainnet, or of the others, in order.
pub open spec fn addresses_marked(requests: Seq<AccountRequest>, from_mainnet: bool) -> Seq<Pubkey>
    decreases requests.len(),
{
    if requests.len() == 0 {
        Seq::empty()
    } else {
        let before = addresses_marked(requests.drop_last(), from_mainnet);
        if requests.last().fetch_from_mainnet == from_mainnet {
            before.push(requests.last().address)
        } else {
            before
        }
    }
}

/// The addresses of the requests marked for mainnet, or of the others, in order.
pub fn addresses_to_fetch(requests: &Vec<AccountRequest>, from_mainnet: bool) -> (r: Vec<Pubkey>)
    ensures
        r@ == addresses_marked(requests@, from_mainnet),
{
    let mut keys: Vec<Pubkey> = Vec::new();
    let mut i: usize = 0;
    while i < requests.len()
        invariant
            i <= requests@.len(),
            keys@ == addresses_marked(requests@.take(i as int), from_mainnet),
        decreases requests@.len() - i,
    {
        assert(requests@.take(i + 1).drop_last() =~= requests@.take(i as int));
        if requests[i].fetch_from_mainnet == from_mainnet {
            keys.push(requests[i].address);
        }
        i = i + 1;
    }
    assert(requests@.take(i as int) =~= requests@);
    keys
}

/// Whether a second connection, to mainnet, is needed: some request is marked for it
/// and the cluster is another one.
pub fn needs_mainnet_client(requests: &Vec<AccountRequest>, network: Network) -> (r: bool)
    ensures
        r == (network != Network::Mainnet && exists|i: int|
            0 <= i < requests@.len() && (#[trigger] requests@[i]).fetch_from_mainnet),
{
    if network == Network::Mainnet {
        return false;
    }
    let mut i: usize = 0;
    while i < requests.len()
        invariant
            i <= requests@.len(),
            network != Network::Mainnet,
            forall|j: int| 0 <= j < i ==> !(#[trigger] requests@[j]).fetch_from_mainnet,
        decreases requests@.len() - i,
    {
        if requests[i].fetch_from_mainnet {
            assert(requests@[i as int].fetch_from_mainnet);
            return true;
        }
        i = i + 1;
    }
    false
}

/// A coin's mint and its curve.
pub open spec fn mint_requests_view(mint: Pubkey) -> Option<Seq<RequestView>> {
    and_also(
        and_also(Some(Seq::empty()), asked("mint"@, Some(mint), true)),
        asked_as(
            AccountRole::BondingCurve,
            "bonding_curve"@,
            address_of(pda::pump::bonding_curve_pda(mint)),
            true,
        ),
    )
}

/// A coin's mint and its curve; the rest of what is fetched depends on the curve.
pub fn mint_requests(mint: Pubkey) -> (r: Option<Vec<AccountRequest>>)
    ensures
        requests_of(r) == mint_requests_view(mint),
{
    let list = no_requests();
    let list = ask(list, "mint", Some((mint, 0)), true);
    ask_as(
        list,
        AccountRole::BondingCurve,
        "bonding_curve",
        pda::pump::bonding_curve(&mint),
        true,
    )
}

/// Address of the canonical pool of `mint` against wrapped SOL: number zero of the
/// mint's pool authority.
pub open spec fn canonical_pool(mint: Pubkey) -> Option<(Pubkey, u8)> {
    match pda::pump::pool_authority_pda(mint) {
        Some((authority, _)) => pda::pump_amm::pool_pda(0, authority, mint, NATIVE_MINT),
        None => None,
    }
}

/// The accounts round a curve, and for a migrated one its pool.
pub open spec fn curve_requests_view(mint: Pubkey, curve: &BondingCurve) -> Option<
    Seq<RequestView>,
> {
    let list = Some(Seq::empty());
    let list = and_also(
        list,
        asked("creator_vault"@, address_of(pda::pump::creator_vault_pda(curve.creator)), false),
    );
    let list = and_also(
        list,
        asked("sharing_config"@, address_of(pda::pump::sharing_config_pda(mint)), false),
    );
    let list = and_also(
        list,
        asked("bonding_curve_v2"@, address_of(pda::pump::bonding_curve_v2_pda(mint)), false),
    );
    match pda::pump::bonding_curve_pda(mint) {
        None => None,
        Some((owner, _)) => {
            let list = and_also(
                list,
                asked(
                    "bonding_curve_base_ata"@,
                    address_of(associated_token_pda(owner, SPL_TOKEN_2022_PROGRAM_ID, mint)),
                    false,
                ),
            );
            let list = and_also(
                list,
                asked(
                    "bonding_curve_wsol_ata"@,
                    address_of(associated_token_pda(owner, SPL_TOKEN_PROGRAM_ID, NATIVE_MINT)),
                    false,
                ),
            );
            if curve.complete {
                and_also(
                    list,
                    asked_as(
                        AccountRole::Pool,
                        "pool"@,
                        address_of(canonical_pool(mint)),
                        false,
                    ),
                )
            } else {
                list
            }
        },
    }
}

/// The accounts round a curve, and for a migrated one its pool.
pub fn curve_requests(mint: Pubkey, curve: &BondingCurve) -> (r: Option<Vec<AccountRequest>>)
    ensures
        requests_of(r) == curve_requests_view(mint, curve),
{
    let list = no_requests();
    let list = ask(list, "creator_vault", pda::pump::creator_vault(&curve.creator), false);
    let list = ask(list, "sharing_config", pda::pump::sharing_config(&mint), false);
    let list = ask(list, "bonding_curve_v2", pda::pump::bonding_curve_v2(&mint), false);
    let (owner, _) = pda::pump::bonding_curve(&mint)?;
    let list = ask(
        list,
        "bonding_curve_base_ata",
        pda::associated_token(&owner, &SPL_TOKEN_2022_PROGRAM_ID, &mint),
        false,
    );
    let list = ask(
        list,
        "bonding_curve_wsol_ata",
        pda::associated_token(&owner, &SPL_TOKEN_PROGRAM_ID, &NATIVE_MINT),
        false,
    );
    if curve.complete {
        let pool = match pda::pump::pool_authority(&mint) {
            Some((authority, _)) => pda::pump_amm::pool(0, &authority, &mint, &NATIVE_MINT),
            None => None,
        };
        ask_as(list, AccountRole::Pool, "pool", pool, false)
    } else {
        list
    }
}

/// The accounts round a pool.
pub open spec fn pool_requests_view(pool: &Pool) -> Option<Seq<RequestView>> {
    let list = Some(Seq::empty());
    let list = and_also(list, asked("lp_mint"@, Some(pool.lp_mint), true));
    let list = and_also(
        list,
        asked("pool_base_token_account"@, Some(pool.pool_base_token_account), true),
    );
    let list = and_also(
        list,
        asked("pool_quote_token_account"@, Some(pool.pool_quote_token_account), true),
    );
    match pda::pump_amm::coin_creator_vault_authority_pda(pool.coin_creator) {
        None => None,
        Some((authority, _)) => and_also(
            and_also(list, asked("coin_creator_vault_authority"@, Some(authority), false)),
            asked(
                "coin_creator_vault_quote_ata"@,
                address_of(associated_token_pda(authority, SPL_TOKEN_PROGRAM_ID, NATIVE_MINT)),
                false,
            ),
        ),
    }
}

/// The accounts round a pool: its mint and vaults, and the creator's fee vault.
pub fn pool_requests(pool: &Pool) -> (r: Option<Vec<AccountRequest>>)
    ensures
        requests_of(r) == pool_requests_view(pool),
{
    let list = no_requests();
    let list = ask(list, "lp_mint", Some((pool.lp_mint, 0)), true);
    let list = ask(
        list,
        "pool_base_token_account",
        Some((pool.pool_base_token_account, 0)),
        true,
    );
    let list = ask(
        list,
        "pool_quote_token_account",
        Some((pool.pool_quote_token_account, 0)),
        true,
    );
    let authority = pda::pump_amm::coin_creator_vault_authority(&pool.coin_creator)?;
    let list = ask(list, "coin_creator_vault_authority", Some(authority), false);
    ask(
        list,
        "coin_creator_vault_quote_ata",
        pda::associated_token(&authority.0, &SPL_TOKEN_PROGRAM_ID, &NATIVE_MINT),
        false,
    )
}

/// Whether `r` is what the reply to a request for a coin calls for: the accounts round
/// the curve or the pool that the reply holds, or why it holds none. Other replies, and
/// a missing account, call for nothing more.
pub open spec fn followed_up(
    mint: Pubkey,
    role: AccountRole,
    reply: Option<Account>,
    r: ClientResult<Option<Vec<AccountRequest>>>,
) -> bool {
    match (role, reply) {
        (AccountRole::BondingCurve, Some(account)) => match r {
            Ok(list) => exists|curve: BondingCurve| #[trigger]
                holds_account(account.data@, curve) && requests_of(list) == curve_requests_view(
                    mint,
                    &curve,
                ),
            Err(e) => decoding::<BondingCurve>(account.data@, Err(e)),
        },
        (AccountRole::Pool, Some(account)) => match r {
            Ok(list) => exists|pool: Pool| #[trigger]
                holds_account(account.data@, pool) && requests_of(list) == pool_requests_view(
                    &pool,
                ),
            Err(e) => decoding::<Pool>(account.data@, Err(e)),
        },
        _ => r matches Ok(list) && requests_of(list) == Some(Seq::<RequestView>::empty()),
    }
}

/// The requests that the reply to a request for the coin `mint` calls for. The inner
/// `None` stands for accounts without an address.
pub fn follow_up(mint: Pubkey, role: AccountRole, reply: Option<Account>) -> (r: ClientResult<
    Option<Vec<AccountRequest>>,
>)
    ensures
        followed_up(mint, role, reply, r),
{
    match (role, reply) {
        (AccountRole::BondingCurve, Some(account)) => match decode_bonding_curve(
            account.data.as_slice(),
        ) {
            Ok(curve) => Ok(curve_requests(mint, &curve)),
            Err(e) => Err(e),
        },
        (AccountRole::Pool, Some(account)) => match decode_pool(account.data.as_slice()) {
            Ok(pool) => Ok(pool_requests(&pool)),
            Err(e) => Err(e),
        },
        _ => Ok(no_requests()),
    }
}

/// What to do about a request.
#[derive(Clone, Copy, Debug, PartialEq, Eq, Structural)]
pub enum CloneAction {
    /// The snapshot holds the account.
    Keep,
    /// Ask the cluster for it.
    Fetch,
    /// Put the account that came into the snapshot.
    Insert,
    /// Go on without it.
    Skip,
    /// Give up: a required account is missing.
    Fail,
}

/// The first step for a request: an account is fetched once.
pub fn before_fetch(in_snapshot: bool) -> (r: CloneAction)
    ensures
        r == (if in_snapshot {
            CloneAction::Keep
        } else {
            CloneAction::Fetch
        }),
{
    if in_snapshot {
        CloneAction::Keep
    } else {
        CloneAction::Fetch
    }
}

/// The step after the cluster's reply.
pub fn after_fetch(found: bool, required: bool) -> (r: CloneAction)
    ensures
        r == (if found {
            CloneAction::Insert
        } else if required {
            CloneAction::Fail
        } else {
            CloneAction::Skip
        }),
{
    if found {
        CloneAction::Insert
    } else if required {
        CloneAction::Fail
    } else {
        CloneAction::Skip
    }
}

/// Whether `key` receives fees under `global`.
pub open spec fn receives_fees(global: &Global, key: Pubkey) -> bool {
    &&& key != DEFAULT_KEY
    &&& {
        ||| key == global.fee_recipient
        ||| key == global.reserved_fee_recipient
        ||| global.fee_recipients@.contains(key)
        ||| global.reserved_fee_recipients@.contains(key)
        ||| global.buyback_fee_recipients@.contains(key)
    }
}

/// Moves the keys of `from` to the end of `to`.
fn add_keys(to: &mut Vec<Pubkey>, from: &Vec<Pubkey>)
    ensures
        final(to)@ == old(to)@ + from@,
{
    let mut i: usize = 0;
    while i < from.len()
        invariant
            i <= from@.len(),
            to@ =~= old(to)@ + from@.take(i as int),
        decreases from@.len() - i,
    {
        to.push(from[i]);
        i = i + 1;
    }
    assert(from@.take(i as int) =~= from@);
}

/// Everyone who receives fees under `global`, in order and each once.
pub fn distinct_recipients(global: &Global) -> (r: Vec<Pubkey>)
    ensures
        strictly_sorted(r@),
        forall|key: Pubkey| #[trigger] r@.contains(key) <==> receives_fees(global, key),
{
    let mut keys: Vec<Pubkey> = Vec::new();
    keys.push(global.fee_recipient);
    keys.push(global.reserved_fee_recipient);
    add_keys(&mut keys, &global.fee_recipients);
    add_keys(&mut keys, &global.reserved_fee_recipients);
    add_keys(&mut keys, &global.buyback_fee_recipients);
    let ghost first = seq![global.fee_recipient, global.reserved_fee_recipient];
    let ghost a = global.fee_recipients@;
    let ghost b = global.reserved_fee_recipients@;
    let ghost c = global.buyback_fee_recipients@;
    assert forall|key: Pubkey| #[trigger]
        keys@.contains(key) <==> key == global.fee_recipient || key
            == global.reserved_fee_recipient || a.contains(key) || b.contains(key) || c.contains(
            key,
        ) by {
        assert(keys@ =~= first + a + b + c);
        lemma_concat_contains(first, a, key);
        lemma_concat_contains(first + a, b, key);
        lemma_concat_contains(first + a + b, c, key);
        assert(first[0] == global.fee_recipient && first[1] == global.reserved_fee_recipient);
    }
    set_keys(None, &keys)
}

proof fn lemma_concat_contains(a: Seq<Pubkey>, b: Seq<Pubkey>, key: Pubkey)
    ensures
        (a + b).contains(key) <==> a.contains(key) || b.contains(key),
{
    let whole = a + b;
    if a.contains(key) {
        let i = choose|i: int| 0 <= i < a.len() && a[i] == key;
        assert(whole[i] == key);
    }
    if b.contains(key) {
        let i = choose|i: int| 0 <= i < b.len() && b[i] == key;
        assert(whole[a.len() + i] == key);
    }
    if whole.contains(key) {
        let i = choose|i: int| 0 <= i < whole.len() && whole[i] == key;
        if i < a.len() {
            assert(a[i] == key);
        } else {
            assert(b[i - a.len()] == key);
        }
    }
}

/// The account of a fee recipient: the cluster's, or an empty one of the system program.
pub fn recipient_account(reply: Option<Account>) -> (r: Account)
    ensures
        match reply {
            Some(account) => r == account,
            None => {
                &&& r.lamports == 0
                &&& r.data@.len() == 0
                &&& r.owner == SYSTEM_PROGRAM_ID
                &&& !r.executable
                &&& r.rent_epoch == 0
            },
        },
{
    match reply {
        Some(account) => account,
        None => Account {
            lamports: 0,
            data: Vec::new(),
            owner: SYSTEM_PROGRAM_ID,
            executable: false,
            rent_epoch: 0,
        },
    }
}

/// Puts `mint` into the first slot of a list of admitted quote mints, unless the list
/// holds it; says whether the list changed.
pub fn admit_quote_mint(mints: &mut Vec<Pubkey>, mint: Pubkey) -> (changed: bool)
    requires
        old(mints)@.len() > 0,
    ensures
        changed == !old(mints)@.contains(mint),
        final(mints)@ == (if changed {
            old(mints)@.update(0, mint)
        } else {
            old(mints)@
        }),
{
    let mut i: usize = 0;
    while i < mints.len()
        invariant
            i <= mints@.len(),
            mints@ == old(mints)@,
            forall|j: int| 0 <= j < i ==> mints@[j] != mint,
        decreases mints@.len() - i,
    {
        if same_key(&mints[i], &mint) {
            assert(mints@[i as int] == mint);
            return false;
        }
        i = i + 1;
    }
    mints.set(0, mint);
    true
}

/// Calls `Rent::default` and `Rent::minimum_balance` of `solana_sdk`. Claimed: the
/// default rent asks 3480 lamports per byte and year for two years, 128 bytes added
/// for the account itself. The call computes in floating point, which is exact up to
/// the greatest size of an account.
#[verifier::external_body]
pub(crate) fn rent_exempt_minimum(data_len: usize) -> (r: u64)
    requires
        data_len <= 10_485_760,
    ensures
        r == (data_len + 128) * 6960,
{
    solana_sdk::rent::Rent::default().minimum_balance(data_len)
}

/// The data of a token mint: its authority, supply and decimals, no freeze authority.
pub open spec fn mint_bytes(authority: Pubkey, supply: u64, decimals: u8) -> Seq<u8> {
    le_bytes(1, 4) + authority@ + le_bytes(supply as nat, 8) + seq![decimals, 1u8] + le_bytes(0, 36)
}

/// Calls `Mint::pack` of `spl_token` for an initialized mint without freeze authority.
/// Claimed: the data are those above.
#[verifier::external_body]
fn pack_mint(authority: &Pubkey, supply: u64, decimals: u8) -> (r: Vec<u8>)
    ensures
        r@ == mint_bytes(*authority, supply, decimals),
{
    let mint = anchor_spl::token::spl_token::state::Mint {
        mint_authority: solana_program::program_option::COption::Some(
            solana_program::pubkey::Pubkey::new_from_array(*authority),
        ),
        supply,
        decimals,
        is_initialized: true,
        freeze_authority: solana_program::program_option::COption::None,
    };
    let mut data = vec![0u8; 82];
    solana_program::program_pack::Pack::pack(mint, &mut data).expect("a mint takes 82 bytes");
    data
}

/// A fresh quote mint for tests, with six decimals and no supply.
pub fn test_quote_mint_account(authority: Pubkey) -> (r: Account)
    ensures
        r.lamports == (82 + 128) * 6960,
        r.data@ == mint_bytes(authority, 0, 6),
        r.owner == SPL_TOKEN_PROGRAM_ID,
        !r.executable,
        r.rent_epoch == 0,
{
    Account {
        lamports: rent_exempt_minimum(82),
        data: pack_mint(&authority, 0, 6),
        owner: SPL_TOKEN_PROGRAM_ID,
        executable: false,
        rent_epoch: 0,
    }
}

} // verus!
