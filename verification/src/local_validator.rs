//! The genesis accounts of a local validator.

use anchor_spl::token_2022::spl_token_2022::extension::{
    BaseStateWithExtensions, BaseStateWithExtensionsMut, ExtensionType, PodStateWithExtensions,
    PodStateWithExtensionsMut,
};
use anchor_spl::token_2022::spl_token_2022::pod::{PodAccount, PodMint};
use anchor_spl::token_2022::spl_token_2022::state::Account as TokenAccount;
use solana_program::pubkey::Pubkey as SolanaKey;
use vstd::prelude::*;

use crate::bytes::{le_bytes, lemma_le_bytes_len, push_bytes};
use crate::client::Account;
use crate::clone_accounts::plan::rent_exempt_minimum;
use crate::constants::{
    NATIVE_MINT, SPL_TOKEN_2022_PROGRAM_ID, SPL_TOKEN_PROGRAM_ID, SYSTEM_PROGRAM_ID,
};
use crate::pda::{associated_token, associated_token_pda};
use crate::pubkey::{same_key, Pubkey};

verus! {

/// Lamports of a genesis account: ten thousand SOL.
pub const DEFAULT_ACCOUNT_LAMPORTS: u64 = 10_000_000_000_000;

/// Lamports of the faucet, a thousand times as much.
pub const FAUCET_LAMPORTS: u64 = 10_000_000_000_000_000;

/// Tokens of a seeded token account.
pub const DEFAULT_TOKEN_AMOUNT: u64 = 100_000_000_000;

/// A genesis account without its lamports.
#[derive(Clone, Debug, PartialEq, Eq)]
pub struct AccountConfigInfo {
    pub address: Pubkey,
    pub data: Vec<u8>,
    pub owner: Pubkey,
}

/// What a genesis account holds.
#[verifier::ext_equal]
pub struct InfoView {
    pub address: Pubkey,
    pub data: Seq<u8>,
    pub owner: Pubkey,
}

impl View for AccountConfigInfo {
    type V = InfoView;

    open spec fn view(&self) -> InfoView {
        InfoView { address: self.address, data: self.data@, owner: self.owner }
    }
}

/// What each genesis account of a list holds, with the lamports that it is given.
pub open spec fn info_views(infos: Seq<(AccountConfigInfo, Option<u64>)>) -> Seq<
    (InfoView, Option<u64>),
> {
    infos.map_values(|entry: (AccountConfigInfo, Option<u64>)| (entry.0@, entry.1))
}

/// What the genesis accounts hold, where there is a list.
pub open spec fn infos_of(infos: Option<Vec<(AccountConfigInfo, Option<u64>)>>) -> Option<
    Seq<(InfoView, Option<u64>)>,
> {
    match infos {
        Some(list) => Some(info_views(list@)),
        None => None,
    }
}

/// An account of the system program without data.
pub open spec fn system_info(address: Pubkey) -> InfoView {
    InfoView { address, data: Seq::empty(), owner: SYSTEM_PROGRAM_ID }
}

impl AccountConfigInfo {
    /// An account of the system program without data.
    pub fn system(address: Pubkey) -> (r: Self)
        ensures
            r@ == system_info(address),
    {
        AccountConfigInfo { address, data: Vec::new(), owner: SYSTEM_PROGRAM_ID }
    }

    /// An account with the data and owner of another.
    pub fn from_account(address: Pubkey, account: &Account) -> (r: Self)
        ensures
            r@ == (InfoView { address, data: account.data@, owner: account.owner }),
    {
        let mut data: Vec<u8> = Vec::new();
        push_bytes(&mut data, account.data.as_slice());
        assert(data@ =~= account.data@);
        AccountConfigInfo { address, data, owner: account.owner }
    }
}

/// The lamports of a genesis account: as given, else the faucet's share for the faucet
/// and the default for the others.
pub fn genesis_lamports(address: &Pubkey, faucet: &Pubkey, given: Option<u64>) -> (r: u64)
    ensures
        r == (match given {
            Some(lamports) => lamports,
            None => if *address == *faucet {
                FAUCET_LAMPORTS
            } else {
                DEFAULT_ACCOUNT_LAMPORTS
            },
        }),
{
    match given {
        Some(lamports) => lamports,
        None => {
            if same_key(address, faucet) {
                FAUCET_LAMPORTS
            } else {
                DEFAULT_ACCOUNT_LAMPORTS
            }
        },
    }
}

/// The genesis accounts: the faucet, the wallets, then the cloned accounts. None is
/// given lamports of its own.
pub fn genesis_accounts(
    faucet: Pubkey,
    wallets: &Vec<Pubkey>,
    cloned: &Vec<(Pubkey, Account)>,
) -> (r: Vec<(AccountConfigInfo, Option<u64>)>)
    ensures
        info_views(r@) == seq![(system_info(faucet), None)] + wallets@.map_values(
            |wallet: Pubkey| (system_info(wallet), None::<u64>),
        ) + cloned@.map_values(
            |entry: (Pubkey, Account)|
                (
                    InfoView { address: entry.0, data: entry.1.data@, owner: entry.1.owner },
                    None::<u64>,
                ),
        ),
{
    let ghost system = |wallet: Pubkey| (system_info(wallet), None::<u64>);
    let ghost taken = |entry: (Pubkey, Account)|
        (
            InfoView { address: entry.0, data: entry.1.data@, owner: entry.1.owner },
            None::<u64>,
        );
    let mut out: Vec<(AccountConfigInfo, Option<u64>)> = Vec::new();
    out.push((AccountConfigInfo::system(faucet), None));
    let mut i: usize = 0;
    while i < wallets.len()
        invariant
            i <= wallets@.len(),
            system == (|wallet: Pubkey| (system_info(wallet), None::<u64>)),
            info_views(out@) =~= seq![(system_info(faucet), None)] + wallets@.take(i as int).map_values(
                system,
            ),
        decreases wallets@.len() - i,
    {
        let ghost shorter = out@;
        let info = AccountConfigInfo::system(wallets[i]);
        out.push((info, None));
        assert(info_views(out@) =~= info_views(shorter).push((info@, None)));
        assert(wallets@.take(i + 1).map_values(system) =~= wallets@.take(i as int).map_values(
            system,
        ).push(system(wallets@[i as int])));
        i = i + 1;
    }
    assert(wallets@.take(i as int) =~= wallets@);
    let ghost before = info_views(out@);
    let mut j: usize = 0;
    while j < cloned.len()
        invariant
            j <= cloned@.len(),
            taken == (|entry: (Pubkey, Account)|
                (
                    InfoView { address: entry.0, data: entry.1.data@, owner: entry.1.owner },
                    None::<u64>,
                )),
            info_views(out@) =~= before + cloned@.take(j as int).map_values(taken),
        decreases cloned@.len() - j,
    {
        let ghost shorter = out@;
        let info = AccountConfigInfo::from_account(cloned[j].0, &cloned[j].1);
        out.push((info, None));
        assert(info_views(out@) =~= info_views(shorter).push((info@, None)));
        assert(cloned@.take(j + 1).map_values(taken) =~= cloned@.take(j as int).map_values(
            taken,
        ).push(taken(cloned@[j as int])));
        j = j + 1;
    }
    assert(cloned@.take(j as int) =~= cloned@);
    out
}

/// Whether `AddressLookupTable::deserialize` of `solana_program` accepts `data`.
pub uninterp spec fn is_lookup_table(data: Seq<u8>) -> bool;

/// Calls `AddressLookupTable::deserialize` of `solana_program`. Claimed: which data it
/// accepts depends on the data alone, and the addresses it finds are the 32-byte
/// chunks after the first 56 bytes.
#[verifier::external_body]
fn lookup_table_addresses(data: &[u8]) -> (r: Option<Vec<Pubkey>>)
    ensures
        match r {
            Some(keys) => {
                &&& is_lookup_table(data@)
                &&& data@.len() == 56 + 32 * keys@.len()
                &&& forall|i: int|
                    0 <= i < keys@.len() ==> (#[trigger] keys@[i])@ == data@.subrange(
                        56 + 32 * i,
                        88 + 32 * i,
                    )
            },
            None => !is_lookup_table(data@),
        },
{
    let table = solana_program::address_lookup_table::state::AddressLookupTable::deserialize(
        data,
    ).ok()?;
    Some(table.addresses.iter().map(|key| key.to_bytes()).collect())
}

/// The first 56 bytes of a lookup table that is active from slot zero: its kind, the
/// greatest slot as that of its deactivation, and zeros.
pub open spec fn active_meta() -> Seq<u8> {
    le_bytes(1, 4) + le_bytes(u64::MAX as nat, 8) + le_bytes(0, 44)
}

/// All bytes of a list of addresses.
pub open spec fn key_bytes(keys: Seq<Pubkey>) -> Seq<u8>
    decreases keys.len(),
{
    if keys.len() == 0 {
        Seq::empty()
    } else {
        key_bytes(keys.drop_last()) + keys.last()@
    }
}

/// Calls `AddressLookupTable::serialize_for_tests` of `solana_program` with the default
/// meta data. Claimed: the result is the meta data above and the addresses.
#[verifier::external_body]
fn active_lookup_table(keys: &Vec<Pubkey>) -> (r: Option<Vec<u8>>)
    ensures
        match r {
            Some(data) => data@ == active_meta() + key_bytes(keys@),
            None => false,
        },
{
    let addresses = keys.iter().map(
        |key| SolanaKey::new_from_array(*key),
    ).collect::<Vec<_>>();
    let table = solana_program::address_lookup_table::state::AddressLookupTable {
        meta: solana_program::address_lookup_table::state::LookupTableMeta::default(),
        addresses: addresses.into(),
    };
    table.serialize_for_tests().ok()
}

proof fn lemma_chunks(data: Seq<u8>, keys: Seq<Pubkey>)
    requires
        data.len() == 56 + 32 * keys.len(),
        forall|i: int|
            0 <= i < keys.len() ==> (#[trigger] keys[i])@ == data.subrange(
                56 + 32 * i,
                88 + 32 * i,
            ),
    ensures
        key_bytes(keys) == data.skip(56),
    decreases keys.len(),
{
    if keys.len() > 0 {
        let n = keys.len() - 1;
        let shorter = data.take(56 + 32 * n);
        let rest = keys.drop_last();
        assert forall|i: int| 0 <= i < rest.len() implies (#[trigger] rest[i])@
            == shorter.subrange(56 + 32 * i, 88 + 32 * i) by {
            assert(rest[i] == keys[i]);
            assert(shorter.subrange(56 + 32 * i, 88 + 32 * i) =~= data.subrange(
                56 + 32 * i,
                88 + 32 * i,
            ));
        }
        lemma_chunks(shorter, rest);
        assert(keys[n]@ == data.subrange(56 + 32 * n, 88 + 32 * n));
        assert(data.skip(56) =~= shorter.skip(56) + data.subrange(56 + 32 * n, 88 + 32 * n));
    } else {
        assert(data.skip(56) =~= Seq::<u8>::empty());
    }
}

/// A lookup table with the same addresses that is active from slot zero; nothing where
/// `data` is no lookup table.
pub fn activate_lookup_table(data: &[u8]) -> (r: Option<Vec<u8>>)
    ensures
        match r {
            Some(table) => is_lookup_table(data@) && table@ == active_meta() + data@.skip(56),
            None => !is_lookup_table(data@),
        },
{
    let keys = lookup_table_addresses(data)?;
    proof {
        lemma_chunks(data@, keys@);
    }
    active_lookup_table(&keys)
}

/// The data of an account after the rewrite: a known lookup table is made active.
pub open spec fn rewritten(known: Seq<Pubkey>, address: Pubkey, data: Seq<u8>) -> Seq<u8> {
    if known.contains(address) && is_lookup_table(data) {
        active_meta() + data.skip(56)
    } else {
        data
    }
}

fn holds_key(keys: &Vec<Pubkey>, key: &Pubkey) -> (r: bool)
    ensures
        r == keys@.contains(*key),
{
    let mut i: usize = 0;
    while i < keys.len()
        invariant
            i <= keys@.len(),
            forall|j: int| 0 <= j < i ==> keys@[j] != *key,
        decreases keys@.len() - i,
    {
        if same_key(&keys[i], key) {
            assert(keys@[i as int] == *key);
            return true;
        }
        i = i + 1;
    }
    false
}

/// Makes every known lookup table among the accounts active from slot zero; every
/// other account stays as it is.
pub fn rewrite_lookup_tables_active_from_slot_zero(
    accounts: &mut Vec<(Pubkey, Account)>,
    known: &Vec<Pubkey>,
)
    ensures
        final(accounts)@.len() == old(accounts)@.len(),
        forall|i: int|
            0 <= i < old(accounts)@.len() ==> {
                let before = #[trigger] old(accounts)@[i];
                let after = final(accounts)@[i];
                &&& after.0 == before.0
                &&& after.1.data@ == rewritten(known@, before.0, before.1.data@)
                &&& after.1.lamports == before.1.lamports
                &&& after.1.owner == before.1.owner
                &&& after.1.executable == before.1.executable
                &&& after.1.rent_epoch == before.1.rent_epoch
            },
{
    let mut done: Vec<(Pubkey, Account)> = Vec::new();
    let ghost all = accounts@;
    while accounts.len() > 0
        invariant
            all == old(accounts)@,
            accounts@ =~= all.take(accounts@.len() as int),
            accounts@.len() + done@.len() == all.len(),
            forall|k: int|
                0 <= k < done@.len() ==> {
                    let before = all[all.len() - 1 - k];
                    let after = #[trigger] done@[k];
                    &&& after.0 == before.0
                    &&& after.1.data@ == rewritten(known@, before.0, before.1.data@)
                    &&& after.1.lamports == before.1.lamports
                    &&& after.1.owner == before.1.owner
                    &&& after.1.executable == before.1.executable
                    &&& after.1.rent_epoch == before.1.rent_epoch
                },
        decreases accounts@.len(),
    {
        let ghost last = accounts@.last();
        match accounts.pop() {
            None => {},
            Some((key, account)) => {
                let mut account = account;
                if holds_key(known, &key) {
                    if let Some(table) = activate_lookup_table(account.data.as_slice()) {
                        account.data = table;
                    }
                }
                done.push((key, account));
            },
        }
    }
    let ghost reversed = done@;
    while done.len() > 0
        invariant
            reversed.len() == all.len(),
            done@ =~= reversed.take(done@.len() as int),
            accounts@.len() + done@.len() == all.len(),
            forall|i: int|
                0 <= i < accounts@.len() ==> #[trigger] accounts@[i] == reversed[all.len() - 1 - i],
        decreases done@.len(),
    {
        if let Some(entry) = done.pop() {
            accounts.push(entry);
        }
    }
    assert forall|i: int| 0 <= i < all.len() implies {
        let before = #[trigger] all[i];
        let after = accounts@[i];
        &&& after.0 == before.0
        &&& after.1.data@ == rewritten(known@, before.0, before.1.data@)
        &&& after.1.lamports == before.1.lamports
        &&& after.1.owner == before.1.owner
        &&& after.1.executable == before.1.executable
        &&& after.1.rent_epoch == before.1.rent_epoch
    } by {
        assert(accounts@[i] == reversed[all.len() - 1 - i]);
    }
}

/// An optional amount in 12 bytes.
pub open spec fn optional_amount_bytes(amount: Option<u64>) -> Seq<u8> {
    match amount {
        Some(amount) => le_bytes(1, 4) + le_bytes(amount as nat, 8),
        None => le_bytes(0, 12),
    }
}

/// The data of an initialized token account without delegate and close authority.
pub open spec fn token_account_bytes(
    mint: Pubkey,
    owner: Pubkey,
    amount: u64,
    native: Option<u64>,
) -> Seq<u8> {
    mint@ + owner@ + le_bytes(amount as nat, 8) + le_bytes(0, 36) + seq![1u8]
        + optional_amount_bytes(native) + le_bytes(0, 44)
}

/// Calls `Account::pack` of `spl_token` for an initialized account without delegate and
/// close authority. Claimed: the data are those above.
#[verifier::external_body]
fn pack_token_account(mint: &Pubkey, owner: &Pubkey, amount: u64, native: Option<u64>) -> (r: Vec<
    u8,
>)
    ensures
        r@ == token_account_bytes(*mint, *owner, amount, native),
{
    let account = anchor_spl::token::spl_token::state::Account {
        mint: SolanaKey::new_from_array(*mint),
        owner: SolanaKey::new_from_array(*owner),
        amount,
        state: anchor_spl::token::spl_token::state::AccountState::Initialized,
        is_native: native.into(),
        ..Default::default()
    };
    let mut data = vec![0u8; 165];
    solana_program::program_pack::Pack::pack(account, &mut data).expect("it takes 165 bytes");
    data
}

/// The extension type that fixes the owner of a Token-2022 account.
pub const IMMUTABLE_OWNER: u16 = 7;

/// Whether an account can be opened with the extension type: one for transfer fees,
/// for a fixed owner, for tokens that cannot be transferred, or for transfer hooks.
pub open spec fn opens_with(kind: u16) -> bool {
    kind == 2 || kind == IMMUTABLE_OWNER || kind == 13 || kind == 15
}

/// The numbers of the extension types of the Token-2022 mint in `mint_data`; nothing
/// where `mint_data` is no such mint.
pub uninterp spec fn mint_extensions(mint_data: Seq<u8>) -> Option<Seq<u16>>;

/// Calls `PodStateWithExtensions::unpack` and `get_extension_types` of
/// `spl_token_2022`. Claimed: what comes out depends on the data alone, and the crate
/// knows 25 types, numbered from 0.
#[verifier::external_body]
fn extensions_of_mint(mint_data: &[u8]) -> (r: Option<Vec<u16>>)
    ensures
        match r {
            Some(types) => {
                &&& mint_extensions(mint_data@) == Some(types@)
                &&& forall|i: int| 0 <= i < types@.len() ==> (#[trigger] types@[i]) < 25
            },
            None => mint_extensions(mint_data@) is None,
        },
{
    let state = PodStateWithExtensions::<PodMint>::unpack(mint_data).ok()?;
    Some(state.get_extension_types().ok()?.into_iter().map(u16::from).collect())
}

/// The extension types that a mint's extension of type `kind` asks of its accounts:
/// transfer fees and hooks have a counterpart each, and a token that cannot be
/// transferred fixes the owner besides.
pub open spec fn asked_by(kind: u16) -> Seq<u16> {
    if kind == 1 {
        seq![2u16]
    } else if kind == 9 {
        seq![13u16, IMMUTABLE_OWNER]
    } else if kind == 14 {
        seq![15u16]
    } else {
        Seq::empty()
    }
}

/// The extension types that a mint with the given ones asks of its accounts.
pub open spec fn account_extensions(types: Seq<u16>) -> Seq<u16>
    decreases types.len(),
{
    if types.len() == 0 {
        Seq::empty()
    } else {
        account_extensions(types.drop_last()) + asked_by(types.last())
    }
}

/// Calls `ExtensionType::get_required_init_account_extensions` of `spl_token_2022`.
/// Claimed: the types are those above.
#[verifier::external_body]
fn required_account_extensions(types: &Vec<u16>) -> (r: Vec<u16>)
    requires
        forall|i: int| 0 <= i < types@.len() ==> (#[trigger] types@[i]) < 25,
    ensures
        r@ == account_extensions(types@),
{
    let types = types.iter().map(|kind| {
        ExtensionType::try_from(*kind).expect("types are numbered below 25")
    }).collect::<Vec<_>>();
    let kinds = ExtensionType::get_required_init_account_extensions(&types);
    kinds.into_iter().map(u16::from).collect()
}

/// The bytes that `kind`, of the given length, takes among the extensions in `kinds`:
/// four for type and length, and the value, once however often it is listed.
pub open spec fn extension_len(kinds: Seq<u16>, kind: u16, len: nat) -> nat {
    if kinds.contains(kind) {
        4 + len
    } else {
        0
    }
}

/// The size of an account with the extensions in `kinds`.
pub open spec fn extended_len(kinds: Seq<u16>) -> nat {
    if kinds.len() == 0 {
        165
    } else {
        166 + extension_len(kinds, 2, 8) + extension_len(kinds, IMMUTABLE_OWNER, 0)
            + extension_len(kinds, 13, 0) + extension_len(kinds, 15, 1)
    }
}

/// Calls `ExtensionType::try_calculate_account_len` of `spl_token_2022` for an
/// account. Claimed: the size is the one above, which each of these types has.
#[verifier::external_body]
fn account_len(kinds: &Vec<u16>) -> (r: usize)
    requires
        forall|i: int| 0 <= i < kinds@.len() ==> opens_with(#[trigger] kinds@[i]),
    ensures
        r == extended_len(kinds@),
{
    let kinds = kinds.iter().map(|kind| {
        ExtensionType::try_from(*kind).expect("accounts open with known types")
    }).collect::<Vec<_>>();
    ExtensionType::try_calculate_account_len::<TokenAccount>(&kinds).expect("sizes are fixed")
}

/// The data of an account, not yet initialized, after its extension of type `kind`
/// was; nothing where `data` is no such account or has no room for it.
pub uninterp spec fn extension_opened(data: Seq<u8>, kind: u16) -> Option<Seq<u8>>;

/// Calls `PodStateWithExtensionsMut::unpack_uninitialized` and
/// `init_account_extension_from_type` of `spl_token_2022` on a copy of `data`. Claimed:
/// what comes out depends on the arguments alone and is as long as `data`. The second
/// call panics for types that no account is opened with.
#[verifier::external_body]
fn open_extension(data: &[u8], kind: u16) -> (r: Option<Vec<u8>>)
    requires
        opens_with(kind),
    ensures
        match r {
            Some(after) => extension_opened(data@, kind) == Some(after@) && after@.len()
                == data@.len(),
            None => extension_opened(data@, kind) is None,
        },
{
    let mut data = data.to_vec();
    let mut view = PodStateWithExtensionsMut::<PodAccount>::unpack_uninitialized(&mut data).ok()?;
    view.init_account_extension_from_type(ExtensionType::try_from(kind).ok()?).ok()?;
    Some(data)
}

/// Whether `data` is an account, not yet initialized, that can be marked as an account.
pub uninterp spec fn takes_account_type(data: Seq<u8>) -> bool;

/// Calls `PodStateWithExtensionsMut::unpack_uninitialized` and `init_account_type` of
/// `spl_token_2022` on a copy of `data`. Claimed: whether they succeed depends on the
/// data alone, and they set the byte after the first 165, where there is one, to 2.
#[verifier::external_body]
fn mark_account_type(data: &[u8]) -> (r: Option<Vec<u8>>)
    ensures
        match r {
            Some(after) => {
                &&& takes_account_type(data@)
                &&& after@ == (if data@.len() > 165 {
                    data@.update(165, 2)
                } else {
                    data@
                })
            },
            None => !takes_account_type(data@),
        },
{
    let mut data = data.to_vec();
    let mut view = PodStateWithExtensionsMut::<PodAccount>::unpack_uninitialized(&mut data).ok()?;
    view.init_account_type().ok()?;
    Some(data)
}

/// The data of an account after its extensions of the first `n` types were
/// initialized, one after the other, in `data`.
pub open spec fn extensions_opened(data: Seq<u8>, kinds: Seq<u16>, n: nat) -> Option<Seq<u8>>
    decreases n,
{
    if n == 0 {
        Some(data)
    } else {
        match extensions_opened(data, kinds, (n - 1) as nat) {
            Some(before) => extension_opened(before, kinds[n - 1]),
            None => None,
        }
    }
}

/// The data of a Token-2022 account that starts with the 165 bytes of `base` and has
/// the extensions of the types in `kinds`.
pub open spec fn extended_account(kinds: Seq<u16>, base: Seq<u8>) -> Option<Seq<u8>> {
    let blank = Seq::new(extended_len(kinds), |i: int| 0u8);
    match extensions_opened(blank, kinds, kinds.len()) {
        Some(data) => if takes_account_type(data) {
            Some(
                base + (if data.len() > 165 {
                    data.update(165, 2)
                } else {
                    data
                }).skip(165),
            )
        } else {
            None
        },
        None => None,
    }
}

/// Once an extension cannot be initialized, no more can.
proof fn lemma_unopened(data: Seq<u8>, kinds: Seq<u16>, n: nat)
    requires
        extensions_opened(data, kinds, n) is None,
        n <= kinds.len(),
    ensures
        extensions_opened(data, kinds, kinds.len()) is None,
    decreases kinds.len() - n,
{
    if n < kinds.len() {
        lemma_unopened(data, kinds, n + 1);
    }
}

/// Builds the data of a Token-2022 account from its first 165 bytes and the types of
/// its extensions.
fn pack_extended_account(kinds: &Vec<u16>, base: &[u8]) -> (r: Option<Vec<u8>>)
    requires
        base@.len() == 165,
        forall|i: int| 0 <= i < kinds@.len() ==> opens_with(#[trigger] kinds@[i]),
    ensures
        match r {
            Some(data) => extended_account(kinds@, base@) == Some(data@),
            None => extended_account(kinds@, base@) is None,
        },
{
    let len: usize = account_len(kinds);
    let mut data: Vec<u8> = Vec::new();
    let mut z: usize = 0;
    while z < len
        invariant
            z <= len,
            data@ =~= Seq::new(z as nat, |i: int| 0u8),
        decreases len - z,
    {
        data.push(0);
        z = z + 1;
    }
    let ghost blank = data@;
    let mut i: usize = 0;
    while i < kinds.len()
        invariant
            i <= kinds@.len(),
            data@.len() == blank.len(),
            extensions_opened(blank, kinds@, i as nat) == Some(data@),
            forall|j: int| 0 <= j < kinds@.len() ==> opens_with(#[trigger] kinds@[j]),
            blank == Seq::new(extended_len(kinds@), |j: int| 0u8),
        decreases kinds@.len() - i,
    {
        match open_extension(data.as_slice(), kinds[i]) {
            Some(after) => {
                data = after;
            },
            None => {
                proof {
                    lemma_unopened(blank, kinds@, (i + 1) as nat);
                }
                return None;
            },
        }
        i = i + 1;
    }
    let marked = mark_account_type(data.as_slice())?;
    let mut out: Vec<u8> = Vec::new();
    push_bytes(&mut out, base);
    let tail = vstd::slice::slice_subrange(marked.as_slice(), 165, marked.len());
    push_bytes(&mut out, tail);
    assert(out@ =~= base@ + marked@.skip(165));
    Some(out)
}

/// The data of a Token-2022 account that starts with `base`, has the extensions that
/// the mint asks of its accounts, and then a fixed owner; nothing where `mint_data` is
/// no such mint.
pub open spec fn token_2022_account(mint_data: Seq<u8>, base: Seq<u8>) -> Option<Seq<u8>> {
    match mint_extensions(mint_data) {
        Some(types) => extended_account(account_extensions(types).push(IMMUTABLE_OWNER), base),
        None => None,
    }
}

/// A mint asks only for extensions that accounts can be opened with.
proof fn lemma_accounts_open(types: Seq<u16>)
    ensures
        forall|i: int|
            0 <= i < account_extensions(types).len() ==> opens_with(
                #[trigger] account_extensions(types)[i],
            ),
    decreases types.len(),
{
    if types.len() > 0 {
        let before = account_extensions(types.drop_last());
        lemma_accounts_open(types.drop_last());
        assert forall|i: int| 0 <= i < account_extensions(types).len() implies opens_with(
            #[trigger] account_extensions(types)[i],
        ) by {
            if i < before.len() {
                assert(opens_with(before[i]));
            } else {
                assert(opens_with(asked_by(types.last())[i - before.len()]));
            }
        }
    }
}

/// Builds the data of a Token-2022 account of the mint in `mint_data`.
fn pack_token_2022_account(mint_data: &[u8], base: &[u8]) -> (r: Option<Vec<u8>>)
    requires
        base@.len() == 165,
    ensures
        match r {
            Some(data) => token_2022_account(mint_data@, base@) == Some(data@),
            None => token_2022_account(mint_data@, base@) is None,
        },
{
    let types = extensions_of_mint(mint_data)?;
    proof {
        lemma_accounts_open(types@);
    }
    let mut kinds = required_account_extensions(&types);
    kinds.push(IMMUTABLE_OWNER);
    pack_extended_account(&kinds, base)
}

/// The first genesis account at `address`.
pub open spec fn found(infos: Seq<(InfoView, Option<u64>)>, address: Pubkey) -> Option<InfoView>
    decreases infos.len(),
{
    if infos.len() == 0 {
        None
    } else if infos[0].0.address == address {
        Some(infos[0].0)
    } else {
        found(infos.skip(1), address)
    }
}

/// The rent reserve that a wrapped-SOL account records; other accounts record none.
pub open spec fn native_reserve(mint: Pubkey) -> Option<u64> {
    if mint == NATIVE_MINT {
        Some(2_039_280)
    } else {
        None
    }
}

/// The data of a seeded token account, extensions left out.
pub open spec fn seeded_account_bytes(mint: Pubkey, wallet: Pubkey) -> Seq<u8> {
    token_account_bytes(mint, wallet, DEFAULT_TOKEN_AMOUNT, native_reserve(mint))
}

/// The accounts after seeding `wallet` with tokens of `mint`: one more where the mint
/// is among them, with no lamports of its own. Nothing where the token account cannot be built.
pub open spec fn seeded_with(
    infos: Seq<(InfoView, Option<u64>)>,
    wallet: Pubkey,
    mint: Pubkey,
) -> Option<Seq<(InfoView, Option<u64>)>> {
    match found(infos, mint) {
        None => Some(infos),
        Some(info) => match associated_token_pda(wallet, info.owner, mint) {
            None => None,
            Some((address, _)) => if info.owner == SPL_TOKEN_2022_PROGRAM_ID {
                match token_2022_account(info.data, seeded_account_bytes(mint, wallet)) {
                    None => None,
                    Some(data) => Some(
                        infos.push(
                            (InfoView { address, data, owner: SPL_TOKEN_2022_PROGRAM_ID }, None),
                        ),
                    ),
                }
            } else {
                Some(
                    infos.push(
                        (
                            InfoView {
                                address,
                                data: seeded_account_bytes(mint, wallet),
                                owner: SPL_TOKEN_PROGRAM_ID,
                            },
                            None,
                        ),
                    ),
                )
            },
        },
    }
}

/// The accounts after seeding `wallet` with tokens of the first `n` mints.
pub open spec fn seeded_wallet(
    infos: Seq<(InfoView, Option<u64>)>,
    wallet: Pubkey,
    mints: Seq<Pubkey>,
    n: nat,
) -> Option<Seq<(InfoView, Option<u64>)>>
    decreases n,
{
    if n == 0 {
        Some(infos)
    } else {
        match seeded_wallet(infos, wallet, mints, (n - 1) as nat) {
            None => None,
            Some(before) => seeded_with(before, wallet, mints[n - 1]),
        }
    }
}

/// The accounts after seeding the first `n` wallets with tokens of every mint.
pub open spec fn seeded_wallets(
    infos: Seq<(InfoView, Option<u64>)>,
    wallets: Seq<Pubkey>,
    mints: Seq<Pubkey>,
    n: nat,
) -> Option<Seq<(InfoView, Option<u64>)>>
    decreases n,
{
    if n == 0 {
        Some(infos)
    } else {
        match seeded_wallets(infos, wallets, mints, (n - 1) as nat) {
            None => None,
            Some(before) => seeded_wallet(before, wallets[n - 1], mints, mints.len()),
        }
    }
}

/// The position of the first genesis account at `address`.
fn find_info(infos: &Vec<(AccountConfigInfo, Option<u64>)>, address: &Pubkey) -> (r: Option<usize>)
    ensures
        match r {
            Some(i) => i < infos@.len() && found(info_views(infos@), *address) == Some(
                infos@[i as int].0@,
            ),
            None => found(info_views(infos@), *address) is None,
        },
{
    let ghost all = info_views(infos@);
    let mut i: usize = 0;
    assert(all.skip(0) =~= all);
    while i < infos.len()
        invariant
            i <= infos@.len(),
            all == info_views(infos@),
            found(all.skip(i as int), *address) == found(all, *address),
        decreases infos@.len() - i,
    {
        if same_key(&infos[i].0.address, address) {
            assert(all.skip(i as int)[0].0 == infos@[i as int].0@);
            return Some(i);
        }
        assert(all.skip(i as int).skip(1) =~= all.skip(i + 1));
        i = i + 1;
    }
    None
}

fn seed_account(
    infos: Vec<(AccountConfigInfo, Option<u64>)>,
    wallet: &Pubkey,
    mint: &Pubkey,
) -> (r: Option<Vec<(AccountConfigInfo, Option<u64>)>>)
    ensures
        infos_of(r) == seeded_with(info_views(infos@), *wallet, *mint),
{
    let mut infos = infos;
    let ghost before = infos@;
    let at: usize = match find_info(&infos, mint) {
        None => {
            return Some(infos);
        },
        Some(at) => at,
    };
    let owner = infos[at].0.owner;
    let (address, _) = associated_token(wallet, &owner, mint)?;
    let native: Option<u64> = if same_key(mint, &NATIVE_MINT) {
        Some(rent_exempt_minimum(165))
    } else {
        None
    };
    let base = pack_token_account(mint, wallet, DEFAULT_TOKEN_AMOUNT, native);
    assert(base@.len() == 165) by {
        broadcast use lemma_le_bytes_len;

    }
    let info = if same_key(&owner, &SPL_TOKEN_2022_PROGRAM_ID) {
        let data = pack_token_2022_account(infos[at].0.data.as_slice(), base.as_slice())?;
        AccountConfigInfo { address, data, owner: SPL_TOKEN_2022_PROGRAM_ID }
    } else {
        AccountConfigInfo { address, data: base, owner: SPL_TOKEN_PROGRAM_ID }
    };
    let ghost added = info@;
    infos.push((info, None));
    assert(info_views(infos@) =~= info_views(before).push((added, None)));
    Some(infos)
}

/// Seeds a token account for every wallet and every mint that is among the accounts.
/// Nothing where one cannot be built.
pub fn create_wallet_associated_token_account(
    accounts_to_load: Vec<(AccountConfigInfo, Option<u64>)>,
    mints: &Vec<Pubkey>,
    wallets: &Vec<Pubkey>,
) -> (r: Option<Vec<(AccountConfigInfo, Option<u64>)>>)
    ensures
        infos_of(r) == seeded_wallets(
            info_views(accounts_to_load@),
            wallets@,
            mints@,
            wallets@.len(),
        ),
{
    let ghost start = info_views(accounts_to_load@);
    let mut infos = accounts_to_load;
    let mut w: usize = 0;
    while w < wallets.len()
        invariant
            w <= wallets@.len(),
            start == info_views(accounts_to_load@),
            seeded_wallets(start, wallets@, mints@, w as nat) == Some(info_views(infos@)),
        decreases wallets@.len() - w,
    {
        let ghost before = info_views(infos@);
        let mut m: usize = 0;
        while m < mints.len()
            invariant
                m <= mints@.len(),
                w < wallets@.len(),
                start == info_views(accounts_to_load@),
                seeded_wallets(start, wallets@, mints@, w as nat) == Some(before),
                seeded_wallet(before, wallets@[w as int], mints@, m as nat) == Some(
                    info_views(infos@),
                ),
            decreases mints@.len() - m,
        {
            match seed_account(infos, &wallets[w], &mints[m]) {
                Some(more) => {
                    infos = more;
                },
                None => {
                    proof {
                        lemma_unseeded_wallet(before, wallets@[w as int], mints@, (m + 1) as nat);
                        lemma_unseeded(start, wallets@, mints@, (w + 1) as nat);
                    }
                    return None;
                },
            }
            m = m + 1;
        }
        w = w + 1;
    }
    Some(infos)
}

/// Once an account cannot be built, seeding the wallet with more mints fails too.
proof fn lemma_unseeded_wallet(
    infos: Seq<(InfoView, Option<u64>)>,
    wallet: Pubkey,
    mints: Seq<Pubkey>,
    n: nat,
)
    requires
        seeded_wallet(infos, wallet, mints, n) is None,
        n <= mints.len(),
    ensures
        seeded_wallet(infos, wallet, mints, mints.len()) is None,
    decreases mints.len() - n,
{
    if n < mints.len() {
        lemma_unseeded_wallet(infos, wallet, mints, n + 1);
    }
}

/// Once a wallet cannot be seeded, seeding more wallets fails too.
proof fn lemma_unseeded(
    infos: Seq<(InfoView, Option<u64>)>,
    wallets: Seq<Pubkey>,
    mints: Seq<Pubkey>,
    n: nat,
)
    requires
        seeded_wallets(infos, wallets, mints, n) is None,
        n <= wallets.len(),
    ensures
        seeded_wallets(infos, wallets, mints, wallets.len()) is None,
    decreases wallets.len() - n,
{
    if n < wallets.len() {
        lemma_unseeded(infos, wallets, mints, n + 1);
    }
}

} // verus!
