//! Laws of the genesis accounts of a local validator.

use vstd::prelude::*;

use crate::bytes::{
    le_bytes, le_value, lemma_byte_ranges, lemma_le_bytes_len, lemma_le_round_trip,
};
use crate::constants::{
    NATIVE_MINT, SPL_TOKEN_2022_PROGRAM_ID, SPL_TOKEN_PROGRAM_ID, SYSTEM_PROGRAM_ID,
};
use crate::local_validator::{
    account_extensions, extended_len, extensions_opened, found, is_lookup_table, mint_extensions,
    rewritten, seeded_wallet, seeded_wallets, seeded_with, system_info, takes_account_type,
    token_2022_account, token_account_bytes, InfoView,
};
use crate::pubkey::Pubkey;
use crate::sdk::account_laws::token_account;

verus! {

/// Whether all bytes of `data` are zero.
pub open spec fn all_zero(data: Seq<u8>) -> bool {
    forall|i: int| 0 <= i < data.len() ==> #[trigger] data[i] == 0
}

proof fn lemma_zeros(n: nat)
    ensures
        all_zero(le_bytes(0, n)),
        le_bytes(0, n).len() == n,
    decreases n,
{
    lemma_le_bytes_len(0, n);
    if n > 0 {
        lemma_zeros((n - 1) as nat);
        assert forall|i: int| 0 <= i < n implies #[trigger] le_bytes(0, n)[i] == 0 by {
            if i > 0 {
                assert(le_bytes(0, n)[i] == le_bytes(0, (n - 1) as nat)[i - 1]);
            }
        }
    }
}

/// Whether `data` is an initialized token account of `owner` with `amount` tokens of
/// `mint`, without delegate and close authority. A wrapped-SOL account records its rent
/// reserve, after a set mark; the others record none.
pub open spec fn is_token_data(
    data: Seq<u8>,
    mint: Pubkey,
    owner: Pubkey,
    amount: u64,
    native: Option<u64>,
) -> bool {
    &&& data.len() >= 165
    &&& data.subrange(0, 32) == mint@
    &&& data.subrange(32, 64) == owner@
    &&& le_value(data.subrange(64, 72)) == amount
    &&& all_zero(data.subrange(72, 108))
    &&& data[108] == 1
    &&& match native {
        Some(reserve) => {
            &&& le_value(data.subrange(109, 113)) == 1
            &&& le_value(data.subrange(113, 121)) == reserve
        },
        None => all_zero(data.subrange(109, 121)),
    }
    &&& all_zero(data.subrange(121, 165))
}

/// The data of a token account are those of a token account, whatever follows.
pub proof fn law_token_account_layout(
    mint: Pubkey,
    owner: Pubkey,
    amount: u64,
    native: Option<u64>,
    rest: Seq<u8>,
)
    ensures
        token_account_bytes(mint, owner, amount, native).len() == 165,
        is_token_data(
            token_account_bytes(mint, owner, amount, native) + rest,
            mint,
            owner,
            amount,
            native,
        ),
{
    lemma_byte_ranges();
    lemma_le_round_trip(amount as nat, 8);
    lemma_le_bytes_len(amount as nat, 8);
    lemma_zeros(36);
    lemma_zeros(12);
    lemma_zeros(44);
    lemma_le_round_trip(1, 4);
    lemma_le_bytes_len(1, 4);
    let data = token_account_bytes(mint, owner, amount, native) + rest;
    if let Some(reserve) = native {
        lemma_le_round_trip(reserve as nat, 8);
        lemma_le_bytes_len(reserve as nat, 8);
        assert(data.subrange(109, 113) =~= le_bytes(1, 4));
        assert(data.subrange(113, 121) =~= le_bytes(reserve as nat, 8));
    } else {
        assert(data.subrange(109, 121) =~= le_bytes(0, 12));
    }
    assert(data.subrange(0, 32) =~= mint@);
    assert(data.subrange(32, 64) =~= owner@);
    assert(data.subrange(64, 72) =~= le_bytes(amount as nat, 8));
    assert(data.subrange(72, 108) =~= le_bytes(0, 36));
    assert(data.subrange(121, 165) =~= le_bytes(0, 44));
}

/// What is found at an address is the first account there; nothing is found where there
/// is none.
pub proof fn law_first_account_is_found(infos: Seq<(InfoView, Option<u64>)>, address: Pubkey)
    ensures
        match found(infos, address) {
            Some(info) => exists|i: int|
                {
                    &&& 0 <= i < infos.len()
                    &&& (#[trigger] infos[i]).0 == info
                    &&& info.address == address
                    &&& forall|j: int| 0 <= j < i ==> (#[trigger] infos[j]).0.address != address
                },
            None => forall|i: int|
                0 <= i < infos.len() ==> (#[trigger] infos[i]).0.address != address,
        },
    decreases infos.len(),
{
    if infos.len() > 0 && infos[0].0.address != address {
        let rest = infos.skip(1);
        law_first_account_is_found(rest, address);
        if let Some(info) = found(rest, address) {
            let i = choose|i: int|
                {
                    &&& 0 <= i < rest.len()
                    &&& (#[trigger] rest[i]).0 == info
                    &&& info.address == address
                    &&& forall|j: int| 0 <= j < i ==> (#[trigger] rest[j]).0.address != address
                };
            assert(infos[i + 1].0 == info);
            assert forall|j: int| 0 <= j < i + 1 implies (#[trigger] infos[j]).0.address
                != address by {
                if j > 0 {
                    assert(rest[j - 1] == infos[j]);
                }
            }
        } else {
            assert forall|i: int| 0 <= i < infos.len() implies (#[trigger] infos[i]).0.address
                != address by {
                if i > 0 {
                    assert(rest[i - 1] == infos[i]);
                }
            }
        }
    } else if infos.len() > 0 {
        assert(infos[0].0 == found(infos, address).unwrap());
    }
}

/// Whether an account is the one that a wallet is seeded with: at the wallet's token
/// address for the mint under the program that owns the mint, with a hundred thousand
/// tokens of six decimals, and in wrapped SOL with the rent reserve of such an account.
/// The token program owns it, and it is given no lamports of its own.
pub open spec fn is_seed(
    entry: (InfoView, Option<u64>),
    wallet: Pubkey,
    mint: Pubkey,
    mint_owner: Pubkey,
) -> bool {
    &&& Some(entry.0.address) == token_account(Some(wallet), mint, mint_owner)
    &&& entry.0.owner == (if mint_owner == SPL_TOKEN_2022_PROGRAM_ID {
        SPL_TOKEN_2022_PROGRAM_ID
    } else {
        SPL_TOKEN_PROGRAM_ID
    })
    &&& is_token_data(
        entry.0.data,
        mint,
        wallet,
        100_000_000_000,
        if mint == NATIVE_MINT {
            Some(2_039_280)
        } else {
            None
        },
    )
    &&& mint_owner != SPL_TOKEN_2022_PROGRAM_ID ==> entry.0.data.len() == 165
    &&& entry.1 is None
}

/// Seeding a wallet with a mint adds its token account at the end where the mint is
/// among the accounts, and nothing where it is not.
pub proof fn law_seeding_adds_the_account(
    infos: Seq<(InfoView, Option<u64>)>,
    wallet: Pubkey,
    mint: Pubkey,
)
    ensures
        found(infos, mint) is None ==> seeded_with(infos, wallet, mint) == Some(infos),
        found(infos, mint) matches Some(info) ==> match seeded_with(infos, wallet, mint) {
            Some(list) => {
                &&& list.len() == infos.len() + 1
                &&& list.drop_last() == infos
                &&& is_seed(list.last(), wallet, mint, info.owner)
            },
            None => {
                ||| token_account(Some(wallet), mint, info.owner) is None
                ||| info.owner == SPL_TOKEN_2022_PROGRAM_ID
            },
        },
{
    if let Some(info) = found(infos, mint) {
        let native: Option<u64> = if mint == NATIVE_MINT {
            Some(2_039_280)
        } else {
            None
        };
        let amount: u64 = 100_000_000_000;
        let base = token_account_bytes(mint, wallet, amount, native);
        if let Some(list) = seeded_with(infos, wallet, mint) {
            assert(list.drop_last() =~= infos);
            let data = list.last().0.data;
            law_token_account_layout(mint, wallet, amount, native, data.skip(165));
            assert(data =~= base + data.skip(165));
        }
    }
}

/// Seeding keeps the accounts that were there, in their places.
pub proof fn law_seeding_keeps_accounts(
    infos: Seq<(InfoView, Option<u64>)>,
    wallets: Seq<Pubkey>,
    mints: Seq<Pubkey>,
    n: nat,
)
    requires
        n <= wallets.len(),
    ensures
        seeded_wallets(infos, wallets, mints, n) matches Some(list) ==> infos.len() <= list.len()
            && list.take(infos.len() as int) == infos,
    decreases n,
{
    if n == 0 {
        assert(infos.take(infos.len() as int) =~= infos);
    } else if let Some(before) = seeded_wallets(infos, wallets, mints, (n - 1) as nat) {
        law_seeding_keeps_accounts(infos, wallets, mints, (n - 1) as nat);
        lemma_wallet_keeps(before, wallets[n - 1], mints, mints.len());
        if let Some(list) = seeded_wallets(infos, wallets, mints, n) {
            assert(list.take(infos.len() as int) =~= list.take(before.len() as int).take(
                infos.len() as int,
            ));
        }
    }
}

proof fn lemma_wallet_keeps(
    infos: Seq<(InfoView, Option<u64>)>,
    wallet: Pubkey,
    mints: Seq<Pubkey>,
    n: nat,
)
    requires
        n <= mints.len(),
    ensures
        seeded_wallet(infos, wallet, mints, n) matches Some(list) ==> infos.len() <= list.len()
            && list.take(infos.len() as int) == infos,
    decreases n,
{
    if n == 0 {
        assert(infos.take(infos.len() as int) =~= infos);
    } else if let Some(before) = seeded_wallet(infos, wallet, mints, (n - 1) as nat) {
        lemma_wallet_keeps(infos, wallet, mints, (n - 1) as nat);
        law_seeding_adds_the_account(before, wallet, mints[n - 1]);
        if let Some(list) = seeded_wallet(infos, wallet, mints, n) {
            assert(list.take(infos.len() as int) =~= before.take(infos.len() as int));
        }
    }
}

/// A mint that was among the accounts is found as it was after more are added.
proof fn lemma_found_stays(
    infos: Seq<(InfoView, Option<u64>)>,
    more: Seq<(InfoView, Option<u64>)>,
    address: Pubkey,
)
    requires
        infos.len() <= more.len(),
        more.take(infos.len() as int) == infos,
        found(infos, address) is Some,
    ensures
        found(more, address) == found(infos, address),
    decreases infos.len(),
{
    if infos.len() > 0 {
        assert(more[0] == more.take(infos.len() as int)[0]);
        if infos[0].0.address != address {
            assert(more.skip(1).take(infos.skip(1).len() as int) =~= infos.skip(1));
            lemma_found_stays(infos.skip(1), more.skip(1), address);
        }
    }
}

/// Whether a list holds the seed of a wallet with a mint.
pub open spec fn holds_seed(
    list: Seq<(InfoView, Option<u64>)>,
    wallet: Pubkey,
    mint: Pubkey,
    mint_owner: Pubkey,
) -> bool {
    exists|i: int|
        0 <= i < list.len() && is_seed(#[trigger] list[i], wallet, mint, mint_owner)
}

proof fn lemma_seed_stays(
    list: Seq<(InfoView, Option<u64>)>,
    more: Seq<(InfoView, Option<u64>)>,
    wallet: Pubkey,
    mint: Pubkey,
    mint_owner: Pubkey,
)
    requires
        list.len() <= more.len(),
        more.take(list.len() as int) == list,
        holds_seed(list, wallet, mint, mint_owner),
    ensures
        holds_seed(more, wallet, mint, mint_owner),
{
    let i = choose|i: int|
        0 <= i < list.len() && is_seed(#[trigger] list[i], wallet, mint, mint_owner);
    assert(more[i] == more.take(list.len() as int)[i]);
}

proof fn lemma_wallet_gets(
    infos: Seq<(InfoView, Option<u64>)>,
    wallet: Pubkey,
    mints: Seq<Pubkey>,
    n: nat,
    m: int,
    info: InfoView,
)
    requires
        0 <= m < n <= mints.len(),
        found(infos, mints[m]) == Some(info),
    ensures
        seeded_wallet(infos, wallet, mints, n) matches Some(list) ==> holds_seed(
            list,
            wallet,
            mints[m],
            info.owner,
        ),
    decreases n,
{
    if let Some(before) = seeded_wallet(infos, wallet, mints, (n - 1) as nat) {
        lemma_wallet_keeps(infos, wallet, mints, (n - 1) as nat);
        law_seeding_adds_the_account(before, wallet, mints[n - 1]);
        if let Some(list) = seeded_wallet(infos, wallet, mints, n) {
            if m == n - 1 {
                lemma_found_stays(infos, before, mints[m]);
                assert(list[list.len() - 1] == list.last());
            } else {
                lemma_wallet_gets(infos, wallet, mints, (n - 1) as nat, m, info);
                assert(list.take(before.len() as int) =~= before);
                lemma_seed_stays(before, list, wallet, mints[m], info.owner);
            }
        }
    }
}

/// Every wallet is seeded with every mint that is among the accounts.
pub proof fn law_every_wallet_is_seeded(
    infos: Seq<(InfoView, Option<u64>)>,
    wallets: Seq<Pubkey>,
    mints: Seq<Pubkey>,
    n: nat,
    w: int,
    m: int,
    info: InfoView,
)
    requires
        0 <= w < n <= wallets.len(),
        0 <= m < mints.len(),
        found(infos, mints[m]) == Some(info),
    ensures
        seeded_wallets(infos, wallets, mints, n) matches Some(list) ==> holds_seed(
            list,
            wallets[w],
            mints[m],
            info.owner,
        ),
    decreases n,
{
    if let Some(before) = seeded_wallets(infos, wallets, mints, (n - 1) as nat) {
        law_seeding_keeps_accounts(infos, wallets, mints, (n - 1) as nat);
        lemma_wallet_keeps(before, wallets[n - 1], mints, mints.len());
        if let Some(list) = seeded_wallets(infos, wallets, mints, n) {
            if w == n - 1 {
                lemma_found_stays(infos, before, mints[m]);
                lemma_wallet_gets(before, wallets[w], mints, mints.len(), m, info);
            } else {
                law_every_wallet_is_seeded(infos, wallets, mints, (n - 1) as nat, w, m, info);
                lemma_seed_stays(before, list, wallets[w], mints[m], info.owner);
            }
        }
    }
}

/// A known lookup table keeps its addresses and is active from slot zero: its kind is
/// set, its deactivation lies in the greatest slot, and the rest of its first 56 bytes
/// is zero. Every other account stays as it is.
pub proof fn law_lookup_tables_are_activated(
    known: Seq<Pubkey>,
    address: Pubkey,
    data: Seq<u8>,
)
    requires
        data.len() >= 56,
    ensures
        known.contains(address) && is_lookup_table(data) ==> {
            let table = rewritten(known, address, data);
            &&& table.len() == data.len()
            &&& le_value(table.subrange(0, 4)) == 1
            &&& le_value(table.subrange(4, 12)) == u64::MAX
            &&& all_zero(table.subrange(12, 56))
            &&& table.skip(56) == data.skip(56)
        },
        !known.contains(address) || !is_lookup_table(data) ==> rewritten(known, address, data)
            == data,
{
    lemma_byte_ranges();
    lemma_le_round_trip(1, 4);
    lemma_le_round_trip(u64::MAX as nat, 8);
    lemma_le_bytes_len(1, 4);
    lemma_le_bytes_len(u64::MAX as nat, 8);
    lemma_zeros(44);
    if known.contains(address) && is_lookup_table(data) {
        let table = rewritten(known, address, data);
        assert(table.subrange(0, 4) =~= le_bytes(1, 4));
        assert(table.subrange(4, 12) =~= le_bytes(u64::MAX as nat, 8));
        assert(table.subrange(12, 56) =~= le_bytes(0, 44));
        assert(table.skip(56) =~= data.skip(56));
    }
}

/// A Token-2022 account keeps the bytes of the plain one and has the extensions that its
/// mint asks for, the fixed owner last. Where opening these kept its size, that is its
/// size, and the byte after the plain ones marks it as an account.
pub proof fn law_extended_accounts_start_plain(
    mint_data: Seq<u8>,
    base: Seq<u8>,
    types: Seq<u16>,
    opened: Seq<u8>,
)
    requires
        base.len() == 165,
        mint_extensions(mint_data) == Some(types),
        ({
            let kinds = account_extensions(types) + seq![7u16];
            let blank = Seq::new(extended_len(kinds), |i: int| 0u8);
            &&& extensions_opened(blank, kinds, kinds.len()) == Some(opened)
            &&& opened.len() == extended_len(kinds)
        }),
    ensures
        match token_2022_account(mint_data, base) {
            Some(data) => {
                &&& data.take(165) == base
                &&& data.len() == extended_len(account_extensions(types) + seq![7u16])
                &&& data.len() > 165
                &&& data[165] == 2
                &&& data.skip(166) == opened.skip(166)
            },
            None => !takes_account_type(opened),
        },
{
    let kinds = account_extensions(types) + seq![7u16];
    assert(account_extensions(types).push(7) =~= kinds);
    if let Some(data) = token_2022_account(mint_data, base) {
        assert(data =~= base + opened.update(165, 2).skip(165));
        assert(data.take(165) =~= base);
        assert(data.skip(166) =~= opened.skip(166));
    }
}

/// A wallet starts as an account of the system program without data.
pub proof fn law_wallets_start_empty(wallet: Pubkey)
    ensures
        system_info(wallet).address == wallet,
        system_info(wallet).data.len() == 0,
        system_info(wallet).owner == SYSTEM_PROGRAM_ID,
{
}

} // verus!
