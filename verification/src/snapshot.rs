//! The snapshot file that the cloning tool writes and the local validator boots from:
//! the accounts by key, in bincode, compressed with zstd.

use std::collections::HashMap;

use solana_program::pubkey::Pubkey as SolanaKey;
use solana_sdk::account::Account as SolanaAccount;
use vstd::multiset::Multiset;
use vstd::prelude::*;

use crate::client::Account;
use crate::pubkey::Pubkey;

verus! {

/// The compression level of snapshot files.
pub const COMPRESSION_LEVEL: i32 = 3;

/// A key with its account's lamports, data, owner, executable flag and rent epoch.
pub type EntryView = (Pubkey, u64, Seq<u8>, Pubkey, bool, u64);

/// What an entry of a snapshot holds.
pub open spec fn entry_view(entry: (Pubkey, Account)) -> EntryView {
    (
        entry.0,
        entry.1.lamports,
        entry.1.data@,
        entry.1.owner,
        entry.1.executable,
        entry.1.rent_epoch,
    )
}

/// What each entry of a list holds.
pub open spec fn entry_views(list: Seq<(Pubkey, Account)>) -> Seq<EntryView> {
    list.map_values(|entry: (Pubkey, Account)| entry_view(entry))
}

/// What a list of entries holds, whatever their order.
pub open spec fn entries(list: Seq<(Pubkey, Account)>) -> Multiset<EntryView> {
    entry_views(list).to_multiset()
}

/// Whether no key occurs twice.
pub open spec fn distinct_keys(list: Seq<(Pubkey, Account)>) -> bool {
    forall|i: int, j: int| 0 <= i < j < list.len() ==> (#[trigger] list[i]).0 != (#[trigger] list[j]).0
}

/// What `zstd` reads out of compressed bytes; nothing where they are no zstd frames.
pub uninterp spec fn decompressed(bytes: Seq<u8>) -> Option<Seq<u8>>;

/// Calls `zstd::stream::decode_all`. Claimed: what comes out depends on the bytes
/// alone.
#[verifier::external_body]
fn decompress(bytes: &[u8]) -> (r: Option<Vec<u8>>)
    ensures
        match r {
            Some(out) => decompressed(bytes@) == Some(out@),
            None => decompressed(bytes@) is None,
        },
{
    zstd::stream::decode_all(bytes).ok()
}

/// The zstd frame that `bytes` are compressed to at `level`.
pub uninterp spec fn compressed(bytes: Seq<u8>, level: i32) -> Seq<u8>;

/// Calls `zstd::stream::encode_all`. Claimed: it takes any bytes and any level, what
/// comes out depends on these alone, and `zstd` reads the bytes back out of it.
#[verifier::external_body]
fn compress(bytes: &[u8], level: i32) -> (r: Vec<u8>)
    ensures
        r@ == compressed(bytes@, level),
        decompressed(r@) == Some(bytes@),
{
    zstd::stream::encode_all(bytes, level).expect("zstd compresses any bytes")
}

/// The accounts by key that `bincode` reads out of `bytes`; nothing where they hold no
/// such map. A map has no order.
pub uninterp spec fn snapshot_entries(bytes: Seq<u8>) -> Option<Multiset<EntryView>>;

/// Calls `bincode::deserialize` for a hash map of keys and accounts of `solana_sdk`.
/// Claimed: which entries come out depends on the bytes alone, and no key comes out
/// twice. Their order is left open.
#[verifier::external_body]
fn parse_accounts(bytes: &[u8]) -> (r: Option<Vec<(Pubkey, Account)>>)
    ensures
        match r {
            Some(list) => snapshot_entries(bytes@) == Some(entries(list@)) && distinct_keys(list@),
            None => snapshot_entries(bytes@) is None,
        },
{
    let accounts: HashMap<SolanaKey, SolanaAccount> = bincode::deserialize(bytes).ok()?;
    Some(accounts.into_iter().map(|(key, account)| (key.to_bytes(), Account {
        lamports: account.lamports,
        data: account.data,
        owner: account.owner.to_bytes(),
        executable: account.executable,
        rent_epoch: account.rent_epoch,
    })).collect())
}

/// Calls `bincode::serialize` for a hash map of keys and accounts of `solana_sdk`.
/// Claimed: every such map can be written, and `bincode` reads its entries back out of
/// the result. Their order in it is left open.
#[verifier::external_body]
fn write_accounts(accounts: &Vec<(Pubkey, Account)>) -> (r: Vec<u8>)
    requires
        distinct_keys(accounts@),
    ensures
        snapshot_entries(r@) == Some(entries(accounts@)),
{
    let accounts: HashMap<SolanaKey, SolanaAccount> = accounts.iter().map(|(key, account)| (
        SolanaKey::new_from_array(*key),
        SolanaAccount {
            lamports: account.lamports,
            data: account.data.clone(),
            owner: SolanaKey::new_from_array(account.owner),
            executable: account.executable,
            rent_epoch: account.rent_epoch,
        },
    )).collect();
    bincode::serialize(&accounts).expect("bincode writes any map")
}

/// What a snapshot file holds; nothing where it is none.
pub open spec fn snapshot_of(file: Seq<u8>) -> Option<Multiset<EntryView>> {
    match decompressed(file) {
        Some(bytes) => snapshot_entries(bytes),
        None => None,
    }
}

/// The accounts of a snapshot file, each key once; nothing where the file is none.
pub fn snapshot_accounts(file: &[u8]) -> (r: Option<Vec<(Pubkey, Account)>>)
    ensures
        match r {
            Some(list) => snapshot_of(file@) == Some(entries(list@)) && distinct_keys(list@),
            None => snapshot_of(file@) is None,
        },
{
    let bytes = decompress(file)?;
    parse_accounts(bytes.as_slice())
}

/// The snapshot file that a written map of accounts is put into.
pub fn snapshot_frame(bytes: &[u8]) -> (r: Vec<u8>)
    ensures
        r@ == compressed(bytes@, COMPRESSION_LEVEL),
        snapshot_of(r@) == snapshot_entries(bytes@),
{
    compress(bytes, COMPRESSION_LEVEL)
}

/// Whether `file` holds the accounts of `list` and nothing else, at the compression
/// level of snapshot files.
pub open spec fn is_snapshot_file(file: Seq<u8>, list: Seq<(Pubkey, Account)>) -> bool {
    exists|bytes: Seq<u8>|
        #![trigger snapshot_entries(bytes)]
        snapshot_entries(bytes) == Some(entries(list)) && file == compressed(
            bytes,
            COMPRESSION_LEVEL,
        )
}

/// The snapshot file of the accounts.
pub fn snapshot_file(accounts: &Vec<(Pubkey, Account)>) -> (r: Vec<u8>)
    requires
        distinct_keys(accounts@),
    ensures
        is_snapshot_file(r@, accounts@),
        snapshot_of(r@) == Some(entries(accounts@)),
{
    let bytes = write_accounts(accounts);
    snapshot_frame(bytes.as_slice())
}

/// What is read out of a snapshot file is what was written into it: as many accounts,
/// and the same ones, in some order.
pub proof fn law_snapshot_reads_back(
    file: Seq<u8>,
    written: Seq<(Pubkey, Account)>,
    read: Seq<(Pubkey, Account)>,
)
    requires
        snapshot_of(file) == Some(entries(written)),
        snapshot_of(file) == Some(entries(read)),
    ensures
        read.len() == written.len(),
        forall|entry: EntryView|
            #[trigger] entry_views(read).contains(entry) <==> entry_views(written).contains(entry),
{
    entry_views(written).to_multiset_ensures();
    entry_views(read).to_multiset_ensures();
    assert forall|entry: EntryView|
        #[trigger] entry_views(read).contains(entry) <==> entry_views(written).contains(entry) by {
        assert(entry_views(read).contains(entry) <==> entries(read).count(entry) > 0);
        assert(entry_views(written).contains(entry) <==> entries(written).count(entry) > 0);
    }
}

/// What an entry holds is its key and everything of its account: entries that hold the
/// same agree in all of it.
pub proof fn law_entries_hold_everything(a: (Pubkey, Account), b: (Pubkey, Account))
    ensures
        entry_view(a) == entry_view(b) <==> {
            &&& a.0 == b.0
            &&& a.1.lamports == b.1.lamports
            &&& a.1.data@ == b.1.data@
            &&& a.1.owner == b.1.owner
            &&& a.1.executable == b.1.executable
            &&& a.1.rent_epoch == b.1.rent_epoch
        },
{
}

} // verus!
