//! Snapshot files.

use std::collections::HashMap;

use pump_rust_client::client::Account;
use pump_rust_client::pubkey::Pubkey;
use pump_rust_client::snapshot::{snapshot_accounts, snapshot_file, snapshot_frame};
use solana_sdk::pubkey::Pubkey as Key;

fn account(lamports: u64, data: Vec<u8>) -> Account {
    Account { lamports, data, owner: [3; 32], executable: true, rent_epoch: 7 }
}

fn sorted(mut list: Vec<(Pubkey, Account)>) -> Vec<(Pubkey, Account)> {
    list.sort_by(|a, b| a.0.cmp(&b.0));
    list
}

#[test]
fn what_is_written_reads_back() {
    let written =
        vec![([1; 32], account(5, vec![1, 2, 3])), ([2; 32], account(u64::MAX, Vec::new()))];
    let file = snapshot_file(&written);
    assert_eq!(sorted(snapshot_accounts(&file).expect("accounts")), written);

    let empty = snapshot_file(&Vec::new());
    assert_eq!(snapshot_accounts(&empty), Some(Vec::new()));
}

#[test]
fn files_are_compressed_maps() {
    let mut map = HashMap::new();
    map.insert(
        Key::new_from_array([1; 32]),
        solana_sdk::account::Account {
            lamports: 5,
            data: vec![9; 300],
            owner: Key::new_from_array([3; 32]),
            executable: true,
            rent_epoch: 7,
        },
    );
    let bytes = bincode::serialize(&map).expect("bytes");
    let file = zstd::stream::encode_all(&bytes[..], 3).expect("file");
    let expected = vec![([1; 32], account(5, vec![9; 300]))];
    assert_eq!(snapshot_accounts(&file), Some(expected.clone()));
    assert_eq!(snapshot_file(&expected), file);
    assert_eq!(snapshot_frame(&bytes), file);
}

#[test]
fn other_files_are_refused() {
    assert_eq!(snapshot_accounts(b"no snapshot"), None);
    let text = zstd::stream::encode_all(&b"xx"[..], 3).expect("file");
    assert_eq!(snapshot_accounts(&text), None);
}
