//! Account addresses and program-derived addresses.

use vstd::prelude::*;

verus! {

/// A 32-byte account address.
pub type Pubkey = [u8; 32];

/// The all-zero address, which stands for "not set".
pub const DEFAULT_KEY: Pubkey = [
    0, 0, 0, 0, 0, 0, 0, 0, 0, 0, 0, 0, 0, 0, 0, 0, 0, 0, 0, 0, 0, 0, 0, 0, 0, 0, 0, 0, 0, 0, 0, 0,
];

/// The address whose bytes are `bytes`.
pub open spec fn key_of(bytes: Seq<u8>) -> Pubkey {
    choose|key: Pubkey| key@ == bytes
}

/// An address is determined by its bytes.
pub broadcast proof fn lemma_key_of_view(key: Pubkey)
    ensures
        #[trigger] key_of(key@) == key,
{
    let other = key_of(key@);
    assert(other@ == key@);
    assert forall|i: int| 0 <= i < 32 implies other[i] == key[i] by {
        assert(other@[i] == key@[i]);
    }
    assert(other =~= key);
}

/// Whether two addresses are the same.
pub fn same_key(a: &Pubkey, b: &Pubkey) -> (r: bool)
    ensures
        r == (*a == *b),
{
    let mut i: usize = 0;
    while i < 32
        invariant
            i <= 32,
            forall|j: int| 0 <= j < i ==> a[j] == b[j],
        decreases 32 - i,
    {
        if a[i] != b[i] {
            return false;
        }
        i = i + 1;
    }
    assert(*a =~= *b);
    true
}

/// Whether `key` is the all-zero address.
pub fn is_default_key(key: &Pubkey) -> (r: bool)
    ensures
        r == (*key == DEFAULT_KEY),
{
    same_key(key, &DEFAULT_KEY)
}

/// What `Pubkey::try_find_program_address` of `solana_program` returns: the
/// first off-curve address, with its bump seed, that the search from bump 255
/// downwards meets; nothing where no bump gives one.
pub uninterp spec fn program_address(seeds: Seq<Seq<u8>>, program: Seq<u8>) -> Option<(Seq<u8>, u8)>;

/// The bytes of each seed.
pub open spec fn seed_bytes(seeds: Seq<&[u8]>) -> Seq<Seq<u8>> {
    seeds.map_values(|seed: &[u8]| seed@)
}

/// The program-derived address for `seeds` under `program`, with its bump.
pub open spec fn derived(seeds: Seq<Seq<u8>>, program: Pubkey) -> Option<(Pubkey, u8)> {
    match program_address(seeds, program@) {
        Some((key, bump)) => Some((key_of(key), bump)),
        None => None,
    }
}

/// Calls `Pubkey::try_find_program_address` of `solana_program`, the search
/// that `find_program_address` unwraps. Claimed: what it returns depends on the
/// seeds and the program alone, and nothing else is claimed of it.
#[verifier::external_body]
fn try_find_program_address(seeds: &[&[u8]], program: &Pubkey) -> (r: Option<(Pubkey, u8)>)
    ensures
        match r {
            Some((key, bump)) => program_address(seed_bytes(seeds@), program@) == Some((key@, bump)),
            None => program_address(seed_bytes(seeds@), program@) is None,
        },
{
    let program = solana_program::pubkey::Pubkey::new_from_array(*program);
    let found = solana_program::pubkey::Pubkey::try_find_program_address(seeds, &program);
    found.map(|(key, bump)| (key.to_bytes(), bump))
}

/// The program-derived address for `seeds` under `program`, with its bump seed.
pub fn find_program_address(seeds: &[&[u8]], program: &Pubkey) -> (r: Option<(Pubkey, u8)>)
    ensures
        r == derived(seed_bytes(seeds@), *program),
{
    broadcast use lemma_key_of_view;
    try_find_program_address(seeds, program)
}

/// The program-derived address for one seed.
pub fn find_with_one(seed: &[u8], program: &Pubkey) -> (r: Option<(Pubkey, u8)>)
    ensures
        r == derived(seq![seed@], *program),
{
    let seeds: [&[u8]; 1] = [seed];
    assert(seed_bytes(seeds@) =~= seq![seed@]);
    find_program_address(&seeds, program)
}

/// The program-derived address for two seeds.
pub fn find_with_two(first: &[u8], second: &[u8], program: &Pubkey) -> (r: Option<(Pubkey, u8)>)
    ensures
        r == derived(seq![first@, second@], *program),
{
    let seeds: [&[u8]; 2] = [first, second];
    assert(seed_bytes(seeds@) =~= seq![first@, second@]);
    find_program_address(&seeds, program)
}

/// The program-derived address for three seeds.
pub fn find_with_three(first: &[u8], second: &[u8], third: &[u8], program: &Pubkey) -> (r: Option<
    (Pubkey, u8),
>)
    ensures
        r == derived(seq![first@, second@, third@], *program),
{
    let seeds: [&[u8]; 3] = [first, second, third];
    assert(seed_bytes(seeds@) =~= seq![first@, second@, third@]);
    find_program_address(&seeds, program)
}

} // verus!
