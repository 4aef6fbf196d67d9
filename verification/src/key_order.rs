//! Lists of addresses in byte order, each address once.

use vstd::prelude::*;

use crate::pubkey::{same_key, Pubkey};

verus! {

/// The number that bytes write, most significant first. Addresses compare by it.
pub open spec fn rank(bytes: Seq<u8>) -> nat
    decreases bytes.len(),
{
    if bytes.len() == 0 {
        0
    } else {
        rank(bytes.drop_last()) * 256 + bytes.last() as nat
    }
}

/// Whether the addresses stand in strictly increasing order, so that none occurs twice.
pub open spec fn strictly_sorted(keys: Seq<Pubkey>) -> bool {
    forall|i: int, j: int|
        0 <= i < j < keys.len() ==> rank(#[trigger] keys[i]@) < rank(#[trigger] keys[j]@)
}

/// Bytes of the same length with the same rank are the same.
pub proof fn lemma_rank_injective(a: Seq<u8>, b: Seq<u8>)
    requires
        a.len() == b.len(),
        rank(a) == rank(b),
    ensures
        a == b,
    decreases a.len(),
{
    if a.len() > 0 {
        lemma_rank_injective(a.drop_last(), b.drop_last());
        assert(a.drop_last().push(a.last()) =~= a);
        assert(b.drop_last().push(b.last()) =~= b);
    }
    assert(a =~= b);
}

/// The first byte in which two addresses differ decides their order.
proof fn lemma_first_difference(a: Seq<u8>, b: Seq<u8>, i: int)
    requires
        a.len() == b.len(),
        0 <= i < a.len(),
        a.take(i) == b.take(i),
        a[i] < b[i],
    ensures
        rank(a) < rank(b),
    decreases a.len(),
{
    if i == a.len() - 1 {
        assert(a.drop_last() =~= a.take(i));
        assert(b.drop_last() =~= b.take(i));
    } else {
        assert(a.drop_last().take(i) =~= a.take(i));
        assert(b.drop_last().take(i) =~= b.take(i));
        lemma_first_difference(a.drop_last(), b.drop_last(), i);
    }
}

/// Whether `a` stands before `b`.
pub fn key_less(a: &Pubkey, b: &Pubkey) -> (r: bool)
    ensures
        r == (rank(a@) < rank(b@)),
{
    let mut i: usize = 0;
    while i < 32
        invariant
            i <= 32,
            a@.take(i as int) == b@.take(i as int),
        decreases 32 - i,
    {
        if a[i] < b[i] {
            proof {
                lemma_first_difference(a@, b@, i as int);
            }
            return true;
        }
        if b[i] < a[i] {
            proof {
                lemma_first_difference(b@, a@, i as int);
            }
            return false;
        }
        assert(a@.take(i + 1) =~= a@.take(i as int).push(a@[i as int]));
        assert(b@.take(i + 1) =~= b@.take(i as int).push(b@[i as int]));
        i = i + 1;
    }
    assert(a@.take(32) =~= a@);
    assert(b@.take(32) =~= b@);
    false
}

/// Adds `key` at its place, unless the list holds it.
pub fn insert_key(keys: &mut Vec<Pubkey>, key: Pubkey)
    requires
        strictly_sorted(old(keys)@),
    ensures
        strictly_sorted(final(keys)@),
        forall|k: Pubkey|
            #[trigger] final(keys)@.contains(k) <==> old(keys)@.contains(k) || k == key,
{
    let mut at: usize = 0;
    while at < keys.len() && key_less(&keys[at], &key)
        invariant
            at <= keys@.len(),
            keys@ == old(keys)@,
            forall|j: int| 0 <= j < at ==> rank(#[trigger] keys@[j]@) < rank(key@),
        decreases keys@.len() - at,
    {
        at = at + 1;
    }
    let ghost before = keys@;
    if at < keys.len() && same_key(&keys[at], &key) {
        assert(before[at as int] == key);
        return;
    }
    if at < keys.len() {
        proof {
            if rank(key@) == rank(keys@[at as int]@) {
                lemma_rank_injective(key@, keys@[at as int]@);
                crate::pubkey::lemma_key_of_view(key);
                crate::pubkey::lemma_key_of_view(keys@[at as int]);
            }
        }
        assert(rank(key@) < rank(keys@[at as int]@));
    }
    keys.insert(at, key);
    assert(keys@ =~= before.insert(at as int, key));
    assert forall|k: Pubkey| #[trigger]
        keys@.contains(k) <==> before.contains(k) || k == key by {
        if before.contains(k) {
            let j = choose|j: int| 0 <= j < before.len() && before[j] == k;
            if j < at {
                assert(keys@[j] == k);
            } else {
                assert(keys@[j + 1] == k);
            }
        }
        if k == key {
            assert(keys@[at as int] == k);
        }
        if keys@.contains(k) {
            let j = choose|j: int| 0 <= j < keys@.len() && keys@[j] == k;
            if j < at {
                assert(before[j] == k);
            } else if j > at {
                assert(before[j - 1] == k);
            }
        }
    }
}

/// Puts the addresses in byte order and drops repetitions.
pub fn dedupe_sorted(keys: &mut Vec<Pubkey>)
    ensures
        strictly_sorted(final(keys)@),
        forall|k: Pubkey| #[trigger] final(keys)@.contains(k) <==> old(keys)@.contains(k),
{
    let mut sorted: Vec<Pubkey> = Vec::new();
    let mut i: usize = 0;
    while i < keys.len()
        invariant
            i <= keys@.len(),
            keys@ == old(keys)@,
            strictly_sorted(sorted@),
            forall|k: Pubkey|
                #[trigger] sorted@.contains(k) <==> keys@.take(i as int).contains(k),
        decreases keys@.len() - i,
    {
        let ghost before = sorted@;
        insert_key(&mut sorted, keys[i]);
        assert forall|k: Pubkey| #[trigger]
            sorted@.contains(k) <==> keys@.take(i + 1).contains(k) by {
            let next = keys@.take(i + 1);
            let seen = keys@.take(i as int);
            assert(sorted@.contains(k) <==> before.contains(k) || k == keys@[i as int]);
            assert(before.contains(k) <==> seen.contains(k));
            if seen.contains(k) {
                let j = choose|j: int| 0 <= j < seen.len() && seen[j] == k;
                assert(next[j] == k);
            }
            if k == keys@[i as int] {
                assert(next[i as int] == k);
            }
            if next.contains(k) {
                let j = choose|j: int| 0 <= j < next.len() && next[j] == k;
                if j < i {
                    assert(seen[j] == k);
                }
            }
        }
        i = i + 1;
    }
    assert(keys@.take(i as int) =~= keys@);
    *keys = sorted;
}

/// What a list in strict order holds before its last address, another list with the
/// same last address holds before it too.
proof fn lemma_shorter_list(a: Seq<Pubkey>, b: Seq<Pubkey>, k: Pubkey)
    requires
        strictly_sorted(a),
        a.len() > 0,
        b.len() > 0,
        a.last() == b.last(),
        forall|k: Pubkey| #[trigger] a.contains(k) <==> b.contains(k),
        a.drop_last().contains(k),
    ensures
        b.drop_last().contains(k),
{
    let x = a.drop_last();
    let p = choose|p: int| 0 <= p < x.len() && x[p] == k;
    assert(a[p] == k);
    assert(rank(a[p]@) < rank(a[a.len() - 1]@));
    assert(a.contains(k));
    assert(b.contains(k));
    let q = choose|q: int| 0 <= q < b.len() && b[q] == k;
    assert(q != b.len() - 1);
    assert(b.drop_last()[q] == k);
}

/// Two lists in strict order that hold the same addresses are the same list.
pub proof fn law_sorted_list_is_determined(a: Seq<Pubkey>, b: Seq<Pubkey>)
    requires
        strictly_sorted(a),
        strictly_sorted(b),
        forall|k: Pubkey| #[trigger] a.contains(k) <==> b.contains(k),
    ensures
        a == b,
    decreases a.len(),
{
    if a.len() == 0 {
        if b.len() > 0 {
            assert(b.contains(b[0]));
            assert(a.contains(b[0]));
        }
        assert(a =~= b);
    } else {
        assert(a.contains(a.last()));
        assert(b.contains(a.last()));
        assert(b.contains(b.last()));
        assert(a.contains(b.last()));
        let i = choose|i: int| 0 <= i < a.len() && a[i] == b.last();
        let j = choose|j: int| 0 <= j < b.len() && b[j] == a.last();
        assert(i == a.len() - 1) by {
            if i < a.len() - 1 {
                assert(rank(a[i]@) < rank(a[a.len() - 1]@));
                if j < b.len() - 1 {
                    assert(rank(b[j]@) < rank(b[b.len() - 1]@));
                }
            }
        }
        let x = a.drop_last();
        let y = b.drop_last();
        assert(a.last() == b.last());
        assert forall|k: Pubkey| #[trigger] x.contains(k) <==> y.contains(k) by {
            if x.contains(k) {
                lemma_shorter_list(a, b, k);
            }
            if y.contains(k) {
                lemma_shorter_list(b, a, k);
            }
        }
        assert forall|p: int, q: int| 0 <= p < q < x.len() implies rank(#[trigger] x[p]@) < rank(
            #[trigger] x[q]@,
        ) by {
            assert(x[p] == a[p] && x[q] == a[q]);
        }
        assert forall|p: int, q: int| 0 <= p < q < y.len() implies rank(#[trigger] y[p]@) < rank(
            #[trigger] y[q]@,
        ) by {
            assert(y[p] == b[p] && y[q] == b[q]);
        }
        law_sorted_list_is_determined(x, y);
        assert(a =~= x.push(a.last()));
        assert(b =~= y.push(b.last()));
    }
}

/// Addresses are ordered by the first byte in which they differ.
pub proof fn law_first_difference_orders(a: Pubkey, b: Pubkey, i: int)
    requires
        0 <= i < 32,
        forall|j: int| 0 <= j < i ==> a@[j] == b@[j],
        a@[i] < b@[i],
    ensures
        rank(a@) < rank(b@),
        strictly_sorted(seq![a, b]),
        !strictly_sorted(seq![b, a]),
{
    assert(a@.take(i) =~= b@.take(i));
    lemma_first_difference(a@, b@, i);
    let wrong = seq![b, a];
    assert(rank(wrong[0]@) > rank(wrong[1]@));
}

} // verus!
