//! Byte layouts of bonding-curve and pool accounts.

use vstd::prelude::*;

use crate::account_wrapper::{holds_account, zero_padded, AccountState};
use crate::bytes::{
    le_bytes, le_value, lemma_byte_ranges, lemma_le_bytes_len, lemma_le_rewrite,
    lemma_le_round_trip, push_bytes, push_le, read_le,
};
use crate::pubkey::{lemma_key_of_view, Pubkey, DEFAULT_KEY};
use crate::sdk::encoding::flag_byte;
use crate::state::pump_amm::Pool;
use crate::state::BondingCurve;

verus! {

/// The first eight bytes of the SHA-256 of `"account:BondingCurve"`.
pub const BONDING_CURVE_TAG: [u8; 8] = [23, 183, 248, 55, 96, 216, 172, 96];

/// The first eight bytes of the SHA-256 of `"account:Pool"`.
pub const POOL_TAG: [u8; 8] = [241, 154, 109, 4, 17, 177, 109, 188];

/// Reads the address at `at`.
fn read_key(data: &[u8], at: usize) -> (r: Pubkey)
    requires
        at + 32 <= data@.len(),
    ensures
        r@ == data@.subrange(at as int, at + 32),
{
    let mut key: Pubkey = DEFAULT_KEY;
    let len: usize = data.len();
    let mut i: usize = 0;
    while i < 32
        invariant
            i <= 32,
            len == data@.len(),
            at + 32 <= len,
            forall|j: int| 0 <= j < i ==> key[j] == data@[at + j],
        decreases 32 - i,
    {
        key[i] = data[at + i];
        i = i + 1;
    }
    assert(key@ =~= data@.subrange(at as int, at + 32));
    key
}

/// Reads the flag at `at`; only 0 and 1 are flags.
fn read_flag(data: &[u8], at: usize) -> (r: Option<bool>)
    requires
        at < data@.len(),
    ensures
        match r {
            Some(flag) => data@[at as int] == flag_byte(flag),
            None => data@[at as int] > 1,
        },
{
    let byte: u8 = data[at];
    if byte == 0 {
        Some(false)
    } else if byte == 1 {
        Some(true)
    } else {
        None
    }
}

/// Reads the `u64` at `at`.
fn read_u64(data: &[u8], at: usize) -> (r: u64)
    requires
        at + 8 <= data@.len(),
    ensures
        le_bytes(r as nat, 8) == data@.subrange(at as int, at + 8),
{
    let value: u128 = read_le(data, at, 8);
    proof {
        lemma_byte_ranges();
        lemma_le_rewrite(data@.subrange(at as int, at + 8));
    }
    value as u64
}

fn push_flag(out: &mut Vec<u8>, flag: bool)
    ensures
        final(out)@ == old(out)@ + seq![flag_byte(flag)],
{
    out.push(
        if flag {
            1
        } else {
            0
        },
    );
    assert(out@ =~= old(out)@ + seq![flag_byte(flag)]);
}

/// Two amounts with the same bytes are the same.
proof fn lemma_u64_bytes(a: u64, b: u64)
    requires
        le_bytes(a as nat, 8) == le_bytes(b as nat, 8),
    ensures
        a == b,
{
    lemma_byte_ranges();
    lemma_le_round_trip(a as nat, 8);
    lemma_le_round_trip(b as nat, 8);
}

proof fn lemma_same_key_bytes(a: Pubkey, b: Pubkey)
    requires
        a@ == b@,
    ensures
        a == b,
{
    lemma_key_of_view(a);
    lemma_key_of_view(b);
}

/// Where each field of a curve stands in its account.
proof fn lemma_curve_fields(curve: &BondingCurve)
    ensures
        ({
            let e = curve.encoded();
            &&& e.len() == 115
            &&& e.subrange(8, 16) == le_bytes(curve.virtual_token_reserves as nat, 8)
            &&& e.subrange(16, 24) == le_bytes(curve.virtual_quote_reserves as nat, 8)
            &&& e.subrange(24, 32) == le_bytes(curve.real_token_reserves as nat, 8)
            &&& e.subrange(32, 40) == le_bytes(curve.real_quote_reserves as nat, 8)
            &&& e.subrange(40, 48) == le_bytes(curve.token_total_supply as nat, 8)
            &&& e[48] == flag_byte(curve.complete)
            &&& e.subrange(49, 81) == curve.creator@
            &&& e[81] == flag_byte(curve.is_mayhem_mode)
            &&& e[82] == flag_byte(curve.is_cashback_coin)
            &&& e.subrange(83, 115) == curve.quote_mint@
        }),
{
    broadcast use lemma_le_bytes_len;

    let e = curve.encoded();
    assert(e.subrange(8, 16) =~= le_bytes(curve.virtual_token_reserves as nat, 8));
    assert(e.subrange(16, 24) =~= le_bytes(curve.virtual_quote_reserves as nat, 8));
    assert(e.subrange(24, 32) =~= le_bytes(curve.real_token_reserves as nat, 8));
    assert(e.subrange(32, 40) =~= le_bytes(curve.real_quote_reserves as nat, 8));
    assert(e.subrange(40, 48) =~= le_bytes(curve.token_total_supply as nat, 8));
    assert(e.subrange(49, 81) =~= curve.creator@);
    assert(e.subrange(83, 115) =~= curve.quote_mint@);
}

impl AccountState for BondingCurve {
    open spec fn encoded(&self) -> Seq<u8> {
        BONDING_CURVE_TAG@ + le_bytes(self.virtual_token_reserves as nat, 8) + le_bytes(
            self.virtual_quote_reserves as nat,
            8,
        ) + le_bytes(self.real_token_reserves as nat, 8) + le_bytes(
            self.real_quote_reserves as nat,
            8,
        ) + le_bytes(self.token_total_supply as nat, 8) + seq![flag_byte(self.complete)]
            + self.creator@ + seq![flag_byte(self.is_mayhem_mode)] + seq![
            flag_byte(self.is_cashback_coin),
        ] + self.quote_mint@
    }

    open spec fn tag() -> Seq<u8> {
        BONDING_CURVE_TAG@
    }

    open spec fn size() -> nat {
        115
    }

    proof fn lemma_layout(&self) {
        broadcast use lemma_le_bytes_len;

        assert(self.encoded().take(8) =~= BONDING_CURVE_TAG@);
    }

    proof fn lemma_injective(&self, other: &Self) {
        lemma_curve_fields(self);
        lemma_curve_fields(other);
        lemma_u64_bytes(self.virtual_token_reserves, other.virtual_token_reserves);
        lemma_u64_bytes(self.virtual_quote_reserves, other.virtual_quote_reserves);
        lemma_u64_bytes(self.real_token_reserves, other.real_token_reserves);
        lemma_u64_bytes(self.real_quote_reserves, other.real_quote_reserves);
        lemma_u64_bytes(self.token_total_supply, other.token_total_supply);
        lemma_same_key_bytes(self.creator, other.creator);
        lemma_same_key_bytes(self.quote_mint, other.quote_mint);
    }

    fn discriminator() -> (r: [u8; 8]) {
        BONDING_CURVE_TAG
    }

    fn canonical_len() -> (r: usize) {
        115
    }

    fn read_fields(data: &[u8]) -> (r: Option<Self>) {
        broadcast use lemma_le_bytes_len;

        let ghost d = data@;
        let ghost fields = d.subrange(8, 115);
        let complete = read_flag(data, 48);
        let mayhem = read_flag(data, 81);
        let cashback = read_flag(data, 82);
        if complete.is_none() || mayhem.is_none() || cashback.is_none() {
            assert forall|state: Self| (#[trigger] state.encoded()).skip(8) != fields by {
                lemma_curve_fields(&state);
                let e = state.encoded();
                assert(e.skip(8)[40] == e[48] && e.skip(8)[73] == e[81] && e.skip(8)[74] == e[82]);
                assert(fields[40] == d[48] && fields[73] == d[81] && fields[74] == d[82]);
            }
            return None;
        }
        let state = BondingCurve {
            virtual_token_reserves: read_u64(data, 8),
            virtual_quote_reserves: read_u64(data, 16),
            real_token_reserves: read_u64(data, 24),
            real_quote_reserves: read_u64(data, 32),
            token_total_supply: read_u64(data, 40),
            complete: complete?,
            creator: read_key(data, 49),
            is_mayhem_mode: mayhem?,
            is_cashback_coin: cashback?,
            quote_mint: read_key(data, 83),
        };
        assert(fields =~= d.subrange(8, 16) + d.subrange(16, 24) + d.subrange(24, 32) + d.subrange(
            32,
            40,
        ) + d.subrange(40, 48) + seq![d[48]] + d.subrange(49, 81) + seq![d[81]] + seq![d[82]]
            + d.subrange(83, 115));
        assert(state.encoded().skip(8) =~= fields);
        Some(state)
    }

    fn to_account_bytes(&self) -> (r: Vec<u8>) {
        let mut out: Vec<u8> = Vec::new();
        push_bytes(&mut out, &BONDING_CURVE_TAG);
        assert(out@ =~= BONDING_CURVE_TAG@);
        push_le(&mut out, self.virtual_token_reserves as u128, 8);
        push_le(&mut out, self.virtual_quote_reserves as u128, 8);
        push_le(&mut out, self.real_token_reserves as u128, 8);
        push_le(&mut out, self.real_quote_reserves as u128, 8);
        push_le(&mut out, self.token_total_supply as u128, 8);
        push_flag(&mut out, self.complete);
        push_bytes(&mut out, &self.creator);
        push_flag(&mut out, self.is_mayhem_mode);
        push_flag(&mut out, self.is_cashback_coin);
        push_bytes(&mut out, &self.quote_mint);
        out
    }
}

/// The unsigned 128-bit number with the same bits as `x`.
pub open spec fn twos_complement(x: i128) -> nat {
    if x >= 0 {
        x as nat
    } else {
        (x + 0x1_0000_0000_0000_0000_0000_0000_0000_0000) as nat
    }
}

fn to_unsigned(x: i128) -> (r: u128)
    ensures
        r == twos_complement(x),
{
    if x >= 0 {
        x as u128
    } else {
        let below: i128 = -(x + 1);
        u128::MAX - below as u128
    }
}

fn to_signed(x: u128) -> (r: i128)
    ensures
        twos_complement(r) == x,
{
    if x <= i128::MAX as u128 {
        x as i128
    } else {
        let below: u128 = u128::MAX - x;
        -1 - below as i128
    }
}

/// Where each field of a pool stands in its account.
proof fn lemma_pool_fields(pool: &Pool)
    ensures
        ({
            let e = pool.encoded();
            &&& e.len() == 261
            &&& e[8] == pool.pool_bump
            &&& e.subrange(9, 11) == le_bytes(pool.index as nat, 2)
            &&& e.subrange(11, 43) == pool.creator@
            &&& e.subrange(43, 75) == pool.base_mint@
            &&& e.subrange(75, 107) == pool.quote_mint@
            &&& e.subrange(107, 139) == pool.lp_mint@
            &&& e.subrange(139, 171) == pool.pool_base_token_account@
            &&& e.subrange(171, 203) == pool.pool_quote_token_account@
            &&& e.subrange(203, 211) == le_bytes(pool.lp_supply as nat, 8)
            &&& e.subrange(211, 243) == pool.coin_creator@
            &&& e[243] == flag_byte(pool.is_mayhem_mode)
            &&& e[244] == flag_byte(pool.is_cashback_coin)
            &&& e.subrange(245, 261) == le_bytes(twos_complement(pool.virtual_quote_reserves), 16)
        }),
{
    broadcast use lemma_le_bytes_len;

    let e = pool.encoded();
    assert(e.subrange(9, 11) =~= le_bytes(pool.index as nat, 2));
    assert(e.subrange(11, 43) =~= pool.creator@);
    assert(e.subrange(43, 75) =~= pool.base_mint@);
    assert(e.subrange(75, 107) =~= pool.quote_mint@);
    assert(e.subrange(107, 139) =~= pool.lp_mint@);
    assert(e.subrange(139, 171) =~= pool.pool_base_token_account@);
    assert(e.subrange(171, 203) =~= pool.pool_quote_token_account@);
    assert(e.subrange(203, 211) =~= le_bytes(pool.lp_supply as nat, 8));
    assert(e.subrange(211, 243) =~= pool.coin_creator@);
    assert(e.subrange(245, 261) =~= le_bytes(twos_complement(pool.virtual_quote_reserves), 16));
}

impl AccountState for Pool {
    open spec fn encoded(&self) -> Seq<u8> {
        POOL_TAG@ + seq![self.pool_bump] + le_bytes(self.index as nat, 2) + self.creator@
            + self.base_mint@ + self.quote_mint@ + self.lp_mint@ + self.pool_base_token_account@
            + self.pool_quote_token_account@ + le_bytes(self.lp_supply as nat, 8)
            + self.coin_creator@ + seq![flag_byte(self.is_mayhem_mode)] + seq![
            flag_byte(self.is_cashback_coin),
        ] + le_bytes(twos_complement(self.virtual_quote_reserves), 16)
    }

    open spec fn tag() -> Seq<u8> {
        POOL_TAG@
    }

    open spec fn size() -> nat {
        261
    }

    proof fn lemma_layout(&self) {
        broadcast use lemma_le_bytes_len;

        assert(self.encoded().take(8) =~= POOL_TAG@);
    }

    proof fn lemma_injective(&self, other: &Self) {
        lemma_pool_fields(self);
        lemma_pool_fields(other);
        lemma_byte_ranges();
        lemma_le_round_trip(self.index as nat, 2);
        lemma_le_round_trip(other.index as nat, 2);
        lemma_same_key_bytes(self.creator, other.creator);
        lemma_same_key_bytes(self.base_mint, other.base_mint);
        lemma_same_key_bytes(self.quote_mint, other.quote_mint);
        lemma_same_key_bytes(self.lp_mint, other.lp_mint);
        lemma_same_key_bytes(self.pool_base_token_account, other.pool_base_token_account);
        lemma_same_key_bytes(self.pool_quote_token_account, other.pool_quote_token_account);
        lemma_u64_bytes(self.lp_supply, other.lp_supply);
        lemma_same_key_bytes(self.coin_creator, other.coin_creator);
        lemma_le_round_trip(twos_complement(self.virtual_quote_reserves), 16);
        lemma_le_round_trip(twos_complement(other.virtual_quote_reserves), 16);
    }

    fn discriminator() -> (r: [u8; 8]) {
        POOL_TAG
    }

    fn canonical_len() -> (r: usize) {
        261
    }

    fn read_fields(data: &[u8]) -> (r: Option<Self>) {
        broadcast use lemma_le_bytes_len;

        let ghost d = data@;
        let ghost fields = d.subrange(8, 261);
        let mayhem = read_flag(data, 243);
        let cashback = read_flag(data, 244);
        if mayhem.is_none() || cashback.is_none() {
            assert forall|state: Self| (#[trigger] state.encoded()).skip(8) != fields by {
                lemma_pool_fields(&state);
                let e = state.encoded();
                assert(e.skip(8)[235] == e[243] && e.skip(8)[236] == e[244]);
                assert(fields[235] == d[243] && fields[236] == d[244]);
            }
            return None;
        }
        proof {
            lemma_byte_ranges();
            lemma_le_rewrite(d.subrange(9, 11));
            lemma_le_rewrite(d.subrange(245, 261));
        }
        let index: u128 = read_le(data, 9, 2);
        let virtual_quote: u128 = read_le(data, 245, 16);
        let state = Pool {
            pool_bump: data[8],
            index: index as u16,
            creator: read_key(data, 11),
            base_mint: read_key(data, 43),
            quote_mint: read_key(data, 75),
            lp_mint: read_key(data, 107),
            pool_base_token_account: read_key(data, 139),
            pool_quote_token_account: read_key(data, 171),
            lp_supply: read_u64(data, 203),
            coin_creator: read_key(data, 211),
            is_mayhem_mode: mayhem?,
            is_cashback_coin: cashback?,
            virtual_quote_reserves: to_signed(virtual_quote),
        };
        assert(fields =~= seq![d[8]] + d.subrange(9, 11) + d.subrange(11, 43) + d.subrange(43, 75)
            + d.subrange(75, 107) + d.subrange(107, 139) + d.subrange(139, 171) + d.subrange(
            171,
            203,
        ) + d.subrange(203, 211) + d.subrange(211, 243) + seq![d[243]] + seq![d[244]] + d.subrange(
            245,
            261,
        ));
        assert(state.encoded().skip(8) =~= fields);
        Some(state)
    }

    fn to_account_bytes(&self) -> (r: Vec<u8>) {
        let mut out: Vec<u8> = Vec::new();
        push_bytes(&mut out, &POOL_TAG);
        assert(out@ =~= POOL_TAG@);
        out.push(self.pool_bump);
        assert(out@ =~= POOL_TAG@ + seq![self.pool_bump]);
        push_le(&mut out, self.index as u128, 2);
        push_bytes(&mut out, &self.creator);
        push_bytes(&mut out, &self.base_mint);
        push_bytes(&mut out, &self.quote_mint);
        push_bytes(&mut out, &self.lp_mint);
        push_bytes(&mut out, &self.pool_base_token_account);
        push_bytes(&mut out, &self.pool_quote_token_account);
        push_le(&mut out, self.lp_supply as u128, 8);
        push_bytes(&mut out, &self.coin_creator);
        push_flag(&mut out, self.is_mayhem_mode);
        push_flag(&mut out, self.is_cashback_coin);
        push_le(&mut out, to_unsigned(self.virtual_quote_reserves), 16);
        out
    }
}

/// A curve account written before the cashback flag and the quote mint were added
/// reads as a curve without cashback that is quoted in SOL.
pub proof fn law_short_curve_account(curve: BondingCurve)
    ensures
        holds_account(
            curve.encoded().take(82),
            BondingCurve { is_cashback_coin: false, quote_mint: DEFAULT_KEY, ..curve },
        ),
{
    broadcast use lemma_le_bytes_len;

    let old = BondingCurve { is_cashback_coin: false, quote_mint: DEFAULT_KEY, ..curve };
    assert(zero_padded(curve.encoded().take(82), 115).take(115) =~= old.encoded());
}

/// A pool account written before the virtual figure was added reads as a pool whose
/// virtual figure is zero.
pub proof fn law_short_pool_account(pool: Pool)
    ensures
        holds_account(pool.encoded().take(245), Pool { virtual_quote_reserves: 0, ..pool }),
{
    broadcast use lemma_le_bytes_len;

    let old = Pool { virtual_quote_reserves: 0, ..pool };
    lemma_zero_bytes(16);
    assert(zero_padded(pool.encoded().take(245), 261).take(261) =~= old.encoded());
}

proof fn lemma_zero_bytes(n: nat)
    ensures
        le_bytes(0, n) == Seq::new(n, |i: int| 0u8),
    decreases n,
{
    if n > 0 {
        lemma_zero_bytes((n - 1) as nat);
    }
    assert(le_bytes(0, n) =~= Seq::new(n, |i: int| 0u8));
}

/// Where a curve's fields stand in its account: after the tag five amounts of eight
/// bytes, little-endian, then the completion flag, the creator, the mayhem and the
/// cashback flag, and the quote mint. A flag is 1 where it is set and 0 elsewhere.
pub proof fn law_curve_layout(data: Seq<u8>, curve: BondingCurve)
    requires
        data.len() >= 115,
        holds_account(data, curve),
    ensures
        data.take(8) == BONDING_CURVE_TAG@,
        le_value(data.subrange(8, 16)) == curve.virtual_token_reserves,
        le_value(data.subrange(16, 24)) == curve.virtual_quote_reserves,
        le_value(data.subrange(24, 32)) == curve.real_token_reserves,
        le_value(data.subrange(32, 40)) == curve.real_quote_reserves,
        le_value(data.subrange(40, 48)) == curve.token_total_supply,
        data[48] <= 1 && (data[48] == 1 <==> curve.complete),
        data.subrange(49, 81) == curve.creator@,
        data[81] <= 1 && (data[81] == 1 <==> curve.is_mayhem_mode),
        data[82] <= 1 && (data[82] == 1 <==> curve.is_cashback_coin),
        data.subrange(83, 115) == curve.quote_mint@,
{
    lemma_curve_fields(&curve);
    curve.lemma_layout();
    lemma_byte_ranges();
    let e = data.take(115);
    assert(e == curve.encoded());
    assert(data.take(8) =~= e.take(8));
    assert(data.subrange(8, 16) =~= e.subrange(8, 16));
    assert(data.subrange(16, 24) =~= e.subrange(16, 24));
    assert(data.subrange(24, 32) =~= e.subrange(24, 32));
    assert(data.subrange(32, 40) =~= e.subrange(32, 40));
    assert(data.subrange(40, 48) =~= e.subrange(40, 48));
    assert(data[48] == e[48] && data[81] == e[81] && data[82] == e[82]);
    assert(data.subrange(49, 81) =~= e.subrange(49, 81));
    assert(data.subrange(83, 115) =~= e.subrange(83, 115));
    lemma_le_round_trip(curve.virtual_token_reserves as nat, 8);
    lemma_le_round_trip(curve.virtual_quote_reserves as nat, 8);
    lemma_le_round_trip(curve.real_token_reserves as nat, 8);
    lemma_le_round_trip(curve.real_quote_reserves as nat, 8);
    lemma_le_round_trip(curve.token_total_supply as nat, 8);
}

/// Where a pool's fields stand in its account: after the tag the bump, the index in two
/// bytes, the creator, the base, quote and liquidity mint, the two vaults, the liquidity
/// supply in eight bytes, the coin's creator, the mayhem and the cashback flag, and the
/// virtual figure in sixteen bytes, a negative one short of their range by its size.
/// Numbers are little-endian; a flag is 1 where it is set and 0 elsewhere.
pub proof fn law_pool_layout(data: Seq<u8>, pool: Pool)
    requires
        data.len() >= 261,
        holds_account(data, pool),
    ensures
        data.take(8) == POOL_TAG@,
        data[8] == pool.pool_bump,
        le_value(data.subrange(9, 11)) == pool.index,
        data.subrange(11, 43) == pool.creator@,
        data.subrange(43, 75) == pool.base_mint@,
        data.subrange(75, 107) == pool.quote_mint@,
        data.subrange(107, 139) == pool.lp_mint@,
        data.subrange(139, 171) == pool.pool_base_token_account@,
        data.subrange(171, 203) == pool.pool_quote_token_account@,
        le_value(data.subrange(203, 211)) == pool.lp_supply,
        data.subrange(211, 243) == pool.coin_creator@,
        data[243] <= 1 && (data[243] == 1 <==> pool.is_mayhem_mode),
        data[244] <= 1 && (data[244] == 1 <==> pool.is_cashback_coin),
        pool.virtual_quote_reserves >= 0 ==> le_value(data.subrange(245, 261))
            == pool.virtual_quote_reserves,
        pool.virtual_quote_reserves < 0 ==> le_value(data.subrange(245, 261)) == u128::MAX + 1
            + pool.virtual_quote_reserves,
{
    lemma_pool_fields(&pool);
    pool.lemma_layout();
    lemma_byte_ranges();
    let e = data.take(261);
    assert(e == pool.encoded());
    assert(data.take(8) =~= e.take(8));
    assert(data[8] == e[8] && data[243] == e[243] && data[244] == e[244]);
    assert(data.subrange(9, 11) =~= e.subrange(9, 11));
    assert(data.subrange(11, 43) =~= e.subrange(11, 43));
    assert(data.subrange(43, 75) =~= e.subrange(43, 75));
    assert(data.subrange(75, 107) =~= e.subrange(75, 107));
    assert(data.subrange(107, 139) =~= e.subrange(107, 139));
    assert(data.subrange(139, 171) =~= e.subrange(139, 171));
    assert(data.subrange(171, 203) =~= e.subrange(171, 203));
    assert(data.subrange(203, 211) =~= e.subrange(203, 211));
    assert(data.subrange(211, 243) =~= e.subrange(211, 243));
    assert(data.subrange(245, 261) =~= e.subrange(245, 261));
    lemma_le_round_trip(pool.index as nat, 2);
    lemma_le_round_trip(pool.lp_supply as nat, 8);
    lemma_le_round_trip(twos_complement(pool.virtual_quote_reserves), 16);
}

} // verus!
