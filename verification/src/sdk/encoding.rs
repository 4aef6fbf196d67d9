//! Instruction data: an eight-byte discriminator, then the arguments.

use vstd::prelude::*;

use crate::bytes::{le_bytes, push_bytes, push_le, push_string, string_bytes, string_fits};
use crate::pubkey::Pubkey;

verus! {

/// Eight bytes that tell a program which instruction it is given: the first of the
/// SHA-256 of `"global:"` and the instruction's name.
pub type InstructionTag = [u8; 8];

pub const CREATE: InstructionTag = [24, 30, 200, 40, 5, 28, 7, 119];

pub const CREATE_V2: InstructionTag = [214, 144, 76, 236, 95, 139, 49, 180];

pub const BUY: InstructionTag = [102, 6, 61, 18, 1, 218, 235, 234];

pub const SELL: InstructionTag = [51, 230, 133, 164, 1, 127, 131, 173];

pub const BUY_V2: InstructionTag = [184, 23, 238, 97, 103, 197, 211, 61];

pub const SELL_V2: InstructionTag = [93, 246, 130, 60, 231, 233, 64, 178];

pub const BUY_EXACT_QUOTE_IN_V2: InstructionTag = [194, 171, 28, 70, 104, 77, 91, 47];

pub const EXTEND_ACCOUNT: InstructionTag = [234, 102, 194, 203, 150, 72, 62, 229];

pub const CLAIM_CASHBACK_V2: InstructionTag = [122, 243, 204, 65, 94, 116, 29, 55];

pub const AGENT_INITIALIZE: InstructionTag = [180, 248, 163, 8, 49, 94, 126, 96];

/// The byte of a flag.
pub open spec fn flag_byte(flag: bool) -> u8 {
    if flag {
        1
    } else {
        0
    }
}

/// Data without arguments.
pub fn tag_data(tag: &InstructionTag) -> (r: Vec<u8>)
    ensures
        r@ == tag@,
{
    let mut data: Vec<u8> = Vec::new();
    push_bytes(&mut data, tag);
    assert(data@ =~= tag@);
    data
}

/// Data with two amounts.
pub open spec fn amounts_bytes(tag: InstructionTag, first: u64, second: u64) -> Seq<u8> {
    tag@ + le_bytes(first as nat, 8) + le_bytes(second as nat, 8)
}

/// Data with two amounts.
pub fn amounts_data(tag: &InstructionTag, first: u64, second: u64) -> (r: Vec<u8>)
    ensures
        r@ == amounts_bytes(*tag, first, second),
{
    let mut data = tag_data(tag);
    push_le(&mut data, first as u128, 8);
    push_le(&mut data, second as u128, 8);
    data
}

/// Data with two amounts and a flag.
pub fn amounts_flag_data(tag: &InstructionTag, first: u64, second: u64, flag: bool) -> (r: Vec<u8>)
    ensures
        r@ == amounts_bytes(*tag, first, second).push(flag_byte(flag)),
{
    let mut data = amounts_data(tag, first, second);
    data.push(
        if flag {
            1
        } else {
            0
        },
    );
    data
}

/// Data with a coin's texts and its creator.
pub open spec fn coin_bytes(
    tag: InstructionTag,
    name: Seq<char>,
    symbol: Seq<char>,
    uri: Seq<char>,
    creator: Pubkey,
) -> Seq<u8> {
    tag@ + string_bytes(name) + string_bytes(symbol) + string_bytes(uri) + creator@
}

/// Data with a coin's texts and its creator.
pub fn coin_data(tag: &InstructionTag, name: &str, symbol: &str, uri: &str, creator: &Pubkey) -> (r:
    Vec<u8>)
    requires
        string_fits(name@),
        string_fits(symbol@),
        string_fits(uri@),
    ensures
        r@ == coin_bytes(*tag, name@, symbol@, uri@, *creator),
{
    let mut data = tag_data(tag);
    push_string(&mut data, name);
    push_string(&mut data, symbol);
    push_string(&mut data, uri);
    push_bytes(&mut data, creator);
    data
}

/// Data with an authority and a rate in basis points.
pub open spec fn authority_bytes(tag: InstructionTag, authority: Pubkey, bps: u16) -> Seq<u8> {
    tag@ + authority@ + le_bytes(bps as nat, 2)
}

/// Data with an authority and a rate in basis points.
pub fn authority_data(tag: &InstructionTag, authority: &Pubkey, bps: u16) -> (r: Vec<u8>)
    ensures
        r@ == authority_bytes(*tag, *authority, bps),
{
    let mut data = tag_data(tag);
    push_bytes(&mut data, authority);
    push_le(&mut data, bps as u128, 2);
    data
}

} // verus!
