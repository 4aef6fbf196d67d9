//! Laws of instruction data: what a program reads out of it.

use vstd::prelude::*;
use vstd::utf8::encode_utf8;

use crate::bytes::{
    le_bytes, le_value, lemma_byte_ranges, lemma_le_bytes_len, lemma_le_round_trip,
    string_bytes, string_fits,
};
use crate::constants::{pump, pump_amm};
use crate::pubkey::Pubkey;
use crate::sdk::create::{
    agent_initialize_view, claim_cashback_v2_view, create_v2_view, extend_account_view,
};
use crate::sdk::encoding::{
    amounts_bytes, authority_bytes, coin_bytes, InstructionTag, AGENT_INITIALIZE, BUY,
    BUY_EXACT_QUOTE_IN_V2, BUY_V2, CLAIM_CASHBACK_V2, CREATE, CREATE_V2, EXTEND_ACCOUNT, SELL,
    SELL_V2,
};
use crate::sdk::pump_amm_ix::{buy_amm_view, sell_amm_view, AmmTrade};
use crate::sdk::pump_legacy::{buy_view, create_view, sell_view};
use crate::sdk::pump_v2::{buy_exact_quote_in_v2_view, buy_v2_view, sell_v2_view, V2Trade};

verus! {

/// Whether a program reads `data` as the instruction `tag` with two amounts: the tag in
/// the first eight bytes, then the amounts, little-endian, from byte 8 and byte 16 on.
pub open spec fn reads_as_amounts(
    data: Seq<u8>,
    tag: InstructionTag,
    first: u64,
    second: u64,
) -> bool {
    &&& data.len() >= 24
    &&& data.take(8) == tag@
    &&& le_value(data.subrange(8, 16)) == first
    &&& le_value(data.subrange(16, 24)) == second
}

proof fn lemma_read_u64(x: u64)
    ensures
        le_value(le_bytes(x as nat, 8)) == x,
        le_bytes(x as nat, 8).len() == 8,
{
    lemma_byte_ranges();
    lemma_le_round_trip(x as nat, 8);
    lemma_le_bytes_len(x as nat, 8);
}

proof fn lemma_amounts(tag: InstructionTag, first: u64, second: u64, rest: Seq<u8>)
    ensures
        reads_as_amounts(amounts_bytes(tag, first, second) + rest, tag, first, second),
        amounts_bytes(tag, first, second).len() == 24,
{
    lemma_read_u64(first);
    lemma_read_u64(second);
    let data = amounts_bytes(tag, first, second) + rest;
    assert(data.take(8) =~= tag@);
    assert(data.subrange(8, 16) =~= le_bytes(first as nat, 8));
    assert(data.subrange(16, 24) =~= le_bytes(second as nat, 8));
}

proof fn lemma_plain_amounts(tag: InstructionTag, first: u64, second: u64)
    ensures
        reads_as_amounts(amounts_bytes(tag, first, second), tag, first, second),
        amounts_bytes(tag, first, second).len() == 24,
{
    lemma_amounts(tag, first, second, Seq::empty());
    assert(amounts_bytes(tag, first, second) + Seq::empty() =~= amounts_bytes(tag, first, second));
}

proof fn lemma_flagged_amounts(tag: InstructionTag, first: u64, second: u64, flag: u8)
    ensures
        reads_as_amounts(amounts_bytes(tag, first, second).push(flag), tag, first, second),
        amounts_bytes(tag, first, second).push(flag).len() == 25,
{
    lemma_amounts(tag, first, second, seq![flag]);
    assert(amounts_bytes(tag, first, second).push(flag) =~= amounts_bytes(tag, first, second)
        + seq![flag]);
}

/// A purchase on a curve carries the tokens to buy, then the most to pay.
pub proof fn law_buy_v2_data(trade: &V2Trade, amount: u64, max_sol_cost: u64)
    ensures
        buy_v2_view(trade, amount, max_sol_cost) matches Some(ix) ==> {
            &&& ix.program_id == pump::PROGRAM_ID
            &&& ix.data.len() == 24
            &&& reads_as_amounts(ix.data, BUY_V2, amount, max_sol_cost)
        },
{
    lemma_plain_amounts(BUY_V2, amount, max_sol_cost);
}

/// A purchase for an exact payment carries the payment, then the fewest tokens to accept.
pub proof fn law_buy_exact_quote_in_v2_data(trade: &V2Trade, spendable: u64, min_tokens_out: u64)
    ensures
        buy_exact_quote_in_v2_view(trade, spendable, min_tokens_out) matches Some(ix) ==> {
            &&& ix.program_id == pump::PROGRAM_ID
            &&& ix.data.len() == 24
            &&& reads_as_amounts(ix.data, BUY_EXACT_QUOTE_IN_V2, spendable, min_tokens_out)
        },
{
    lemma_plain_amounts(BUY_EXACT_QUOTE_IN_V2, spendable, min_tokens_out);
}

/// A sale on a curve carries the tokens to sell, then the least to accept.
pub proof fn law_sell_v2_data(trade: &V2Trade, amount: u64, min_sol_output: u64)
    ensures
        sell_v2_view(trade, amount, min_sol_output) matches Some(ix) ==> {
            &&& ix.program_id == pump::PROGRAM_ID
            &&& ix.data.len() == 24
            &&& reads_as_amounts(ix.data, SELL_V2, amount, min_sol_output)
        },
{
    lemma_plain_amounts(SELL_V2, amount, min_sol_output);
}

/// A purchase in a pool carries the tokens to buy, the most to pay, and a set flag that
/// asks for volume tracking.
pub proof fn law_buy_amm_data(trade: &AmmTrade, base_amount_out: u64, max_quote_amount_in: u64)
    ensures
        buy_amm_view(trade, base_amount_out, max_quote_amount_in) matches Some(ix) ==> {
            &&& ix.program_id == pump_amm::PROGRAM_ID
            &&& ix.data.len() == 25
            &&& reads_as_amounts(ix.data, BUY, base_amount_out, max_quote_amount_in)
            &&& ix.data[24] == 1
        },
{
    lemma_flagged_amounts(BUY, base_amount_out, max_quote_amount_in, 1);
}

/// A sale to a pool carries the tokens to sell, then the least to accept.
pub proof fn law_sell_amm_data(trade: &AmmTrade, base_amount_in: u64, min_quote_amount_out: u64)
    ensures
        sell_amm_view(trade, base_amount_in, min_quote_amount_out) matches Some(ix) ==> {
            &&& ix.program_id == pump_amm::PROGRAM_ID
            &&& ix.data.len() == 24
            &&& reads_as_amounts(ix.data, SELL, base_amount_in, min_quote_amount_out)
        },
{
    lemma_plain_amounts(SELL, base_amount_in, min_quote_amount_out);
}

/// A first-generation purchase carries the tokens to buy, the most to pay, and a set
/// flag that asks for volume tracking.
pub proof fn law_buy_data(
    mint: Pubkey,
    user: Pubkey,
    creator: Pubkey,
    fee_recipient: Pubkey,
    buyback_fee_recipient: Pubkey,
    amount: u64,
    max_sol_cost: u64,
    token_program: Pubkey,
)
    ensures
        buy_view(
            mint,
            user,
            creator,
            fee_recipient,
            buyback_fee_recipient,
            amount,
            max_sol_cost,
            token_program,
        ) matches Some(ix) ==> {
            &&& ix.program_id == pump::PROGRAM_ID
            &&& ix.data.len() == 25
            &&& reads_as_amounts(ix.data, BUY, amount, max_sol_cost)
            &&& ix.data[24] == 1
        },
{
    lemma_flagged_amounts(BUY, amount, max_sol_cost, 1);
}

/// A first-generation sale carries the tokens to sell, then the least to accept.
pub proof fn law_sell_data(
    mint: Pubkey,
    user: Pubkey,
    creator: Pubkey,
    fee_recipient: Pubkey,
    amount: u64,
    min_sol_output: u64,
    token_program: Pubkey,
    is_cashback_coin: bool,
)
    ensures
        sell_view(
            mint,
            user,
            creator,
            fee_recipient,
            amount,
            min_sol_output,
            token_program,
            is_cashback_coin,
        ) matches Some(ix) ==> {
            &&& ix.program_id == pump::PROGRAM_ID
            &&& ix.data.len() == 24
            &&& reads_as_amounts(ix.data, SELL, amount, min_sol_output)
        },
{
    lemma_plain_amounts(SELL, amount, min_sol_output);
}

/// Whether a program reads `text` out of `data` from `at` on: its byte count,
/// little-endian in four bytes, then its UTF-8 bytes.
pub open spec fn reads_text(data: Seq<u8>, at: int, text: Seq<char>) -> bool {
    let bytes = encode_utf8(text);
    &&& at + 4 + bytes.len() <= data.len()
    &&& le_value(data.subrange(at, at + 4)) == bytes.len()
    &&& data.subrange(at + 4, at + 4 + bytes.len()) == bytes
}

/// Where what follows a text that starts at `at` starts.
pub open spec fn after_text(at: int, text: Seq<char>) -> int {
    at + 4 + encode_utf8(text).len()
}

/// Whether a program reads `data` as the instruction `tag` for a coin: name, symbol and
/// URI, in this order, then the creator.
pub open spec fn reads_as_coin(
    data: Seq<u8>,
    tag: InstructionTag,
    name: Seq<char>,
    symbol: Seq<char>,
    uri: Seq<char>,
    creator: Pubkey,
) -> bool {
    let at_symbol = after_text(8, name);
    let at_uri = after_text(at_symbol, symbol);
    let at_creator = after_text(at_uri, uri);
    &&& data.len() >= at_creator + 32
    &&& data.take(8) == tag@
    &&& reads_text(data, 8, name)
    &&& reads_text(data, at_symbol, symbol)
    &&& reads_text(data, at_uri, uri)
    &&& data.subrange(at_creator, at_creator + 32) == creator@
}

/// The number of bytes of a coin's data up to its creator, the creator included.
pub open spec fn coin_len(name: Seq<char>, symbol: Seq<char>, uri: Seq<char>) -> int {
    after_text(after_text(after_text(8, name), symbol), uri) + 32
}

proof fn lemma_text(before: Seq<u8>, text: Seq<char>, rest: Seq<u8>)
    requires
        string_fits(text),
    ensures
        reads_text(before + string_bytes(text) + rest, before.len() as int, text),
        string_bytes(text).len() == 4 + encode_utf8(text).len(),
{
    let bytes = encode_utf8(text);
    let at = before.len() as int;
    let data = before + string_bytes(text) + rest;
    lemma_byte_ranges();
    lemma_le_round_trip(bytes.len(), 4);
    lemma_le_bytes_len(bytes.len(), 4);
    assert(data.subrange(at, at + 4) =~= le_bytes(bytes.len(), 4));
    assert(data.subrange(at + 4, at + 4 + bytes.len()) =~= bytes);
}

proof fn lemma_coin(
    tag: InstructionTag,
    name: Seq<char>,
    symbol: Seq<char>,
    uri: Seq<char>,
    creator: Pubkey,
    rest: Seq<u8>,
)
    requires
        string_fits(name),
        string_fits(symbol),
        string_fits(uri),
    ensures
        reads_as_coin(
            coin_bytes(tag, name, symbol, uri, creator) + rest,
            tag,
            name,
            symbol,
            uri,
            creator,
        ),
        coin_bytes(tag, name, symbol, uri, creator).len() == coin_len(name, symbol, uri),
{
    let data = coin_bytes(tag, name, symbol, uri, creator) + rest;
    let n = string_bytes(name);
    let s = string_bytes(symbol);
    let u = string_bytes(uri);
    lemma_text(tag@, name, s + u + creator@ + rest);
    lemma_text(tag@ + n, symbol, u + creator@ + rest);
    lemma_text(tag@ + n + s, uri, creator@ + rest);
    assert(data =~= tag@ + n + (s + u + creator@ + rest));
    assert(data =~= tag@ + n + s + (u + creator@ + rest));
    assert(data =~= tag@ + n + s + u + (creator@ + rest));
    assert(data.take(8) =~= tag@);
    let at_creator = coin_len(name, symbol, uri) - 32;
    assert(data.subrange(at_creator, at_creator + 32) =~= creator@);
}

/// The creation of a first-generation coin carries its name, symbol and URI, then its
/// creator, and nothing else.
pub proof fn law_create_data(
    mint: Pubkey,
    user: Pubkey,
    name: Seq<char>,
    symbol: Seq<char>,
    uri: Seq<char>,
    creator: Pubkey,
)
    requires
        string_fits(name),
        string_fits(symbol),
        string_fits(uri),
    ensures
        create_view(mint, user, name, symbol, uri, creator) matches Some(ix) ==> {
            &&& ix.program_id == pump::PROGRAM_ID
            &&& ix.data.len() == coin_len(name, symbol, uri)
            &&& reads_as_coin(ix.data, CREATE, name, symbol, uri, creator)
        },
{
    lemma_coin(CREATE, name, symbol, uri, creator, Seq::empty());
    let data = coin_bytes(CREATE, name, symbol, uri, creator);
    assert(data + Seq::empty() =~= data);
}

/// The creation of a coin carries its name, symbol and URI, its creator, and two flags:
/// the last byte is 1 for a cashback coin and 0 for any other, the one before it 1 in
/// mayhem mode and 0 out of it.
pub proof fn law_create_v2_data(
    mint: Pubkey,
    user: Pubkey,
    name: Seq<char>,
    symbol: Seq<char>,
    uri: Seq<char>,
    creator: Pubkey,
    quote_mint: Pubkey,
    mayhem_mode: bool,
    cashback: bool,
)
    requires
        string_fits(name),
        string_fits(symbol),
        string_fits(uri),
    ensures
        create_v2_view(
            mint,
            user,
            name,
            symbol,
            uri,
            creator,
            quote_mint,
            mayhem_mode,
            cashback,
        ) matches Some(ix) ==> {
            let n = ix.data.len() as int;
            &&& ix.program_id == pump::PROGRAM_ID
            &&& n == coin_len(name, symbol, uri) + 2
            &&& reads_as_coin(ix.data, CREATE_V2, name, symbol, uri, creator)
            &&& cashback ==> ix.data[n - 1] == 1
            &&& !cashback ==> ix.data[n - 1] == 0
            &&& mayhem_mode ==> ix.data[n - 2] == 1
            &&& !mayhem_mode ==> ix.data[n - 2] == 0
        },
{
    if let Some(ix) = create_v2_view(
        mint,
        user,
        name,
        symbol,
        uri,
        creator,
        quote_mint,
        mayhem_mode,
        cashback,
    ) {
        let coin = coin_bytes(CREATE_V2, name, symbol, uri, creator);
        let flags = ix.data.skip(coin.len() as int);
        lemma_coin(CREATE_V2, name, symbol, uri, creator, flags);
        assert(ix.data =~= coin + flags);
    }
}

/// The registration of an agent goes to the agent program and carries the payment
/// authority, then the buyback rate, little-endian in two bytes.
pub proof fn law_agent_data(
    mint: Pubkey,
    user: Pubkey,
    creator: Pubkey,
    buyback_bps: u16,
    agent_program: Pubkey,
)
    ensures
        agent_initialize_view(mint, user, creator, buyback_bps, agent_program) matches Some(ix) ==> {
            &&& ix.program_id == agent_program
            &&& ix.data.len() == 42
            &&& ix.data.take(8) == AGENT_INITIALIZE@
            &&& ix.data.subrange(8, 40) == creator@
            &&& le_value(ix.data.subrange(40, 42)) == buyback_bps
        },
{
    lemma_byte_ranges();
    lemma_le_round_trip(buyback_bps as nat, 2);
    lemma_le_bytes_len(buyback_bps as nat, 2);
    let data = authority_bytes(AGENT_INITIALIZE, creator, buyback_bps);
    assert(data.take(8) =~= AGENT_INITIALIZE@);
    assert(data.subrange(8, 40) =~= creator@);
    assert(data.subrange(40, 42) =~= le_bytes(buyback_bps as nat, 2));
}

/// Claims and extensions go to the bonding-curve program and carry their tag alone.
pub proof fn law_bare_data(
    mint: Pubkey,
    user: Pubkey,
    quote_mint: Pubkey,
    quote_token_program: Pubkey,
)
    ensures
        extend_account_view(mint, user) matches Some(ix) ==> ix.program_id == pump::PROGRAM_ID
            && ix.data == EXTEND_ACCOUNT@,
        claim_cashback_v2_view(user, quote_mint, quote_token_program) matches Some(ix)
            ==> ix.program_id == pump::PROGRAM_ID && ix.data == CLAIM_CASHBACK_V2@,
{
}

} // verus!
