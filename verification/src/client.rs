//! What a client of a cluster decides between requests: which addresses to ask for,
//! what the replies mean, and what a transaction holds.

use vstd::prelude::*;

use crate::account_wrapper::holds_account;
use crate::accounts::{decode_bonding_curve, decoding};
use crate::bytes::{
    le_bytes, le_value, lemma_byte_ranges, lemma_le_bytes_len, lemma_le_round_trip,
};
use crate::constants::COMPUTE_BUDGET_PROGRAM_ID;
use crate::errors::{ClientResult, PumpClientError};
use crate::instruction::{group_views, views, AccountMeta, Instruction, InstructionView};
use crate::pda;
use crate::pda::{address_of, associated_token_pda};
use crate::pubkey::Pubkey;
use crate::sdk::account_laws::{curve_of, token_account};
use crate::state::BondingCurve;

verus! {

/// An account of the cluster.
#[derive(Clone, Debug, PartialEq, Eq)]
pub struct Account {
    pub lamports: u64,
    pub data: Vec<u8>,
    pub owner: Pubkey,
    pub executable: bool,
    pub rent_epoch: u64,
}

/// Sets the compute-unit limit of a transaction.
pub open spec fn unit_limit_view(units: u32) -> InstructionView {
    InstructionView {
        program_id: COMPUTE_BUDGET_PROGRAM_ID,
        accounts: Seq::empty(),
        data: seq![2u8] + le_bytes(units as nat, 4),
    }
}

/// Calls `ComputeBudgetInstruction::set_compute_unit_limit` of `solana_sdk`.
/// Claimed: the instruction is the one above.
#[verifier::external_body]
fn set_compute_unit_limit(units: u32) -> (r: Instruction)
    ensures
        r@ == unit_limit_view(units),
{
    let ix = solana_sdk::compute_budget::ComputeBudgetInstruction::set_compute_unit_limit(units);
    let accounts = ix.accounts.iter().map(|m| AccountMeta {
        pubkey: m.pubkey.to_bytes(),
        is_signer: m.is_signer,
        is_writable: m.is_writable,
    }).collect();
    Instruction { program_id: ix.program_id.to_bytes(), accounts, data: ix.data }
}

/// Sets the price per compute unit of a transaction.
pub open spec fn unit_price_view(micro_lamports: u64) -> InstructionView {
    InstructionView {
        program_id: COMPUTE_BUDGET_PROGRAM_ID,
        accounts: Seq::empty(),
        data: seq![3u8] + le_bytes(micro_lamports as nat, 8),
    }
}

/// Calls `ComputeBudgetInstruction::set_compute_unit_price` of `solana_sdk`.
/// Claimed: the instruction is the one above.
#[verifier::external_body]
fn set_compute_unit_price(micro_lamports: u64) -> (r: Instruction)
    ensures
        r@ == unit_price_view(micro_lamports),
{
    let ix = solana_sdk::compute_budget::ComputeBudgetInstruction::set_compute_unit_price(
        micro_lamports,
    );
    let accounts = ix.accounts.iter().map(|m| AccountMeta {
        pubkey: m.pubkey.to_bytes(),
        is_signer: m.is_signer,
        is_writable: m.is_writable,
    }).collect();
    Instruction { program_id: ix.program_id.to_bytes(), accounts, data: ix.data }
}

/// Compute-budget instructions that stand before the others: the limit, then the price.
#[derive(Clone, Copy, Debug, PartialEq, Eq)]
pub struct ComputeBudget {
    pub units: Option<u32>,
    pub micro_lamports_per_unit: Option<u64>,
}

impl Default for ComputeBudget {
    /// Asks for nothing.
    fn default() -> (r: Self)
        ensures
            r.units is None,
            r.micro_lamports_per_unit is None,
    {
        ComputeBudget { units: None, micro_lamports_per_unit: None }
    }
}

impl ComputeBudget {
    /// The instructions that are asked for.
    pub open spec fn leading(&self) -> Seq<InstructionView> {
        let limit = match self.units {
            Some(units) => seq![unit_limit_view(units)],
            None => Seq::empty(),
        };
        match self.micro_lamports_per_unit {
            Some(price) => limit.push(unit_price_view(price)),
            None => limit,
        }
    }

    /// `base` after the instructions that are asked for.
    pub fn prepend_into(&self, base: &Vec<Instruction>) -> (r: Vec<Instruction>)
        ensures
            views(r@) == self.leading() + views(base@),
    {
        broadcast use group_views;

        let mut out: Vec<Instruction> = Vec::new();
        if let Some(units) = self.units {
            out.push(set_compute_unit_limit(units));
        }
        if let Some(price) = self.micro_lamports_per_unit {
            out.push(set_compute_unit_price(price));
        }
        let ghost leading = self.leading();
        assert(views(out@) =~= leading);
        let mut i: usize = 0;
        assert(views(base@).take(0) =~= Seq::<InstructionView>::empty());
        while i < base.len()
            invariant
                i <= base@.len(),
                views(out@) =~= leading + views(base@).take(i as int),
            decreases base@.len() - i,
        {
            let next = base[i].clone();
            let ghost before = out@;
            out.push(next);
            assert(views(out@) == views(before).push(next@));
            assert(views(base@).take(i + 1) =~= views(base@).take(i as int).push(
                views(base@)[i as int],
            ));
            i = i + 1;
        }
        assert(views(base@).take(i as int) =~= views(base@));
        out
    }
}

/// The instructions of a transaction: `instructions`, after those of the budget where
/// there is one.
pub fn transaction_instructions(
    instructions: &Vec<Instruction>,
    compute_budget: Option<ComputeBudget>,
) -> (r: Vec<Instruction>)
    ensures
        views(r@) == match compute_budget {
            Some(budget) => budget.leading() + views(instructions@),
            None => views(instructions@),
        },
{
    let budget = match compute_budget {
        Some(budget) => budget,
        None => ComputeBudget { units: None, micro_lamports_per_unit: None },
    };
    let r = budget.prepend_into(instructions);
    assert(compute_budget is None ==> views(r@) =~= views(instructions@));
    r
}

/// Lamports above what rent holds back; none where there are no more.
pub open spec fn spendable(lamports: u64, rent_exempt: u64) -> int {
    if lamports > rent_exempt {
        lamports - rent_exempt
    } else {
        0
    }
}

/// Lamports of a vault above what rent holds back; none where it holds no more.
pub fn spendable_balance(lamports: u64, rent_exempt: u64) -> (r: u64)
    ensures
        r == spendable(lamports, rent_exempt),
{
    if lamports <= rent_exempt {
        0
    } else {
        lamports - rent_exempt
    }
}

/// Lamports that can be collected from a vault, given its balance and what rent holds
/// back; none where there is no vault.
pub fn vault_balance(vault: Option<(u64, u64)>) -> (r: u64)
    ensures
        r == (match vault {
            Some((lamports, rent_exempt)) => spendable(lamports, rent_exempt),
            None => 0,
        }),
{
    match vault {
        Some((lamports, rent_exempt)) => spendable_balance(lamports, rent_exempt),
        None => 0,
    }
}

/// The account of a reply, or the error that names what is missing.
pub fn required_account(reply: Option<Account>, name: &'static str, address: Pubkey) -> (r:
    ClientResult<Account>)
    ensures
        r == (match reply {
            Some(account) => Ok(account),
            None => Err(PumpClientError::AccountNotFound { name, address }),
        }),
{
    match reply {
        Some(account) => Ok(account),
        None => Err(PumpClientError::AccountNotFound { name, address }),
    }
}

/// What a purchase starts from.
#[derive(Debug, PartialEq, Eq)]
pub struct BuyState {
    pub bonding_curve_account: Account,
    pub bonding_curve: BondingCurve,
    pub associated_user_account: Option<Account>,
}

/// What a sale starts from.
#[derive(Debug, PartialEq, Eq)]
pub struct SellState {
    pub bonding_curve_account: Account,
    pub bonding_curve: BondingCurve,
}

/// The curve of `mint` and the user's token account for it, where both have an address.
pub open spec fn traded_accounts(mint: Pubkey, user: Pubkey, token_program: Pubkey) -> Option<
    (Pubkey, Pubkey),
> {
    match (
        address_of(pda::pump::bonding_curve_pda(mint)),
        address_of(associated_token_pda(user, token_program, mint)),
    ) {
        (Some(curve), Some(account)) => Some((curve, account)),
        _ => None,
    }
}

/// The addresses whose accounts a trade starts from: the curve of `mint` and the
/// user's token account.
pub fn trade_state_addresses(mint: &Pubkey, user: &Pubkey, token_program: &Pubkey) -> (r: Option<
    (Pubkey, Pubkey),
>)
    ensures
        r == traded_accounts(*mint, *user, *token_program),
{
    let (curve, _) = pda::pump::bonding_curve(mint)?;
    let (account, _) = pda::associated_token(user, token_program, mint)?;
    Some((curve, account))
}

/// Whether `e` is what is wrong with the reply for the curve: it is missing, or its
/// data holds no curve.
pub open spec fn curve_error(curve_address: Pubkey, reply: Option<Account>, e: PumpClientError) -> bool {
    match e {
        PumpClientError::AccountNotFound { name, address } => {
            &&& reply is None
            &&& name@ == "bonding_curve"@
            &&& address == curve_address
        },
        PumpClientError::Decode(_) => {
            &&& reply is Some
            &&& decoding::<BondingCurve>(reply.unwrap().data@, Err(e))
        },
    }
}

/// Whether `e` names the user's account as missing.
pub open spec fn user_account_error(account_address: Pubkey, e: PumpClientError) -> bool {
    match e {
        PumpClientError::AccountNotFound { name, address } => {
            &&& name@ == "associated_user"@
            &&& address == account_address
        },
        PumpClientError::Decode(_) => false,
    }
}

/// Whether `account` is the reply and its data holds `curve`.
pub open spec fn curve_found(reply: Option<Account>, account: Account, curve: BondingCurve) -> bool {
    reply == Some(account) && holds_account(account.data@, curve)
}

/// Reads the replies for [`trade_state_addresses`] for a purchase. The user's account
/// may be missing; the curve may not.
pub fn buy_state_from(
    bonding_curve_address: Pubkey,
    curve_reply: Option<Account>,
    user_reply: Option<Account>,
) -> (r: ClientResult<BuyState>)
    ensures
        match r {
            Ok(state) => {
                &&& curve_found(curve_reply, state.bonding_curve_account, state.bonding_curve)
                &&& state.associated_user_account == user_reply
            },
            Err(e) => curve_error(bonding_curve_address, curve_reply, e),
        },
{
    match required_account(curve_reply, "bonding_curve", bonding_curve_address) {
        Err(e) => Err(e),
        Ok(bonding_curve_account) => match decode_bonding_curve(
            bonding_curve_account.data.as_slice(),
        ) {
            Err(e) => Err(e),
            Ok(bonding_curve) => Ok(
                BuyState {
                    bonding_curve_account,
                    bonding_curve,
                    associated_user_account: user_reply,
                },
            ),
        },
    }
}

/// Reads the replies for [`trade_state_addresses`] for a sale. Both accounts must
/// exist; what is wrong with the curve is reported first.
pub fn sell_state_from(
    bonding_curve_address: Pubkey,
    user_account_address: Pubkey,
    curve_reply: Option<Account>,
    user_reply: Option<Account>,
) -> (r: ClientResult<SellState>)
    ensures
        match r {
            Ok(state) => {
                &&& curve_found(curve_reply, state.bonding_curve_account, state.bonding_curve)
                &&& user_reply is Some
            },
            Err(e) => {
                ||| curve_error(bonding_curve_address, curve_reply, e)
                ||| {
                    &&& user_account_error(user_account_address, e)
                    &&& user_reply is None
                    &&& exists|account: Account, curve: BondingCurve| #[trigger]
                        curve_found(curve_reply, account, curve)
                }
            },
        },
{
    match buy_state_from(bonding_curve_address, curve_reply, user_reply) {
        Err(e) => Err(e),
        Ok(state) => {
            if state.associated_user_account.is_none() {
                Err(
                    PumpClientError::AccountNotFound {
                        name: "associated_user",
                        address: user_account_address,
                    },
                )
            } else {
                Ok(
                    SellState {
                        bonding_curve_account: state.bonding_curve_account,
                        bonding_curve: state.bonding_curve,
                    },
                )
            }
        },
    }
}

/// What a budget asks for comes first in a transaction, the limit before the price: one
/// instruction each, to the compute-budget program and without accounts, with its
/// number and then the amount, little-endian.
pub proof fn law_budget_instructions(budget: ComputeBudget)
    ensures
        ({
            let list = budget.leading();
            let limits = if budget.units is Some {
                1int
            } else {
                0
            };
            let prices = if budget.micro_lamports_per_unit is Some {
                1int
            } else {
                0
            };
            &&& list.len() == limits + prices
            &&& forall|i: int|
                0 <= i < list.len() ==> {
                    let ix = #[trigger] list[i];
                    ix.program_id == COMPUTE_BUDGET_PROGRAM_ID && ix.accounts.len() == 0
                }
            &&& budget.units matches Some(units) ==> {
                &&& list[0].data.len() == 5
                &&& list[0].data[0] == 2
                &&& le_value(list[0].data.skip(1)) == units
            }
            &&& budget.micro_lamports_per_unit matches Some(price) ==> {
                &&& list.last().data.len() == 9
                &&& list.last().data[0] == 3
                &&& le_value(list.last().data.skip(1)) == price
            }
        }),
{
    lemma_byte_ranges();
    if let Some(units) = budget.units {
        lemma_le_round_trip(units as nat, 4);
        lemma_le_bytes_len(units as nat, 4);
        assert((seq![2u8] + le_bytes(units as nat, 4)).skip(1) =~= le_bytes(units as nat, 4));
    }
    if let Some(price) = budget.micro_lamports_per_unit {
        lemma_le_round_trip(price as nat, 8);
        lemma_le_bytes_len(price as nat, 8);
        assert((seq![3u8] + le_bytes(price as nat, 8)).skip(1) =~= le_bytes(price as nat, 8));
    }
}

/// A missing account is named with its address: the curve's where the curve is missing,
/// the user's where that is. A curve that is there can only fail to be read, and what is
/// read is what its data holds.
pub proof fn law_missing_accounts_are_named(
    curve_address: Pubkey,
    user_address: Pubkey,
    reply: Option<Account>,
    e: PumpClientError,
    account: Account,
    curve: BondingCurve,
)
    ensures
        curve_error(curve_address, reply, e) && reply is None ==> (
        e matches PumpClientError::AccountNotFound { name, address } && name@ == "bonding_curve"@
            && address == curve_address),
        curve_error(curve_address, reply, e) && reply is Some ==> e is Decode,
        curve_error(curve_address, reply, e) && reply == Some(account) ==> !holds_account(
            account.data@,
            curve,
        ),
        user_account_error(user_address, e) ==> (e matches PumpClientError::AccountNotFound {
            name,
            address,
        } && name@ == "associated_user"@ && address == user_address),
        curve_found(reply, account, curve) ==> reply == Some(account) && holds_account(
            account.data@,
            curve,
        ),
{
    if curve_error(curve_address, reply, e) && reply == Some(account) {
        crate::accounts::law_wrong_tag_holds_nothing::<BondingCurve>(account.data@);
    }
}

/// What can be collected leaves the rent reserve in the vault, and all of it where the
/// vault holds no more.
pub proof fn law_collecting_leaves_the_rent(lamports: u64, rent_exempt: u64)
    ensures
        0 <= spendable(lamports, rent_exempt) <= lamports,
        lamports >= rent_exempt ==> lamports - spendable(lamports, rent_exempt) == rent_exempt,
        lamports <= rent_exempt ==> spendable(lamports, rent_exempt) == 0,
{
}

/// A trade starts from the curve of its coin and from the user's account for the coin,
/// where both have an address.
pub proof fn law_trades_start_from(mint: Pubkey, user: Pubkey, token_program: Pubkey)
    ensures
        match traded_accounts(mint, user, token_program) {
            Some((curve, account)) => {
                &&& curve_of(mint) == Some(curve)
                &&& token_account(Some(user), mint, token_program) == Some(account)
            },
            None => curve_of(mint) is None || token_account(Some(user), mint, token_program)
                is None,
        },
{
}

} // verus!
