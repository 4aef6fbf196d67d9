//! Instructions as plain values.

use vstd::prelude::*;

use crate::pubkey::Pubkey;

verus! {

/// An account that an instruction names, with what it asks of it.
#[derive(Clone, Copy, Debug, PartialEq, Eq)]
pub struct AccountMeta {
    pub pubkey: Pubkey,
    pub is_signer: bool,
    pub is_writable: bool,
}

/// An account that the instruction writes to.
pub open spec fn writable(pubkey: Pubkey) -> AccountMeta {
    AccountMeta { pubkey, is_signer: false, is_writable: true }
}

/// An account that the instruction only reads.
pub open spec fn readonly(pubkey: Pubkey) -> AccountMeta {
    AccountMeta { pubkey, is_signer: false, is_writable: false }
}

/// An account that signs, and that the instruction writes to.
pub open spec fn signing(pubkey: Pubkey) -> AccountMeta {
    AccountMeta { pubkey, is_signer: true, is_writable: true }
}

impl AccountMeta {
    /// An account that the instruction writes to.
    pub fn new(pubkey: Pubkey, is_signer: bool) -> (r: Self)
        ensures
            r == (AccountMeta { pubkey, is_signer, is_writable: true }),
    {
        AccountMeta { pubkey, is_signer, is_writable: true }
    }

    /// An account that the instruction only reads.
    pub fn new_readonly(pubkey: Pubkey, is_signer: bool) -> (r: Self)
        ensures
            r == (AccountMeta { pubkey, is_signer, is_writable: false }),
    {
        AccountMeta { pubkey, is_signer, is_writable: false }
    }
}

/// A call of a program.
#[derive(Debug, PartialEq, Eq)]
pub struct Instruction {
    pub program_id: Pubkey,
    pub accounts: Vec<AccountMeta>,
    pub data: Vec<u8>,
}

/// What an instruction says.
#[verifier::ext_equal]
pub struct InstructionView {
    pub program_id: Pubkey,
    pub accounts: Seq<AccountMeta>,
    pub data: Seq<u8>,
}

impl View for Instruction {
    type V = InstructionView;

    open spec fn view(&self) -> InstructionView {
        InstructionView {
            program_id: self.program_id,
            accounts: self.accounts@,
            data: self.data@,
        }
    }
}

impl Clone for Instruction {
    fn clone(&self) -> (r: Self)
        ensures
            r@ == self@,
    {
        let mut accounts: Vec<AccountMeta> = Vec::new();
        let mut i: usize = 0;
        while i < self.accounts.len()
            invariant
                i <= self.accounts@.len(),
                accounts@ =~= self.accounts@.take(i as int),
            decreases self.accounts@.len() - i,
        {
            accounts.push(self.accounts[i]);
            i = i + 1;
        }
        let mut data: Vec<u8> = Vec::new();
        crate::bytes::push_bytes(&mut data, self.data.as_slice());
        assert(data@ =~= self.data@);
        assert(accounts@ =~= self.accounts@);
        Instruction { program_id: self.program_id, accounts, data }
    }
}

/// What each instruction of a list says.
pub open spec fn views(instructions: Seq<Instruction>) -> Seq<InstructionView> {
    instructions.map_values(|instruction: Instruction| instruction@)
}

/// What a list of instructions says, where there is one.
pub open spec fn views_of(instructions: Option<Vec<Instruction>>) -> Option<Seq<InstructionView>> {
    match instructions {
        Some(list) => Some(views(list@)),
        None => None,
    }
}

/// What an instruction says, where there is one.
pub open spec fn view_of(instruction: Option<Instruction>) -> Option<InstructionView> {
    match instruction {
        Some(instruction) => Some(instruction@),
        None => None,
    }
}

/// A list of instructions with one more; nothing where either is missing.
pub open spec fn followed_by(
    list: Option<Seq<InstructionView>>,
    last: Option<InstructionView>,
) -> Option<Seq<InstructionView>> {
    match (list, last) {
        (Some(list), Some(last)) => Some(list.push(last)),
        _ => None,
    }
}

/// A list of instructions with another after it; nothing where either is missing.
pub open spec fn followed_by_all(
    list: Option<Seq<InstructionView>>,
    more: Option<Seq<InstructionView>>,
) -> Option<Seq<InstructionView>> {
    match (list, more) {
        (Some(list), Some(more)) => Some(list + more),
        _ => None,
    }
}

/// No instructions yet.
pub open spec fn none_yet() -> Option<Seq<InstructionView>> {
    Some(Seq::empty())
}

/// Adding an instruction to a list adds what it says.
pub broadcast proof fn lemma_views_push(instructions: Seq<Instruction>, last: Instruction)
    ensures
        #[trigger] views(instructions.push(last)) == views(instructions).push(last@),
{
    assert(views(instructions.push(last)) =~= views(instructions).push(last@));
}

/// An empty list says nothing.
pub broadcast proof fn lemma_views_empty(instructions: Seq<Instruction>)
    requires
        instructions.len() == 0,
    ensures
        #[trigger] views(instructions) == Seq::<InstructionView>::empty(),
{
    assert(views(instructions) =~= Seq::<InstructionView>::empty());
}

pub broadcast group group_views {
    lemma_views_push,
    lemma_views_empty,
}

/// Puts `last` at the end of `list`; nothing where either is missing.
pub fn extend_with(list: Option<Vec<Instruction>>, last: Option<Instruction>) -> (r: Option<
    Vec<Instruction>,
>)
    ensures
        views_of(r) == followed_by(views_of(list), view_of(last)),
{
    broadcast use group_views;

    let mut list = list?;
    let last = last?;
    list.push(last);
    Some(list)
}

/// Moves all of `more` to the end of `list`.
pub fn append_all(list: &mut Vec<Instruction>, more: Vec<Instruction>)
    ensures
        final(list)@ == old(list)@ + more@,
        views(final(list)@) == views(old(list)@) + views(more@),
{
    let mut rest = more;
    list.append(&mut rest);
    assert(views(list@) =~= views(old(list)@) + views(more@));
}

} // verus!
