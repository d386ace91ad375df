use vstd::prelude::*;
use crate::key::Key;
use crate::error::CryptidError;
use crate::codec::{
    AbbreviatedInstructionData, AbbreviatedInstructionView, AccountMeta, Instruction,
    InstructionView, bits_valid, decode_instruction, find_position, indexes_in_range, key_index,
    masks_valid,
};

verus! {

/// Flag bit that turns on step-by-step tracing.
pub const DEBUG: u8 = 1;

/// Flags of an execution: a closed set. They change what is traced, never
/// what is checked or returned.
#[derive(Clone, Copy, Debug, PartialEq, Eq, Structural)]
pub struct ExecuteFlags {
    pub debug: bool,
}

impl ExecuteFlags {
    /// Reads a flag byte; `None` where it holds a bit outside the set.
    pub fn from_bits(bits: u8) -> (r: Option<Self>)
        ensures
            bits <= DEBUG ==> r == Some(ExecuteFlags { debug: bits == DEBUG }),
            bits > DEBUG ==> r is None,
    {
        if bits > DEBUG {
            None
        } else {
            Some(ExecuteFlags { debug: bits == DEBUG })
        }
    }

    pub fn bits(&self) -> (r: u8)
        ensures
            r == (if self.debug { DEBUG } else { 0 }),
    {
        if self.debug {
            DEBUG
        } else {
            0
        }
    }
}

/// One sub-call to make: the decoded instruction, where each of its accounts
/// stands in the supplied account list, and whether the identity account
/// signs it.
#[derive(Clone, Debug)]
pub struct Invocation {
    pub instruction: Instruction,
    pub account_positions: Vec<usize>,
    pub signed: bool,
}

pub struct InvocationView {
    pub instruction: InstructionView,
    pub account_positions: Seq<usize>,
    pub signed: bool,
}

impl View for Invocation {
    type V = InvocationView;

    open spec fn view(&self) -> InvocationView {
        InvocationView {
            instruction: self.instruction@,
            account_positions: self.account_positions@,
            signed: self.signed,
        }
    }
}

pub open spec fn instruction_views(s: Seq<AbbreviatedInstructionData>) -> Seq<AbbreviatedInstructionView> {
    s.map_values(|i: AbbreviatedInstructionData| i@)
}

pub open spec fn invocation_views(s: Seq<Invocation>) -> Seq<InvocationView> {
    s.map_values(|v: Invocation| v@)
}

pub open spec fn all_in_range(ixs: Seq<AbbreviatedInstructionView>, n: nat) -> bool {
    forall|k: int| 0 <= k < ixs.len() ==> indexes_in_range(#[trigger] ixs[k], n)
}

pub open spec fn all_masks_valid(ixs: Seq<AbbreviatedInstructionView>) -> bool {
    forall|k: int| 0 <= k < ixs.len() ==> masks_valid(#[trigger] ixs[k])
}

/// Every account of `ix` is among the supplied accounts.
pub open spec fn accounts_supplied(ix: InstructionView, supplied: Seq<Key>) -> bool {
    forall|i: int| 0 <= i < ix.accounts.len() ==> supplied.contains(#[trigger] ix.accounts[i].pubkey)
}

pub open spec fn all_supplied(ixs: Seq<AbbreviatedInstructionView>, space: Seq<Key>, supplied: Seq<Key>) -> bool {
    forall|k: int| 0 <= k < ixs.len() ==> accounts_supplied(decode_instruction(#[trigger] ixs[k], space), supplied)
}

/// `ix` asks `identity` to sign.
pub open spec fn signs_as(ix: InstructionView, identity: Key) -> bool {
    exists|i: int| 0 <= i < ix.accounts.len() && #[trigger] ix.accounts[i].is_signer && ix.accounts[i].pubkey == identity
}

pub open spec fn invocation_of(e: AbbreviatedInstructionView, space: Seq<Key>, supplied: Seq<Key>, identity: Key) -> InvocationView {
    let d = decode_instruction(e, space);
    InvocationView {
        instruction: d,
        account_positions: d.accounts.map_values(|m: AccountMeta| key_index(supplied, m.pubkey) as usize),
        signed: signs_as(d, identity),
    }
}

pub open spec fn plan_of(ixs: Seq<AbbreviatedInstructionView>, space: Seq<Key>, supplied: Seq<Key>, identity: Key) -> Seq<InvocationView> {
    ixs.map_values(|e: AbbreviatedInstructionView| invocation_of(e, space, supplied, identity))
}

/// Whether the decoded instructions can all be invoked.
pub open spec fn plannable(ixs: Seq<AbbreviatedInstructionView>, space: Seq<Key>, supplied: Seq<Key>) -> bool {
    &&& all_in_range(ixs, space.len())
    &&& all_masks_valid(ixs)
    &&& all_supplied(ixs, space, supplied)
}

fn signs_as_exec(ix: &Instruction, identity: &Key) -> (r: bool)
    ensures
        r == signs_as(ix@, *identity),
{
    let mut i: usize = 0;
    while i < ix.accounts.len()
        invariant
            i <= ix.accounts@.len(),
            forall|j: int| 0 <= j < i ==> !(#[trigger] ix.accounts@[j].is_signer && ix.accounts@[j].pubkey == *identity),
        decreases ix.accounts@.len() - i,
    {
        if ix.accounts[i].is_signer && ix.accounts[i].pubkey == *identity {
            assert(ix@.accounts[i as int].is_signer && ix@.accounts[i as int].pubkey == *identity);
            return true;
        }
        i = i + 1;
    }
    false
}

/// Where each account of `ix` stands in `supplied`.
fn positions_of(ix: &Instruction, supplied: &Vec<Key>) -> (r: Result<Vec<usize>, CryptidError>)
    ensures
        accounts_supplied(ix@, supplied@) ==> r is Ok && r->Ok_0@ == ix@.accounts.map_values(
            |m: AccountMeta| key_index(supplied@, m.pubkey) as usize,
        ),
        !accounts_supplied(ix@, supplied@) ==> (r matches Err(CryptidError::AccountNotSupplied { key })
            && !supplied@.contains(key)),
{
    let mut positions: Vec<usize> = Vec::new();
    let mut i: usize = 0;
    while i < ix.accounts.len()
        invariant
            i <= ix.accounts@.len(),
            positions@.len() == i,
            forall|j: int| 0 <= j < i ==> supplied@.contains(#[trigger] ix.accounts@[j].pubkey),
            forall|j: int| 0 <= j < i ==> #[trigger] positions@[j] == key_index(supplied@, ix.accounts@[j].pubkey) as usize,
        decreases ix.accounts@.len() - i,
    {
        let key = ix.accounts[i].pubkey;
        match find_position(supplied, &key) {
            Some(p) => positions.push(p),
            None => {
                assert(!supplied@.contains(ix@.accounts[i as int].pubkey));
                return Err(CryptidError::AccountNotSupplied { key });
            },
        }
        i = i + 1;
    }
    assert(positions@ =~= ix@.accounts.map_values(|m: AccountMeta| key_index(supplied@, m.pubkey) as usize));
    Ok(positions)
}

/// Decodes every instruction against `space` and finds its accounts in
/// `supplied`. Checks every index first, then every mask, then that every
/// account was supplied; nothing is decoded into a call before all pass.
pub fn plan_instructions(
    instructions: &Vec<AbbreviatedInstructionData>,
    space: &Vec<Key>,
    supplied: &Vec<Key>,
    identity: &Key,
) -> (r: Result<Vec<Invocation>, CryptidError>)
    ensures
        ({
            let ixs = instruction_views(instructions@);
            &&& !all_in_range(ixs, space@.len()) ==> r == Err::<Vec<Invocation>, CryptidError>(
                CryptidError::IndexOutOfRange,
            )
            &&& all_in_range(ixs, space@.len()) && !all_masks_valid(ixs) ==> (r matches Err(
                CryptidError::InvalidAccountMeta { meta },
            ) && !bits_valid(meta))
            &&& all_in_range(ixs, space@.len()) && all_masks_valid(ixs) && !all_supplied(
                ixs,
                space@,
                supplied@,
            ) ==> (r matches Err(CryptidError::AccountNotSupplied { key }) && !supplied@.contains(
                key,
            ))
            &&& plannable(ixs, space@, supplied@) ==> r is Ok && invocation_views(r->Ok_0@) == plan_of(
                ixs,
                space@,
                supplied@,
                *identity,
            )
        }),
{
    let ghost ixs = instruction_views(instructions@);
    let mut k: usize = 0;
    while k < instructions.len()
        invariant
            k <= instructions@.len(),
            ixs == instruction_views(instructions@),
            forall|j: int| 0 <= j < k ==> indexes_in_range(#[trigger] ixs[j], space@.len()),
        decreases instructions@.len() - k,
    {
        if !instructions[k].indexes_below(space.len()) {
            assert(!indexes_in_range(ixs[k as int], space@.len()));
            return Err(CryptidError::IndexOutOfRange);
        }
        k = k + 1;
    }
    let mut decoded: Vec<Instruction> = Vec::new();
    let mut k: usize = 0;
    while k < instructions.len()
        invariant
            k <= instructions@.len(),
            ixs == instruction_views(instructions@),
            all_in_range(ixs, space@.len()),
            decoded@.len() == k,
            forall|j: int| 0 <= j < k ==> masks_valid(#[trigger] ixs[j]),
            forall|j: int| 0 <= j < k ==> (#[trigger] decoded@[j])@ == decode_instruction(ixs[j], space@),
        decreases instructions@.len() - k,
    {
        assert(indexes_in_range(ixs[k as int], space@.len()));
        match instructions[k].into_instruction(space) {
            Ok(ix) => decoded.push(ix),
            Err(e) => {
                return Err(e);
            },
        }
        k = k + 1;
    }
    let mut plan: Vec<Invocation> = Vec::new();
    let mut k: usize = 0;
    while k < decoded.len()
        invariant
            k <= decoded@.len(),
            decoded@.len() == instructions@.len(),
            ixs == instruction_views(instructions@),
            all_in_range(ixs, space@.len()),
            all_masks_valid(ixs),
            forall|j: int| 0 <= j < decoded@.len() ==> (#[trigger] decoded@[j])@ == decode_instruction(ixs[j], space@),
            plan@.len() == k,
            forall|j: int| 0 <= j < k ==> accounts_supplied(decode_instruction(#[trigger] ixs[j], space@), supplied@),
            forall|j: int| 0 <= j < k ==> (#[trigger] plan@[j])@ == invocation_of(ixs[j], space@, supplied@, *identity),
        decreases decoded@.len() - k,
    {
        let ix = &decoded[k];
        let positions = match positions_of(ix, supplied) {
            Ok(p) => p,
            Err(e) => {
                assert(!accounts_supplied(decode_instruction(ixs[k as int], space@), supplied@));
                return Err(e);
            },
        };
        let signed = signs_as_exec(ix, identity);
        let copy = Instruction {
            program_id: ix.program_id,
            accounts: ix.accounts.clone(),
            data: ix.data.clone(),
        };
        assert(copy.accounts@ =~= ix.accounts@);
        assert(copy.data@ =~= ix.data@);
        plan.push(Invocation { instruction: copy, account_positions: positions, signed });
        k = k + 1;
    }
    assert(invocation_views(plan@) =~= plan_of(ixs, space@, supplied@, *identity));
    Ok(plan)
}

} // verus!
