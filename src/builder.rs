use vstd::prelude::*;
use num_traits::ToPrimitive;
use crate::key::Key;
use crate::codec::AccountMeta;

verus! {

/// Relies on `ToPrimitive::to_u8` for `usize`: the value itself where it is
/// at most 255, else `None`.
#[verifier::external_body]
fn usize_to_u8(n: usize) -> (r: Option<u8>)
    ensures
        n <= 255 ==> r == Some(n as u8),
        n > 255 ==> r is None,
{
    n.to_u8()
}

/// The instruction that executes a stored transaction.
#[derive(Clone, Copy, Debug)]
pub struct ExecuteTransaction;

/// What a client supplies to build an [`ExecuteTransaction`] call.
#[derive(Clone, Debug)]
pub struct ExecuteTransactionBuild {
    /// The transaction to execute
    pub transaction_account: Key,
    /// The identity account of the transaction
    pub cryptid_account: Key,
    /// The DID of the identity account
    pub did: AccountMeta,
    /// The program of the DID
    pub did_program: Key,
    /// The key signing the execution; must be a signer of the transaction
    pub signing_key: Key,
    /// Extra accounts the signing key needs
    pub signer_extras: Vec<AccountMeta>,
    /// Where the transaction's funds go
    pub funds_to: Key,
    /// The accounts for execution
    pub execution_accounts: Vec<AccountMeta>,
}

pub open spec fn writable(k: Key) -> AccountMeta {
    AccountMeta { pubkey: k, is_signer: false, is_writable: true }
}

pub open spec fn readonly(k: Key) -> AccountMeta {
    AccountMeta { pubkey: k, is_signer: false, is_writable: false }
}

/// The account list of the call: the transaction, the identity account,
/// the DID and its program, the signing key and its extras, the recipient,
/// then the execution accounts.
pub open spec fn execute_call_accounts(arg: ExecuteTransactionBuild) -> Seq<AccountMeta> {
    seq![
        writable(arg.transaction_account),
        readonly(arg.cryptid_account),
        arg.did,
        readonly(arg.did_program),
        AccountMeta { pubkey: arg.signing_key, is_signer: true, is_writable: false },
    ] + arg.signer_extras@ + seq![writable(arg.funds_to)] + arg.execution_accounts@
}

fn append(v: &mut Vec<AccountMeta>, tail: &Vec<AccountMeta>)
    ensures
        final(v)@ == old(v)@ + tail@,
{
    let mut i: usize = 0;
    while i < tail.len()
        invariant
            i <= tail@.len(),
            v@ == old(v)@ + tail@.subrange(0, i as int),
        decreases tail@.len() - i,
    {
        v.push(tail[i]);
        i = i + 1;
        assert(v@ =~= old(v)@ + tail@.subrange(0, i as int));
    }
    assert(tail@.subrange(0, tail@.len() as int) =~= tail@);
}

impl ExecuteTransaction {
    /// The accounts and the instruction data (the number of signer extras)
    /// of a call that executes a stored transaction.
    pub fn build_instruction(arg: ExecuteTransactionBuild) -> (r: (Vec<AccountMeta>, u8))
        requires
            arg.signer_extras@.len() <= 255,
        ensures
            r.0@ == execute_call_accounts(arg),
            r.1 == arg.signer_extras@.len(),
    {
        let data = usize_to_u8(arg.signer_extras.len()).unwrap();
        let mut accounts: Vec<AccountMeta> = vec![
            AccountMeta { pubkey: arg.transaction_account, is_signer: false, is_writable: true },
            AccountMeta { pubkey: arg.cryptid_account, is_signer: false, is_writable: false },
            arg.did,
            AccountMeta { pubkey: arg.did_program, is_signer: false, is_writable: false },
            AccountMeta { pubkey: arg.signing_key, is_signer: true, is_writable: false },
        ];
        append(&mut accounts, &arg.signer_extras);
        accounts.push(AccountMeta { pubkey: arg.funds_to, is_signer: false, is_writable: true });
        append(&mut accounts, &arg.execution_accounts);
        proof {
            assert(accounts@ =~= execute_call_accounts(arg));
        }
        (accounts, data)
    }
}

} // verus!
