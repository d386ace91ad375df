use vstd::prelude::*;
use crate::key::Key;
use crate::error::CryptidError;

verus! {

/// Number of fixed accounts that open the execution account list: the
/// identity account, the DID, the DID program and the signer. Encoded
/// instructions of a proposal count their trailing accounts from here.
pub const EXECUTE_RESERVED_ACCOUNTS: usize = 4;

/// Every index of `indexes` is below `n`.
pub open spec fn all_below(indexes: Seq<u8>, n: nat) -> bool {
    forall|i: int| 0 <= i < indexes.len() ==> (#[trigger] indexes[i] as nat) < n
}

pub open spec fn resolved<T>(indexes: Seq<u8>, accounts: Seq<T>) -> Seq<T> {
    indexes.map_values(|i: u8| accounts[i as int])
}

/// Looks up each index in `accounts`, in order.
pub fn resolve_by_index<T: Copy>(indexes: &[u8], accounts: &Vec<T>) -> (r: Result<Vec<T>, CryptidError>)
    ensures
        all_below(indexes@, accounts@.len()) ==> r is Ok && r->Ok_0@ == resolved(indexes@, accounts@),
        !all_below(indexes@, accounts@.len()) ==> r == Err::<Vec<T>, CryptidError>(
            CryptidError::IndexOutOfRange,
        ),
{
    let mut resolved_accounts: Vec<T> = Vec::new();
    let mut k: usize = 0;
    while k < indexes.len()
        invariant
            k <= indexes@.len(),
            resolved_accounts@.len() == k,
            forall|j: int| 0 <= j < k ==> (#[trigger] indexes@[j] as nat) < accounts@.len(),
            forall|j: int| 0 <= j < k ==> #[trigger] resolved_accounts@[j] == accounts@[indexes@[j] as int],
        decreases indexes@.len() - k,
    {
        let i = indexes[k] as usize;
        if i >= accounts.len() {
            return Err(CryptidError::IndexOutOfRange);
        }
        resolved_accounts.push(accounts[i]);
        k = k + 1;
    }
    assert(resolved_accounts@ =~= resolved(indexes@, accounts@));
    Ok(resolved_accounts)
}

/// An operation's accounts seen as one list, so that encoded instructions
/// and controller chains can name them by index.
pub trait AllAccounts {
    spec fn account_list(&self) -> Seq<Key>;

    /// The fixed accounts in their documented order, then the trailing ones.
    fn all_accounts(&self) -> (r: Vec<Key>)
        ensures
            r@ == self.account_list(),
    ;

    fn get_accounts_by_indexes(&self, indexes: &[u8]) -> (r: Result<Vec<Key>, CryptidError>)
        ensures
            all_below(indexes@, self.account_list().len()) ==> r is Ok && r->Ok_0@ == resolved(
                indexes@,
                self.account_list(),
            ),
            !all_below(indexes@, self.account_list().len()) ==> r == Err::<Vec<Key>, CryptidError>(
                CryptidError::IndexOutOfRange,
            ),
    ;
}

pub open spec fn four_then(a: Key, b: Key, c: Key, d: Key, rest: Seq<Key>) -> Seq<Key> {
    seq![a, b, c, d] + rest
}

pub(crate) fn four_then_vec(a: Key, b: Key, c: Key, d: Key, rest: &Vec<Key>) -> (r: Vec<Key>)
    ensures
        r@ == four_then(a, b, c, d, rest@),
{
    let mut r: Vec<Key> = vec![a, b, c, d];
    let mut i: usize = 0;
    while i < rest.len()
        invariant
            i <= rest@.len(),
            r@ == seq![a, b, c, d] + rest@.subrange(0, i as int),
        decreases rest@.len() - i,
    {
        r.push(rest[i]);
        i = i + 1;
        assert(r@ =~= seq![a, b, c, d] + rest@.subrange(0, i as int));
    }
    assert(rest@.subrange(0, rest@.len() as int) =~= rest@);
    r
}

/// The accounts of a proposal, in the order in which they are indexed.
#[derive(Clone, Debug)]
pub struct ProposeTransaction {
    /// The identity account that can execute the transaction
    pub cryptid_account: Key,
    /// The DID that owns the identity account
    pub did: Key,
    /// The program of the DID
    pub did_program: Key,
    /// The proposer, who funds the record
    pub authority: Key,
    /// The participant accounts of the transaction
    pub remaining_accounts: Vec<Key>,
}

impl AllAccounts for ProposeTransaction {
    open spec fn account_list(&self) -> Seq<Key> {
        four_then(self.cryptid_account, self.did, self.did_program, self.authority, self.remaining_accounts@)
    }

    fn all_accounts(&self) -> (r: Vec<Key>) {
        four_then_vec(self.cryptid_account, self.did, self.did_program, self.authority, &self.remaining_accounts)
    }

    fn get_accounts_by_indexes(&self, indexes: &[u8]) -> (r: Result<Vec<Key>, CryptidError>) {
        let accounts = self.all_accounts();
        resolve_by_index(indexes, &accounts)
    }
}

/// The accounts of an execution, in the order in which they are indexed.
#[derive(Clone, Debug)]
pub struct ExecuteTransactionAccounts {
    /// The identity account of the transaction
    pub cryptid_account: Key,
    /// The DID of the identity account
    pub did: Key,
    /// The program of the DID
    pub did_program: Key,
    /// The key signing the execution
    pub signer: Key,
    /// The accounts needed for execution
    pub execution_accounts: Vec<Key>,
}

impl AllAccounts for ExecuteTransactionAccounts {
    open spec fn account_list(&self) -> Seq<Key> {
        four_then(self.cryptid_account, self.did, self.did_program, self.signer, self.execution_accounts@)
    }

    fn all_accounts(&self) -> (r: Vec<Key>) {
        four_then_vec(self.cryptid_account, self.did, self.did_program, self.signer, &self.execution_accounts)
    }

    fn get_accounts_by_indexes(&self, indexes: &[u8]) -> (r: Result<Vec<Key>, CryptidError>) {
        let accounts = self.all_accounts();
        resolve_by_index(indexes, &accounts)
    }
}

} // verus!
