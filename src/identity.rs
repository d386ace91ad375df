use vstd::prelude::*;
use anchor_lang::prelude::Pubkey;
use crate::key::Key;
use crate::error::CryptidError;

verus! {

/// The address that the ledger derives from `seeds` under `program`, or
/// `None` where it refuses the seeds or the hash falls on the curve.
pub uninterp spec fn program_address_of(seeds: Seq<Seq<u8>>, program: Key) -> Option<Key>;

/// Relies on `Pubkey::create_program_address`: the derived address is a
/// function of the seeds and the program alone.
#[verifier::external_body]
fn create_program_address(seeds: &Vec<Vec<u8>>, program: &Key) -> (r: Option<Key>)
    ensures
        r == program_address_of(seeds@.map_values(|s: Vec<u8>| s@), *program),
{
    let slices: Vec<&[u8]> = seeds.iter().map(|s| s.as_slice()).collect();
    match Pubkey::create_program_address(&slices, &Pubkey::new_from_array(program.bytes)) {
        Ok(k) => Some(Key::new(k.to_bytes())),
        Err(_) => None,
    }
}

/// Relies on `anchor_lang::system_program::ID`, the base system program,
/// whose address is 32 zero bytes.
#[verifier::external_body]
fn system_program_id() -> (r: Key)
    ensures
        is_system_program(r),
{
    Key::new(anchor_lang::system_program::ID.to_bytes())
}

/// The base system program's address: 32 zero bytes.
pub open spec fn is_system_program(k: Key) -> bool {
    forall|i: int| 0 <= i < 32 ==> #[trigger] k.bytes[i] == 0
}

/// Turns the DID service's answer into the library's outcome: success only
/// on a plain "yes"; a "no" and a service error are the same failure.
pub fn verify_keys<E>(signer_is_authority: Result<bool, E>) -> (r: Result<(), CryptidError>)
    ensures
        signer_is_authority == Ok::<bool, E>(true) ==> r is Ok,
        signer_is_authority != Ok::<bool, E>(true) ==> r == Err::<(), CryptidError>(
            CryptidError::KeyMustBeSigner,
        ),
{
    match signer_is_authority {
        Ok(true) => Ok(()),
        _ => Err(CryptidError::KeyMustBeSigner),
    }
}

/// What the ledger reports of an account: its address, balance and owner.
#[derive(Clone, Copy, Debug)]
pub struct AccountState {
    pub key: Key,
    pub lamports: u64,
    pub owner: Key,
}

pub open spec fn generative_spec(a: AccountState) -> bool {
    a.lamports == 0 && is_system_program(a.owner)
}

/// Accounts that may stand for a default value that was never stored.
pub trait IsGenerative {
    spec fn generative(&self) -> bool;

    fn is_generative(&self) -> (r: bool)
        ensures
            r == self.generative(),
    ;
}

impl IsGenerative for AccountState {
    open spec fn generative(&self) -> bool {
        generative_spec(*self)
    }

    /// Empty and owned by the system program.
    fn is_generative(&self) -> (r: bool) {
        let system = system_program_id();
        proof {
            broadcast use vstd::array::axiom_array_ext_equal;
            assert(is_system_program(self.owner) ==> self.owner.bytes =~= system.bytes);
        }
        self.lamports == 0 && self.owner == system
    }
}

/// Whether an identity account has stored state.
#[derive(Clone, Copy, Debug, PartialEq, Eq, Structural)]
pub enum IdentityAccountState {
    /// Never materialised: default authority semantics apply.
    Generative,
    /// Holds state on the ledger.
    Persisted,
}

/// Bytes of the seed prefix `cryptid_account`.
pub open spec fn seed_prefix() -> Seq<u8> {
    seq![99u8, 114u8, 121u8, 112u8, 116u8, 105u8, 100u8, 95u8, 97u8, 99u8, 99u8, 111u8, 117u8, 110u8, 116u8]
}

pub open spec fn le_u32(x: u32) -> Seq<u8> {
    seq![
        (x % 256) as u8,
        ((x / 256) % 256) as u8,
        ((x / 65536) % 256) as u8,
        ((x / 16777216) % 256) as u8,
    ]
}

/// Seeds of an identity account.
pub open spec fn identity_seeds(did_program: Key, did: Key, index: u32, bump: u8) -> Seq<Seq<u8>> {
    seq![seed_prefix(), did_program.bytes@, did.bytes@, le_u32(index), seq![bump]]
}

/// The address of an identity account, where the seeds give one.
pub open spec fn identity_address(program: Key, did_program: Key, did: Key, index: u32, bump: u8) -> Option<Key> {
    program_address_of(identity_seeds(did_program, did, index, bump), program)
}

/// The first seed of every identity account.
pub fn seed_prefix_bytes() -> (r: Vec<u8>)
    ensures
        r@ == seed_prefix(),
{
    let r: Vec<u8> = vec![99u8, 114u8, 121u8, 112u8, 116u8, 105u8, 100u8, 95u8, 97u8, 99u8, 99u8, 111u8, 117u8, 110u8, 116u8];
    assert(r@ =~= seed_prefix());
    r
}

fn key_bytes(k: &Key) -> (r: Vec<u8>)
    ensures
        r@ == k.bytes@,
{
    let mut r: Vec<u8> = Vec::new();
    let mut i: usize = 0;
    while i < 32
        invariant
            i <= 32,
            r@ == k.bytes@.subrange(0, i as int),
        decreases 32 - i,
    {
        r.push(k.bytes[i]);
        i = i + 1;
        assert(r@ =~= k.bytes@.subrange(0, i as int));
    }
    assert(k.bytes@.subrange(0, 32) =~= k.bytes@);
    r
}

fn identity_seed_vecs(did_program: &Key, did: &Key, index: u32, bump: u8) -> (r: Vec<Vec<u8>>)
    ensures
        r@.map_values(|s: Vec<u8>| s@) == identity_seeds(*did_program, *did, index, bump),
{
    let index_bytes: Vec<u8> = vec![
        (index % 256) as u8,
        ((index / 256) % 256) as u8,
        ((index / 65536) % 256) as u8,
        ((index / 16777216) % 256) as u8,
    ];
    assert(index_bytes@ =~= le_u32(index));
    let p = seed_prefix_bytes();
    let a = key_bytes(did_program);
    let b = key_bytes(did);
    let c: Vec<u8> = vec![bump];
    assert(c@ =~= seq![bump]);
    let mut r: Vec<Vec<u8>> = Vec::new();
    r.push(p);
    r.push(a);
    r.push(b);
    r.push(index_bytes);
    r.push(c);
    assert(r@.map_values(|s: Vec<u8>| s@) =~= identity_seeds(*did_program, *did, index, bump));
    r
}

/// An identity account whose address was checked against its derivation.
#[derive(Clone, Copy, Debug)]
pub struct CryptidAccount {
    address: Key,
    did_program: Key,
    did: Key,
    index: u32,
    bump: u8,
    state: IdentityAccountState,
    program: Key,
}

impl CryptidAccount {
    pub closed spec fn spec_address(&self) -> Key {
        self.address
    }

    pub closed spec fn spec_did(&self) -> Key {
        self.did
    }

    pub closed spec fn spec_state(&self) -> IdentityAccountState {
        self.state
    }

    /// The address is the one derived from the account's seeds.
    #[verifier::type_invariant]
    closed spec fn derived(&self) -> bool {
        identity_address(self.program, self.did_program, self.did, self.index, self.bump) == Some(self.address)
    }

    pub fn address(&self) -> (r: Key)
        ensures
            r == self.spec_address(),
    {
        self.address
    }

    pub fn did(&self) -> (r: Key)
        ensures
            r == self.spec_did(),
    {
        self.did
    }

    pub fn state(&self) -> (r: IdentityAccountState)
        ensures
            r == self.spec_state(),
    {
        self.state
    }

    /// Checks `account` against the address derived from the DID program,
    /// the DID, the index and the bump under `program`. An empty account
    /// owned by the system program is accepted as a generative identity; no
    /// stored state is read from any account. Where the seeds derive no
    /// address, the expected key reported is the system program's.
    pub fn try_from(
        account: &AccountState,
        program: &Key,
        did_program: &Key,
        did: &Key,
        index: u32,
        bump: u8,
    ) -> (r: Result<CryptidAccount, CryptidError>)
        ensures
            identity_address(*program, *did_program, *did, index, bump) == Some(account.key) ==> (r
                is Ok && r->Ok_0.spec_address() == account.key && r->Ok_0.spec_did() == *did
                && (r->Ok_0.spec_state() == IdentityAccountState::Generative <==> generative_spec(
                *account,
            ))),
            identity_address(*program, *did_program, *did, index, bump) != Some(account.key) ==> (r
                matches Err(CryptidError::InvalidAccount { account: a, expected: _ }) && a
                == account.key),
            ({
                let expected = identity_address(*program, *did_program, *did, index, bump);
                expected is Some && expected->Some_0 != account.key ==> r == Err::<
                    CryptidAccount,
                    CryptidError,
                >(CryptidError::InvalidAccount { account: account.key, expected: expected->Some_0 })
            }),
    {
        let seeds = identity_seed_vecs(did_program, did, index, bump);
        let expected = create_program_address(&seeds, program);
        match expected {
            Some(e) => {
                if e != account.key {
                    return Err(CryptidError::InvalidAccount { account: account.key, expected: e });
                }
            },
            None => {
                return Err(
                    CryptidError::InvalidAccount { account: account.key, expected: system_program_id() },
                );
            },
        }
        let state = if account.is_generative() {
            IdentityAccountState::Generative
        } else {
            IdentityAccountState::Persisted
        };
        Ok(CryptidAccount {
            address: account.key,
            did_program: *did_program,
            did: *did,
            index,
            bump,
            state,
            program: *program,
        })
    }
}

} // verus!
