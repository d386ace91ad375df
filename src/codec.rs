use vstd::prelude::*;
use crate::key::Key;
use crate::error::CryptidError;

verus! {

/// Mask bit of a signing account.
pub const IS_SIGNER: u8 = 1;

/// Mask bit of a writable account.
pub const IS_WRITABLE: u8 = 2;

/// Mask value of the signer and writable bits together.
pub const ALL_PROPS: u8 = 3;

/// Wire value of a permission pair.
pub open spec fn props_bits(is_signer: bool, is_writable: bool) -> u8 {
    ((if is_signer { 1int } else { 0int }) + (if is_writable { 2int } else { 0int })) as u8
}

/// Whether a mask holds only the signer and writable bits.
pub open spec fn bits_valid(meta: u8) -> bool {
    meta <= ALL_PROPS
}

pub open spec fn bits_signer(meta: u8) -> bool {
    meta % 2 == 1
}

pub open spec fn bits_writable(meta: u8) -> bool {
    (meta / 2) % 2 == 1
}

/// The permissions of an account reference: a closed two-bit set.
#[derive(Clone, Copy, Debug, PartialEq, Eq, Structural)]
pub struct AccountMetaProps {
    pub is_signer: bool,
    pub is_writable: bool,
}

impl AccountMetaProps {
    pub fn new(is_signer: bool, is_writable: bool) -> (r: Self)
        ensures
            r.is_signer == is_signer,
            r.is_writable == is_writable,
    {
        AccountMetaProps { is_signer, is_writable }
    }

    /// On-chain size of the mask.
    pub fn calculate_size() -> (r: usize)
        ensures
            r == 1,
    {
        1
    }

    pub fn bits(&self) -> (r: u8)
        ensures
            r == props_bits(self.is_signer, self.is_writable),
            bits_valid(r),
            bits_signer(r) == self.is_signer,
            bits_writable(r) == self.is_writable,
    {
        let mut r: u8 = 0;
        if self.is_signer {
            r = r + IS_SIGNER;
        }
        if self.is_writable {
            r = r + IS_WRITABLE;
        }
        r
    }

    /// Reads a mask; `None` where it holds a bit outside the set.
    pub fn from_bits(bits: u8) -> (r: Option<Self>)
        ensures
            bits_valid(bits) ==> r == Some(
                (AccountMetaProps { is_signer: bits_signer(bits), is_writable: bits_writable(bits) }),
            ),
            !bits_valid(bits) ==> r is None,
    {
        if bits > ALL_PROPS {
            None
        } else {
            Some(AccountMetaProps { is_signer: bits % 2 == 1, is_writable: (bits / 2) % 2 == 1 })
        }
    }
}

/// An account of a concrete instruction: its key and permissions.
#[derive(Clone, Copy, Debug, PartialEq, Eq)]
pub struct AccountMeta {
    pub pubkey: Key,
    pub is_signer: bool,
    pub is_writable: bool,
}

/// An account of an encoded instruction: an index into the participant
/// accounts and a permission mask.
#[derive(Clone, Copy, Debug, PartialEq, Eq, Structural)]
pub struct AbbreviatedAccountMeta {
    /// Index of the account
    pub key: u8,
    /// Permission mask
    pub meta: u8,
}

/// `i` is the first position of `k` in `accounts`.
pub open spec fn is_first_position(accounts: Seq<Key>, k: Key, i: int) -> bool {
    &&& 0 <= i < accounts.len()
    &&& accounts[i] == k
    &&& forall|j: int| 0 <= j < i ==> accounts[j] != k
}

/// The index under which `k` is encoded: its first position in `accounts`.
pub open spec fn key_index(accounts: Seq<Key>, k: Key) -> int {
    choose|i: int| is_first_position(accounts, k, i)
}

pub open spec fn encode_meta(m: AccountMeta, accounts: Seq<Key>) -> AbbreviatedAccountMeta {
    AbbreviatedAccountMeta {
        key: key_index(accounts, m.pubkey) as u8,
        meta: props_bits(m.is_signer, m.is_writable),
    }
}

pub open spec fn meta_in_range(a: AbbreviatedAccountMeta, n: nat) -> bool {
    (a.key as nat) < n
}

pub open spec fn decode_meta(a: AbbreviatedAccountMeta, accounts: Seq<Key>) -> AccountMeta {
    AccountMeta {
        pubkey: accounts[a.key as int],
        is_signer: bits_signer(a.meta),
        is_writable: bits_writable(a.meta),
    }
}

proof fn lemma_first_position_unique(accounts: Seq<Key>, k: Key, i: int, j: int)
    requires
        is_first_position(accounts, k, i),
        is_first_position(accounts, k, j),
    ensures
        i == j,
{
}

/// Once `k` is at position `i`, `key_index` is its first position.
proof fn lemma_key_index(accounts: Seq<Key>, k: Key, i: int)
    requires
        0 <= i < accounts.len(),
        accounts[i] == k,
    ensures
        is_first_position(accounts, k, key_index(accounts, k)),
        key_index(accounts, k) <= i,
    decreases i,
{
    if exists|j: int| 0 <= j < i && accounts[j] == k {
        let j = choose|j: int| 0 <= j < i && accounts[j] == k;
        lemma_key_index(accounts, k, j);
    } else {
        assert(is_first_position(accounts, k, i));
        let c = key_index(accounts, k);
        lemma_first_position_unique(accounts, k, i, c);
    }
}

/// The first position of `k` in `accounts`, if any.
pub(crate) fn find_position(accounts: &Vec<Key>, k: &Key) -> (r: Option<usize>)
    ensures
        r is Some <==> accounts@.contains(*k),
        r matches Some(i) ==> i as int == key_index(accounts@, *k) && is_first_position(
            accounts@,
            *k,
            i as int,
        ),
{
    let mut i: usize = 0;
    while i < accounts.len()
        invariant
            i <= accounts@.len(),
            forall|j: int| 0 <= j < i ==> accounts@[j] != *k,
        decreases accounts@.len() - i,
    {
        if accounts[i] == *k {
            proof {
                lemma_key_index(accounts@, *k, i as int);
                assert(is_first_position(accounts@, *k, i as int));
                lemma_first_position_unique(accounts@, *k, i as int, key_index(accounts@, *k));
            }
            return Some(i);
        }
        i = i + 1;
    }
    proof {
        if accounts@.contains(*k) {
            let j = choose|j: int| 0 <= j < accounts@.len() && accounts@[j] == *k;
            assert(accounts@[j] != *k);
        }
    }
    None
}

impl AbbreviatedAccountMeta {
    /// On-chain size of an encoded account reference.
    pub fn calculate_size() -> (r: usize)
        ensures
            r == 2,
    {
        1 + AccountMetaProps::calculate_size()
    }

    /// Encodes `meta` against the key-to-index table `accounts`, where each
    /// key stands for its first position.
    pub fn from_solana_account_meta(meta: AccountMeta, accounts: &Vec<Key>) -> (r: Result<
        Self,
        CryptidError,
    >)
        requires
            accounts@.len() <= 256,
        ensures
            accounts@.contains(meta.pubkey) ==> r == Ok::<Self, CryptidError>(
                encode_meta(meta, accounts@),
            ),
            !accounts@.contains(meta.pubkey) ==> r == Err::<Self, CryptidError>(
                CryptidError::UnknownAccount { key: meta.pubkey },
            ),
            r matches Ok(m) ==> is_first_position(accounts@, meta.pubkey, m.key as int),
    {
        match find_position(accounts, &meta.pubkey) {
            Some(i) => {
                let props = AccountMetaProps::new(meta.is_signer, meta.is_writable);
                Ok(AbbreviatedAccountMeta { key: i as u8, meta: props.bits() })
            },
            None => Err(CryptidError::UnknownAccount { key: meta.pubkey }),
        }
    }

    /// Decodes by position in `accounts`.
    pub fn into_solana_account_meta(self, accounts: &[Key]) -> (r: AccountMeta)
        requires
            meta_in_range(self, accounts@.len()),
            bits_valid(self.meta),
        ensures
            r == decode_meta(self, accounts@),
    {
        let props = AccountMetaProps::from_bits(self.meta);
        let props = props.unwrap();
        AccountMeta {
            pubkey: accounts[self.key as usize],
            is_signer: props.is_signer,
            is_writable: props.is_writable,
        }
    }
}

/// A concrete instruction: target program, accounts and payload.
#[derive(Clone, Debug)]
pub struct Instruction {
    pub program_id: Key,
    pub accounts: Vec<AccountMeta>,
    pub data: Vec<u8>,
}

pub struct InstructionView {
    pub program_id: Key,
    pub accounts: Seq<AccountMeta>,
    pub data: Seq<u8>,
}

impl View for Instruction {
    type V = InstructionView;

    open spec fn view(&self) -> InstructionView {
        InstructionView { program_id: self.program_id, accounts: self.accounts@, data: self.data@ }
    }
}

/// An encoded instruction: every key is an index into the participant accounts.
#[derive(Clone, Debug)]
pub struct AbbreviatedInstructionData {
    /// Index of the program to call
    pub program_id: u8,
    /// The accounts of the call
    pub accounts: Vec<AbbreviatedAccountMeta>,
    /// The payload of the call
    pub data: Vec<u8>,
}

pub struct AbbreviatedInstructionView {
    pub program_id: u8,
    pub accounts: Seq<AbbreviatedAccountMeta>,
    pub data: Seq<u8>,
}

impl View for AbbreviatedInstructionData {
    type V = AbbreviatedInstructionView;

    open spec fn view(&self) -> AbbreviatedInstructionView {
        AbbreviatedInstructionView {
            program_id: self.program_id,
            accounts: self.accounts@,
            data: self.data@,
        }
    }
}

/// Every key of `ix` is in `accounts`.
pub open spec fn keys_known(ix: InstructionView, accounts: Seq<Key>) -> bool {
    &&& accounts.contains(ix.program_id)
    &&& forall|i: int| 0 <= i < ix.accounts.len() ==> accounts.contains(#[trigger] ix.accounts[i].pubkey)
}

pub open spec fn encode_instruction(ix: InstructionView, accounts: Seq<Key>) -> AbbreviatedInstructionView {
    AbbreviatedInstructionView {
        program_id: key_index(accounts, ix.program_id) as u8,
        accounts: ix.accounts.map_values(|m: AccountMeta| encode_meta(m, accounts)),
        data: ix.data,
    }
}

/// Every index of `e` is below `n`.
pub open spec fn indexes_in_range(e: AbbreviatedInstructionView, n: nat) -> bool {
    &&& (e.program_id as nat) < n
    &&& forall|i: int| 0 <= i < e.accounts.len() ==> meta_in_range(#[trigger] e.accounts[i], n)
}

/// Every mask of `e` is within the permission set.
pub open spec fn masks_valid(e: AbbreviatedInstructionView) -> bool {
    forall|i: int| 0 <= i < e.accounts.len() ==> bits_valid(#[trigger] e.accounts[i].meta)
}

pub open spec fn decodable(e: AbbreviatedInstructionView, n: nat) -> bool {
    indexes_in_range(e, n) && masks_valid(e)
}

pub open spec fn decode_instruction(e: AbbreviatedInstructionView, accounts: Seq<Key>) -> InstructionView {
    InstructionView {
        program_id: accounts[e.program_id as int],
        accounts: e.accounts.map_values(|a: AbbreviatedAccountMeta| decode_meta(a, accounts)),
        data: e.data,
    }
}

/// On-chain size of an encoded instruction with `num_accounts` accounts and
/// `data_len` payload bytes: index, two length prefixes, the references and
/// the payload.
pub open spec fn instruction_size(num_accounts: nat, data_len: nat) -> nat {
    1 + 4 + 2 * num_accounts + 4 + data_len
}

/// Decoding an encoding gives back the instruction, accounts and
/// permissions included, whenever every key of the instruction is in the
/// key-to-index table.
pub proof fn lemma_round_trip(ix: InstructionView, accounts: Seq<Key>)
    requires
        accounts.len() <= 256,
        keys_known(ix, accounts),
    ensures
        decodable(encode_instruction(ix, accounts), accounts.len()),
        decode_instruction(encode_instruction(ix, accounts), accounts) == ix,
{
    let e = encode_instruction(ix, accounts);
    let p = choose|p: int| 0 <= p < accounts.len() && accounts[p] == ix.program_id;
    lemma_key_index(accounts, ix.program_id, p);
    assert forall|i: int| 0 <= i < ix.accounts.len() implies {
        &&& meta_in_range(#[trigger] e.accounts[i], accounts.len())
        &&& bits_valid(e.accounts[i].meta)
        &&& decode_meta(e.accounts[i], accounts) == ix.accounts[i]
    } by {
        let m = ix.accounts[i];
        assert(accounts.contains(m.pubkey));
        let q = choose|q: int| 0 <= q < accounts.len() && accounts[q] == m.pubkey;
        lemma_key_index(accounts, m.pubkey, q);
    }
    let d = decode_instruction(e, accounts);
    assert(d.accounts =~= ix.accounts);
}

impl AbbreviatedInstructionData {
    /// On-chain size of an encoded instruction, known from its counts alone.
    pub fn calculate_size(num_accounts: usize, data_len: usize) -> (r: usize)
        requires
            instruction_size(num_accounts as nat, data_len as nat) <= usize::MAX,
        ensures
            r == instruction_size(num_accounts as nat, data_len as nat),
    {
        1 + 4 + AbbreviatedAccountMeta::calculate_size() * num_accounts + 4 + data_len
    }

    /// Whether every index of this instruction is below `n`.
    pub fn indexes_below(&self, n: usize) -> (r: bool)
        ensures
            r == indexes_in_range(self@, n as nat),
    {
        if self.program_id as usize >= n {
            return false;
        }
        let mut i: usize = 0;
        while i < self.accounts.len()
            invariant
                i <= self.accounts@.len(),
                forall|j: int| 0 <= j < i ==> meta_in_range(#[trigger] self.accounts@[j], n as nat),
            decreases self.accounts@.len() - i,
        {
            if self.accounts[i].key as usize >= n {
                assert(!meta_in_range(self@.accounts[i as int], n as nat));
                return false;
            }
            i = i + 1;
        }
        true
    }

    /// On-chain size of this instruction.
    pub fn size(&self) -> (r: usize)
        requires
            instruction_size(self.accounts@.len(), self.data@.len()) <= usize::MAX,
        ensures
            r == instruction_size(self.accounts@.len(), self.data@.len()),
    {
        Self::calculate_size(self.accounts.len(), self.data.len())
    }

    /// Encodes `ix` against the key-to-index table `accounts`, where each key
    /// stands for its first position.
    pub fn from_instruction(ix: &Instruction, accounts: &Vec<Key>) -> (r: Result<Self, CryptidError>)
        requires
            accounts@.len() <= 256,
        ensures
            keys_known(ix@, accounts@) ==> r is Ok && r->Ok_0@ == encode_instruction(ix@, accounts@),
            !keys_known(ix@, accounts@) ==> (r matches Err(CryptidError::UnknownAccount { key }) && !accounts@.contains(key)),
    {
        let program_id = match find_position(accounts, &ix.program_id) {
            Some(p) => p as u8,
            None => {
                return Err(CryptidError::UnknownAccount { key: ix.program_id });
            },
        };
        let mut metas: Vec<AbbreviatedAccountMeta> = Vec::new();
        let mut i: usize = 0;
        while i < ix.accounts.len()
            invariant
                accounts@.len() <= 256,
                i <= ix.accounts@.len(),
                accounts@.contains(ix.program_id),
                program_id == key_index(accounts@, ix.program_id) as u8,
                metas@.len() == i,
                forall|j: int| 0 <= j < i ==> accounts@.contains(#[trigger] ix.accounts@[j].pubkey),
                forall|j: int| 0 <= j < i ==> #[trigger] metas@[j] == encode_meta(ix.accounts@[j], accounts@),
            decreases ix.accounts@.len() - i,
        {
            let m = ix.accounts[i];
            match AbbreviatedAccountMeta::from_solana_account_meta(m, accounts) {
                Ok(a) => metas.push(a),
                Err(e) => {
                    assert(!accounts@.contains(ix@.accounts[i as int].pubkey));
                    return Err(e);
                },
            }
            i = i + 1;
        }
        let r = AbbreviatedInstructionData { program_id, accounts: metas, data: ix.data.clone() };
        assert(r@.accounts =~= ix@.accounts.map_values(|m: AccountMeta| encode_meta(m, accounts@)));
        Ok(r)
    }

    /// Decodes by position in `accounts`: fails on an index past its end,
    /// then on a mask outside the permission set.
    pub fn into_instruction(&self, accounts: &Vec<Key>) -> (r: Result<Instruction, CryptidError>)
        ensures
            !indexes_in_range(self@, accounts@.len()) ==> r == Err::<Instruction, CryptidError>(
                CryptidError::IndexOutOfRange,
            ),
            indexes_in_range(self@, accounts@.len()) && !masks_valid(self@) ==> (r matches Err(
                CryptidError::InvalidAccountMeta { meta },
            ) && !bits_valid(meta)),
            decodable(self@, accounts@.len()) ==> r is Ok && r->Ok_0@ == decode_instruction(
                self@,
                accounts@,
            ),
    {
        if self.program_id as usize >= accounts.len() {
            return Err(CryptidError::IndexOutOfRange);
        }
        let mut i: usize = 0;
        while i < self.accounts.len()
            invariant
                i <= self.accounts@.len(),
                forall|j: int| 0 <= j < i ==> meta_in_range(#[trigger] self.accounts@[j], accounts@.len()),
            decreases self.accounts@.len() - i,
        {
            if self.accounts[i].key as usize >= accounts.len() {
                return Err(CryptidError::IndexOutOfRange);
            }
            i = i + 1;
        }
        let mut metas: Vec<AccountMeta> = Vec::new();
        let mut i: usize = 0;
        while i < self.accounts.len()
            invariant
                i <= self.accounts@.len(),
                indexes_in_range(self@, accounts@.len()),
                metas@.len() == i,
                forall|j: int| 0 <= j < i ==> bits_valid(#[trigger] self.accounts@[j].meta),
                forall|j: int| 0 <= j < i ==> #[trigger] metas@[j] == decode_meta(self.accounts@[j], accounts@),
            decreases self.accounts@.len() - i,
        {
            let a = self.accounts[i];
            if a.meta > ALL_PROPS {
                assert(!bits_valid(self@.accounts[i as int].meta));
                return Err(CryptidError::InvalidAccountMeta { meta: a.meta });
            }
            assert(meta_in_range(self@.accounts[i as int], accounts@.len()));
            metas.push(a.into_solana_account_meta(accounts.as_slice()));
            i = i + 1;
        }
        let r = Instruction {
            program_id: accounts[self.program_id as usize],
            accounts: metas,
            data: self.data.clone(),
        };
        assert(r@.accounts =~= self@.accounts.map_values(|a: AbbreviatedAccountMeta| decode_meta(a, accounts@)));
        Ok(r)
    }
}

} // verus!
