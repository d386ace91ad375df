use vstd::prelude::*;
use crate::key::Key;
use crate::error::{CryptidError, TransactionState};
use crate::codec::{AbbreviatedInstructionData, AbbreviatedInstructionView};
use crate::accounts::{
    AllAccounts, EXECUTE_RESERVED_ACCOUNTS, ExecuteTransactionAccounts, ProposeTransaction,
    four_then_vec,
};
use crate::identity::{CryptidAccount, verify_keys};
use crate::codec::{bits_valid, find_position, instruction_size};
use crate::codec::{decode_instruction, meta_in_range};
use crate::execution::{
    Invocation, accounts_supplied, all_in_range, all_masks_valid, all_supplied, instruction_views, invocation_views,
    plan_instructions, plan_of, plannable,
};

verus! {

/// A proposed transaction, as stored.
#[derive(Clone, Debug)]
pub struct TransactionAccount {
    /// The DID that owns the identity account
    pub did: Key,
    /// The identity account that executes the transaction
    pub cryptid_account: Key,
    /// The participant accounts, counted from the first index after the
    /// reserved execution accounts
    pub accounts: Vec<Key>,
    /// The encoded sub-instructions
    pub instructions: Vec<AbbreviatedInstructionData>,
    /// The keys allowed to execute the transaction
    pub signers: Vec<Key>,
    /// The middleware that approved the transaction, if any
    pub approved_middleware: Option<Key>,
    /// Where the transaction stands in its lifecycle
    pub state: TransactionState,
}

pub struct TransactionView {
    pub did: Key,
    pub cryptid_account: Key,
    pub accounts: Seq<Key>,
    pub instructions: Seq<AbbreviatedInstructionView>,
    pub signers: Seq<Key>,
    pub approved_middleware: Option<Key>,
    pub state: TransactionState,
}

impl View for TransactionAccount {
    type V = TransactionView;

    open spec fn view(&self) -> TransactionView {
        TransactionView {
            did: self.did,
            cryptid_account: self.cryptid_account,
            accounts: self.accounts@,
            instructions: instruction_views(self.instructions@),
            signers: self.signers@,
            approved_middleware: self.approved_middleware,
            state: self.state,
        }
    }
}

/// Every index of every stored instruction falls in the execution index
/// space: the reserved accounts, then the stored participants.
pub open spec fn well_formed(t: TransactionView) -> bool {
    all_in_range(t.instructions, EXECUTE_RESERVED_ACCOUNTS as nat + t.accounts.len())
}

/// The execution index space of a well-formed record covers all its
/// indexes, whatever accounts the execution names: the offset between the
/// two index spaces is the reserved account count.
pub proof fn lemma_well_formed_in_range(t: TransactionView, ctx: ExecuteTransactionAccounts)
    requires
        well_formed(t),
    ensures
        execute_space(t, ctx).len() == EXECUTE_RESERVED_ACCOUNTS as nat + t.accounts.len(),
        all_in_range(t.instructions, execute_space(t, ctx).len()),
{
}

/// The record after a successful execution.
pub open spec fn executed(t: TransactionView) -> TransactionView {
    TransactionView { state: TransactionState::Executed, ..t }
}

/// The index space of a stored transaction at execution: the reserved
/// execution accounts, then the stored participants.
pub open spec fn execute_space(t: TransactionView, ctx: ExecuteTransactionAccounts) -> Seq<Key> {
    seq![ctx.cryptid_account, ctx.did, ctx.did_program, ctx.signer] + t.accounts
}

pub open spec fn middleware_ok(t: TransactionView, middleware: Option<Key>) -> bool {
    match t.approved_middleware {
        Some(m) => middleware == Some(m),
        None => true,
    }
}

/// The first check of an execution that fails, in the order they are made,
/// before any instruction is looked at: the signer's authority over
/// `ctx.did`, then the chain from that DID to the record (the validated
/// identity account belongs to the DID, the record to the DID and to the
/// identity account), then the record's state, signer set and middleware.
pub open spec fn execute_header_error(
    t: TransactionView,
    identity: CryptidAccount,
    ctx: ExecuteTransactionAccounts,
    authorized: bool,
    middleware: Option<Key>,
) -> Option<CryptidError> {
    if !authorized {
        Some(CryptidError::KeyMustBeSigner)
    } else if identity.spec_address() != ctx.cryptid_account || identity.spec_did() != ctx.did {
        Some(CryptidError::InvalidAccount { account: ctx.cryptid_account, expected: identity.spec_address() })
    } else if t.did != ctx.did {
        Some(CryptidError::InvalidAccount { account: ctx.did, expected: t.did })
    } else if t.cryptid_account != ctx.cryptid_account {
        Some(CryptidError::InvalidAccount { account: ctx.cryptid_account, expected: t.cryptid_account })
    } else if t.state != TransactionState::Ready {
        Some(CryptidError::InvalidTransactionState { expected: TransactionState::Ready, found: t.state })
    } else if !t.signers.contains(ctx.signer) {
        Some(CryptidError::KeyCannotChangeTransaction { key: ctx.signer })
    } else if !middleware_ok(t, middleware) {
        Some(CryptidError::IncorrectMiddleware)
    } else {
        None
    }
}

/// Everything an execution needs to succeed.
pub open spec fn execute_allowed(
    t: TransactionView,
    identity: CryptidAccount,
    ctx: ExecuteTransactionAccounts,
    authorized: bool,
    middleware: Option<Key>,
    record_lamports: u64,
    recipient_lamports: u64,
) -> bool {
    &&& execute_header_error(t, identity, ctx, authorized, middleware) is None
    &&& plannable(t.instructions, execute_space(t, ctx), ctx.account_list())
    &&& record_lamports + recipient_lamports <= u64::MAX
}

/// The record that a successful proposal stores.
pub open spec fn proposed(
    ctx: ProposeTransaction,
    signers: Seq<Key>,
    instructions: Seq<AbbreviatedInstructionView>,
) -> TransactionView {
    TransactionView {
        did: ctx.did,
        cryptid_account: ctx.cryptid_account,
        accounts: ctx.remaining_accounts@,
        instructions,
        signers,
        approved_middleware: None,
        state: TransactionState::Ready,
    }
}

/// Stages a transaction for later execution. Any caller may propose: no
/// authority is checked here, only at execution. Every index must fall in
/// the execution index space: the reserved accounts, then the trailing
/// accounts of `ctx`.
pub fn propose_transaction(
    ctx: &ProposeTransaction,
    identity: &CryptidAccount,
    signers: Vec<Key>,
    instructions: Vec<AbbreviatedInstructionData>,
) -> (r: Result<TransactionAccount, CryptidError>)
    ensures
        identity.spec_address() != ctx.cryptid_account || identity.spec_did() != ctx.did ==> r
            == Err::<TransactionAccount, CryptidError>(
            CryptidError::InvalidAccount {
                account: ctx.cryptid_account,
                expected: identity.spec_address(),
            },
        ),
        identity.spec_address() == ctx.cryptid_account && identity.spec_did() == ctx.did
            && !all_in_range(instruction_views(instructions@), ctx.account_list().len()) ==> r
            == Err::<TransactionAccount, CryptidError>(CryptidError::IndexOutOfRange),
        identity.spec_address() == ctx.cryptid_account && identity.spec_did() == ctx.did
            && all_in_range(instruction_views(instructions@), ctx.account_list().len()) ==> r is Ok
            && r->Ok_0@ == proposed(*ctx, signers@, instruction_views(instructions@)),
        r is Ok ==> well_formed(r->Ok_0@),
{
    let address = identity.address();
    if !(address == ctx.cryptid_account) || !(identity.did() == ctx.did) {
        return Err(CryptidError::InvalidAccount { account: ctx.cryptid_account, expected: address });
    }
    let all = ctx.all_accounts();
    let mut k: usize = 0;
    while k < instructions.len()
        invariant
            k <= instructions@.len(),
            all@ == ctx.account_list(),
            identity.spec_address() == ctx.cryptid_account,
            identity.spec_did() == ctx.did,
            forall|j: int| 0 <= j < k ==> crate::codec::indexes_in_range(
                #[trigger] instruction_views(instructions@)[j],
                all@.len(),
            ),
        decreases instructions@.len() - k,
    {
        if !instructions[k].indexes_below(all.len()) {
            assert(!crate::codec::indexes_in_range(instruction_views(instructions@)[k as int], all@.len()));
            return Err(CryptidError::IndexOutOfRange);
        }
        k = k + 1;
    }
    Ok(TransactionAccount {
        did: ctx.did,
        cryptid_account: ctx.cryptid_account,
        accounts: ctx.remaining_accounts.clone(),
        instructions,
        signers,
        approved_middleware: None,
        state: TransactionState::Ready,
    })
}

/// Records that `middleware` approved a transaction that is still ready.
pub fn approve_execution(record: &mut TransactionAccount, middleware: Key) -> (r: Result<(), CryptidError>)
    ensures
        old(record).state != TransactionState::Ready ==> r == Err::<(), CryptidError>(
            CryptidError::InvalidTransactionState {
                expected: TransactionState::Ready,
                found: old(record).state,
            },
        ) && final(record)@ == old(record)@,
        old(record).state == TransactionState::Ready ==> r is Ok && final(record)@ == (TransactionView {
            approved_middleware: Some(middleware),
            ..old(record)@
        }),
        well_formed(old(record)@) ==> well_formed(final(record)@),
{
    if record.state != TransactionState::Ready {
        return Err(
            CryptidError::InvalidTransactionState { expected: TransactionState::Ready, found: record.state },
        );
    }
    record.approved_middleware = Some(middleware);
    Ok(())
}

/// Once an execution succeeds, executing the record again never succeeds:
/// nothing is invoked or swept twice. For the same, still authorized signer
/// it fails on the record's state, before any instruction is looked at,
/// whatever the second call's middleware or balances.
pub proof fn lemma_execute_at_most_once(
    t: TransactionView,
    identity: CryptidAccount,
    ctx: ExecuteTransactionAccounts,
    authorized: bool,
    middleware: Option<Key>,
    record_lamports: u64,
    recipient_lamports: u64,
    authorized_again: bool,
    middleware_again: Option<Key>,
    record_lamports_again: u64,
    recipient_lamports_again: u64,
)
    requires
        execute_allowed(t, identity, ctx, authorized, middleware, record_lamports, recipient_lamports),
    ensures
        authorized_again ==> execute_header_error(executed(t), identity, ctx, authorized_again, middleware_again) == Some(
            CryptidError::InvalidTransactionState {
                expected: TransactionState::Ready,
                found: TransactionState::Executed,
            },
        ),
        !execute_allowed(
            executed(t),
            identity,
            ctx,
            authorized_again,
            middleware_again,
            record_lamports_again,
            recipient_lamports_again,
        ),
{
}

/// Executes a stored transaction for `ctx.signer`, given the DID service's
/// answer on whether the signer is an authority of `ctx.did`, and the
/// identity account validated against its derivation. Checks, in order: the
/// authority, that the identity account belongs to `ctx.did`, that the
/// record belongs to that DID and identity account, the state, the signer
/// set, the approving middleware, then every instruction against the
/// execution index space. On success the record is marked executed, its whole balance
/// moves to the recipient, and the sub-calls to make are returned in order;
/// on failure nothing changes.
pub fn execute_transaction<E>(
    record: &mut TransactionAccount,
    identity: &CryptidAccount,
    ctx: &ExecuteTransactionAccounts,
    signer_is_authority: Result<bool, E>,
    middleware: Option<Key>,
    record_lamports: &mut u64,
    recipient_lamports: &mut u64,
) -> (r: Result<Vec<Invocation>, CryptidError>)
    ensures
        ({
            let t = old(record)@;
            let authorized = signer_is_authority == Ok::<bool, E>(true);
            let header = execute_header_error(t, *identity, *ctx, authorized, middleware);
            let space = execute_space(t, *ctx);
            &&& r is Ok <==> execute_allowed(
                t,
                *identity,
                *ctx,
                authorized,
                middleware,
                *old(record_lamports),
                *old(recipient_lamports),
            )
            &&& header is Some ==> r == Err::<Vec<Invocation>, CryptidError>(header->Some_0)
            &&& header is None && !all_in_range(t.instructions, space.len()) ==> r == Err::<
                Vec<Invocation>,
                CryptidError,
            >(CryptidError::IndexOutOfRange)
            &&& header is None && all_in_range(t.instructions, space.len()) && !all_masks_valid(
                t.instructions,
            ) ==> (r matches Err(CryptidError::InvalidAccountMeta { meta }) && !bits_valid(meta))
            &&& header is None && all_in_range(t.instructions, space.len()) && all_masks_valid(
                t.instructions,
            ) && !all_supplied(t.instructions, space, ctx.account_list()) ==> (r matches Err(
                CryptidError::AccountNotSupplied { key },
            ) && !ctx.account_list().contains(key))
            &&& header is None && plannable(t.instructions, space, ctx.account_list()) && *old(
                record_lamports,
            ) + *old(recipient_lamports) > u64::MAX ==> r == Err::<Vec<Invocation>, CryptidError>(
                CryptidError::BalanceOverflow,
            )
            &&& r is Ok ==> {
                &&& invocation_views(r->Ok_0@) == plan_of(
                    t.instructions,
                    space,
                    ctx.account_list(),
                    t.cryptid_account,
                )
                &&& final(record)@ == executed(t)
                &&& *final(record_lamports) == 0
                &&& *final(recipient_lamports) == *old(recipient_lamports) + *old(record_lamports)
            }
            &&& r is Err ==> {
                &&& final(record)@ == t
                &&& *final(record_lamports) == *old(record_lamports)
                &&& *final(recipient_lamports) == *old(recipient_lamports)
            }
            &&& well_formed(t) ==> well_formed(final(record)@)
        }),
{
    if let Err(e) = verify_keys(signer_is_authority) {
        return Err(e);
    }
    let address = identity.address();
    if !(address == ctx.cryptid_account) || !(identity.did() == ctx.did) {
        return Err(CryptidError::InvalidAccount { account: ctx.cryptid_account, expected: address });
    }
    if !(record.did == ctx.did) {
        return Err(CryptidError::InvalidAccount { account: ctx.did, expected: record.did });
    }
    if !(record.cryptid_account == ctx.cryptid_account) {
        return Err(
            CryptidError::InvalidAccount { account: ctx.cryptid_account, expected: record.cryptid_account },
        );
    }
    if record.state != TransactionState::Ready {
        return Err(
            CryptidError::InvalidTransactionState { expected: TransactionState::Ready, found: record.state },
        );
    }
    if find_position(&record.signers, &ctx.signer).is_none() {
        return Err(CryptidError::KeyCannotChangeTransaction { key: ctx.signer });
    }
    match record.approved_middleware {
        Some(m) => {
            let routed = match middleware {
                Some(x) => x == m,
                None => false,
            };
            if !routed {
                return Err(CryptidError::IncorrectMiddleware);
            }
        },
        None => {},
    }
    let space = four_then_vec(ctx.cryptid_account, ctx.did, ctx.did_program, ctx.signer, &record.accounts);
    let supplied = ctx.all_accounts();
    let plan = match plan_instructions(&record.instructions, &space, &supplied, &record.cryptid_account) {
        Ok(p) => p,
        Err(e) => {
            return Err(e);
        },
    };
    let total = match record_lamports.checked_add(*recipient_lamports) {
        Some(t) => t,
        None => {
            return Err(CryptidError::BalanceOverflow);
        },
    };
    record.state = TransactionState::Executed;
    *recipient_lamports = total;
    *record_lamports = 0;
    Ok(plan)
}

/// Executes inline instructions at once, indexed against the accounts of
/// `ctx`, for a signer that the DID service reports as an authority.
pub fn direct_execute<E>(
    identity: &CryptidAccount,
    ctx: &ExecuteTransactionAccounts,
    instructions: &Vec<AbbreviatedInstructionData>,
    signer_is_authority: Result<bool, E>,
) -> (r: Result<Vec<Invocation>, CryptidError>)
    ensures
        ({
            let ixs = instruction_views(instructions@);
            let list = ctx.account_list();
            let identity_ok = identity.spec_address() == ctx.cryptid_account && identity.spec_did() == ctx.did;
            let authorized = signer_is_authority == Ok::<bool, E>(true);
            &&& r is Ok <==> identity_ok && authorized && plannable(ixs, list, list)
            &&& !identity_ok ==> r == Err::<Vec<Invocation>, CryptidError>(
                CryptidError::InvalidAccount {
                    account: ctx.cryptid_account,
                    expected: identity.spec_address(),
                },
            )
            &&& identity_ok && !authorized ==> r == Err::<Vec<Invocation>, CryptidError>(
                CryptidError::KeyMustBeSigner,
            )
            &&& identity_ok && authorized && !all_in_range(ixs, list.len()) ==> r == Err::<
                Vec<Invocation>,
                CryptidError,
            >(CryptidError::IndexOutOfRange)
            &&& r is Ok ==> invocation_views(r->Ok_0@) == plan_of(ixs, list, list, ctx.cryptid_account)
        }),
{
    let address = identity.address();
    if !(address == ctx.cryptid_account) || !(identity.did() == ctx.did) {
        return Err(CryptidError::InvalidAccount { account: ctx.cryptid_account, expected: address });
    }
    if let Err(e) = verify_keys(signer_is_authority) {
        return Err(e);
    }
    let list = ctx.all_accounts();
    plan_instructions(instructions, &list, &list, &ctx.cryptid_account)
}

/// A signer outside the record's signer set, or one that the DID service
/// does not confirm as an authority, never gets an execution through.
pub proof fn lemma_authority_gating(
    t: TransactionView,
    identity: CryptidAccount,
    ctx: ExecuteTransactionAccounts,
    authorized: bool,
    middleware: Option<Key>,
    record_lamports: u64,
    recipient_lamports: u64,
)
    requires
        !t.signers.contains(ctx.signer) || !authorized,
    ensures
        !execute_allowed(t, identity, ctx, authorized, middleware, record_lamports, recipient_lamports),
        !authorized ==> execute_header_error(t, identity, ctx, authorized, middleware) == Some(
            CryptidError::KeyMustBeSigner,
        ),
{
}

/// Stored size of the encoded instructions.
pub open spec fn instructions_size(ixs: Seq<AbbreviatedInstructionView>) -> nat
    decreases ixs.len(),
{
    if ixs.len() == 0 {
        0
    } else {
        instructions_size(ixs.drop_last()) + instruction_size(
            ixs.last().accounts.len(),
            ixs.last().data.len(),
        )
    }
}

/// Stored size of a record: tag, the two keys, the length-prefixed
/// participants, instructions and signers, the optional middleware and the
/// state.
pub open spec fn transaction_size(
    num_accounts: nat,
    num_signers: nat,
    ixs: Seq<AbbreviatedInstructionView>,
) -> nat {
    8 + 32 + 32 + (4 + 32 * num_accounts) + (4 + instructions_size(ixs)) + (4 + 32 * num_signers) + (1
        + 32) + 1
}

proof fn lemma_instructions_size_prefix(ixs: Seq<AbbreviatedInstructionView>, k: int)
    requires
        0 <= k <= ixs.len(),
    ensures
        instructions_size(ixs.subrange(0, k)) <= instructions_size(ixs),
    decreases ixs.len() - k,
{
    if k < ixs.len() {
        lemma_instructions_size_prefix(ixs, k + 1);
        assert(ixs.subrange(0, k + 1).drop_last() =~= ixs.subrange(0, k));
    } else {
        assert(ixs.subrange(0, k) =~= ixs);
    }
}

impl TransactionAccount {
    /// Exact stored size of a record with these counts and instructions, or
    /// `None` where it does not fit in a `usize`.
    pub fn calculate_size(
        num_accounts: usize,
        num_signers: usize,
        instructions: &Vec<AbbreviatedInstructionData>,
    ) -> (r: Option<usize>)
        ensures
            ({
                let size = transaction_size(
                    num_accounts as nat,
                    num_signers as nat,
                    instruction_views(instructions@),
                );
                &&& size <= usize::MAX ==> r == Some(size as usize)
                &&& size > usize::MAX ==> r is None
            }),
    {
        let ghost ixs = instruction_views(instructions@);
        let mut total: usize = 0;
        let mut k: usize = 0;
        while k < instructions.len()
            invariant
                k <= instructions@.len(),
                ixs == instruction_views(instructions@),
                total == instructions_size(ixs.subrange(0, k as int)),
            decreases instructions@.len() - k,
        {
            proof {
                assert(ixs.subrange(0, k as int + 1).drop_last() =~= ixs.subrange(0, k as int));
                lemma_instructions_size_prefix(ixs, k as int + 1);
            }
            let ix = &instructions[k];
            let n = ix.accounts.len();
            let d = ix.data.len();
            let size = match n.checked_mul(2) {
                Some(a) => match a.checked_add(9) {
                    Some(b) => b.checked_add(d),
                    None => None,
                },
                None => None,
            };
            let next = match size {
                Some(s) => total.checked_add(s),
                None => None,
            };
            match next {
                Some(t) => {
                    total = t;
                },
                None => {
                    return None;
                },
            }
            k = k + 1;
        }
        proof {
            assert(ixs.subrange(0, k as int) =~= ixs);
        }
        let accounts_part = match num_accounts.checked_mul(32) {
            Some(a) => a,
            None => {
                return None;
            },
        };
        let signers_part = match num_signers.checked_mul(32) {
            Some(a) => a,
            None => {
                return None;
            },
        };
        let fixed: usize = 8 + 32 + 32 + 4 + 4 + 4 + 1 + 32 + 1;
        let r = match fixed.checked_add(accounts_part) {
            Some(a) => match a.checked_add(total) {
                Some(b) => b.checked_add(signers_part),
                None => None,
            },
            None => None,
        };
        r
    }
}

/// A record that a proposal stored, executed with the same trailing
/// accounts the proposal named: every stored index resolves in the execution
/// index space, and every account a stored instruction names is among the
/// supplied ones. Once the header checks and the balances pass, execution
/// is allowed.
pub proof fn lemma_propose_then_execute(
    pctx: ProposeTransaction,
    signers: Seq<Key>,
    ixs: Seq<AbbreviatedInstructionView>,
    identity: CryptidAccount,
    ctx: ExecuteTransactionAccounts,
    authorized: bool,
    record_lamports: u64,
    recipient_lamports: u64,
)
    requires
        all_in_range(ixs, pctx.account_list().len()),
        all_masks_valid(ixs),
        ctx.execution_accounts@ == pctx.remaining_accounts@,
    ensures
        ({
            let t = proposed(pctx, signers, ixs);
            &&& plannable(t.instructions, execute_space(t, ctx), ctx.account_list())
            &&& execute_header_error(t, identity, ctx, authorized, None) is None
                && record_lamports + recipient_lamports <= u64::MAX ==> execute_allowed(
                t,
                identity,
                ctx,
                authorized,
                None,
                record_lamports,
                recipient_lamports,
            )
        }),
{
    let t = proposed(pctx, signers, ixs);
    let space = execute_space(t, ctx);
    let supplied = ctx.account_list();
    assert(space =~= supplied);
    assert forall|k: int| 0 <= k < ixs.len() implies accounts_supplied(
        decode_instruction(#[trigger] ixs[k], space),
        supplied,
    ) by {
        let e = ixs[k];
        let d = decode_instruction(e, space);
        assert forall|i: int| 0 <= i < d.accounts.len() implies supplied.contains(
            #[trigger] d.accounts[i].pubkey,
        ) by {
            assert(meta_in_range(e.accounts[i], space.len()));
            assert(supplied[e.accounts[i].key as int] == d.accounts[i].pubkey);
        }
    }
}

} // verus!
