//! The allowance record and the six operations of its lifecycle.
//!
//! Each operation is one atomic unit of work: it checks the participants,
//! updates the record, and returns the ledger instruction (if any) that the
//! surrounding runtime must carry out against the token ledger. The runtime
//! commits the record and the ledger effect together or not at all; on an
//! `Err` nothing is applied.

use vstd::prelude::*;

verus! {

use crate::addr::Address;

/// The two ways an operation refuses to act.
#[derive(Clone, Copy, Debug, PartialEq, Eq, Structural)]
pub enum ErrorCode {
    /// An expected and an actual participant address differ: wrong signer,
    /// wrong holding, wrong delegate, or a stale owner.
    InvalidAccount,
    /// A transfer asks for more than the remaining allowance.
    AllowanceExceeded,
}

/// The persisted allowance record: what `delegate` may still spend from
/// `token_account` on `owner`'s behalf. At most one record exists per
/// (token_account, delegate) pair; its storage address is derived from
/// that pair.
#[derive(Clone, Copy, Debug, PartialEq, Eq, Structural)]
pub struct DelegateAllowance {
    /// Last known owner of the token holding; reconciled on demand by
    /// `delegate_update_owner` when the holding's true owner changes
    /// outside this system.
    pub owner: Address,
    /// The token holding this allowance applies to.
    pub token_account: Address,
    /// The party permitted to spend up to `amount` from `token_account`.
    pub delegate: Address,
    /// Remaining spendable balance under this allowance.
    pub amount: u64,
}

/// The all-zero record that freshly allocated storage hands out.
pub open spec fn zeroed_record() -> DelegateAllowance {
    DelegateAllowance {
        owner: Address { w0: 0, w1: 0, w2: 0, w3: 0 },
        token_account: Address { w0: 0, w1: 0, w2: 0, w3: 0 },
        delegate: Address { w0: 0, w1: 0, w2: 0, w3: 0 },
        amount: 0,
    }
}

impl Default for DelegateAllowance {
    /// A zeroed record, as freshly allocated storage hands it out.
    fn default() -> (r: DelegateAllowance)
        ensures
            r == zeroed_record(),
    {
        DelegateAllowance {
            owner: Address { w0: 0, w1: 0, w2: 0, w3: 0 },
            token_account: Address { w0: 0, w1: 0, w2: 0, w3: 0 },
            delegate: Address { w0: 0, w1: 0, w2: 0, w3: 0 },
            amount: 0,
        }
    }
}

/// What the core reads of a token holding on the ledger: its address and
/// the owner the ledger currently records for it.
#[derive(Clone, Copy, Debug, PartialEq, Eq, Structural)]
pub struct TokenHolding {
    pub address: Address,
    pub owner: Address,
}

/// An approval the runtime must place with the token ledger: `authority`
/// (the holding's owner) approves `delegate` to spend up to `amount`
/// from `token_account`.
#[derive(Clone, Copy, Debug, PartialEq, Eq, Structural)]
pub struct ApproveAction {
    pub token_account: Address,
    pub delegate: Address,
    pub authority: Address,
    pub amount: u64,
}

/// A movement the runtime must place with the token ledger: `amount`
/// tokens from `from` to `to`, signed for by `authority` (the root
/// authority, whose derivation proof the runtime supplies).
#[derive(Clone, Copy, Debug, PartialEq, Eq, Structural)]
pub struct TransferAction {
    pub from: Address,
    pub to: Address,
    pub authority: Address,
    pub amount: u64,
}

/// Participants of `delegate_link`. `owner` must have signed.
#[derive(Clone, Copy, Debug, PartialEq, Eq, Structural)]
pub struct DelegateLink {
    pub owner: Address,
    pub delegate_root: Address,
    pub token_account: TokenHolding,
}

/// Participants of `delegate_approve`. `owner` and `allowance_payer`
/// must have signed; the payer funds the record's storage and may differ
/// from the owner.
#[derive(Clone, Copy, Debug, PartialEq, Eq, Structural)]
pub struct DelegateApprove {
    pub allowance_payer: Address,
    pub owner: Address,
    pub delegate: Address,
    pub delegate_root: Address,
    pub token_account: TokenHolding,
}

/// Participants of `delegate_transfer`. `delegate` must have signed.
#[derive(Clone, Copy, Debug, PartialEq, Eq, Structural)]
pub struct DelegateTransfer {
    pub delegate: Address,
    pub delegate_root: Address,
    pub from: TokenHolding,
    pub to: TokenHolding,
}

/// Participants of `delegate_update_allowance`. `owner` must have signed.
#[derive(Clone, Copy, Debug, PartialEq, Eq, Structural)]
pub struct DelegateUpdateAmount {
    pub owner: Address,
}

/// Participants of `delegate_update_owner`. `current_owner` must have
/// signed; `new_owner` need not.
#[derive(Clone, Copy, Debug, PartialEq, Eq, Structural)]
pub struct DelegateUpdateOwner {
    pub token_account: TokenHolding,
    pub current_owner: Address,
    pub new_owner: Address,
}

/// Participants of `delegate_close`. `owner` must have signed; the
/// record's storage deposit goes to `fee_recipient`.
#[derive(Clone, Copy, Debug, PartialEq, Eq, Structural)]
pub struct DelegateClose {
    pub owner: Address,
    pub fee_recipient: Address,
}

/// `Ok(())` when the two addresses agree, `InvalidAccount` otherwise.
/// The caller at the edge reports the expected and received addresses.
pub fn verify_matching_accounts(left: &Address, right: &Address) -> (r: Result<(), ErrorCode>)
    ensures
        *left == *right ==> r == Ok::<(), ErrorCode>(()),
        *left != *right ==> r == Err::<(), ErrorCode>(ErrorCode::InvalidAccount),
{
    if *left != *right {
        return Err(ErrorCode::InvalidAccount);
    }
    Ok(())
}

/// Grant the root authority spending approval over the holding, for
/// `inp_amount`, via the token ledger's approve primitive. No record is
/// read or written; the returned instruction is the whole effect, and any
/// refusal (for one, a caller that does not own the holding) is the
/// ledger's to make and the runtime's to propagate.
pub fn delegate_link(ctx: &DelegateLink, inp_amount: u64) -> (r: ApproveAction)
    ensures
        r == (ApproveAction {
            token_account: ctx.token_account.address,
            delegate: ctx.delegate_root,
            authority: ctx.owner,
            amount: inp_amount,
        }),
{
    ApproveAction {
        token_account: ctx.token_account.address,
        delegate: ctx.delegate_root,
        authority: ctx.owner,
        amount: inp_amount,
    }
}

/// Whether `delegate_approve` accepts: the signing owner must be the
/// holding's recorded owner.
pub open spec fn approve_allowed(ctx: DelegateApprove) -> bool {
    ctx.token_account.owner == ctx.owner
}

/// The record after `delegate_approve`: overwritten whole on success
/// (an upsert — a second approval of the same pair wins outright),
/// untouched on refusal.
pub open spec fn approve_next(a: DelegateAllowance, ctx: DelegateApprove, amount: u64) -> DelegateAllowance {
    if approve_allowed(ctx) {
        DelegateAllowance {
            owner: ctx.owner,
            token_account: ctx.token_account.address,
            delegate: ctx.delegate,
            amount,
        }
    } else {
        a
    }
}

/// Create or overwrite the allowance record for
/// (`ctx.token_account`, `ctx.delegate`). `allowance` is the record at the
/// pair's derived address: the existing record, or a zeroed one that fresh
/// storage hands out. With `inp_link_token` set the operation also returns
/// the root-authority link approval of `delegate_link`, for
/// `inp_link_amount`, which the runtime places with the ledger in the same
/// unit of work.
pub fn delegate_approve(
    ctx: &DelegateApprove,
    allowance: &mut DelegateAllowance,
    inp_link_token: bool,
    inp_link_amount: u64,
    inp_allowance_amount: u64,
) -> (r: Result<Option<ApproveAction>, ErrorCode>)
    ensures
        *final(allowance) == approve_next(*old(allowance), *ctx, inp_allowance_amount),
        approve_allowed(*ctx) && inp_link_token ==> r == Ok::<_, ErrorCode>(
            Some(ApproveAction {
                token_account: ctx.token_account.address,
                delegate: ctx.delegate_root,
                authority: ctx.owner,
                amount: inp_link_amount,
            }),
        ),
        approve_allowed(*ctx) && !inp_link_token ==> r == Ok::<_, ErrorCode>(None::<ApproveAction>),
        !approve_allowed(*ctx) ==> r == Err::<Option<ApproveAction>, _>(ErrorCode::InvalidAccount),
{
    let link = if inp_link_token {
        Some(ApproveAction {
            token_account: ctx.token_account.address,
            delegate: ctx.delegate_root,
            authority: ctx.owner,
            amount: inp_link_amount,
        })
    } else {
        None
    };
    verify_matching_accounts(&ctx.token_account.owner, &ctx.owner)?;
    allowance.owner = ctx.owner;
    allowance.token_account = ctx.token_account.address;
    allowance.delegate = ctx.delegate;
    allowance.amount = inp_allowance_amount;
    Ok(link)
}

/// Whether the transfer's participants check out: the record must be for
/// the source holding, and the signer must be the record's delegate.
pub open spec fn transfer_checks_ok(a: DelegateAllowance, ctx: DelegateTransfer) -> bool {
    a.token_account == ctx.from.address && a.delegate == ctx.delegate
}

/// Whether a transfer of `req` goes through: participants check out and
/// `req` fits in the remaining allowance (`req == 0` trivially fits).
pub open spec fn transfer_granted(a: DelegateAllowance, ctx: DelegateTransfer, req: u64) -> bool {
    transfer_checks_ok(a, ctx) && req <= a.amount
}

/// The record after a transfer request of `req`: decremented by exactly
/// `req` when granted, byte-for-byte unchanged otherwise.
pub open spec fn transfer_next(a: DelegateAllowance, ctx: DelegateTransfer, req: u64) -> DelegateAllowance {
    if transfer_granted(a, ctx, req) {
        DelegateAllowance {
            owner: a.owner,
            token_account: a.token_account,
            delegate: a.delegate,
            amount: (a.amount - req) as u64,
        }
    } else {
        a
    }
}

/// What a transfer request of `req` moves on the ledger: `req` when
/// granted, nothing otherwise.
pub open spec fn transfer_moved(a: DelegateAllowance, ctx: DelegateTransfer, req: u64) -> nat {
    if transfer_granted(a, ctx, req) {
        req as nat
    } else {
        0
    }
}

/// The delegate spends `inp_amount` of the remaining allowance.
///
/// A request of 0 succeeds with no ledger effect; one above the remaining
/// amount fails whole with `AllowanceExceeded`, no partial spend. On
/// success the decrement is committed before the runtime places the
/// returned movement with the ledger (never spend-then-decrement), so a
/// failing external call can only under-grant, never leave the allowance
/// overstated.
pub fn delegate_transfer(
    ctx: &DelegateTransfer,
    allowance: &mut DelegateAllowance,
    inp_amount: u64,
) -> (r: Result<Option<TransferAction>, ErrorCode>)
    ensures
        *final(allowance) == transfer_next(*old(allowance), *ctx, inp_amount),
        transfer_moved(*old(allowance), *ctx, inp_amount) == (match r {
            Ok(Some(t)) => t.amount as nat,
            Ok(None) => 0nat,
            Err(_) => 0nat,
        }),
        !transfer_checks_ok(*old(allowance), *ctx) ==> r == Err::<Option<TransferAction>, _>(
            ErrorCode::InvalidAccount,
        ),
        transfer_checks_ok(*old(allowance), *ctx) && inp_amount == 0 ==> r == Ok::<_, ErrorCode>(
            None::<TransferAction>,
        ),
        transfer_checks_ok(*old(allowance), *ctx) && 0 < inp_amount <= old(allowance).amount
            ==> r == Ok::<_, ErrorCode>(
            Some(TransferAction {
                from: ctx.from.address,
                to: ctx.to.address,
                authority: ctx.delegate_root,
                amount: inp_amount,
            }),
        ),
        transfer_checks_ok(*old(allowance), *ctx) && inp_amount > old(allowance).amount ==> r
            == Err::<Option<TransferAction>, _>(ErrorCode::AllowanceExceeded),
{
    verify_matching_accounts(&allowance.token_account, &ctx.from.address)?;
    verify_matching_accounts(&allowance.delegate, &ctx.delegate)?;
    if inp_amount > 0 {
        let diff = allowance.amount.checked_sub(inp_amount);
        match diff {
            Some(rest) => {
                allowance.amount = rest;
                Ok(Some(TransferAction {
                    from: ctx.from.address,
                    to: ctx.to.address,
                    authority: ctx.delegate_root,
                    amount: inp_amount,
                }))
            },
            None => Err(ErrorCode::AllowanceExceeded),
        }
    } else {
        Ok(None)
    }
}

/// The record after `delegate_update_allowance`: `amount` reset to the
/// given value when the signer is the record's owner, untouched otherwise.
pub open spec fn update_allowance_next(
    a: DelegateAllowance,
    ctx: DelegateUpdateAmount,
    amount: u64,
) -> DelegateAllowance {
    if a.owner == ctx.owner {
        DelegateAllowance { owner: a.owner, token_account: a.token_account, delegate: a.delegate, amount }
    } else {
        a
    }
}

/// The owner resets the remaining allowance to an arbitrary new value,
/// the one path that may raise it. No ledger interaction.
pub fn delegate_update_allowance(
    ctx: &DelegateUpdateAmount,
    allowance: &mut DelegateAllowance,
    inp_amount: u64,
) -> (r: Result<(), ErrorCode>)
    ensures
        *final(allowance) == update_allowance_next(*old(allowance), *ctx, inp_amount),
        old(allowance).owner == ctx.owner ==> r == Ok::<(), ErrorCode>(()),
        old(allowance).owner != ctx.owner ==> r == Err::<(), ErrorCode>(ErrorCode::InvalidAccount),
{
    verify_matching_accounts(&allowance.owner, &ctx.owner)?;
    allowance.amount = inp_amount;
    Ok(())
}

/// Whether `delegate_update_owner` accepts: the record must be for the
/// given holding, the signer must be the record's current owner, and the
/// holding's actual owner must already be the proposed new owner — the
/// operation confirms an ownership change that has happened at the ledger,
/// it cannot itself transfer ownership.
pub open spec fn update_owner_allowed(a: DelegateAllowance, ctx: DelegateUpdateOwner) -> bool {
    &&& a.token_account == ctx.token_account.address
    &&& a.owner == ctx.current_owner
    &&& ctx.token_account.owner == ctx.new_owner
}

/// The record after `delegate_update_owner`: `owner` reconciled to the
/// new owner when allowed, untouched otherwise.
pub open spec fn update_owner_next(a: DelegateAllowance, ctx: DelegateUpdateOwner) -> DelegateAllowance {
    if update_owner_allowed(a, ctx) {
        DelegateAllowance {
            owner: ctx.new_owner,
            token_account: a.token_account,
            delegate: a.delegate,
            amount: a.amount,
        }
    } else {
        a
    }
}

/// Reconcile the record's cached owner after the holding's true owner
/// changed through a path outside this system.
pub fn delegate_update_owner(
    ctx: &DelegateUpdateOwner,
    allowance: &mut DelegateAllowance,
) -> (r: Result<(), ErrorCode>)
    ensures
        *final(allowance) == update_owner_next(*old(allowance), *ctx),
        update_owner_allowed(*old(allowance), *ctx) ==> r == Ok::<(), ErrorCode>(()),
        !update_owner_allowed(*old(allowance), *ctx) ==> r == Err::<(), ErrorCode>(
            ErrorCode::InvalidAccount,
        ),
{
    verify_matching_accounts(&allowance.token_account, &ctx.token_account.address)?;
    verify_matching_accounts(&allowance.owner, &ctx.current_owner)?;
    verify_matching_accounts(&ctx.token_account.owner, &ctx.new_owner)?;
    allowance.owner = ctx.new_owner;
    Ok(())
}

/// Destroy the record and name where its storage deposit goes.
///
/// On `Ok` the runtime deletes the record at the pair's derived address —
/// freeing the address for a later `delegate_approve`, which then starts
/// from a zeroed record — and pays the deposit to the returned recipient.
/// On `Err` nothing is touched.
pub fn delegate_close(ctx: &DelegateClose, allowance: &DelegateAllowance) -> (r: Result<
    Address,
    ErrorCode,
>)
    ensures
        allowance.owner == ctx.owner ==> r == Ok::<Address, ErrorCode>(ctx.fee_recipient),
        allowance.owner != ctx.owner ==> r == Err::<Address, ErrorCode>(ErrorCode::InvalidAccount),
{
    verify_matching_accounts(&allowance.owner, &ctx.owner)?;
    Ok(ctx.fee_recipient)
}

} // verus!
