//! What holds of the allowance lifecycle across calls: conservation of the
//! recorded amount under transfers, and the upsert behaviour of approval.

use vstd::prelude::*;

verus! {

use crate::allowance::approve_allowed;
use crate::allowance::approve_next;
use crate::allowance::transfer_checks_ok;
use crate::allowance::transfer_granted;
use crate::allowance::transfer_moved;
use crate::allowance::transfer_next;
use crate::allowance::zeroed_record;
use crate::allowance::DelegateAllowance;
use crate::allowance::DelegateApprove;
use crate::allowance::DelegateTransfer;

/// The record after a sequence of transfer requests, applied in order.
pub open spec fn run_transfers(
    a: DelegateAllowance,
    ctx: DelegateTransfer,
    reqs: Seq<u64>,
) -> DelegateAllowance
    decreases reqs.len(),
{
    if reqs.len() == 0 {
        a
    } else {
        run_transfers(transfer_next(a, ctx, reqs[0]), ctx, reqs.drop_first())
    }
}

/// What a sequence of transfer requests moves on the ledger in total:
/// the sum of the granted requests, each counted at the record state it
/// met.
pub open spec fn total_moved(a: DelegateAllowance, ctx: DelegateTransfer, reqs: Seq<u64>) -> nat
    decreases reqs.len(),
{
    if reqs.len() == 0 {
        0
    } else {
        transfer_moved(a, ctx, reqs[0]) + total_moved(
            transfer_next(a, ctx, reqs[0]),
            ctx,
            reqs.drop_first(),
        )
    }
}

/// Transfers conserve value: what a sequence of requests moved plus what
/// remains recorded is exactly what the record started with, and no
/// transfer touches the record's identity fields.
pub proof fn lemma_transfers_conserve(
    a: DelegateAllowance,
    ctx: DelegateTransfer,
    reqs: Seq<u64>,
)
    ensures
        total_moved(a, ctx, reqs) + run_transfers(a, ctx, reqs).amount == a.amount,
        run_transfers(a, ctx, reqs).owner == a.owner,
        run_transfers(a, ctx, reqs).token_account == a.token_account,
        run_transfers(a, ctx, reqs).delegate == a.delegate,
    decreases reqs.len(),
{
    if reqs.len() > 0 {
        lemma_transfers_conserve(transfer_next(a, ctx, reqs[0]), ctx, reqs.drop_first());
    }
}

/// No double spend: against a single allowance, the sum of successfully
/// transferred amounts never exceeds the amount recorded at the start of
/// the sequence.
pub proof fn lemma_no_double_spend(a: DelegateAllowance, ctx: DelegateTransfer, reqs: Seq<u64>)
    ensures
        total_moved(a, ctx, reqs) <= a.amount,
{
    lemma_transfers_conserve(a, ctx, reqs);
}

/// Spending exactly the remaining amount is granted and drains the record
/// to 0; after that, any positive request against the same record is
/// refused.
pub proof fn lemma_exact_spend_then_deny(
    a: DelegateAllowance,
    ctx: DelegateTransfer,
    later: u64,
)
    requires
        transfer_checks_ok(a, ctx),
        later > 0,
    ensures
        transfer_granted(a, ctx, a.amount),
        transfer_next(a, ctx, a.amount).amount == 0,
        !transfer_granted(transfer_next(a, ctx, a.amount), ctx, later),
{
}

/// Approval is an upsert: of two approvals against the same record slot,
/// an accepted second one wins outright — the slot ends as if the first
/// had never happened.
pub proof fn lemma_approve_overwrites(
    a: DelegateAllowance,
    ctx1: DelegateApprove,
    amt1: u64,
    ctx2: DelegateApprove,
    amt2: u64,
)
    requires
        approve_allowed(ctx2),
    ensures
        approve_next(approve_next(a, ctx1, amt1), ctx2, amt2) == approve_next(a, ctx2, amt2),
{
}

/// A fresh approval after a close starts clean: once the pair's address is
/// freed and storage hands out a zeroed record, an accepted approval
/// records exactly the new amount, with no residue of whatever the closed
/// record held.
pub proof fn lemma_close_then_approve(closed: DelegateAllowance, ctx: DelegateApprove, amt: u64)
    requires
        approve_allowed(ctx),
    ensures
        approve_next(zeroed_record(), ctx, amt).amount == amt,
        approve_next(zeroed_record(), ctx, amt) == approve_next(closed, ctx, amt),
{
}

} // verus!
