use token_delegate::addr::Address;
use token_delegate::allowance::delegate_approve;
use token_delegate::allowance::delegate_close;
use token_delegate::allowance::delegate_link;
use token_delegate::allowance::delegate_transfer;
use token_delegate::allowance::delegate_update_allowance;
use token_delegate::allowance::delegate_update_owner;
use token_delegate::allowance::verify_matching_accounts;
use token_delegate::allowance::ApproveAction;
use token_delegate::allowance::DelegateAllowance;
use token_delegate::allowance::DelegateApprove;
use token_delegate::allowance::DelegateClose;
use token_delegate::allowance::DelegateLink;
use token_delegate::allowance::DelegateTransfer;
use token_delegate::allowance::DelegateUpdateAmount;
use token_delegate::allowance::DelegateUpdateOwner;
use token_delegate::allowance::ErrorCode;
use token_delegate::allowance::TokenHolding;
use token_delegate::allowance::TransferAction;

fn addr(n: u64) -> Address {
    Address { w0: n, w1: 0, w2: 0, w3: 0 }
}

struct Parties {
    owner: Address,
    delegate: Address,
    holding: Address,
    dest: Address,
    root: Address,
    payer: Address,
}

fn parties() -> Parties {
    Parties {
        owner: addr(1),
        delegate: addr(2),
        holding: addr(3),
        dest: addr(4),
        root: addr(5),
        payer: addr(6),
    }
}

fn approve_ctx(p: &Parties) -> DelegateApprove {
    DelegateApprove {
        allowance_payer: p.payer,
        owner: p.owner,
        delegate: p.delegate,
        delegate_root: p.root,
        token_account: TokenHolding { address: p.holding, owner: p.owner },
    }
}

fn transfer_ctx(p: &Parties) -> DelegateTransfer {
    DelegateTransfer {
        delegate: p.delegate,
        delegate_root: p.root,
        from: TokenHolding { address: p.holding, owner: p.owner },
        to: TokenHolding { address: p.dest, owner: p.owner },
    }
}

/// A two-account toy ledger the tests settle the returned actions against.
struct Ledger {
    from_balance: u64,
    to_balance: u64,
}

impl Ledger {
    fn settle(&mut self, act: &Option<TransferAction>) {
        if let Some(t) = act {
            self.from_balance -= t.amount;
            self.to_balance += t.amount;
        }
    }
}

#[test]
fn link_returns_the_approve_instruction() {
    let p = parties();
    let ctx = DelegateLink {
        owner: p.owner,
        delegate_root: p.root,
        token_account: TokenHolding { address: p.holding, owner: p.owner },
    };
    let act = delegate_link(&ctx, 750);
    assert_eq!(
        act,
        ApproveAction { token_account: p.holding, delegate: p.root, authority: p.owner, amount: 750 }
    );
}

#[test]
fn approve_rejects_a_signer_who_is_not_the_holding_owner() {
    let p = parties();
    let mut ctx = approve_ctx(&p);
    ctx.token_account.owner = addr(99);
    let mut rec = DelegateAllowance::default();
    let before = rec;
    assert_eq!(delegate_approve(&ctx, &mut rec, false, 0, 10), Err(ErrorCode::InvalidAccount));
    assert_eq!(rec, before);
}

#[test]
fn approve_with_link_also_returns_the_link_instruction() {
    let p = parties();
    let ctx = approve_ctx(&p);
    let mut rec = DelegateAllowance::default();
    let r = delegate_approve(&ctx, &mut rec, true, 900, 100);
    assert_eq!(
        r,
        Ok(Some(ApproveAction {
            token_account: p.holding,
            delegate: p.root,
            authority: p.owner,
            amount: 900,
        }))
    );
    assert_eq!(rec.amount, 100);
}

#[test]
fn transfer_above_allowance_fails_whole_and_changes_nothing() {
    let p = parties();
    let mut rec = DelegateAllowance::default();
    delegate_approve(&approve_ctx(&p), &mut rec, false, 0, 50).unwrap();
    let before = rec;
    let r = delegate_transfer(&transfer_ctx(&p), &mut rec, 51);
    assert_eq!(r, Err(ErrorCode::AllowanceExceeded));
    assert_eq!(rec, before);
}

#[test]
fn transfer_of_exactly_the_allowance_drains_it_and_the_next_one_fails() {
    let p = parties();
    let mut rec = DelegateAllowance::default();
    delegate_approve(&approve_ctx(&p), &mut rec, false, 0, 50).unwrap();
    let r = delegate_transfer(&transfer_ctx(&p), &mut rec, 50);
    assert_eq!(
        r,
        Ok(Some(TransferAction { from: p.holding, to: p.dest, authority: p.root, amount: 50 }))
    );
    assert_eq!(rec.amount, 0);
    let r2 = delegate_transfer(&transfer_ctx(&p), &mut rec, 1);
    assert_eq!(r2, Err(ErrorCode::AllowanceExceeded));
    assert_eq!(rec.amount, 0);
}

#[test]
fn transfer_of_zero_succeeds_and_moves_nothing() {
    let p = parties();
    let mut rec = DelegateAllowance::default();
    delegate_approve(&approve_ctx(&p), &mut rec, false, 0, 50).unwrap();
    let mut ledger = Ledger { from_balance: 1000, to_balance: 0 };
    let r = delegate_transfer(&transfer_ctx(&p), &mut rec, 0);
    assert_eq!(r, Ok(None));
    ledger.settle(r.as_ref().unwrap());
    assert_eq!(rec.amount, 50);
    assert_eq!(ledger.from_balance, 1000);
    assert_eq!(ledger.to_balance, 0);
}

#[test]
fn transfer_rejects_a_record_for_another_holding() {
    let p = parties();
    let mut rec = DelegateAllowance::default();
    delegate_approve(&approve_ctx(&p), &mut rec, false, 0, 50).unwrap();
    let mut ctx = transfer_ctx(&p);
    ctx.from.address = addr(77);
    let before = rec;
    assert_eq!(delegate_transfer(&ctx, &mut rec, 10), Err(ErrorCode::InvalidAccount));
    assert_eq!(rec, before);
}

#[test]
fn transfer_rejects_a_signer_who_is_not_the_delegate() {
    let p = parties();
    let mut rec = DelegateAllowance::default();
    delegate_approve(&approve_ctx(&p), &mut rec, false, 0, 50).unwrap();
    let mut ctx = transfer_ctx(&p);
    ctx.delegate = addr(88);
    let before = rec;
    assert_eq!(delegate_transfer(&ctx, &mut rec, 10), Err(ErrorCode::InvalidAccount));
    assert_eq!(rec, before);
}

#[test]
fn a_second_approve_of_the_same_pair_overwrites_the_record() {
    let p = parties();
    let mut rec = DelegateAllowance::default();
    delegate_approve(&approve_ctx(&p), &mut rec, false, 0, 100).unwrap();
    delegate_approve(&approve_ctx(&p), &mut rec, false, 0, 40).unwrap();
    assert_eq!(
        rec,
        DelegateAllowance {
            owner: p.owner,
            token_account: p.holding,
            delegate: p.delegate,
            amount: 40,
        }
    );
}

#[test]
fn update_allowance_resets_the_amount_for_the_owner_only() {
    let p = parties();
    let mut rec = DelegateAllowance::default();
    delegate_approve(&approve_ctx(&p), &mut rec, false, 0, 10).unwrap();
    let r = delegate_update_allowance(&DelegateUpdateAmount { owner: p.owner }, &mut rec, 999);
    assert_eq!(r, Ok(()));
    assert_eq!(rec.amount, 999);
    let r2 = delegate_update_allowance(&DelegateUpdateAmount { owner: addr(66) }, &mut rec, 5);
    assert_eq!(r2, Err(ErrorCode::InvalidAccount));
    assert_eq!(rec.amount, 999);
}

#[test]
fn update_owner_only_confirms_a_change_the_ledger_already_made() {
    let p = parties();
    let new_owner = addr(42);
    let mut rec = DelegateAllowance::default();
    delegate_approve(&approve_ctx(&p), &mut rec, false, 0, 10).unwrap();
    // The holding still belongs to the old owner: reconciliation must fail
    // even though the signing current owner matches the record.
    let stale = DelegateUpdateOwner {
        token_account: TokenHolding { address: p.holding, owner: p.owner },
        current_owner: p.owner,
        new_owner,
    };
    assert_eq!(delegate_update_owner(&stale, &mut rec), Err(ErrorCode::InvalidAccount));
    assert_eq!(rec.owner, p.owner);
    // Once the ledger records the new owner, the same call succeeds.
    let fresh = DelegateUpdateOwner {
        token_account: TokenHolding { address: p.holding, owner: new_owner },
        current_owner: p.owner,
        new_owner,
    };
    assert_eq!(delegate_update_owner(&fresh, &mut rec), Ok(()));
    assert_eq!(rec.owner, new_owner);
    assert_eq!(rec.amount, 10);
}

#[test]
fn update_owner_rejects_a_record_for_another_holding() {
    let p = parties();
    let mut rec = DelegateAllowance::default();
    delegate_approve(&approve_ctx(&p), &mut rec, false, 0, 10).unwrap();
    let ctx = DelegateUpdateOwner {
        token_account: TokenHolding { address: addr(77), owner: p.owner },
        current_owner: p.owner,
        new_owner: p.owner,
    };
    assert_eq!(delegate_update_owner(&ctx, &mut rec), Err(ErrorCode::InvalidAccount));
}

#[test]
fn close_pays_the_deposit_to_the_named_recipient_for_the_owner_only() {
    let p = parties();
    let recipient = addr(55);
    let mut rec = DelegateAllowance::default();
    delegate_approve(&approve_ctx(&p), &mut rec, false, 0, 10).unwrap();
    let wrong = DelegateClose { owner: addr(66), fee_recipient: recipient };
    assert_eq!(delegate_close(&wrong, &rec), Err(ErrorCode::InvalidAccount));
    let right = DelegateClose { owner: p.owner, fee_recipient: recipient };
    assert_eq!(delegate_close(&right, &rec), Ok(recipient));
}

#[test]
fn close_then_approve_starts_from_a_clean_amount() {
    let p = parties();
    let mut rec = DelegateAllowance::default();
    delegate_approve(&approve_ctx(&p), &mut rec, false, 0, 100).unwrap();
    delegate_transfer(&transfer_ctx(&p), &mut rec, 30).unwrap();
    assert_eq!(rec.amount, 70);
    let close = DelegateClose { owner: p.owner, fee_recipient: p.payer };
    assert_eq!(delegate_close(&close, &rec), Ok(p.payer));
    // The record is destroyed; a fresh approve works on zeroed storage.
    let mut fresh = DelegateAllowance::default();
    delegate_approve(&approve_ctx(&p), &mut fresh, false, 0, 25).unwrap();
    assert_eq!(fresh.amount, 25);
    assert_eq!(fresh.token_account, p.holding);
    assert_eq!(fresh.delegate, p.delegate);
}

#[test]
fn verify_matching_accounts_distinguishes_equal_from_unequal() {
    assert_eq!(verify_matching_accounts(&addr(7), &addr(7)), Ok(()));
    assert_eq!(verify_matching_accounts(&addr(7), &addr(8)), Err(ErrorCode::InvalidAccount));
}

#[test]
fn owner_approves_100_then_delegate_spends_40_70_200() {
    let p = parties();
    let mut rec = DelegateAllowance::default();
    let mut ledger = Ledger { from_balance: 1000, to_balance: 0 };

    delegate_approve(&approve_ctx(&p), &mut rec, false, 0, 100).unwrap();

    let r = delegate_transfer(&transfer_ctx(&p), &mut rec, 40).unwrap();
    ledger.settle(&r);
    assert_eq!(rec.amount, 60);
    assert_eq!(ledger.from_balance, 960);
    assert_eq!(ledger.to_balance, 40);

    let r2 = delegate_transfer(&transfer_ctx(&p), &mut rec, 70);
    assert_eq!(r2, Err(ErrorCode::AllowanceExceeded));
    assert_eq!(rec.amount, 60);

    delegate_update_allowance(&DelegateUpdateAmount { owner: p.owner }, &mut rec, 200).unwrap();
    assert_eq!(rec.amount, 200);

    let r3 = delegate_transfer(&transfer_ctx(&p), &mut rec, 200).unwrap();
    ledger.settle(&r3);
    assert_eq!(rec.amount, 0);
    assert_eq!(ledger.from_balance, 760);
    assert_eq!(ledger.to_balance, 240);
}

#[test]
fn a_run_of_transfers_never_moves_more_than_the_starting_amount() {
    let p = parties();
    let mut rec = DelegateAllowance::default();
    delegate_approve(&approve_ctx(&p), &mut rec, false, 0, 100).unwrap();
    let mut moved: u64 = 0;
    for req in [30u64, 30, 30, 30, 30, 5, 5, 5] {
        if let Ok(Some(t)) = delegate_transfer(&transfer_ctx(&p), &mut rec, req) {
            moved += t.amount;
        }
    }
    assert!(moved <= 100);
    assert_eq!(moved + rec.amount, 100);
}
