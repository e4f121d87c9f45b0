//! Properties of the protocol that span several operations: settlement
//! pays out exactly what was paid, happens at most once and never while a
//! dispute is open; payment nonces are never applied twice; an invoice is
//! funded at most once and its escrow returned at most once; disputes only
//! move forward; and a paused protocol refuses every change.
use vstd::prelude::*;

use crate::contract::QuickLendXContract;
use crate::dispute::dispute_rank;
use crate::errors::QuickLendXError;
use crate::profits::lemma_profit_split_exact;
use crate::settlement::{records_total, spec_share, PaymentEffect, RecordPlan, MAX_PAYMENT_COUNT};
use crate::bids::bids_after_cleanup;
use crate::types::{Bid, BidStatus, DisputeStatus, EscrowStatus, InvestmentStatus, InvoiceStatus, VerificationStatus};

verus! {

/// The payment ledger of every invoice is sound in every state the
/// operations produce: the paid total stays between zero and the invoice
/// amount, it equals the sum of the durable payment records, and there are
/// at most `MAX_PAYMENT_COUNT` of those.
pub proof fn lemma_payment_ledger_sound(c: &QuickLendXContract, invoice_id: u64)
    requires
        c.wf(),
        c.invoices@.contains_key(invoice_id),
    ensures
        0 <= c.invoices@[invoice_id].total_paid <= c.invoices@[invoice_id].amount,
        records_total(c.spec_payment_records(invoice_id)) == c.invoices@[invoice_id].total_paid,
        c.spec_payment_records(invoice_id).len() <= MAX_PAYMENT_COUNT,
{
}

/// Whichever request settles an invoice, the investor's return plus the
/// platform fee is exactly the invoice amount, which is what the business
/// has paid in total; the fee is never negative.
pub proof fn lemma_settlement_pays_out_invoice_amount(
    c: &QuickLendXContract,
    invoice_id: u64,
    amount: i128,
    nonce: Seq<char>,
)
    requires
        c.wf(),
    ensures
        c.spec_partial_payment(invoice_id, amount, nonce) matches PaymentEffect::Settled(_, ret, fee)
            ==> ret + fee == c.invoices@[invoice_id].amount && fee >= 0,
        c.spec_settle_invoice(invoice_id, amount) matches PaymentEffect::Settled(_, ret, fee)
            ==> ret + fee == c.invoices@[invoice_id].amount && fee >= 0,
{
    if c.invoices@.contains_key(invoice_id) && c.investments@.contains_key(invoice_id) {
        let inv = c.invoices@[invoice_id];
        assert(c.investments@[invoice_id].amount > 0);
        lemma_profit_split_exact(c.investments@[invoice_id].amount, inv.amount, c.platform_fee_bps);
    }
}

/// A partial payment that brings the paid total up to the invoice amount
/// settles the invoice: a payment is only ever left recorded without
/// settlement while the invoice stays short of its amount.
pub proof fn lemma_full_payment_settles(c: &QuickLendXContract, invoice_id: u64, amount: i128, nonce: Seq<char>)
    requires
        c.wf(),
    ensures
        c.spec_partial_payment(invoice_id, amount, nonce) matches PaymentEffect::Recorded(a)
            ==> c.invoices@[invoice_id].total_paid + a < c.invoices@[invoice_id].amount,
{
}

/// Settlement and disputes exclude each other: while an invoice carries a
/// dispute (disputed, under review or resolved), no request settles it and
/// no payout is made; a payment that would complete it is refused with
/// `DisputeActive`, while smaller payments are still recorded.
pub proof fn lemma_dispute_blocks_settlement(c: &QuickLendXContract, invoice_id: u64, amount: i128, nonce: Seq<char>)
    requires
        c.wf(),
        c.invoices@.contains_key(invoice_id),
        c.invoices@[invoice_id].dispute_status != DisputeStatus::NoDispute,
    ensures
        !(c.spec_settle_invoice(invoice_id, amount) is Settled),
        !(c.spec_partial_payment(invoice_id, amount, nonce) is Settled),
        c.spec_settle_invoice(invoice_id, amount) is Refused,
{
}

/// A finalized invoice is never settled again: `settle_invoice` refuses
/// with `InvalidStatus` (or `InvalidAmount` for a non-positive payment).
pub proof fn lemma_finalized_settlement_refused(c: &QuickLendXContract, invoice_id: u64, amount: i128)
    requires
        c.spec_is_finalized(invoice_id),
    ensures
        c.spec_settle_invoice(invoice_id, amount) == PaymentEffect::Refused(
            if amount <= 0 {
                QuickLendXError::InvalidAmount
            } else {
                QuickLendXError::InvalidStatus
            },
        ),
{
}

/// After final settlement, no further payment is taken on the invoice:
/// both `settle_invoice` and `process_partial_payment` refuse, changing
/// nothing.
pub proof fn lemma_settled_invoice_takes_no_payment(
    old: &QuickLendXContract,
    new: &QuickLendXContract,
    invoice_id: u64,
    now: u64,
    amount: i128,
    nonce: Seq<char>,
)
    requires
        new.spec_settled(old, invoice_id, now),
    ensures
        new.spec_settle_invoice(invoice_id, amount) is Refused,
        new.spec_partial_payment(invoice_id, amount, nonce) is Refused,
{
}

/// A payment nonce is applied at most once: once a payment with a non-empty
/// nonce was recorded on an invoice, recording again with that nonce never
/// applies a new payment (it is reported as a duplicate or refused).
pub proof fn lemma_nonce_applied_once(
    old: &QuickLendXContract,
    new: &QuickLendXContract,
    invoice_id: u64,
    payer: u64,
    applied: i128,
    nonce: Seq<char>,
    now: u64,
    next_payer: u64,
    next_amount: i128,
)
    requires
        new.spec_payment_applied(old, invoice_id, payer, applied, nonce, now),
        nonce.len() > 0,
    ensures
        !(new.spec_record_plan(invoice_id, next_payer, next_amount, nonce) matches Ok(
            RecordPlan::Apply(_),
        )),
{
    let recs = new.spec_payment_records(invoice_id);
    assert(recs[recs.len() - 1].nonce@ == nonce);
    assert(new.spec_nonce_seen(invoice_id, nonce));
}

/// An invoice is funded at most once, so it never has a second escrow:
/// after a bid was accepted and the invoice funded, every further funding
/// request on it is refused, whatever the bid and the time.
pub proof fn lemma_funded_invoice_refuses_funding(
    old: &QuickLendXContract,
    new: &QuickLendXContract,
    invoice_id: u64,
    bid_id: u64,
    cleaned: Map<u64, Bid>,
    now: u64,
    next_bid: u64,
    later: u64,
)
    requires
        new.spec_funded(old, invoice_id, invoice_id, bid_id, cleaned, now),
    ensures
        new.spec_accept_check(invoice_id, next_bid, later) is Err,
{
}

/// A funded invoice is funded by a positive amount no larger than its face
/// value: bids never exceed the amount of their invoice, and
/// `accept_bid_and_fund` funds with the accepted bid's amount.
pub proof fn lemma_funded_amount_within_face_value(
    before: &QuickLendXContract,
    after: &QuickLendXContract,
    invoice_id: u64,
    bid_id: u64,
    now: u64,
)
    requires
        before.wf(),
        before.spec_accept_check(invoice_id, bid_id, now) is Ok,
        after.spec_funded(before, invoice_id, invoice_id, bid_id, before.spec_bids_after_cleanup(invoice_id, now), now),
    ensures
        0 < after.invoices@[invoice_id].funded_amount <= after.invoices@[invoice_id].amount,
{
    let cleaned = before.spec_bids_after_cleanup(invoice_id, now);
    assert(cleaned[bid_id].bid_amount == before.bids@[bid_id].bid_amount);
    assert(cleaned[bid_id].invoice_id == before.bids@[bid_id].invoice_id);
}

/// One escrow per invoice over its whole lifetime: once an invoice has an
/// escrow record, funding it again is refused, whether through
/// `accept_bid_and_fund` on the invoice or through `accept_bid` with a bid
/// of that invoice.
pub proof fn lemma_one_escrow_per_invoice(
    c: &QuickLendXContract,
    escrow_invoice: u64,
    invoice_id: u64,
    bid_id: u64,
    now: u64,
)
    requires
        c.escrows@.contains_key(escrow_invoice),
    ensures
        c.spec_accept_check(escrow_invoice, bid_id, now) is Err,
        c.bids@.contains_key(bid_id) && c.bids@[bid_id].invoice_id == escrow_invoice ==> c.spec_accept_bid_check(
            invoice_id,
            bid_id,
            now,
        ) is Err,
{
    if c.bids@.contains_key(bid_id) {
        let b1 = crate::bids::bids_after_cleanup(c.bids@, c.spec_bid_list(invoice_id), now);
        assert(b1.contains_key(bid_id) && b1[bid_id].invoice_id == c.bids@[bid_id].invoice_id);
        assert(c.spec_accept_bid_bids(invoice_id, bid_id, now)[bid_id].invoice_id == c.bids@[bid_id].invoice_id);
    }
}

/// Withdrawing an investment undoes the funding of the invoice: the invoice
/// is exactly as it was before the bid was accepted.
pub proof fn lemma_withdrawal_restores_invoice(
    before: &QuickLendXContract,
    funded: &QuickLendXContract,
    after: &QuickLendXContract,
    invoice_id: u64,
    bid_id: u64,
    cleaned: Map<u64, Bid>,
    now: u64,
)
    requires
        before.spec_accept_check(invoice_id, bid_id, now) is Ok,
        funded.spec_funded(before, invoice_id, invoice_id, bid_id, cleaned, now),
        after.spec_unwound(funded, invoice_id, InvoiceStatus::Verified, true, InvestmentStatus::Withdrawn),
    ensures
        after.invoices@[invoice_id] == before.invoices@[invoice_id],
{
}

/// Only a currently KYC-verified investor can bid, and funding re-checks
/// the investor's KYC at the moment of acceptance: a bid placed while the
/// investor was verified cannot fund the invoice after a revocation.
pub proof fn lemma_funding_requires_verified_investor(
    c: &QuickLendXContract,
    investor: u64,
    invoice_id: u64,
    bid_id: u64,
    amount: i128,
    salt: u64,
    now: u64,
)
    ensures
        c.spec_place_bid_check(investor, invoice_id, amount, salt, now) is Ok ==> c.spec_investor_verified(investor),
        c.spec_accept_check(invoice_id, bid_id, now) is Ok ==> c.spec_investor_verified(
            c.spec_bids_after_cleanup(invoice_id, now)[bid_id].investor,
        ),
{
}

/// Escrowed funds go back to the investor at most once: after a refund,
/// neither a second refund nor a withdrawal of the investment is accepted.
pub proof fn lemma_refunded_escrow_not_returned_again(
    old: &QuickLendXContract,
    new: &QuickLendXContract,
    invoice_id: u64,
    caller: u64,
    investor: u64,
)
    requires
        new.spec_unwound(old, invoice_id, InvoiceStatus::Refunded, false, InvestmentStatus::Refunded),
    ensures
        new.spec_refund_check(invoice_id, caller) is Err,
        new.investments@.contains_key(invoice_id) ==> new.spec_withdraw_check(invoice_id, investor) is Err,
{
}

/// A withdrawn investment is not withdrawn or refunded again: after the
/// withdrawal the invoice is open for funding and its escrow is returned.
pub proof fn lemma_withdrawn_investment_not_returned_again(
    old: &QuickLendXContract,
    new: &QuickLendXContract,
    invoice_id: u64,
    caller: u64,
    investor: u64,
)
    requires
        new.spec_unwound(old, invoice_id, InvoiceStatus::Verified, true, InvestmentStatus::Withdrawn),
    ensures
        new.spec_refund_check(invoice_id, caller) is Err,
        new.investments@.contains_key(invoice_id) ==> new.spec_withdraw_check(invoice_id, investor) is Err,
{
}

/// The dispute status only moves forward, one step at a time: opening a
/// dispute, putting it under review and resolving it are each accepted only
/// from the status just before the one they set, and evidence can only be
/// updated while the dispute is open.
pub proof fn lemma_dispute_moves_forward(
    c: &QuickLendXContract,
    invoice_id: u64,
    reason: Seq<char>,
    creator: u64,
    admin: u64,
)
    ensures
        c.spec_create_dispute_check(invoice_id, reason) is Ok ==> dispute_rank(
            c.invoices@[invoice_id].dispute_status,
        ) + 1 == dispute_rank(DisputeStatus::Disputed),
        c.spec_review_check(invoice_id, admin) is Ok ==> dispute_rank(
            c.invoices@[invoice_id].dispute_status,
        ) + 1 == dispute_rank(DisputeStatus::UnderReview),
        c.spec_resolve_check(invoice_id, admin) is Ok ==> dispute_rank(
            c.invoices@[invoice_id].dispute_status,
        ) + 1 == dispute_rank(DisputeStatus::Resolved),
        c.spec_update_evidence_check(invoice_id, creator) is Ok ==> c.invoices@[invoice_id].dispute_status
            == DisputeStatus::Disputed,
{
}

/// The progress of a stored invoice is consistent: the paid total never
/// exceeds the amount due, paid plus remaining is the amount due, and the
/// completion shares are at most 100% (in percent and in basis points),
/// for every amount whose share in basis points can be computed.
pub proof fn lemma_progress_consistent(c: &QuickLendXContract, invoice_id: u64)
    requires
        c.wf(),
        c.invoices@.contains_key(invoice_id),
        c.invoices@[invoice_id].amount <= i128::MAX / 10000,
    ensures
        c.spec_invoice_progress(invoice_id) is Ok,
        ({
            let p = c.spec_invoice_progress(invoice_id)->Ok_0;
            &&& 0 <= p.total_paid <= p.total_due
            &&& p.total_paid + p.remaining_due == p.total_due
            &&& p.progress_percent <= 100
            &&& spec_share(p.total_paid, p.total_due, 10000) is Ok
            &&& spec_share(p.total_paid, p.total_due, 10000)->Ok_0 <= 10000
            &&& (p.total_paid == p.total_due ==> spec_share(p.total_paid, p.total_due, 10000)->Ok_0 == 10000)
        }),
{
    let inv = c.invoices@[invoice_id];
    assert(inv.total_paid * 100 <= i128::MAX) by (nonlinear_arith)
        requires
            0 <= inv.total_paid <= inv.amount,
            inv.amount <= i128::MAX / 10000,
    ;
    assert(inv.total_paid * 10000 <= i128::MAX) by (nonlinear_arith)
        requires
            0 <= inv.total_paid <= inv.amount,
            inv.amount <= i128::MAX / 10000,
    ;
    assert(inv.total_paid * 100 >= 0 && inv.total_paid * 10000 >= 0) by (nonlinear_arith)
        requires
            0 <= inv.total_paid,
    ;
    if inv.total_paid == inv.amount {
        assert((inv.total_paid * 10000) / (inv.amount as int) == 10000) by (nonlinear_arith)
            requires
                inv.total_paid == inv.amount,
                inv.amount > 0,
        ;
    }
}

/// While the protocol is paused, every request that would change invoices,
/// bids or disputes is refused with `ContractPaused`.
pub proof fn lemma_paused_refuses_changes(c: &QuickLendXContract)
    requires
        c.paused,
    ensures
        forall|amount: i128, due_date: u64, description: Seq<char>, now: u64|
            #[trigger] c.spec_store_invoice_check(amount, due_date, description, now) == Err::<
                (),
                QuickLendXError,
            >(QuickLendXError::ContractPaused),
        forall|business: u64, amount: i128, due_date: u64, description: Seq<char>, now: u64|
            #[trigger] c.spec_upload_check(business, amount, due_date, description, now) == Err::<
                (),
                QuickLendXError,
            >(QuickLendXError::ContractPaused),
        forall|invoice_id: u64, admin: u64| #[trigger]
            c.spec_verify_check(invoice_id, admin) == Err::<(), QuickLendXError>(QuickLendXError::ContractPaused),
        forall|invoice_id: u64| #[trigger]
            c.spec_cancel_check(invoice_id) == Err::<(), QuickLendXError>(QuickLendXError::ContractPaused),
        forall|invoice_id: u64| #[trigger]
            c.spec_release_check(invoice_id) == Err::<(), QuickLendXError>(QuickLendXError::ContractPaused),
        forall|investor: u64, invoice_id: u64, amount: i128, salt: u64, now: u64|
            #[trigger] c.spec_place_bid_check(investor, invoice_id, amount, salt, now) == Err::<
                (),
                QuickLendXError,
            >(QuickLendXError::ContractPaused),
        forall|invoice_id: u64, reason: Seq<char>|
            #[trigger] c.spec_create_dispute_check(invoice_id, reason) == Err::<(), QuickLendXError>(
                QuickLendXError::ContractPaused,
            ),
        forall|invoice_id: u64, creator: u64|
            #[trigger] c.spec_update_evidence_check(invoice_id, creator) == Err::<(), QuickLendXError>(
                QuickLendXError::ContractPaused,
            ),
        forall|invoice_id: u64, admin: u64, grace: Option<u64>, now: u64|
            #[trigger] c.spec_default_check(invoice_id, admin, grace, now) == Err::<(), QuickLendXError>(
                QuickLendXError::ContractPaused,
            ),
        forall|invoice_id: u64, admin: u64, status: InvoiceStatus|
            #[trigger] c.spec_update_status_check(invoice_id, admin, status) == Err::<(), QuickLendXError>(
                QuickLendXError::ContractPaused,
            ),
{
}


/// An accepted bid is a positive amount on a verified invoice, at most the
/// invoice amount, by an investor whose KYC is verified, and never above that
/// investor's KYC investment limit.
pub proof fn lemma_accepted_bid_within_limits(
    c: &QuickLendXContract,
    investor: u64,
    invoice_id: u64,
    bid_amount: i128,
    salt: u64,
    now: u64,
)
    requires
        c.spec_place_bid_check(investor, invoice_id, bid_amount, salt, now) is Ok,
    ensures
        !c.paused,
        c.invoices@.contains_key(invoice_id),
        c.invoices@[invoice_id].status == InvoiceStatus::Verified,
        0 < bid_amount <= c.invoices@[invoice_id].amount,
        c.investor_verifications@.contains_key(investor),
        c.investor_verifications@[investor].status == VerificationStatus::Verified,
        bid_amount <= c.investor_verifications@[investor].investment_limit,
{
}

/// An invoice can be cancelled exactly when the protocol is not paused, the
/// invoice exists, its business's KYC is verified and it is still pending or
/// verified (not yet funded).
pub proof fn lemma_cancel_allowed_before_funding(c: &QuickLendXContract, invoice_id: u64)
    ensures
        c.spec_cancel_check(invoice_id) is Ok <==> (!c.paused && c.invoices@.contains_key(invoice_id)
            && c.business_verifications@.contains_key(c.invoices@[invoice_id].business)
            && c.business_verifications@[c.invoices@[invoice_id].business] == VerificationStatus::Verified
            && (c.invoices@[invoice_id].status == InvoiceStatus::Pending
                || c.invoices@[invoice_id].status == InvoiceStatus::Verified)),
{
}

/// An invoice is funded only through a bid on it that is still placed, both
/// before and after the expired bids are cleaned up, and not expired, from a
/// KYC-verified investor, while the invoice is verified and unfunded.
pub proof fn lemma_funding_needs_placed_bid(c: &QuickLendXContract, invoice_id: u64, bid_id: u64, now: u64)
    requires
        c.spec_accept_check(invoice_id, bid_id, now) is Ok,
    ensures
        c.bids@.contains_key(bid_id),
        c.bids@[bid_id].status == BidStatus::Placed,
        c.bids@[bid_id].invoice_id == invoice_id,
        !c.bids@[bid_id].spec_is_expired(now),
        bids_after_cleanup(c.bids@, c.spec_bid_list(invoice_id), now)[bid_id].status == BidStatus::Placed,
        c.spec_investor_verified(c.bids@[bid_id].investor),
        c.invoices@.contains_key(invoice_id),
        c.invoices@[invoice_id].status == InvoiceStatus::Verified,
        !c.escrows@.contains_key(invoice_id),
        !c.investments@.contains_key(invoice_id),
{
    let b = c.bids@[bid_id];
    let cleaned = bids_after_cleanup(c.bids@, c.spec_bid_list(invoice_id), now);
    if c.spec_bid_list(invoice_id).contains(bid_id) && b.status == BidStatus::Placed && b.spec_is_expired(now) {
        assert(cleaned[bid_id].status == BidStatus::Expired);
    }
}

/// A payment without a transaction id is never taken for a replay: on a
/// funded invoice, paid by its business, not frozen, with room for another
/// record and something still due, it is applied, capped at the amount due.
pub proof fn lemma_empty_nonce_never_duplicate(
    c: &QuickLendXContract,
    invoice_id: u64,
    payer: u64,
    amount: i128,
    nonce: Seq<char>,
)
    requires
        c.wf(),
        nonce.len() == 0,
    ensures
        c.spec_record_plan(invoice_id, payer, amount, nonce) != Ok::<RecordPlan, QuickLendXError>(RecordPlan::Duplicate),
        ({
            let inv = c.invoices@[invoice_id];
            (amount > 0 && !c.frozen_invoices@.contains(invoice_id) && c.invoices@.contains_key(invoice_id)
                && inv.status == InvoiceStatus::Funded && payer == inv.business
                && c.spec_payment_records(invoice_id).len() < MAX_PAYMENT_COUNT
                && inv.total_paid < inv.amount) ==> c.spec_record_plan(invoice_id, payer, amount, nonce)
                == Ok::<RecordPlan, QuickLendXError>(RecordPlan::Apply(
                if amount > inv.amount - inv.total_paid {
                    (inv.amount - inv.total_paid) as i128
                } else {
                    amount
                },
            ))
        }),
{
}

/// Escrowed funds go back to the investor exactly for a funded invoice whose
/// escrow is still held, at the request of the admin or the invoice's
/// business.
pub proof fn lemma_refund_only_while_funded(c: &QuickLendXContract, invoice_id: u64, caller: u64)
    ensures
        c.spec_refund_check(invoice_id, caller) is Ok <==> (c.invoices@.contains_key(invoice_id)
            && c.invoices@[invoice_id].status == InvoiceStatus::Funded
            && c.escrows@.contains_key(invoice_id)
            && c.escrows@[invoice_id].status == EscrowStatus::Held
            && (c.admin == Some(caller) || c.invoices@[invoice_id].business == caller)),
{
}

} // verus!
