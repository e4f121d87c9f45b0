//! Invoice settlement: partial payments capped at the amount still due,
//! replay protection by payment nonce, durable per-payment records, and a
//! once-only final settlement that pays the investor and the platform.
//! Final settlement is refused with `DisputeActive` while the invoice
//! carries a dispute; payments that leave it short of its amount are still
//! recorded.
use vstd::prelude::*;

use crate::contract::{invoice_amounts_wf, QuickLendXContract};
use crate::errors::QuickLendXError;
use crate::pagination::MAX_QUERY_LIMIT;
use crate::profits::{calculate_profit, spec_calculate_profit};
use crate::types::{DisputeStatus, Escrow, EscrowStatus, Investment, InvestmentStatus, Invoice, InvoiceStatus, Party, PaymentRecord, Transfer};

verus! {

broadcast use vstd::std_specs::hash::group_hash_axioms;

/// Number of most recent payments kept inline on an invoice.
pub const MAX_INLINE_PAYMENT_HISTORY: u32 = 32;

/// Maximum number of durable payment records per invoice.
pub const MAX_PAYMENT_COUNT: u32 = 1000;

/// Durable record of one applied payment.
#[derive(Debug)]
pub struct SettlementPaymentRecord {
    pub payer: u64,
    pub amount: i128,
    pub timestamp: u64,
    pub nonce: String,
}

/// Settlement bookkeeping of one invoice: its payment records, in the order
/// they were applied, and whether final settlement has happened.
#[derive(Debug)]
pub struct SettlementLog {
    pub records: Vec<SettlementPaymentRecord>,
    pub finalized: bool,
}

/// Settlement progress for an invoice.
#[derive(Clone, Copy, Debug, PartialEq, Eq, Structural)]
pub struct Progress {
    pub total_due: i128,
    pub total_paid: i128,
    pub remaining_due: i128,
    pub progress_percent: u32,
    pub payment_count: u32,
    pub status: InvoiceStatus,
}

/// Canonical settlement summary for off-chain consumers.
#[derive(Clone, Copy, Debug, PartialEq, Eq, Structural)]
pub struct SettlementSummary {
    pub total_due: i128,
    pub total_paid: i128,
    pub remaining: i128,
    pub percent_complete_bps: u32,
    pub finalized: bool,
}

/// What recording a payment will do, once it passes validation.
#[derive(Clone, Copy, Debug, PartialEq, Eq, Structural)]
pub enum RecordPlan {
    /// The nonce was already used: nothing is recorded.
    Duplicate,
    /// This amount (the request capped at the amount due) is applied.
    Apply(i128),
}

/// Sum of the amounts of a sequence of payment records.
pub open spec fn records_total(s: Seq<SettlementPaymentRecord>) -> int
    decreases s.len(),
{
    if s.len() == 0 {
        0
    } else {
        records_total(s.drop_last()) + s.last().amount
    }
}

proof fn lemma_records_total_push(s: Seq<SettlementPaymentRecord>, r: SettlementPaymentRecord)
    ensures
        records_total(s.push(r)) == records_total(s) + r.amount,
{
    assert(s.push(r).drop_last() =~= s);
}

/// The amount still due on an invoice of face value `amount` of which
/// `total_paid` has been paid.
pub open spec fn spec_remaining_due(amount: i128, total_paid: i128) -> Result<i128, QuickLendXError> {
    if amount <= 0 {
        Err(QuickLendXError::InvoiceAmountInvalid)
    } else if total_paid < 0 {
        Err(QuickLendXError::InvalidAmount)
    } else if total_paid >= amount {
        Ok(0)
    } else {
        Ok((amount - total_paid) as i128)
    }
}

/// `total_paid` as a share of `total_due`, in units of `1/scale`, clamped
/// to `0..=scale`; refused when the scaled amount leaves the `i128` range.
pub open spec fn spec_share(total_paid: i128, total_due: i128, scale: int) -> Result<u32, QuickLendXError> {
    if total_due <= 0 {
        Ok(0)
    } else if total_paid * scale > i128::MAX || total_paid * scale < i128::MIN {
        Err(QuickLendXError::InvalidAmount)
    } else if total_paid < 0 {
        Ok(0)
    } else if (total_paid * scale) / (total_due as int) > scale {
        Ok(scale as u32)
    } else {
        Ok(((total_paid * scale) / (total_due as int)) as u32)
    }
}

/// The progress report of an invoice.
pub open spec fn spec_progress(
    total_due: i128,
    total_paid: i128,
    status: InvoiceStatus,
    count: nat,
) -> Result<Progress, QuickLendXError> {
    match spec_remaining_due(total_due, total_paid) {
        Err(e) => Err(e),
        Ok(remaining) => match spec_share(total_paid, total_due, 100) {
            Err(e) => Err(e),
            Ok(pct) => Ok(
                Progress {
                    total_due,
                    total_paid,
                    remaining_due: remaining,
                    progress_percent: pct,
                    payment_count: count as u32,
                    status,
                },
            ),
        },
    }
}

/// The inline history after appending `rec`: the oldest entry is dropped
/// once the history holds `MAX_INLINE_PAYMENT_HISTORY` entries.
pub open spec fn history_push(h: Seq<PaymentRecord>, rec: PaymentRecord) -> Seq<PaymentRecord> {
    if h.len() >= MAX_INLINE_PAYMENT_HISTORY {
        h.drop_first().push(rec)
    } else {
        h.push(rec)
    }
}

/// `b` is `a` with possibly different payment totals, payment history,
/// status and settlement date; every other field is the same.
pub open spec fn same_invoice_terms(a: Invoice, b: Invoice) -> bool {
    &&& b.id == a.id
    &&& b.business == a.business
    &&& b.amount == a.amount
    &&& b.currency == a.currency
    &&& b.due_date == a.due_date
    &&& b.created_at == a.created_at
    &&& b.description == a.description
    &&& b.category == a.category
    &&& b.funded_amount == a.funded_amount
    &&& b.funded_at == a.funded_at
    &&& b.investor == a.investor
    &&& b.dispute_status == a.dispute_status
    &&& b.dispute == a.dispute
}

/// `b` is `a` after a payment of `applied`, logged as `rec`.
pub open spec fn invoice_after_payment(a: Invoice, b: Invoice, applied: i128, rec: PaymentRecord) -> bool {
    &&& same_invoice_terms(a, b)
    &&& b.status == a.status
    &&& b.settled_at == a.settled_at
    &&& b.total_paid == a.total_paid + applied
    &&& b.payment_history@ == history_push(a.payment_history@, rec)
}

/// `r` records a payment of `amount` by `payer` at `now` with nonce text `nonce`.
pub open spec fn settlement_record_is(r: SettlementPaymentRecord, payer: u64, amount: i128, now: u64, nonce: Seq<char>) -> bool {
    r.payer == payer && r.amount == amount && r.timestamp == now && r.nonce@ == nonce
}

/// `r` is the inline copy of a payment of `amount` by `payer` at `now` with
/// transaction id text `nonce`.
pub open spec fn inline_record_is(r: PaymentRecord, payer: u64, amount: i128, now: u64, nonce: Seq<char>) -> bool {
    r.payer == payer && r.amount == amount && r.timestamp == now && r.transaction_id@ == nonce
}

/// Whether the invoice may take payments and be settled.
pub fn ensure_payable_status(invoice: &Invoice) -> (r: Result<(), QuickLendXError>)
    ensures
        r == (if invoice.status == InvoiceStatus::Funded {
            Ok::<(), QuickLendXError>(())
        } else {
            Err::<(), QuickLendXError>(QuickLendXError::InvalidStatus)
        }),
{
    if invoice.status == InvoiceStatus::Paid || invoice.status == InvoiceStatus::Cancelled
        || invoice.status == InvoiceStatus::Defaulted || invoice.status == InvoiceStatus::Refunded {
        return Err(QuickLendXError::InvalidStatus);
    }
    if invoice.status != InvoiceStatus::Funded {
        return Err(QuickLendXError::InvalidStatus);
    }
    Ok(())
}

/// The amount still due on the invoice.
pub fn compute_remaining_due(invoice: &Invoice) -> (r: Result<i128, QuickLendXError>)
    ensures
        r == spec_remaining_due(invoice.amount, invoice.total_paid),
{
    if invoice.amount <= 0 {
        return Err(QuickLendXError::InvoiceAmountInvalid);
    }
    if invoice.total_paid < 0 {
        return Err(QuickLendXError::InvalidAmount);
    }
    if invoice.total_paid >= invoice.amount {
        return Ok(0);
    }
    Ok(invoice.amount - invoice.total_paid)
}

fn share(total_paid: i128, total_due: i128, scale: i128) -> (r: Result<u32, QuickLendXError>)
    requires
        scale == 100 || scale == 10000,
    ensures
        r == spec_share(total_paid, total_due, scale as int),
{
    if total_due <= 0 {
        return Ok(0);
    }
    let scaled = match total_paid.checked_mul(scale) {
        Some(v) => v,
        None => return Err(QuickLendXError::InvalidAmount),
    };
    if total_paid < 0 {
        assert(scaled < 0) by (nonlinear_arith)
            requires
                total_paid < 0,
                scale > 0,
                scaled == total_paid * scale,
        ;
        return Ok(0);
    }
    assert(scaled >= 0) by (nonlinear_arith)
        requires
            total_paid >= 0,
            scale > 0,
            scaled == total_paid * scale,
    ;
    let q: i128 = scaled / total_due;
    if q > scale {
        Ok(scale as u32)
    } else {
        assert(q >= 0);
        Ok(q as u32)
    }
}

fn progress_of(total_due: i128, total_paid: i128, status: InvoiceStatus, count: u32) -> (r: Result<
    Progress,
    QuickLendXError,
>)
    ensures
        r == spec_progress(total_due, total_paid, status, count as nat),
{
    let remaining = match compute_remaining_due_of(total_due, total_paid) {
        Ok(v) => v,
        Err(e) => return Err(e),
    };
    let pct = match share(total_paid, total_due, 100) {
        Ok(v) => v,
        Err(e) => return Err(e),
    };
    Ok(
        Progress {
            total_due,
            total_paid,
            remaining_due: remaining,
            progress_percent: pct,
            payment_count: count,
            status,
        },
    )
}

fn compute_remaining_due_of(amount: i128, total_paid: i128) -> (r: Result<i128, QuickLendXError>)
    ensures
        r == spec_remaining_due(amount, total_paid),
{
    if amount <= 0 {
        return Err(QuickLendXError::InvoiceAmountInvalid);
    }
    if total_paid < 0 {
        return Err(QuickLendXError::InvalidAmount);
    }
    if total_paid >= amount {
        return Ok(0);
    }
    Ok(amount - total_paid)
}

fn copy_record(r: &SettlementPaymentRecord) -> (c: SettlementPaymentRecord)
    ensures
        c == *r,
{
    SettlementPaymentRecord {
        payer: r.payer,
        amount: r.amount,
        timestamp: r.timestamp,
        nonce: r.nonce.clone(),
    }
}

impl QuickLendXContract {
    /// Whether a payment with this nonce was already recorded for the invoice.
    pub open spec fn spec_nonce_seen(&self, invoice_id: u64, nonce: Seq<char>) -> bool {
        exists|i: int|
            0 <= i < self.spec_payment_records(invoice_id).len()
                && #[trigger] self.spec_payment_records(invoice_id)[i].nonce@ == nonce
    }

    /// The progress report of an invoice in this state.
    pub open spec fn spec_invoice_progress(&self, invoice_id: u64) -> Result<
        Progress,
        QuickLendXError,
    > {
        if !self.invoices@.contains_key(invoice_id) {
            Err(QuickLendXError::InvoiceNotFound)
        } else {
            let inv = self.invoices@[invoice_id];
            spec_progress(
                inv.amount,
                inv.total_paid,
                inv.status,
                self.spec_payment_records(invoice_id).len(),
            )
        }
    }

    /// How a request to record `amount` from `payer` with `nonce` is decided.
    pub open spec fn spec_record_plan(
        &self,
        invoice_id: u64,
        payer: u64,
        amount: i128,
        nonce: Seq<char>,
    ) -> Result<RecordPlan, QuickLendXError> {
        if amount <= 0 {
            Err(QuickLendXError::InvalidAmount)
        } else if self.frozen_invoices@.contains(invoice_id) {
            Err(QuickLendXError::InvoiceFrozen)
        } else if !self.invoices@.contains_key(invoice_id) {
            Err(QuickLendXError::InvoiceNotFound)
        } else {
            let inv = self.invoices@[invoice_id];
            if inv.status != InvoiceStatus::Funded {
                Err(QuickLendXError::InvalidStatus)
            } else if payer != inv.business {
                Err(QuickLendXError::NotBusinessOwner)
            } else if nonce.len() > 0 && self.spec_nonce_seen(invoice_id, nonce) {
                Ok(RecordPlan::Duplicate)
            } else if self.spec_payment_records(invoice_id).len() >= MAX_PAYMENT_COUNT {
                Err(QuickLendXError::OperationNotAllowed)
            } else {
                match spec_remaining_due(inv.amount, inv.total_paid) {
                    Err(e) => Err(e),
                    Ok(remaining) => {
                        let applied = if amount > remaining {
                            remaining
                        } else {
                            amount
                        };
                        if remaining <= 0 {
                            Err(QuickLendXError::InvalidStatus)
                        } else if applied <= 0 {
                            Err(QuickLendXError::InvalidAmount)
                        } else if inv.total_paid + applied > i128::MAX {
                            Err(QuickLendXError::InvalidAmount)
                        } else if inv.total_paid + applied > inv.amount {
                            Err(QuickLendXError::InvalidAmount)
                        } else {
                            Ok(RecordPlan::Apply(applied))
                        }
                    },
                }
            }
        }
    }

    /// The fields of `self` other than invoices and settlement logs equal
    /// those of `other`.
    pub open spec fn same_except_ledger(&self, other: &Self) -> bool {
        &&& self.admin == other.admin
        &&& self.paused == other.paused
        &&& self.platform_fee_bps == other.platform_fee_bps
        &&& self.next_id == other.next_id
        &&& self.frozen_invoices == other.frozen_invoices
        &&& self.bids == other.bids
        &&& self.invoice_bids == other.invoice_bids
        &&& self.bid_markers == other.bid_markers
        &&& self.investments == other.investments
        &&& self.escrows == other.escrows
        &&& self.investor_verifications == other.investor_verifications
        &&& self.business_verifications == other.business_verifications
        &&& self.limits == other.limits
        &&& self.verified_order == other.verified_order
    }

    /// `self` is `old` after applying a payment of `applied` from `payer`
    /// with a nonce whose text is `nonce` at time `now` to the invoice.
    pub open spec fn spec_payment_applied(
        &self,
        old: &Self,
        invoice_id: u64,
        payer: u64,
        applied: i128,
        nonce: Seq<char>,
        now: u64,
    ) -> bool {
        let inv1 = self.invoices@[invoice_id];
        let recs = self.spec_payment_records(invoice_id);
        &&& self.same_except_ledger(old)
        &&& self.invoices@.contains_key(invoice_id)
        &&& self.invoices@ == old.invoices@.insert(invoice_id, inv1)
        &&& inv1.payment_history@.len() > 0
        &&& invoice_after_payment(old.invoices@[invoice_id], inv1, applied, inv1.payment_history@.last())
        &&& inline_record_is(inv1.payment_history@.last(), payer, applied, now, nonce)
        &&& recs.len() > 0
        &&& recs == old.spec_payment_records(invoice_id).push(recs.last())
        &&& settlement_record_is(recs.last(), payer, applied, now, nonce)
        &&& self.spec_is_finalized(invoice_id) == old.spec_is_finalized(invoice_id)
        &&& self.settlements@.remove(invoice_id) == old.settlements@.remove(invoice_id)
    }

    fn nonce_seen(&self, invoice_id: u64, nonce: &String) -> (r: bool)
        ensures
            r == self.spec_nonce_seen(invoice_id, nonce@),
    {
        match self.settlements.get(&invoice_id) {
            None => false,
            Some(log) => {
                let n = log.records.len();
                let mut i: usize = 0;
                while i < n
                    invariant
                        n == log.records@.len(),
                        log.records@ == self.spec_payment_records(invoice_id),
                        forall|j: int| 0 <= j < i ==> log.records@[j].nonce@ != nonce@,
                    decreases n - i,
                {
                    if log.records[i].nonce == *nonce {
                        return true;
                    }
                    i = i + 1;
                }
                false
            },
        }
    }

    fn payment_count_internal(&self, invoice_id: u64) -> (r: u32)
        requires
            self.wf(),
        ensures
            r as nat == self.spec_payment_records(invoice_id).len(),
    {
        match self.settlements.get(&invoice_id) {
            None => 0,
            Some(log) => log.records.len() as u32,
        }
    }

    fn plan_record_payment(&self, invoice_id: u64, payer: u64, amount: i128, nonce: &String) -> (r:
        Result<RecordPlan, QuickLendXError>)
        requires
            self.wf(),
        ensures
            r == self.spec_record_plan(invoice_id, payer, amount, nonce@),
    {
        if amount <= 0 {
            return Err(QuickLendXError::InvalidAmount);
        }
        if self.frozen_invoices.contains(&invoice_id) {
            return Err(QuickLendXError::InvoiceFrozen);
        }
        let inv = match self.invoices.get(&invoice_id) {
            Some(inv) => inv,
            None => return Err(QuickLendXError::InvoiceNotFound),
        };
        match ensure_payable_status(inv) {
            Ok(()) => {},
            Err(e) => return Err(e),
        }
        if payer != inv.business {
            return Err(QuickLendXError::NotBusinessOwner);
        }
        if !nonce.as_str().is_empty() {
            if self.nonce_seen(invoice_id, nonce) {
                return Ok(RecordPlan::Duplicate);
            }
        }
        let count = self.payment_count_internal(invoice_id);
        if count >= MAX_PAYMENT_COUNT {
            return Err(QuickLendXError::OperationNotAllowed);
        }
        let remaining = match compute_remaining_due(inv) {
            Ok(v) => v,
            Err(e) => return Err(e),
        };
        if remaining <= 0 {
            return Err(QuickLendXError::InvalidStatus);
        }
        let applied = if amount > remaining {
            remaining
        } else {
            amount
        };
        if applied <= 0 {
            return Err(QuickLendXError::InvalidAmount);
        }
        let new_total = match inv.total_paid.checked_add(applied) {
            Some(v) => v,
            None => return Err(QuickLendXError::InvalidAmount),
        };
        if new_total > inv.amount {
            return Err(QuickLendXError::InvalidAmount);
        }
        Ok(RecordPlan::Apply(applied))
    }

    fn apply_payment(&mut self, invoice_id: u64, payer: u64, applied: i128, nonce: String, now: u64)
        requires
            old(self).wf(),
            old(self).invoices@.contains_key(invoice_id),
            old(self).spec_payment_records(invoice_id).len() < MAX_PAYMENT_COUNT,
            applied > 0,
            old(self).invoices@[invoice_id].total_paid + applied <= old(
                self,
            ).invoices@[invoice_id].amount,
        ensures
            final(self).wf(),
            final(self).spec_payment_applied(&*old(self), invoice_id, payer, applied, nonce@, now),
    {
        let ghost old_self = *self;
        let mut inv = self.invoices.remove(&invoice_id).unwrap();
        let nonce_inline = nonce.clone();
        inv.total_paid = inv.total_paid + applied;
        if inv.payment_history.len() >= MAX_INLINE_PAYMENT_HISTORY as usize {
            let _dropped = inv.payment_history.remove(0);
        }
        let ghost mid_hist = inv.payment_history@;
        inv.payment_history.push(
            PaymentRecord { payer, amount: applied, timestamp: now, transaction_id: nonce_inline },
        );
        proof {
            let rec = PaymentRecord {
                payer,
                amount: applied,
                timestamp: now,
                transaction_id: nonce,
            };
            assert(inv.payment_history@ =~= history_push(
                old_self.invoices@[invoice_id].payment_history@,
                rec,
            ));
        }
        self.invoices.insert(invoice_id, inv);
        let record = SettlementPaymentRecord { payer, amount: applied, timestamp: now, nonce };
        let mut log = match self.settlements.remove(&invoice_id) {
            Some(log) => log,
            None => SettlementLog { records: Vec::new(), finalized: false },
        };
        log.records.push(record);
        self.settlements.insert(invoice_id, log);
        proof {
            let rec = SettlementPaymentRecord { payer, amount: applied, timestamp: now, nonce };
            assert(self.spec_payment_records(invoice_id) =~= old_self.spec_payment_records(
                invoice_id,
            ).push(rec));
            lemma_records_total_push(old_self.spec_payment_records(invoice_id), rec);
            assert(self.invoices@ =~= old_self.invoices@.insert(
                invoice_id,
                self.invoices@[invoice_id],
            ));
            assert(self.settlements@.remove(invoice_id) =~= old_self.settlements@.remove(
                invoice_id,
            ));
            assert forall|k: u64| #[trigger]
                self.invoices@.contains_key(k) implies records_total(
                self.spec_payment_records(k),
            ) == self.invoices@[k].total_paid by {
                if k != invoice_id {
                    assert(old_self.invoices@.contains_key(k));
                    assert(self.spec_payment_records(k) == old_self.spec_payment_records(k));
                }
            }
        }
    }
}

/// The effect a payment or settlement request has on the protocol.
#[derive(Clone, Copy, Debug, PartialEq, Eq, Structural)]
pub enum PaymentEffect {
    /// Refused with this error; nothing changes.
    Refused(QuickLendXError),
    /// Accepted without any change (a replayed nonce on an unpaid invoice).
    Unchanged,
    /// This amount was recorded; the invoice is not fully paid yet.
    Recorded(i128),
    /// The invoice was finally settled after recording `.0` (zero when no new
    /// payment was recorded): the investor receives `.1`, the platform `.2`.
    Settled(i128, i128, i128),
    /// Settlement would need the invoice's investment and none is stored;
    /// such requests are excluded by the operations' preconditions.
    Aborts,
}

/// The settlement nonce used by full settlement.
pub open spec fn settlement_nonce() -> Seq<char> {
    "settlement"@
}

impl QuickLendXContract {
    /// How final settlement would be decided if the invoice's paid total were
    /// `total_paid`; on success, the split `(investor_return, platform_fee)`.
    pub open spec fn spec_settle_check(&self, invoice_id: u64, total_paid: i128) -> Result<
        (i128, i128),
        QuickLendXError,
    > {
        if self.spec_is_finalized(invoice_id) {
            Err(QuickLendXError::InvalidStatus)
        } else if !self.invoices@.contains_key(invoice_id) {
            Err(QuickLendXError::InvoiceNotFound)
        } else {
            let inv = self.invoices@[invoice_id];
            let investment = self.investments@[invoice_id];
            if inv.status != InvoiceStatus::Funded {
                Err(QuickLendXError::InvalidStatus)
            } else if inv.dispute_status != DisputeStatus::NoDispute {
                Err(QuickLendXError::DisputeActive)
            } else if total_paid < inv.amount || total_paid < investment.amount {
                Err(QuickLendXError::PaymentTooLow)
            } else if inv.investor is None {
                Err(QuickLendXError::NotInvestor)
            } else {
                Ok(spec_calculate_profit(investment.amount, total_paid, self.platform_fee_bps))
            }
        }
    }

    /// Final settlement would reach a funded invoice that has no investment.
    pub open spec fn spec_settle_aborts(&self, invoice_id: u64) -> bool {
        &&& !self.spec_is_finalized(invoice_id)
        &&& self.invoices@.contains_key(invoice_id)
        &&& self.invoices@[invoice_id].status == InvoiceStatus::Funded
        &&& self.invoices@[invoice_id].dispute_status == DisputeStatus::NoDispute
        &&& !self.investments@.contains_key(invoice_id)
    }

    /// The effect of final settlement at paid total `total_paid`, after
    /// recording `applied`.
    pub open spec fn spec_settle_effect(&self, invoice_id: u64, total_paid: i128, applied: i128) -> PaymentEffect {
        if self.spec_settle_aborts(invoice_id) {
            PaymentEffect::Aborts
        } else {
            match self.spec_settle_check(invoice_id, total_paid) {
                Err(e) => PaymentEffect::Refused(e),
                Ok(split) => PaymentEffect::Settled(applied, split.0, split.1),
            }
        }
    }

    /// The token movements of final settlement: release of held escrow to
    /// the business, the investor's return, and the platform fee if any.
    pub open spec fn spec_settlement_transfers(
        &self,
        invoice_id: u64,
        investor_return: i128,
        platform_fee: i128,
    ) -> Seq<Transfer> {
        let inv = self.invoices@[invoice_id];
        let escrow = self.escrows@[invoice_id];
        let release = if self.escrows@.contains_key(invoice_id) && escrow.status
            == EscrowStatus::Held {
            seq![
                Transfer {
                    currency: escrow.currency,
                    from: Party::Contract,
                    to: Party::Account(escrow.business),
                    amount: escrow.amount,
                },
            ]
        } else {
            Seq::<Transfer>::empty()
        };
        let payout = seq![
            Transfer {
                currency: inv.currency,
                from: Party::Account(inv.business),
                to: Party::Account(inv.investor.unwrap()),
                amount: investor_return,
            },
        ];
        let fee = if platform_fee > 0 {
            seq![
                Transfer {
                    currency: inv.currency,
                    from: Party::Account(inv.business),
                    to: Party::FeeRecipient,
                    amount: platform_fee,
                },
            ]
        } else {
            Seq::<Transfer>::empty()
        };
        release + payout + fee
    }

    /// `self` is `old` after final settlement of the invoice at time `now`:
    /// the invoice is paid, the settlement finalized, the investment
    /// completed and held escrow released.
    pub open spec fn spec_settled(&self, old: &Self, invoice_id: u64, now: u64) -> bool {
        let inv0 = old.invoices@[invoice_id];
        let inv1 = self.invoices@[invoice_id];
        let escrow = old.escrows@[invoice_id];
        &&& self.invoices@ == old.invoices@.insert(invoice_id, inv1)
        &&& same_invoice_terms(inv0, inv1)
        &&& inv1.total_paid == inv0.total_paid
        &&& inv1.payment_history == inv0.payment_history
        &&& inv1.status == InvoiceStatus::Paid
        &&& inv1.settled_at == Some(now)
        &&& self.spec_payment_records(invoice_id) == old.spec_payment_records(invoice_id)
        &&& self.spec_is_finalized(invoice_id)
        &&& self.settlements@.remove(invoice_id) == old.settlements@.remove(invoice_id)
        &&& self.investments@ == old.investments@.insert(
            invoice_id,
            Investment { status: InvestmentStatus::Completed, ..old.investments@[invoice_id] },
        )
        &&& self.escrows@ == (if old.escrows@.contains_key(invoice_id) && escrow.status
            == EscrowStatus::Held {
            old.escrows@.insert(invoice_id, Escrow { status: EscrowStatus::Released, ..escrow })
        } else {
            old.escrows@
        })
        &&& self.admin == old.admin
        &&& self.paused == old.paused
        &&& self.platform_fee_bps == old.platform_fee_bps
        &&& self.next_id == old.next_id
        &&& self.frozen_invoices == old.frozen_invoices
        &&& self.bids == old.bids
        &&& self.invoice_bids == old.invoice_bids
        &&& self.bid_markers == old.bid_markers
        &&& self.investor_verifications == old.investor_verifications
        &&& self.business_verifications == old.business_verifications
        &&& self.limits == old.limits
        &&& self.verified_order == old.verified_order
    }

    /// How `process_partial_payment` decides a request.
    pub open spec fn spec_partial_payment(&self, invoice_id: u64, amount: i128, nonce: Seq<char>) -> PaymentEffect {
        if !self.invoices@.contains_key(invoice_id) {
            PaymentEffect::Refused(QuickLendXError::InvoiceNotFound)
        } else {
            let inv = self.invoices@[invoice_id];
            let count = self.spec_payment_records(invoice_id).len();
            match self.spec_record_plan(invoice_id, inv.business, amount, nonce) {
                Err(e) => PaymentEffect::Refused(e),
                Ok(RecordPlan::Duplicate) => match self.spec_invoice_progress(invoice_id) {
                    Err(e) => PaymentEffect::Refused(e),
                    Ok(p) => if count == 0 {
                        PaymentEffect::Refused(QuickLendXError::StorageKeyNotFound)
                    } else if p.total_paid >= p.total_due {
                        self.spec_settle_effect(invoice_id, inv.total_paid, 0)
                    } else {
                        PaymentEffect::Unchanged
                    },
                },
                Ok(RecordPlan::Apply(a)) => match spec_progress(
                    inv.amount,
                    (inv.total_paid + a) as i128,
                    inv.status,
                    count + 1,
                ) {
                    Err(e) => PaymentEffect::Refused(e),
                    Ok(p) => if p.total_paid >= p.total_due {
                        self.spec_settle_effect(invoice_id, p.total_paid, a)
                    } else {
                        PaymentEffect::Recorded(a)
                    },
                },
            }
        }
    }

    /// How `settle_invoice` decides a request to settle with a final payment.
    pub open spec fn spec_settle_invoice(&self, invoice_id: u64, payment_amount: i128) -> PaymentEffect {
        if payment_amount <= 0 {
            PaymentEffect::Refused(QuickLendXError::InvalidAmount)
        } else if self.spec_is_finalized(invoice_id) {
            PaymentEffect::Refused(QuickLendXError::InvalidStatus)
        } else if self.frozen_invoices@.contains(invoice_id) {
            PaymentEffect::Refused(QuickLendXError::InvoiceFrozen)
        } else if !self.invoices@.contains_key(invoice_id) {
            PaymentEffect::Refused(QuickLendXError::InvoiceNotFound)
        } else {
            let inv = self.invoices@[invoice_id];
            if inv.status != InvoiceStatus::Funded {
                PaymentEffect::Refused(QuickLendXError::InvalidStatus)
            } else if inv.dispute_status != DisputeStatus::NoDispute {
                PaymentEffect::Refused(QuickLendXError::DisputeActive)
            } else {
                match spec_remaining_due(inv.amount, inv.total_paid) {
                    Err(e) => PaymentEffect::Refused(e),
                    Ok(remaining) => {
                        let projected = inv.total_paid + payment_amount;
                        if payment_amount > remaining {
                            PaymentEffect::Refused(QuickLendXError::InvalidAmount)
                        } else if projected > i128::MAX || projected < i128::MIN {
                            PaymentEffect::Refused(QuickLendXError::InvalidAmount)
                        } else if !self.investments@.contains_key(invoice_id) {
                            PaymentEffect::Aborts
                        } else if projected < inv.amount || projected
                            < self.investments@[invoice_id].amount {
                            PaymentEffect::Refused(QuickLendXError::PaymentTooLow)
                        } else {
                            let count = self.spec_payment_records(invoice_id).len();
                            match self.spec_record_plan(
                                invoice_id,
                                inv.business,
                                payment_amount,
                                settlement_nonce(),
                            ) {
                                Err(e) => PaymentEffect::Refused(e),
                                Ok(RecordPlan::Duplicate) => match self.spec_invoice_progress(
                                    invoice_id,
                                ) {
                                    Err(e) => PaymentEffect::Refused(e),
                                    Ok(_) => self.spec_settle_effect(invoice_id, inv.total_paid, 0),
                                },
                                Ok(RecordPlan::Apply(a)) => match spec_progress(
                                    inv.amount,
                                    (inv.total_paid + a) as i128,
                                    inv.status,
                                    count + 1,
                                ) {
                                    Err(e) => PaymentEffect::Refused(e),
                                    Ok(p) => self.spec_settle_effect(invoice_id, p.total_paid, a),
                                },
                            }
                        }
                    },
                }
            }
        }
    }

    /// The state after an accepted payment or settlement request, given its
    /// effect and the transfers it returned.
    pub open spec fn spec_payment_outcome(
        &self,
        old: &Self,
        eff: PaymentEffect,
        invoice_id: u64,
        nonce: Seq<char>,
        now: u64,
        r: Result<Vec<Transfer>, QuickLendXError>,
    ) -> bool {
        match eff {
            PaymentEffect::Refused(e) => r == Err::<Vec<Transfer>, QuickLendXError>(e) && *self
                == *old,
            PaymentEffect::Unchanged => r is Ok && r->Ok_0@ == Seq::<Transfer>::empty() && *self
                == *old,
            PaymentEffect::Recorded(a) => r is Ok && r->Ok_0@ == Seq::<Transfer>::empty()
                && self.spec_payment_applied(
                old,
                invoice_id,
                old.invoices@[invoice_id].business,
                a,
                nonce,
                now,
            ),
            PaymentEffect::Settled(a, ret, fee) => r is Ok && r->Ok_0@
                == old.spec_settlement_transfers(invoice_id, ret, fee) && (a == 0
                ==> self.spec_settled(old, invoice_id, now)) && (a != 0 ==> exists|
                mid: QuickLendXContract,
            |
                mid.spec_payment_applied(
                    old,
                    invoice_id,
                    old.invoices@[invoice_id].business,
                    a,
                    nonce,
                    now,
                ) && #[trigger] self.spec_settled(&mid, invoice_id, now)),
            PaymentEffect::Aborts => true,
        }
    }

    fn check_settle(&self, invoice_id: u64, total_paid: i128) -> (r: Result<(i128, i128), QuickLendXError>)
        requires
            self.wf(),
            !self.spec_settle_aborts(invoice_id),
            total_paid >= 0,
        ensures
            r == self.spec_settle_check(invoice_id, total_paid),
    {
        if self.is_finalized(invoice_id) {
            return Err(QuickLendXError::InvalidStatus);
        }
        let inv = match self.invoices.get(&invoice_id) {
            Some(inv) => inv,
            None => return Err(QuickLendXError::InvoiceNotFound),
        };
        match ensure_payable_status(inv) {
            Ok(()) => {},
            Err(e) => return Err(e),
        }
        if inv.dispute_status != DisputeStatus::NoDispute {
            return Err(QuickLendXError::DisputeActive);
        }
        let investment_amount = match self.investments.get(&invoice_id) {
            Some(investment) => investment.amount,
            None => return Err(QuickLendXError::StorageKeyNotFound),
        };
        if total_paid < inv.amount || total_paid < investment_amount {
            return Err(QuickLendXError::PaymentTooLow);
        }
        if inv.investor.is_none() {
            return Err(QuickLendXError::NotInvestor);
        }
        let (investor_return, platform_fee) = calculate_profit(
            investment_amount,
            total_paid,
            self.platform_fee_bps,
        );
        let disbursement_total = match investor_return.checked_add(platform_fee) {
            Some(v) => v,
            None => return Err(QuickLendXError::InvalidAmount),
        };
        if disbursement_total != total_paid {
            return Err(QuickLendXError::InvalidAmount);
        }
        Ok((investor_return, platform_fee))
    }

    fn is_finalized(&self, invoice_id: u64) -> (r: bool)
        ensures
            r == self.spec_is_finalized(invoice_id),
    {
        match self.settlements.get(&invoice_id) {
            Some(log) => log.finalized,
            None => false,
        }
    }

    /// Carry out final settlement once `check_settle` accepted it.
    fn apply_settlement(&mut self, invoice_id: u64, investor_return: i128, platform_fee: i128, now: u64) -> (transfers: Vec<Transfer>)
        requires
            old(self).wf(),
            old(self).spec_settle_check(invoice_id, old(self).invoices@[invoice_id].total_paid)
                == Ok::<(i128, i128), QuickLendXError>((investor_return, platform_fee)),
            !old(self).spec_settle_aborts(invoice_id),
        ensures
            final(self).wf(),
            final(self).spec_settled(&*old(self), invoice_id, now),
            transfers@ == old(self).spec_settlement_transfers(invoice_id, investor_return, platform_fee),
    {
        let ghost old_self = *self;
        let mut transfers: Vec<Transfer> = Vec::new();
        match self.escrows.remove(&invoice_id) {
            Some(escrow) => {
                let mut escrow = escrow;
                if escrow.status == EscrowStatus::Held {
                    transfers.push(
                        Transfer {
                            currency: escrow.currency,
                            from: Party::Contract,
                            to: Party::Account(escrow.business),
                            amount: escrow.amount,
                        },
                    );
                    escrow.status = EscrowStatus::Released;
                }
                self.escrows.insert(invoice_id, escrow);
            },
            None => {},
        }
        let mut inv = self.invoices.remove(&invoice_id).unwrap();
        let investor = inv.investor.unwrap();
        transfers.push(
            Transfer {
                currency: inv.currency,
                from: Party::Account(inv.business),
                to: Party::Account(investor),
                amount: investor_return,
            },
        );
        if platform_fee > 0 {
            transfers.push(
                Transfer {
                    currency: inv.currency,
                    from: Party::Account(inv.business),
                    to: Party::FeeRecipient,
                    amount: platform_fee,
                },
            );
        }
        proof {
            assert(old_self.spec_payment_records(invoice_id).len() > 0) by {
                if old_self.spec_payment_records(invoice_id).len() == 0 {
                    assert(records_total(old_self.spec_payment_records(invoice_id)) == 0);
                }
            }
        }
        let mut log = self.settlements.remove(&invoice_id).unwrap();
        log.finalized = true;
        self.settlements.insert(invoice_id, log);
        inv.status = InvoiceStatus::Paid;
        inv.settled_at = Some(now);
        self.invoices.insert(invoice_id, inv);
        let mut investment = self.investments.remove(&invoice_id).unwrap();
        investment.status = InvestmentStatus::Completed;
        self.investments.insert(invoice_id, investment);
        proof {
            assert(self.invoices@ =~= old_self.invoices@.insert(
                invoice_id,
                self.invoices@[invoice_id],
            ));
            assert(self.settlements@.remove(invoice_id) =~= old_self.settlements@.remove(
                invoice_id,
            ));
            assert(self.investments@ =~= old_self.investments@.insert(
                invoice_id,
                Investment {
                    status: InvestmentStatus::Completed,
                    ..old_self.investments@[invoice_id]
                },
            ));
            let escrow = old_self.escrows@[invoice_id];
            if old_self.escrows@.contains_key(invoice_id) && escrow.status == EscrowStatus::Held {
                assert(self.escrows@ =~= old_self.escrows@.insert(
                    invoice_id,
                    Escrow { status: EscrowStatus::Released, ..escrow },
                ));
            } else if old_self.escrows@.contains_key(invoice_id) {
                assert(self.escrows@ =~= old_self.escrows@.insert(invoice_id, escrow));
                assert(self.escrows@ =~= old_self.escrows@);
            } else {
                assert(self.escrows@ =~= old_self.escrows@);
            }
            assert(transfers@ =~= old_self.spec_settlement_transfers(
                invoice_id,
                investor_return,
                platform_fee,
            ));
            assert forall|k: u64| #[trigger]
                self.invoices@.contains_key(k) implies records_total(
                self.spec_payment_records(k),
            ) == self.invoices@[k].total_paid by {
                if k != invoice_id {
                    assert(old_self.invoices@.contains_key(k));
                    assert(self.spec_payment_records(k) == old_self.spec_payment_records(k));
                }
            }
        }
        transfers
    }

    fn settle_invoice_internal(&mut self, invoice_id: u64, now: u64) -> (r: Result<Vec<Transfer>, QuickLendXError>)
        requires
            old(self).wf(),
            !old(self).spec_settle_aborts(invoice_id),
        ensures
            final(self).wf(),
            match old(self).spec_settle_check(invoice_id, old(self).invoices@[invoice_id].total_paid) {
                Err(e) => r == Err::<Vec<Transfer>, QuickLendXError>(e) && *final(self) == *old(self),
                Ok(split) => r is Ok && r->Ok_0@ == old(self).spec_settlement_transfers(invoice_id, split.0, split.1)
                    && final(self).spec_settled(&*old(self), invoice_id, now),
            },
    {
        let total_paid = match self.invoices.get(&invoice_id) {
            Some(inv) => inv.total_paid,
            None => 0,
        };
        let (investor_return, platform_fee) = match self.check_settle(invoice_id, total_paid) {
            Ok(split) => split,
            Err(e) => return Err(e),
        };
        Ok(self.apply_settlement(invoice_id, investor_return, platform_fee, now))
    }
}

/// The settlement nonce used by full settlement: final settlement succeeds
/// at most once per invoice, so one fixed nonce suffices.
fn make_settlement_nonce() -> (s: String)
    ensures
        s@ == settlement_nonce(),
{
    String::from_str("settlement")
}

impl QuickLendXContract {
    fn settle_after_payment(&mut self, invoice_id: u64, payer: u64, applied: i128, nonce: String, now: u64) -> (r: Result<Vec<Transfer>, QuickLendXError>)
        requires
            old(self).wf(),
            old(self).invoices@.contains_key(invoice_id),
            old(self).spec_payment_records(invoice_id).len() < MAX_PAYMENT_COUNT,
            applied > 0,
            old(self).invoices@[invoice_id].total_paid + applied <= old(self).invoices@[invoice_id].amount,
            !old(self).spec_settle_aborts(invoice_id),
        ensures
            final(self).wf(),
            match old(self).spec_settle_check(invoice_id, (old(self).invoices@[invoice_id].total_paid + applied) as i128) {
                Err(e) => r == Err::<Vec<Transfer>, QuickLendXError>(e) && *final(self) == *old(self),
                Ok(split) => r is Ok && r->Ok_0@ == old(self).spec_settlement_transfers(invoice_id, split.0, split.1)
                    && exists|mid: QuickLendXContract| mid.spec_payment_applied(&*old(self), invoice_id, payer, applied, nonce@, now)
                        && #[trigger] final(self).spec_settled(&mid, invoice_id, now),
            },
    {
        let new_total = match self.invoices.get(&invoice_id) {
            Some(inv) => inv.total_paid + applied,
            None => 0,
        };
        let (investor_return, platform_fee) = match self.check_settle(invoice_id, new_total) {
            Ok(split) => split,
            Err(e) => return Err(e),
        };
        let ghost old_self = *self;
        self.apply_payment(invoice_id, payer, applied, nonce, now);
        let ghost mid = *self;
        proof {
            assert(mid.spec_settle_check(invoice_id, mid.invoices@[invoice_id].total_paid)
                == old_self.spec_settle_check(invoice_id, new_total));
            assert(mid.spec_settlement_transfers(invoice_id, investor_return, platform_fee)
                =~= old_self.spec_settlement_transfers(invoice_id, investor_return, platform_fee));
        }
        let transfers = self.apply_settlement(invoice_id, investor_return, platform_fee, now);
        assert(self.spec_settled(&mid, invoice_id, now));
        Ok(transfers)
    }
}

/// Aggregate payment progress of an invoice.
pub fn get_invoice_progress(c: &QuickLendXContract, invoice_id: u64) -> (r: Result<Progress, QuickLendXError>)
    requires
        c.wf(),
    ensures
        r == c.spec_invoice_progress(invoice_id),
{
    let inv = match c.invoices.get(&invoice_id) {
        Some(inv) => inv,
        None => return Err(QuickLendXError::InvoiceNotFound),
    };
    let count = c.payment_count_internal(invoice_id);
    progress_of(inv.amount, inv.total_paid, inv.status, count)
}

/// Record a payment against a funded invoice.
///
/// The requested amount is capped at the amount still due; a non-empty
/// nonce that was already recorded makes the call an idempotent no-op that
/// reports the current progress. Refused requests leave the state as it was.
pub fn record_payment(
    c: &mut QuickLendXContract,
    invoice_id: u64,
    payer: u64,
    amount: i128,
    payment_nonce: String,
    now: u64,
) -> (r: Result<Progress, QuickLendXError>)
    requires
        old(c).wf(),
    ensures
        final(c).wf(),
        match old(c).spec_record_plan(invoice_id, payer, amount, payment_nonce@) {
            Err(e) => r == Err::<Progress, QuickLendXError>(e) && *final(c) == *old(c),
            Ok(RecordPlan::Duplicate) => r == old(c).spec_invoice_progress(invoice_id)
                && *final(c) == *old(c),
            Ok(RecordPlan::Apply(applied)) => {
                let inv = old(c).invoices@[invoice_id];
                match spec_progress(
                    inv.amount,
                    (inv.total_paid + applied) as i128,
                    inv.status,
                    old(c).spec_payment_records(invoice_id).len() + 1,
                ) {
                    Err(e) => r == Err::<Progress, QuickLendXError>(e)
                        && *final(c) == *old(c),
                    Ok(p) => r == Ok::<Progress, QuickLendXError>(p)
                        && final(c).spec_payment_applied(
                        &*old(c),
                        invoice_id,
                        payer,
                        applied,
                        payment_nonce@,
                        now,
                    ) && r == final(c).spec_invoice_progress(invoice_id),
                }
            },
        },
{
    let plan = match c.plan_record_payment(invoice_id, payer, amount, &payment_nonce) {
        Ok(p) => p,
        Err(e) => return Err(e),
    };
    match plan {
        RecordPlan::Duplicate => get_invoice_progress(c, invoice_id),
        RecordPlan::Apply(applied) => {
            let count = c.payment_count_internal(invoice_id);
            let (total_due, total_paid, status) = match c.invoices.get(&invoice_id) {
                Some(inv) => (inv.amount, inv.total_paid, inv.status),
                None => return Err(QuickLendXError::InvoiceNotFound),
            };
            let progress = match progress_of(total_due, total_paid + applied, status, count + 1) {
                Ok(p) => p,
                Err(e) => return Err(e),
            };
            c.apply_payment(invoice_id, payer, applied, payment_nonce, now);
            Ok(progress)
        },
    }
}

/// Record a partial payment from the invoice's business; when the invoice
/// becomes fully paid, settle it. A payment that would complete an invoice
/// carrying a dispute is refused with `DisputeActive`.
///
/// Returns the token movements that settlement requires (none when the
/// invoice is not yet fully paid). Refused requests leave the state as it was.
pub fn process_partial_payment(
    c: &mut QuickLendXContract,
    invoice_id: u64,
    payment_amount: i128,
    transaction_id: String,
    now: u64,
) -> (r: Result<Vec<Transfer>, QuickLendXError>)
    requires
        old(c).wf(),
        !(old(c).spec_partial_payment(invoice_id, payment_amount, transaction_id@) is Aborts),
    ensures
        final(c).wf(),
        final(c).spec_payment_outcome(
            &*old(c),
            old(c).spec_partial_payment(invoice_id, payment_amount, transaction_id@),
            invoice_id,
            transaction_id@,
            now,
            r,
        ),
{
    let business = match c.invoices.get(&invoice_id) {
        Some(inv) => inv.business,
        None => return Err(QuickLendXError::InvoiceNotFound),
    };
    let plan = match c.plan_record_payment(invoice_id, business, payment_amount, &transaction_id) {
        Ok(p) => p,
        Err(e) => return Err(e),
    };
    match plan {
        RecordPlan::Duplicate => {
            let progress = match get_invoice_progress(c, invoice_id) {
                Ok(p) => p,
                Err(e) => return Err(e),
            };
            if c.payment_count_internal(invoice_id) == 0 {
                return Err(QuickLendXError::StorageKeyNotFound);
            }
            if progress.total_paid >= progress.total_due {
                c.settle_invoice_internal(invoice_id, now)
            } else {
                Ok(Vec::new())
            }
        },
        RecordPlan::Apply(applied) => {
            let count = c.payment_count_internal(invoice_id);
            let (total_due, total_paid, status) = match c.invoices.get(&invoice_id) {
                Some(inv) => (inv.amount, inv.total_paid, inv.status),
                None => return Err(QuickLendXError::InvoiceNotFound),
            };
            let progress = match progress_of(total_due, total_paid + applied, status, count + 1) {
                Ok(p) => p,
                Err(e) => return Err(e),
            };
            if progress.total_paid >= progress.total_due {
                c.settle_after_payment(invoice_id, business, applied, transaction_id, now)
            } else {
                c.apply_payment(invoice_id, business, applied, transaction_id, now);
                Ok(Vec::new())
            }
        },
    }
}

/// Settle an invoice with a final payment from its business.
///
/// The payment must not exceed the amount still due and must bring the
/// paid total up to both the invoice amount and the invested amount;
/// an invoice is settled at most once, and never while it carries a
/// dispute (`DisputeActive`). Refused requests leave the state
/// as it was.
pub fn settle_invoice(c: &mut QuickLendXContract, invoice_id: u64, payment_amount: i128, now: u64) -> (r: Result<
    Vec<Transfer>,
    QuickLendXError,
>)
    requires
        old(c).wf(),
        !(old(c).spec_settle_invoice(invoice_id, payment_amount) is Aborts),
    ensures
        final(c).wf(),
        final(c).spec_payment_outcome(
            &*old(c),
            old(c).spec_settle_invoice(invoice_id, payment_amount),
            invoice_id,
            settlement_nonce(),
            now,
            r,
        ),
{
    if payment_amount <= 0 {
        return Err(QuickLendXError::InvalidAmount);
    }
    if c.is_finalized(invoice_id) {
        return Err(QuickLendXError::InvalidStatus);
    }
    if c.frozen_invoices.contains(&invoice_id) {
        return Err(QuickLendXError::InvoiceFrozen);
    }
    let (business, amount, total_paid) = match c.invoices.get(&invoice_id) {
        Some(inv) => {
            match ensure_payable_status(inv) {
                Ok(()) => {},
                Err(e) => return Err(e),
            }
            if inv.dispute_status != DisputeStatus::NoDispute {
                return Err(QuickLendXError::DisputeActive);
            }
            let remaining = match compute_remaining_due(inv) {
                Ok(v) => v,
                Err(e) => return Err(e),
            };
            if payment_amount > remaining {
                return Err(QuickLendXError::InvalidAmount);
            }
            (inv.business, inv.amount, inv.total_paid)
        },
        None => return Err(QuickLendXError::InvoiceNotFound),
    };
    let projected = match total_paid.checked_add(payment_amount) {
        Some(v) => v,
        None => return Err(QuickLendXError::InvalidAmount),
    };
    let investment_amount = match c.investments.get(&invoice_id) {
        Some(investment) => investment.amount,
        None => return Err(QuickLendXError::StorageKeyNotFound),
    };
    if projected < amount || projected < investment_amount {
        return Err(QuickLendXError::PaymentTooLow);
    }
    let nonce = make_settlement_nonce();
    let plan = match c.plan_record_payment(invoice_id, business, payment_amount, &nonce) {
        Ok(p) => p,
        Err(e) => return Err(e),
    };
    match plan {
        RecordPlan::Duplicate => {
            match get_invoice_progress(c, invoice_id) {
                Ok(_) => {},
                Err(e) => return Err(e),
            }
            c.settle_invoice_internal(invoice_id, now)
        },
        RecordPlan::Apply(applied) => {
            let count = c.payment_count_internal(invoice_id);
            let status = InvoiceStatus::Funded;
            match progress_of(amount, total_paid + applied, status, count + 1) {
                Ok(_) => {},
                Err(e) => return Err(e),
            }
            c.settle_after_payment(invoice_id, business, applied, nonce, now)
        },
    }
}

/// Canonical settlement summary of an invoice; once finalized, nothing
/// remains due.
pub fn get_settlement_summary(c: &QuickLendXContract, invoice_id: u64) -> (r: Result<SettlementSummary, QuickLendXError>)
    requires
        c.wf(),
    ensures
        match c.spec_invoice_progress(invoice_id) {
            Err(e) => r == Err::<SettlementSummary, QuickLendXError>(e),
            Ok(p) => match spec_share(p.total_paid, p.total_due, 10000) {
                Err(e) => r == Err::<SettlementSummary, QuickLendXError>(e),
                Ok(bps) => r == Ok::<SettlementSummary, QuickLendXError>(SettlementSummary {
                    total_due: p.total_due,
                    total_paid: p.total_paid,
                    remaining: if c.spec_is_finalized(invoice_id) { 0 } else { p.remaining_due },
                    percent_complete_bps: bps,
                    finalized: c.spec_is_finalized(invoice_id),
                }),
            },
        },
{
    let progress = match get_invoice_progress(c, invoice_id) {
        Ok(p) => p,
        Err(e) => return Err(e),
    };
    let finalized = match is_invoice_finalized(c, invoice_id) {
        Ok(f) => f,
        Err(e) => return Err(e),
    };
    let bps = match share(progress.total_paid, progress.total_due, 10000) {
        Ok(v) => v,
        Err(e) => return Err(e),
    };
    Ok(SettlementSummary {
        total_due: progress.total_due,
        total_paid: progress.total_paid,
        remaining: if finalized { 0 } else { progress.remaining_due },
        percent_complete_bps: bps,
        finalized,
    })
}

/// Total number of payments recorded for an invoice.
pub fn get_payment_count(c: &QuickLendXContract, invoice_id: u64) -> (r: Result<u32, QuickLendXError>)
    requires
        c.wf(),
    ensures
        !c.invoices@.contains_key(invoice_id) ==> r == Err::<u32, QuickLendXError>(QuickLendXError::InvoiceNotFound),
        c.invoices@.contains_key(invoice_id) ==> r == Ok::<u32, QuickLendXError>(c.spec_payment_records(invoice_id).len() as u32),
{
    if !c.invoices.contains_key(&invoice_id) {
        return Err(QuickLendXError::InvoiceNotFound);
    }
    Ok(c.payment_count_internal(invoice_id))
}

/// A single payment record, by its position in payment order.
pub fn get_payment_record(c: &QuickLendXContract, invoice_id: u64, index: u32) -> (r: Result<SettlementPaymentRecord, QuickLendXError>)
    requires
        c.wf(),
    ensures
        !c.invoices@.contains_key(invoice_id) ==> r == Err::<SettlementPaymentRecord, QuickLendXError>(QuickLendXError::InvoiceNotFound),
        c.invoices@.contains_key(invoice_id) && index >= c.spec_payment_records(invoice_id).len()
            ==> r == Err::<SettlementPaymentRecord, QuickLendXError>(QuickLendXError::StorageKeyNotFound),
        c.invoices@.contains_key(invoice_id) && index < c.spec_payment_records(invoice_id).len()
            ==> r == Ok::<SettlementPaymentRecord, QuickLendXError>(c.spec_payment_records(invoice_id)[index as int]),
{
    if !c.invoices.contains_key(&invoice_id) {
        return Err(QuickLendXError::InvoiceNotFound);
    }
    match c.settlements.get(&invoice_id) {
        Some(log) => {
            if (index as usize) < log.records.len() {
                Ok(copy_record(&log.records[index as usize]))
            } else {
                Err(QuickLendXError::StorageKeyNotFound)
            }
        },
        None => Err(QuickLendXError::StorageKeyNotFound),
    }
}

/// Payment records `from .. from + min(limit, MAX_QUERY_LIMIT)`, in payment
/// order, cut at the number of records.
pub fn get_payment_records(c: &QuickLendXContract, invoice_id: u64, from: u32, limit: u32) -> (r: Result<Vec<SettlementPaymentRecord>, QuickLendXError>)
    requires
        c.wf(),
    ensures
        !c.invoices@.contains_key(invoice_id) ==> r == Err::<Vec<SettlementPaymentRecord>, QuickLendXError>(QuickLendXError::InvoiceNotFound),
        c.invoices@.contains_key(invoice_id) ==> r is Ok && {
            let total = c.spec_payment_records(invoice_id).len() as int;
            let lim = if limit < MAX_QUERY_LIMIT { limit as int } else { MAX_QUERY_LIMIT as int };
            let end = if from + lim < total { from + lim } else { total };
            r->Ok_0@ == (if from < end { c.spec_payment_records(invoice_id).subrange(from as int, end) } else { Seq::<SettlementPaymentRecord>::empty() })
        },
{
    if !c.invoices.contains_key(&invoice_id) {
        return Err(QuickLendXError::InvoiceNotFound);
    }
    let total = c.payment_count_internal(invoice_id);
    let mut records: Vec<SettlementPaymentRecord> = Vec::new();
    let actual_limit = if limit < MAX_QUERY_LIMIT { limit } else { MAX_QUERY_LIMIT };
    let sum = from.saturating_add(actual_limit);
    let end = if sum < total { sum } else { total };
    let ghost all = c.spec_payment_records(invoice_id);
    match c.settlements.get(&invoice_id) {
        Some(log) => {
            let mut idx = from;
            while idx < end
                invariant
                    from <= idx <= end || (from >= end && idx == from),
                    end <= total,
                    total == all.len(),
                    log.records@ == all,
                    from < end ==> records@ == all.subrange(from as int, idx as int),
                    from >= end ==> records@ == Seq::<SettlementPaymentRecord>::empty(),
                decreases end - idx,
            {
                records.push(copy_record(&log.records[idx as usize]));
                idx = idx + 1;
                assert(records@ =~= all.subrange(from as int, idx as int));
            }
        },
        None => {},
    }
    Ok(records)
}

/// Whether final settlement of the invoice has completed.
pub fn is_invoice_finalized(c: &QuickLendXContract, invoice_id: u64) -> (r: Result<bool, QuickLendXError>)
    ensures
        !c.invoices@.contains_key(invoice_id) ==> r == Err::<bool, QuickLendXError>(QuickLendXError::InvoiceNotFound),
        c.invoices@.contains_key(invoice_id) ==> r == Ok::<bool, QuickLendXError>(c.spec_is_finalized(invoice_id)),
{
    if !c.invoices.contains_key(&invoice_id) {
        return Err(QuickLendXError::InvoiceNotFound);
    }
    Ok(c.is_finalized(invoice_id))
}

} // verus!
