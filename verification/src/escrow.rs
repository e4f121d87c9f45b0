//! Escrow funding flow: accepting a bid locks the investor's funds in
//! escrow; a funded invoice can be refunded (admin or business) or the
//! investment withdrawn (investor) while the escrow is still held.
//!
//! Each invoice has at most one escrow record: escrows are keyed by invoice,
//! and funding refuses an invoice that already has an escrow or investment.
use vstd::prelude::*;

use crate::bids::bids_after_cleanup;
use crate::contract::{entered_verified, QuickLendXContract};
use crate::errors::QuickLendXError;
use crate::types::{
    Bid, BidStatus, Escrow, EscrowStatus, Investment, InvestmentStatus, Invoice, InvoiceStatus,
    Party, Transfer, VerificationStatus,
};

verus! {

broadcast use vstd::std_specs::hash::group_hash_axioms;

/// The first bid named in `list` whose status is accepted.
pub open spec fn first_accepted(bids: Map<u64, Bid>, list: Seq<u64>) -> Option<u64>
    decreases list.len(),
{
    if list.len() == 0 {
        None
    } else if bids[list[0]].status == BidStatus::Accepted {
        Some(list[0])
    } else {
        first_accepted(bids, list.drop_first())
    }
}

/// `bids` after cancelling the first accepted bid named in `list`.
pub open spec fn bids_after_cancel_accepted(bids: Map<u64, Bid>, list: Seq<u64>) -> Map<u64, Bid> {
    match first_accepted(bids, list) {
        Some(k) => bids.insert(k, Bid { status: BidStatus::Cancelled, ..bids[k] }),
        None => bids,
    }
}

/// `b` is `a` with only its status and funding fields possibly changed.
pub open spec fn same_invoice_except_funding(a: Invoice, b: Invoice) -> bool {
    &&& b.id == a.id
    &&& b.business == a.business
    &&& b.amount == a.amount
    &&& b.currency == a.currency
    &&& b.due_date == a.due_date
    &&& b.created_at == a.created_at
    &&& b.description == a.description
    &&& b.category == a.category
    &&& b.settled_at == a.settled_at
    &&& b.total_paid == a.total_paid
    &&& b.payment_history == a.payment_history
    &&& b.dispute_status == a.dispute_status
    &&& b.dispute == a.dispute
}

impl QuickLendXContract {
    /// Why the business may not act on its invoices, if it may not: a
    /// pending KYC, or a KYC that is not verified.
    pub open spec fn spec_business_kyc_error(&self, business: u64) -> Option<QuickLendXError> {
        if !self.business_verifications@.contains_key(business) {
            Some(QuickLendXError::BusinessNotVerified)
        } else if self.business_verifications@[business] == VerificationStatus::Pending {
            Some(QuickLendXError::KYCAlreadyPending)
        } else if self.business_verifications@[business] == VerificationStatus::Verified {
            None
        } else {
            Some(QuickLendXError::BusinessNotVerified)
        }
    }

    /// The investor has a verified KYC record.
    pub open spec fn spec_investor_verified(&self, investor: u64) -> bool {
        self.investor_verifications@.contains_key(investor)
            && self.investor_verifications@[investor].status == VerificationStatus::Verified
    }

    /// Validation of `accept_bid_and_fund` up to the bid lookup.
    pub open spec fn spec_accept_invoice_check(&self, invoice_id: u64) -> Result<(), QuickLendXError> {
        if !self.invoices@.contains_key(invoice_id) {
            Err(QuickLendXError::InvoiceNotFound)
        } else {
            let inv = self.invoices@[invoice_id];
            if self.spec_business_kyc_error(inv.business) is Some {
                Err(self.spec_business_kyc_error(inv.business).unwrap())
            } else if inv.status == InvoiceStatus::Funded {
                Err(QuickLendXError::InvoiceAlreadyFunded)
            } else if inv.status != InvoiceStatus::Verified {
                Err(QuickLendXError::InvoiceNotAvailableForFunding)
            } else if inv.funded_amount != 0 || inv.funded_at is Some || inv.investor is Some {
                Err(QuickLendXError::InvalidStatus)
            } else if self.escrows@.contains_key(invoice_id) || self.investments@.contains_key(
                invoice_id,
            ) {
                Err(QuickLendXError::InvalidStatus)
            } else {
                Ok(())
            }
        }
    }

    /// How `accept_bid_and_fund` decides a request, judged on the bids after
    /// the invoice's expired bids were cleaned up.
    pub open spec fn spec_accept_check(&self, invoice_id: u64, bid_id: u64, now: u64) -> Result<(), QuickLendXError> {
        match self.spec_accept_invoice_check(invoice_id) {
            Err(e) => Err(e),
            Ok(()) => {
                let bid = bids_after_cleanup(self.bids@, self.spec_bid_list(invoice_id), now)[bid_id];
                if !self.bids@.contains_key(bid_id) {
                    Err(QuickLendXError::StorageKeyNotFound)
                } else if bid.invoice_id != invoice_id {
                    Err(QuickLendXError::Unauthorized)
                } else if bid.status != BidStatus::Placed {
                    Err(QuickLendXError::InvalidStatus)
                } else if bid.spec_is_expired(now) {
                    Err(QuickLendXError::InvalidStatus)
                } else if bid.bid_amount <= 0 {
                    Err(QuickLendXError::InvalidAmount)
                } else if !self.spec_investor_verified(bid.investor) {
                    Err(QuickLendXError::InvestorNotVerified)
                } else if self.next_id >= u64::MAX - 1 {
                    Err(QuickLendXError::StorageError)
                } else {
                    Ok(())
                }
            },
        }
    }

    /// `self` is `old` after the bid was accepted and the invoice funded at
    /// `now`: escrow holds the bid amount, the investment is active.
    pub open spec fn spec_funded(&self, old: &Self, invoice_id: u64, escrow_invoice: u64, bid_id: u64, cleaned: Map<u64, Bid>, now: u64) -> bool {
        let bid = cleaned[bid_id];
        let inv0 = old.invoices@[invoice_id];
        let inv1 = self.invoices@[invoice_id];
        &&& self.bids@ == cleaned.insert(bid_id, Bid { status: BidStatus::Accepted, ..bid })
        &&& self.invoices@ == old.invoices@.insert(invoice_id, inv1)
        &&& same_invoice_except_funding(inv0, inv1)
        &&& inv1.status == InvoiceStatus::Funded
        &&& inv1.funded_amount == bid.bid_amount
        &&& inv1.investor == Some(bid.investor)
        &&& inv1.funded_at == Some(now)
        &&& self.escrows@ == old.escrows@.insert(
            escrow_invoice,
            Escrow {
                escrow_id: old.next_id,
                invoice_id: escrow_invoice,
                investor: bid.investor,
                business: inv0.business,
                amount: bid.bid_amount,
                currency: inv0.currency,
                created_at: now,
                status: EscrowStatus::Held,
            },
        )
        &&& self.investments@ == old.investments@.insert(
            escrow_invoice,
            Investment {
                investment_id: (old.next_id + 1) as u64,
                invoice_id: escrow_invoice,
                investor: bid.investor,
                amount: bid.bid_amount,
                funded_at: now,
                status: InvestmentStatus::Active,
            },
        )
        &&& self.next_id == old.next_id + 2
        &&& self.admin == old.admin
        &&& self.paused == old.paused
        &&& self.platform_fee_bps == old.platform_fee_bps
        &&& self.frozen_invoices == old.frozen_invoices
        &&& self.settlements == old.settlements
        &&& self.invoice_bids == old.invoice_bids
        &&& self.bid_markers == old.bid_markers
        &&& self.investor_verifications == old.investor_verifications
        &&& self.business_verifications == old.business_verifications
        &&& self.limits == old.limits
        &&& self.verified_order == old.verified_order
    }

    /// The investor's transfer into escrow when funding the invoice.
    pub open spec fn spec_funding_transfer(&self, invoice_id: u64, bid: Bid) -> Transfer {
        Transfer {
            currency: self.invoices@[invoice_id].currency,
            from: Party::Account(bid.investor),
            to: Party::Contract,
            amount: bid.bid_amount,
        }
    }

    pub(crate) fn business_kyc_error(&self, business: u64) -> (r: Option<QuickLendXError>)
        ensures
            r == self.spec_business_kyc_error(business),
    {
        match self.business_verifications.get(&business) {
            None => Some(QuickLendXError::BusinessNotVerified),
            Some(status) => {
                if *status == VerificationStatus::Pending {
                    Some(QuickLendXError::KYCAlreadyPending)
                } else if *status == VerificationStatus::Verified {
                    None
                } else {
                    Some(QuickLendXError::BusinessNotVerified)
                }
            },
        }
    }

    /// Whether the investor's KYC is verified.
    pub fn is_investor_verified(&self, investor: u64) -> (r: bool)
        ensures
            r == self.spec_investor_verified(investor),
    {
        match self.investor_verifications.get(&investor) {
            Some(v) => v.status == VerificationStatus::Verified,
            None => false,
        }
    }

    /// Whether the invoice itself may be funded now (its business verified,
    /// itself verified and never funded, without escrow or investment).
    pub(crate) fn accept_invoice_check(&self, invoice_id: u64) -> (r: Result<(), QuickLendXError>)
        ensures
            r == self.spec_accept_invoice_check(invoice_id),
    {
        let inv = match self.invoices.get(&invoice_id) {
            Some(inv) => inv,
            None => return Err(QuickLendXError::InvoiceNotFound),
        };
        match self.business_kyc_error(inv.business) {
            Some(e) => return Err(e),
            None => {},
        }
        if inv.status == InvoiceStatus::Funded {
            return Err(QuickLendXError::InvoiceAlreadyFunded);
        }
        if inv.status != InvoiceStatus::Verified {
            return Err(QuickLendXError::InvoiceNotAvailableForFunding);
        }
        if inv.funded_amount != 0 || inv.funded_at.is_some() || inv.investor.is_some() {
            return Err(QuickLendXError::InvalidStatus);
        }
        if self.escrows.contains_key(&invoice_id) || self.investments.contains_key(&invoice_id) {
            return Err(QuickLendXError::InvalidStatus);
        }
        Ok(())
    }

    /// Lock `bid` in escrow for `escrow_invoice` and fund invoice `invoice_id`
    /// with it; returns the new escrow identifier.
    pub(crate) fn fund_with_bid(&mut self, invoice_id: u64, escrow_invoice: u64, bid_id: u64, now: u64) -> (r: u64)
        requires
            old(self).wf(),
            old(self).invoices@.contains_key(invoice_id),
            old(self).bids@.contains_key(bid_id),
            old(self).bids@[bid_id].invoice_id == escrow_invoice,
            old(self).next_id < u64::MAX - 1,
        ensures
            final(self).wf(),
            r == old(self).next_id,
            final(self).spec_funded(&*old(self), invoice_id, escrow_invoice, bid_id, old(self).bids@, now),
    {
        let ghost old_self = *self;
        let bid = *self.bids.get(&bid_id).unwrap();
        let escrow_id = self.next_id;
        let investment_id = self.next_id + 1;
        self.next_id = self.next_id + 2;
        let mut inv = self.invoices.remove(&invoice_id).unwrap();
        let escrow = Escrow {
            escrow_id,
            invoice_id: escrow_invoice,
            investor: bid.investor,
            business: inv.business,
            amount: bid.bid_amount,
            currency: inv.currency,
            created_at: now,
            status: EscrowStatus::Held,
        };
        self.escrows.insert(escrow_invoice, escrow);
        self.bids.insert(bid_id, Bid { status: BidStatus::Accepted, ..bid });
        inv.status = InvoiceStatus::Funded;
        inv.funded_amount = bid.bid_amount;
        inv.investor = Some(bid.investor);
        inv.funded_at = Some(now);
        self.invoices.insert(invoice_id, inv);
        let investment = Investment {
            investment_id,
            invoice_id: escrow_invoice,
            investor: bid.investor,
            amount: bid.bid_amount,
            funded_at: now,
            status: InvestmentStatus::Active,
        };
        self.investments.insert(escrow_invoice, investment);
        proof {
            assert(self.invoices@ =~= old_self.invoices@.insert(invoice_id, self.invoices@[invoice_id]));
            assert forall|k: u64| #[trigger] self.invoices@.contains_key(k) implies crate::settlement::records_total(
                self.spec_payment_records(k),
            ) == self.invoices@[k].total_paid by {
                assert(old_self.invoices@.contains_key(k));
            }
            assert forall|k: u64| #[trigger] self.invoice_bids@.contains_key(k) implies crate::contract::bid_list_wf(self.bids@, self.invoice_bids@[k]@, k) by {
                assert(crate::contract::bid_list_wf(old_self.bids@, old_self.invoice_bids@[k]@, k));
            }
        }
        escrow_id
    }

    /// Cancel the first accepted bid of the invoice, if any.
    fn cancel_accepted_bid(&mut self, invoice_id: u64)
        requires
            old(self).wf(),
        ensures
            final(self).wf(),
            final(self).same_except_bids(&*old(self)),
            final(self).bids@ == bids_after_cancel_accepted(old(self).bids@, old(self).spec_bid_list(invoice_id)),
    {
        let ghost old_self = *self;
        let ghost list = self.spec_bid_list(invoice_id);
        let n = match self.invoice_bids.get(&invoice_id) {
            Some(l) => l.len(),
            None => 0,
        };
        let mut i: usize = 0;
        assert(list.skip(0) =~= list);
        while i < n
            invariant
                old_self.wf(),
                old_self == *old(self),
                *self == old_self,
                list == old_self.spec_bid_list(invoice_id),
                n == list.len(),
                i <= n,
                forall|j: int| 0 <= j < list.len() ==> old_self.bids@.contains_key(#[trigger] list[j]),
                first_accepted(old_self.bids@, list) == first_accepted(old_self.bids@, list.skip(i as int)),
            decreases n - i,
        {
            let bid_id = self.invoice_bids.get(&invoice_id).unwrap()[i];
            let bid = *self.bids.get(&bid_id).unwrap();
            proof {
                assert(list.skip(i as int)[0] == bid_id);
                assert(list.skip(i as int).drop_first() =~= list.skip(i + 1));
            }
            if bid.status == BidStatus::Accepted {
                proof {
                    assert(list.skip(i as int).len() > 0);
                    assert(first_accepted(old_self.bids@, list.skip(i as int)) == Some(bid_id));
                    assert(bids_after_cancel_accepted(old_self.bids@, list) == old_self.bids@.insert(bid_id, Bid { status: BidStatus::Cancelled, ..bid }));
                }
                self.bids.insert(bid_id, Bid { status: BidStatus::Cancelled, ..bid });
                proof {
                    assert forall|k: u64| #[trigger] self.bids@.contains_key(k) implies k < self.next_id
                        && self.invoice_bids@.contains_key(self.bids@[k].invoice_id)
                        && self.invoice_bids@[self.bids@[k].invoice_id]@.contains(k) by {
                        assert(old_self.bids@.contains_key(k));
                    }
                    assert forall|k: u64| #[trigger] self.invoice_bids@.contains_key(k) implies crate::contract::bid_list_wf(self.bids@, self.invoice_bids@[k]@, k) by {
                        assert(crate::contract::bid_list_wf(old_self.bids@, old_self.invoice_bids@[k]@, k));
                    }
                }
                return;
            }
            i = i + 1;
        }
        proof {
            assert(list.skip(n as int) =~= Seq::<u64>::empty());
        }
    }

    /// Return held escrow funds to the investor: the escrow must still be held.
    fn refund_held_escrow(&mut self, invoice_id: u64) -> (r: Result<Transfer, QuickLendXError>)
        requires
            old(self).wf(),
            old(self).escrows@.contains_key(invoice_id),
        ensures
            final(self).wf(),
            old(self).escrows@[invoice_id].status != EscrowStatus::Held ==> r == Err::<Transfer, QuickLendXError>(QuickLendXError::InvalidStatus) && *final(self) == *old(self),
            old(self).escrows@[invoice_id].status == EscrowStatus::Held ==> {
                let e = old(self).escrows@[invoice_id];
                &&& r == Ok::<Transfer, QuickLendXError>(Transfer { currency: e.currency, from: Party::Contract, to: Party::Account(e.investor), amount: e.amount })
                &&& final(self).escrows@ == old(self).escrows@.insert(invoice_id, Escrow { status: EscrowStatus::Refunded, ..e })
                &&& final(self).invoices == old(self).invoices
                &&& final(self).bids == old(self).bids
                &&& final(self).investments == old(self).investments
                &&& final(self).settlements == old(self).settlements
                &&& final(self).next_id == old(self).next_id
                &&& final(self).invoice_bids == old(self).invoice_bids
                &&& final(self).bid_markers == old(self).bid_markers
                &&& final(self).admin == old(self).admin
                &&& final(self).paused == old(self).paused
                &&& final(self).platform_fee_bps == old(self).platform_fee_bps
                &&& final(self).frozen_invoices == old(self).frozen_invoices
                &&& final(self).investor_verifications == old(self).investor_verifications
                &&& final(self).business_verifications == old(self).business_verifications
                &&& final(self).limits == old(self).limits
                &&& final(self).verified_order == old(self).verified_order
            },
    {
        let e = *self.escrows.get(&invoice_id).unwrap();
        if e.status != EscrowStatus::Held {
            return Err(QuickLendXError::InvalidStatus);
        }
        self.escrows.insert(invoice_id, Escrow { status: EscrowStatus::Refunded, ..e });
        Ok(Transfer { currency: e.currency, from: Party::Contract, to: Party::Account(e.investor), amount: e.amount })
    }
}

/// Accept a bid and fund the invoice: the investor's bid amount moves into
/// escrow, the bid is accepted, the invoice becomes funded and an active
/// investment is recorded. Returns the new escrow identifier and the
/// investor's transfer into escrow.
///
/// The invoice must be verified, unfunded and without escrow or investment;
/// its business must be KYC-verified; the bid must belong to the invoice,
/// be placed, unexpired and positive, and its investor KYC-verified. Expired
/// bids of the invoice are cleaned up first; an unknown bid gives
/// `StorageKeyNotFound`. Refused requests change nothing.
pub fn accept_bid_and_fund(c: &mut QuickLendXContract, invoice_id: u64, bid_id: u64, now: u64) -> (r: Result<(u64, Vec<Transfer>), QuickLendXError>)
    requires
        old(c).wf(),
    ensures
        final(c).wf(),
        match old(c).spec_accept_check(invoice_id, bid_id, now) {
            Err(e) => r == Err::<(u64, Vec<Transfer>), QuickLendXError>(e) && *final(c) == *old(c),
            Ok(()) => {
                let cleaned = old(c).spec_bids_after_cleanup(invoice_id, now);
                &&& r is Ok
                &&& r->Ok_0.0 == old(c).next_id
                &&& r->Ok_0.1@ == seq![old(c).spec_funding_transfer(invoice_id, cleaned[bid_id])]
                &&& final(c).spec_funded(&*old(c), invoice_id, invoice_id, bid_id, cleaned, now)
            },
        },
{
    match c.accept_invoice_check(invoice_id) {
        Ok(()) => {},
        Err(e) => return Err(e),
    }
    let ghost list = c.spec_bid_list(invoice_id);
    let ghost cleaned = c.spec_bids_after_cleanup(invoice_id, now);
    let bid0 = match c.bids.get(&bid_id) {
        Some(b) => *b,
        None => return Err(QuickLendXError::StorageKeyNotFound),
    };
    // The bid as it will be after the clean-up.
    let bid = if bid0.status == BidStatus::Placed && bid0.is_expired(now) && bid0.invoice_id == invoice_id {
        Bid { status: BidStatus::Expired, ..bid0 }
    } else {
        bid0
    };
    proof {
        if list.contains(bid_id) {
            let j = choose|j: int| 0 <= j < list.len() && list[j] == bid_id;
            assert(crate::contract::bid_list_wf(c.bids@, c.invoice_bids@[invoice_id]@, invoice_id));
            assert(bid0.invoice_id == invoice_id);
        }
        if bid0.invoice_id == invoice_id {
            assert(c.bids@.contains_key(bid_id));
            assert(list.contains(bid_id));
        }
        assert(bid == cleaned[bid_id]);
    }
    if bid.invoice_id != invoice_id {
        return Err(QuickLendXError::Unauthorized);
    }
    if bid.status != BidStatus::Placed {
        return Err(QuickLendXError::InvalidStatus);
    }
    if bid.is_expired(now) {
        return Err(QuickLendXError::InvalidStatus);
    }
    if bid.bid_amount <= 0 {
        return Err(QuickLendXError::InvalidAmount);
    }
    if !c.is_investor_verified(bid.investor) {
        return Err(QuickLendXError::InvestorNotVerified);
    }
    if c.next_id >= u64::MAX - 1 {
        return Err(QuickLendXError::StorageError);
    }
    let currency = c.invoices.get(&invoice_id).unwrap().currency;
    let ghost old_c = *c;
    let _cleaned = c.cleanup_expired_bids(invoice_id, now);
    let ghost mid = *c;
    let escrow_id = c.fund_with_bid(invoice_id, invoice_id, bid_id, now);
    assert(c.spec_funded(&mid, invoice_id, invoice_id, bid_id, mid.bids@, now));
    assert(mid.bids@ == cleaned);
    let mut transfers: Vec<Transfer> = Vec::new();
    transfers.push(Transfer { currency, from: Party::Account(bid.investor), to: Party::Contract, amount: bid.bid_amount });
    Ok((escrow_id, transfers))
}

impl QuickLendXContract {
    /// How `refund_escrow_funds` decides a request by `caller`.
    pub open spec fn spec_refund_check(&self, invoice_id: u64, caller: u64) -> Result<(), QuickLendXError> {
        if !self.invoices@.contains_key(invoice_id) {
            Err(QuickLendXError::InvoiceNotFound)
        } else if self.admin != Some(caller) && self.invoices@[invoice_id].business != caller {
            Err(QuickLendXError::Unauthorized)
        } else if self.invoices@[invoice_id].status != InvoiceStatus::Funded {
            Err(QuickLendXError::InvalidStatus)
        } else if !self.escrows@.contains_key(invoice_id) {
            Err(QuickLendXError::StorageKeyNotFound)
        } else if self.escrows@[invoice_id].status != EscrowStatus::Held {
            Err(QuickLendXError::InvalidStatus)
        } else {
            Ok(())
        }
    }

    /// How `withdraw_investment` decides a request by `investor`.
    pub open spec fn spec_withdraw_check(&self, invoice_id: u64, investor: u64) -> Result<(), QuickLendXError> {
        let investment = self.investments@[invoice_id];
        if !self.investments@.contains_key(invoice_id) {
            Err(QuickLendXError::StorageKeyNotFound)
        } else if investment.status != InvestmentStatus::Active {
            Err(QuickLendXError::InvalidStatus)
        } else if investment.investor != investor {
            Err(QuickLendXError::Unauthorized)
        } else if !self.invoices@.contains_key(invoice_id) {
            Err(QuickLendXError::InvoiceNotFound)
        } else if self.invoices@[invoice_id].status != InvoiceStatus::Funded {
            Err(QuickLendXError::InvoiceNotAvailableForFunding)
        } else if !self.escrows@.contains_key(invoice_id) {
            Err(QuickLendXError::StorageKeyNotFound)
        } else if self.escrows@[invoice_id].status != EscrowStatus::Held {
            Err(QuickLendXError::InvalidStatus)
        } else {
            Ok(())
        }
    }

    /// The transfer that returns the invoice's escrow to its investor.
    pub open spec fn spec_escrow_refund_transfer(&self, invoice_id: u64) -> Transfer {
        let e = self.escrows@[invoice_id];
        Transfer { currency: e.currency, from: Party::Contract, to: Party::Account(e.investor), amount: e.amount }
    }

    /// `self` is `old` after the invoice's escrow was refunded: the escrow is
    /// refunded, the invoice takes status `status` with the funding fields
    /// given, the first accepted bid is cancelled, and the investment (if
    /// any) takes status `investment_status`.
    pub open spec fn spec_unwound(
        &self,
        old: &Self,
        invoice_id: u64,
        status: InvoiceStatus,
        clear_funding: bool,
        investment_status: InvestmentStatus,
    ) -> bool {
        let inv0 = old.invoices@[invoice_id];
        let inv1 = self.invoices@[invoice_id];
        &&& self.escrows@ == old.escrows@.insert(invoice_id, Escrow { status: EscrowStatus::Refunded, ..old.escrows@[invoice_id] })
        &&& self.invoices@ == old.invoices@.insert(invoice_id, inv1)
        &&& same_invoice_except_funding(inv0, inv1)
        &&& inv1.status == status
        &&& clear_funding ==> inv1.funded_amount == 0 && inv1.funded_at is None && inv1.investor is None
        &&& !clear_funding ==> inv1.funded_amount == inv0.funded_amount && inv1.funded_at == inv0.funded_at && inv1.investor == inv0.investor
        &&& self.bids@ == bids_after_cancel_accepted(old.bids@, old.spec_bid_list(invoice_id))
        &&& self.investments@ == (if old.investments@.contains_key(invoice_id) {
            old.investments@.insert(invoice_id, Investment { status: investment_status, ..old.investments@[invoice_id] })
        } else {
            old.investments@
        })
        &&& self.next_id == old.next_id
        &&& self.admin == old.admin
        &&& self.paused == old.paused
        &&& self.platform_fee_bps == old.platform_fee_bps
        &&& self.frozen_invoices == old.frozen_invoices
        &&& self.settlements == old.settlements
        &&& self.invoice_bids == old.invoice_bids
        &&& self.bid_markers == old.bid_markers
        &&& self.investor_verifications == old.investor_verifications
        &&& self.business_verifications == old.business_verifications
        &&& self.limits == old.limits
        &&& self.verified_order@ == (if status == InvoiceStatus::Verified {
            entered_verified(old.verified_order@, invoice_id)
        } else {
            old.verified_order@
        })
    }

    /// Refund the held escrow, set the invoice's status (clearing its funding
    /// fields if asked), cancel the accepted bid and set the investment status.
    fn unwind_funding(&mut self, invoice_id: u64, status: InvoiceStatus, clear_funding: bool, investment_status: InvestmentStatus) -> (t: Transfer)
        requires
            old(self).wf(),
            old(self).invoices@.contains_key(invoice_id),
            old(self).escrows@.contains_key(invoice_id),
            old(self).escrows@[invoice_id].status == EscrowStatus::Held,
        ensures
            final(self).wf(),
            t == old(self).spec_escrow_refund_transfer(invoice_id),
            final(self).spec_unwound(&*old(self), invoice_id, status, clear_funding, investment_status),
    {
        let ghost old_self = *self;
        let t = match self.refund_held_escrow(invoice_id) {
            Ok(t) => t,
            Err(_) => {
                proof { assert(false); }
                Transfer { currency: 0, from: Party::Contract, to: Party::Contract, amount: 0 }
            },
        };
        if status == InvoiceStatus::Verified {
            self.enter_verified(invoice_id);
        }
        let mut inv = self.invoices.remove(&invoice_id).unwrap();
        inv.status = status;
        if clear_funding {
            inv.funded_amount = 0;
            inv.funded_at = None;
            inv.investor = None;
        }
        self.invoices.insert(invoice_id, inv);
        proof {
            assert(self.invoices@ =~= old_self.invoices@.insert(invoice_id, self.invoices@[invoice_id]));
            assert forall|k: u64| #[trigger] self.invoices@.contains_key(k) implies crate::settlement::records_total(
                self.spec_payment_records(k),
            ) == self.invoices@[k].total_paid by {
                assert(old_self.invoices@.contains_key(k));
            }
        }
        let ghost mid = *self;
        self.cancel_accepted_bid(invoice_id);
        let ghost mid2 = *self;
        match self.investments.remove(&invoice_id) {
            Some(investment) => {
                self.investments.insert(invoice_id, Investment { status: investment_status, ..investment });
                proof {
                    assert(self.investments@ =~= old_self.investments@.insert(invoice_id, Investment { status: investment_status, ..old_self.investments@[invoice_id] }));
                }
            },
            None => {
                proof {
                    assert(self.investments@ =~= old_self.investments@);
                }
            },
        }
        t
    }
}

/// Refund the escrowed funds of a funded invoice to its investor; the admin
/// or the invoice's business may ask. The invoice becomes refunded, its
/// accepted bid cancelled and its investment refunded. Only a held escrow can
/// be refunded, so a second refund is refused; a missing escrow gives
/// `StorageKeyNotFound`. Refused requests change nothing.
pub fn refund_escrow_funds(c: &mut QuickLendXContract, invoice_id: u64, caller: u64) -> (r: Result<Vec<Transfer>, QuickLendXError>)
    requires
        old(c).wf(),
    ensures
        final(c).wf(),
        match old(c).spec_refund_check(invoice_id, caller) {
            Err(e) => r == Err::<Vec<Transfer>, QuickLendXError>(e) && *final(c) == *old(c),
            Ok(()) => r is Ok && r->Ok_0@ == seq![old(c).spec_escrow_refund_transfer(invoice_id)]
                && final(c).spec_unwound(&*old(c), invoice_id, InvoiceStatus::Refunded, false, InvestmentStatus::Refunded),
        },
{
    let (business, status) = match c.invoices.get(&invoice_id) {
        Some(inv) => (inv.business, inv.status),
        None => return Err(QuickLendXError::InvoiceNotFound),
    };
    let is_admin = match c.admin {
        Some(a) => a == caller,
        None => false,
    };
    let is_business = business == caller;
    if !is_admin && !is_business {
        return Err(QuickLendXError::Unauthorized);
    }
    if status != InvoiceStatus::Funded {
        return Err(QuickLendXError::InvalidStatus);
    }
    let escrow_status = match c.escrows.get(&invoice_id) {
        Some(e) => e.status,
        None => return Err(QuickLendXError::StorageKeyNotFound),
    };
    if escrow_status != EscrowStatus::Held {
        return Err(QuickLendXError::InvalidStatus);
    }
    let t = c.unwind_funding(invoice_id, InvoiceStatus::Refunded, false, InvestmentStatus::Refunded);
    let mut transfers: Vec<Transfer> = Vec::new();
    transfers.push(t);
    Ok(transfers)
}

/// Withdraw an active investment (its investor only): the escrowed funds go
/// back to the investor, the invoice returns to verified with its funding
/// fields cleared, the accepted bid is cancelled and the investment becomes
/// withdrawn. A missing investment or escrow gives `StorageKeyNotFound`, an
/// invoice that is not funded `InvoiceNotAvailableForFunding`. Refused
/// requests change nothing.
pub fn withdraw_investment(c: &mut QuickLendXContract, invoice_id: u64, investor: u64) -> (r: Result<Vec<Transfer>, QuickLendXError>)
    requires
        old(c).wf(),
    ensures
        final(c).wf(),
        match old(c).spec_withdraw_check(invoice_id, investor) {
            Err(e) => r == Err::<Vec<Transfer>, QuickLendXError>(e) && *final(c) == *old(c),
            Ok(()) => r is Ok && r->Ok_0@ == seq![old(c).spec_escrow_refund_transfer(invoice_id)]
                && final(c).spec_unwound(&*old(c), invoice_id, InvoiceStatus::Verified, true, InvestmentStatus::Withdrawn),
        },
{
    let investment = match c.investments.get(&invoice_id) {
        Some(inv) => *inv,
        None => return Err(QuickLendXError::StorageKeyNotFound),
    };
    if investment.status != InvestmentStatus::Active {
        return Err(QuickLendXError::InvalidStatus);
    }
    if investment.investor != investor {
        return Err(QuickLendXError::Unauthorized);
    }
    match c.invoices.get(&invoice_id) {
        Some(inv) => {
            if inv.status != InvoiceStatus::Funded {
                return Err(QuickLendXError::InvoiceNotAvailableForFunding);
            }
        },
        None => return Err(QuickLendXError::InvoiceNotFound),
    }
    let escrow_status = match c.escrows.get(&invoice_id) {
        Some(e) => e.status,
        None => return Err(QuickLendXError::StorageKeyNotFound),
    };
    if escrow_status != EscrowStatus::Held {
        return Err(QuickLendXError::InvalidStatus);
    }
    let t = c.unwind_funding(invoice_id, InvoiceStatus::Verified, true, InvestmentStatus::Withdrawn);
    let mut transfers: Vec<Transfer> = Vec::new();
    transfers.push(t);
    Ok(transfers)
}

} // verus!
