//! Invoice lifecycle: creation, verification (which releases escrow of a
//! funded invoice), cancellation, expiry checks, and the business-side bid
//! acceptance.
use vstd::prelude::*;

use crate::bids::bids_after_cleanup;
use crate::contract::{entered_verified, QuickLendXContract};
use crate::errors::QuickLendXError;
use crate::escrow::same_invoice_except_funding;
use crate::types::{
    Bid, BidStatus, Dispute, DisputeResolution, DisputeStatus, Escrow, EscrowStatus, Invoice,
    InvoiceCategory, InvoiceStatus, Party, Transfer,
};

verus! {

broadcast use vstd::std_specs::hash::group_hash_axioms;

/// `inv` is a freshly created invoice with these terms: pending, unfunded,
/// unpaid, without payment history and without dispute.
pub open spec fn new_invoice_is(
    inv: Invoice,
    id: u64,
    business: u64,
    amount: i128,
    currency: u64,
    due_date: u64,
    description: Seq<char>,
    category: InvoiceCategory,
    now: u64,
) -> bool {
    &&& inv.id == id
    &&& inv.business == business
    &&& inv.amount == amount
    &&& inv.currency == currency
    &&& inv.due_date == due_date
    &&& inv.status == InvoiceStatus::Pending
    &&& inv.created_at == now
    &&& inv.description@ == description
    &&& inv.category == category
    &&& inv.funded_amount == 0
    &&& inv.funded_at is None
    &&& inv.investor is None
    &&& inv.settled_at is None
    &&& inv.total_paid == 0
    &&& inv.payment_history@ == Seq::<crate::types::PaymentRecord>::empty()
    &&& inv.dispute_status == DisputeStatus::NoDispute
    &&& inv.dispute.reason@ == Seq::<char>::empty()
    &&& inv.dispute.evidence@ == Seq::<char>::empty()
    &&& inv.dispute.resolution@ == Seq::<char>::empty()
    &&& inv.dispute.resolved_by is None
    &&& inv.dispute.resolution_outcome == DisputeResolution::Unspecified
}

impl QuickLendXContract {
    /// `self` is `old` with only its invoices map changed, to `invoices`.
    pub open spec fn same_except_invoices(&self, old: &Self) -> bool {
        &&& self.admin == old.admin
        &&& self.paused == old.paused
        &&& self.platform_fee_bps == old.platform_fee_bps
        &&& self.frozen_invoices == old.frozen_invoices
        &&& self.settlements == old.settlements
        &&& self.bids == old.bids
        &&& self.invoice_bids == old.invoice_bids
        &&& self.bid_markers == old.bid_markers
        &&& self.investments == old.investments
        &&& self.escrows == old.escrows
        &&& self.investor_verifications == old.investor_verifications
        &&& self.business_verifications == old.business_verifications
        &&& self.limits == old.limits
        &&& self.verified_order == old.verified_order
    }

    /// `self` is `old` with the invoice's status set to `status` and nothing
    /// else changed.
    pub open spec fn spec_invoice_status_set(&self, old: &Self, invoice_id: u64, status: InvoiceStatus) -> bool {
        let inv0 = old.invoices@[invoice_id];
        let inv1 = self.invoices@[invoice_id];
        &&& self.invoices@ == old.invoices@.insert(invoice_id, inv1)
        &&& same_invoice_except_funding(inv0, inv1)
        &&& inv1.funded_amount == inv0.funded_amount
        &&& inv1.funded_at == inv0.funded_at
        &&& inv1.investor == inv0.investor
        &&& inv1.status == status
        &&& self.same_except_invoices(old)
        &&& self.next_id == old.next_id
    }

    /// How `store_invoice` decides a request.
    pub open spec fn spec_store_invoice_check(&self, amount: i128, due_date: u64, description: Seq<char>, now: u64) -> Result<(), QuickLendXError> {
        if self.paused {
            Err(QuickLendXError::ContractPaused)
        } else if amount <= 0 {
            Err(QuickLendXError::InvalidAmount)
        } else if due_date <= now {
            Err(QuickLendXError::InvoiceDueDateInvalid)
        } else if description.len() == 0 {
            Err(QuickLendXError::InvalidDescription)
        } else if self.next_id == u64::MAX {
            Err(QuickLendXError::StorageError)
        } else {
            Ok(())
        }
    }

    pub(crate) fn store_invoice_check(&self, amount: i128, due_date: u64, description: &String, now: u64) -> (r: Result<(), QuickLendXError>)
        ensures
            r == self.spec_store_invoice_check(amount, due_date, description@, now),
    {
        if self.paused {
            return Err(QuickLendXError::ContractPaused);
        }
        if amount <= 0 {
            return Err(QuickLendXError::InvalidAmount);
        }
        if due_date <= now {
            return Err(QuickLendXError::InvoiceDueDateInvalid);
        }
        if description.as_str().is_empty() {
            return Err(QuickLendXError::InvalidDescription);
        }
        if self.next_id == u64::MAX {
            return Err(QuickLendXError::StorageError);
        }
        Ok(())
    }

    /// Store a new pending invoice and return its identifier. The amount
    /// must be positive, the due date in the future and the description
    /// non-empty. Refused requests change nothing.
    pub fn store_invoice(
        &mut self,
        business: u64,
        amount: i128,
        currency: u64,
        due_date: u64,
        description: String,
        category: InvoiceCategory,
        now: u64,
    ) -> (r: Result<u64, QuickLendXError>)
        requires
            old(self).wf(),
        ensures
            final(self).wf(),
            match old(self).spec_store_invoice_check(amount, due_date, description@, now) {
                Err(e) => r == Err::<u64, QuickLendXError>(e) && *final(self) == *old(self),
                Ok(()) => {
                    let id = old(self).next_id;
                    &&& r == Ok::<u64, QuickLendXError>(id)
                    &&& !old(self).invoices@.contains_key(id)
                    &&& final(self).invoices@ == old(self).invoices@.insert(id, final(self).invoices@[id])
                    &&& new_invoice_is(final(self).invoices@[id], id, business, amount, currency, due_date, description@, category, now)
                    &&& final(self).next_id == id + 1
                    &&& final(self).same_except_invoices(&*old(self))
                },
            },
    {
        if self.paused {
            return Err(QuickLendXError::ContractPaused);
        }
        if amount <= 0 {
            return Err(QuickLendXError::InvalidAmount);
        }
        if due_date <= now {
            return Err(QuickLendXError::InvoiceDueDateInvalid);
        }
        if description.as_str().is_empty() {
            return Err(QuickLendXError::InvalidDescription);
        }
        if self.next_id == u64::MAX {
            return Err(QuickLendXError::StorageError);
        }
        let ghost old_self = *self;
        let id = self.next_id;
        self.next_id = self.next_id + 1;
        let invoice = Invoice {
            id,
            business,
            amount,
            currency,
            due_date,
            status: InvoiceStatus::Pending,
            created_at: now,
            description,
            category,
            funded_amount: 0,
            funded_at: None,
            investor: None,
            settled_at: None,
            total_paid: 0,
            payment_history: Vec::new(),
            dispute_status: DisputeStatus::NoDispute,
            dispute: Dispute {
                created_by: 0,
                created_at: 0,
                reason: String::new(),
                evidence: String::new(),
                resolution: String::new(),
                resolved_by: None,
                resolved_at: 0,
                resolution_outcome: DisputeResolution::Unspecified,
            },
        };
        self.invoices.insert(id, invoice);
        proof {
            assert(!old_self.invoices@.contains_key(id));
            assert(!old_self.settlements@.contains_key(id));
            assert(self.spec_payment_records(id) =~= Seq::<crate::settlement::SettlementPaymentRecord>::empty());
            assert forall|k: u64| #[trigger] self.invoices@.contains_key(k) implies crate::settlement::records_total(
                self.spec_payment_records(k),
            ) == self.invoices@[k].total_paid by {
                if k != id {
                    assert(old_self.invoices@.contains_key(k));
                }
            }
        }
        Ok(id)
    }

    /// Whether releasing the invoice's escrow would look up a missing escrow.
    pub open spec fn spec_release_aborts(&self, invoice_id: u64) -> bool {
        &&& !self.paused
        &&& self.invoices@.contains_key(invoice_id)
        &&& self.invoices@[invoice_id].status == InvoiceStatus::Funded
        &&& !self.escrows@.contains_key(invoice_id)
    }

    /// How `release_escrow_funds` decides a request.
    pub open spec fn spec_release_check(&self, invoice_id: u64) -> Result<(), QuickLendXError> {
        if self.paused {
            Err(QuickLendXError::ContractPaused)
        } else if !self.invoices@.contains_key(invoice_id) {
            Err(QuickLendXError::InvoiceNotFound)
        } else if self.invoices@[invoice_id].status != InvoiceStatus::Funded {
            Err(QuickLendXError::InvalidStatus)
        } else if self.escrows@[invoice_id].status != EscrowStatus::Held {
            Err(QuickLendXError::InvalidStatus)
        } else {
            Ok(())
        }
    }

    /// `self` is `old` with the invoice's held escrow released.
    pub open spec fn spec_escrow_released(&self, old: &Self, invoice_id: u64) -> bool {
        &&& self.escrows@ == old.escrows@.insert(invoice_id, Escrow { status: EscrowStatus::Released, ..old.escrows@[invoice_id] })
        &&& self.invoices == old.invoices
        &&& self.bids == old.bids
        &&& self.investments == old.investments
        &&& self.settlements == old.settlements
        &&& self.next_id == old.next_id
        &&& self.invoice_bids == old.invoice_bids
        &&& self.bid_markers == old.bid_markers
        &&& self.admin == old.admin
        &&& self.paused == old.paused
        &&& self.platform_fee_bps == old.platform_fee_bps
        &&& self.frozen_invoices == old.frozen_invoices
        &&& self.investor_verifications == old.investor_verifications
        &&& self.business_verifications == old.business_verifications
        &&& self.limits == old.limits
        &&& self.verified_order == old.verified_order
    }

    /// The transfer that releases the invoice's escrow to its business.
    pub open spec fn spec_release_transfer(&self, invoice_id: u64) -> Transfer {
        let e = self.escrows@[invoice_id];
        Transfer { currency: e.currency, from: Party::Contract, to: Party::Account(e.business), amount: e.amount }
    }

    /// Release the escrowed funds of a funded invoice to its business. Only a
    /// held escrow can be released. Refused requests change nothing.
    pub fn release_escrow_funds(&mut self, invoice_id: u64) -> (r: Result<Vec<Transfer>, QuickLendXError>)
        requires
            old(self).wf(),
            !old(self).spec_release_aborts(invoice_id),
        ensures
            final(self).wf(),
            match old(self).spec_release_check(invoice_id) {
                Err(e) => r == Err::<Vec<Transfer>, QuickLendXError>(e) && *final(self) == *old(self),
                Ok(()) => r is Ok && r->Ok_0@ == seq![old(self).spec_release_transfer(invoice_id)]
                    && final(self).spec_escrow_released(&*old(self), invoice_id),
            },
    {
        if self.paused {
            return Err(QuickLendXError::ContractPaused);
        }
        match self.invoices.get(&invoice_id) {
            Some(inv) => {
                if inv.status != InvoiceStatus::Funded {
                    return Err(QuickLendXError::InvalidStatus);
                }
            },
            None => return Err(QuickLendXError::InvoiceNotFound),
        }
        let e = *self.escrows.get(&invoice_id).unwrap();
        if e.status != EscrowStatus::Held {
            return Err(QuickLendXError::InvalidStatus);
        }
        self.escrows.insert(invoice_id, Escrow { status: EscrowStatus::Released, ..e });
        let mut transfers: Vec<Transfer> = Vec::new();
        transfers.push(Transfer { currency: e.currency, from: Party::Contract, to: Party::Account(e.business), amount: e.amount });
        Ok(transfers)
    }

    /// How `verify_invoice` decides a request on an invoice that is not funded.
    pub open spec fn spec_verify_check(&self, invoice_id: u64, admin: u64) -> Result<(), QuickLendXError> {
        if self.paused {
            Err(QuickLendXError::ContractPaused)
        } else if self.spec_admin_caller(admin) is Err {
            Err(QuickLendXError::NotAdmin)
        } else if !self.invoices@.contains_key(invoice_id) {
            Err(QuickLendXError::InvoiceNotFound)
        } else if self.invoices@[invoice_id].status != InvoiceStatus::Pending {
            Err(QuickLendXError::InvalidStatus)
        } else {
            Ok(())
        }
    }

    /// Verify a pending invoice, which then comes last in the verification
    /// order; `admin` must be the administrator (else `NotAdmin`). On a funded invoice, verification releases its escrow to
    /// the business instead. Refused requests change nothing.
    pub fn verify_invoice(&mut self, invoice_id: u64, admin: u64) -> (r: Result<Vec<Transfer>, QuickLendXError>)
        requires
            old(self).wf(),
            !old(self).spec_release_aborts(invoice_id),
        ensures
            final(self).wf(),
            !old(self).paused && old(self).admin == Some(admin) && old(self).invoices@.contains_key(invoice_id)
                && old(self).invoices@[invoice_id].status == InvoiceStatus::Funded ==> match old(self).spec_release_check(invoice_id) {
                Err(e) => r == Err::<Vec<Transfer>, QuickLendXError>(e) && *final(self) == *old(self),
                Ok(()) => r is Ok && r->Ok_0@ == seq![old(self).spec_release_transfer(invoice_id)]
                    && final(self).spec_escrow_released(&*old(self), invoice_id),
            },
            !(!old(self).paused && old(self).admin == Some(admin) && old(self).invoices@.contains_key(invoice_id)
                && old(self).invoices@[invoice_id].status == InvoiceStatus::Funded) ==> match old(self).spec_verify_check(invoice_id, admin) {
                Err(e) => r == Err::<Vec<Transfer>, QuickLendXError>(e) && *final(self) == *old(self),
                Ok(()) => r is Ok && r->Ok_0@ == Seq::<Transfer>::empty()
                    && final(self).verified_order@ == entered_verified(old(self).verified_order@, invoice_id)
                    && (QuickLendXContract { verified_order: old(self).verified_order, ..*final(self) }).spec_invoice_status_set(
                    &*old(self),
                    invoice_id,
                    InvoiceStatus::Verified,
                ),
            },
    {
        if self.paused {
            return Err(QuickLendXError::ContractPaused);
        }
        match self.admin_caller(admin) {
            Ok(()) => {},
            Err(e) => return Err(e),
        }
        let status = match self.invoices.get(&invoice_id) {
            Some(inv) => inv.status,
            None => return Err(QuickLendXError::InvoiceNotFound),
        };
        if status == InvoiceStatus::Funded {
            return self.release_escrow_funds(invoice_id);
        }
        if status != InvoiceStatus::Pending {
            return Err(QuickLendXError::InvalidStatus);
        }
        self.enter_verified(invoice_id);
        self.set_invoice_status(invoice_id, InvoiceStatus::Verified);
        Ok(Vec::new())
    }

    fn set_invoice_status(&mut self, invoice_id: u64, status: InvoiceStatus)
        requires
            old(self).wf(),
            old(self).invoices@.contains_key(invoice_id),
            status == InvoiceStatus::Verified ==> old(self).verified_order@.contains(invoice_id),
        ensures
            final(self).wf(),
            final(self).spec_invoice_status_set(&*old(self), invoice_id, status),
    {
        let ghost old_self = *self;
        let mut inv = self.invoices.remove(&invoice_id).unwrap();
        inv.status = status;
        self.invoices.insert(invoice_id, inv);
        proof {
            assert(self.invoices@ =~= old_self.invoices@.insert(invoice_id, self.invoices@[invoice_id]));
            assert forall|k: u64| #[trigger] self.invoices@.contains_key(k) implies crate::settlement::records_total(
                self.spec_payment_records(k),
            ) == self.invoices@[k].total_paid by {
                assert(old_self.invoices@.contains_key(k));
            }
        }
    }

    /// How `cancel_invoice` decides a request.
    pub open spec fn spec_cancel_check(&self, invoice_id: u64) -> Result<(), QuickLendXError> {
        if self.paused {
            Err(QuickLendXError::ContractPaused)
        } else if !self.invoices@.contains_key(invoice_id) {
            Err(QuickLendXError::InvoiceNotFound)
        } else if self.spec_business_kyc_error(self.invoices@[invoice_id].business) is Some {
            Err(self.spec_business_kyc_error(self.invoices@[invoice_id].business).unwrap())
        } else if self.invoices@[invoice_id].status != InvoiceStatus::Pending
            && self.invoices@[invoice_id].status != InvoiceStatus::Verified {
            Err(QuickLendXError::InvalidStatus)
        } else {
            Ok(())
        }
    }

    /// Cancel an invoice (its business, before funding): only a pending or
    /// verified invoice can be cancelled. Refused requests change nothing.
    pub fn cancel_invoice(&mut self, invoice_id: u64) -> (r: Result<(), QuickLendXError>)
        requires
            old(self).wf(),
        ensures
            final(self).wf(),
            match old(self).spec_cancel_check(invoice_id) {
                Err(e) => r == Err::<(), QuickLendXError>(e) && *final(self) == *old(self),
                Ok(()) => r == Ok::<(), QuickLendXError>(())
                    && final(self).spec_invoice_status_set(&*old(self), invoice_id, InvoiceStatus::Cancelled),
            },
    {
        if self.paused {
            return Err(QuickLendXError::ContractPaused);
        }
        let (business, status) = match self.invoices.get(&invoice_id) {
            Some(inv) => (inv.business, inv.status),
            None => return Err(QuickLendXError::InvoiceNotFound),
        };
        match self.business_kyc_error(business) {
            Some(e) => return Err(e),
            None => {},
        }
        if status != InvoiceStatus::Pending && status != InvoiceStatus::Verified {
            return Err(QuickLendXError::InvalidStatus);
        }
        self.set_invoice_status(invoice_id, InvoiceStatus::Cancelled);
        Ok(())
    }

}

impl QuickLendXContract {
    /// The bids as `accept_bid` sees them: expired bids cleaned up on the
    /// requested invoice, then on the bid's own invoice.
    pub open spec fn spec_accept_bid_bids(&self, invoice_id: u64, bid_id: u64, now: u64) -> Map<u64, Bid> {
        let b1 = bids_after_cleanup(self.bids@, self.spec_bid_list(invoice_id), now);
        bids_after_cleanup(b1, self.spec_bid_list(self.bids@[bid_id].invoice_id), now)
    }

    /// `accept_bid` would look up a bid that does not exist.
    pub open spec fn spec_accept_bid_aborts(&self, invoice_id: u64, bid_id: u64) -> bool {
        !self.paused && self.invoices@.contains_key(invoice_id) && !self.bids@.contains_key(bid_id)
    }

    /// How `accept_bid` decides a request. The escrow and investment are
    /// filed under the bid's own invoice, the funding under the requested one.
    pub open spec fn spec_accept_bid_check(&self, invoice_id: u64, bid_id: u64, now: u64) -> Result<(), QuickLendXError> {
        if self.paused {
            Err(QuickLendXError::ContractPaused)
        } else if !self.invoices@.contains_key(invoice_id) {
            Err(QuickLendXError::InvoiceNotFound)
        } else {
            let inv = self.invoices@[invoice_id];
            let bid = self.spec_accept_bid_bids(invoice_id, bid_id, now)[bid_id];
            if self.spec_business_kyc_error(inv.business) is Some {
                Err(self.spec_business_kyc_error(inv.business).unwrap())
            } else if inv.status != InvoiceStatus::Verified || bid.status != BidStatus::Placed {
                Err(QuickLendXError::InvalidStatus)
            } else if self.escrows@.contains_key(bid.invoice_id) {
                Err(QuickLendXError::InvoiceAlreadyFunded)
            } else if self.next_id >= u64::MAX - 1 {
                Err(QuickLendXError::StorageError)
            } else {
                Ok(())
            }
        }
    }

    /// Accept a bid (the invoice's business): the bid amount moves into
    /// escrow, the bid is accepted, the invoice funded and an active investment
    /// recorded. Returns the investor's transfer into escrow. Refused requests
    /// change nothing.
    pub fn accept_bid(&mut self, invoice_id: u64, bid_id: u64, now: u64) -> (r: Result<Vec<Transfer>, QuickLendXError>)
        requires
            old(self).wf(),
            !old(self).spec_accept_bid_aborts(invoice_id, bid_id),
        ensures
            final(self).wf(),
            match old(self).spec_accept_bid_check(invoice_id, bid_id, now) {
                Err(e) => r == Err::<Vec<Transfer>, QuickLendXError>(e) && *final(self) == *old(self),
                Ok(()) => {
                    let cleaned = old(self).spec_accept_bid_bids(invoice_id, bid_id, now);
                    &&& r is Ok
                    &&& r->Ok_0@ == seq![old(self).spec_funding_transfer(invoice_id, cleaned[bid_id])]
                    &&& final(self).spec_funded(&*old(self), invoice_id, cleaned[bid_id].invoice_id, bid_id, cleaned, now)
                },
            },
    {
        if self.paused {
            return Err(QuickLendXError::ContractPaused);
        }
        let (business, status, currency) = match self.invoices.get(&invoice_id) {
            Some(inv) => (inv.business, inv.status, inv.currency),
            None => return Err(QuickLendXError::InvoiceNotFound),
        };
        let bid0 = *self.bids.get(&bid_id).unwrap();
        let escrow_invoice = bid0.invoice_id;
        let bid = if bid0.status == BidStatus::Placed && bid0.is_expired(now) {
            Bid { status: BidStatus::Expired, ..bid0 }
        } else {
            bid0
        };
        proof {
            let l1 = self.spec_bid_list(invoice_id);
            let l2 = self.spec_bid_list(escrow_invoice);
            assert(l2.contains(bid_id));
            let b1 = bids_after_cleanup(self.bids@, l1, now);
            assert(b1.contains_key(bid_id));
            assert(bid == self.spec_accept_bid_bids(invoice_id, bid_id, now)[bid_id]);
        }
        match self.business_kyc_error(business) {
            Some(e) => return Err(e),
            None => {},
        }
        if status != InvoiceStatus::Verified || bid.status != BidStatus::Placed {
            return Err(QuickLendXError::InvalidStatus);
        }
        if self.escrows.contains_key(&escrow_invoice) {
            return Err(QuickLendXError::InvoiceAlreadyFunded);
        }
        if self.next_id >= u64::MAX - 1 {
            return Err(QuickLendXError::StorageError);
        }
        let ghost old_self = *self;
        let _c1 = self.cleanup_expired_bids(invoice_id, now);
        let _c2 = self.cleanup_expired_bids(escrow_invoice, now);
        let ghost mid = *self;
        proof {
            assert(mid.bids@ == old_self.spec_accept_bid_bids(invoice_id, bid_id, now));
            assert(mid.bids@[bid_id] == bid);
        }
        let _escrow_id = self.fund_with_bid(invoice_id, escrow_invoice, bid_id, now);
        assert(self.spec_funded(&mid, invoice_id, escrow_invoice, bid_id, mid.bids@, now));
        let mut transfers: Vec<Transfer> = Vec::new();
        transfers.push(Transfer { currency, from: Party::Account(bid.investor), to: Party::Contract, amount: bid.bid_amount });
        Ok(transfers)
    }
}

} // verus!
