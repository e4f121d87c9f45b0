//! Invoice transitions outside the funding and settlement flows: uploads by
//! KYC-verified businesses, administrative status changes, defaults after
//! the grace period, and category changes.
use vstd::prelude::*;

use crate::contract::{entered_verified, QuickLendXContract};
use crate::errors::QuickLendXError;
use crate::escrow::same_invoice_except_funding;
use crate::invoices::new_invoice_is;
use crate::types::{Investment, InvestmentStatus, Invoice, InvoiceCategory, InvoiceStatus};

verus! {

broadcast use vstd::std_specs::hash::group_hash_axioms;

/// Grace period after the due date before a funded invoice may be marked
/// defaulted, when none is given: seven days, in seconds.
pub const DEFAULT_GRACE_PERIOD_SECONDS: u64 = 604800;

/// `b` is `a` with its status set to `status` by an administrator `admin` at
/// time `now`: funding records the face value, the admin as funder and the
/// time; payment records the time of settlement; other statuses change
/// nothing else.
pub open spec fn status_updated_invoice(a: Invoice, b: Invoice, status: InvoiceStatus, admin: u64, now: u64) -> bool {
    &&& b.status == status
    &&& b.id == a.id
    &&& b.business == a.business
    &&& b.amount == a.amount
    &&& b.currency == a.currency
    &&& b.due_date == a.due_date
    &&& b.created_at == a.created_at
    &&& b.description == a.description
    &&& b.category == a.category
    &&& b.total_paid == a.total_paid
    &&& b.payment_history == a.payment_history
    &&& b.dispute_status == a.dispute_status
    &&& b.dispute == a.dispute
    &&& if status == InvoiceStatus::Funded {
        &&& b.funded_amount == a.amount
        &&& b.funded_at == Some(now)
        &&& b.investor == Some(admin)
        &&& b.settled_at == a.settled_at
    } else {
        &&& b.funded_amount == a.funded_amount
        &&& b.funded_at == a.funded_at
        &&& b.investor == a.investor
        &&& b.settled_at == (if status == InvoiceStatus::Paid {
            Some(now)
        } else {
            a.settled_at
        })
    }
}

/// An invoice still in play: pending, verified or funded.
pub open spec fn invoice_active(inv: Invoice) -> bool {
    inv.status == InvoiceStatus::Pending || inv.status == InvoiceStatus::Verified || inv.status
        == InvoiceStatus::Funded
}

/// Number of active invoices of `business` with identifier below `n`.
pub open spec fn business_active_invoices_below(invoices: Map<u64, Invoice>, n: nat, business: u64) -> nat
    decreases n,
{
    if n == 0 {
        0
    } else {
        let k = (n - 1) as u64;
        business_active_invoices_below(invoices, (n - 1) as nat, business) + if invoices.contains_key(k)
            && invoices[k].business == business && invoice_active(invoices[k]) {
            1nat
        } else {
            0nat
        }
    }
}

impl QuickLendXContract {
    /// How `upload_invoice` decides a request: the pause first, then the
    /// business's KYC, then the checks of `store_invoice`.
    pub open spec fn spec_upload_check(&self, business: u64, amount: i128, due_date: u64, description: Seq<char>, now: u64) -> Result<(), QuickLendXError> {
        if self.paused {
            Err(QuickLendXError::ContractPaused)
        } else if self.spec_business_kyc_error(business) is Some {
            Err(self.spec_business_kyc_error(business).unwrap())
        } else if self.spec_store_invoice_check(amount, due_date, description, now) is Err {
            self.spec_store_invoice_check(amount, due_date, description, now)
        } else if self.limits.max_invoices_per_business > 0 && business_active_invoices_below(
            self.invoices@,
            self.next_id as nat,
            business,
        ) >= self.limits.max_invoices_per_business {
            Err(QuickLendXError::MaxInvoicesPerBusinessExceeded)
        } else {
            Ok(())
        }
    }

    fn business_active_invoice_count(&self, business: u64) -> (r: u64)
        ensures
            r == business_active_invoices_below(self.invoices@, self.next_id as nat, business),
    {
        let mut count: u64 = 0;
        let mut i: u64 = 0;
        while i < self.next_id
            invariant
                i <= self.next_id,
                count == business_active_invoices_below(self.invoices@, i as nat, business),
                count <= i,
            decreases self.next_id - i,
        {
            match self.invoices.get(&i) {
                Some(inv) => {
                    if inv.business == business && (inv.status == InvoiceStatus::Pending || inv.status
                        == InvoiceStatus::Verified || inv.status == InvoiceStatus::Funded) {
                        count = count + 1;
                    }
                },
                None => {},
            }
            i = i + 1;
        }
        count
    }

    /// Upload an invoice as its business: like `store_invoice`, but only a
    /// KYC-verified business may upload (a pending KYC gives
    /// `KYCAlreadyPending`, none or a rejected one `BusinessNotVerified`),
    /// and, when a per-business limit is set, only while the business has
    /// fewer active invoices than that (else
    /// `MaxInvoicesPerBusinessExceeded`). Refused requests change nothing.
    pub fn upload_invoice(
        &mut self,
        business: u64,
        amount: i128,
        currency: u64,
        due_date: u64,
        description: String,
        category: InvoiceCategory,
        now: u64,
    ) -> (r: Result<u64, QuickLendXError>)
        requires
            old(self).wf(),
        ensures
            final(self).wf(),
            match old(self).spec_upload_check(business, amount, due_date, description@, now) {
                Err(e) => r == Err::<u64, QuickLendXError>(e) && *final(self) == *old(self),
                Ok(()) => {
                    let id = old(self).next_id;
                    &&& r == Ok::<u64, QuickLendXError>(id)
                    &&& !old(self).invoices@.contains_key(id)
                    &&& final(self).invoices@ == old(self).invoices@.insert(id, final(self).invoices@[id])
                    &&& new_invoice_is(final(self).invoices@[id], id, business, amount, currency, due_date, description@, category, now)
                    &&& final(self).next_id == id + 1
                    &&& final(self).same_except_invoices(&*old(self))
                },
            },
    {
        if self.paused {
            return Err(QuickLendXError::ContractPaused);
        }
        match self.business_kyc_error(business) {
            Some(e) => return Err(e),
            None => {},
        }
        match self.store_invoice_check(amount, due_date, &description, now) {
            Ok(()) => {},
            Err(e) => return Err(e),
        }
        if self.limits.max_invoices_per_business > 0 && self.business_active_invoice_count(business)
            >= self.limits.max_invoices_per_business as u64 {
            return Err(QuickLendXError::MaxInvoicesPerBusinessExceeded);
        }
        self.store_invoice(business, amount, currency, due_date, description, category, now)
    }

    /// How `mark_invoice_defaulted` decides a request.
    pub open spec fn spec_default_check(&self, invoice_id: u64, admin: u64, grace_period: Option<u64>, now: u64) -> Result<(), QuickLendXError> {
        let grace = match grace_period {
            Some(g) => g,
            None => DEFAULT_GRACE_PERIOD_SECONDS,
        };
        if self.paused {
            Err(QuickLendXError::ContractPaused)
        } else if self.spec_admin_caller(admin) is Err {
            Err(QuickLendXError::NotAdmin)
        } else if !self.invoices@.contains_key(invoice_id) {
            Err(QuickLendXError::InvoiceNotFound)
        } else if self.invoices@[invoice_id].status == InvoiceStatus::Defaulted {
            Err(QuickLendXError::InvoiceAlreadyDefaulted)
        } else if self.invoices@[invoice_id].status != InvoiceStatus::Funded {
            Err(QuickLendXError::InvoiceNotAvailableForFunding)
        } else if now <= self.invoices@[invoice_id].due_date.saturating_add(grace) {
            Err(QuickLendXError::OperationNotAllowed)
        } else {
            Ok(())
        }
    }

    /// `self` is `old` with the invoice defaulted and its investment, if
    /// any, defaulted too.
    pub open spec fn spec_defaulted(&self, old: &Self, invoice_id: u64) -> bool {
        let inv0 = old.invoices@[invoice_id];
        let inv1 = self.invoices@[invoice_id];
        &&& self.invoices@ == old.invoices@.insert(invoice_id, inv1)
        &&& same_invoice_except_funding(inv0, inv1)
        &&& inv1.status == InvoiceStatus::Defaulted
        &&& inv1.funded_amount == inv0.funded_amount
        &&& inv1.funded_at == inv0.funded_at
        &&& inv1.investor == inv0.investor
        &&& self.investments@ == (if old.investments@.contains_key(invoice_id) {
            old.investments@.insert(invoice_id, Investment { status: InvestmentStatus::Defaulted, ..old.investments@[invoice_id] })
        } else {
            old.investments@
        })
        &&& self.admin == old.admin
        &&& self.paused == old.paused
        &&& self.platform_fee_bps == old.platform_fee_bps
        &&& self.next_id == old.next_id
        &&& self.frozen_invoices == old.frozen_invoices
        &&& self.settlements == old.settlements
        &&& self.bids == old.bids
        &&& self.invoice_bids == old.invoice_bids
        &&& self.bid_markers == old.bid_markers
        &&& self.escrows == old.escrows
        &&& self.investor_verifications == old.investor_verifications
        &&& self.business_verifications == old.business_verifications
        &&& self.limits == old.limits
        &&& self.verified_order == old.verified_order
    }

    fn apply_default(&mut self, invoice_id: u64)
        requires
            old(self).wf(),
            old(self).invoices@.contains_key(invoice_id),
        ensures
            final(self).wf(),
            final(self).spec_defaulted(&*old(self), invoice_id),
    {
        let ghost old_self = *self;
        let mut inv = self.invoices.remove(&invoice_id).unwrap();
        inv.status = InvoiceStatus::Defaulted;
        self.invoices.insert(invoice_id, inv);
        match self.investments.remove(&invoice_id) {
            Some(investment) => {
                self.investments.insert(invoice_id, Investment { status: InvestmentStatus::Defaulted, ..investment });
            },
            None => {},
        }
        proof {
            assert(self.invoices@ =~= old_self.invoices@.insert(invoice_id, self.invoices@[invoice_id]));
            if old_self.investments@.contains_key(invoice_id) {
                assert(self.investments@ =~= old_self.investments@.insert(invoice_id, Investment { status: InvestmentStatus::Defaulted, ..old_self.investments@[invoice_id] }));
            } else {
                assert(self.investments@ =~= old_self.investments@);
            }
            assert forall|k: u64| #[trigger] self.invoices@.contains_key(k) implies crate::settlement::records_total(
                self.spec_payment_records(k),
            ) == self.invoices@[k].total_paid by {
                assert(old_self.invoices@.contains_key(k));
            }
        }
    }

    /// Expire an invoice past its due date: a funded invoice becomes
    /// defaulted, with its investment; any other invoice is left as it is
    /// (the expiry event is the host's to emit). Refused with
    /// `ContractPaused` while paused, `InvoiceNotFound` for an unknown invoice
    /// and `OperationNotAllowed` before the due date has passed; refused
    /// requests change nothing.
    pub fn expire_invoice(&mut self, invoice_id: u64, now: u64) -> (r: Result<(), QuickLendXError>)
        requires
            old(self).wf(),
        ensures
            final(self).wf(),
            r == (if old(self).paused {
                Err::<(), QuickLendXError>(QuickLendXError::ContractPaused)
            } else if !old(self).invoices@.contains_key(invoice_id) {
                Err::<(), QuickLendXError>(QuickLendXError::InvoiceNotFound)
            } else if now <= old(self).invoices@[invoice_id].due_date {
                Err::<(), QuickLendXError>(QuickLendXError::OperationNotAllowed)
            } else {
                Ok::<(), QuickLendXError>(())
            }),
            r is Err ==> *final(self) == *old(self),
            r is Ok && old(self).invoices@[invoice_id].status == InvoiceStatus::Funded ==> final(self).spec_defaulted(
                &*old(self),
                invoice_id,
            ),
            r is Ok && old(self).invoices@[invoice_id].status != InvoiceStatus::Funded ==> *final(self) == *old(self),
    {
        if self.paused {
            return Err(QuickLendXError::ContractPaused);
        }
        let (due_date, status) = match self.invoices.get(&invoice_id) {
            Some(inv) => (inv.due_date, inv.status),
            None => return Err(QuickLendXError::InvoiceNotFound),
        };
        if now <= due_date {
            return Err(QuickLendXError::OperationNotAllowed);
        }
        if status == InvoiceStatus::Funded {
            self.apply_default(invoice_id);
        }
        Ok(())
    }

    /// Mark a funded invoice defaulted (by the administrator `admin`) once its due date plus
    /// the grace period (seven days when none is given) has passed; its
    /// investment becomes defaulted too. Refused requests change nothing.
    pub fn mark_invoice_defaulted(&mut self, invoice_id: u64, admin: u64, grace_period: Option<u64>, now: u64) -> (r: Result<(), QuickLendXError>)
        requires
            old(self).wf(),
        ensures
            final(self).wf(),
            match old(self).spec_default_check(invoice_id, admin, grace_period, now) {
                Err(e) => r == Err::<(), QuickLendXError>(e) && *final(self) == *old(self),
                Ok(()) => r == Ok::<(), QuickLendXError>(()) && final(self).spec_defaulted(&*old(self), invoice_id),
            },
    {
        if self.paused {
            return Err(QuickLendXError::ContractPaused);
        }
        match self.admin_caller(admin) {
            Ok(()) => {},
            Err(e) => return Err(e),
        }
        let grace = match grace_period {
            Some(g) => g,
            None => DEFAULT_GRACE_PERIOD_SECONDS,
        };
        let (status, due_date) = match self.invoices.get(&invoice_id) {
            Some(inv) => (inv.status, inv.due_date),
            None => return Err(QuickLendXError::InvoiceNotFound),
        };
        if status == InvoiceStatus::Defaulted {
            return Err(QuickLendXError::InvoiceAlreadyDefaulted);
        }
        if status != InvoiceStatus::Funded {
            return Err(QuickLendXError::InvoiceNotAvailableForFunding);
        }
        if now <= due_date.saturating_add(grace) {
            return Err(QuickLendXError::OperationNotAllowed);
        }
        self.apply_default(invoice_id);
        Ok(())
    }

    /// How `update_invoice_status` decides a request other than a default.
    pub open spec fn spec_update_status_check(&self, invoice_id: u64, admin: u64, new_status: InvoiceStatus) -> Result<(), QuickLendXError> {
        if self.paused {
            Err(QuickLendXError::ContractPaused)
        } else if self.spec_admin_caller(admin) is Err {
            Err(QuickLendXError::NotAdmin)
        } else if !self.invoices@.contains_key(invoice_id) {
            Err(QuickLendXError::InvoiceNotFound)
        } else if new_status != InvoiceStatus::Verified && new_status != InvoiceStatus::Funded
            && new_status != InvoiceStatus::Paid {
            Err(QuickLendXError::InvalidStatus)
        } else {
            Ok(())
        }
    }

    /// Set an invoice's status by administrative action of `admin`, who must
    /// be the administrator (else `NotAdmin`). A default goes
    /// through `mark_invoice_defaulted` with the default grace period;
    /// otherwise only verified (the invoice then comes last in the
    /// verification order), funded (the face value, funded by the admin now)
    /// and paid (settled now) can be set. Refused requests change
    /// nothing.
    pub fn update_invoice_status(&mut self, invoice_id: u64, admin: u64, new_status: InvoiceStatus, now: u64) -> (r: Result<(), QuickLendXError>)
        requires
            old(self).wf(),
        ensures
            final(self).wf(),
            new_status == InvoiceStatus::Defaulted ==> match old(self).spec_default_check(invoice_id, admin, None, now) {
                Err(e) => r == Err::<(), QuickLendXError>(e) && *final(self) == *old(self),
                Ok(()) => r == Ok::<(), QuickLendXError>(()) && final(self).spec_defaulted(&*old(self), invoice_id),
            },
            new_status != InvoiceStatus::Defaulted ==> match old(self).spec_update_status_check(invoice_id, admin, new_status) {
                Err(e) => r == Err::<(), QuickLendXError>(e) && *final(self) == *old(self),
                Ok(()) => {
                    &&& r == Ok::<(), QuickLendXError>(())
                    &&& final(self).invoices@ == old(self).invoices@.insert(invoice_id, final(self).invoices@[invoice_id])
                    &&& status_updated_invoice(
                        old(self).invoices@[invoice_id],
                        final(self).invoices@[invoice_id],
                        new_status,
                        admin,
                        now,
                    )
                    &&& (QuickLendXContract { verified_order: old(self).verified_order, ..*final(self) }).same_except_invoices(
                        &*old(self),
                    )
                    &&& final(self).verified_order@ == (if new_status == InvoiceStatus::Verified {
                        entered_verified(old(self).verified_order@, invoice_id)
                    } else {
                        old(self).verified_order@
                    })
                    &&& final(self).next_id == old(self).next_id
                },
            },
    {
        if self.paused {
            return Err(QuickLendXError::ContractPaused);
        }
        match self.admin_caller(admin) {
            Ok(()) => {},
            Err(e) => return Err(e),
        }
        if new_status == InvoiceStatus::Defaulted {
            return self.mark_invoice_defaulted(invoice_id, admin, None, now);
        }
        if !self.invoices.contains_key(&invoice_id) {
            return Err(QuickLendXError::InvoiceNotFound);
        }
        if new_status != InvoiceStatus::Verified && new_status != InvoiceStatus::Funded
            && new_status != InvoiceStatus::Paid {
            return Err(QuickLendXError::InvalidStatus);
        }
        if new_status == InvoiceStatus::Verified {
            self.enter_verified(invoice_id);
        }
        let ghost old_self = *self;
        let mut inv = self.invoices.remove(&invoice_id).unwrap();
        inv.status = new_status;
        if new_status == InvoiceStatus::Funded {
            inv.funded_amount = inv.amount;
            inv.funded_at = Some(now);
            inv.investor = Some(admin);
        } else if new_status == InvoiceStatus::Paid {
            inv.settled_at = Some(now);
        }
        self.invoices.insert(invoice_id, inv);
        proof {
            assert(self.invoices@ =~= old_self.invoices@.insert(invoice_id, self.invoices@[invoice_id]));
            assert forall|k: u64| #[trigger] self.invoices@.contains_key(k) implies crate::settlement::records_total(
                self.spec_payment_records(k),
            ) == self.invoices@[k].total_paid by {
                assert(old_self.invoices@.contains_key(k));
            }
        }
        Ok(())
    }

    /// Change an invoice's category (its business). Refused with
    /// `ContractPaused` while paused and `InvoiceNotFound` for an unknown
    /// invoice, changing nothing.
    pub fn update_invoice_category(&mut self, invoice_id: u64, new_category: InvoiceCategory) -> (r: Result<(), QuickLendXError>)
        requires
            old(self).wf(),
        ensures
            final(self).wf(),
            r == (if old(self).paused {
                Err::<(), QuickLendXError>(QuickLendXError::ContractPaused)
            } else if !old(self).invoices@.contains_key(invoice_id) {
                Err::<(), QuickLendXError>(QuickLendXError::InvoiceNotFound)
            } else {
                Ok::<(), QuickLendXError>(())
            }),
            r is Err ==> *final(self) == *old(self),
            r is Ok ==> {
                let inv0 = old(self).invoices@[invoice_id];
                let inv1 = final(self).invoices@[invoice_id];
                &&& final(self).invoices@ == old(self).invoices@.insert(invoice_id, inv1)
                &&& inv1 == (Invoice { category: new_category, ..inv0 })
                &&& final(self).same_except_invoices(&*old(self))
                &&& final(self).next_id == old(self).next_id
            },
    {
        if self.paused {
            return Err(QuickLendXError::ContractPaused);
        }
        if !self.invoices.contains_key(&invoice_id) {
            return Err(QuickLendXError::InvoiceNotFound);
        }
        let ghost old_self = *self;
        let mut inv = self.invoices.remove(&invoice_id).unwrap();
        inv.category = new_category;
        self.invoices.insert(invoice_id, inv);
        proof {
            assert(self.invoices@ =~= old_self.invoices@.insert(invoice_id, self.invoices@[invoice_id]));
            assert forall|k: u64| #[trigger] self.invoices@.contains_key(k) implies crate::settlement::records_total(
                self.spec_payment_records(k),
            ) == self.invoices@[k].total_paid by {
                assert(old_self.invoices@.contains_key(k));
            }
        }
        Ok(())
    }
}

} // verus!
