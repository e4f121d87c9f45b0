//! Invoice disputes: opened by a party, put under review and resolved by
//! the administrator. The dispute status only moves forward:
//! no dispute, disputed, under review, resolved.
use vstd::prelude::*;

use crate::contract::QuickLendXContract;
use crate::errors::QuickLendXError;
use crate::escrow::same_invoice_except_funding;
use crate::types::{Dispute, DisputeResolution, DisputeStatus, Invoice};

verus! {

broadcast use vstd::std_specs::hash::group_hash_axioms;

/// The position of a dispute status in the dispute process.
pub open spec fn dispute_rank(s: DisputeStatus) -> int {
    match s {
        DisputeStatus::NoDispute => 0,
        DisputeStatus::Disputed => 1,
        DisputeStatus::UnderReview => 2,
        DisputeStatus::Resolved => 3,
    }
}

/// `b` is `a` with only its dispute and dispute status possibly changed.
pub open spec fn same_invoice_except_dispute(a: Invoice, b: Invoice) -> bool {
    &&& b.id == a.id
    &&& b.business == a.business
    &&& b.amount == a.amount
    &&& b.currency == a.currency
    &&& b.due_date == a.due_date
    &&& b.status == a.status
    &&& b.created_at == a.created_at
    &&& b.description == a.description
    &&& b.category == a.category
    &&& b.funded_amount == a.funded_amount
    &&& b.funded_at == a.funded_at
    &&& b.investor == a.investor
    &&& b.settled_at == a.settled_at
    &&& b.total_paid == a.total_paid
    &&& b.payment_history == a.payment_history
}

/// The event that resolving a dispute calls for: a dismissed dispute is
/// rejected, any other outcome resolves it.
#[derive(Clone, Copy, Debug, PartialEq, Eq, Structural)]
pub enum DisputeEvent {
    Resolved,
    Rejected,
}

impl QuickLendXContract {
    /// Why `admin` may not act as administrator, if it may not.
    pub open spec fn spec_require_admin(&self, admin: u64) -> Result<(), QuickLendXError> {
        match self.admin {
            None => Err(QuickLendXError::OperationNotAllowed),
            Some(a) => if a == admin {
                Ok(())
            } else {
                Err(QuickLendXError::NotAdmin)
            },
        }
    }

    pub(crate) fn require_admin(&self, admin: u64) -> (r: Result<(), QuickLendXError>)
        ensures
            r == self.spec_require_admin(admin),
    {
        match self.admin {
            None => Err(QuickLendXError::OperationNotAllowed),
            Some(a) => if a == admin {
                Ok(())
            } else {
                Err(QuickLendXError::NotAdmin)
            },
        }
    }

    /// `self` is `old` with only the invoice's dispute part changed.
    pub open spec fn spec_dispute_updated(&self, old: &Self, invoice_id: u64) -> bool {
        &&& self.invoices@ == old.invoices@.insert(invoice_id, self.invoices@[invoice_id])
        &&& same_invoice_except_dispute(old.invoices@[invoice_id], self.invoices@[invoice_id])
        &&& self.same_except_invoices(old)
        &&& self.next_id == old.next_id
    }

    /// How `create_dispute` decides a request.
    pub open spec fn spec_create_dispute_check(&self, invoice_id: u64, reason: Seq<char>) -> Result<(), QuickLendXError> {
        if self.paused {
            Err(QuickLendXError::ContractPaused)
        } else if !self.invoices@.contains_key(invoice_id) {
            Err(QuickLendXError::InvoiceNotFound)
        } else if self.invoices@[invoice_id].dispute_status != DisputeStatus::NoDispute {
            Err(QuickLendXError::DisputeAlreadyExists)
        } else if reason.len() == 0 {
            Err(QuickLendXError::InvalidDisputeReason)
        } else {
            Ok(())
        }
    }

    /// Open a dispute on an invoice that has none, with a non-empty reason.
    /// Refused requests change nothing.
    pub fn create_dispute(&mut self, invoice_id: u64, creator: u64, reason: String, evidence: String, now: u64) -> (r: Result<(), QuickLendXError>)
        requires
            old(self).wf(),
        ensures
            final(self).wf(),
            match old(self).spec_create_dispute_check(invoice_id, reason@) {
                Err(e) => r == Err::<(), QuickLendXError>(e) && *final(self) == *old(self),
                Ok(()) => {
                    let d = final(self).invoices@[invoice_id].dispute;
                    &&& r == Ok::<(), QuickLendXError>(())
                    &&& final(self).spec_dispute_updated(&*old(self), invoice_id)
                    &&& final(self).invoices@[invoice_id].dispute_status == DisputeStatus::Disputed
                    &&& d.created_by == creator
                    &&& d.created_at == now
                    &&& d.reason@ == reason@
                    &&& d.evidence@ == evidence@
                    &&& d.resolution@ == Seq::<char>::empty()
                    &&& d.resolved_by is None
                    &&& d.resolved_at == 0
                    &&& d.resolution_outcome == DisputeResolution::Unspecified
                },
            },
    {
        if self.paused {
            return Err(QuickLendXError::ContractPaused);
        }
        match self.invoices.get(&invoice_id) {
            Some(inv) => {
                if inv.dispute_status != DisputeStatus::NoDispute {
                    return Err(QuickLendXError::DisputeAlreadyExists);
                }
            },
            None => return Err(QuickLendXError::InvoiceNotFound),
        }
        if reason.as_str().is_empty() {
            return Err(QuickLendXError::InvalidDisputeReason);
        }
        let ghost old_self = *self;
        let mut inv = self.invoices.remove(&invoice_id).unwrap();
        inv.dispute_status = DisputeStatus::Disputed;
        inv.dispute = Dispute {
            created_by: creator,
            created_at: now,
            reason,
            evidence,
            resolution: String::new(),
            resolved_by: None,
            resolved_at: 0,
            resolution_outcome: DisputeResolution::Unspecified,
        };
        self.invoices.insert(invoice_id, inv);
        proof {
            assert(self.invoices@ =~= old_self.invoices@.insert(invoice_id, self.invoices@[invoice_id]));
            assert forall|k: u64| #[trigger] self.invoices@.contains_key(k) implies crate::settlement::records_total(
                self.spec_payment_records(k),
            ) == self.invoices@[k].total_paid by {
                assert(old_self.invoices@.contains_key(k));
            }
        }
        Ok(())
    }

    /// How `update_dispute_evidence` decides a request.
    pub open spec fn spec_update_evidence_check(&self, invoice_id: u64, creator: u64) -> Result<(), QuickLendXError> {
        if self.paused {
            Err(QuickLendXError::ContractPaused)
        } else if !self.invoices@.contains_key(invoice_id) {
            Err(QuickLendXError::InvoiceNotFound)
        } else if self.invoices@[invoice_id].dispute_status != DisputeStatus::Disputed {
            Err(QuickLendXError::InvalidStatus)
        } else if self.invoices@[invoice_id].dispute.created_by != creator {
            Err(QuickLendXError::DisputeNotAuthorized)
        } else {
            Ok(())
        }
    }

    /// Replace the evidence of an open dispute (its creator, before review).
    /// Refused requests change nothing.
    pub fn update_dispute_evidence(&mut self, invoice_id: u64, creator: u64, evidence: String) -> (r: Result<(), QuickLendXError>)
        requires
            old(self).wf(),
        ensures
            final(self).wf(),
            match old(self).spec_update_evidence_check(invoice_id, creator) {
                Err(e) => r == Err::<(), QuickLendXError>(e) && *final(self) == *old(self),
                Ok(()) => {
                    let d0 = old(self).invoices@[invoice_id].dispute;
                    let d = final(self).invoices@[invoice_id].dispute;
                    &&& r == Ok::<(), QuickLendXError>(())
                    &&& final(self).spec_dispute_updated(&*old(self), invoice_id)
                    &&& final(self).invoices@[invoice_id].dispute_status == DisputeStatus::Disputed
                    &&& d == Dispute { evidence: d.evidence, ..d0 }
                    &&& d.evidence@ == evidence@
                },
            },
    {
        if self.paused {
            return Err(QuickLendXError::ContractPaused);
        }
        match self.invoices.get(&invoice_id) {
            Some(inv) => {
                if inv.dispute_status != DisputeStatus::Disputed {
                    return Err(QuickLendXError::InvalidStatus);
                }
                if inv.dispute.created_by != creator {
                    return Err(QuickLendXError::DisputeNotAuthorized);
                }
            },
            None => return Err(QuickLendXError::InvoiceNotFound),
        }
        let ghost old_self = *self;
        let mut inv = self.invoices.remove(&invoice_id).unwrap();
        inv.dispute.evidence = evidence;
        self.invoices.insert(invoice_id, inv);
        proof {
            assert(self.invoices@ =~= old_self.invoices@.insert(invoice_id, self.invoices@[invoice_id]));
            assert forall|k: u64| #[trigger] self.invoices@.contains_key(k) implies crate::settlement::records_total(
                self.spec_payment_records(k),
            ) == self.invoices@[k].total_paid by {
                assert(old_self.invoices@.contains_key(k));
            }
        }
        Ok(())
    }
}

impl QuickLendXContract {
    /// How `put_dispute_under_review` decides a request by `admin`.
    pub open spec fn spec_review_check(&self, invoice_id: u64, admin: u64) -> Result<(), QuickLendXError> {
        if self.spec_require_admin(admin) is Err {
            self.spec_require_admin(admin)
        } else if !self.invoices@.contains_key(invoice_id) {
            Err(QuickLendXError::InvoiceNotFound)
        } else {
            match self.invoices@[invoice_id].dispute_status {
                DisputeStatus::NoDispute => Err(QuickLendXError::DisputeNotFound),
                DisputeStatus::Disputed => Ok(()),
                _ => Err(QuickLendXError::InvalidStatus),
            }
        }
    }

    fn set_dispute(&mut self, invoice_id: u64, status: DisputeStatus, dispute: Dispute)
        requires
            old(self).wf(),
            old(self).invoices@.contains_key(invoice_id),
        ensures
            final(self).wf(),
            final(self).spec_dispute_updated(&*old(self), invoice_id),
            final(self).invoices@[invoice_id].dispute_status == status,
            final(self).invoices@[invoice_id].dispute == dispute,
    {
        let ghost old_self = *self;
        let mut inv = self.invoices.remove(&invoice_id).unwrap();
        inv.dispute_status = status;
        inv.dispute = dispute;
        self.invoices.insert(invoice_id, inv);
        proof {
            assert(self.invoices@ =~= old_self.invoices@.insert(invoice_id, self.invoices@[invoice_id]));
            assert forall|k: u64| #[trigger] self.invoices@.contains_key(k) implies crate::settlement::records_total(
                self.spec_payment_records(k),
            ) == self.invoices@[k].total_paid by {
                assert(old_self.invoices@.contains_key(k));
            }
        }
    }

    fn take_dispute(&mut self, invoice_id: u64) -> (d: Dispute)
        requires
            old(self).invoices@.contains_key(invoice_id),
        ensures
            d == old(self).invoices@[invoice_id].dispute,
            final(self).invoices@.contains_key(invoice_id),
            final(self).invoices@ == old(self).invoices@.insert(invoice_id, final(self).invoices@[invoice_id]),
            same_invoice_except_dispute(old(self).invoices@[invoice_id], final(self).invoices@[invoice_id]),
            final(self).invoices@[invoice_id].dispute_status == old(self).invoices@[invoice_id].dispute_status,
            final(self).same_except_invoices(&*old(self)),
            final(self).next_id == old(self).next_id,
    {
        let ghost old_self = *self;
        let mut inv = self.invoices.remove(&invoice_id).unwrap();
        let mut d = Dispute {
            created_by: 0,
            created_at: 0,
            reason: String::new(),
            evidence: String::new(),
            resolution: String::new(),
            resolved_by: None,
            resolved_at: 0,
            resolution_outcome: DisputeResolution::Unspecified,
        };
        core::mem::swap(&mut d, &mut inv.dispute);
        self.invoices.insert(invoice_id, inv);
        proof {
            assert(self.invoices@ =~= old_self.invoices@.insert(invoice_id, self.invoices@[invoice_id]));
        }
        d
    }

    /// Put an open dispute under review (administrator). Refused requests
    /// change nothing.
    pub fn put_dispute_under_review(&mut self, invoice_id: u64, admin: u64) -> (r: Result<(), QuickLendXError>)
        requires
            old(self).wf(),
        ensures
            final(self).wf(),
            match old(self).spec_review_check(invoice_id, admin) {
                Err(e) => r == Err::<(), QuickLendXError>(e) && *final(self) == *old(self),
                Ok(()) => r == Ok::<(), QuickLendXError>(())
                    && final(self).spec_dispute_updated(&*old(self), invoice_id)
                    && final(self).invoices@[invoice_id].dispute_status == DisputeStatus::UnderReview
                    && final(self).invoices@[invoice_id].dispute == old(self).invoices@[invoice_id].dispute,
            },
    {
        match self.require_admin(admin) {
            Ok(()) => {},
            Err(e) => return Err(e),
        }
        match self.invoices.get(&invoice_id) {
            Some(inv) => {
                match inv.dispute_status {
                    DisputeStatus::NoDispute => return Err(QuickLendXError::DisputeNotFound),
                    DisputeStatus::Disputed => {},
                    _ => return Err(QuickLendXError::InvalidStatus),
                }
            },
            None => return Err(QuickLendXError::InvoiceNotFound),
        }
        let ghost old_self = *self;
        let d = self.take_dispute(invoice_id);
        proof {
            assert(self.wf()) by {
                assert forall|k: u64| #[trigger] self.invoices@.contains_key(k) implies self.invoices@[k].id == k
                    && crate::contract::invoice_amounts_wf(self.invoices@[k])
                    && crate::settlement::records_total(self.spec_payment_records(k)) == self.invoices@[k].total_paid by {
                    assert(old_self.invoices@.contains_key(k));
                }
            }
        }
        self.set_dispute(invoice_id, DisputeStatus::UnderReview, d);
        assert(self.invoices@ =~= old_self.invoices@.insert(invoice_id, self.invoices@[invoice_id]));
        Ok(())
    }

    /// How `resolve_dispute` and `resolve_dispute_structured` decide a request.
    pub open spec fn spec_resolve_check(&self, invoice_id: u64, admin: u64) -> Result<(), QuickLendXError> {
        if self.spec_require_admin(admin) is Err {
            self.spec_require_admin(admin)
        } else if !self.invoices@.contains_key(invoice_id) {
            Err(QuickLendXError::InvoiceNotFound)
        } else if self.invoices@[invoice_id].dispute_status != DisputeStatus::UnderReview {
            Err(QuickLendXError::DisputeNotUnderReview)
        } else {
            Ok(())
        }
    }

    /// Resolve a dispute under review with an outcome and a note
    /// (administrator), and say which event follows: `Rejected` for a
    /// dismissed dispute, `Resolved` otherwise. Refused requests change
    /// nothing.
    pub fn resolve_dispute_structured(
        &mut self,
        invoice_id: u64,
        admin: u64,
        outcome: DisputeResolution,
        note: String,
        now: u64,
    ) -> (r: Result<DisputeEvent, QuickLendXError>)
        requires
            old(self).wf(),
        ensures
            final(self).wf(),
            match old(self).spec_resolve_check(invoice_id, admin) {
                Err(e) => r == Err::<DisputeEvent, QuickLendXError>(e) && *final(self) == *old(self),
                Ok(()) => {
                    let d0 = old(self).invoices@[invoice_id].dispute;
                    let d = final(self).invoices@[invoice_id].dispute;
                    &&& r == Ok::<DisputeEvent, QuickLendXError>(
                        if outcome == DisputeResolution::Dismissed {
                            DisputeEvent::Rejected
                        } else {
                            DisputeEvent::Resolved
                        },
                    )
                    &&& final(self).spec_dispute_updated(&*old(self), invoice_id)
                    &&& final(self).invoices@[invoice_id].dispute_status == DisputeStatus::Resolved
                    &&& d == Dispute { resolution: d.resolution, resolved_by: Some(admin), resolved_at: now, resolution_outcome: outcome, ..d0 }
                    &&& d.resolution@ == note@
                },
            },
    {
        match self.require_admin(admin) {
            Ok(()) => {},
            Err(e) => return Err(e),
        }
        match self.invoices.get(&invoice_id) {
            Some(inv) => {
                if inv.dispute_status != DisputeStatus::UnderReview {
                    return Err(QuickLendXError::DisputeNotUnderReview);
                }
            },
            None => return Err(QuickLendXError::InvoiceNotFound),
        }
        let ghost old_self = *self;
        let mut d = self.take_dispute(invoice_id);
        proof {
            assert(self.wf()) by {
                assert forall|k: u64| #[trigger] self.invoices@.contains_key(k) implies self.invoices@[k].id == k
                    && crate::contract::invoice_amounts_wf(self.invoices@[k])
                    && crate::settlement::records_total(self.spec_payment_records(k)) == self.invoices@[k].total_paid by {
                    assert(old_self.invoices@.contains_key(k));
                }
            }
        }
        d.resolution = note;
        d.resolution_outcome = outcome;
        d.resolved_by = Some(admin);
        d.resolved_at = now;
        self.set_dispute(invoice_id, DisputeStatus::Resolved, d);
        assert(self.invoices@ =~= old_self.invoices@.insert(invoice_id, self.invoices@[invoice_id]));
        if outcome == DisputeResolution::Dismissed {
            Ok(DisputeEvent::Rejected)
        } else {
            Ok(DisputeEvent::Resolved)
        }
    }

    /// Resolve a dispute under review with a note and no structured outcome
    /// (administrator). Refused requests change nothing.
    pub fn resolve_dispute(&mut self, invoice_id: u64, admin: u64, resolution: String, now: u64) -> (r: Result<(), QuickLendXError>)
        requires
            old(self).wf(),
        ensures
            final(self).wf(),
            match old(self).spec_resolve_check(invoice_id, admin) {
                Err(e) => r == Err::<(), QuickLendXError>(e) && *final(self) == *old(self),
                Ok(()) => {
                    let d0 = old(self).invoices@[invoice_id].dispute;
                    let d = final(self).invoices@[invoice_id].dispute;
                    &&& r == Ok::<(), QuickLendXError>(())
                    &&& final(self).spec_dispute_updated(&*old(self), invoice_id)
                    &&& final(self).invoices@[invoice_id].dispute_status == DisputeStatus::Resolved
                    &&& d == Dispute { resolution: d.resolution, resolved_by: Some(admin), resolved_at: now, resolution_outcome: DisputeResolution::Unspecified, ..d0 }
                    &&& d.resolution@ == resolution@
                },
            },
    {
        match self.resolve_dispute_structured(invoice_id, admin, DisputeResolution::Unspecified, resolution, now) {
            Ok(_) => Ok(()),
            Err(e) => Err(e),
        }
    }

    /// The dispute status of an invoice.
    pub fn get_invoice_dispute_status(&self, invoice_id: u64) -> (r: Result<DisputeStatus, QuickLendXError>)
        ensures
            self.invoices@.contains_key(invoice_id) ==> r == Ok::<DisputeStatus, QuickLendXError>(self.invoices@[invoice_id].dispute_status),
            !self.invoices@.contains_key(invoice_id) ==> r == Err::<DisputeStatus, QuickLendXError>(QuickLendXError::InvoiceNotFound),
    {
        match self.invoices.get(&invoice_id) {
            Some(inv) => Ok(inv.dispute_status),
            None => Err(QuickLendXError::InvoiceNotFound),
        }
    }

    /// The dispute of an invoice, if one was opened.
    pub fn get_dispute_details(&self, invoice_id: u64) -> (r: Result<Option<&Dispute>, QuickLendXError>)
        ensures
            !self.invoices@.contains_key(invoice_id) ==> r == Err::<Option<&Dispute>, QuickLendXError>(QuickLendXError::InvoiceNotFound),
            self.invoices@.contains_key(invoice_id) && self.invoices@[invoice_id].dispute_status == DisputeStatus::NoDispute
                ==> r == Ok::<Option<&Dispute>, QuickLendXError>(None),
            self.invoices@.contains_key(invoice_id) && self.invoices@[invoice_id].dispute_status != DisputeStatus::NoDispute
                ==> r == Ok::<Option<&Dispute>, QuickLendXError>(Some(&self.invoices@[invoice_id].dispute)),
    {
        match self.invoices.get(&invoice_id) {
            Some(inv) => {
                if inv.dispute_status == DisputeStatus::NoDispute {
                    Ok(None)
                } else {
                    Ok(Some(&inv.dispute))
                }
            },
            None => Err(QuickLendXError::InvoiceNotFound),
        }
    }
}

} // verus!
