//! Administrator and KYC records of businesses and investors.
use vstd::prelude::*;

use crate::contract::QuickLendXContract;
use crate::errors::QuickLendXError;
use crate::types::{InvestorVerification, VerificationStatus};

verus! {

broadcast use vstd::std_specs::hash::group_hash_axioms;

/// An administrative decision on an investor's KYC.
#[derive(Clone, Copy, Debug, PartialEq, Eq, Structural)]
pub enum KycTransition {
    /// Verification: from a pending application, or a rejected or revoked KYC.
    Verify,
    /// Rejection of a pending application.
    Reject,
    /// Revocation of a verified KYC.
    Revoke,
}

/// Whether the decision may be taken on an investor in KYC status `s`.
pub open spec fn transition_allows(t: KycTransition, s: VerificationStatus) -> bool {
    match t {
        KycTransition::Verify => s == VerificationStatus::Pending || s == VerificationStatus::Rejected,
        KycTransition::Reject => s == VerificationStatus::Pending,
        KycTransition::Revoke => s == VerificationStatus::Verified,
    }
}

impl QuickLendXContract {
    /// `self` is `old` with only the administrator and KYC records possibly
    /// changed.
    pub open spec fn same_except_kyc(&self, old: &Self) -> bool {
        &&& self.paused == old.paused
        &&& self.platform_fee_bps == old.platform_fee_bps
        &&& self.next_id == old.next_id
        &&& self.invoices == old.invoices
        &&& self.frozen_invoices == old.frozen_invoices
        &&& self.settlements == old.settlements
        &&& self.bids == old.bids
        &&& self.invoice_bids == old.invoice_bids
        &&& self.bid_markers == old.bid_markers
        &&& self.investments == old.investments
        &&& self.escrows == old.escrows
        &&& self.limits == old.limits
        &&& self.verified_order == old.verified_order
    }

    /// Set the administrator, at the request of `caller`: the current
    /// administrator, or the new one itself when none is set; anyone else
    /// is refused with `NotAdmin`.
    pub fn set_admin(&mut self, caller: u64, admin: u64) -> (r: Result<(), QuickLendXError>)
        requires
            old(self).wf(),
        ensures
            final(self).wf(),
            r == (if old(self).admin == Some(caller) || (old(self).admin is None && caller == admin) {
                Ok::<(), QuickLendXError>(())
            } else {
                Err::<(), QuickLendXError>(QuickLendXError::NotAdmin)
            }),
            r is Err ==> *final(self) == *old(self),
            r is Ok ==> final(self).admin == Some(admin) && final(self).same_except_kyc(&*old(self))
                && final(self).investor_verifications == old(self).investor_verifications
                && final(self).business_verifications == old(self).business_verifications
                && final(self).limits == old(self).limits
                && final(self).verified_order == old(self).verified_order,
    {
        let allowed = match self.admin {
            Some(a) => a == caller,
            None => caller == admin,
        };
        if !allowed {
            return Err(QuickLendXError::NotAdmin);
        }
        self.admin = Some(admin);
        Ok(())
    }

    /// `caller` is the administrator: refused with `NotAdmin` when no
    /// administrator is set or `caller` is not it.
    pub open spec fn spec_admin_caller(&self, caller: u64) -> Result<(), QuickLendXError> {
        if self.admin == Some(caller) {
            Ok(())
        } else {
            Err(QuickLendXError::NotAdmin)
        }
    }

    pub(crate) fn admin_caller(&self, caller: u64) -> (r: Result<(), QuickLendXError>)
        ensures
            r == self.spec_admin_caller(caller),
    {
        match self.admin {
            Some(a) => {
                if a == caller {
                    Ok(())
                } else {
                    Err(QuickLendXError::NotAdmin)
                }
            },
            None => Err(QuickLendXError::NotAdmin),
        }
    }

    /// The administrator, if one is set.
    pub fn get_admin(&self) -> (r: Option<u64>)
        ensures
            r == self.admin,
    {
        self.admin
    }

    /// How a KYC submission is decided given the current status, if any.
    pub open spec fn spec_submit_check(paused: bool, current: Option<VerificationStatus>) -> Result<(), QuickLendXError> {
        if paused {
            Err(QuickLendXError::ContractPaused)
        } else if current == Some(VerificationStatus::Pending) {
            Err(QuickLendXError::KYCAlreadyPending)
        } else if current == Some(VerificationStatus::Verified) {
            Err(QuickLendXError::InvalidStatus)
        } else {
            Ok(())
        }
    }

    /// The business's current KYC status, if it has a record.
    pub open spec fn spec_business_status(&self, business: u64) -> Option<VerificationStatus> {
        if self.business_verifications@.contains_key(business) {
            Some(self.business_verifications@[business])
        } else {
            None
        }
    }

    /// Submit a business KYC application: the business becomes pending.
    /// A pending or verified business is refused, and nothing changes.
    pub fn submit_kyc_application(&mut self, business: u64, kyc_data: String) -> (r: Result<(), QuickLendXError>)
        requires
            old(self).wf(),
        ensures
            final(self).wf(),
            match Self::spec_submit_check(old(self).paused, old(self).spec_business_status(business)) {
                Err(e) => r == Err::<(), QuickLendXError>(e) && *final(self) == *old(self),
                Ok(()) => r == Ok::<(), QuickLendXError>(())
                    && final(self).business_verifications@ == old(self).business_verifications@.insert(business, VerificationStatus::Pending)
                    && final(self).same_except_kyc(&*old(self))
                    && final(self).admin == old(self).admin
                    && final(self).investor_verifications == old(self).investor_verifications,
            },
    {
        if self.paused {
            return Err(QuickLendXError::ContractPaused);
        }
        match self.business_verifications.get(&business) {
            Some(s) => {
                if *s == VerificationStatus::Pending {
                    return Err(QuickLendXError::KYCAlreadyPending);
                }
                if *s == VerificationStatus::Verified {
                    return Err(QuickLendXError::InvalidStatus);
                }
            },
            None => {},
        }
        self.business_verifications.insert(business, VerificationStatus::Pending);
        Ok(())
    }

    /// How a KYC decision by `admin` is decided given the current status.
    pub open spec fn spec_review_kyc_check(&self, admin: u64, current: Option<VerificationStatus>) -> Result<(), QuickLendXError> {
        if self.paused {
            Err(QuickLendXError::ContractPaused)
        } else if self.admin != Some(admin) {
            Err(QuickLendXError::NotAdmin)
        } else if current != Some(VerificationStatus::Pending) {
            Err(QuickLendXError::InvalidStatus)
        } else {
            Ok(())
        }
    }

    /// Verify a pending business (administrator). Refused requests change nothing.
    pub fn verify_business(&mut self, admin: u64, business: u64) -> (r: Result<(), QuickLendXError>)
        requires
            old(self).wf(),
        ensures
            final(self).wf(),
            match old(self).spec_review_kyc_check(admin, old(self).spec_business_status(business)) {
                Err(e) => r == Err::<(), QuickLendXError>(e) && *final(self) == *old(self),
                Ok(()) => r == Ok::<(), QuickLendXError>(())
                    && final(self).business_verifications@ == old(self).business_verifications@.insert(business, VerificationStatus::Verified)
                    && final(self).same_except_kyc(&*old(self))
                    && final(self).admin == old(self).admin
                    && final(self).investor_verifications == old(self).investor_verifications,
            },
    {
        if self.paused {
            return Err(QuickLendXError::ContractPaused);
        }
        match self.admin {
            Some(a) => {
                if a != admin {
                    return Err(QuickLendXError::NotAdmin);
                }
            },
            None => return Err(QuickLendXError::NotAdmin),
        }
        match self.business_verifications.get(&business) {
            Some(s) => {
                if *s != VerificationStatus::Pending {
                    return Err(QuickLendXError::InvalidStatus);
                }
            },
            None => return Err(QuickLendXError::InvalidStatus),
        }
        self.business_verifications.insert(business, VerificationStatus::Verified);
        Ok(())
    }

    /// Reject a pending business application (administrator); the business
    /// may apply again. Refused requests change nothing.
    pub fn reject_business(&mut self, admin: u64, business: u64, reason: String) -> (r: Result<(), QuickLendXError>)
        requires
            old(self).wf(),
        ensures
            final(self).wf(),
            match old(self).spec_review_kyc_check(admin, old(self).spec_business_status(business)) {
                Err(e) => r == Err::<(), QuickLendXError>(e) && *final(self) == *old(self),
                Ok(()) => r == Ok::<(), QuickLendXError>(())
                    && final(self).business_verifications@ == old(self).business_verifications@.insert(business, VerificationStatus::Rejected)
                    && final(self).same_except_kyc(&*old(self))
                    && final(self).admin == old(self).admin
                    && final(self).investor_verifications == old(self).investor_verifications,
            },
    {
        if self.paused {
            return Err(QuickLendXError::ContractPaused);
        }
        match self.admin {
            Some(a) => {
                if a != admin {
                    return Err(QuickLendXError::NotAdmin);
                }
            },
            None => return Err(QuickLendXError::NotAdmin),
        }
        match self.business_verifications.get(&business) {
            Some(s) => {
                if *s != VerificationStatus::Pending {
                    return Err(QuickLendXError::InvalidStatus);
                }
            },
            None => return Err(QuickLendXError::InvalidStatus),
        }
        self.business_verifications.insert(business, VerificationStatus::Rejected);
        Ok(())
    }

    /// The business's KYC status, if it applied.
    pub fn get_business_verification_status(&self, business: u64) -> (r: Option<VerificationStatus>)
        ensures
            r == self.spec_business_status(business),
    {
        match self.business_verifications.get(&business) {
            Some(s) => Some(*s),
            None => None,
        }
    }

    /// The investor's current KYC status, if they have a record.
    pub open spec fn spec_investor_status(&self, investor: u64) -> Option<VerificationStatus> {
        if self.investor_verifications@.contains_key(investor) {
            Some(self.investor_verifications@[investor].status)
        } else {
            None
        }
    }

    /// Submit an investor KYC application: the investor becomes pending with
    /// no investment limit. A pending or verified investor is refused, and
    /// nothing changes.
    pub fn submit_investor_kyc(&mut self, investor: u64, kyc_data: String) -> (r: Result<(), QuickLendXError>)
        requires
            old(self).wf(),
        ensures
            final(self).wf(),
            match Self::spec_submit_check(old(self).paused, old(self).spec_investor_status(investor)) {
                Err(e) => r == Err::<(), QuickLendXError>(e) && *final(self) == *old(self),
                Ok(()) => r == Ok::<(), QuickLendXError>(())
                    && final(self).investor_verifications@ == old(self).investor_verifications@.insert(
                        investor,
                        InvestorVerification { investor, status: VerificationStatus::Pending, investment_limit: 0 },
                    )
                    && final(self).same_except_kyc(&*old(self))
                    && final(self).admin == old(self).admin
                    && final(self).business_verifications == old(self).business_verifications
                && final(self).limits == old(self).limits
                && final(self).verified_order == old(self).verified_order,
            },
    {
        if self.paused {
            return Err(QuickLendXError::ContractPaused);
        }
        match self.investor_verifications.get(&investor) {
            Some(v) => {
                if v.status == VerificationStatus::Pending {
                    return Err(QuickLendXError::KYCAlreadyPending);
                }
                if v.status == VerificationStatus::Verified {
                    return Err(QuickLendXError::InvalidStatus);
                }
            },
            None => {},
        }
        self.investor_verifications.insert(
            investor,
            InvestorVerification { investor, status: VerificationStatus::Pending, investment_limit: 0 },
        );
        Ok(())
    }

    /// How an administrative decision on an investor's KYC is decided:
    /// refused while paused, unless `admin` is the administrator, or when the investor
    /// has no record or its status is not one that `allowed` accepts.
    pub open spec fn spec_investor_review_check(&self, admin: u64, investor: u64, allowed: KycTransition) -> Result<(), QuickLendXError> {
        if self.paused {
            Err(QuickLendXError::ContractPaused)
        } else if self.admin != Some(admin) {
            Err(QuickLendXError::NotAdmin)
        } else if !(self.spec_investor_status(investor) matches Some(s) && transition_allows(allowed, s)) {
            Err(QuickLendXError::InvalidStatus)
        } else {
            Ok(())
        }
    }

    /// `self` is `old` with the investor's KYC record set to `v` and nothing
    /// else changed.
    pub open spec fn spec_investor_record_set(&self, old: &Self, investor: u64, v: InvestorVerification) -> bool {
        &&& self.investor_verifications@ == old.investor_verifications@.insert(investor, v)
        &&& self.same_except_kyc(old)
        &&& self.admin == old.admin
        &&& self.business_verifications == old.business_verifications
        &&& self.limits == old.limits
        &&& self.verified_order == old.verified_order
    }

    /// Set the investor's KYC status after the checks of
    /// `spec_investor_review_check`.
    fn review_investor(&mut self, admin: u64, investor: u64, allowed: KycTransition, status: VerificationStatus, limit: Option<i128>) -> (r: Result<(), QuickLendXError>)
        requires
            old(self).wf(),
        ensures
            final(self).wf(),
            match old(self).spec_investor_review_check(admin, investor, allowed) {
                Err(e) => r == Err::<(), QuickLendXError>(e) && *final(self) == *old(self),
                Ok(()) => {
                    let v0 = old(self).investor_verifications@[investor];
                    &&& r == Ok::<(), QuickLendXError>(())
                    &&& final(self).spec_investor_record_set(
                        &*old(self),
                        investor,
                        InvestorVerification {
                            investor,
                            status,
                            investment_limit: match limit {
                                Some(l) => l,
                                None => v0.investment_limit,
                            },
                        },
                    )
                },
            },
    {
        if self.paused {
            return Err(QuickLendXError::ContractPaused);
        }
        match self.admin_caller(admin) {
            Ok(()) => {},
            Err(e) => return Err(e),
        }
        let current = match self.investor_verifications.get(&investor) {
            Some(v) => *v,
            None => return Err(QuickLendXError::InvalidStatus),
        };
        let found = match allowed {
            KycTransition::Verify => current.status == VerificationStatus::Pending || current.status
                == VerificationStatus::Rejected,
            KycTransition::Reject => current.status == VerificationStatus::Pending,
            KycTransition::Revoke => current.status == VerificationStatus::Verified,
        };
        if !found {
            return Err(QuickLendXError::InvalidStatus);
        }
        let investment_limit = match limit {
            Some(l) => l,
            None => current.investment_limit,
        };
        self.investor_verifications.insert(investor, InvestorVerification { investor, status, investment_limit });
        Ok(())
    }

    /// Verify an investor with an investment limit (administrator): a pending
    /// application, or an investor whose KYC was rejected or revoked, becomes
    /// verified. Refused requests change nothing.
    pub fn verify_investor(&mut self, admin: u64, investor: u64, investment_limit: i128) -> (r: Result<(), QuickLendXError>)
        requires
            old(self).wf(),
        ensures
            final(self).wf(),
            match old(self).spec_investor_review_check(admin, investor, KycTransition::Verify) {
                Err(e) => r == Err::<(), QuickLendXError>(e) && *final(self) == *old(self),
                Ok(()) => r == Ok::<(), QuickLendXError>(()) && final(self).spec_investor_record_set(
                    &*old(self),
                    investor,
                    InvestorVerification { investor, status: VerificationStatus::Verified, investment_limit },
                ),
            },
    {
        self.review_investor(admin, investor, KycTransition::Verify, VerificationStatus::Verified, Some(investment_limit))
    }

    /// Reject a pending investor application (administrator); the investor
    /// may apply again. Refused requests change nothing.
    pub fn reject_investor(&mut self, admin: u64, investor: u64, reason: String) -> (r: Result<(), QuickLendXError>)
        requires
            old(self).wf(),
        ensures
            final(self).wf(),
            match old(self).spec_investor_review_check(admin, investor, KycTransition::Reject) {
                Err(e) => r == Err::<(), QuickLendXError>(e) && *final(self) == *old(self),
                Ok(()) => r == Ok::<(), QuickLendXError>(()) && final(self).spec_investor_record_set(
                    &*old(self),
                    investor,
                    InvestorVerification {
                        investor,
                        status: VerificationStatus::Rejected,
                        investment_limit: old(self).investor_verifications@[investor].investment_limit,
                    },
                ),
            },
    {
        self.review_investor(admin, investor, KycTransition::Reject, VerificationStatus::Rejected, None)
    }

    /// Revoke a verified investor's KYC (administrator): the investor becomes
    /// rejected, which blocks new bids and funding until re-verification.
    /// Refused requests change nothing.
    pub fn revoke_investor_kyc(&mut self, admin: u64, investor: u64, reason: String) -> (r: Result<(), QuickLendXError>)
        requires
            old(self).wf(),
        ensures
            final(self).wf(),
            match old(self).spec_investor_review_check(admin, investor, KycTransition::Revoke) {
                Err(e) => r == Err::<(), QuickLendXError>(e) && *final(self) == *old(self),
                Ok(()) => r == Ok::<(), QuickLendXError>(()) && final(self).spec_investor_record_set(
                    &*old(self),
                    investor,
                    InvestorVerification {
                        investor,
                        status: VerificationStatus::Rejected,
                        investment_limit: old(self).investor_verifications@[investor].investment_limit,
                    },
                ),
            },
    {
        self.review_investor(admin, investor, KycTransition::Revoke, VerificationStatus::Rejected, None)
    }

    /// The investor's KYC record, if any.
    pub fn get_investor_verification(&self, investor: u64) -> (r: Option<InvestorVerification>)
        ensures
            self.investor_verifications@.contains_key(investor) ==> r == Some(self.investor_verifications@[investor]),
            !self.investor_verifications@.contains_key(investor) ==> r is None,
    {
        match self.investor_verifications.get(&investor) {
            Some(v) => Some(*v),
            None => None,
        }
    }
}

} // verus!
