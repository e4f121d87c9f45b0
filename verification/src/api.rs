//! Contract entry points that gate the settlement and escrow operations on
//! the emergency pause, together with the pause switch and the platform-fee
//! configuration.
use vstd::prelude::*;

use crate::contract::{ProtocolLimits, QuickLendXContract};
use crate::errors::QuickLendXError;
use crate::escrow;
use crate::profits::{calculate_profit, spec_calculate_profit, BPS_DENOMINATOR};
use crate::settlement;
use crate::settlement::settlement_nonce;
use crate::types::{InvestmentStatus, InvoiceStatus, Transfer};

verus! {

impl QuickLendXContract {
    /// Settle an invoice with a final payment from its business (see
    /// `settlement::settle_invoice`); refused with `ContractPaused`, changing
    /// nothing, while the protocol is paused.
    pub fn settle_invoice(&mut self, invoice_id: u64, payment_amount: i128, now: u64) -> (r: Result<Vec<Transfer>, QuickLendXError>)
        requires
            old(self).wf(),
            !old(self).paused ==> !(old(self).spec_settle_invoice(invoice_id, payment_amount) is Aborts),
        ensures
            final(self).wf(),
            old(self).paused ==> r == Err::<Vec<Transfer>, QuickLendXError>(QuickLendXError::ContractPaused) && *final(self) == *old(self),
            !old(self).paused ==> final(self).spec_payment_outcome(&*old(self), old(self).spec_settle_invoice(invoice_id, payment_amount), invoice_id, settlement_nonce(), now, r),
    {
        if self.paused {
            return Err(QuickLendXError::ContractPaused);
        }
        settlement::settle_invoice(self, invoice_id, payment_amount, now)
    }

    /// Record a partial payment from the invoice's business and settle the
    /// invoice once it is fully paid (see `settlement::process_partial_payment`);
    /// refused with `ContractPaused`, changing nothing, while paused.
    pub fn process_partial_payment(&mut self, invoice_id: u64, payment_amount: i128, transaction_id: String, now: u64) -> (r: Result<Vec<Transfer>, QuickLendXError>)
        requires
            old(self).wf(),
            !old(self).paused ==> !(old(self).spec_partial_payment(invoice_id, payment_amount, transaction_id@) is Aborts),
        ensures
            final(self).wf(),
            old(self).paused ==> r == Err::<Vec<Transfer>, QuickLendXError>(QuickLendXError::ContractPaused) && *final(self) == *old(self),
            !old(self).paused ==> final(self).spec_payment_outcome(&*old(self), old(self).spec_partial_payment(invoice_id, payment_amount, transaction_id@), invoice_id, transaction_id@, now, r),
    {
        if self.paused {
            return Err(QuickLendXError::ContractPaused);
        }
        settlement::process_partial_payment(self, invoice_id, payment_amount, transaction_id, now)
    }

    /// A payment towards an invoice, with the same effect as
    /// `process_partial_payment`.
    pub fn make_payment(&mut self, invoice_id: u64, payment_amount: i128, transaction_id: String, now: u64) -> (r: Result<Vec<Transfer>, QuickLendXError>)
        requires
            old(self).wf(),
            !old(self).paused ==> !(old(self).spec_partial_payment(invoice_id, payment_amount, transaction_id@) is Aborts),
        ensures
            final(self).wf(),
            old(self).paused ==> r == Err::<Vec<Transfer>, QuickLendXError>(QuickLendXError::ContractPaused) && *final(self) == *old(self),
            !old(self).paused ==> final(self).spec_payment_outcome(&*old(self), old(self).spec_partial_payment(invoice_id, payment_amount, transaction_id@), invoice_id, transaction_id@, now, r),
    {
        if self.paused {
            return Err(QuickLendXError::ContractPaused);
        }
        settlement::process_partial_payment(self, invoice_id, payment_amount, transaction_id, now)
    }

    /// Accept a bid and move its amount into escrow (see
    /// `escrow::accept_bid_and_fund`); refused with `ContractPaused`,
    /// changing nothing, while paused.
    pub fn accept_bid_and_fund(&mut self, invoice_id: u64, bid_id: u64, now: u64) -> (r: Result<(u64, Vec<Transfer>), QuickLendXError>)
        requires
            old(self).wf(),
        ensures
            final(self).wf(),
            old(self).paused ==> r == Err::<(u64, Vec<Transfer>), QuickLendXError>(QuickLendXError::ContractPaused) && *final(self) == *old(self),
            !old(self).paused ==> match old(self).spec_accept_check(invoice_id, bid_id, now) {
                Err(e) => r == Err::<(u64, Vec<Transfer>), QuickLendXError>(e) && *final(self) == *old(self),
                Ok(()) => {
                    let cleaned = old(self).spec_bids_after_cleanup(invoice_id, now);
                    &&& r is Ok
                    &&& r->Ok_0.0 == old(self).next_id
                    &&& r->Ok_0.1@ == seq![old(self).spec_funding_transfer(invoice_id, cleaned[bid_id])]
                    &&& final(self).spec_funded(&*old(self), invoice_id, invoice_id, bid_id, cleaned, now)
                },
            },
    {
        if self.paused {
            return Err(QuickLendXError::ContractPaused);
        }
        escrow::accept_bid_and_fund(self, invoice_id, bid_id, now)
    }

    /// Refund a funded invoice's escrow to its investor at the request of the
    /// admin or the business (see `escrow::refund_escrow_funds`); refused
    /// with `ContractPaused`, changing nothing, while paused.
    pub fn refund_escrow_funds(&mut self, invoice_id: u64, caller: u64) -> (r: Result<Vec<Transfer>, QuickLendXError>)
        requires
            old(self).wf(),
        ensures
            final(self).wf(),
            old(self).paused ==> r == Err::<Vec<Transfer>, QuickLendXError>(QuickLendXError::ContractPaused) && *final(self) == *old(self),
            !old(self).paused ==> match old(self).spec_refund_check(invoice_id, caller) {
                Err(e) => r == Err::<Vec<Transfer>, QuickLendXError>(e) && *final(self) == *old(self),
                Ok(()) => r is Ok && r->Ok_0@ == seq![old(self).spec_escrow_refund_transfer(invoice_id)]
                    && final(self).spec_unwound(&*old(self), invoice_id, InvoiceStatus::Refunded, false, InvestmentStatus::Refunded),
            },
    {
        if self.paused {
            return Err(QuickLendXError::ContractPaused);
        }
        escrow::refund_escrow_funds(self, invoice_id, caller)
    }

    /// Refund a funded invoice's escrow on the admin's authority: refused
    /// with `ContractPaused` while paused and with `NotAdmin` when no admin
    /// is set, otherwise `refund_escrow_funds` with the admin as caller.
    pub fn refund_escrow(&mut self, invoice_id: u64) -> (r: Result<Vec<Transfer>, QuickLendXError>)
        requires
            old(self).wf(),
        ensures
            final(self).wf(),
            old(self).paused ==> r == Err::<Vec<Transfer>, QuickLendXError>(QuickLendXError::ContractPaused) && *final(self) == *old(self),
            !old(self).paused && old(self).admin is None ==> r == Err::<Vec<Transfer>, QuickLendXError>(QuickLendXError::NotAdmin) && *final(self) == *old(self),
            !old(self).paused && old(self).admin is Some ==> match old(self).spec_refund_check(invoice_id, old(self).admin->Some_0) {
                Err(e) => r == Err::<Vec<Transfer>, QuickLendXError>(e) && *final(self) == *old(self),
                Ok(()) => r is Ok && r->Ok_0@ == seq![old(self).spec_escrow_refund_transfer(invoice_id)]
                    && final(self).spec_unwound(&*old(self), invoice_id, InvoiceStatus::Refunded, false, InvestmentStatus::Refunded),
            },
    {
        if self.paused {
            return Err(QuickLendXError::ContractPaused);
        }
        let admin = match self.admin {
            Some(a) => a,
            None => return Err(QuickLendXError::NotAdmin),
        };
        escrow::refund_escrow_funds(self, invoice_id, admin)
    }

    /// Withdraw an active investment before its escrow is released (see
    /// `escrow::withdraw_investment`); refused with `ContractPaused`,
    /// changing nothing, while paused.
    pub fn withdraw_investment(&mut self, invoice_id: u64, investor: u64) -> (r: Result<Vec<Transfer>, QuickLendXError>)
        requires
            old(self).wf(),
        ensures
            final(self).wf(),
            old(self).paused ==> r == Err::<Vec<Transfer>, QuickLendXError>(QuickLendXError::ContractPaused) && *final(self) == *old(self),
            !old(self).paused ==> match old(self).spec_withdraw_check(invoice_id, investor) {
                Err(e) => r == Err::<Vec<Transfer>, QuickLendXError>(e) && *final(self) == *old(self),
                Ok(()) => r is Ok && r->Ok_0@ == seq![old(self).spec_escrow_refund_transfer(invoice_id)]
                    && final(self).spec_unwound(&*old(self), invoice_id, InvoiceStatus::Verified, true, InvestmentStatus::Withdrawn),
            },
    {
        if self.paused {
            return Err(QuickLendXError::ContractPaused);
        }
        escrow::withdraw_investment(self, invoice_id, investor)
    }

    /// The same clean-up as `cleanup_expired_bids`.
    pub fn clean_expired_bids(&mut self, invoice_id: u64, now: u64) -> (r: u32)
        requires
            old(self).wf(),
        ensures
            final(self).wf(),
            final(self).same_except_bids(&*old(self)),
            final(self).bids@ == old(self).spec_bids_after_cleanup(invoice_id, now),
            r as nat == if crate::bids::count_expirable(old(self).bids@, old(self).spec_bid_list(invoice_id), now)
                > u32::MAX {
                u32::MAX as nat
            } else {
                crate::bids::count_expirable(old(self).bids@, old(self).spec_bid_list(invoice_id), now)
            },
    {
        self.cleanup_expired_bids(invoice_id, now)
    }

    /// Split a settlement payment into the investor's return and the
    /// platform fee at the configured fee rate.
    pub fn calculate_profit(&self, investment_amount: i128, payment_amount: i128) -> (r: (i128, i128))
        requires
            self.wf(),
            investment_amount >= 0,
            payment_amount >= 0,
        ensures
            r == spec_calculate_profit(investment_amount, payment_amount, self.platform_fee_bps),
            r.0 + r.1 == payment_amount,
    {
        calculate_profit(investment_amount, payment_amount, self.platform_fee_bps)
    }

    /// The platform fee on settlement profit, in basis points.
    pub fn get_platform_fee(&self) -> (r: i128)
        ensures
            r == self.platform_fee_bps,
    {
        self.platform_fee_bps
    }

    /// Set the platform fee, in basis points, as the administrator `admin`:
    /// refused with `ContractPaused` while paused, with `NotAdmin` unless
    /// `admin` is the administrator, and with `InvalidAmount` outside
    /// `0 ..= 10_000`. Nothing else changes.
    pub fn set_platform_fee(&mut self, admin: u64, new_fee_bps: i128) -> (r: Result<(), QuickLendXError>)
        requires
            old(self).wf(),
        ensures
            final(self).wf(),
            r == (if old(self).paused {
                Err::<(), QuickLendXError>(QuickLendXError::ContractPaused)
            } else if old(self).admin != Some(admin) {
                Err::<(), QuickLendXError>(QuickLendXError::NotAdmin)
            } else if new_fee_bps < 0 || new_fee_bps > BPS_DENOMINATOR {
                Err::<(), QuickLendXError>(QuickLendXError::InvalidAmount)
            } else {
                Ok::<(), QuickLendXError>(())
            }),
            r is Ok ==> *final(self) == (QuickLendXContract { platform_fee_bps: new_fee_bps, ..*old(self) }),
            r is Err ==> *final(self) == *old(self),
    {
        if self.paused {
            return Err(QuickLendXError::ContractPaused);
        }
        match self.admin_caller(admin) {
            Ok(()) => {},
            Err(e) => return Err(e),
        }
        if new_fee_bps < 0 || new_fee_bps > BPS_DENOMINATOR {
            return Err(QuickLendXError::InvalidAmount);
        }
        self.platform_fee_bps = new_fee_bps;
        Ok(())
    }

    /// Set the most bids one investor may have active at once (zero: no
    /// limit), as the administrator `admin` (else `NotAdmin`); returns the
    /// new limit. Nothing else changes.
    pub fn set_max_active_bids_per_investor(&mut self, admin: u64, limit: u32) -> (r: Result<u32, QuickLendXError>)
        requires
            old(self).wf(),
        ensures
            final(self).wf(),
            r == (if old(self).admin == Some(admin) {
                Ok::<u32, QuickLendXError>(limit)
            } else {
                Err::<u32, QuickLendXError>(QuickLendXError::NotAdmin)
            }),
            r is Ok ==> *final(self) == (QuickLendXContract {
                limits: ProtocolLimits { max_active_bids_per_investor: limit, ..old(self).limits },
                ..*old(self)
            }),
            r is Err ==> *final(self) == *old(self),
    {
        match self.admin_caller(admin) {
            Ok(()) => {},
            Err(e) => return Err(e),
        }
        self.limits = ProtocolLimits { max_active_bids_per_investor: limit, ..self.limits };
        Ok(limit)
    }

    /// The most bids one investor may have active at once (zero: no limit).
    pub fn get_max_active_bids_per_investor(&self) -> (r: u32)
        ensures
            r == self.limits.max_active_bids_per_investor,
    {
        self.limits.max_active_bids_per_investor
    }

    /// Set the most active invoices one business may have (zero: no limit),
    /// as the administrator `admin`: refused with `ContractPaused` while
    /// paused and `NotAdmin` otherwise. Nothing else changes.
    pub fn set_max_invoices_per_business(&mut self, admin: u64, limit: u32) -> (r: Result<(), QuickLendXError>)
        requires
            old(self).wf(),
        ensures
            final(self).wf(),
            r == (if old(self).paused {
                Err::<(), QuickLendXError>(QuickLendXError::ContractPaused)
            } else if old(self).admin != Some(admin) {
                Err::<(), QuickLendXError>(QuickLendXError::NotAdmin)
            } else {
                Ok::<(), QuickLendXError>(())
            }),
            r is Ok ==> *final(self) == (QuickLendXContract {
                limits: ProtocolLimits { max_invoices_per_business: limit, ..old(self).limits },
                ..*old(self)
            }),
            r is Err ==> *final(self) == *old(self),
    {
        if self.paused {
            return Err(QuickLendXError::ContractPaused);
        }
        match self.admin_caller(admin) {
            Ok(()) => {},
            Err(e) => return Err(e),
        }
        self.limits = ProtocolLimits { max_invoices_per_business: limit, ..self.limits };
        Ok(())
    }

    /// Engage the emergency pause (admin only). While paused, operations that
    /// change state are refused with `ContractPaused`; queries still answer.
    pub fn pause(&mut self, admin: u64) -> (r: Result<(), QuickLendXError>)
        requires
            old(self).wf(),
        ensures
            final(self).wf(),
            r == old(self).spec_require_admin(admin),
            r is Ok ==> *final(self) == (QuickLendXContract { paused: true, ..*old(self) }),
            r is Err ==> *final(self) == *old(self),
    {
        match self.require_admin(admin) {
            Ok(()) => {},
            Err(e) => return Err(e),
        }
        self.paused = true;
        Ok(())
    }

    /// Lift the emergency pause (admin only).
    pub fn unpause(&mut self, admin: u64) -> (r: Result<(), QuickLendXError>)
        requires
            old(self).wf(),
        ensures
            final(self).wf(),
            r == old(self).spec_require_admin(admin),
            r is Ok ==> *final(self) == (QuickLendXContract { paused: false, ..*old(self) }),
            r is Err ==> *final(self) == *old(self),
    {
        match self.require_admin(admin) {
            Ok(()) => {},
            Err(e) => return Err(e),
        }
        self.paused = false;
        Ok(())
    }

    /// Whether the emergency pause is engaged.
    pub fn is_paused(&self) -> (r: bool)
        ensures
            r == self.paused,
    {
        self.paused
    }
}

} // verus!
