//! Records held by the protocol. Identifiers and account addresses are
//! carried as `u64` handles; the host maps them to its own byte identifiers.
use vstd::prelude::*;

verus! {

/// Lifecycle state of an invoice.
#[derive(Clone, Copy, Debug, PartialEq, Eq, Structural)]
pub enum InvoiceStatus {
    Pending,
    Verified,
    Funded,
    Paid,
    Defaulted,
    Cancelled,
    Refunded,
}

/// Business category of an invoice.
#[derive(Clone, Copy, Debug, PartialEq, Eq, Structural)]
pub enum InvoiceCategory {
    Services,
    Goods,
    Consulting,
    Logistics,
    Products,
    Manufacturing,
    Technology,
    Healthcare,
    Other,
}

/// Lifecycle state of a bid.
#[derive(Clone, Copy, Debug, PartialEq, Eq, Structural)]
pub enum BidStatus {
    Placed,
    Withdrawn,
    Accepted,
    Expired,
    Cancelled,
}

/// Lifecycle state of an investment.
#[derive(Clone, Copy, Debug, PartialEq, Eq, Structural)]
pub enum InvestmentStatus {
    Active,
    Withdrawn,
    Completed,
    Defaulted,
    Refunded,
}

/// Lifecycle state of the funds an investor placed in escrow.
#[derive(Clone, Copy, Debug, PartialEq, Eq, Structural)]
pub enum EscrowStatus {
    Held,
    Released,
    Refunded,
}

/// Where an invoice stands in the dispute process.
#[derive(Clone, Copy, Debug, PartialEq, Eq, Structural)]
pub enum DisputeStatus {
    NoDispute,
    Disputed,
    UnderReview,
    Resolved,
}

/// The outcome an administrator recorded when resolving a dispute.
#[derive(Clone, Copy, Debug, PartialEq, Eq, Structural)]
pub enum DisputeResolution {
    Unspecified,
    BusinessFavored,
    InvestorFavored,
    Dismissed,
}

/// KYC state of a business or an investor.
#[derive(Clone, Copy, Debug, PartialEq, Eq, Structural)]
pub enum VerificationStatus {
    Pending,
    Verified,
    Rejected,
}

/// One payment kept inline on the invoice (the most recent ones only).
#[derive(Debug)]
pub struct PaymentRecord {
    pub payer: u64,
    pub amount: i128,
    pub timestamp: u64,
    pub transaction_id: String,
}

/// The dispute attached to an invoice.
#[derive(Debug)]
pub struct Dispute {
    pub created_by: u64,
    pub created_at: u64,
    pub reason: String,
    pub evidence: String,
    pub resolution: String,
    pub resolved_by: Option<u64>,
    pub resolved_at: u64,
    pub resolution_outcome: DisputeResolution,
}

/// An invoice offered for financing.
#[derive(Debug)]
pub struct Invoice {
    pub id: u64,
    pub business: u64,
    pub amount: i128,
    pub currency: u64,
    pub due_date: u64,
    pub status: InvoiceStatus,
    pub created_at: u64,
    pub description: String,
    pub category: InvoiceCategory,
    pub funded_amount: i128,
    pub funded_at: Option<u64>,
    pub investor: Option<u64>,
    pub settled_at: Option<u64>,
    pub total_paid: i128,
    pub payment_history: Vec<PaymentRecord>,
    pub dispute_status: DisputeStatus,
    pub dispute: Dispute,
}

/// An investor's offer to fund an invoice.
#[derive(Clone, Copy, Debug, PartialEq, Eq, Structural)]
pub struct Bid {
    pub bid_id: u64,
    pub invoice_id: u64,
    pub investor: u64,
    pub bid_amount: i128,
    pub expected_return: i128,
    pub timestamp: u64,
    pub status: BidStatus,
    pub expiration_timestamp: u64,
}

/// Funds committed by the investor of an accepted bid.
#[derive(Clone, Copy, Debug, PartialEq, Eq, Structural)]
pub struct Investment {
    pub investment_id: u64,
    pub invoice_id: u64,
    pub investor: u64,
    pub amount: i128,
    pub funded_at: u64,
    pub status: InvestmentStatus,
}

/// Investor funds held by the contract for a funded invoice.
#[derive(Clone, Copy, Debug, PartialEq, Eq, Structural)]
pub struct Escrow {
    pub escrow_id: u64,
    pub invoice_id: u64,
    pub investor: u64,
    pub business: u64,
    pub amount: i128,
    pub currency: u64,
    pub created_at: u64,
    pub status: EscrowStatus,
}

/// KYC record of an investor.
#[derive(Clone, Copy, Debug, PartialEq, Eq, Structural)]
pub struct InvestorVerification {
    pub investor: u64,
    pub status: VerificationStatus,
    pub investment_limit: i128,
}

/// Who sends or receives a token transfer.
#[derive(Clone, Copy, Debug, PartialEq, Eq, Structural)]
pub enum Party {
    /// An account, by its handle.
    Account(u64),
    /// The contract's own balance (escrow custody).
    Contract,
    /// The platform-fee recipient configured by the fee subsystem.
    FeeRecipient,
}

/// A token movement that an operation requires; the host performs it.
#[derive(Clone, Copy, Debug, PartialEq, Eq, Structural)]
pub struct Transfer {
    pub currency: u64,
    pub from: Party,
    pub to: Party,
    pub amount: i128,
}

impl Bid {
    /// A bid is expired once the ledger time is past its expiration timestamp.
    pub open spec fn spec_is_expired(&self, now: u64) -> bool {
        now > self.expiration_timestamp
    }

    /// Whether the bid has expired at ledger time `now`.
    pub fn is_expired(&self, now: u64) -> (r: bool)
        ensures
            r == self.spec_is_expired(now),
    {
        now > self.expiration_timestamp
    }
}

} // verus!
