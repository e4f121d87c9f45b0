//! Errors returned by the protocol's entry points.
use vstd::prelude::*;

verus! {

/// Why a protocol operation was refused.
#[derive(Clone, Copy, Debug, PartialEq, Eq, Structural)]
pub enum QuickLendXError {
    BusinessNotVerified,
    ContractPaused,
    DisputeActive,
    DisputeAlreadyExists,
    DisputeNotAuthorized,
    DisputeNotFound,
    DisputeNotUnderReview,
    DuplicateBid,
    InvalidAmount,
    InvalidDescription,
    InvalidDisputeReason,
    InvalidLedgerSequence,
    InvalidStatus,
    InvestorNotVerified,
    InvoiceAlreadyDefaulted,
    InvoiceAlreadyFunded,
    InvoiceAmountInvalid,
    InvoiceDueDateInvalid,
    InvoiceFrozen,
    InvoiceNotAvailableForFunding,
    InvoiceNotFound,
    KYCAlreadyPending,
    MaxActiveBidsPerInvestorExceeded,
    MaxBidsPerInvoiceExceeded,
    MaxInvoicesPerBusinessExceeded,
    NotAdmin,
    NotBusinessOwner,
    NotInvestor,
    OperationNotAllowed,
    PaymentTooLow,
    StorageError,
    StorageKeyNotFound,
    Unauthorized,
}

} // verus!
