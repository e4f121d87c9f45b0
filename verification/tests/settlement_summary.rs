use quicklendx_contracts::contract::QuickLendXContract;
use quicklendx_contracts::errors::QuickLendXError;
use quicklendx_contracts::settlement::{get_settlement_summary, is_invoice_finalized};
use quicklendx_contracts::types::InvoiceCategory;

const NOW: u64 = 1_000;

/// A funded invoice of `invoice_amount`: a verified business and investor
/// (handles derived from `base`), a verified invoice, and an accepted bid of
/// the full amount.
fn setup_funded_invoice(c: &mut QuickLendXContract, base: u64, invoice_amount: i128) -> u64 {
    let admin = base;
    let business = base + 1;
    let investor = base + 2;
    let currency = base + 3;
    let initial_balance = 50_000i128;

    let caller = c.get_admin().unwrap_or(admin);
    c.set_admin(caller, admin).unwrap();
    c.submit_kyc_application(business, String::from("business-kyc")).unwrap();
    c.verify_business(admin, business).unwrap();
    c.submit_investor_kyc(investor, String::from("investor-kyc")).unwrap();
    c.verify_investor(admin, investor, initial_balance).unwrap();

    let due_date = NOW + 86_400;
    let invoice_id = c
        .store_invoice(
            business,
            invoice_amount,
            currency,
            due_date,
            String::from("Invoice for settlement summary"),
            InvoiceCategory::Services,
            NOW,
        )
        .unwrap();
    c.verify_invoice(invoice_id, admin).unwrap();
    let bid_id = c
        .place_bid(investor, invoice_id, invoice_amount, invoice_amount + 100, 0, NOW)
        .unwrap();
    c.accept_bid(invoice_id, bid_id, NOW).unwrap();
    invoice_id
}

#[test]
fn settlement_summary_reports_missing_invoice_error() {
    let c = QuickLendXContract::new();
    let missing = 7u64;

    let err = get_settlement_summary(&c, missing).unwrap_err();
    assert_eq!(err, QuickLendXError::InvoiceNotFound);
}

#[test]
fn settlement_summary_tracks_unpaid_partial_overpay_and_finalized() {
    let mut c = QuickLendXContract::new();
    let invoice_amount = 1_000i128;
    let invoice_id = setup_funded_invoice(&mut c, 100, invoice_amount);

    let unpaid = get_settlement_summary(&c, invoice_id).unwrap();
    assert_eq!(unpaid.total_due, invoice_amount);
    assert_eq!(unpaid.total_paid, 0);
    assert_eq!(unpaid.remaining, invoice_amount);
    assert_eq!(unpaid.percent_complete_bps, 0);
    assert!(!unpaid.finalized);

    c.process_partial_payment(invoice_id, 250, String::from("pay-1"), NOW).unwrap();
    let partial = get_settlement_summary(&c, invoice_id).unwrap();
    assert_eq!(partial.total_paid, 250);
    assert_eq!(partial.remaining, 750);
    assert_eq!(partial.percent_complete_bps, 2_500);
    assert!(!partial.finalized);

    c.process_partial_payment(invoice_id, 2_000, String::from("pay-2"), NOW).unwrap();
    let capped = get_settlement_summary(&c, invoice_id).unwrap();
    assert_eq!(capped.total_paid, invoice_amount);
    assert_eq!(capped.remaining, 0);
    assert_eq!(capped.percent_complete_bps, 10_000);
    // The capped payment completes the invoice, and a payment that brings
    // the paid total up to the invoice amount finalizes its settlement
    // (see `process_partial_payment`), so the summary reports it finalized.
    assert!(capped.finalized);

    let finalize_invoice_id = setup_funded_invoice(&mut c, 200, invoice_amount);
    c.process_partial_payment(finalize_invoice_id, 250, String::from("final-pay-1"), NOW)
        .unwrap();
    c.settle_invoice(finalize_invoice_id, 750, NOW).unwrap();
    let finalized = get_settlement_summary(&c, finalize_invoice_id).unwrap();
    assert_eq!(finalized.total_due, invoice_amount);
    assert_eq!(finalized.total_paid, invoice_amount);
    assert_eq!(finalized.remaining, 0);
    assert_eq!(finalized.percent_complete_bps, 10_000);
    assert!(finalized.finalized);

    assert!(is_invoice_finalized(&c, finalize_invoice_id).unwrap());
}
