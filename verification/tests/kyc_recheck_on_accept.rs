use quicklendx_contracts::contract::QuickLendXContract;
use quicklendx_contracts::errors::QuickLendXError;
use quicklendx_contracts::types::{BidStatus, EscrowStatus, InvoiceCategory, InvoiceStatus};

const NOW: u64 = 5_000;
const ADMIN: u64 = 1;
const INVESTOR: u64 = 2;
const BUSINESS: u64 = 3;
const CURRENCY: u64 = 4;

fn setup() -> QuickLendXContract {
    let mut c = QuickLendXContract::new();
    c.set_admin(ADMIN, ADMIN).unwrap();
    c
}

fn verified_business(c: &mut QuickLendXContract) -> u64 {
    c.submit_kyc_application(BUSINESS, String::from("Business KYC")).unwrap();
    c.verify_business(ADMIN, BUSINESS).unwrap();
    BUSINESS
}

fn verified_investor(c: &mut QuickLendXContract, investment_limit: i128) -> u64 {
    c.submit_investor_kyc(INVESTOR, String::from("Investor KYC")).unwrap();
    c.verify_investor(ADMIN, INVESTOR, investment_limit).unwrap();
    INVESTOR
}

fn verified_invoice(c: &mut QuickLendXContract, business: u64, amount: i128) -> u64 {
    let due_date = NOW + 86_400 * 30;
    let invoice_id = c
        .upload_invoice(
            business,
            amount,
            CURRENCY,
            due_date,
            String::from("KYC re-check regression invoice"),
            InvoiceCategory::Services,
            NOW,
        )
        .unwrap();
    c.verify_invoice(invoice_id, ADMIN).unwrap();
    invoice_id
}

fn accepted_bid_fixture() -> (QuickLendXContract, u64, u64, u64) {
    let mut c = setup();
    let investor = verified_investor(&mut c, 500_000);
    let business = verified_business(&mut c);
    let invoice_id = verified_invoice(&mut c, business, 100_000);
    let bid_id = c.place_bid(investor, invoice_id, 100_000, 10_000, 0, NOW).unwrap();
    (c, invoice_id, bid_id, investor)
}

#[test]
fn revoked_investor_cannot_fund_with_previously_placed_bid() {
    let (mut c, invoice_id, bid_id, investor) = accepted_bid_fixture();

    c.revoke_investor_kyc(ADMIN, investor, String::from("KYC revoked before funding")).unwrap();

    let result = c.accept_bid_and_fund(invoice_id, bid_id, NOW);
    assert_eq!(result.unwrap_err(), QuickLendXError::InvestorNotVerified);

    let invoice = c.get_invoice(invoice_id).unwrap();
    assert_eq!(invoice.status, InvoiceStatus::Verified);
    assert_eq!(invoice.funded_amount, 0);
    assert!(invoice.funded_at.is_none());
    assert!(invoice.investor.is_none());

    let bid = c.get_bid(bid_id).expect("bid remains stored");
    assert_eq!(bid.status, BidStatus::Placed);

    let escrow = c.get_escrow_details(invoice_id);
    assert_eq!(escrow.unwrap_err(), QuickLendXError::StorageKeyNotFound);
}

#[test]
fn still_verified_investor_accepts_normally() {
    let (mut c, invoice_id, bid_id, _investor) = accepted_bid_fixture();

    let result = c.accept_bid_and_fund(invoice_id, bid_id, NOW);
    assert!(result.is_ok(), "verified investor should still fund escrow");

    let invoice = c.get_invoice(invoice_id).unwrap();
    assert_eq!(invoice.status, InvoiceStatus::Funded);
    assert_eq!(invoice.funded_amount, 100_000);
    assert!(invoice.funded_at.is_some());
    assert!(invoice.investor.is_some());

    let escrow = c.get_escrow_details(invoice_id).unwrap();
    assert_eq!(escrow.status, EscrowStatus::Held);
}

#[test]
fn revoked_then_reverified_investor_accepts_normally() {
    let (mut c, invoice_id, bid_id, investor) = accepted_bid_fixture();

    c.revoke_investor_kyc(ADMIN, investor, String::from("temporary compliance hold")).unwrap();
    c.verify_investor(ADMIN, investor, 500_000).unwrap();

    let result = c.accept_bid_and_fund(invoice_id, bid_id, NOW);
    assert!(
        result.is_ok(),
        "re-verified investor should be accepted at funding time"
    );

    let invoice = c.get_invoice(invoice_id).unwrap();
    assert_eq!(invoice.status, InvoiceStatus::Funded);
}
