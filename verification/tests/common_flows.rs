use quicklendx_contracts::contract::QuickLendXContract;
use quicklendx_contracts::errors::QuickLendXError;
use quicklendx_contracts::escrow::{refund_escrow_funds, withdraw_investment};
use quicklendx_contracts::settlement::{
    get_invoice_progress, get_payment_count, get_payment_record, get_payment_records,
    record_payment, settle_invoice,
};
use quicklendx_contracts::types::{
    BidStatus, EscrowStatus, InvestmentStatus, InvoiceCategory, InvoiceStatus, Party, Transfer,
};

const NOW: u64 = 10_000;
const ADMIN: u64 = 1;
const BUSINESS: u64 = 2;
const INVESTOR: u64 = 3;
const CURRENCY: u64 = 4;

fn verified_parties() -> QuickLendXContract {
    let mut c = QuickLendXContract::new();
    c.set_admin(ADMIN, ADMIN).unwrap();
    c.submit_kyc_application(BUSINESS, String::from("business")).unwrap();
    c.verify_business(ADMIN, BUSINESS).unwrap();
    c.submit_investor_kyc(INVESTOR, String::from("investor")).unwrap();
    c.verify_investor(ADMIN, INVESTOR, 1_000_000).unwrap();
    c
}

fn verified_invoice(c: &mut QuickLendXContract, amount: i128) -> u64 {
    let id = c
        .store_invoice(
            BUSINESS,
            amount,
            CURRENCY,
            NOW + 86_400,
            String::from("services rendered"),
            InvoiceCategory::Services,
            NOW,
        )
        .unwrap();
    c.verify_invoice(id, ADMIN).unwrap();
    id
}

/// A funded invoice of `amount` with an accepted bid of `bid_amount`.
fn funded_invoice(c: &mut QuickLendXContract, amount: i128, bid_amount: i128) -> (u64, u64) {
    let id = verified_invoice(c, amount);
    let bid = c.place_bid(INVESTOR, id, bid_amount, bid_amount + 100, 0, NOW).unwrap();
    c.accept_bid(id, bid, NOW).unwrap();
    (id, bid)
}

#[test]
fn funding_moves_bid_amount_into_escrow() {
    let mut c = verified_parties();
    let id = verified_invoice(&mut c, 1_000);
    let bid = c.place_bid(INVESTOR, id, 900, 1_000, 0, NOW).unwrap();
    let transfers = c.accept_bid(id, bid, NOW).unwrap();
    assert_eq!(
        transfers,
        vec![Transfer { currency: CURRENCY, from: Party::Account(INVESTOR), to: Party::Contract, amount: 900 }]
    );
    let invoice = c.get_invoice(id).unwrap();
    assert_eq!(invoice.status, InvoiceStatus::Funded);
    assert_eq!(invoice.funded_amount, 900);
    assert_eq!(invoice.investor, Some(INVESTOR));
    assert_eq!(c.get_bid(bid).unwrap().status, BidStatus::Accepted);
    assert_eq!(c.get_escrow_details(id).unwrap().status, EscrowStatus::Held);
    assert_eq!(c.get_invoice_investment(id).unwrap().status, InvestmentStatus::Active);
    assert_eq!(c.get_invoice_investment(id).unwrap().amount, 900);
}

#[test]
fn second_funding_is_refused() {
    let mut c = verified_parties();
    let (id, _bid) = funded_invoice(&mut c, 1_000, 1_000);
    let err = c.accept_bid_and_fund(id, 12345, NOW).unwrap_err();
    assert_eq!(err, QuickLendXError::InvoiceAlreadyFunded);
}

#[test]
fn record_payment_caps_at_amount_due_and_ignores_replayed_nonce() {
    let mut c = verified_parties();
    let (id, _) = funded_invoice(&mut c, 1_000, 1_000);
    let p = record_payment(&mut c, id, BUSINESS, 400, String::from("tx-1"), NOW).unwrap();
    assert_eq!(p.total_paid, 400);
    assert_eq!(p.remaining_due, 600);
    assert_eq!(p.progress_percent, 40);
    assert_eq!(p.payment_count, 1);
    let again = record_payment(&mut c, id, BUSINESS, 400, String::from("tx-1"), NOW).unwrap();
    assert_eq!(again, p);
    assert_eq!(get_payment_count(&c, id).unwrap(), 1);
    let capped = record_payment(&mut c, id, BUSINESS, 5_000, String::from("tx-2"), NOW).unwrap();
    assert_eq!(capped.total_paid, 1_000);
    assert_eq!(capped.remaining_due, 0);
    assert_eq!(get_payment_record(&c, id, 1).unwrap().amount, 600);
    assert_eq!(
        get_payment_record(&c, id, 2).unwrap_err(),
        QuickLendXError::StorageKeyNotFound
    );
    let err = record_payment(&mut c, id, BUSINESS, 1, String::from("tx-3"), NOW).unwrap_err();
    assert_eq!(err, QuickLendXError::InvalidStatus);
}

#[test]
fn record_payment_errors() {
    let mut c = verified_parties();
    let (id, _) = funded_invoice(&mut c, 1_000, 1_000);
    assert_eq!(
        record_payment(&mut c, id, BUSINESS, 0, String::from("a"), NOW).unwrap_err(),
        QuickLendXError::InvalidAmount
    );
    assert_eq!(
        record_payment(&mut c, id, INVESTOR, 10, String::from("a"), NOW).unwrap_err(),
        QuickLendXError::NotBusinessOwner
    );
    assert_eq!(
        record_payment(&mut c, 999, BUSINESS, 10, String::from("a"), NOW).unwrap_err(),
        QuickLendXError::InvoiceNotFound
    );
    let pending = c
        .store_invoice(BUSINESS, 50, CURRENCY, NOW + 10, String::from("d"), InvoiceCategory::Goods, NOW)
        .unwrap();
    assert_eq!(
        record_payment(&mut c, pending, BUSINESS, 10, String::from("a"), NOW).unwrap_err(),
        QuickLendXError::InvalidStatus
    );
}

#[test]
fn payment_records_are_paged_in_order() {
    let mut c = verified_parties();
    let (id, _) = funded_invoice(&mut c, 1_000, 1_000);
    for i in 0..5u64 {
        record_payment(&mut c, id, BUSINESS, 10 + i as i128, format!("n{}", i), NOW + i).unwrap();
    }
    let page = get_payment_records(&c, id, 1, 3).unwrap();
    let amounts: Vec<i128> = page.iter().map(|r| r.amount).collect();
    assert_eq!(amounts, vec![11, 12, 13]);
    assert!(get_payment_records(&c, id, 5, 3).unwrap().is_empty());
    assert_eq!(get_payment_records(&c, id, 3, 1000).unwrap().len(), 2);
}

#[test]
fn settlement_pays_investor_and_fee_exactly() {
    let mut c = verified_parties();
    c.set_platform_fee(ADMIN, 200).unwrap();
    let (id, _) = funded_invoice(&mut c, 1_000, 900);
    let transfers = settle_invoice(&mut c, id, 1_000, NOW + 5).unwrap();
    assert_eq!(
        transfers,
        vec![
            Transfer { currency: CURRENCY, from: Party::Contract, to: Party::Account(BUSINESS), amount: 900 },
            Transfer { currency: CURRENCY, from: Party::Account(BUSINESS), to: Party::Account(INVESTOR), amount: 998 },
            Transfer { currency: CURRENCY, from: Party::Account(BUSINESS), to: Party::FeeRecipient, amount: 2 },
        ]
    );
    let invoice = c.get_invoice(id).unwrap();
    assert_eq!(invoice.status, InvoiceStatus::Paid);
    assert_eq!(invoice.settled_at, Some(NOW + 5));
    assert_eq!(c.get_invoice_investment(id).unwrap().status, InvestmentStatus::Completed);
    assert_eq!(c.get_escrow_details(id).unwrap().status, EscrowStatus::Released);
    assert_eq!(
        settle_invoice(&mut c, id, 1, NOW).unwrap_err(),
        QuickLendXError::InvalidStatus
    );
}

#[test]
fn settlement_refusals() {
    let mut c = verified_parties();
    let (id, _) = funded_invoice(&mut c, 1_000, 1_000);
    assert_eq!(settle_invoice(&mut c, id, 0, NOW).unwrap_err(), QuickLendXError::InvalidAmount);
    assert_eq!(settle_invoice(&mut c, id, 1_001, NOW).unwrap_err(), QuickLendXError::InvalidAmount);
    assert_eq!(settle_invoice(&mut c, id, 999, NOW).unwrap_err(), QuickLendXError::PaymentTooLow);
    let progress = get_invoice_progress(&c, id).unwrap();
    assert_eq!(progress.total_paid, 0);
}

#[test]
fn partial_payment_reaching_amount_settles() {
    let mut c = verified_parties();
    let (id, _) = funded_invoice(&mut c, 1_000, 1_000);
    let none = c.process_partial_payment(id, 300, String::from("p1"), NOW).unwrap();
    assert!(none.is_empty());
    let settled = c.make_payment(id, 700, String::from("p2"), NOW).unwrap();
    assert_eq!(settled.len(), 2);
    assert_eq!(c.get_invoice(id).unwrap().status, InvoiceStatus::Paid);
}

#[test]
fn paused_protocol_refuses_changes_but_answers_queries() {
    let mut c = verified_parties();
    let (id, _) = funded_invoice(&mut c, 1_000, 1_000);
    assert_eq!(c.pause(99).unwrap_err(), QuickLendXError::NotAdmin);
    c.pause(ADMIN).unwrap();
    assert!(c.is_paused());
    assert_eq!(c.settle_invoice(id, 1_000, NOW).unwrap_err(), QuickLendXError::ContractPaused);
    assert_eq!(
        c.process_partial_payment(id, 10, String::from("x"), NOW).unwrap_err(),
        QuickLendXError::ContractPaused
    );
    assert_eq!(c.refund_escrow(id).unwrap_err(), QuickLendXError::ContractPaused);
    assert_eq!(c.set_platform_fee(ADMIN, 10).unwrap_err(), QuickLendXError::ContractPaused);
    assert_eq!(c.get_invoice(id).unwrap().status, InvoiceStatus::Funded);
    c.unpause(ADMIN).unwrap();
    assert!(!c.is_paused());
    assert!(c.settle_invoice(id, 1_000, NOW).is_ok());
}

#[test]
fn refund_returns_escrow_once() {
    let mut c = verified_parties();
    let (id, bid) = funded_invoice(&mut c, 1_000, 800);
    assert_eq!(
        refund_escrow_funds(&mut c, id, 77).unwrap_err(),
        QuickLendXError::Unauthorized
    );
    let t = refund_escrow_funds(&mut c, id, BUSINESS).unwrap();
    assert_eq!(
        t,
        vec![Transfer { currency: CURRENCY, from: Party::Contract, to: Party::Account(INVESTOR), amount: 800 }]
    );
    assert_eq!(c.get_invoice(id).unwrap().status, InvoiceStatus::Refunded);
    assert_eq!(c.get_escrow_details(id).unwrap().status, EscrowStatus::Refunded);
    assert_eq!(c.get_bid(bid).unwrap().status, BidStatus::Cancelled);
    assert_eq!(c.get_invoice_investment(id).unwrap().status, InvestmentStatus::Refunded);
    assert_eq!(
        c.refund_escrow(id).unwrap_err(),
        QuickLendXError::InvalidStatus
    );
}

#[test]
fn refund_escrow_needs_an_admin() {
    let mut c = QuickLendXContract::new();
    assert_eq!(c.refund_escrow(1).unwrap_err(), QuickLendXError::NotAdmin);
}

#[test]
fn withdrawal_reopens_invoice_for_funding() {
    let mut c = verified_parties();
    let (id, _) = funded_invoice(&mut c, 1_000, 1_000);
    assert_eq!(
        withdraw_investment(&mut c, id, BUSINESS).unwrap_err(),
        QuickLendXError::Unauthorized
    );
    let t = c.withdraw_investment(id, INVESTOR).unwrap();
    assert_eq!(t[0].amount, 1_000);
    let invoice = c.get_invoice(id).unwrap();
    assert_eq!(invoice.status, InvoiceStatus::Verified);
    assert_eq!(invoice.funded_amount, 0);
    assert!(invoice.investor.is_none());
    assert_eq!(c.get_invoice_investment(id).unwrap().status, InvestmentStatus::Withdrawn);
    assert_eq!(
        c.withdraw_investment(id, INVESTOR).unwrap_err(),
        QuickLendXError::InvalidStatus
    );
}

#[test]
fn profit_split_has_no_dust() {
    let mut c = verified_parties();
    assert_eq!(c.get_platform_fee(), 0);
    c.set_platform_fee(ADMIN, 250).unwrap();
    assert_eq!(c.get_platform_fee(), 250);
    assert_eq!(c.calculate_profit(1_000, 1_400), (1_390, 10));
    assert_eq!(c.calculate_profit(1_000, 900), (900, 0));
    assert_eq!(c.set_platform_fee(ADMIN, 10_001).unwrap_err(), QuickLendXError::InvalidAmount);
    assert_eq!(c.set_platform_fee(ADMIN, -1).unwrap_err(), QuickLendXError::InvalidAmount);
    let (ret, fee) = c.calculate_profit(3, 10_007);
    assert_eq!(ret + fee, 10_007);
    assert_eq!(fee, 250);
    let mut no_admin = QuickLendXContract::new();
    assert_eq!(no_admin.set_platform_fee(ADMIN, 5).unwrap_err(), QuickLendXError::NotAdmin);
}

#[test]
fn settled_invoice_takes_no_further_payment() {
    let mut c = verified_parties();
    let (id, _) = funded_invoice(&mut c, 1_000, 1_000);
    c.settle_invoice(id, 1_000, NOW).unwrap();
    assert_eq!(
        c.process_partial_payment(id, 10, String::from("late"), NOW).unwrap_err(),
        QuickLendXError::InvalidStatus
    );
    assert_eq!(c.settle_invoice(id, 0, NOW).unwrap_err(), QuickLendXError::InvalidAmount);
    assert_eq!(get_payment_count(&c, id).unwrap(), 1);
}

#[test]
fn refunded_escrow_cannot_be_withdrawn() {
    let mut c = verified_parties();
    let (id, _) = funded_invoice(&mut c, 1_000, 1_000);
    c.refund_escrow(id).unwrap();
    assert_eq!(
        c.withdraw_investment(id, INVESTOR).unwrap_err(),
        QuickLendXError::InvalidStatus
    );
}

#[test]
fn paused_protocol_refuses_new_records() {
    let mut c = verified_parties();
    let id = verified_invoice(&mut c, 1_000);
    c.pause(ADMIN).unwrap();
    assert_eq!(
        c.store_invoice(BUSINESS, 5, CURRENCY, NOW + 1, String::from("x"), InvoiceCategory::Other, NOW)
            .unwrap_err(),
        QuickLendXError::ContractPaused
    );
    assert_eq!(
        c.place_bid(INVESTOR, id, 10, 11, 9, NOW).unwrap_err(),
        QuickLendXError::ContractPaused
    );
    assert_eq!(
        c.create_dispute(id, BUSINESS, String::from("r"), String::from("e"), NOW).unwrap_err(),
        QuickLendXError::ContractPaused
    );
    assert_eq!(c.cancel_invoice(id).unwrap_err(), QuickLendXError::ContractPaused);
    assert!(!c.cancel_bid(1));
    assert_eq!(c.get_available_invoices(), vec![id]);
}

#[test]
fn an_invoice_never_gets_a_second_escrow() {
    let mut c = verified_parties();
    let a = verified_invoice(&mut c, 1_000);
    let b = verified_invoice(&mut c, 2_000);
    let b1 = c.place_bid(INVESTOR, a, 500, 600, 1, NOW).unwrap();
    let b2 = c.place_bid(INVESTOR, a, 700, 800, 2, NOW).unwrap();
    c.accept_bid(a, b1, NOW).unwrap();
    assert_eq!(c.accept_bid(b, b2, NOW).unwrap_err(), QuickLendXError::InvoiceAlreadyFunded);
    c.withdraw_investment(a, INVESTOR).unwrap();
    let invoice = c.get_invoice(a).unwrap();
    assert_eq!(invoice.status, InvoiceStatus::Verified);
    assert_eq!(invoice.funded_amount, 0);
    assert!(invoice.funded_at.is_none());
    assert!(invoice.investor.is_none());
    assert_eq!(invoice.total_paid, 0);
    let b3 = c.place_bid(INVESTOR, a, 900, 950, 3, NOW).unwrap();
    assert_eq!(c.accept_bid_and_fund(a, b3, NOW).unwrap_err(), QuickLendXError::InvalidStatus);
}

#[test]
fn open_dispute_blocks_settlement() {
    let mut c = verified_parties();
    let (id, _) = funded_invoice(&mut c, 1_000, 1_000);
    c.create_dispute(id, BUSINESS, String::from("quality"), String::from("photos"), NOW).unwrap();
    assert_eq!(c.settle_invoice(id, 1_000, NOW).unwrap_err(), QuickLendXError::DisputeActive);
    assert_eq!(
        c.process_partial_payment(id, 1_000, String::from("all"), NOW).unwrap_err(),
        QuickLendXError::DisputeActive
    );
    let partial = c.process_partial_payment(id, 400, String::from("some"), NOW).unwrap();
    assert!(partial.is_empty());
    let invoice = c.get_invoice(id).unwrap();
    assert_eq!(invoice.status, InvoiceStatus::Funded);
    assert_eq!(invoice.total_paid, 400);
    assert!(!quicklendx_contracts::settlement::is_invoice_finalized(&c, id).unwrap());
}

#[test]
fn withdrawal_errors() {
    let mut c = verified_parties();
    let id = verified_invoice(&mut c, 1_000);
    assert_eq!(
        c.withdraw_investment(id, INVESTOR).unwrap_err(),
        QuickLendXError::StorageKeyNotFound
    );
    let (funded, _) = funded_invoice(&mut c, 1_000, 1_000);
    c.update_invoice_status(funded, ADMIN, InvoiceStatus::Paid, NOW).unwrap();
    assert_eq!(
        c.withdraw_investment(funded, INVESTOR).unwrap_err(),
        QuickLendXError::InvoiceNotAvailableForFunding
    );
}

#[test]
fn unknown_bid_is_not_found_when_funding() {
    let mut c = verified_parties();
    let id = verified_invoice(&mut c, 1_000);
    assert_eq!(
        c.accept_bid_and_fund(id, 4_242, NOW).unwrap_err(),
        QuickLendXError::StorageKeyNotFound
    );
    assert_eq!(c.get_invoice(id).unwrap().status, InvoiceStatus::Verified);
}

#[test]
fn expired_funded_invoice_defaults() {
    let mut c = verified_parties();
    let (id, _) = funded_invoice(&mut c, 1_000, 1_000);
    let due = c.get_invoice(id).unwrap().due_date;
    assert_eq!(c.expire_invoice(id, due).unwrap_err(), QuickLendXError::OperationNotAllowed);
    c.expire_invoice(id, due + 1).unwrap();
    assert_eq!(c.get_invoice(id).unwrap().status, InvoiceStatus::Defaulted);
    assert_eq!(c.get_invoice_investment(id).unwrap().status, InvestmentStatus::Defaulted);
    let pending = c
        .store_invoice(BUSINESS, 10, CURRENCY, NOW + 5, String::from("p"), InvoiceCategory::Other, NOW)
        .unwrap();
    c.expire_invoice(pending, NOW + 6).unwrap();
    assert_eq!(c.get_invoice(pending).unwrap().status, InvoiceStatus::Pending);
}

#[test]
fn administrative_calls_need_the_administrator() {
    let mut c = verified_parties();
    let id = verified_invoice(&mut c, 1_000);
    assert_eq!(
        c.update_invoice_status(id, 77, InvoiceStatus::Paid, NOW).unwrap_err(),
        QuickLendXError::NotAdmin
    );
    assert_eq!(c.verify_invoice(id, 77).unwrap_err(), QuickLendXError::NotAdmin);
    assert_eq!(c.set_platform_fee(77, 5).unwrap_err(), QuickLendXError::NotAdmin);
    assert_eq!(c.verify_investor(77, 9, 5).unwrap_err(), QuickLendXError::NotAdmin);
    assert_eq!(c.set_admin(77, 77).unwrap_err(), QuickLendXError::NotAdmin);
    c.set_admin(ADMIN, 77).unwrap();
    assert_eq!(c.get_admin(), Some(77));
    let mut fresh = QuickLendXContract::new();
    assert_eq!(fresh.set_admin(5, 6).unwrap_err(), QuickLendXError::NotAdmin);
    fresh.set_admin(6, 6).unwrap();
}

#[test]
fn bids_are_bounded_by_amount_and_investor_limit() {
    let mut c = verified_parties();
    let id = verified_invoice(&mut c, 1_000);
    assert_eq!(
        c.place_bid(INVESTOR, id, 1_001, 1_100, 1, NOW).unwrap_err(),
        QuickLendXError::InvalidAmount
    );
    assert_eq!(c.get_max_active_bids_per_investor(), 0);
    assert_eq!(c.set_max_active_bids_per_investor(ADMIN, 2), Ok(2));
    c.place_bid(INVESTOR, id, 100, 110, 1, NOW).unwrap();
    let second = c.place_bid(INVESTOR, id, 200, 210, 2, NOW).unwrap();
    assert_eq!(
        c.place_bid(INVESTOR, id, 300, 310, 3, NOW).unwrap_err(),
        QuickLendXError::MaxActiveBidsPerInvestorExceeded
    );
    assert!(c.cancel_bid(second));
    assert!(c.place_bid(INVESTOR, id, 300, 310, 3, NOW).is_ok());
}

#[test]
fn business_invoice_limit() {
    let mut c = verified_parties();
    c.set_max_invoices_per_business(ADMIN, 1).unwrap();
    let first = c
        .upload_invoice(BUSINESS, 10, CURRENCY, NOW + 5, String::from("a"), InvoiceCategory::Other, NOW)
        .unwrap();
    assert_eq!(
        c.upload_invoice(BUSINESS, 10, CURRENCY, NOW + 5, String::from("b"), InvoiceCategory::Other, NOW)
            .unwrap_err(),
        QuickLendXError::MaxInvoicesPerBusinessExceeded
    );
    c.cancel_invoice(first).unwrap();
    assert!(c
        .upload_invoice(BUSINESS, 10, CURRENCY, NOW + 5, String::from("c"), InvoiceCategory::Other, NOW)
        .is_ok());
}

#[test]
fn refund_without_escrow_is_not_found() {
    let mut c = verified_parties();
    let id = verified_invoice(&mut c, 1_000);
    c.update_invoice_status(id, ADMIN, InvoiceStatus::Funded, NOW).unwrap();
    assert_eq!(refund_escrow_funds(&mut c, id, ADMIN).unwrap_err(), QuickLendXError::StorageKeyNotFound);
    assert_eq!(c.get_invoice(id).unwrap().status, InvoiceStatus::Funded);
}
