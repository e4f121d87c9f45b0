use quicklendx_contracts::ascii::{i64_to_string_lib, u32_to_ascii_lib, u32_to_string_lib, u64_to_ascii_20};
use quicklendx_contracts::contract::QuickLendXContract;
use quicklendx_contracts::dispute::DisputeEvent;
use quicklendx_contracts::errors::QuickLendXError;
use quicklendx_contracts::pagination::{calculate_safe_bounds, cap_query_limit, paginate, validate_query_params};
use quicklendx_contracts::profits::calculate_profit;
use quicklendx_contracts::settlement::{compute_remaining_due, ensure_payable_status};
use quicklendx_contracts::types::{
    BidStatus, DisputeResolution, DisputeStatus, InvestmentStatus, InvoiceCategory, InvoiceStatus,
};
use quicklendx_contracts::MAX_QUERY_LIMIT;

const NOW: u64 = 50_000;
const ADMIN: u64 = 1;
const BUSINESS: u64 = 2;
const INVESTOR: u64 = 3;
const OTHER_INVESTOR: u64 = 5;
const CURRENCY: u64 = 4;

fn parties() -> QuickLendXContract {
    let mut c = QuickLendXContract::new();
    c.set_admin(ADMIN, ADMIN).unwrap();
    c.submit_kyc_application(BUSINESS, String::from("b")).unwrap();
    c.verify_business(ADMIN, BUSINESS).unwrap();
    c.submit_investor_kyc(INVESTOR, String::from("i")).unwrap();
    c.verify_investor(ADMIN, INVESTOR, 1_000_000).unwrap();
    c.submit_investor_kyc(OTHER_INVESTOR, String::from("j")).unwrap();
    c.verify_investor(ADMIN, OTHER_INVESTOR, 1_000_000).unwrap();
    c
}

fn invoice_at(c: &mut QuickLendXContract, amount: i128, category: InvoiceCategory, created: u64) -> u64 {
    c.store_invoice(BUSINESS, amount, CURRENCY, created + 86_400, String::from("work"), category, created)
        .unwrap()
}

#[test]
fn query_limits_are_capped() {
    assert_eq!(MAX_QUERY_LIMIT, 100);
    assert_eq!(cap_query_limit(0), 0);
    assert_eq!(cap_query_limit(50), 50);
    assert_eq!(cap_query_limit(100), 100);
    assert_eq!(cap_query_limit(1_000), 100);
    assert_eq!(validate_query_params(10, u32::MAX), Ok(()));
    assert_eq!(validate_query_params(u32::MAX, 0), Ok(()));
    assert_eq!(validate_query_params(u32::MAX, 1), Err(QuickLendXError::OperationNotAllowed));
    assert_eq!(calculate_safe_bounds(5, 10, 8), (5, 8));
    assert_eq!(calculate_safe_bounds(20, 10, 8), (8, 8));
    assert_eq!(calculate_safe_bounds(0, 500, 300), (0, 100));
    assert_eq!(calculate_safe_bounds(u32::MAX, 100, 300), (300, 300));
}

#[test]
fn pages_are_consecutive_slices() {
    let v: Vec<u64> = (1..=10).collect();
    assert_eq!(paginate(&v, 3, 4), vec![4, 5, 6, 7]);
    assert_eq!(paginate(&v, 10, 4), Vec::<u64>::new());
    assert_eq!(paginate(&v, 0, 0), Vec::<u64>::new());
    let mut joined = paginate(&v, 2, 3);
    joined.extend(paginate(&v, 5, 3));
    assert_eq!(joined, paginate(&v, 2, 6));
    assert_eq!(paginate(&v, u32::MAX, 1), Vec::<u64>::new());
    let big: Vec<u64> = (0..250).collect();
    assert_eq!(paginate(&big, 0, 1_000).len(), 100);
}

#[test]
fn ascii_rendering() {
    let mut buf = [0u8; 10];
    assert_eq!(u32_to_ascii_lib(0, &mut buf), 1);
    assert_eq!(&buf[..1], b"0");
    let n = u32_to_ascii_lib(12345, &mut buf);
    assert_eq!(&buf[..n], b"12345");
    let n = u32_to_ascii_lib(u32::MAX, &mut buf);
    assert_eq!(&buf[..n], b"4294967295");
    let mut buf20 = [0u8; 20];
    let n = u64_to_ascii_20(u64::MAX, &mut buf20);
    assert_eq!(&buf20[..n], b"18446744073709551615");
    assert_eq!(u32_to_string_lib(907), b"907".to_vec());
    assert_eq!(i64_to_string_lib(0), b"0".to_vec());
    assert_eq!(i64_to_string_lib(-42), b"-42".to_vec());
    assert_eq!(i64_to_string_lib(i64::MIN), b"-9223372036854775808".to_vec());
    assert_eq!(i64_to_string_lib(i64::MAX), b"9223372036854775807".to_vec());
}

#[test]
fn profit_formula() {
    assert_eq!(calculate_profit(1_000, 1_100, 200), (1_098, 2));
    assert_eq!(calculate_profit(1_000, 1_000, 200), (1_000, 0));
    assert_eq!(calculate_profit(1_000, 500, 10_000), (500, 0));
    assert_eq!(calculate_profit(0, 10_000, 10_000), (0, 10_000));
}

#[test]
fn remaining_due_and_payable_status() {
    let mut c = parties();
    let id = invoice_at(&mut c, 700, InvoiceCategory::Goods, NOW);
    let inv = c.get_invoice(id).unwrap();
    assert_eq!(compute_remaining_due(inv), Ok(700));
    assert_eq!(ensure_payable_status(inv), Err(QuickLendXError::InvalidStatus));
}

#[test]
fn invoices_listed_by_status_and_counted() {
    let mut c = parties();
    let a = invoice_at(&mut c, 100, InvoiceCategory::Services, NOW);
    let b = invoice_at(&mut c, 200, InvoiceCategory::Goods, NOW);
    let d = invoice_at(&mut c, 300, InvoiceCategory::Services, NOW);
    c.verify_invoice(b, ADMIN).unwrap();
    c.cancel_invoice(d).unwrap();
    assert_eq!(c.get_invoices_by_status(InvoiceStatus::Pending), vec![a]);
    assert_eq!(c.get_available_invoices(), vec![b]);
    assert_eq!(c.get_invoice_count_by_status(InvoiceStatus::Cancelled), 1);
    assert_eq!(c.get_total_invoice_count(), 3);
    assert_eq!(c.get_business_invoices(BUSINESS), vec![a, b, d]);
    assert_eq!(c.get_invoice_by_business(99), Vec::<u64>::new());
    assert_eq!(c.get_invoice_count_by_category(InvoiceCategory::Services), 2);
    assert_eq!(
        c.get_category_breakdown(),
        vec![(InvoiceCategory::Services, 2), (InvoiceCategory::Goods, 1)]
    );
}

#[test]
fn available_invoices_filtered_then_paged() {
    let mut c = parties();
    let mut ids = Vec::new();
    for i in 0..6i128 {
        let cat = if i % 2 == 0 { InvoiceCategory::Services } else { InvoiceCategory::Goods };
        let id = invoice_at(&mut c, 1_000 * (i + 1), cat, NOW);
        c.verify_invoice(id, ADMIN).unwrap();
        ids.push(id);
    }
    let services = c.get_available_invoices_paged(None, None, Some(InvoiceCategory::Services), 0, 10);
    assert_eq!(services, vec![ids[0], ids[2], ids[4]]);
    let mid = c.get_available_invoices_paged(Some(2_000), Some(5_000), None, 0, 10);
    assert_eq!(mid, vec![ids[1], ids[2], ids[3], ids[4]]);
    let page = c.get_available_invoices_paged(Some(2_000), Some(5_000), None, 1, 2);
    assert_eq!(page, vec![ids[2], ids[3]]);
    assert!(c.get_available_invoices_paged(None, None, None, 6, 10).is_empty());
}

#[test]
fn business_invoices_newest_first() {
    let mut c = parties();
    let a = invoice_at(&mut c, 100, InvoiceCategory::Services, NOW + 10);
    let b = invoice_at(&mut c, 100, InvoiceCategory::Services, NOW + 30);
    let d = invoice_at(&mut c, 100, InvoiceCategory::Services, NOW + 10);
    let e = invoice_at(&mut c, 100, InvoiceCategory::Services, NOW + 20);
    c.verify_invoice(e, ADMIN).unwrap();
    assert_eq!(c.get_business_invoices_paged(BUSINESS, None, 0, 10), vec![b, e, a, d]);
    assert_eq!(c.get_business_invoices_paged(BUSINESS, None, 1, 2), vec![e, a]);
    assert_eq!(
        c.get_business_invoices_paged(BUSINESS, Some(InvoiceStatus::Pending), 0, 10),
        vec![b, a, d]
    );
    assert!(c.get_business_invoices_paged(77, None, 0, 10).is_empty());
}

#[test]
fn bid_queries() {
    let mut c = parties();
    let id = invoice_at(&mut c, 10_000, InvoiceCategory::Services, NOW);
    c.verify_invoice(id, ADMIN).unwrap();
    let b1 = c.place_bid(INVESTOR, id, 1_000, 1_100, 1, NOW).unwrap();
    let b2 = c.place_bid(OTHER_INVESTOR, id, 2_000, 2_100, 1, NOW).unwrap();
    let b3 = c.place_bid(INVESTOR, id, 3_000, 3_100, 2, NOW).unwrap();
    assert_eq!(
        c.place_bid(INVESTOR, id, 3_000, 3_100, 2, NOW).unwrap_err(),
        QuickLendXError::DuplicateBid
    );
    assert!(c.cancel_bid(b2));
    assert!(!c.cancel_bid(b2));
    let all: Vec<u64> = c.get_bids_for_invoice(id).iter().map(|b| b.bid_id).collect();
    assert_eq!(all, vec![b1, b2, b3]);
    assert_eq!(c.get_bid_history(id).len(), 3);
    let placed: Vec<u64> = c.get_bids_by_status(id, BidStatus::Placed).iter().map(|b| b.bid_id).collect();
    assert_eq!(placed, vec![b1, b3]);
    let mine: Vec<u64> = c.get_bids_by_investor(id, INVESTOR).iter().map(|b| b.bid_id).collect();
    assert_eq!(mine, vec![b1, b3]);
    let page: Vec<u64> = c.get_bid_history_paged(id, None, 1, 1).iter().map(|b| b.bid_id).collect();
    assert_eq!(page, vec![b2]);
    let cancelled = c.get_bid_history_paged(id, Some(BidStatus::Cancelled), 0, 10);
    assert_eq!(cancelled.len(), 1);
    assert_eq!(cancelled[0].bid_id, b2);
    let inv_bids: Vec<u64> = c.get_all_bids_by_investor(INVESTOR).iter().map(|b| b.bid_id).collect();
    assert_eq!(inv_bids, vec![b1, b3]);
    let inv_page: Vec<u64> = c
        .get_investor_bids_paged(INVESTOR, Some(BidStatus::Placed), 1, 5)
        .iter()
        .map(|b| b.bid_id)
        .collect();
    assert_eq!(inv_page, vec![b3]);
    assert!(c.get_bid(9_999).is_none());
}

#[test]
fn expired_bids_are_cleaned_up() {
    let mut c = parties();
    let id = invoice_at(&mut c, 10_000, InvoiceCategory::Services, NOW);
    c.verify_invoice(id, ADMIN).unwrap();
    let b1 = c.place_bid(INVESTOR, id, 1_000, 1_100, 1, NOW).unwrap();
    let b2 = c.place_bid(OTHER_INVESTOR, id, 2_000, 2_100, 1, NOW + 100).unwrap();
    let expiry = c.get_bid(b1).unwrap().expiration_timestamp;
    assert_eq!(c.clean_expired_bids(id, expiry + 1), 1);
    assert_eq!(c.get_bid(b1).unwrap().status, BidStatus::Expired);
    assert_eq!(c.get_bid(b2).unwrap().status, BidStatus::Placed);
    assert_eq!(c.cleanup_expired_bids(id, expiry + 1), 0);
    assert_eq!(c.withdraw_bid(b1, INVESTOR).unwrap_err(), QuickLendXError::OperationNotAllowed);
    assert_eq!(c.withdraw_bid(b2, INVESTOR).unwrap_err(), QuickLendXError::Unauthorized);
    assert!(c.withdraw_bid(b2, OTHER_INVESTOR).is_ok());
    assert_eq!(c.get_bid(b2).unwrap().status, BidStatus::Withdrawn);
}

#[test]
fn investments_listed_by_investor() {
    let mut c = parties();
    let a = invoice_at(&mut c, 1_000, InvoiceCategory::Services, NOW);
    let b = invoice_at(&mut c, 2_000, InvoiceCategory::Services, NOW);
    c.verify_invoice(a, ADMIN).unwrap();
    c.verify_invoice(b, ADMIN).unwrap();
    let ba = c.place_bid(INVESTOR, a, 1_000, 1_100, 1, NOW).unwrap();
    let bb = c.place_bid(INVESTOR, b, 2_000, 2_100, 1, NOW).unwrap();
    c.accept_bid(a, ba, NOW).unwrap();
    c.accept_bid(b, bb, NOW).unwrap();
    c.withdraw_investment(b, INVESTOR).unwrap();
    let ia = c.get_invoice_investment(a).unwrap().investment_id;
    let ib = c.get_invoice_investment(b).unwrap().investment_id;
    assert_eq!(c.get_investments_by_investor(INVESTOR), vec![ia, ib]);
    assert_eq!(
        c.get_investor_investments_paged(INVESTOR, Some(InvestmentStatus::Active), 0, 10),
        vec![ia]
    );
    assert_eq!(c.get_investor_investments_paged(INVESTOR, None, 1, 10), vec![ib]);
    assert_eq!(c.get_escrow_status(a), Ok(quicklendx_contracts::types::EscrowStatus::Held));
    assert_eq!(c.get_invoice_investment(999).unwrap_err(), QuickLendXError::StorageKeyNotFound);
}

#[test]
fn dispute_lifecycle_moves_forward() {
    let mut c = parties();
    let id = invoice_at(&mut c, 1_000, InvoiceCategory::Services, NOW);
    assert_eq!(
        c.create_dispute(id, BUSINESS, String::new(), String::from("e"), NOW).unwrap_err(),
        QuickLendXError::InvalidDisputeReason
    );
    c.create_dispute(id, BUSINESS, String::from("late delivery"), String::from("photos"), NOW).unwrap();
    assert_eq!(c.get_invoice_dispute_status(id), Ok(DisputeStatus::Disputed));
    assert_eq!(
        c.create_dispute(id, BUSINESS, String::from("again"), String::from("e"), NOW).unwrap_err(),
        QuickLendXError::DisputeAlreadyExists
    );
    assert_eq!(
        c.update_dispute_evidence(id, INVESTOR, String::from("x")).unwrap_err(),
        QuickLendXError::DisputeNotAuthorized
    );
    c.update_dispute_evidence(id, BUSINESS, String::from("more photos")).unwrap();
    assert_eq!(
        c.resolve_dispute(id, ADMIN, String::from("done"), NOW).unwrap_err(),
        QuickLendXError::DisputeNotUnderReview
    );
    assert_eq!(c.put_dispute_under_review(id, 42).unwrap_err(), QuickLendXError::NotAdmin);
    c.put_dispute_under_review(id, ADMIN).unwrap();
    assert_eq!(c.get_invoices_by_dispute_status(DisputeStatus::UnderReview), vec![id]);
    assert_eq!(c.get_invoices_with_disputes(), vec![id]);
    let event = c
        .resolve_dispute_structured(id, ADMIN, DisputeResolution::BusinessFavored, String::from("ok"), NOW + 1)
        .unwrap();
    assert_eq!(event, DisputeEvent::Resolved);
    assert_eq!(c.get_invoice_dispute_status(id), Ok(DisputeStatus::Resolved));
    let d = c.get_dispute_details(id).unwrap().unwrap();
    assert_eq!(d.resolution_outcome, DisputeResolution::BusinessFavored);
    assert_eq!(d.resolved_by, Some(ADMIN));
    assert_eq!(c.put_dispute_under_review(id, ADMIN).unwrap_err(), QuickLendXError::InvalidStatus);
    assert!(c.get_invoices_by_dispute_status(DisputeStatus::NoDispute).is_empty());
    let other = invoice_at(&mut c, 500, InvoiceCategory::Goods, NOW);
    c.create_dispute(other, BUSINESS, String::from("r"), String::from("e"), NOW).unwrap();
    c.put_dispute_under_review(other, ADMIN).unwrap();
    let event = c
        .resolve_dispute_structured(other, ADMIN, DisputeResolution::Dismissed, String::from("no"), NOW)
        .unwrap();
    assert_eq!(event, DisputeEvent::Rejected);
}

#[test]
fn administrative_status_changes_and_defaults() {
    let mut c = parties();
    let id = invoice_at(&mut c, 1_000, InvoiceCategory::Services, NOW);
    assert_eq!(
        c.update_invoice_status(id, ADMIN, InvoiceStatus::Cancelled, NOW).unwrap_err(),
        QuickLendXError::InvalidStatus
    );
    assert_eq!(
        c.update_invoice_status(id, ADMIN, InvoiceStatus::Defaulted, NOW).unwrap_err(),
        QuickLendXError::InvoiceNotAvailableForFunding
    );
    c.update_invoice_status(id, ADMIN, InvoiceStatus::Funded, NOW + 3).unwrap();
    let inv = c.get_invoice(id).unwrap();
    assert_eq!(inv.status, InvoiceStatus::Funded);
    assert_eq!(inv.funded_amount, 1_000);
    assert_eq!(inv.funded_at, Some(NOW + 3));
    assert_eq!(inv.investor, Some(ADMIN));
    let due = inv.due_date;
    assert_eq!(
        c.mark_invoice_defaulted(id, ADMIN, None, due + 604_800).unwrap_err(),
        QuickLendXError::OperationNotAllowed
    );
    assert_eq!(
        c.mark_invoice_defaulted(id, ADMIN, Some(10), due + 10).unwrap_err(),
        QuickLendXError::OperationNotAllowed
    );
    c.mark_invoice_defaulted(id, ADMIN, Some(10), due + 11).unwrap();
    assert_eq!(c.get_invoice(id).unwrap().status, InvoiceStatus::Defaulted);
    assert_eq!(
        c.mark_invoice_defaulted(id, ADMIN, None, u64::MAX).unwrap_err(),
        QuickLendXError::InvoiceAlreadyDefaulted
    );
    c.update_invoice_category(id, InvoiceCategory::Technology).unwrap();
    assert_eq!(c.get_invoice(id).unwrap().category, InvoiceCategory::Technology);
    assert_eq!(
        c.update_invoice_category(404, InvoiceCategory::Other).unwrap_err(),
        QuickLendXError::InvoiceNotFound
    );
    c.update_invoice_status(id, ADMIN, InvoiceStatus::Paid, NOW + 9).unwrap();
    assert_eq!(c.get_invoice(id).unwrap().settled_at, Some(NOW + 9));
}

#[test]
fn upload_requires_verified_business() {
    let mut c = parties();
    let err = c
        .upload_invoice(77, 100, CURRENCY, NOW + 10, String::from("d"), InvoiceCategory::Other, NOW)
        .unwrap_err();
    assert_eq!(err, QuickLendXError::BusinessNotVerified);
    c.submit_kyc_application(77, String::from("k")).unwrap();
    let err = c
        .upload_invoice(77, 100, CURRENCY, NOW + 10, String::from("d"), InvoiceCategory::Other, NOW)
        .unwrap_err();
    assert_eq!(err, QuickLendXError::KYCAlreadyPending);
    c.reject_business(ADMIN, 77, String::from("no")).unwrap();
    assert_eq!(
        c.get_business_verification_status(77),
        Some(quicklendx_contracts::types::VerificationStatus::Rejected)
    );
    let err = c
        .upload_invoice(BUSINESS, 100, CURRENCY, NOW, String::from("d"), InvoiceCategory::Other, NOW)
        .unwrap_err();
    assert_eq!(err, QuickLendXError::InvoiceDueDateInvalid);
    let id = c
        .upload_invoice(BUSINESS, 100, CURRENCY, NOW + 10, String::from("d"), InvoiceCategory::Other, NOW)
        .unwrap();
    assert_eq!(c.get_invoice(id).unwrap().status, InvoiceStatus::Pending);
}

#[test]
fn investor_kyc_decisions() {
    let mut c = parties();
    c.submit_investor_kyc(9, String::from("k")).unwrap();
    assert_eq!(c.submit_investor_kyc(9, String::from("k")).unwrap_err(), QuickLendXError::KYCAlreadyPending);
    assert_eq!(c.revoke_investor_kyc(ADMIN, 9, String::from("r")).unwrap_err(), QuickLendXError::InvalidStatus);
    c.reject_investor(ADMIN, 9, String::from("r")).unwrap();
    assert!(!c.is_investor_verified(9));
    c.verify_investor(ADMIN, 9, 10).unwrap();
    assert!(c.is_investor_verified(9));
    assert_eq!(c.get_investor_verification(9).unwrap().investment_limit, 10);
    c.revoke_investor_kyc(ADMIN, 9, String::from("r")).unwrap();
    assert!(!c.is_investor_verified(9));
    assert_eq!(c.get_investor_verification(9).unwrap().investment_limit, 10);
    assert_eq!(c.verify_investor(ADMIN, 404, 1).unwrap_err(), QuickLendXError::InvalidStatus);
}

#[test]
fn available_invoices_in_verification_order() {
    let mut c = parties();
    let a = invoice_at(&mut c, 1_000, InvoiceCategory::Services, NOW);
    let b = invoice_at(&mut c, 1_000, InvoiceCategory::Services, NOW);
    c.verify_invoice(b, ADMIN).unwrap();
    c.verify_invoice(a, ADMIN).unwrap();
    assert_eq!(c.get_available_invoices(), vec![b, a]);
    let bid = c.place_bid(INVESTOR, b, 1_000, 1_100, 1, NOW).unwrap();
    c.accept_bid(b, bid, NOW).unwrap();
    assert_eq!(c.get_available_invoices_paged(None, None, None, 0, 10), vec![a]);
    c.withdraw_investment(b, INVESTOR).unwrap();
    assert_eq!(c.get_available_invoices_paged(None, None, None, 0, 10), vec![a, b]);
    assert_eq!(c.get_available_invoices_paged(None, None, None, 1, 1), vec![b]);
}

#[test]
fn available_pages_follow_the_verified_status_list() {
    let mut c = parties();
    let a = invoice_at(&mut c, 1_000, InvoiceCategory::Services, NOW);
    let b = invoice_at(&mut c, 4_000, InvoiceCategory::Goods, NOW);
    let d = invoice_at(&mut c, 3_000, InvoiceCategory::Services, NOW);
    c.verify_invoice(d, ADMIN).unwrap();
    c.verify_invoice(b, ADMIN).unwrap();
    c.verify_invoice(a, ADMIN).unwrap();
    let by_status = c.get_invoices_by_status(InvoiceStatus::Verified);
    assert_eq!(by_status, vec![d, b, a]);
    assert_eq!(c.get_available_invoices(), by_status);
    assert_eq!(c.get_invoice_count_by_status(InvoiceStatus::Verified), 3);
    assert_eq!(c.get_total_invoice_count(), 3);
    let all = c.get_available_invoices_paged(None, None, None, 0, 10);
    assert_eq!(all, by_status);
    assert_eq!(c.get_available_invoices_paged(None, None, None, 1, 1), vec![b]);
    assert_eq!(c.get_available_invoices_paged(Some(2_000), None, None, 0, 10), vec![d, b]);
    assert_eq!(c.get_available_invoices_paged(None, None, Some(InvoiceCategory::Services), 1, 5), vec![a]);
}
