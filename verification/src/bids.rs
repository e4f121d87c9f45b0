//! Bids: placement, expiry clean-up, withdrawal and cancellation.
use vstd::prelude::*;

use crate::contract::QuickLendXContract;
use crate::errors::QuickLendXError;
use crate::types::{Bid, BidStatus, InvoiceStatus, VerificationStatus};

verus! {

broadcast use vstd::std_specs::hash::group_hash_axioms;

/// Maximum number of placed (active) bids on one invoice.
pub const MAX_BIDS_PER_INVOICE: u32 = 50;

/// Lifetime of a new bid: the default bid TTL of seven days, in seconds.
pub const DEFAULT_BID_TTL_SECONDS: u64 = 604800;

/// A bid that is still placed but whose expiration time has passed.
pub open spec fn bid_expirable(b: Bid, now: u64) -> bool {
    b.status == BidStatus::Placed && b.spec_is_expired(now)
}

/// Number of bids named in `list` that are expirable at `now`.
pub open spec fn count_expirable(bids: Map<u64, Bid>, list: Seq<u64>, now: u64) -> nat
    decreases list.len(),
{
    if list.len() == 0 {
        0
    } else {
        count_expirable(bids, list.drop_last(), now) + if bid_expirable(bids[list.last()], now) {
            1nat
        } else {
            0nat
        }
    }
}

/// A bid that is placed and not yet expired at `now`.
pub open spec fn bid_active(b: Bid, now: u64) -> bool {
    b.status == BidStatus::Placed && !b.spec_is_expired(now)
}

/// Number of bids named in `list` that are active at `now`.
pub open spec fn count_active(bids: Map<u64, Bid>, list: Seq<u64>, now: u64) -> nat
    decreases list.len(),
{
    if list.len() == 0 {
        0
    } else {
        count_active(bids, list.drop_last(), now) + if bid_active(bids[list.last()], now) {
            1nat
        } else {
            0nat
        }
    }
}

/// Number of bids with identifier below `n` that belong to `investor` and
/// are active at `now`.
pub open spec fn investor_active_bids_below(bids: Map<u64, Bid>, n: nat, investor: u64, now: u64) -> nat
    decreases n,
{
    if n == 0 {
        0
    } else {
        let k = (n - 1) as u64;
        investor_active_bids_below(bids, (n - 1) as nat, investor, now) + if bids.contains_key(k)
            && bids[k].investor == investor && bid_active(bids[k], now) {
            1nat
        } else {
            0nat
        }
    }
}

/// `bids` after marking every bid named in `list` that is still placed but
/// expired at `now` as expired.
pub open spec fn bids_after_cleanup(bids: Map<u64, Bid>, list: Seq<u64>, now: u64) -> Map<u64, Bid> {
    Map::new(
        |k: u64| bids.contains_key(k),
        |k: u64|
            if list.contains(k) && bid_expirable(bids[k], now) {
                Bid { status: BidStatus::Expired, ..bids[k] }
            } else {
                bids[k]
            },
    )
}

impl QuickLendXContract {
    /// The bids placed on an invoice, in placement order.
    pub open spec fn spec_bid_list(&self, invoice_id: u64) -> Seq<u64> {
        if self.invoice_bids@.contains_key(invoice_id) {
            self.invoice_bids@[invoice_id]@
        } else {
            Seq::empty()
        }
    }

    /// The bids after marking every expired, still placed bid of the invoice
    /// as expired.
    pub open spec fn spec_bids_after_cleanup(&self, invoice_id: u64, now: u64) -> Map<u64, Bid> {
        bids_after_cleanup(self.bids@, self.spec_bid_list(invoice_id), now)
    }

    /// `self` is `old` with only its bids replaced by `bids`.
    pub open spec fn same_except_bids(&self, old: &Self) -> bool {
        &&& self.admin == old.admin
        &&& self.paused == old.paused
        &&& self.platform_fee_bps == old.platform_fee_bps
        &&& self.next_id == old.next_id
        &&& self.invoices == old.invoices
        &&& self.frozen_invoices == old.frozen_invoices
        &&& self.settlements == old.settlements
        &&& self.invoice_bids == old.invoice_bids
        &&& self.bid_markers == old.bid_markers
        &&& self.investments == old.investments
        &&& self.escrows == old.escrows
        &&& self.investor_verifications == old.investor_verifications
        &&& self.business_verifications == old.business_verifications
        &&& self.limits == old.limits
        &&& self.verified_order == old.verified_order
    }

    /// Mark the invoice's bids that are still placed but past their expiration
    /// time as expired; returns how many were marked (saturating at `u32::MAX`).
    pub fn cleanup_expired_bids(&mut self, invoice_id: u64, now: u64) -> (r: u32)
        requires
            old(self).wf(),
        ensures
            final(self).wf(),
            final(self).same_except_bids(&*old(self)),
            final(self).bids@ == old(self).spec_bids_after_cleanup(invoice_id, now),
            r as nat == if count_expirable(old(self).bids@, old(self).spec_bid_list(invoice_id), now)
                > u32::MAX {
                u32::MAX as nat
            } else {
                count_expirable(old(self).bids@, old(self).spec_bid_list(invoice_id), now)
            },
    {
        let ghost old_self = *self;
        let ghost list = self.spec_bid_list(invoice_id);
        let list_len = match self.invoice_bids.get(&invoice_id) {
            Some(l) => l.len(),
            None => 0,
        };
        let mut count: u32 = 0;
        let mut i: usize = 0;
        while i < list_len
            invariant
                old_self.wf(),
                self.same_except_bids(&old_self),
                list == old_self.spec_bid_list(invoice_id),
                list_len == list.len(),
                i <= list_len,
                list.no_duplicates(),
                forall|j: int| 0 <= j < list.len() ==> old_self.bids@.contains_key(#[trigger] list[j]),
                self.bids@ == Map::new(
                    |k: u64| old_self.bids@.contains_key(k),
                    |k: u64|
                        if list.take(i as int).contains(k) && bid_expirable(old_self.bids@[k], now) {
                            Bid { status: BidStatus::Expired, ..old_self.bids@[k] }
                        } else {
                            old_self.bids@[k]
                        },
                ),
                count as nat == if count_expirable(old_self.bids@, list.take(i as int), now) > u32::MAX {
                    u32::MAX as nat
                } else {
                    count_expirable(old_self.bids@, list.take(i as int), now)
                },
            decreases list_len - i,
        {
            let bid_id = self.invoice_bids.get(&invoice_id).unwrap()[i];
            proof {
                assert(bid_id == list[i as int]);
                assert(!list.take(i as int).contains(bid_id)) by {
                    if list.take(i as int).contains(bid_id) {
                        let j = choose|j: int| 0 <= j < i && list.take(i as int)[j] == bid_id;
                        assert(list[j] == list[i as int]);
                    }
                }
                assert(list.take(i + 1).drop_last() =~= list.take(i as int));
                assert(list.take(i + 1).last() == bid_id);
            }
            let ghost before = self.bids@;
            let current = *self.bids.get(&bid_id).unwrap();
            if current.status == BidStatus::Placed && current.is_expired(now) {
                let updated = Bid { status: BidStatus::Expired, ..current };
                self.bids.insert(bid_id, updated);
                count = count.saturating_add(1);
            }
            i = i + 1;
            proof {
                let tk_new = list.take(i as int);
                let tk_old = list.take(i - 1);
                assert forall|k: u64| tk_new.contains(k) <==> (tk_old.contains(k) || k == bid_id) by {
                    if k == bid_id {
                        assert(tk_new[i - 1] == bid_id);
                    }
                    if tk_new.contains(k) && k != bid_id {
                        let j = choose|j: int| 0 <= j < tk_new.len() && tk_new[j] == k;
                        assert(j < i - 1);
                        assert(tk_old[j] == k);
                    }
                    if tk_old.contains(k) {
                        let j = choose|j: int| 0 <= j < tk_old.len() && tk_old[j] == k;
                        assert(tk_new[j] == k);
                    }
                }
                assert(self.bids@ =~= Map::new(
                    |k: u64| old_self.bids@.contains_key(k),
                    |k: u64|
                        if list.take(i as int).contains(k) && bid_expirable(old_self.bids@[k], now) {
                            Bid { status: BidStatus::Expired, ..old_self.bids@[k] }
                        } else {
                            old_self.bids@[k]
                        },
                ));
            }
        }
        proof {
            assert(list.take(list_len as int) =~= list);
            assert(self.bids@ =~= old_self.spec_bids_after_cleanup(invoice_id, now));
            assert forall|k: u64| #[trigger] self.invoice_bids@.contains_key(k) implies crate::contract::bid_list_wf(self.bids@, self.invoice_bids@[k]@, k) by {
                assert(crate::contract::bid_list_wf(old_self.bids@, old_self.invoice_bids@[k]@, k));
            }
        }
        count
    }
}

impl QuickLendXContract {
    /// Whether a bid with this (invoice, investor, salt) marker was placed.
    pub open spec fn spec_marker_seen(&self, invoice_id: u64, investor: u64, salt: u64) -> bool {
        self.bid_markers@.contains((invoice_id, investor, salt))
    }

    /// How `place_bid` decides a request; the count of active bids is taken
    /// after expired bids were cleaned up.
    pub open spec fn spec_place_bid_check(
        &self,
        investor: u64,
        invoice_id: u64,
        bid_amount: i128,
        salt: u64,
        now: u64,
    ) -> Result<(), QuickLendXError> {
        if self.paused {
            Err(QuickLendXError::ContractPaused)
        } else if self.spec_marker_seen(invoice_id, investor, salt) {
            Err(QuickLendXError::DuplicateBid)
        } else if bid_amount <= 0 {
            Err(QuickLendXError::InvalidAmount)
        } else if !self.invoices@.contains_key(invoice_id) {
            Err(QuickLendXError::InvoiceNotFound)
        } else if self.invoices@[invoice_id].status != InvoiceStatus::Verified {
            Err(QuickLendXError::InvalidStatus)
        } else if !self.investor_verifications@.contains_key(investor) {
            Err(QuickLendXError::InvestorNotVerified)
        } else if self.investor_verifications@[investor].status == VerificationStatus::Pending {
            Err(QuickLendXError::KYCAlreadyPending)
        } else if self.investor_verifications@[investor].status == VerificationStatus::Rejected {
            Err(QuickLendXError::InvestorNotVerified)
        } else if bid_amount > self.investor_verifications@[investor].investment_limit {
            Err(QuickLendXError::InvalidAmount)
        } else if count_active(self.bids@, self.spec_bid_list(invoice_id), now)
            >= MAX_BIDS_PER_INVOICE {
            Err(QuickLendXError::MaxBidsPerInvoiceExceeded)
        } else if self.limits.max_active_bids_per_investor > 0 && investor_active_bids_below(
            self.bids@,
            self.next_id as nat,
            investor,
            now,
        ) >= self.limits.max_active_bids_per_investor {
            Err(QuickLendXError::MaxActiveBidsPerInvestorExceeded)
        } else if bid_amount > self.invoices@[invoice_id].amount {
            Err(QuickLendXError::InvalidAmount)
        } else if self.next_id == u64::MAX {
            Err(QuickLendXError::StorageError)
        } else {
            Ok(())
        }
    }

    fn investor_active_bid_count(&self, investor: u64, now: u64) -> (r: u64)
        ensures
            r == investor_active_bids_below(self.bids@, self.next_id as nat, investor, now),
    {
        let mut count: u64 = 0;
        let mut i: u64 = 0;
        while i < self.next_id
            invariant
                i <= self.next_id,
                count == investor_active_bids_below(self.bids@, i as nat, investor, now),
                count <= i,
            decreases self.next_id - i,
        {
            match self.bids.get(&i) {
                Some(b) => {
                    if b.investor == investor && b.status == BidStatus::Placed && !b.is_expired(now) {
                        count = count + 1;
                    }
                },
                None => {},
            }
            i = i + 1;
        }
        count
    }

    fn marker_seen(&self, invoice_id: u64, investor: u64, salt: u64) -> (r: bool)
        ensures
            r == self.spec_marker_seen(invoice_id, investor, salt),
    {
        let n = self.bid_markers.len();
        let mut i: usize = 0;
        while i < n
            invariant
                n == self.bid_markers@.len(),
                i <= n,
                forall|j: int| 0 <= j < i ==> self.bid_markers@[j] != (invoice_id, investor, salt),
            decreases n - i,
        {
            let (a, b, c) = self.bid_markers[i];
            if a == invoice_id && b == investor && c == salt {
                assert(self.bid_markers@[i as int] == (invoice_id, investor, salt));
                return true;
            }
            i = i + 1;
        }
        false
    }

    fn active_bid_count(&self, invoice_id: u64, now: u64) -> (r: u32)
        requires
            self.wf(),
        ensures
            r as nat == if count_active(self.bids@, self.spec_bid_list(invoice_id), now) > u32::MAX {
                u32::MAX as nat
            } else {
                count_active(self.bids@, self.spec_bid_list(invoice_id), now)
            },
    {
        let ghost list = self.spec_bid_list(invoice_id);
        let empty: Vec<u64> = Vec::new();
        let ids = match self.invoice_bids.get(&invoice_id) {
            Some(l) => l,
            None => &empty,
        };
        assert(ids@ == list);
        let mut count: u32 = 0;
        let mut i: usize = 0;
        while i < ids.len()
            invariant
                self.wf(),
                ids@ == list,
                list == self.spec_bid_list(invoice_id),
                i <= ids.len(),
                forall|j: int| 0 <= j < list.len() ==> self.bids@.contains_key(#[trigger] list[j]),
                count as nat == if count_active(self.bids@, list.take(i as int), now) > u32::MAX {
                    u32::MAX as nat
                } else {
                    count_active(self.bids@, list.take(i as int), now)
                },
            decreases ids.len() - i,
        {
            proof {
                assert(list.take(i + 1).drop_last() =~= list.take(i as int));
            }
            let b = self.bids.get(&ids[i]).unwrap();
            if b.status == BidStatus::Placed && !b.is_expired(now) {
                count = count.saturating_add(1);
            }
            i = i + 1;
        }
        assert(list.take(ids.len() as int) =~= list);
        count
    }

    /// Place a bid on a verified invoice and return its identifier.
    ///
    /// The investor must be KYC-verified and bid no more than their
    /// investment limit nor the invoice amount; a repeated (invoice, investor, salt) marker is
    /// refused; expired bids of the invoice are cleaned up first, at most
    /// `MAX_BIDS_PER_INVOICE` bids may be active on the invoice, and, when a
    /// per-investor limit is set, at most that many bids of the investor may
    /// be active. Refused requests change nothing.
    pub fn place_bid(
        &mut self,
        investor: u64,
        invoice_id: u64,
        bid_amount: i128,
        expected_return: i128,
        salt: u64,
        now: u64,
    ) -> (r: Result<u64, QuickLendXError>)
        requires
            old(self).wf(),
        ensures
            final(self).wf(),
            match old(self).spec_place_bid_check(investor, invoice_id, bid_amount, salt, now) {
                Err(e) => r == Err::<u64, QuickLendXError>(e) && *final(self) == *old(self),
                Ok(()) => r == Ok::<u64, QuickLendXError>(old(self).next_id)
                    && final(self).next_id == old(self).next_id + 1
                    && final(self).bids@ == old(self).spec_bids_after_cleanup(invoice_id, now).insert(
                        old(self).next_id,
                        Bid {
                            bid_id: old(self).next_id,
                            invoice_id,
                            investor,
                            bid_amount,
                            expected_return,
                            timestamp: now,
                            status: BidStatus::Placed,
                            expiration_timestamp: if now + DEFAULT_BID_TTL_SECONDS > u64::MAX {
                                u64::MAX
                            } else {
                                (now + DEFAULT_BID_TTL_SECONDS) as u64
                            },
                        },
                    )
                    && final(self).spec_bid_list(invoice_id) == old(self).spec_bid_list(invoice_id).push(old(self).next_id)
                    && final(self).invoice_bids@.remove(invoice_id) == old(self).invoice_bids@.remove(invoice_id)
                    && final(self).bid_markers@ == old(self).bid_markers@.push((invoice_id, investor, salt))
                    && final(self).invoices == old(self).invoices
                    && final(self).settlements == old(self).settlements
                    && final(self).investments == old(self).investments
                    && final(self).escrows == old(self).escrows
                    && final(self).investor_verifications == old(self).investor_verifications
                    && final(self).business_verifications == old(self).business_verifications
                    && final(self).limits == old(self).limits
                    && final(self).verified_order == old(self).verified_order
                    && final(self).admin == old(self).admin
                    && final(self).paused == old(self).paused
                    && final(self).frozen_invoices == old(self).frozen_invoices
                    && final(self).platform_fee_bps == old(self).platform_fee_bps,
            },
    {
        if self.paused {
            return Err(QuickLendXError::ContractPaused);
        }
        if self.marker_seen(invoice_id, investor, salt) {
            return Err(QuickLendXError::DuplicateBid);
        }
        if bid_amount <= 0 {
            return Err(QuickLendXError::InvalidAmount);
        }
        let invoice_amount = match self.invoices.get(&invoice_id) {
            Some(inv) => {
                if inv.status != InvoiceStatus::Verified {
                    return Err(QuickLendXError::InvalidStatus);
                }
                inv.amount
            },
            None => return Err(QuickLendXError::InvoiceNotFound),
        };
        match self.investor_verifications.get(&investor) {
            Some(v) => {
                if v.status == VerificationStatus::Pending {
                    return Err(QuickLendXError::KYCAlreadyPending);
                }
                if v.status == VerificationStatus::Rejected {
                    return Err(QuickLendXError::InvestorNotVerified);
                }
                if bid_amount > v.investment_limit {
                    return Err(QuickLendXError::InvalidAmount);
                }
            },
            None => return Err(QuickLendXError::InvestorNotVerified),
        }
        if self.active_bid_count(invoice_id, now) >= MAX_BIDS_PER_INVOICE {
            return Err(QuickLendXError::MaxBidsPerInvoiceExceeded);
        }
        if self.limits.max_active_bids_per_investor > 0 && self.investor_active_bid_count(investor, now)
            >= self.limits.max_active_bids_per_investor as u64 {
            return Err(QuickLendXError::MaxActiveBidsPerInvestorExceeded);
        }
        if bid_amount > invoice_amount {
            return Err(QuickLendXError::InvalidAmount);
        }
        if self.next_id == u64::MAX {
            return Err(QuickLendXError::StorageError);
        }
        let ghost old_self = *self;
        let _cleaned = self.cleanup_expired_bids(invoice_id, now);
        let bid_id = self.next_id;
        self.next_id = self.next_id + 1;
        let bid = Bid {
            bid_id,
            invoice_id,
            investor,
            bid_amount,
            expected_return,
            timestamp: now,
            status: BidStatus::Placed,
            expiration_timestamp: now.saturating_add(DEFAULT_BID_TTL_SECONDS),
        };
        self.bids.insert(bid_id, bid);
        let mut list = match self.invoice_bids.remove(&invoice_id) {
            Some(l) => l,
            None => Vec::new(),
        };
        list.push(bid_id);
        self.invoice_bids.insert(invoice_id, list);
        self.bid_markers.push((invoice_id, investor, salt));
        proof {
            assert(self.spec_bid_list(invoice_id) =~= old_self.spec_bid_list(invoice_id).push(bid_id));
            assert forall|k: u64| #[trigger] self.bids@.contains_key(k) implies k < self.next_id
                && self.invoice_bids@.contains_key(self.bids@[k].invoice_id)
                && self.invoice_bids@[self.bids@[k].invoice_id]@.contains(k) by {
                if k == bid_id {
                    assert(self.invoice_bids@[invoice_id]@[self.invoice_bids@[invoice_id]@.len() - 1] == bid_id);
                } else {
                    assert(old_self.bids@.contains_key(k));
                    let j = self.bids@[k].invoice_id;
                    assert(old_self.invoice_bids@[j]@.contains(k));
                    if j == invoice_id {
                        let idx = choose|idx: int| 0 <= idx < old_self.invoice_bids@[j]@.len() && old_self.invoice_bids@[j]@[idx] == k;
                        assert(self.invoice_bids@[j]@[idx] == k);
                    }
                }
            }
        }
        Ok(bid_id)
    }
}

impl QuickLendXContract {
    /// The investor's KYC is pending.
    pub open spec fn spec_investor_pending(&self, investor: u64) -> bool {
        self.investor_verifications@.contains_key(investor)
            && self.investor_verifications@[investor].status == VerificationStatus::Pending
    }

    /// `self` is `old` with the bid's status set to `status`.
    pub open spec fn spec_bid_status_set(&self, old: &Self, bid_id: u64, status: BidStatus) -> bool {
        &&& self.bids@ == old.bids@.insert(bid_id, Bid { status, ..old.bids@[bid_id] })
        &&& self.same_except_bids(old)
    }

    /// Withdraw a placed bid, as its investor `investor` (anyone else is
    /// refused with `Unauthorized`). Only a bid that is still
    /// placed can be withdrawn; any other status is refused and nothing changes.
    pub fn withdraw_bid(&mut self, bid_id: u64, investor: u64) -> (r: Result<(), QuickLendXError>)
        requires
            old(self).wf(),
            old(self).paused || old(self).bids@.contains_key(bid_id),
        ensures
            final(self).wf(),
            old(self).paused ==> r == Err::<(), QuickLendXError>(QuickLendXError::ContractPaused)
                && *final(self) == *old(self),
            !old(self).paused && old(self).bids@[bid_id].investor != investor
                ==> r == Err::<(), QuickLendXError>(QuickLendXError::Unauthorized) && *final(self) == *old(self),
            !old(self).paused && old(self).bids@[bid_id].investor == investor && old(self).spec_investor_pending(investor)
                ==> r == Err::<(), QuickLendXError>(QuickLendXError::KYCAlreadyPending) && *final(self) == *old(self),
            !old(self).paused && old(self).bids@[bid_id].investor == investor && !old(self).spec_investor_pending(investor)
                && old(self).bids@[bid_id].status != BidStatus::Placed
                ==> r == Err::<(), QuickLendXError>(QuickLendXError::OperationNotAllowed) && *final(self) == *old(self),
            !old(self).paused && old(self).bids@[bid_id].investor == investor && !old(self).spec_investor_pending(investor)
                && old(self).bids@[bid_id].status == BidStatus::Placed
                ==> r == Ok::<(), QuickLendXError>(()) && final(self).spec_bid_status_set(&*old(self), bid_id, BidStatus::Withdrawn),
    {
        if self.paused {
            return Err(QuickLendXError::ContractPaused);
        }
        let bid = *self.bids.get(&bid_id).unwrap();
        if bid.investor != investor {
            return Err(QuickLendXError::Unauthorized);
        }
        match self.investor_verifications.get(&bid.investor) {
            Some(v) => {
                if v.status == VerificationStatus::Pending {
                    return Err(QuickLendXError::KYCAlreadyPending);
                }
            },
            None => {},
        }
        if bid.status != BidStatus::Placed {
            return Err(QuickLendXError::OperationNotAllowed);
        }
        let ghost old_self = *self;
        self.bids.insert(bid_id, Bid { status: BidStatus::Withdrawn, ..bid });
        proof {
            assert forall|k: u64| #[trigger] self.invoice_bids@.contains_key(k) implies crate::contract::bid_list_wf(self.bids@, self.invoice_bids@[k]@, k) by {
                assert(crate::contract::bid_list_wf(old_self.bids@, old_self.invoice_bids@[k]@, k));
            }
        }
        Ok(())
    }

    /// Cancel a placed bid (its investor only); returns whether it was
    /// cancelled. A paused protocol, an unknown bid or a bid that already left
    /// the placed status gives `false` and changes nothing.
    pub fn cancel_bid(&mut self, bid_id: u64) -> (r: bool)
        requires
            old(self).wf(),
        ensures
            final(self).wf(),
            r == (!old(self).paused && old(self).bids@.contains_key(bid_id)
                && old(self).bids@[bid_id].status == BidStatus::Placed),
            r ==> final(self).spec_bid_status_set(&*old(self), bid_id, BidStatus::Cancelled),
            !r ==> *final(self) == *old(self),
    {
        if self.paused {
            return false;
        }
        let bid = match self.bids.get(&bid_id) {
            Some(b) => *b,
            None => return false,
        };
        if bid.status != BidStatus::Placed {
            return false;
        }
        let ghost old_self = *self;
        self.bids.insert(bid_id, Bid { status: BidStatus::Cancelled, ..bid });
        proof {
            assert forall|k: u64| #[trigger] self.invoice_bids@.contains_key(k) implies crate::contract::bid_list_wf(self.bids@, self.invoice_bids@[k]@, k) by {
                assert(crate::contract::bid_list_wf(old_self.bids@, old_self.invoice_bids@[k]@, k));
            }
        }
        true
    }
}

} // verus!
