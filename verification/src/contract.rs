//! The protocol's persistent state and its well-formedness invariant.
use std::collections::HashMap;
use std::collections::HashSet;
use vstd::prelude::*;

use crate::errors::QuickLendXError;
use crate::settlement::{records_total, SettlementLog, MAX_INLINE_PAYMENT_HISTORY, MAX_PAYMENT_COUNT};
use crate::types::{Bid, Escrow, Investment, InvestorVerification, Invoice, InvoiceStatus, PaymentRecord, VerificationStatus};

verus! {

broadcast use vstd::std_specs::hash::group_hash_axioms;

/// Configurable protocol limits; zero means no limit.
#[derive(Clone, Copy, Debug, PartialEq, Eq, Structural)]
pub struct ProtocolLimits {
    /// Most bids one investor may have active (placed and unexpired) at once.
    pub max_active_bids_per_investor: u32,
    /// Most active (pending, verified or funded) invoices one business may have.
    pub max_invoices_per_business: u32,
}

/// The contract's storage: every record the protocol keeps, keyed by its
/// identifier. Investments, escrows and settlement logs are keyed by the
/// identifier of the invoice they belong to.
pub struct QuickLendXContract {
    pub admin: Option<u64>,
    pub paused: bool,
    /// Platform fee on settlement profit, in basis points.
    pub platform_fee_bps: i128,
    /// Source of fresh identifiers for new invoices, bids, escrows and investments.
    pub next_id: u64,
    pub invoices: HashMap<u64, Invoice>,
    pub frozen_invoices: HashSet<u64>,
    pub settlements: HashMap<u64, SettlementLog>,
    pub bids: HashMap<u64, Bid>,
    /// Bid identifiers of each invoice, in the order they were placed.
    pub invoice_bids: HashMap<u64, Vec<u64>>,
    /// Idempotency markers of placed bids: (invoice, investor, salt).
    pub bid_markers: Vec<(u64, u64, u64)>,
    pub investments: HashMap<u64, Investment>,
    pub escrows: HashMap<u64, Escrow>,
    pub investor_verifications: HashMap<u64, InvestorVerification>,
    pub business_verifications: HashMap<u64, VerificationStatus>,
    pub limits: ProtocolLimits,
    /// Identifiers of invoices in the order in which they last became
    /// verified; an invoice that leaves the verified status may stay listed.
    pub verified_order: Vec<u64>,
}

/// `s` with every occurrence of `id` removed.
pub open spec fn without(s: Seq<u64>, id: u64) -> Seq<u64>
    decreases s.len(),
{
    if s.len() == 0 {
        Seq::empty()
    } else {
        let prev = without(s.drop_last(), id);
        if s.last() == id {
            prev
        } else {
            prev.push(s.last())
        }
    }
}

/// Removing `id` keeps every other entry and drops `id`; a list without
/// repetitions stays without repetitions.
pub proof fn lemma_without(s: Seq<u64>, id: u64)
    ensures
        forall|k: u64| #[trigger] without(s, id).contains(k) <==> (s.contains(k) && k != id),
        s.no_duplicates() ==> without(s, id).no_duplicates(),
    decreases s.len(),
{
    if s.len() > 0 {
        let t = s.drop_last();
        lemma_without(t, id);
        assert forall|k: u64| #[trigger] s.contains(k) <==> (t.contains(k) || s.last() == k) by {
            if s.contains(k) {
                let j = choose|j: int| 0 <= j < s.len() && s[j] == k;
                if j < t.len() {
                    assert(t[j] == k);
                }
            }
            if t.contains(k) {
                let j = choose|j: int| 0 <= j < t.len() && t[j] == k;
                assert(s[j] == k);
            }
            if s.last() == k {
                assert(s[s.len() - 1] == k);
            }
        }
        let p = without(t, id);
        if s.last() != id {
            assert forall|k: u64| #[trigger] p.push(s.last()).contains(k) <==> (p.contains(k) || s.last() == k) by {
                if p.push(s.last()).contains(k) {
                    let j = choose|j: int| 0 <= j < p.len() + 1 && p.push(s.last())[j] == k;
                    if j < p.len() {
                        assert(p[j] == k);
                    }
                }
                if p.contains(k) {
                    let j = choose|j: int| 0 <= j < p.len() && p[j] == k;
                    assert(p.push(s.last())[j] == k);
                }
                if s.last() == k {
                    assert(p.push(s.last())[p.len() as int] == k);
                }
            }
            if s.no_duplicates() {
                assert(t.no_duplicates());
                assert(!t.contains(s.last())) by {
                    if t.contains(s.last()) {
                        let j = choose|j: int| 0 <= j < t.len() && t[j] == s.last();
                        assert(s[j] == s[s.len() - 1]);
                    }
                }
                assert(!p.contains(s.last()));
                assert forall|a: int, b: int| 0 <= a < b < p.push(s.last()).len() implies p.push(s.last())[a]
                    != p.push(s.last())[b] by {
                    if b == p.len() {
                        assert(p.contains(p[a]));
                    }
                }
            }
        } else {
            if s.no_duplicates() {
                assert(t.no_duplicates());
            }
        }
    }
}

/// The verification order after invoice `id` became verified: moved to
/// the end.
pub open spec fn entered_verified(order: Seq<u64>, id: u64) -> Seq<u64> {
    without(order, id).push(id)
}

/// The amounts of an invoice are consistent: a positive face value, and a
/// paid total between zero and that face value.
pub open spec fn invoice_amounts_wf(inv: Invoice) -> bool {
    &&& inv.amount > 0
    &&& 0 <= inv.total_paid <= inv.amount
    &&& inv.payment_history@.len() <= MAX_INLINE_PAYMENT_HISTORY
}

/// The bid list of invoice `k` names distinct stored bids of that invoice.
pub open spec fn bid_list_wf(bids: Map<u64, Bid>, list: Seq<u64>, k: u64) -> bool {
    &&& list.no_duplicates()
    &&& forall|j: int|
        0 <= j < list.len() ==> bids.contains_key(#[trigger] list[j]) && bids[list[j]].invoice_id
            == k
}

impl QuickLendXContract {
    /// The durable payment records of an invoice (empty when none were kept).
    pub open spec fn spec_payment_records(&self, invoice_id: u64) -> Seq<crate::settlement::SettlementPaymentRecord> {
        if self.settlements@.contains_key(invoice_id) {
            self.settlements@[invoice_id].records@
        } else {
            Seq::empty()
        }
    }

    /// Whether final settlement of the invoice has completed.
    pub open spec fn spec_is_finalized(&self, invoice_id: u64) -> bool {
        self.settlements@.contains_key(invoice_id) && self.settlements@[invoice_id].finalized
    }

    /// The storage invariant every operation keeps.
    pub open spec fn wf(&self) -> bool {
        &&& forall|k: u64| #[trigger]
            self.invoices@.contains_key(k) ==> self.invoices@[k].id == k && invoice_amounts_wf(
                self.invoices@[k],
            )
        &&& forall|k: u64| #[trigger]
            self.settlements@.contains_key(k) ==> self.invoices@.contains_key(k)
                && self.settlements@[k].records@.len() <= MAX_PAYMENT_COUNT
        &&& forall|k: u64| #[trigger]
            self.invoices@.contains_key(k) ==> records_total(self.spec_payment_records(k))
                == self.invoices@[k].total_paid
        &&& forall|k: u64| #[trigger]
            self.bids@.contains_key(k) ==> self.bids@[k].bid_id == k && self.bids@[k].bid_amount > 0
        &&& forall|k: u64| #[trigger]
            self.investments@.contains_key(k) ==> self.investments@[k].invoice_id == k
                && self.investments@[k].amount > 0 && self.invoices@.contains_key(k)
        &&& forall|k: u64| #[trigger]
            self.escrows@.contains_key(k) ==> self.escrows@[k].invoice_id == k && self.invoices@.contains_key(k)
        &&& forall|k: u64| #[trigger] self.bids@.contains_key(k) ==> self.invoices@.contains_key(self.bids@[k].invoice_id)
            && self.bids@[k].bid_amount <= self.invoices@[self.bids@[k].invoice_id].amount
        &&& forall|k: u64| #[trigger] self.bids@.contains_key(k) ==> k < self.next_id
            && self.invoice_bids@.contains_key(self.bids@[k].invoice_id)
            && self.invoice_bids@[self.bids@[k].invoice_id]@.contains(k)
        &&& forall|k: u64| #[trigger] self.invoices@.contains_key(k) ==> k < self.next_id
        &&& forall|k: u64| #[trigger]
            self.invoice_bids@.contains_key(k) ==> bid_list_wf(self.bids@, self.invoice_bids@[k]@, k)
        &&& 0 <= self.platform_fee_bps <= 10000
        &&& forall|k: u64| #[trigger] self.invoices@.contains_key(k) && self.invoices@[k].status
            == InvoiceStatus::Verified ==> self.verified_order@.contains(k)
        &&& self.verified_order@.no_duplicates()
        &&& forall|k: u64| #[trigger] self.escrows@.contains_key(k) && #[trigger] self.investments@.contains_key(k)
            ==> self.escrows@[k].investor == self.investments@[k].investor
    }

    /// An empty protocol: no admin, not paused, no platform fee, no limits.
    pub fn new() -> (c: Self)
        ensures
            c.wf(),
            c.admin.is_none(),
            !c.paused,
            c.platform_fee_bps == 0,
            c.invoices@ == Map::<u64, Invoice>::empty(),
            c.bids@ == Map::<u64, Bid>::empty(),
            c.investments@ == Map::<u64, Investment>::empty(),
            c.escrows@ == Map::<u64, Escrow>::empty(),
            c.settlements@ == Map::<u64, SettlementLog>::empty(),
            c.next_id == 1,
            c.frozen_invoices@ == Set::<u64>::empty(),
            c.invoice_bids@ == Map::<u64, Vec<u64>>::empty(),
            c.bid_markers@ == Seq::<(u64, u64, u64)>::empty(),
            c.investor_verifications@ == Map::<u64, InvestorVerification>::empty(),
            c.business_verifications@ == Map::<u64, VerificationStatus>::empty(),
            c.verified_order@ == Seq::<u64>::empty(),
            c.limits == (ProtocolLimits { max_active_bids_per_investor: 0, max_invoices_per_business: 0 }),
    {
        QuickLendXContract {
            admin: None,
            paused: false,
            platform_fee_bps: 0,
            next_id: 1,
            invoices: HashMap::new(),
            frozen_invoices: HashSet::new(),
            settlements: HashMap::new(),
            bids: HashMap::new(),
            invoice_bids: HashMap::new(),
            bid_markers: Vec::new(),
            investments: HashMap::new(),
            escrows: HashMap::new(),
            investor_verifications: HashMap::new(),
            business_verifications: HashMap::new(),
            limits: ProtocolLimits { max_active_bids_per_investor: 0, max_invoices_per_business: 0 },
            verified_order: Vec::new(),
        }
    }

    /// Record that invoice `id` became verified now.
    pub(crate) fn enter_verified(&mut self, id: u64)
        requires
            old(self).wf(),
        ensures
            final(self).wf(),
            final(self).verified_order@.contains(id),
            final(self).verified_order@ == entered_verified(old(self).verified_order@, id),
            *final(self) == (QuickLendXContract { verified_order: final(self).verified_order, ..*old(self) }),
    {
        let ghost old_order = self.verified_order@;
        let mut kept: Vec<u64> = Vec::new();
        let mut i: usize = 0;
        while i < self.verified_order.len()
            invariant
                i <= self.verified_order.len(),
                self.verified_order@ == old_order,
                kept@ == without(old_order.take(i as int), id),
            decreases self.verified_order.len() - i,
        {
            let x = self.verified_order[i];
            assert(old_order.take(i + 1).drop_last() =~= old_order.take(i as int));
            if x != id {
                kept.push(x);
            }
            i = i + 1;
        }
        assert(old_order.take(old_order.len() as int) =~= old_order);
        proof {
            lemma_without(old_order, id);
            let w = without(old_order, id);
            assert(!w.contains(id));
            assert(w.push(id)[w.len() as int] == id);
            assert forall|k: u64| w.contains(k) implies #[trigger] w.push(id).contains(k) by {
                let j = choose|j: int| 0 <= j < w.len() && w[j] == k;
                assert(w.push(id)[j] == k);
            }
            assert forall|a: int, b: int| 0 <= a < b < w.push(id).len() implies w.push(id)[a] != w.push(id)[b] by {
                if b == w.len() {
                    assert(w.contains(w[a]));
                }
            }
        }
        kept.push(id);
        self.verified_order = kept;
    }

    /// Get an invoice by identifier.
    pub fn get_invoice(&self, invoice_id: u64) -> (r: Result<&Invoice, QuickLendXError>)
        ensures
            self.invoices@.contains_key(invoice_id) ==> r == Ok::<&Invoice, QuickLendXError>(
                &self.invoices@[invoice_id],
            ),
            !self.invoices@.contains_key(invoice_id) ==> r == Err::<&Invoice, QuickLendXError>(
                QuickLendXError::InvoiceNotFound,
            ),
    {
        match self.invoices.get(&invoice_id) {
            Some(inv) => Ok(inv),
            None => Err(QuickLendXError::InvoiceNotFound),
        }
    }
}

} // verus!
