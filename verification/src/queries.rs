//! Read-only queries over the stored invoices, bids and investments, and
//! their paginated forms. Lists come in identifier order, which is the
//! order in which records were created.
use vstd::prelude::*;

use crate::contract::QuickLendXContract;
use crate::pagination::{paginate, spec_paginate};
use crate::errors::QuickLendXError;
use crate::types::{Bid, BidStatus, DisputeStatus, Escrow, EscrowStatus, Investment, InvestmentStatus, Invoice, InvoiceCategory, InvoiceStatus};

verus! {

broadcast use vstd::std_specs::hash::group_hash_axioms;

/// Which invoices an invoice query selects.
#[derive(Clone, Copy, Debug, PartialEq, Eq, Structural)]
pub enum InvoiceFilter {
    /// Every invoice.
    Any,
    /// Invoices in the given status.
    Status(InvoiceStatus),
    /// Invoices of the given business, in the given status where given.
    Business(u64, Option<InvoiceStatus>),
    /// Invoices of the given category.
    Category(InvoiceCategory),
    /// Invoices in the given status whose dispute status is the given one.
    StatusAndDispute(InvoiceStatus, DisputeStatus),
    /// Invoices in the given status that carry a dispute.
    StatusDisputed(InvoiceStatus),
    /// Verified invoices whose amount is at least the minimum and at most
    /// the maximum, and whose category is the given one, where these are given.
    Available(Option<i128>, Option<i128>, Option<InvoiceCategory>),
}

/// Whether filter `f` selects invoice `inv`.
pub open spec fn invoice_matches(f: InvoiceFilter, inv: Invoice) -> bool {
    match f {
        InvoiceFilter::Any => true,
        InvoiceFilter::Status(s) => inv.status == s,
        InvoiceFilter::Business(b, st) => inv.business == b && (st matches Some(s) ==> inv.status
            == s),
        InvoiceFilter::Category(c) => inv.category == c,
        InvoiceFilter::StatusAndDispute(s, d) => inv.status == s && inv.dispute_status == d,
        InvoiceFilter::StatusDisputed(s) => inv.status == s && inv.dispute_status
            != DisputeStatus::NoDispute,
        InvoiceFilter::Available(min, max, cat) => inv.status == InvoiceStatus::Verified
            && in_funding_range(min, max, cat, inv),
    }
}

/// Whether the invoice's amount is at least the minimum and at most the
/// maximum, and its category is the given one, where these are given.
pub open spec fn in_funding_range(
    min: Option<i128>,
    max: Option<i128>,
    cat: Option<InvoiceCategory>,
    inv: Invoice,
) -> bool {
    &&& (min matches Some(m) ==> inv.amount >= m)
    &&& (max matches Some(m) ==> inv.amount <= m)
    &&& (cat matches Some(c) ==> inv.category == c)
}

/// The funding-range filter on the stored invoices, as a predicate on
/// identifiers.
pub open spec fn funding_filter(
    invoices: Map<u64, Invoice>,
    min: Option<i128>,
    max: Option<i128>,
    cat: Option<InvoiceCategory>,
) -> spec_fn(u64) -> bool {
    |k: u64| in_funding_range(min, max, cat, invoices[k])
}

/// Identifiers below `n` of the stored invoices that `f` selects, in
/// increasing order.
pub open spec fn invoice_ids_below(invoices: Map<u64, Invoice>, n: nat, f: InvoiceFilter) -> Seq<u64>
    decreases n,
{
    if n == 0 {
        Seq::empty()
    } else {
        let prev = invoice_ids_below(invoices, (n - 1) as nat, f);
        let k = (n - 1) as u64;
        if invoices.contains_key(k) && invoice_matches(f, invoices[k]) {
            prev.push(k)
        } else {
            prev
        }
    }
}

/// The identifiers selected below `n` are exactly the stored invoices
/// below `n` that the filter selects, each once, in increasing order.
pub proof fn lemma_invoice_ids_below(invoices: Map<u64, Invoice>, n: nat, f: InvoiceFilter)
    requires
        n <= u64::MAX + 1,
    ensures
        forall|j: int|
            0 <= j < invoice_ids_below(invoices, n, f).len() ==> {
                let k = #[trigger] invoice_ids_below(invoices, n, f)[j];
                &&& k < n
                &&& invoices.contains_key(k)
                &&& invoice_matches(f, invoices[k])
            },
        forall|i: int, j: int|
            0 <= i < j < invoice_ids_below(invoices, n, f).len() ==> invoice_ids_below(invoices, n, f)[i]
                < invoice_ids_below(invoices, n, f)[j],
        forall|k: u64|
            invoice_ids_below(invoices, n, f).contains(k) <==> (k < n && invoices.contains_key(k)
                && invoice_matches(f, invoices[k])),
    decreases n,
{
    if n > 0 {
        lemma_invoice_ids_below(invoices, (n - 1) as nat, f);
        let prev = invoice_ids_below(invoices, (n - 1) as nat, f);
        let k = (n - 1) as u64;
        assert forall|x: u64|
            invoice_ids_below(invoices, n, f).contains(x) <==> (x < n && invoices.contains_key(x)
                && invoice_matches(f, invoices[x])) by {
            if invoices.contains_key(k) && invoice_matches(f, invoices[k]) {
                if x == k {
                    assert(invoice_ids_below(invoices, n, f)[prev.len() as int] == x);
                }
                if prev.contains(x) {
                    let j = choose|j: int| 0 <= j < prev.len() && prev[j] == x;
                    assert(invoice_ids_below(invoices, n, f)[j] == x);
                }
            }
        }
    }
}

proof fn lemma_status_counts_add_up(invoices: Map<u64, Invoice>, n: nat)
    ensures
        invoice_ids_below(invoices, n, InvoiceFilter::Status(InvoiceStatus::Pending)).len()
            + invoice_ids_below(invoices, n, InvoiceFilter::Status(InvoiceStatus::Verified)).len()
            + invoice_ids_below(invoices, n, InvoiceFilter::Status(InvoiceStatus::Funded)).len()
            + invoice_ids_below(invoices, n, InvoiceFilter::Status(InvoiceStatus::Paid)).len()
            + invoice_ids_below(invoices, n, InvoiceFilter::Status(InvoiceStatus::Defaulted)).len()
            + invoice_ids_below(invoices, n, InvoiceFilter::Status(InvoiceStatus::Cancelled)).len()
            + invoice_ids_below(invoices, n, InvoiceFilter::Status(InvoiceStatus::Refunded)).len()
            == invoice_ids_below(invoices, n, InvoiceFilter::Any).len(),
    decreases n,
{
    if n > 0 {
        lemma_status_counts_add_up(invoices, (n - 1) as nat);
    }
}

/// Every invoice is in exactly one status, so while no count saturates the
/// total invoice count is the number of stored invoices.
pub proof fn lemma_total_invoice_count(c: &QuickLendXContract)
    requires
        c.wf(),
        c.spec_invoice_ids(InvoiceFilter::Any).len() <= u32::MAX,
    ensures
        c.spec_total_invoice_count() == c.spec_invoice_ids(InvoiceFilter::Any).len(),
{
    lemma_status_counts_add_up(c.invoices@, c.next_id as nat);
    lemma_verified_list_len(c);
}

/// The verified invoices listed in the order they became verified are as
/// many as the verified invoices listed in creation order.
proof fn lemma_verified_list_len(c: &QuickLendXContract)
    requires
        c.wf(),
    ensures
        c.spec_verified_ids(InvoiceFilter::Status(InvoiceStatus::Verified)).len()
            == c.spec_invoice_ids(InvoiceFilter::Status(InvoiceStatus::Verified)).len(),
{
    let f = InvoiceFilter::Status(InvoiceStatus::Verified);
    let a = c.spec_verified_ids(f);
    let b = c.spec_invoice_ids(f);
    lemma_listed_invoices(c.invoices@, c.verified_order@, f);
    lemma_invoice_ids_below(c.invoices@, c.next_id as nat, f);
    assert(b.no_duplicates()) by {
        assert forall|i: int, j: int| 0 <= i < b.len() && 0 <= j < b.len() && i != j implies b[i] != b[j] by {
            if i < j {
                assert(b[i] < b[j]);
            } else {
                assert(b[j] < b[i]);
            }
        }
    }
    assert(a.to_set() =~= b.to_set()) by {
        assert forall|k: u64| a.to_set().contains(k) <==> b.to_set().contains(k) by {
            assert(a.to_set().contains(k) <==> a.contains(k));
            assert(b.to_set().contains(k) <==> b.contains(k));
            if c.invoices@.contains_key(k) {
                assert(k < c.next_id);
            }
        }
    }
    a.unique_seq_to_set();
    b.unique_seq_to_set();
}

/// An invoice query lists exactly the stored invoices that its filter
/// selects, each once, in increasing identifier order, which is creation
/// order.
pub proof fn lemma_invoice_query_exact(c: &QuickLendXContract, f: InvoiceFilter)
    requires
        c.wf(),
    ensures
        forall|k: u64|
            c.spec_invoice_ids(f).contains(k) <==> (c.invoices@.contains_key(k) && invoice_matches(
                f,
                c.invoices@[k],
            )),
        forall|i: int, j: int|
            0 <= i < j < c.spec_invoice_ids(f).len() ==> c.spec_invoice_ids(f)[i] < c.spec_invoice_ids(
                f,
            )[j],
{
    lemma_invoice_ids_below(c.invoices@, c.next_id as nat, f);
}

/// The invoice categories, in declaration order.
pub open spec fn all_categories() -> Seq<InvoiceCategory> {
    seq![
        InvoiceCategory::Services,
        InvoiceCategory::Goods,
        InvoiceCategory::Consulting,
        InvoiceCategory::Logistics,
        InvoiceCategory::Products,
        InvoiceCategory::Manufacturing,
        InvoiceCategory::Technology,
        InvoiceCategory::Healthcare,
        InvoiceCategory::Other,
    ]
}

/// Identifiers named in `list` of stored invoices that `f` selects, in list
/// order.
pub open spec fn listed_invoices(invoices: Map<u64, Invoice>, list: Seq<u64>, f: InvoiceFilter) -> Seq<u64>
    decreases list.len(),
{
    if list.len() == 0 {
        Seq::empty()
    } else {
        let prev = listed_invoices(invoices, list.drop_last(), f);
        let k = list.last();
        if invoices.contains_key(k) && invoice_matches(f, invoices[k]) {
            prev.push(k)
        } else {
            prev
        }
    }
}

proof fn lemma_listed_invoices(invoices: Map<u64, Invoice>, list: Seq<u64>, f: InvoiceFilter)
    ensures
        forall|k: u64|
            #[trigger] listed_invoices(invoices, list, f).contains(k) <==> (list.contains(k)
                && invoices.contains_key(k) && invoice_matches(f, invoices[k])),
        list.no_duplicates() ==> listed_invoices(invoices, list, f).no_duplicates(),
    decreases list.len(),
{
    if list.len() > 0 {
        let t = list.drop_last();
        let x = list.last();
        lemma_listed_invoices(invoices, t, f);
        let p = listed_invoices(invoices, t, f);
        assert forall|k: u64| #[trigger] list.contains(k) <==> (t.contains(k) || x == k) by {
            if list.contains(k) {
                let j = choose|j: int| 0 <= j < list.len() && list[j] == k;
                if j < t.len() {
                    assert(t[j] == k);
                }
            }
            if t.contains(k) {
                let j = choose|j: int| 0 <= j < t.len() && t[j] == k;
                assert(list[j] == k);
            }
            if x == k {
                assert(list[list.len() - 1] == k);
            }
        }
        if invoices.contains_key(x) && invoice_matches(f, invoices[x]) {
            assert forall|k: u64| #[trigger] p.push(x).contains(k) <==> (p.contains(k) || x == k) by {
                if p.push(x).contains(k) {
                    let j = choose|j: int| 0 <= j < p.len() + 1 && p.push(x)[j] == k;
                    if j < p.len() {
                        assert(p[j] == k);
                    }
                }
                if p.contains(k) {
                    let j = choose|j: int| 0 <= j < p.len() && p[j] == k;
                    assert(p.push(x)[j] == k);
                }
                if x == k {
                    assert(p.push(x)[p.len() as int] == k);
                }
            }
            if list.no_duplicates() {
                assert(t.no_duplicates());
                assert(!t.contains(x)) by {
                    if t.contains(x) {
                        let j = choose|j: int| 0 <= j < t.len() && t[j] == x;
                        assert(list[j] == list[list.len() - 1]);
                    }
                }
                assert forall|a: int, b: int| 0 <= a < b < p.push(x).len() implies p.push(x)[a] != p.push(x)[b] by {
                    if b == p.len() {
                        assert(p.contains(p[a]));
                    }
                }
            }
        } else {
            if list.no_duplicates() {
                assert(t.no_duplicates());
            }
        }
    }
}

/// The open-for-funding query lists exactly the stored verified invoices
/// that pass its amount and category filters, each once.
pub proof fn lemma_available_query_exact(
    c: &QuickLendXContract,
    min_amount: Option<i128>,
    max_amount: Option<i128>,
    category: Option<InvoiceCategory>,
)
    requires
        c.wf(),
    ensures
        forall|k: u64|
            #[trigger] c.spec_verified_ids(InvoiceFilter::Available(min_amount, max_amount, category)).contains(k)
                <==> (c.invoices@.contains_key(k) && invoice_matches(
                InvoiceFilter::Available(min_amount, max_amount, category),
                c.invoices@[k],
            )),
        c.spec_verified_ids(InvoiceFilter::Available(min_amount, max_amount, category)).no_duplicates(),
{
    lemma_listed_invoices(c.invoices@, c.verified_order@, InvoiceFilter::Available(min_amount, max_amount, category));
}

/// Listing the open-for-funding invoices of a list is listing its verified
/// invoices and keeping those in the funding range.
proof fn lemma_listed_available(
    invoices: Map<u64, Invoice>,
    list: Seq<u64>,
    min: Option<i128>,
    max: Option<i128>,
    cat: Option<InvoiceCategory>,
)
    ensures
        listed_invoices(invoices, list, InvoiceFilter::Available(min, max, cat)) == listed_invoices(
            invoices,
            list,
            InvoiceFilter::Status(InvoiceStatus::Verified),
        ).filter(funding_filter(invoices, min, max, cat)),
    decreases list.len(),
{
    let p = funding_filter(invoices, min, max, cat);
    let v = listed_invoices(invoices, list, InvoiceFilter::Status(InvoiceStatus::Verified));
    if list.len() == 0 {
        reveal(Seq::filter);
        assert(v.filter(p) =~= Seq::<u64>::empty());
    } else {
        lemma_listed_available(invoices, list.drop_last(), min, max, cat);
        let prev = listed_invoices(invoices, list.drop_last(), InvoiceFilter::Status(InvoiceStatus::Verified));
        prev.lemma_filter_push(list.last(), p);
    }
}

/// A page of the open-for-funding invoices is a window of the verified-status
/// list after the funding-range filter: the available listing is exactly the
/// verified listing with the invoices outside the range left out, in the same
/// order.
pub proof fn lemma_available_from_status_list(
    c: &QuickLendXContract,
    min_amount: Option<i128>,
    max_amount: Option<i128>,
    category: Option<InvoiceCategory>,
)
    ensures
        c.spec_verified_ids(InvoiceFilter::Available(min_amount, max_amount, category))
            == c.spec_status_ids(InvoiceStatus::Verified).filter(
            funding_filter(c.invoices@, min_amount, max_amount, category),
        ),
{
    lemma_listed_available(c.invoices@, c.verified_order@, min_amount, max_amount, category);
}

/// A count as a `u32`, saturating at `u32::MAX`.
pub open spec fn saturating_count(n: nat) -> u32 {
    if n > u32::MAX {
        u32::MAX
    } else {
        n as u32
    }
}

/// Whether bid `b` belongs to the investor and has the status, where given.
pub open spec fn bid_matches(b: Bid, investor: Option<u64>, status: Option<BidStatus>) -> bool {
    &&& (investor matches Some(i) ==> b.investor == i)
    &&& (status matches Some(st) ==> b.status == st)
}

/// Records of the stored bids named in `list` that pass the filters, in
/// list order.
pub open spec fn listed_bids(bids: Map<u64, Bid>, list: Seq<u64>, investor: Option<u64>, status: Option<BidStatus>) -> Seq<Bid>
    decreases list.len(),
{
    if list.len() == 0 {
        Seq::empty()
    } else {
        let prev = listed_bids(bids, list.drop_last(), investor, status);
        let k = list.last();
        if bids.contains_key(k) && bid_matches(bids[k], investor, status) {
            prev.push(bids[k])
        } else {
            prev
        }
    }
}

/// Records of the stored bids with identifier below `n` that pass the
/// filters, in identifier order.
pub open spec fn bids_below(bids: Map<u64, Bid>, n: nat, investor: Option<u64>, status: Option<BidStatus>) -> Seq<Bid>
    decreases n,
{
    if n == 0 {
        Seq::empty()
    } else {
        let prev = bids_below(bids, (n - 1) as nat, investor, status);
        let k = (n - 1) as u64;
        if bids.contains_key(k) && bid_matches(bids[k], investor, status) {
            prev.push(bids[k])
        } else {
            prev
        }
    }
}

/// Identifiers of the investments of `investor` (in the given status, where
/// given) among those of the invoices below `n`, in invoice order.
pub open spec fn investment_ids_below(investments: Map<u64, Investment>, n: nat, investor: u64, status: Option<InvestmentStatus>) -> Seq<u64>
    decreases n,
{
    if n == 0 {
        Seq::empty()
    } else {
        let prev = investment_ids_below(investments, (n - 1) as nat, investor, status);
        let k = (n - 1) as u64;
        if investments.contains_key(k) && investments[k].investor == investor && (status matches Some(
            st,
        ) ==> investments[k].status == st) {
            prev.push(investments[k].investment_id)
        } else {
            prev
        }
    }
}

/// `a` comes before `b` in newest-first order: a later creation time, or
/// the same creation time and a smaller identifier. Entries are
/// `(created_at, invoice_id)`.
pub open spec fn newer_first(a: (u64, u64), b: (u64, u64)) -> bool {
    a.0 > b.0 || (a.0 == b.0 && a.1 < b.1)
}

/// Where `x` goes in `t`: just after the last entry that comes before it.
pub open spec fn insert_pos(t: Seq<(u64, u64)>, x: (u64, u64)) -> nat
    decreases t.len(),
{
    if t.len() == 0 {
        0
    } else if newer_first(t.last(), x) {
        t.len()
    } else {
        insert_pos(t.drop_last(), x)
    }
}

/// `s` sorted newest first by insertion; entries with the same creation
/// time keep their order.
pub open spec fn sort_newest(s: Seq<(u64, u64)>) -> Seq<(u64, u64)>
    decreases s.len(),
{
    if s.len() == 0 {
        Seq::empty()
    } else {
        let t = sort_newest(s.drop_last());
        t.insert(insert_pos(t, s.last()) as int, s.last())
    }
}

/// The invoices named in `ids`, each as `(created_at, invoice_id)`.
pub open spec fn dated_ids(invoices: Map<u64, Invoice>, ids: Seq<u64>) -> Seq<(u64, u64)> {
    Seq::new(ids.len(), |i: int| (invoices[ids[i]].created_at, ids[i]))
}

/// The identifiers of a sequence of `(created_at, invoice_id)` entries.
pub open spec fn ids_of(s: Seq<(u64, u64)>) -> Seq<u64> {
    Seq::new(s.len(), |i: int| s[i].1)
}

/// Entries are sorted newest first by creation time.
pub open spec fn sorted_newest(t: Seq<(u64, u64)>) -> bool {
    forall|i: int, j: int| 0 <= i < j < t.len() ==> #[trigger] t[i].0 >= #[trigger] t[j].0
}

proof fn lemma_insert_pos(t: Seq<(u64, u64)>, x: (u64, u64))
    requires
        sorted_newest(t),
    ensures
        insert_pos(t, x) <= t.len(),
        forall|i: int| 0 <= i < insert_pos(t, x) ==> #[trigger] t[i].0 >= x.0,
        forall|i: int| insert_pos(t, x) <= i < t.len() ==> #[trigger] t[i].0 <= x.0,
    decreases t.len(),
{
    if t.len() > 0 {
        let u = t.drop_last();
        if !newer_first(t.last(), x) {
            assert(sorted_newest(u));
            lemma_insert_pos(u, x);
            assert forall|i: int| insert_pos(t, x) <= i < t.len() implies #[trigger] t[i].0 <= x.0 by {
                if i < u.len() {
                    assert(u[i] == t[i]);
                }
            }
            assert forall|i: int| 0 <= i < insert_pos(t, x) implies #[trigger] t[i].0 >= x.0 by {
                assert(u[i] == t[i]);
            }
        } else {
            assert forall|i: int| 0 <= i < insert_pos(t, x) implies #[trigger] t[i].0 >= x.0 by {
                if i < t.len() - 1 {
                    assert(t[i].0 >= t[t.len() - 1].0);
                }
            }
        }
    }
}

/// Sorting newest first keeps every entry exactly as often as it occurs,
/// and leaves the entries in non-increasing order of creation time.
pub proof fn lemma_sort_newest(s: Seq<(u64, u64)>)
    ensures
        sort_newest(s).len() == s.len(),
        sort_newest(s).to_multiset() == s.to_multiset(),
        sorted_newest(sort_newest(s)),
    decreases s.len(),
{
    broadcast use vstd::seq_lib::to_multiset_build, vstd::seq_lib::to_multiset_insert;

    if s.len() > 0 {
        let t = sort_newest(s.drop_last());
        let x = s.last();
        lemma_sort_newest(s.drop_last());
        lemma_insert_pos(t, x);
        let p = insert_pos(t, x) as int;
        let r = t.insert(p, x);
        assert(s.drop_last().push(x) =~= s);
        assert(r.to_multiset() == t.to_multiset().insert(x));
        assert(s.drop_last().push(x).to_multiset() == s.drop_last().to_multiset().insert(x));
        assert forall|i: int, j: int| 0 <= i < j < r.len() implies #[trigger] r[i].0 >= #[trigger] r[j].0 by {
            if i < p && j == p {
            } else if i < p && j > p {
                assert(r[j] == t[j - 1]);
            } else if i == p {
                assert(r[j] == t[j - 1]);
            } else if j < p {
            } else {
                assert(r[i] == t[i - 1]);
                assert(r[j] == t[j - 1]);
            }
        }
    } else {
        assert(s =~= Seq::<(u64, u64)>::empty());
    }
}

fn newer_first_exec(a: (u64, u64), b: (u64, u64)) -> (r: bool)
    ensures
        r == newer_first(a, b),
{
    a.0 > b.0 || (a.0 == b.0 && a.1 < b.1)
}

/// `s` sorted newest first, ties kept in order.
fn sort_by_newest(s: &Vec<(u64, u64)>) -> (r: Vec<(u64, u64)>)
    ensures
        r@ == sort_newest(s@),
{
    let mut sorted: Vec<(u64, u64)> = Vec::new();
    let mut i: usize = 0;
    while i < s.len()
        invariant
            i <= s.len(),
            sorted@ == sort_newest(s@.take(i as int)),
        decreases s.len() - i,
    {
        let x = s[i];
        assert(s@.take(i + 1).drop_last() =~= s@.take(i as int));
        let mut p: usize = sorted.len();
        assert(sorted@.take(p as int) =~= sorted@);
        while p > 0 && !newer_first_exec(sorted[p - 1], x)
            invariant
                p <= sorted.len(),
                insert_pos(sorted@, x) == insert_pos(sorted@.take(p as int), x),
            decreases p,
        {
            assert(sorted@.take(p as int).drop_last() =~= sorted@.take(p - 1));
            p = p - 1;
        }
        proof {
            if p > 0 {
                assert(sorted@.take(p as int).last() == sorted@[p - 1]);
            }
        }
        sorted.insert(p, x);
        i = i + 1;
    }
    assert(s@.take(s@.len() as int) =~= s@);
    sorted
}

/// Identifiers of the investments in the given status among those of the
/// invoices below `n`, in invoice order.
pub open spec fn investment_ids_in_status(investments: Map<u64, Investment>, n: nat, status: InvestmentStatus) -> Seq<u64>
    decreases n,
{
    if n == 0 {
        Seq::empty()
    } else {
        let prev = investment_ids_in_status(investments, (n - 1) as nat, status);
        let k = (n - 1) as u64;
        if investments.contains_key(k) && investments[k].status == status {
            prev.push(investments[k].investment_id)
        } else {
            prev
        }
    }
}

fn bid_selected(b: &Bid, investor: Option<u64>, status: Option<BidStatus>) -> (r: bool)
    ensures
        r == bid_matches(*b, investor, status),
{
    match investor {
        Some(i) => {
            if b.investor != i {
                return false;
            }
        },
        None => {},
    }
    match status {
        Some(st) => b.status == st,
        None => true,
    }
}

fn invoice_selected(f: InvoiceFilter, inv: &Invoice) -> (r: bool)
    ensures
        r == invoice_matches(f, *inv),
{
    match f {
        InvoiceFilter::Any => true,
        InvoiceFilter::Status(s) => inv.status == s,
        InvoiceFilter::Business(b, st) => inv.business == b && match st {
            Some(s) => inv.status == s,
            None => true,
        },
        InvoiceFilter::Category(c) => inv.category == c,
        InvoiceFilter::StatusAndDispute(s, d) => inv.status == s && inv.dispute_status == d,
        InvoiceFilter::StatusDisputed(s) => inv.status == s && inv.dispute_status
            != DisputeStatus::NoDispute,
        InvoiceFilter::Available(min, max, cat) => {
            if inv.status != InvoiceStatus::Verified {
                return false;
            }
            match min {
                Some(m) => {
                    if inv.amount < m {
                        return false;
                    }
                },
                None => {},
            }
            match max {
                Some(m) => {
                    if inv.amount > m {
                        return false;
                    }
                },
                None => {},
            }
            match cat {
                Some(c) => inv.category == c,
                None => true,
            }
        },
    }
}

fn count_of(v: &Vec<u64>) -> (r: u32)
    ensures
        r == saturating_count(v@.len()),
{
    if v.len() > u32::MAX as usize {
        u32::MAX
    } else {
        v.len() as u32
    }
}

impl QuickLendXContract {
    /// Identifiers of the stored invoices that `f` selects, in creation order.
    pub open spec fn spec_invoice_ids(&self, f: InvoiceFilter) -> Seq<u64> {
        invoice_ids_below(self.invoices@, self.next_id as nat, f)
    }

    /// The invoices with a dispute in the given status among the pending,
    /// verified, funded and paid invoices, taken in that order of status.
    pub open spec fn spec_invoices_by_dispute(&self, d: DisputeStatus) -> Seq<u64> {
        self.spec_invoice_ids(InvoiceFilter::StatusAndDispute(InvoiceStatus::Pending, d))
            + self.spec_verified_ids(InvoiceFilter::StatusAndDispute(InvoiceStatus::Verified, d))
            + self.spec_invoice_ids(InvoiceFilter::StatusAndDispute(InvoiceStatus::Funded, d))
            + self.spec_invoice_ids(InvoiceFilter::StatusAndDispute(InvoiceStatus::Paid, d))
    }

    /// The invoices carrying a dispute among the pending, verified, funded and
    /// paid invoices, taken in that order of status.
    pub open spec fn spec_invoices_with_disputes(&self) -> Seq<u64> {
        self.spec_invoice_ids(InvoiceFilter::StatusDisputed(InvoiceStatus::Pending))
            + self.spec_verified_ids(InvoiceFilter::StatusDisputed(InvoiceStatus::Verified))
            + self.spec_invoice_ids(InvoiceFilter::StatusDisputed(InvoiceStatus::Funded))
            + self.spec_invoice_ids(InvoiceFilter::StatusDisputed(InvoiceStatus::Paid))
    }

    /// Identifiers of the invoices in status `s`: the verified ones in the
    /// order in which they became verified, the others in creation order.
    pub open spec fn spec_status_ids(&self, s: InvoiceStatus) -> Seq<u64> {
        if s == InvoiceStatus::Verified {
            self.spec_verified_ids(InvoiceFilter::Status(s))
        } else {
            self.spec_invoice_ids(InvoiceFilter::Status(s))
        }
    }

    /// Number of invoices in status `s`, saturating at `u32::MAX`.
    pub open spec fn spec_status_count(&self, s: InvoiceStatus) -> u32 {
        saturating_count(self.spec_status_ids(s).len())
    }

    /// The per-status invoice counts added up with saturation.
    pub open spec fn spec_total_invoice_count(&self) -> u32 {
        self.spec_status_count(InvoiceStatus::Pending).saturating_add(
            self.spec_status_count(InvoiceStatus::Verified),
        ).saturating_add(self.spec_status_count(InvoiceStatus::Funded)).saturating_add(
            self.spec_status_count(InvoiceStatus::Paid),
        ).saturating_add(self.spec_status_count(InvoiceStatus::Defaulted)).saturating_add(
            self.spec_status_count(InvoiceStatus::Cancelled),
        ).saturating_add(self.spec_status_count(InvoiceStatus::Refunded))
    }

    /// Identifiers of the verified invoices that `f` selects, in the order in
    /// which they became verified.
    pub open spec fn spec_verified_ids(&self, f: InvoiceFilter) -> Seq<u64> {
        listed_invoices(self.invoices@, self.verified_order@, f)
    }

    fn select_verified_ids(&self, f: InvoiceFilter) -> (r: Vec<u64>)
        ensures
            r@ == self.spec_verified_ids(f),
    {
        let mut out: Vec<u64> = Vec::new();
        let ghost l = self.verified_order@;
        let mut i: usize = 0;
        while i < self.verified_order.len()
            invariant
                i <= self.verified_order.len(),
                l == self.verified_order@,
                out@ == listed_invoices(self.invoices@, l.take(i as int), f),
            decreases self.verified_order.len() - i,
        {
            let id = self.verified_order[i];
            assert(l.take(i + 1).drop_last() =~= l.take(i as int));
            match self.invoices.get(&id) {
                Some(inv) => {
                    if invoice_selected(f, inv) {
                        out.push(id);
                    }
                },
                None => {},
            }
            i = i + 1;
        }
        assert(l.take(l.len() as int) =~= l);
        out
    }

    fn select_invoice_ids(&self, f: InvoiceFilter) -> (r: Vec<u64>)
        ensures
            r@ == self.spec_invoice_ids(f),
    {
        let mut out: Vec<u64> = Vec::new();
        let mut i: u64 = 0;
        while i < self.next_id
            invariant
                i <= self.next_id,
                out@ == invoice_ids_below(self.invoices@, i as nat, f),
            decreases self.next_id - i,
        {
            match self.invoices.get(&i) {
                Some(inv) => {
                    if invoice_selected(f, inv) {
                        out.push(i);
                    }
                },
                None => {},
            }
            i = i + 1;
        }
        out
    }

    /// Identifiers of the invoices in the given status: verified invoices in
    /// the order in which they became verified, the others in creation order.
    pub fn get_invoices_by_status(&self, status: InvoiceStatus) -> (r: Vec<u64>)
        ensures
            r@ == self.spec_status_ids(status),
    {
        if status == InvoiceStatus::Verified {
            self.select_verified_ids(InvoiceFilter::Status(status))
        } else {
            self.select_invoice_ids(InvoiceFilter::Status(status))
        }
    }

    /// Identifiers of the invoices open for funding: the verified-status
    /// list.
    pub fn get_available_invoices(&self) -> (r: Vec<u64>)
        ensures
            r@ == self.spec_status_ids(InvoiceStatus::Verified),
    {
        self.get_invoices_by_status(InvoiceStatus::Verified)
    }

    /// Identifiers of the invoices of a business, in creation order.
    pub fn get_business_invoices(&self, business: u64) -> (r: Vec<u64>)
        ensures
            r@ == self.spec_invoice_ids(InvoiceFilter::Business(business, None)),
    {
        self.select_invoice_ids(InvoiceFilter::Business(business, None))
    }

    /// Identifiers of the invoices of a business, in creation order.
    pub fn get_invoice_by_business(&self, business: u64) -> (r: Vec<u64>)
        ensures
            r@ == self.spec_invoice_ids(InvoiceFilter::Business(business, None)),
    {
        self.select_invoice_ids(InvoiceFilter::Business(business, None))
    }

    /// Number of invoices in the given status.
    pub fn get_invoice_count_by_status(&self, status: InvoiceStatus) -> (r: u32)
        ensures
            r == self.spec_status_count(status),
    {
        count_of(&self.get_invoices_by_status(status))
    }

    /// Number of invoices of the given category.
    pub fn get_invoice_count_by_category(&self, category: InvoiceCategory) -> (r: u32)
        ensures
            r == saturating_count(self.spec_invoice_ids(InvoiceFilter::Category(category)).len()),
    {
        count_of(&self.select_invoice_ids(InvoiceFilter::Category(category)))
    }

    /// Number of invoices over all statuses: the per-status counts added up
    /// with saturation.
    pub fn get_total_invoice_count(&self) -> (r: u32)
        ensures
            r == self.spec_total_invoice_count(),
    {
        let pending = self.get_invoice_count_by_status(InvoiceStatus::Pending);
        let verified = self.get_invoice_count_by_status(InvoiceStatus::Verified);
        let funded = self.get_invoice_count_by_status(InvoiceStatus::Funded);
        let paid = self.get_invoice_count_by_status(InvoiceStatus::Paid);
        let defaulted = self.get_invoice_count_by_status(InvoiceStatus::Defaulted);
        let cancelled = self.get_invoice_count_by_status(InvoiceStatus::Cancelled);
        let refunded = self.get_invoice_count_by_status(InvoiceStatus::Refunded);
        pending.saturating_add(verified).saturating_add(funded).saturating_add(paid).saturating_add(
            defaulted,
        ).saturating_add(cancelled).saturating_add(refunded)
    }

    /// Identifiers of the pending, verified, funded and paid invoices that
    /// carry a dispute, grouped by status in that order.
    pub fn get_invoices_with_disputes(&self) -> (r: Vec<u64>)
        ensures
            r@ == self.spec_invoices_with_disputes(),
    {
        let mut out = self.select_invoice_ids(InvoiceFilter::StatusDisputed(InvoiceStatus::Pending));
        let mut part = self.select_verified_ids(InvoiceFilter::StatusDisputed(InvoiceStatus::Verified));
        out.append(&mut part);
        let mut part = self.select_invoice_ids(InvoiceFilter::StatusDisputed(InvoiceStatus::Funded));
        out.append(&mut part);
        let mut part = self.select_invoice_ids(InvoiceFilter::StatusDisputed(InvoiceStatus::Paid));
        out.append(&mut part);
        out
    }

    /// Identifiers of the pending, verified, funded and paid invoices whose
    /// dispute status is `dispute_status`, grouped by status in that order.
    pub fn get_invoices_by_dispute_status(&self, dispute_status: DisputeStatus) -> (r: Vec<u64>)
        ensures
            r@ == self.spec_invoices_by_dispute(dispute_status),
    {
        let mut out = self.select_invoice_ids(
            InvoiceFilter::StatusAndDispute(InvoiceStatus::Pending, dispute_status),
        );
        let mut part = self.select_verified_ids(
            InvoiceFilter::StatusAndDispute(InvoiceStatus::Verified, dispute_status),
        );
        out.append(&mut part);
        let mut part = self.select_invoice_ids(
            InvoiceFilter::StatusAndDispute(InvoiceStatus::Funded, dispute_status),
        );
        out.append(&mut part);
        let mut part = self.select_invoice_ids(
            InvoiceFilter::StatusAndDispute(InvoiceStatus::Paid, dispute_status),
        );
        out.append(&mut part);
        out
    }

    /// A page of the verified-status list after the optional amount bounds
    /// and category filter.
    pub fn get_available_invoices_paged(
        &self,
        min_amount: Option<i128>,
        max_amount: Option<i128>,
        category_filter: Option<InvoiceCategory>,
        offset: u32,
        limit: u32,
    ) -> (r: Vec<u64>)
        ensures
            r@ == spec_paginate(
                self.spec_status_ids(InvoiceStatus::Verified).filter(
                    funding_filter(self.invoices@, min_amount, max_amount, category_filter),
                ),
                offset,
                limit,
            ),
    {
        let ids = self.select_verified_ids(InvoiceFilter::Available(min_amount, max_amount, category_filter));
        proof {
            lemma_available_from_status_list(self, min_amount, max_amount, category_filter);
        }
        paginate(&ids, offset, limit)
    }

    /// Records of the invoice's bids that pass the filters, in placement order.
    pub open spec fn spec_invoice_bids(&self, invoice_id: u64, investor: Option<u64>, status: Option<BidStatus>) -> Seq<Bid> {
        listed_bids(self.bids@, self.spec_bid_list(invoice_id), investor, status)
    }

    /// Records of the investor's bids over all invoices that have the status,
    /// where given, in placement order.
    pub open spec fn spec_investor_bids(&self, investor: u64, status: Option<BidStatus>) -> Seq<Bid> {
        bids_below(self.bids@, self.next_id as nat, Some(investor), status)
    }

    /// Identifiers of the investor's investments in the given status, where
    /// given, in invoice order.
    pub open spec fn spec_investor_investments(&self, investor: u64, status: Option<InvestmentStatus>) -> Seq<u64> {
        investment_ids_below(self.investments@, self.next_id as nat, investor, status)
    }

    fn select_invoice_bids(&self, invoice_id: u64, investor: Option<u64>, status: Option<BidStatus>) -> (r: Vec<Bid>)
        ensures
            r@ == self.spec_invoice_bids(invoice_id, investor, status),
    {
        let mut out: Vec<Bid> = Vec::new();
        match self.invoice_bids.get(&invoice_id) {
            Some(list) => {
                let ghost l = list@;
                let mut i: usize = 0;
                while i < list.len()
                    invariant
                        i <= list.len(),
                        l == list@,
                        out@ == listed_bids(self.bids@, l.take(i as int), investor, status),
                    decreases list.len() - i,
                {
                    let id = list[i];
                    assert(l.take(i + 1).drop_last() =~= l.take(i as int));
                    match self.bids.get(&id) {
                        Some(b) => {
                            if bid_selected(b, investor, status) {
                                out.push(*b);
                            }
                        },
                        None => {},
                    }
                    i = i + 1;
                }
                assert(l.take(l.len() as int) =~= l);
            },
            None => {},
        }
        out
    }

    fn select_investor_bids(&self, investor: u64, status: Option<BidStatus>) -> (r: Vec<Bid>)
        ensures
            r@ == self.spec_investor_bids(investor, status),
    {
        let mut out: Vec<Bid> = Vec::new();
        let mut i: u64 = 0;
        while i < self.next_id
            invariant
                i <= self.next_id,
                out@ == bids_below(self.bids@, i as nat, Some(investor), status),
            decreases self.next_id - i,
        {
            match self.bids.get(&i) {
                Some(b) => {
                    if bid_selected(b, Some(investor), status) {
                        out.push(*b);
                    }
                },
                None => {},
            }
            i = i + 1;
        }
        out
    }

    fn select_investor_investments(&self, investor: u64, status: Option<InvestmentStatus>) -> (r: Vec<u64>)
        ensures
            r@ == self.spec_investor_investments(investor, status),
    {
        let mut out: Vec<u64> = Vec::new();
        let mut i: u64 = 0;
        while i < self.next_id
            invariant
                i <= self.next_id,
                out@ == investment_ids_below(self.investments@, i as nat, investor, status),
            decreases self.next_id - i,
        {
            match self.investments.get(&i) {
                Some(inv) => {
                    let keep = inv.investor == investor && match status {
                        Some(st) => inv.status == st,
                        None => true,
                    };
                    if keep {
                        out.push(inv.investment_id);
                    }
                },
                None => {},
            }
            i = i + 1;
        }
        out
    }

    /// A bid by identifier.
    pub fn get_bid(&self, bid_id: u64) -> (r: Option<Bid>)
        ensures
            r == (if self.bids@.contains_key(bid_id) {
                Some(self.bids@[bid_id])
            } else {
                None
            }),
    {
        match self.bids.get(&bid_id) {
            Some(b) => Some(*b),
            None => None,
        }
    }

    /// Every bid record of an invoice, whatever its status, in placement order.
    pub fn get_bids_for_invoice(&self, invoice_id: u64) -> (r: Vec<Bid>)
        ensures
            r@ == self.spec_invoice_bids(invoice_id, None, None),
    {
        self.select_invoice_bids(invoice_id, None, None)
    }

    /// Every bid record of an invoice, in placement order.
    pub fn get_bid_history(&self, invoice_id: u64) -> (r: Vec<Bid>)
        ensures
            r@ == self.spec_invoice_bids(invoice_id, None, None),
    {
        self.select_invoice_bids(invoice_id, None, None)
    }

    /// The invoice's bids in the given status, in placement order.
    pub fn get_bids_by_status(&self, invoice_id: u64, status: BidStatus) -> (r: Vec<Bid>)
        ensures
            r@ == self.spec_invoice_bids(invoice_id, None, Some(status)),
    {
        self.select_invoice_bids(invoice_id, None, Some(status))
    }

    /// The invoice's bids placed by the investor, in placement order.
    pub fn get_bids_by_investor(&self, invoice_id: u64, investor: u64) -> (r: Vec<Bid>)
        ensures
            r@ == self.spec_invoice_bids(invoice_id, Some(investor), None),
    {
        self.select_invoice_bids(invoice_id, Some(investor), None)
    }

    /// A page of the invoice's bids, optionally only those in one status,
    /// in placement order.
    pub fn get_bid_history_paged(&self, invoice_id: u64, status_filter: Option<BidStatus>, offset: u32, limit: u32) -> (r: Vec<Bid>)
        ensures
            r@ == spec_paginate(self.spec_invoice_bids(invoice_id, None, status_filter), offset, limit),
    {
        let bids = self.select_invoice_bids(invoice_id, None, status_filter);
        paginate(&bids, offset, limit)
    }

    /// Every bid the investor placed, over all invoices, in placement order.
    pub fn get_all_bids_by_investor(&self, investor: u64) -> (r: Vec<Bid>)
        ensures
            r@ == self.spec_investor_bids(investor, None),
    {
        self.select_investor_bids(investor, None)
    }

    /// A page of the investor's bids, optionally only those in one status,
    /// in placement order.
    pub fn get_investor_bids_paged(&self, investor: u64, status_filter: Option<BidStatus>, offset: u32, limit: u32) -> (r: Vec<Bid>)
        ensures
            r@ == spec_paginate(self.spec_investor_bids(investor, status_filter), offset, limit),
    {
        let bids = self.select_investor_bids(investor, status_filter);
        paginate(&bids, offset, limit)
    }

    /// Identifiers of the investor's investments, in invoice order.
    pub fn get_investments_by_investor(&self, investor: u64) -> (r: Vec<u64>)
        ensures
            r@ == self.spec_investor_investments(investor, None),
    {
        self.select_investor_investments(investor, None)
    }

    /// A page of the investor's investment identifiers, optionally only those
    /// in one status, in invoice order.
    pub fn get_investor_investments_paged(
        &self,
        investor: u64,
        status_filter: Option<InvestmentStatus>,
        offset: u32,
        limit: u32,
    ) -> (r: Vec<u64>)
        ensures
            r@ == spec_paginate(self.spec_investor_investments(investor, status_filter), offset, limit),
    {
        let ids = self.select_investor_investments(investor, status_filter);
        paginate(&ids, offset, limit)
    }

    /// The investment that funded an invoice.
    pub fn get_invoice_investment(&self, invoice_id: u64) -> (r: Result<Investment, QuickLendXError>)
        ensures
            r == (if self.investments@.contains_key(invoice_id) {
                Ok::<Investment, QuickLendXError>(self.investments@[invoice_id])
            } else {
                Err::<Investment, QuickLendXError>(QuickLendXError::StorageKeyNotFound)
            }),
    {
        match self.investments.get(&invoice_id) {
            Some(inv) => Ok(*inv),
            None => Err(QuickLendXError::StorageKeyNotFound),
        }
    }

    /// The escrow of an invoice.
    pub fn get_escrow_details(&self, invoice_id: u64) -> (r: Result<Escrow, QuickLendXError>)
        ensures
            r == (if self.escrows@.contains_key(invoice_id) {
                Ok::<Escrow, QuickLendXError>(self.escrows@[invoice_id])
            } else {
                Err::<Escrow, QuickLendXError>(QuickLendXError::StorageKeyNotFound)
            }),
    {
        match self.escrows.get(&invoice_id) {
            Some(e) => Ok(*e),
            None => Err(QuickLendXError::StorageKeyNotFound),
        }
    }

    /// The status of an invoice's escrow, which must exist.
    pub fn get_escrow_status(&self, invoice_id: u64) -> (r: Result<EscrowStatus, QuickLendXError>)
        requires
            self.escrows@.contains_key(invoice_id),
        ensures
            r == Ok::<EscrowStatus, QuickLendXError>(self.escrows@[invoice_id].status),
    {
        match self.escrows.get(&invoice_id) {
            Some(e) => Ok(e.status),
            None => Err(QuickLendXError::StorageKeyNotFound),
        }
    }

    /// A page of the business's invoices, optionally only those in one
    /// status, newest first (ties in creation order).
    pub fn get_business_invoices_paged(
        &self,
        business: u64,
        status_filter: Option<InvoiceStatus>,
        offset: u32,
        limit: u32,
    ) -> (r: Vec<u64>)
        requires
            self.wf(),
        ensures
            r@ == spec_paginate(
                ids_of(
                    sort_newest(
                        dated_ids(self.invoices@, self.spec_invoice_ids(InvoiceFilter::Business(business, status_filter))),
                    ),
                ),
                offset,
                limit,
            ),
    {
        let ids = self.select_invoice_ids(InvoiceFilter::Business(business, status_filter));
        proof {
            lemma_invoice_ids_below(self.invoices@, self.next_id as nat, InvoiceFilter::Business(business, status_filter));
        }
        let ghost want = dated_ids(self.invoices@, ids@);
        let mut dated: Vec<(u64, u64)> = Vec::new();
        let mut i: usize = 0;
        while i < ids.len()
            invariant
                i <= ids.len(),
                ids@ == self.spec_invoice_ids(InvoiceFilter::Business(business, status_filter)),
                forall|j: int| 0 <= j < ids@.len() ==> self.invoices@.contains_key(#[trigger] ids@[j]),
                want == dated_ids(self.invoices@, ids@),
                dated@ == want.take(i as int),
            decreases ids.len() - i,
        {
            let id = ids[i];
            let created = match self.invoices.get(&id) {
                Some(inv) => inv.created_at,
                None => 0,
            };
            dated.push((created, id));
            i = i + 1;
            assert(dated@ =~= want.take(i as int));
        }
        assert(want.take(want.len() as int) =~= want);
        let sorted = sort_by_newest(&dated);
        let mut ordered: Vec<u64> = Vec::new();
        let mut j: usize = 0;
        while j < sorted.len()
            invariant
                j <= sorted.len(),
                ordered@ == ids_of(sorted@).take(j as int),
            decreases sorted.len() - j,
        {
            ordered.push(sorted[j].1);
            j = j + 1;
            assert(ordered@ =~= ids_of(sorted@).take(j as int));
        }
        assert(ids_of(sorted@).take(sorted@.len() as int) =~= ids_of(sorted@));
        paginate(&ordered, offset, limit)
    }

    /// The categories of `cats` that have invoices, each with its invoice
    /// count, in the order of `cats`.
    pub open spec fn spec_breakdown_of(&self, cats: Seq<InvoiceCategory>) -> Seq<(InvoiceCategory, u32)>
        decreases cats.len(),
    {
        if cats.len() == 0 {
            Seq::empty()
        } else {
            let prev = self.spec_breakdown_of(cats.drop_last());
            let n = saturating_count(self.spec_invoice_ids(InvoiceFilter::Category(cats.last())).len());
            if n > 0 {
                prev.push((cats.last(), n))
            } else {
                prev
            }
        }
    }

    /// Invoice counts per category, for the categories that have invoices,
    /// in category declaration order.
    pub fn get_category_breakdown(&self) -> (r: Vec<(InvoiceCategory, u32)>)
        ensures
            r@ == self.spec_breakdown_of(all_categories()),
    {
        let cats: Vec<InvoiceCategory> = vec![
            InvoiceCategory::Services,
            InvoiceCategory::Goods,
            InvoiceCategory::Consulting,
            InvoiceCategory::Logistics,
            InvoiceCategory::Products,
            InvoiceCategory::Manufacturing,
            InvoiceCategory::Technology,
            InvoiceCategory::Healthcare,
            InvoiceCategory::Other,
        ];
        assert(cats@ =~= all_categories());
        let mut out: Vec<(InvoiceCategory, u32)> = Vec::new();
        let mut i: usize = 0;
        while i < cats.len()
            invariant
                i <= cats.len(),
                cats@ == all_categories(),
                out@ == self.spec_breakdown_of(cats@.take(i as int)),
            decreases cats.len() - i,
        {
            let cat = cats[i];
            assert(cats@.take(i + 1).drop_last() =~= cats@.take(i as int));
            let n = self.get_invoice_count_by_category(cat);
            if n > 0 {
                out.push((cat, n));
            }
            i = i + 1;
        }
        assert(cats@.take(cats@.len() as int) =~= cats@);
        out
    }

    /// Identifiers of the active investments, in invoice order.
    pub fn get_active_investment_ids(&self) -> (r: Vec<u64>)
        ensures
            r@ == investment_ids_in_status(self.investments@, self.next_id as nat, InvestmentStatus::Active),
    {
        let mut out: Vec<u64> = Vec::new();
        let mut i: u64 = 0;
        while i < self.next_id
            invariant
                i <= self.next_id,
                out@ == investment_ids_in_status(self.investments@, i as nat, InvestmentStatus::Active),
            decreases self.next_id - i,
        {
            match self.investments.get(&i) {
                Some(inv) => {
                    if inv.status == InvestmentStatus::Active {
                        out.push(inv.investment_id);
                    }
                },
                None => {},
            }
            i = i + 1;
        }
        out
    }

    /// An investment by its identifier: the one of the earliest invoice
    /// that carries it, or `StorageKeyNotFound` when none does.
    pub fn get_investment(&self, investment_id: u64) -> (r: Result<Investment, QuickLendXError>)
        requires
            self.wf(),
        ensures
            match r {
                Ok(inv) => exists|k: u64| #[trigger] self.investments@.contains_key(k) && self.investments@[k] == inv
                    && inv.investment_id == investment_id,
                Err(e) => e == QuickLendXError::StorageKeyNotFound && forall|k: u64| #[trigger]
                    self.investments@.contains_key(k) ==> self.investments@[k].investment_id != investment_id,
            },
    {
        let mut i: u64 = 0;
        while i < self.next_id
            invariant
                i <= self.next_id,
                self.wf(),
                forall|k: u64| #[trigger] self.investments@.contains_key(k) && k < i ==> self.investments@[k].investment_id
                    != investment_id,
            decreases self.next_id - i,
        {
            match self.investments.get(&i) {
                Some(inv) => {
                    if inv.investment_id == investment_id {
                        return Ok(*inv);
                    }
                },
                None => {},
            }
            i = i + 1;
        }
        Err(QuickLendXError::StorageKeyNotFound)
    }

    /// An escrow by its identifier, for the administrator: `NotAdmin` unless
    /// `admin` is the administrator, `StorageKeyNotFound` when no escrow
    /// carries the identifier.
    pub fn admin_get_escrow(&self, admin: u64, escrow_id: u64) -> (r: Result<Escrow, QuickLendXError>)
        requires
            self.wf(),
        ensures
            self.admin != Some(admin) ==> r == Err::<Escrow, QuickLendXError>(QuickLendXError::NotAdmin),
            self.admin == Some(admin) ==> match r {
                Ok(e) => exists|k: u64| #[trigger] self.escrows@.contains_key(k) && self.escrows@[k] == e
                    && e.escrow_id == escrow_id,
                Err(err) => err == QuickLendXError::StorageKeyNotFound && forall|k: u64| #[trigger]
                    self.escrows@.contains_key(k) ==> self.escrows@[k].escrow_id != escrow_id,
            },
    {
        match self.admin {
            Some(a) => {
                if a != admin {
                    return Err(QuickLendXError::NotAdmin);
                }
            },
            None => return Err(QuickLendXError::NotAdmin),
        }
        let mut i: u64 = 0;
        while i < self.next_id
            invariant
                i <= self.next_id,
                self.wf(),
                self.admin == Some(admin),
                forall|k: u64| #[trigger] self.escrows@.contains_key(k) && k < i ==> self.escrows@[k].escrow_id
                    != escrow_id,
            decreases self.next_id - i,
        {
            match self.escrows.get(&i) {
                Some(e) => {
                    if e.escrow_id == escrow_id {
                        return Ok(*e);
                    }
                },
                None => {},
            }
            i = i + 1;
        }
        Err(QuickLendXError::StorageKeyNotFound)
    }
}

} // verus!
