//! Usage metrics over sponsored transactions: how many were sponsored, for
//! how much, and the largest and smallest fee, over all time and over the
//! last 7, 30 and 90 days. The amounts in IOTA, EUR and USD, and the
//! averages, are floating-point and are computed by the caller from the
//! transactions each period lists.
use vstd::prelude::*;

use crate::time::{at_or_before, day_of, Timestamp};
use crate::views::SponsorshipTransactionView;

verus! {

/// The integer totals of one period.
#[derive(Debug)]
pub struct PeriodTotals {
    /// Positions, in the given list, of the transactions in the period, in
    /// order.
    pub transactions: Vec<usize>,
    /// How many transactions fall in the period.
    pub total_transactions: u64,
    /// The sum of their fees, in nanos.
    pub total_sponsored_amount: u64,
    /// The largest fee, or 0.
    pub max_transaction_fee: u64,
    /// Position of the transaction that set the largest fee.
    pub max_fee_transaction: Option<usize>,
    /// The smallest fee, or 0.
    pub min_transaction_fee: u64,
    /// Position of the transaction that set the smallest fee.
    pub min_fee_transaction: Option<usize>,
}

/// The abstract content of a period's totals.
pub struct PeriodModel {
    pub transactions: Seq<usize>,
    pub total_transactions: nat,
    pub total_sponsored_amount: nat,
    pub max_transaction_fee: u64,
    pub max_fee_transaction: Option<usize>,
    pub min_transaction_fee: u64,
    pub min_fee_transaction: Option<usize>,
}

impl View for PeriodTotals {
    type V = PeriodModel;

    open spec fn view(&self) -> PeriodModel {
        PeriodModel {
            transactions: self.transactions@,
            total_transactions: self.total_transactions as nat,
            total_sponsored_amount: self.total_sponsored_amount as nat,
            max_transaction_fee: self.max_transaction_fee,
            max_fee_transaction: self.max_fee_transaction,
            min_transaction_fee: self.min_transaction_fee,
            min_fee_transaction: self.min_fee_transaction,
        }
    }
}

impl PeriodModel {
    /// No transaction yet.
    pub open spec fn empty() -> PeriodModel {
        PeriodModel {
            transactions: Seq::empty(),
            total_transactions: 0,
            total_sponsored_amount: 0,
            max_transaction_fee: 0,
            max_fee_transaction: None,
            min_transaction_fee: 0,
            min_fee_transaction: None,
        }
    }

    /// The totals after one more transaction, at position `index`, with the
    /// given fee. A fee larger than the largest so far becomes the largest;
    /// a fee becomes the smallest where it is below the smallest so far or
    /// where the smallest so far is 0.
    pub open spec fn add(self, index: usize, fee: u64) -> PeriodModel {
        let with_max = if fee > self.max_transaction_fee {
            PeriodModel { max_transaction_fee: fee, max_fee_transaction: Some(index), ..self }
        } else {
            self
        };
        let with_min = if self.min_transaction_fee == 0 || fee < self.min_transaction_fee {
            PeriodModel { min_transaction_fee: fee, min_fee_transaction: Some(index), ..with_max }
        } else {
            with_max
        };
        PeriodModel {
            transactions: self.transactions.push(index),
            total_transactions: self.total_transactions + 1,
            total_sponsored_amount: (self.total_sponsored_amount + fee) as nat,
            ..with_min
        }
    }
}

/// Whether a transaction at `t` falls in a period that starts at `since`;
/// with no start, every transaction does.
pub open spec fn in_period(t: Timestamp, since: Option<Timestamp>) -> bool {
    match since {
        Some(s) => at_or_before(s, t),
        None => true,
    }
}

/// The totals of a period over the first `n` transactions of a list.
pub open spec fn period_over(txs: Seq<SponsorshipTransactionView>, since: Option<Timestamp>, n: nat) -> PeriodModel
    decreases n,
{
    if n == 0 || n > txs.len() {
        PeriodModel::empty()
    } else {
        let before = period_over(txs, since, (n - 1) as nat);
        let tx = txs[n - 1];
        if in_period(tx.timestamp, since) {
            before.add((n - 1) as usize, tx.transaction_fee)
        } else {
            before
        }
    }
}

/// The sum of the fees of the first `n` transactions of a list.
pub open spec fn fee_sum(txs: Seq<SponsorshipTransactionView>, n: nat) -> nat
    decreases n,
{
    if n == 0 || n > txs.len() {
        0
    } else {
        (fee_sum(txs, (n - 1) as nat) + txs[n - 1].transaction_fee) as nat
    }
}

/// The earliest of the first `n` transactions' times.
pub open spec fn earliest(txs: Seq<SponsorshipTransactionView>, n: nat) -> Option<Timestamp>
    decreases n,
{
    if n == 0 || n > txs.len() {
        None
    } else {
        let t = txs[n - 1].timestamp;
        match earliest(txs, (n - 1) as nat) {
            Some(e) => if at_or_before(e, t) { Some(e) } else { Some(t) },
            None => Some(t),
        }
    }
}

/// The latest of the first `n` transactions' times.
pub open spec fn latest(txs: Seq<SponsorshipTransactionView>, n: nat) -> Option<Timestamp>
    decreases n,
{
    if n == 0 || n > txs.len() {
        None
    } else {
        let t = txs[n - 1].timestamp;
        match latest(txs, (n - 1) as nat) {
            Some(l) => if at_or_before(t, l) { Some(l) } else { Some(t) },
            None => Some(t),
        }
    }
}

/// The totals of a period grow with the fees summed.
proof fn lemma_period_bounded(txs: Seq<SponsorshipTransactionView>, since: Option<Timestamp>, n: nat)
    requires
        n <= txs.len(),
    ensures
        period_over(txs, since, n).total_sponsored_amount <= fee_sum(txs, n),
        period_over(txs, since, n).total_transactions <= n,
        period_over(txs, since, n).transactions.len() == period_over(txs, since, n).total_transactions,
    decreases n,
{
    if n > 0 {
        lemma_period_bounded(txs, since, (n - 1) as nat);
    }
}

/// The sum of the first fees is no more than the sum of more of them.
proof fn lemma_fee_sum_monotonic(txs: Seq<SponsorshipTransactionView>, m: nat, n: nat)
    requires
        m <= n <= txs.len(),
    ensures
        fee_sum(txs, m) <= fee_sum(txs, n),
    decreases n - m,
{
    if m < n {
        lemma_fee_sum_monotonic(txs, m, (n - 1) as nat);
    }
}

/// A fold is unchanged when an element is taken out and folded in last,
/// where the step can swap any two elements of the sequence.
pub proof fn lemma_fold_remove<A, B>(s: Seq<A>, b: B, f: spec_fn(B, A) -> B, ok: spec_fn(A) -> bool, i: int)
    requires
        0 <= i < s.len(),
        forall|k: int| 0 <= k < s.len() ==> ok(#[trigger] s[k]),
        forall|q: B, x: A, y: A| ok(x) && ok(y) ==> #[trigger] f(f(q, x), y) == f(f(q, y), x),
    ensures
        s.fold_left(b, f) == f(s.remove(i).fold_left(b, f), s[i]),
    decreases s.len(),
{
    if i == s.len() - 1 {
        assert(s.remove(i) =~= s.drop_last());
    } else {
        let d = s.drop_last();
        assert forall|k: int| 0 <= k < d.len() implies ok(#[trigger] d[k]) by {
            assert(d[k] == s[k]);
        }
        lemma_fold_remove(d, b, f, ok, i);
        assert(s.remove(i).drop_last() =~= d.remove(i));
        assert(s.remove(i).last() == s.last());
        assert(d[i] == s[i]);
        assert(ok(s[i]) && ok(s.last()));
        assert(f(f(d.remove(i).fold_left(b, f), s[i]), s.last()) == f(
            f(d.remove(i).fold_left(b, f), s.last()),
            s[i],
        ));
    }
}

/// A fold does not depend on the order of the sequence, where the step can
/// swap any two of its elements.
pub proof fn lemma_fold_permutation<A, B>(
    s1: Seq<A>,
    s2: Seq<A>,
    b: B,
    f: spec_fn(B, A) -> B,
    ok: spec_fn(A) -> bool,
)
    requires
        s1.to_multiset() == s2.to_multiset(),
        forall|k: int| 0 <= k < s1.len() ==> ok(#[trigger] s1[k]),
        forall|q: B, x: A, y: A| ok(x) && ok(y) ==> #[trigger] f(f(q, x), y) == f(f(q, y), x),
    ensures
        s1.fold_left(b, f) == s2.fold_left(b, f),
    decreases s1.len(),
{
    broadcast use vstd::seq_lib::group_to_multiset_ensures;

    if s1.len() == 0 {
        assert(s1.to_multiset().len() == 0);
        assert(s2.len() == s2.to_multiset().len());
    } else {
        let x = s1.last();
        assert(s1.to_multiset().count(x) > 0) by {
            assert(s1.contains(x)) by {
                assert(s1[s1.len() - 1] == x);
            }
        }
        assert(s2.contains(x));
        let j = choose|j: int| 0 <= j < s2.len() && s2[j] == x;
        assert(s1.remove(s1.len() - 1) =~= s1.drop_last());
        assert(s1.drop_last().to_multiset() =~= s1.to_multiset().remove(x));
        assert(s2.remove(j).to_multiset() =~= s2.to_multiset().remove(x));
        let d = s1.drop_last();
        assert forall|k: int| 0 <= k < d.len() implies ok(#[trigger] d[k]) by {
            assert(d[k] == s1[k]);
        }
        lemma_fold_permutation(d, s2.remove(j), b, f, ok);
        assert forall|k: int| 0 <= k < s2.len() implies ok(#[trigger] s2[k]) by {
            assert(s2.to_multiset().count(s2[k]) > 0) by {
                assert(s2.contains(s2[k]));
            }
            assert(s1.contains(s2[k]));
            let m = choose|m: int| 0 <= m < s1.len() && s1[m] == s2[k];
            assert(ok(s1[m]));
        }
        lemma_fold_remove(s2, b, f, ok, j);
    }
}

/// The count, the sum and the largest fee of the transactions in a period,
/// one transaction more.
pub open spec fn count_sum_max_step(since: Option<Timestamp>) -> spec_fn((nat, nat, u64), SponsorshipTransactionView) -> (
    nat,
    nat,
    u64,
) {
    |q: (nat, nat, u64), tx: SponsorshipTransactionView|
        if in_period(tx.timestamp, since) {
            ((q.0 + 1) as nat, (q.1 + tx.transaction_fee) as nat, if tx.transaction_fee > q.2 {
                tx.transaction_fee
            } else {
                q.2
            })
        } else {
            q
        }
}

/// The smallest fee of the transactions in a period, 0 standing for none
/// yet, one transaction more.
pub open spec fn min_step(since: Option<Timestamp>) -> spec_fn(u64, SponsorshipTransactionView) -> u64 {
    |m: u64, tx: SponsorshipTransactionView|
        if in_period(tx.timestamp, since) && (m == 0 || tx.transaction_fee < m) {
            tx.transaction_fee
        } else {
            m
        }
}

/// The earliest time, one transaction more.
pub open spec fn earliest_step() -> spec_fn(Option<Timestamp>, SponsorshipTransactionView) -> Option<Timestamp> {
    |a: Option<Timestamp>, tx: SponsorshipTransactionView|
        match a {
            Some(e) => if at_or_before(e, tx.timestamp) { Some(e) } else { Some(tx.timestamp) },
            None => Some(tx.timestamp),
        }
}

/// The latest time, one transaction more.
pub open spec fn latest_step() -> spec_fn(Option<Timestamp>, SponsorshipTransactionView) -> Option<Timestamp> {
    |a: Option<Timestamp>, tx: SponsorshipTransactionView|
        match a {
            Some(l) => if at_or_before(tx.timestamp, l) { Some(l) } else { Some(tx.timestamp) },
            None => Some(tx.timestamp),
        }
}

/// The totals of a period are folds of the transactions.
pub proof fn lemma_period_as_folds(txs: Seq<SponsorshipTransactionView>, since: Option<Timestamp>, n: nat)
    requires
        n <= txs.len(),
    ensures
        ({
            let p = period_over(txs, since, n);
            (p.total_transactions, p.total_sponsored_amount, p.max_transaction_fee) == txs.take(n as int).fold_left(
                (0nat, 0nat, 0u64),
                count_sum_max_step(since),
            ) && p.min_transaction_fee == txs.take(n as int).fold_left(0u64, min_step(since))
        }),
        earliest(txs, n) == txs.take(n as int).fold_left(None, earliest_step()),
        latest(txs, n) == txs.take(n as int).fold_left(None, latest_step()),
    decreases n,
{
    if n > 0 {
        lemma_period_as_folds(txs, since, (n - 1) as nat);
        assert(txs.take(n as int).drop_last() =~= txs.take(n - 1));
        assert(txs.take(n as int).last() == txs[n - 1]);
    } else {
        assert(txs.take(0) =~= Seq::<SponsorshipTransactionView>::empty());
    }
}

/// The steps of the folds can swap two transactions; for the smallest fee,
/// two transactions with positive fees.
pub proof fn lemma_steps_commute(since: Option<Timestamp>)
    ensures
        forall|q: (nat, nat, u64), x: SponsorshipTransactionView, y: SponsorshipTransactionView|
            #[trigger] count_sum_max_step(since)(count_sum_max_step(since)(q, x), y)
                == count_sum_max_step(since)(count_sum_max_step(since)(q, y), x),
        forall|m: u64, x: SponsorshipTransactionView, y: SponsorshipTransactionView|
            x.transaction_fee > 0 && y.transaction_fee > 0 ==> #[trigger] min_step(since)(min_step(since)(m, x), y)
                == min_step(since)(min_step(since)(m, y), x),
        forall|a: Option<Timestamp>, x: SponsorshipTransactionView, y: SponsorshipTransactionView|
            #[trigger] earliest_step()(earliest_step()(a, x), y) == earliest_step()(earliest_step()(a, y), x),
        forall|a: Option<Timestamp>, x: SponsorshipTransactionView, y: SponsorshipTransactionView|
            #[trigger] latest_step()(latest_step()(a, x), y) == latest_step()(latest_step()(a, y), x),
{
}

/// The start of the period of the last `days` days before `now`: the same
/// time of day, `days` days earlier.
pub open spec fn period_start(now: Timestamp, days: int) -> Timestamp {
    Timestamp { seconds: (now.seconds - days * 86_400) as i64, nanos: now.nanos }
}

/// The integer metrics of a list of transactions.
#[derive(Debug)]
pub struct MetricsTotals {
    /// The earliest transaction time, if there is a transaction.
    pub first_transaction: Option<Timestamp>,
    /// The latest transaction time, if there is a transaction.
    pub last_transaction: Option<Timestamp>,
    /// Days from the earliest to the latest transaction's day, at least 1,
    /// if there is a transaction.
    pub all_time_days_span: Option<i64>,
    pub all_time: PeriodTotals,
    pub last_7_days: PeriodTotals,
    pub last_30_days: PeriodTotals,
    pub last_90_days: PeriodTotals,
}

/// The number of days an all-time period spans: from the earliest to the
/// latest day, at least 1.
pub open spec fn days_span(first: Timestamp, last: Timestamp) -> int {
    if day_of(last) - day_of(first) > 1 { day_of(last) - day_of(first) } else { 1 }
}

impl PeriodTotals {
    fn empty() -> (p: PeriodTotals)
        ensures
            p@ == PeriodModel::empty(),
    {
        PeriodTotals {
            transactions: Vec::new(),
            total_transactions: 0,
            total_sponsored_amount: 0,
            max_transaction_fee: 0,
            max_fee_transaction: None,
            min_transaction_fee: 0,
            min_fee_transaction: None,
        }
    }

    fn add(&mut self, index: usize, fee: u64)
        requires
            old(self).total_sponsored_amount + fee <= u64::MAX,
            old(self).total_transactions < u64::MAX,
        ensures
            final(self)@ == old(self)@.add(index, fee),
    {
        self.transactions.push(index);
        self.total_transactions = self.total_transactions + 1;
        self.total_sponsored_amount = self.total_sponsored_amount + fee;
        if fee > self.max_transaction_fee {
            self.max_transaction_fee = fee;
            self.max_fee_transaction = Some(index);
        }
        if self.min_transaction_fee == 0 || fee < self.min_transaction_fee {
            self.min_transaction_fee = fee;
            self.min_fee_transaction = Some(index);
        }
    }
}

/// The integer metrics of a list of transactions at time `now`: all time,
/// and the periods starting 7, 30 and 90 days before `now`.
pub fn metrics_totals_at(transactions: &Vec<SponsorshipTransactionView>, now: Timestamp) -> (m: MetricsTotals)
    requires
        fee_sum(transactions@, transactions@.len()) <= u64::MAX,
        now.seconds >= 0,
    ensures
        m.first_transaction == earliest(transactions@, transactions@.len()),
        m.last_transaction == latest(transactions@, transactions@.len()),
        m.all_time@ == period_over(transactions@, None, transactions@.len()),
        m.last_7_days@ == period_over(transactions@, Some(period_start(now, 7)), transactions@.len()),
        m.last_30_days@ == period_over(transactions@, Some(period_start(now, 30)), transactions@.len()),
        m.last_90_days@ == period_over(transactions@, Some(period_start(now, 90)), transactions@.len()),
        m.all_time_days_span == (match (m.first_transaction, m.last_transaction) {
            (Some(f), Some(l)) => Some(days_span(f, l) as i64),
            _ => None,
        }),
{
    let ghost txs = transactions@;
    let seven_days_ago = now.days_earlier(7);
    let thirty_days_ago = now.days_earlier(30);
    let ninety_days_ago = now.days_earlier(90);
    let mut first: Option<Timestamp> = None;
    let mut last: Option<Timestamp> = None;
    let mut all_time = PeriodTotals::empty();
    let mut last_7_days = PeriodTotals::empty();
    let mut last_30_days = PeriodTotals::empty();
    let mut last_90_days = PeriodTotals::empty();
    let n = transactions.len();
    let mut i: usize = 0;
    while i < n
        invariant
            i <= n,
            n == txs.len(),
            txs == transactions@,
            fee_sum(txs, n as nat) <= u64::MAX,
            first == earliest(txs, i as nat),
            last == latest(txs, i as nat),
            all_time@ == period_over(txs, None, i as nat),
            last_7_days@ == period_over(txs, Some(seven_days_ago), i as nat),
            last_30_days@ == period_over(txs, Some(thirty_days_ago), i as nat),
            last_90_days@ == period_over(txs, Some(ninety_days_ago), i as nat),
        decreases n - i,
    {
        let tx = &transactions[i];
        let t = tx.timestamp;
        let fee = tx.transaction_fee;
        proof {
            lemma_fee_sum_monotonic(txs, (i + 1) as nat, n as nat);
            lemma_period_bounded(txs, None, i as nat);
            lemma_period_bounded(txs, Some(seven_days_ago), i as nat);
            lemma_period_bounded(txs, Some(thirty_days_ago), i as nat);
            lemma_period_bounded(txs, Some(ninety_days_ago), i as nat);
        }
        first = match first {
            Some(e) => if e.is_at_or_before(&t) { Some(e) } else { Some(t) },
            None => Some(t),
        };
        last = match last {
            Some(l) => if t.is_at_or_before(&l) { Some(l) } else { Some(t) },
            None => Some(t),
        };
        all_time.add(i, fee);
        if seven_days_ago.is_at_or_before(&t) {
            last_7_days.add(i, fee);
        }
        if thirty_days_ago.is_at_or_before(&t) {
            last_30_days.add(i, fee);
        }
        if ninety_days_ago.is_at_or_before(&t) {
            last_90_days.add(i, fee);
        }
        i = i + 1;
    }
    let all_time_days_span = match (first, last) {
        (Some(f), Some(l)) => {
            let span = l.day_number() - f.day_number();
            Some(if span > 1 { span } else { 1 })
        },
        _ => None,
    };
    MetricsTotals { first_transaction: first, last_transaction: last, all_time_days_span, all_time, last_7_days, last_30_days, last_90_days }
}

/// The integer metrics of a list of transactions now.
///
/// Reads the clock once; the periods are those before the time read.
pub fn metrics_totals(transactions: &Vec<SponsorshipTransactionView>) -> (m: MetricsTotals)
    requires
        fee_sum(transactions@, transactions@.len()) <= u64::MAX,
    ensures
        exists|now: Timestamp| now.seconds >= 0 && now.nanos < 1_000_000_000 && {
            &&& m.first_transaction == earliest(transactions@, transactions@.len())
            &&& m.last_transaction == latest(transactions@, transactions@.len())
            &&& m.all_time@ == period_over(transactions@, None, transactions@.len())
            &&& m.last_7_days@ == period_over(transactions@, Some(period_start(now, 7)), transactions@.len())
            &&& m.last_30_days@ == period_over(transactions@, Some(period_start(now, 30)), transactions@.len())
            &&& m.last_90_days@ == period_over(transactions@, Some(period_start(now, 90)), transactions@.len())
        },
        m.all_time_days_span == (match (m.first_transaction, m.last_transaction) {
            (Some(f), Some(l)) => Some(days_span(f, l) as i64),
            _ => None,
        }),
{
    let now = crate::time::current_time();
    metrics_totals_at(transactions, now)
}

} // verus!
