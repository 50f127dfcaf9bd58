use chrono::{Duration, Utc};

use iota_sponsoring_service::log_events::{
    classify_log_message, fee_to_record, parse_u64, read_log_events, LogLineKind, LogScan,
};
use iota_sponsoring_service::metrics::{metrics_totals, metrics_totals_at};
use iota_sponsoring_service::time::Timestamp;
use iota_sponsoring_service::views::SponsorshipTransactionView;

const NANO_PER_IOTA: f64 = 1_000_000_000.0;

fn timestamp_of(t: chrono::DateTime<Utc>) -> Timestamp {
    Timestamp { seconds: t.timestamp(), nanos: t.timestamp_subsec_nanos() }
}

fn create_tx(days_ago: i64, fee: u64, fee_eur: f64) -> SponsorshipTransactionView {
    let mut v = SponsorshipTransactionView::default();
    v.sponsorship_transaction_id = uuid::Uuid::new_v4().as_u128();
    v.group_id = uuid::Uuid::new_v4().as_u128();
    v.client_id = uuid::Uuid::new_v4().as_u128();
    v.client_name = "Test Client".to_string();
    v.transaction_fee = fee;
    v.transaction_fee_iot_bits = (fee as f64 / NANO_PER_IOTA).to_bits();
    v.transaction_fee_eur_bits = fee_eur.to_bits();
    v.transaction_fee_usd_bits = (fee_eur * 1.1).to_bits();
    v.timestamp = timestamp_of(Utc::now() - Duration::days(days_ago));
    v
}

fn average(total: u64, count: u64) -> f64 {
    total as f64 / count as f64
}

#[test]
fn test_metrics_from_empty_transactions() {
    let transactions: Vec<SponsorshipTransactionView> = vec![];
    let metrics = metrics_totals(&transactions);

    assert!(metrics.first_transaction.is_none());
    assert!(metrics.last_transaction.is_none());
    assert_eq!(metrics.all_time.total_transactions, 0);
    assert_eq!(metrics.last_7_days.total_transactions, 0);
}

#[test]
fn test_metrics_from_single_transaction() {
    let transactions = vec![create_tx(5, 1000, 1.5)];
    let metrics = metrics_totals(&transactions);

    assert!(metrics.first_transaction.is_some());
    assert!(metrics.last_transaction.is_some());
    assert_eq!(metrics.first_transaction, metrics.last_transaction);

    assert_eq!(metrics.all_time.total_transactions, 1);
    assert_eq!(metrics.all_time.total_sponsored_amount, 1000);
    assert_eq!(metrics.all_time.min_transaction_fee, 1000);
    assert_eq!(metrics.all_time.max_transaction_fee, 1000);
    assert_eq!(average(metrics.all_time.total_sponsored_amount, metrics.all_time.total_transactions), 1000.0);

    assert_eq!(metrics.last_7_days.total_transactions, 1);
    assert_eq!(metrics.last_7_days.total_sponsored_amount, 1000);
}

#[test]
fn test_metrics_from_multiple_transactions() {
    let transactions = vec![
        create_tx(100, 1000, 1.0),
        create_tx(45, 2000, 2.0),
        create_tx(20, 3000, 3.0),
        create_tx(5, 5000, 5.0),
        create_tx(1, 8000, 8.0),
    ];

    let metrics = metrics_totals(&transactions);

    let day_of = |t: Timestamp| t.day_number();
    assert_eq!(
        day_of(metrics.first_transaction.unwrap()),
        day_of(timestamp_of(Utc::now() - Duration::days(100)))
    );
    assert_eq!(
        day_of(metrics.last_transaction.unwrap()),
        day_of(timestamp_of(Utc::now() - Duration::days(1)))
    );

    let all_time = &metrics.all_time;
    assert_eq!(all_time.total_transactions, 5);
    assert_eq!(all_time.total_sponsored_amount, 19000);
    assert_eq!(all_time.min_transaction_fee, 1000);
    assert_eq!(all_time.max_transaction_fee, 8000);
    assert_eq!(average(all_time.total_sponsored_amount, all_time.total_transactions), 3800.0);
    let expected_daily_avg = 5.0
        / ((Utc::now() - Duration::days(1)).date_naive() - (Utc::now() - Duration::days(100)).date_naive())
            .num_days() as f64;
    let daily_avg = all_time.total_transactions as f64 / metrics.all_time_days_span.unwrap() as f64;
    assert!((daily_avg - expected_daily_avg).abs() < 1e-9);

    let last_90 = &metrics.last_90_days;
    assert_eq!(last_90.total_transactions, 4);
    assert_eq!(last_90.total_sponsored_amount, 18000);
    assert_eq!(last_90.min_transaction_fee, 2000);
    assert_eq!(last_90.max_transaction_fee, 8000);
    assert_eq!(average(last_90.total_sponsored_amount, last_90.total_transactions), 4500.0);

    let last_30 = &metrics.last_30_days;
    assert_eq!(last_30.total_transactions, 3);
    assert_eq!(last_30.total_sponsored_amount, 16000);
    assert_eq!(last_30.min_transaction_fee, 3000);
    assert_eq!(last_30.max_transaction_fee, 8000);
    assert_eq!(average(last_30.total_sponsored_amount, last_30.total_transactions).round(), 5333.0);

    let last_7 = &metrics.last_7_days;
    assert_eq!(last_7.total_transactions, 2);
    assert_eq!(last_7.total_sponsored_amount, 13000);
    assert_eq!(last_7.min_transaction_fee, 5000);
    assert_eq!(last_7.max_transaction_fee, 8000);
    assert_eq!(average(last_7.total_sponsored_amount, last_7.total_transactions), 6500.0);
}

fn tx_at(seconds: i64, fee: u64) -> SponsorshipTransactionView {
    let mut v = SponsorshipTransactionView::default();
    v.transaction_fee = fee;
    v.timestamp = Timestamp { seconds, nanos: 0 };
    v
}

#[test]
fn metrics_periods_at_a_fixed_time() {
    let now = Timestamp { seconds: 100 * 86_400, nanos: 0 };
    let txs = vec![tx_at(99 * 86_400, 10), tx_at(10 * 86_400, 30), tx_at(93 * 86_400, 20), tx_at(70 * 86_400, 5)];
    let m = metrics_totals_at(&txs, now);
    assert_eq!(m.all_time.transactions, vec![0, 1, 2, 3]);
    assert_eq!(m.last_7_days.transactions, vec![0, 2]);
    assert_eq!(m.last_30_days.transactions, vec![0, 2, 3]);
    // day 10 is exactly ninety days before day 100, so it belongs to the period
    assert_eq!(m.last_90_days.transactions, vec![0, 1, 2, 3]);
    assert_eq!(m.all_time.max_transaction_fee, 30);
    assert_eq!(m.all_time.max_fee_transaction, Some(1));
    assert_eq!(m.all_time.min_transaction_fee, 5);
    assert_eq!(m.all_time.min_fee_transaction, Some(3));
    assert_eq!(m.first_transaction, Some(Timestamp { seconds: 10 * 86_400, nanos: 0 }));
    assert_eq!(m.last_transaction, Some(Timestamp { seconds: 99 * 86_400, nanos: 0 }));
    assert_eq!(m.all_time_days_span, Some(89));
    // a transaction exactly at the start of a period belongs to it
    let m = metrics_totals_at(&vec![tx_at(93 * 86_400, 1)], now);
    assert_eq!(m.last_7_days.total_transactions, 1);
    // same day: the span is at least one day
    let m = metrics_totals_at(&vec![tx_at(5, 1), tx_at(6, 1)], now);
    assert_eq!(m.all_time_days_span, Some(1));
}

#[test]
fn metrics_minimum_restarts_after_a_zero_fee() {
    let now = Timestamp { seconds: 10 * 86_400, nanos: 0 };
    let m = metrics_totals_at(&vec![tx_at(1, 0), tx_at(2, 7), tx_at(3, 9)], now);
    assert_eq!(m.all_time.min_transaction_fee, 7);
    assert_eq!(m.all_time.min_fee_transaction, Some(1));
}

#[test]
fn u64_parsing_follows_std() {
    for text in ["0", "123", "+5", "", "+", "-1", "12a", "18446744073709551615", "18446744073709551616", " 1", "٣"] {
        assert_eq!(parse_u64(text), text.parse::<u64>().ok(), "{text:?}");
    }
}

#[test]
fn log_lines_are_classified() {
    let (k, c) = classify_log_message("x Total gas coin balance prior to execution: 5000 reservation_id=3");
    assert_eq!(k, LogLineKind::PriorBalance);
    assert_eq!(c.as_deref(), Some("5000"));
    let (k, c) = classify_log_message("Executing transaction: TransactionData { sender: 0xAbC1, gas: 1 }");
    assert_eq!(k, LogLineKind::Sender);
    assert_eq!(c.as_deref(), Some("0xAbC1"));
    let (k, c) = classify_log_message("New gas coin balance after execution: 4000 reservation_id=3");
    assert_eq!(k, LogLineKind::AfterBalance);
    assert_eq!(c.as_deref(), Some("4000"));
    let (k, c) = classify_log_message("After add_new_coins. New total balance: 99");
    assert_eq!(k, LogLineKind::NewTotalBalance);
    assert_eq!(c.as_deref(), Some("99"));
    let (k, c) = classify_log_message("something else");
    assert_eq!(k, LogLineKind::Unrecognised);
    assert_eq!(c, None);
}

#[test]
fn a_log_batch_yields_updates_and_the_fee() {
    let messages = vec![
        "Total gas coin balance prior to execution: 5000 reservation_id=1".to_string(),
        "Executing transaction: data sender: 0xabc".to_string(),
        "After add_new_coins. New total balance: 7000".to_string(),
        "New gas coin balance after execution: 4200 reservation_id=1".to_string(),
        "After add_new_coins. New total balance: 6500".to_string(),
        "unrelated".to_string(),
    ];
    let (scan, updates) = read_log_events(&messages);
    assert_eq!(updates, vec![7000, 6500]);
    assert_eq!((scan.prior, scan.after, scan.new_total_balance), (5000, 4200, 6500));
    let (sender, fee) = fee_to_record(&scan).unwrap();
    assert_eq!(sender, "0xabc");
    assert_eq!(fee, 800);

    let (scan, updates) = read_log_events(&vec!["New gas coin balance after execution: 1 reservation_id=1".to_string()]);
    assert!(updates.is_empty());
    assert!(fee_to_record(&scan).is_none());

    let mut scan = LogScan { prior: 0, after: 0, wallet_address: String::new(), new_total_balance: 0 };
    assert_eq!(scan.step(LogLineKind::NewTotalBalance, Some("99999999999999999999".to_string())), None);
    assert_eq!(scan.new_total_balance, 0);
}

#[test]
fn metrics_do_not_depend_on_the_order_of_transactions() {
    let now = Timestamp { seconds: 100 * 86_400, nanos: 0 };
    let txs = vec![tx_at(99 * 86_400, 10), tx_at(10 * 86_400, 30), tx_at(93 * 86_400, 20), tx_at(70 * 86_400, 5)];
    let reordered = vec![tx_at(70 * 86_400, 5), tx_at(93 * 86_400, 20), tx_at(99 * 86_400, 10), tx_at(10 * 86_400, 30)];
    let a = metrics_totals_at(&txs, now);
    let b = metrics_totals_at(&reordered, now);
    assert_eq!(a.first_transaction, b.first_transaction);
    assert_eq!(a.last_transaction, b.last_transaction);
    for (p, q) in [
        (&a.all_time, &b.all_time),
        (&a.last_7_days, &b.last_7_days),
        (&a.last_30_days, &b.last_30_days),
        (&a.last_90_days, &b.last_90_days),
    ] {
        assert_eq!(
            (p.total_transactions, p.total_sponsored_amount, p.max_transaction_fee, p.min_transaction_fee),
            (q.total_transactions, q.total_sponsored_amount, q.max_transaction_fee, q.min_transaction_fee)
        );
    }
    assert_eq!(a.all_time.min_transaction_fee, 5);
}
