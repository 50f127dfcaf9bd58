use std::collections::HashMap;

use iota_sponsoring_service::client::{Client, ClientEvent};
use iota_sponsoring_service::demo::{
    demo_client_commands, demo_group_commands, evc_ecosystem, generate_random_transactions,
    demo_transactions_from, sort_by_time, surf_ecosystem, tech_partners, DEMO_GROUP_FUNDS, DEMO_MAX_DAYS,
};
use iota_sponsoring_service::client::ClientCommand;
use iota_sponsoring_service::group::{Group, GroupCommand, GroupEvent, Status, Variant};
use iota_sponsoring_service::ids::{is_nil, RANDOM_VERSION_VARIANT, VERSION_VARIANT_MASK};
use iota_sponsoring_service::operations::{
    select_transactions, visible_client_ids, visible_group_ids, GraphQLEndpointService, StatusDto, TransactionFilter,
};
use iota_sponsoring_service::time::Timestamp;
use iota_sponsoring_service::views::{
    sponsor_wallet_view_id_text, ClientListView, ClientView, GroupListView, GroupView, SponsorWalletView,
    SponsorshipTransactionListView,
};

#[test]
fn status_is_shown_and_read_back() {
    for (variant, name) in [(Variant::Action, "action"), (Variant::Warning, "warning"), (Variant::Success, "success")] {
        let dto = StatusDto::from_status(Status { variant });
        assert_eq!(dto.variant, name);
        assert_eq!(dto.into_status(), Status { variant });
    }
    assert_eq!(StatusDto { variant: "unknown".to_string() }.into_status().variant, Variant::Success);
    assert_eq!(StatusDto { variant: "Action".to_string() }.into_status().variant, Variant::Success);
}

#[test]
fn websocket_requests_go_to_subscriptions() {
    let service = GraphQLEndpointService::new(3u8);
    assert_eq!(service.executor, 3);
    assert!(GraphQLEndpointService::<u8>::routes_to_subscription(Some(b"websocket")));
    assert!(!GraphQLEndpointService::<u8>::routes_to_subscription(Some(b"WebSocket")));
    assert!(!GraphQLEndpointService::<u8>::routes_to_subscription(Some(b"h2c")));
    assert!(!GraphQLEndpointService::<u8>::routes_to_subscription(None));
}

fn fee_event(id: u128, client: u128, group: u128, seconds: i64) -> GroupEvent {
    GroupEvent::TransactionFeePaidRecorded {
        sponsorship_transaction_id: id,
        group_id: group,
        client_id: client,
        client_name: "c".to_string(),
        transaction_fee: id as u64,
        transaction_fee_iot_bits: 0,
        transaction_fee_eur_bits: 0,
        transaction_fee_usd_bits: 0,
        new_balance: 0,
        timestamp: Timestamp { seconds, nanos: 0 },
    }
}

#[test]
fn transactions_are_selected_newest_first() {
    let mut list = SponsorshipTransactionListView::default();
    list.update(&fee_event(1, 10, 100, 50));
    list.update(&fee_event(2, 11, 100, 70));
    list.update(&fee_event(3, 10, 101, 60));
    list.update(&fee_event(4, 12, 101, 10));
    let (ids, records) = select_transactions(&list, TransactionFilter::All);
    assert_eq!(ids, vec![2, 3, 1, 4]);
    assert_eq!(records.iter().map(|r| r.sponsorship_transaction_id).collect::<Vec<_>>(), vec![2, 3, 1, 4]);
    let (ids, _) = select_transactions(&list, TransactionFilter::OfClient { client_id: 10 });
    assert_eq!(ids, vec![3, 1]);
    let (ids, _) = select_transactions(&list, TransactionFilter::OfGroup { group_id: 101 });
    assert_eq!(ids, vec![3, 4]);
    let (ids, _) = select_transactions(
        &list,
        TransactionFilter::Between { start: Timestamp { seconds: 50, nanos: 0 }, end: Timestamp { seconds: 60, nanos: 0 } },
    );
    assert_eq!(ids, vec![3, 1]);
}

#[test]
fn only_live_clients_and_groups_are_listed() {
    let mut clients = HashMap::new();
    for (id, removed) in [(1u128, false), (2, true), (3, false)] {
        let mut c = Client::default();
        c.apply(ClientEvent::ClientRegistered {
            client_id: id,
            name: "n".to_string(),
            logo_uri: None,
            website_uri: None,
            wallet_address: "a".to_string(),
        });
        if removed {
            c.apply(ClientEvent::ClientRemoved { client_id: id, group_id: None, is_deleted: true });
        }
        let view = ClientView::new(c);
        assert_eq!(view.is_visible(), !removed);
        clients.insert(id, view);
    }
    let mut ids = visible_client_ids(&ClientListView::new(clients));
    ids.sort();
    assert_eq!(ids, vec![1, 3]);

    let mut groups = HashMap::new();
    let mut g = Group::default();
    g.apply(GroupEvent::GroupCreated { group_id: 5, name: "g".to_string(), logo_uri: None });
    groups.insert(5, GroupView::new(g));
    let mut d = Group::default();
    d.apply(GroupEvent::GroupDeleted { group_id: 6, is_deleted: true });
    let dv = GroupView::new(d);
    assert!(!dv.is_visible());
    groups.insert(6, dv);
    assert_eq!(visible_group_ids(&GroupListView::new(groups)), vec![5]);
}

#[test]
fn views_wrap_their_state() {
    let w = SponsorWalletView::default();
    assert_eq!(w.into_inner().balance, 0);
    assert_eq!(sponsor_wallet_view_id_text(), "sponsor-wallet");
    let mut v = GroupView::default();
    v.update(&GroupEvent::GroupCreated { group_id: 9, name: "n".to_string(), logo_uri: None });
    assert_eq!(v.into_inner().group_id, 9);
}

#[test]
fn identifiers() {
    assert!(is_nil(0));
    assert!(!is_nil(1));
    // a recorded transaction gets a fresh random identifier
    let mut g = Group::default();
    g.apply(GroupEvent::GroupCreated { group_id: 9, name: "g".to_string(), logo_uri: None });
    let record = |g: &Group| match g.handle(GroupCommand::RecordTransactionFeePaidForDemo {
        client_id: 1,
        client_name: "c".to_string(),
        transaction_fee: 5,
        transaction_fee_iot_bits: 0,
        transaction_fee_eur_bits: 0,
        transaction_fee_usd_bits: 0,
        timestamp: Timestamp { seconds: 10, nanos: 0 },
    }) {
        Ok(events) => match &events[0] {
            GroupEvent::TransactionFeePaidRecorded { sponsorship_transaction_id, .. } => *sponsorship_transaction_id,
            other => panic!("unexpected event {other:?}"),
        },
        Err(e) => panic!("refused: {e:?}"),
    };
    let id = record(&g);
    assert_eq!(id & VERSION_VARIANT_MASK, RANDOM_VERSION_VARIANT);
    assert_eq!(uuid::Uuid::from_u128(id).get_version_num(), 4);
    assert!(!is_nil(id));
    assert_ne!(id, record(&g));
}

#[test]
fn demo_ecosystems() {
    let e = evc_ecosystem();
    assert_eq!(e.name, "EVC Ecosystem");
    assert_eq!(e.clients.len(), 3);
    assert_eq!(e.clients[1].name, "Libereaux");
    assert_eq!(e.clients[2].since_days, 30);
    assert_eq!(surf_ecosystem().clients[0].wallet_address, "0xdemoaddressD");
    assert_eq!(tech_partners().clients[2].name, "TWIN Foundation");
    let (id, cs) = demo_group_commands(&e);
    assert_eq!(id, uuid::Uuid::new_v5(&uuid::Uuid::NAMESPACE_DNS, b"EVC Ecosystem").as_u128());
    assert_eq!(id, demo_group_commands(&evc_ecosystem()).0);
    assert_ne!(id, demo_group_commands(&surf_ecosystem()).0);
    assert!(matches!(cs[0], GroupCommand::CreateGroup { group_id, .. } if group_id == id));
    assert!(matches!(cs[1], GroupCommand::AllocateFundsToGroup { amount: DEMO_GROUP_FUNDS, .. }));
    let (register, assign, add) = demo_client_commands(&e.clients[0], 77, id);
    assert!(matches!(register, ClientCommand::RegisterClient { client_id: 77, .. }));
    assert!(matches!(assign, ClientCommand::AssignClientToGroup { group_id } if group_id == id));
    assert!(matches!(add, GroupCommand::AddClientToGroup { client_id: 77 }));
}

#[test]
fn demo_transactions_are_in_range_and_ordered() {
    let txs = generate_random_transactions(50, 90);
    assert_eq!(txs.len(), 50);
    let now = chrono::Utc::now().timestamp();
    for w in txs.windows(2) {
        assert!((w[0].0.seconds, w[0].0.nanos) <= (w[1].0.seconds, w[1].0.nanos));
    }
    for (t, fee) in &txs {
        assert!((1_000_000..=10_000_000).contains(fee));
        assert!(t.seconds <= now && t.seconds >= now - 90 * 86_400 - 5);
    }
    let sorted = sort_by_time(vec![
        (Timestamp { seconds: 3, nanos: 0 }, 1),
        (Timestamp { seconds: 1, nanos: 5 }, 2),
        (Timestamp { seconds: 1, nanos: 2 }, 3),
    ]);
    assert_eq!(sorted.iter().map(|x| x.1).collect::<Vec<_>>(), vec![3, 2, 1]);
    // the longest period is accepted; its transactions lie up to that many days back
    let far = generate_random_transactions(20, DEMO_MAX_DAYS);
    assert_eq!(far.len(), 20);
    for (t, _) in &far {
        assert!(t.seconds <= now + 5 && t.seconds >= now - DEMO_MAX_DAYS as i64 * 86_400);
    }
}

#[test]
fn demo_transactions_follow_the_drawn_values() {
    let now = Timestamp { seconds: 1_000_000, nanos: 7 };
    let txs = demo_transactions_from(now, &vec![10, 0, 500, 10], &vec![4, 5, 6, 7]);
    assert_eq!(
        txs,
        vec![
            (Timestamp { seconds: 999_500, nanos: 7 }, 6),
            (Timestamp { seconds: 999_990, nanos: 7 }, 4),
            (Timestamp { seconds: 999_990, nanos: 7 }, 7),
            (Timestamp { seconds: 1_000_000, nanos: 7 }, 5),
        ]
    );
    assert_eq!(demo_transactions_from(now, &vec![], &vec![]), vec![]);
    // an offset beyond i64::MAX is still counted back exactly
    let late = Timestamp { seconds: 10, nanos: 0 };
    let txs = demo_transactions_from(late, &vec![(i64::MAX as u64) + 5], &vec![1]);
    assert_eq!(txs[0].0.seconds, i64::MIN + 6);
}

#[test]
fn day_numbers_round_towards_the_past() {
    assert_eq!(Timestamp { seconds: 0, nanos: 0 }.day_number(), 0);
    assert_eq!(Timestamp { seconds: 86_399, nanos: 0 }.day_number(), 0);
    assert_eq!(Timestamp { seconds: -1, nanos: 0 }.day_number(), -1);
    assert_eq!(Timestamp { seconds: -86_400, nanos: 0 }.day_number(), -1);
    assert_eq!(Timestamp { seconds: 10, nanos: 3 }.days_earlier(1), Timestamp { seconds: 10 - 86_400, nanos: 3 });
    assert!(Timestamp { seconds: 1, nanos: 9 }.is_at_or_before(&Timestamp { seconds: 2, nanos: 0 }));
    assert!(!Timestamp { seconds: 2, nanos: 1 }.is_at_or_before(&Timestamp { seconds: 2, nanos: 0 }));
    let now = Timestamp { seconds: 1_700_000_000, nanos: 5 };
    for days in [0, 7, 30, 90] {
        assert!(now.days_earlier(days).is_at_or_before(&now));
    }
}
