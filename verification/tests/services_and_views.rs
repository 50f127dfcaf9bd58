use std::collections::HashMap;

use iota_sponsoring_service::client::{Client, ClientCommand, ClientEvent};
use iota_sponsoring_service::group::{Group, GroupCommand, GroupEvent};
use iota_sponsoring_service::services::{
    allocated_balance, authorize_with_group_balance, check_allocation, choose_registration,
    client_update_commands, clients_to_unlink, decode_transaction_bytes, find_client_by_wallet_address, group_update_commands,
    paying_group, plan_client_removal, plan_fee_recording, register_command, registration_commands, registration_details,
    sponsor_wallet_update_commands, sponsoring_configuration_url, ClientRegistration, ClientRemovalPlan,
    IotaGasStationClientData, RegistrationDetails, ServiceError,
};
use iota_sponsoring_service::sponsor_wallet::SponsorWalletCommand;
use iota_sponsoring_service::time::Timestamp;
use iota_sponsoring_service::views::{
    ClientListView, ClientView, GroupListView, GroupView, SponsorshipTransactionListView,
    SponsorshipTransactionView,
};

fn client(id: u128, address: &str, group: Option<u128>) -> ClientView {
    let mut c = Client::default();
    c.apply(ClientEvent::ClientRegistered {
        client_id: id,
        name: format!("client {id}"),
        logo_uri: None,
        website_uri: None,
        wallet_address: address.to_string(),
    });
    if let Some(g) = group {
        c.apply(ClientEvent::ClientAssignedToGroup { client_id: id, group_id: g });
    }
    ClientView::new(c)
}

fn group(id: u128, balance: u64) -> GroupView {
    let mut g = Group::default();
    g.apply(GroupEvent::GroupCreated { group_id: id, name: "g".to_string(), logo_uri: None });
    g.apply(GroupEvent::FundsAllocatedToGroup { group_id: id, amount: balance });
    GroupView::new(g)
}

fn client_list() -> ClientListView {
    let mut m = HashMap::new();
    m.insert(1, client(1, "0xa", Some(10)));
    m.insert(2, client(2, "0xb", None));
    m.insert(3, client(3, "0xc", Some(10)));
    m.insert(4, client(4, "0xd", Some(11)));
    ClientListView::new(m)
}

fn group_list() -> GroupListView {
    let mut m = HashMap::new();
    m.insert(10, group(10, 300));
    m.insert(11, group(11, 200));
    GroupListView::new(m)
}

#[test]
fn list_views_start_entries_from_the_initial_state() {
    let mut clients = ClientListView::default();
    clients.update(
        9,
        &ClientEvent::ClientRegistered {
            client_id: 9,
            name: "n".to_string(),
            logo_uri: None,
            website_uri: None,
            wallet_address: "0x9".to_string(),
        },
    );
    clients.update(9, &ClientEvent::ClientNameUpdated { name: "m".to_string() });
    let m = clients.into_inner();
    assert_eq!(m.len(), 1);
    assert_eq!(m[&9].inner().name, "m");

    let mut groups = GroupListView::default();
    groups.update(4, &GroupEvent::GroupCreated { group_id: 4, name: "x".to_string(), logo_uri: None });
    groups.update(4, &GroupEvent::FundsAllocatedToGroup { group_id: 4, amount: 8 });
    groups.update(5, &GroupEvent::FundsAllocatedToGroup { group_id: 5, amount: 3 });
    let m = groups.into_inner();
    assert_eq!(m[&4].inner().balance, 8);
    assert_eq!(m[&5].inner().balance, 3);
    assert_eq!(m[&5].inner().group_id, 0);
}

#[test]
fn transaction_list_keeps_fee_events_only() {
    let mut list = SponsorshipTransactionListView::default();
    let fee = GroupEvent::TransactionFeePaidRecorded {
        sponsorship_transaction_id: 77,
        group_id: 1,
        client_id: 2,
        client_name: "c".to_string(),
        transaction_fee: 5,
        transaction_fee_iot_bits: 6,
        transaction_fee_eur_bits: 7,
        transaction_fee_usd_bits: 8,
        new_balance: 9,
        timestamp: Timestamp { seconds: 100, nanos: 1 },
    };
    list.update(&fee);
    list.update(&fee);
    list.update(&GroupEvent::GroupNameUpdated { name: "x".to_string() });
    let m = list.into_inner();
    assert_eq!(m.len(), 1);
    let t = &m[&77];
    assert_eq!((t.group_id, t.client_id, t.transaction_fee), (1, 2, 5));
    assert_eq!(t.client_name, "c");
    assert_eq!(t.timestamp, Timestamp { seconds: 100, nanos: 1 });

    let mut single = SponsorshipTransactionView::default();
    single.update(&GroupEvent::GroupNameUpdated { name: "x".to_string() });
    assert_eq!(single.sponsorship_transaction_id, 0);
    single.update(&fee);
    assert_eq!(single.transaction_fee_usd_bits, 8);
}

#[test]
fn allocation_is_checked_against_allocated_total() {
    let groups = group_list();
    assert_eq!(allocated_balance(&groups), 500);
    assert_eq!(check_allocation(600, &groups, 100), Ok(()));
    assert_eq!(
        check_allocation(599, &groups, 100),
        Err(ServiceError::InsufficientSponsorBalance { available: 599, requested: 100 })
    );
    assert_eq!(allocated_balance(&GroupListView::default()), 0);
    assert!(check_allocation(u64::MAX, &GroupListView::default(), u64::MAX).is_ok());
}

#[test]
fn clients_are_found_by_wallet_address() {
    let clients = client_list();
    let found = find_client_by_wallet_address(&clients, &"0xc".to_string()).unwrap();
    assert_eq!(found.inner().client_id, 3);
    assert!(find_client_by_wallet_address(&clients, &"0xz".to_string()).is_none());
}

#[test]
fn fee_recording_targets_the_senders_group() {
    let clients = client_list();
    match plan_fee_recording(&clients, &"0xa".to_string(), 500, 1, 2, 3) {
        Ok(Some((g, GroupCommand::RecordTransactionFeePaid { client_id, client_name, transaction_fee, transaction_fee_usd_bits, .. }))) => {
            assert_eq!(g, 10);
            assert_eq!(client_id, 1);
            assert_eq!(client_name, "client 1");
            assert_eq!(transaction_fee, 500);
            assert_eq!(transaction_fee_usd_bits, 3);
        }
        _ => panic!("expected a fee command"),
    }
    assert!(matches!(plan_fee_recording(&clients, &"0xb".to_string(), 5, 0, 0, 0), Ok(None)));
    assert!(matches!(
        plan_fee_recording(&clients, &"0xq".to_string(), 5, 0, 0, 0),
        Err(ServiceError::ClientNotFoundForAddress)
    ));
}

#[test]
fn authorization_needs_a_group_with_balance() {
    let clients = client_list();
    assert_eq!(paying_group(&clients, &"0xd".to_string()), Ok(11));
    assert_eq!(paying_group(&clients, &"0xb".to_string()), Err(ServiceError::ClientNotInGroup { client_id: 2 }));
    assert_eq!(paying_group(&clients, &"0x0".to_string()), Err(ServiceError::ClientNotFoundForAddress));
    assert_eq!(authorize_with_group_balance(11, 200, 200), Ok(()));
    assert_eq!(
        authorize_with_group_balance(11, 199, 200),
        Err(ServiceError::InsufficientGroupBalance { group_id: 11, available: 199, required: 200 })
    );
}

#[test]
fn deleting_a_group_unlinks_its_members() {
    let clients = client_list();
    let mut ids = clients_to_unlink(&clients, 10);
    ids.sort();
    assert_eq!(ids, vec![1, 3]);
    assert!(clients_to_unlink(&clients, 99).is_empty());
}

#[test]
fn removal_plans() {
    let c = client(1, "0xa", Some(10));
    assert_eq!(plan_client_removal(Some(&c)), ClientRemovalPlan::Remove { leave_group: Some(10) });
    let c = client(2, "0xb", None);
    assert_eq!(plan_client_removal(Some(&c)), ClientRemovalPlan::Remove { leave_group: None });
    assert_eq!(plan_client_removal(None), ClientRemovalPlan::NothingToRemove);
}

#[test]
fn registration_choice() {
    let r = choose_registration(
        Some("n".to_string()),
        Some("0x1".to_string()),
        None,
        Some("https://c.example/".to_string()),
        Some(3),
    );
    assert!(matches!(r, Ok(ClientRegistration::FromWebsiteUrl { ref website_uri, group_id: Some(3) }) if website_uri == "https://c.example/"));
    let r = choose_registration(Some("n".to_string()), Some("0x1".to_string()), Some("https://l/".to_string()), None, None);
    match r {
        Ok(ClientRegistration::Explicit { name, wallet_address, logo_uri, website_uri, group_id }) => {
            assert_eq!(name, "n");
            assert_eq!(wallet_address, "0x1");
            assert_eq!(logo_uri.as_deref(), Some("https://l/"));
            assert_eq!(website_uri, None);
            assert_eq!(group_id, None);
        }
        _ => panic!("expected explicit registration"),
    }
    let r = choose_registration(Some("n".to_string()), None, None, None, None);
    assert!(matches!(r, Err(ServiceError::MissingRegistrationDetails)));
}

#[test]
fn registration_details_and_command() {
    let published = IotaGasStationClientData {
        name: "Pub".to_string(),
        logo_uri: Some("https://p/logo".to_string()),
        iota_address: "0xp".to_string(),
    };
    let reg = ClientRegistration::FromWebsiteUrl { website_uri: "https://p/".to_string(), group_id: Some(4) };
    let d = registration_details(reg, Some(published)).unwrap();
    assert_eq!(d.name, "Pub");
    assert_eq!(d.wallet_address, "0xp");
    assert_eq!(d.website_uri.as_deref(), Some("https://p/"));
    assert_eq!(d.group_id, Some(4));
    let reg = ClientRegistration::FromWebsiteUrl { website_uri: "https://p/".to_string(), group_id: None };
    assert!(registration_details(reg, None).is_none());
    match register_command(12, d) {
        ClientCommand::RegisterClient { client_id, name, wallet_address, .. } => {
            assert_eq!(client_id, 12);
            assert_eq!(name, "Pub");
            assert_eq!(wallet_address, "0xp");
        }
        _ => panic!("expected a registration"),
    }
}

#[test]
fn sponsoring_configuration_location() {
    assert_eq!(
        sponsoring_configuration_url(&"https://client.example/some/page".to_string()).as_deref(),
        Some("https://client.example/.well-known/sponsoring-configuration")
    );
    assert_eq!(sponsoring_configuration_url(&"not a url".to_string()), None);
}

#[test]
fn update_requests_become_commands_in_order() {
    let cs = group_update_commands(Some("n".to_string()), Some(None));
    assert_eq!(cs.len(), 2);
    assert!(matches!(cs[0], GroupCommand::UpdateGroupName { .. }));
    assert!(matches!(cs[1], GroupCommand::UpdateGroupLogoUri { logo_uri: None }));
    assert!(group_update_commands(None, None).is_empty());
    let cs = client_update_commands(None, Some(None), Some(Some("w".to_string())), Some("0x2".to_string()));
    assert_eq!(cs.len(), 3);
    assert!(matches!(cs[0], ClientCommand::UpdateClientLogoUri { logo_uri: None }));
    assert!(matches!(cs[1], ClientCommand::UpdateClientWebsiteUri { website_uri: Some(_) }));
    assert!(matches!(cs[2], ClientCommand::UpdateClientWalletAddress { .. }));
    let cs = sponsor_wallet_update_commands(Some("m".to_string()), None);
    assert_eq!(cs.len(), 1);
    assert!(matches!(cs[0], SponsorWalletCommand::UpdateSponsorWalletName { .. }));
}

#[test]
fn transaction_bytes_are_standard_base64() {
    assert_eq!(decode_transaction_bytes(&"AQID".to_string()), Ok(vec![1u8, 2, 3]));
    assert_eq!(decode_transaction_bytes(&"aGVsbG8=".to_string()), Ok(b"hello".to_vec()));
    assert_eq!(decode_transaction_bytes(&"".to_string()), Ok(vec![]));
    assert_eq!(
        decode_transaction_bytes(&"not base64!".to_string()),
        Err(ServiceError::InvalidTransactionEncoding)
    );
    // padding is required by the standard engine
    assert_eq!(decode_transaction_bytes(&"aGVsbG8".to_string()), Err(ServiceError::InvalidTransactionEncoding));
}

#[test]
fn client_list_agrees_with_client_views() {
    let events = vec![
        ClientEvent::ClientRegistered {
            client_id: 5,
            name: "five".to_string(),
            logo_uri: Some("https://five.example/logo.png".to_string()),
            website_uri: None,
            wallet_address: "0x5".to_string(),
        },
        ClientEvent::ClientAssignedToGroup { client_id: 5, group_id: 9 },
        ClientEvent::ClientNameUpdated { name: "FIVE".to_string() },
        ClientEvent::ClientRemovedFromGroup { client_id: 5, group_id: None },
    ];
    let mut list = ClientListView::default();
    list.update(6, &ClientEvent::ClientNameUpdated { name: "six".to_string() });
    let mut view = ClientView::default();
    for e in &events {
        list.update(5, e);
        view.update(e);
        let entry = list.entries()[&5].inner();
        let single = view.inner();
        assert_eq!(
            (entry.client_id, &entry.name, &entry.logo_uri, &entry.wallet_address, entry.group_id),
            (single.client_id, &single.name, &single.logo_uri, &single.wallet_address, single.group_id)
        );
        assert_eq!(list.entries()[&6].inner().name, "six");
    }
    assert_eq!(view.inner().name, "FIVE");
    assert_eq!(view.inner().group_id, None);
}

#[test]
fn unlinking_leaves_no_client_in_the_deleted_group() {
    let mut clients = client_list();
    for id in clients_to_unlink(&clients, 10) {
        let client = clients.entries()[&id].inner().clone();
        let events = client.handle(ClientCommand::RemoveClientFromGroup).unwrap();
        for e in &events {
            clients.update(id, e);
        }
    }
    let m = clients.into_inner();
    assert_eq!(m.len(), 4);
    assert!(m.values().all(|c| c.inner().group_id != Some(10)));
    assert_eq!(m[&4].inner().group_id, Some(11));
    assert_eq!(m[&1].inner().wallet_address, "0xa");
}

fn details(group_id: Option<u128>) -> RegistrationDetails {
    RegistrationDetails {
        name: "n".to_string(),
        wallet_address: "0x1".to_string(),
        logo_uri: None,
        website_uri: Some("https://n.example/".to_string()),
        group_id,
    }
}

#[test]
fn registration_commands_join_the_group_only_where_it_exists() {
    let (register, membership) = registration_commands(7, details(None), false).unwrap();
    assert!(matches!(register, ClientCommand::RegisterClient { client_id: 7, ref name, .. } if name == "n"));
    assert!(membership.is_none());
    let (register, membership) = registration_commands(7, details(Some(3)), true).unwrap();
    assert!(matches!(register, ClientCommand::RegisterClient { client_id: 7, ref website_uri, .. }
        if website_uri.as_deref() == Some("https://n.example/")));
    let (assign, add) = membership.unwrap();
    assert!(matches!(assign, ClientCommand::AssignClientToGroup { group_id: 3 }));
    assert!(matches!(add, GroupCommand::AddClientToGroup { client_id: 7 }));
    assert!(matches!(
        registration_commands(7, details(Some(3)), false),
        Err(ServiceError::GroupNotFoundForRegistration { client_id: 7, group_id: 3 })
    ));
}
