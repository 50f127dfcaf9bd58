use iota_sponsoring_service::client::{Client, ClientCommand, ClientError, ClientEvent};
use iota_sponsoring_service::group::{
    Group, GroupCommand, GroupError, GroupEvent, Status, Variant,
};
use iota_sponsoring_service::ids::{RANDOM_VERSION_VARIANT, VERSION_VARIANT_MASK};
use iota_sponsoring_service::sponsor_wallet::{
    SponsorWallet, SponsorWalletCommand, SponsorWalletError, SponsorWalletEvent,
};
use iota_sponsoring_service::time::Timestamp;

fn registered_client(id: u128) -> Client {
    let mut c = Client::default();
    let events = c
        .handle(ClientCommand::RegisterClient {
            client_id: id,
            name: "Acme".to_string(),
            logo_uri: Some("https://acme.example/logo.png".to_string()),
            website_uri: None,
            wallet_address: "0xabc".to_string(),
        })
        .unwrap();
    c.apply_all(&events);
    c
}

fn created_group(id: u128) -> Group {
    let mut g = Group::default();
    let events = g
        .handle(GroupCommand::CreateGroup { group_id: id, name: "Team".to_string(), logo_uri: None })
        .unwrap();
    g.apply_all(&events);
    g
}

#[test]
fn client_registration_sets_details() {
    let c = registered_client(7);
    assert_eq!(c.client_id, 7);
    assert_eq!(c.name, "Acme");
    assert_eq!(c.logo_uri.as_deref(), Some("https://acme.example/logo.png"));
    assert_eq!(c.wallet_address, "0xabc");
    assert_eq!(c.group_id, None);
    assert!(!c.is_deleted);
}

#[test]
fn client_second_registration_is_refused() {
    let c = registered_client(7);
    let r = c.handle(ClientCommand::RegisterClient {
        client_id: 8,
        name: "Other".to_string(),
        logo_uri: None,
        website_uri: None,
        wallet_address: "0xdef".to_string(),
    });
    assert_eq!(r.unwrap_err(), ClientError::ClientAlreadyExists);
}

#[test]
fn client_commands_before_registration_are_refused() {
    let c = Client::default();
    let r = c.handle(ClientCommand::UpdateClientName { name: "X".to_string() });
    assert_eq!(r.unwrap_err(), ClientError::ClientNotFound);
    let r = c.handle(ClientCommand::RemoveClientFromGroup);
    assert_eq!(r.unwrap_err(), ClientError::ClientNotFound);
}

#[test]
fn client_updates_apply() {
    let mut c = registered_client(7);
    for cmd in [
        ClientCommand::UpdateClientName { name: "Acme B.V.".to_string() },
        ClientCommand::UpdateClientLogoUri { logo_uri: None },
        ClientCommand::UpdateClientWebsiteUri { website_uri: Some("https://acme.example/".to_string()) },
        ClientCommand::UpdateClientWalletAddress { wallet_address: "0x123".to_string() },
    ] {
        let events = c.handle(cmd).unwrap();
        assert_eq!(events.len(), 1);
        c.apply_all(&events);
    }
    assert_eq!(c.name, "Acme B.V.");
    assert_eq!(c.logo_uri, None);
    assert_eq!(c.website_uri.as_deref(), Some("https://acme.example/"));
    assert_eq!(c.wallet_address, "0x123");
}

#[test]
fn client_group_assignment_and_removal() {
    let mut c = registered_client(7);
    let events = c.handle(ClientCommand::AssignClientToGroup { group_id: 42 }).unwrap();
    match &events[0] {
        ClientEvent::ClientAssignedToGroup { client_id, group_id } => {
            assert_eq!(*client_id, 7);
            assert_eq!(*group_id, 42);
        }
        _ => panic!("unexpected event"),
    }
    c.apply_all(&events);
    assert_eq!(c.group_id, Some(42));
    let events = c.handle(ClientCommand::RemoveClientFromGroup).unwrap();
    c.apply_all(&events);
    assert_eq!(c.group_id, None);
}

#[test]
fn client_removal_resets_state() {
    let mut c = registered_client(7);
    let events = c.handle(ClientCommand::AssignClientToGroup { group_id: 42 }).unwrap();
    c.apply_all(&events);
    let events = c.handle(ClientCommand::RemoveClient { client_id: 7 }).unwrap();
    match &events[0] {
        ClientEvent::ClientRemoved { client_id, group_id, is_deleted } => {
            assert_eq!(*client_id, 7);
            assert_eq!(*group_id, Some(42));
            assert!(*is_deleted);
        }
        _ => panic!("unexpected event"),
    }
    c.apply_all(&events);
    assert_eq!(c.client_id, 0);
    assert_eq!(c.name, "");
    assert_eq!(c.group_id, None);
    assert!(c.is_deleted);
}

#[test]
fn client_withdrawal_needs_balance() {
    let c = registered_client(7);
    let r = c.handle(ClientCommand::WithdrawBalanceFromClient { amount: 1 });
    assert_eq!(r.unwrap_err(), ClientError::InsufficientBalance);
    let r = c.handle(ClientCommand::WithdrawBalanceFromClient { amount: 0 }).unwrap();
    assert!(matches!(r[0], ClientEvent::BalanceWithdrawnFromClient { client_id: 7, amount: 0 }));
    assert!(!r[0].can_be_applied());
    let r = c.handle(ClientCommand::AllocateBalanceToClient { amount: 5 }).unwrap();
    assert!(matches!(r[0], ClientEvent::BalanceAllocatedToClient { client_id: 7, amount: 5 }));
}

#[test]
fn client_texts() {
    assert_eq!(Client::aggregate_type(), "client");
    assert_eq!(ClientError::ClientAlreadyExists.message(), "Client already exists");
    assert_eq!(ClientError::ClientNotFound.message(), "Client not found");
    assert_eq!(ClientError::InsufficientBalance.message(), "Insufficient balance for withdrawal");
    let e = ClientEvent::ClientNameUpdated { name: "n".to_string() };
    assert_eq!(e.event_type(), "ClientNameUpdated");
    assert_eq!(e.event_version(), "1");
}

#[test]
fn group_creation_and_refusals() {
    let g = created_group(5);
    assert_eq!(g.group_id, 5);
    assert_eq!(g.name, "Team");
    assert_eq!(g.balance, 0);
    assert!(g.members.is_empty());
    assert_eq!(g.status, Status { variant: Variant::Success });
    let r = g.handle(GroupCommand::CreateGroup { group_id: 6, name: "x".to_string(), logo_uri: None });
    assert_eq!(r.unwrap_err(), GroupError::GroupAlreadyExists);
    let fresh = Group::default();
    let r = fresh.handle(GroupCommand::UpdateGroupName { name: "x".to_string() });
    assert_eq!(r.unwrap_err(), GroupError::GroupNotFound);
}

#[test]
fn group_funds_allocation_and_withdrawal() {
    let mut g = created_group(5);
    let events = g.handle(GroupCommand::AllocateFundsToGroup { group_id: 5, amount: 1000 }).unwrap();
    g.apply_all(&events);
    assert_eq!(g.balance, 1000);
    let r = g.handle(GroupCommand::WithdrawFundsFromGroup { group_id: 5, amount: 1001 });
    assert_eq!(r.unwrap_err(), GroupError::InsufficientBalance);
    let events = g.handle(GroupCommand::WithdrawFundsFromGroup { group_id: 5, amount: 400 }).unwrap();
    g.apply_all(&events);
    assert_eq!(g.balance, 600);
    // an allocation beyond the largest balance saturates
    let events = g.handle(GroupCommand::AllocateFundsToGroup { group_id: 5, amount: u64::MAX }).unwrap();
    g.apply_all(&events);
    assert_eq!(g.balance, u64::MAX);
}

#[test]
fn group_fee_recording_charges_the_fee_paid() {
    let mut g = created_group(5);
    let events = g.handle(GroupCommand::AllocateFundsToGroup { group_id: 5, amount: 2_500_000 }).unwrap();
    g.apply_all(&events);
    let events = g
        .handle(GroupCommand::RecordTransactionFeePaid {
            client_id: 7,
            client_name: "Acme".to_string(),
            transaction_fee: 1_000_123,
            transaction_fee_iot_bits: 1,
            transaction_fee_eur_bits: 2,
            transaction_fee_usd_bits: 3,
        })
        .unwrap();
    match &events[0] {
        GroupEvent::TransactionFeePaidRecorded {
            sponsorship_transaction_id,
            group_id,
            client_id,
            transaction_fee,
            new_balance,
            transaction_fee_eur_bits,
            timestamp,
            ..
        } => {
            assert_ne!(*sponsorship_transaction_id, 0);
            assert_eq!(*sponsorship_transaction_id & VERSION_VARIANT_MASK, RANDOM_VERSION_VARIANT);
            assert_eq!(*group_id, 5);
            assert_eq!(*client_id, 7);
            assert_eq!(*transaction_fee, 1_000_123);
            assert_eq!(*new_balance, 1_499_877);
            assert_eq!(*transaction_fee_eur_bits, 2);
            assert!(timestamp.seconds > 1_600_000_000);
        }
        _ => panic!("unexpected event"),
    }
    g.apply_all(&events);
    assert_eq!(g.balance, 1_499_877);
    // a fee of nothing charges nothing; a fee above the balance empties it
    for (fee, left) in [(0u64, 1_499_877u64), (2_000_000, 0), (5, 0)] {
        let events = g
            .handle(GroupCommand::RecordTransactionFeePaid {
                client_id: 7,
                client_name: "Acme".to_string(),
                transaction_fee: fee,
                transaction_fee_iot_bits: 0,
                transaction_fee_eur_bits: 0,
                transaction_fee_usd_bits: 0,
            })
            .unwrap();
        g.apply_all(&events);
        assert_eq!(g.balance, left);
    }
}

#[test]
fn group_demo_fee_keeps_balance() {
    let mut g = created_group(5);
    let events = g.handle(GroupCommand::AllocateFundsToGroup { group_id: 5, amount: 10 }).unwrap();
    g.apply_all(&events);
    let at = Timestamp { seconds: 1_700_000_000, nanos: 5 };
    let events = g
        .decide_with(
            GroupCommand::RecordTransactionFeePaidForDemo {
                client_id: 7,
                client_name: "Acme".to_string(),
                transaction_fee: 4_000_000,
                transaction_fee_iot_bits: 0,
                transaction_fee_eur_bits: 0,
                transaction_fee_usd_bits: 0,
                timestamp: at,
            },
            99,
            Timestamp { seconds: 1, nanos: 0 },
        )
        .unwrap();
    match &events[0] {
        GroupEvent::TransactionFeePaidRecorded { sponsorship_transaction_id, transaction_fee, new_balance, timestamp, .. } => {
            assert_eq!(*sponsorship_transaction_id, 99);
            assert_eq!(*transaction_fee, 4_000_000);
            assert_eq!(*new_balance, 10);
            assert_eq!(*timestamp, at);
        }
        _ => panic!("unexpected event"),
    }
}

#[test]
fn group_membership_and_deletion() {
    let mut g = created_group(5);
    for id in [1u128, 2, 3] {
        let events = g.handle(GroupCommand::AddClientToGroup { client_id: id }).unwrap();
        g.apply_all(&events);
    }
    let events = g.handle(GroupCommand::RemoveClientFromGroup { client_id: 2 }).unwrap();
    g.apply_all(&events);
    assert!(g.members.contains(&1) && !g.members.contains(&2) && g.members.contains(&3));
    let events = g.handle(GroupCommand::UpdateGroupStatus { status: Status { variant: Variant::Warning } }).unwrap();
    g.apply_all(&events);
    assert_eq!(g.status.variant, Variant::Warning);
    let events = g.handle(GroupCommand::DeleteGroup { group_id: 5 }).unwrap();
    g.apply_all(&events);
    assert!(g.is_deleted);
    assert_eq!(g.group_id, 0);
    assert!(g.members.is_empty());
    assert_eq!(g.status.variant, Variant::Success);
    // the identifier is free again
    assert!(g.handle(GroupCommand::CreateGroup { group_id: 5, name: "Again".to_string(), logo_uri: None }).is_ok());
}

#[test]
fn group_texts() {
    assert_eq!(Group::aggregate_type(), "group");
    assert_eq!(GroupError::GroupNotFound.message(), "Group not found");
    assert_eq!(GroupError::GroupAlreadyExists.message(), "Group already exists");
    assert_eq!(
        GroupError::InsufficientBalance.message(),
        "Insufficient balance in group for the requested operation"
    );
    let e = GroupEvent::FundsAllocatedToGroup { group_id: 1, amount: 2 };
    assert_eq!(e.event_type(), "FundsAllocatedToGroup");
    assert_eq!(e.event_version(), "1");
}

#[test]
fn sponsor_wallet_lifecycle() {
    let mut w = SponsorWallet::default();
    assert_eq!(
        w.handle(SponsorWalletCommand::RecordBalanceUpdate { new_balance: 1 }).unwrap_err(),
        SponsorWalletError::SponsorWalletNotFound
    );
    let events = w
        .handle(SponsorWalletCommand::CreateSponsorWallet {
            sponsor_wallet_id: "sponsor-wallet".to_string(),
            address: "0xfeed".to_string(),
            balance: 0,
        })
        .unwrap();
    for e in events {
        w.apply(e);
    }
    assert_eq!(w.address, "0xfeed");
    assert_eq!(
        w.handle(SponsorWalletCommand::CreateSponsorWallet {
            sponsor_wallet_id: "x".to_string(),
            address: "y".to_string(),
            balance: 0,
        })
        .unwrap_err(),
        SponsorWalletError::SponsorWalletAlreadyExists
    );
    for cmd in [
        SponsorWalletCommand::RecordBalanceUpdate { new_balance: 77 },
        SponsorWalletCommand::UpdateSponsorWalletName { name: "Main".to_string() },
        SponsorWalletCommand::UpdateSponsorWalletLogoUri { logo_uri: Some("https://l.example/".to_string()) },
    ] {
        for e in w.handle(cmd).unwrap() {
            w.apply(e);
        }
    }
    assert_eq!(w.balance, 77);
    assert_eq!(w.name.as_deref(), Some("Main"));
    assert_eq!(w.logo_uri.as_deref(), Some("https://l.example/"));
    w.apply(SponsorWalletEvent::TransactionFeePaidRecorded { sender_address: "0x1".to_string(), new_balance: 70 });
    assert_eq!(w.balance, 70);
    assert_eq!(SponsorWallet::aggregate_type(), "sponsor_wallet");
    assert_eq!(SponsorWalletError::SponsorWalletNotFound.message(), "Sponsor wallet not found");
    assert_eq!(SponsorWalletEvent::BalanceUpdateRecorded { new_balance: 1 }.event_type(), "BalanceUpdateRecorded");
}
