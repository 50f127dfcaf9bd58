//! The group aggregate: a shared balance from which the transaction fees
//! of its member clients are paid.
use std::collections::HashSet;
use vstd::prelude::*;

use crate::client::{clone_text, events_of};
use crate::time::Timestamp;

verus! {

broadcast use {vstd::string::group_string_axioms, vstd::std_specs::hash::group_hash_axioms};

/// The kind of state a group is in.
#[derive(Clone, Copy, Debug, PartialEq, Eq, Structural)]
pub enum Variant {
    Action,
    Warning,
    Success,
}

/// The status of a group.
#[derive(Clone, Copy, Debug, PartialEq, Eq, Structural)]
pub struct Status {
    pub variant: Variant,
}

impl Default for Variant {
    fn default() -> (v: Variant)
        ensures
            v == Variant::Success,
    {
        Variant::Success
    }
}

impl Default for Status {
    fn default() -> (s: Status)
        ensures
            s == (Status { variant: Variant::Success }),
    {
        Status { variant: Variant::Success }
    }
}

/// The state of one group, rebuilt from its events.
///
/// Identifiers are UUID values (0 is the nil UUID); URIs are held in their
/// serialised form.
#[derive(Debug)]
pub struct Group {
    /// The unique identifier of the group; nil until it is created.
    pub group_id: u128,
    /// A user-friendly name.
    pub name: String,
    /// Logo URI.
    pub logo_uri: Option<String>,
    /// The balance shared by all members, in nanos.
    pub balance: u64,
    /// The clients that are members of the group.
    pub members: HashSet<u128>,
    /// The group's status.
    pub status: Status,
    /// Whether the group has been deleted.
    pub is_deleted: bool,
}

/// Requests addressed to a group.
///
/// Fee amounts in IOTA, EUR and USD are floating-point numbers; they are
/// carried as the bit patterns of IEEE-754 binary64 values and never read.
#[derive(Debug)]
pub enum GroupCommand {
    /// Create a new group.
    CreateGroup { group_id: u128, name: String, logo_uri: Option<String> },
    /// Update the group's name.
    UpdateGroupName { name: String },
    /// Update the group's logo URI.
    UpdateGroupLogoUri { logo_uri: Option<String> },
    /// Update the group's status.
    UpdateGroupStatus { status: Status },
    /// Delete the group.
    DeleteGroup { group_id: u128 },
    /// Add a client to the group.
    AddClientToGroup { client_id: u128 },
    /// Remove a client from the group.
    RemoveClientFromGroup { client_id: u128 },
    /// Allocate funds to the group's shared balance.
    AllocateFundsToGroup { group_id: u128, amount: u64 },
    /// Withdraw funds from the group's shared balance.
    WithdrawFundsFromGroup { group_id: u128, amount: u64 },
    /// Record the transaction fee a member paid; the group is charged that fee.
    RecordTransactionFeePaid {
        client_id: u128,
        client_name: String,
        transaction_fee: u64,
        transaction_fee_iot_bits: u64,
        transaction_fee_eur_bits: u64,
        transaction_fee_usd_bits: u64,
    },
    /// Record a transaction fee from demonstration data; nothing is charged.
    RecordTransactionFeePaidForDemo {
        client_id: u128,
        client_name: String,
        transaction_fee: u64,
        transaction_fee_iot_bits: u64,
        transaction_fee_eur_bits: u64,
        transaction_fee_usd_bits: u64,
        timestamp: Timestamp,
    },
}

/// Facts recorded about a group.
#[derive(Debug)]
pub enum GroupEvent {
    GroupCreated { group_id: u128, name: String, logo_uri: Option<String> },
    GroupNameUpdated { name: String },
    GroupLogoUriUpdated { logo_uri: Option<String> },
    GroupStatusUpdated { status: Status },
    GroupDeleted { group_id: u128, is_deleted: bool },
    ClientAddedToGroup { group_id: u128, client_id: u128 },
    ClientRemovedFromGroup { group_id: u128, client_id: u128 },
    FundsAllocatedToGroup { group_id: u128, amount: u64 },
    FundsWithdrawnFromGroup { group_id: u128, amount: u64 },
    TransactionFeePaidRecorded {
        sponsorship_transaction_id: u128,
        group_id: u128,
        client_id: u128,
        client_name: String,
        transaction_fee: u64,
        transaction_fee_iot_bits: u64,
        transaction_fee_eur_bits: u64,
        transaction_fee_usd_bits: u64,
        new_balance: u64,
        timestamp: Timestamp,
    },
}

/// Why a group command was refused.
#[derive(Clone, Copy, Debug, PartialEq, Eq, Structural)]
pub enum GroupError {
    GroupAlreadyExists,
    GroupNotFound,
    InsufficientBalance,
}

impl GroupError {
    /// The text of the error.
    pub open spec fn text(self) -> Seq<char> {
        match self {
            GroupError::GroupAlreadyExists => "Group already exists"@,
            GroupError::GroupNotFound => "Group not found"@,
            GroupError::InsufficientBalance => "Insufficient balance in group for the requested operation"@,
        }
    }

    /// The text of the error, as the service reports it.
    pub fn message(&self) -> (s: String)
        ensures
            s@ == self.text(),
    {
        match self {
            GroupError::GroupAlreadyExists => "Group already exists".to_string(),
            GroupError::GroupNotFound => "Group not found".to_string(),
            GroupError::InsufficientBalance => "Insufficient balance in group for the requested operation".to_string(),
        }
    }
}

impl GroupEvent {
    /// The name of the event's kind.
    pub open spec fn kind_name(self) -> Seq<char> {
        match self {
            GroupEvent::GroupCreated { .. } => "GroupCreated"@,
            GroupEvent::GroupNameUpdated { .. } => "GroupNameUpdated"@,
            GroupEvent::GroupLogoUriUpdated { .. } => "GroupLogoUriUpdated"@,
            GroupEvent::GroupStatusUpdated { .. } => "GroupStatusUpdated"@,
            GroupEvent::GroupDeleted { .. } => "GroupDeleted"@,
            GroupEvent::ClientAddedToGroup { .. } => "ClientAddedToGroup"@,
            GroupEvent::ClientRemovedFromGroup { .. } => "ClientRemovedFromGroup"@,
            GroupEvent::FundsAllocatedToGroup { .. } => "FundsAllocatedToGroup"@,
            GroupEvent::FundsWithdrawnFromGroup { .. } => "FundsWithdrawnFromGroup"@,
            GroupEvent::TransactionFeePaidRecorded { .. } => "TransactionFeePaidRecorded"@,
        }
    }

    /// The type under which the event is stored: the name of its kind.
    pub fn event_type(&self) -> (s: String)
        ensures
            s@ == self.kind_name(),
    {
        match self {
            GroupEvent::GroupCreated { .. } => "GroupCreated".to_string(),
            GroupEvent::GroupNameUpdated { .. } => "GroupNameUpdated".to_string(),
            GroupEvent::GroupLogoUriUpdated { .. } => "GroupLogoUriUpdated".to_string(),
            GroupEvent::GroupStatusUpdated { .. } => "GroupStatusUpdated".to_string(),
            GroupEvent::GroupDeleted { .. } => "GroupDeleted".to_string(),
            GroupEvent::ClientAddedToGroup { .. } => "ClientAddedToGroup".to_string(),
            GroupEvent::ClientRemovedFromGroup { .. } => "ClientRemovedFromGroup".to_string(),
            GroupEvent::FundsAllocatedToGroup { .. } => "FundsAllocatedToGroup".to_string(),
            GroupEvent::FundsWithdrawnFromGroup { .. } => "FundsWithdrawnFromGroup".to_string(),
            GroupEvent::TransactionFeePaidRecorded { .. } => "TransactionFeePaidRecorded".to_string(),
        }
    }

    /// The version under which the event is stored.
    pub fn event_version(&self) -> (s: String)
        ensures
            s@ == "1"@,
    {
        "1".to_string()
    }
}

/// `a + b`, or `u64::MAX` where the sum does not fit.
pub open spec fn saturating_add(a: u64, b: u64) -> u64 {
    if a + b > u64::MAX { u64::MAX } else { (a + b) as u64 }
}

/// `a - b`, or 0 where `b` exceeds `a`.
pub open spec fn saturating_sub(a: u64, b: u64) -> u64 {
    if a < b { 0 } else { (a - b) as u64 }
}

/// The abstract state of a group: its fields, with texts as character
/// sequences and the members as a set.
pub struct GroupState {
    pub group_id: u128,
    pub name: Seq<char>,
    pub logo_uri: Option<Seq<char>>,
    pub balance: u64,
    pub members: Set<u128>,
    pub status: Status,
    pub is_deleted: bool,
}

impl View for Group {
    type V = GroupState;

    open spec fn view(&self) -> GroupState {
        GroupState {
            group_id: self.group_id,
            name: self.name@,
            logo_uri: self.logo_uri.deep_view(),
            balance: self.balance,
            members: self.members@,
            status: self.status,
            is_deleted: self.is_deleted,
        }
    }
}

impl GroupCommand {
    /// The commands that record a sponsored transaction; they need a fresh
    /// transaction identifier.
    pub open spec fn records_fee(self) -> bool {
        self is RecordTransactionFeePaid || self is RecordTransactionFeePaidForDemo
    }
}

impl GroupState {
    /// The state of a group before any event: nil identifier, empty name,
    /// no logo, zero balance, no members, status `Success`, not deleted.
    pub open spec fn initial() -> GroupState {
        GroupState {
            group_id: 0,
            name: Seq::empty(),
            logo_uri: None,
            balance: 0,
            members: Set::empty(),
            status: Status { variant: Variant::Success },
            is_deleted: false,
        }
    }

    /// A group exists once it has a non-nil identifier.
    pub open spec fn is_created(self) -> bool {
        self.group_id != 0
    }

    /// What a command yields on this state, given the identifier for a new
    /// sponsored transaction and the current time: the events to record, or
    /// why it is refused.
    pub open spec fn decide(self, command: GroupCommand, transaction_id: u128, now: Timestamp) -> Result<
        Seq<GroupEvent>,
        GroupError,
    > {
        match command {
            GroupCommand::CreateGroup { group_id, name, logo_uri } => {
                if self.is_created() {
                    Err(GroupError::GroupAlreadyExists)
                } else {
                    Ok(seq![GroupEvent::GroupCreated { group_id, name, logo_uri }])
                }
            },
            _ => if !self.is_created() {
                Err(GroupError::GroupNotFound)
            } else {
                match command {
                    GroupCommand::UpdateGroupName { name } => Ok(seq![GroupEvent::GroupNameUpdated { name }]),
                    GroupCommand::UpdateGroupLogoUri { logo_uri } => Ok(seq![GroupEvent::GroupLogoUriUpdated { logo_uri }]),
                    GroupCommand::UpdateGroupStatus { status } => Ok(seq![GroupEvent::GroupStatusUpdated { status }]),
                    GroupCommand::DeleteGroup { group_id } => Ok(seq![GroupEvent::GroupDeleted { group_id, is_deleted: true }]),
                    GroupCommand::AddClientToGroup { client_id } => Ok(seq![GroupEvent::ClientAddedToGroup { group_id: self.group_id, client_id }]),
                    GroupCommand::RemoveClientFromGroup { client_id } => Ok(seq![GroupEvent::ClientRemovedFromGroup { group_id: self.group_id, client_id }]),
                    GroupCommand::AllocateFundsToGroup { group_id, amount } => Ok(seq![GroupEvent::FundsAllocatedToGroup { group_id, amount }]),
                    GroupCommand::WithdrawFundsFromGroup { group_id, amount } => {
                        if self.balance < amount {
                            Err(GroupError::InsufficientBalance)
                        } else {
                            Ok(seq![GroupEvent::FundsWithdrawnFromGroup { group_id, amount }])
                        }
                    },
                    GroupCommand::RecordTransactionFeePaid {
                        client_id,
                        client_name,
                        transaction_fee,
                        transaction_fee_iot_bits,
                        transaction_fee_eur_bits,
                        transaction_fee_usd_bits,
                    } => Ok(seq![GroupEvent::TransactionFeePaidRecorded {
                        sponsorship_transaction_id: transaction_id,
                        group_id: self.group_id,
                        client_id,
                        client_name,
                        transaction_fee,
                        transaction_fee_iot_bits,
                        transaction_fee_eur_bits,
                        transaction_fee_usd_bits,
                        new_balance: saturating_sub(self.balance, transaction_fee),
                        timestamp: now,
                    }]),
                    GroupCommand::RecordTransactionFeePaidForDemo {
                        client_id,
                        client_name,
                        transaction_fee,
                        transaction_fee_iot_bits,
                        transaction_fee_eur_bits,
                        transaction_fee_usd_bits,
                        timestamp,
                    } => Ok(seq![GroupEvent::TransactionFeePaidRecorded {
                        sponsorship_transaction_id: transaction_id,
                        group_id: self.group_id,
                        client_id,
                        client_name,
                        transaction_fee,
                        transaction_fee_iot_bits,
                        transaction_fee_eur_bits,
                        transaction_fee_usd_bits,
                        new_balance: self.balance,
                        timestamp,
                    }]),
                    GroupCommand::CreateGroup { .. } => Err(GroupError::GroupAlreadyExists),
                }
            },
        }
    }

    /// The state after an event.
    pub open spec fn evolve(self, event: GroupEvent) -> GroupState {
        match event {
            GroupEvent::GroupCreated { group_id, name, logo_uri } => GroupState {
                group_id,
                name: name@,
                logo_uri: logo_uri.deep_view(),
                balance: 0,
                members: Set::empty(),
                ..self
            },
            GroupEvent::GroupNameUpdated { name } => GroupState { name: name@, ..self },
            GroupEvent::GroupLogoUriUpdated { logo_uri } => GroupState { logo_uri: logo_uri.deep_view(), ..self },
            GroupEvent::GroupStatusUpdated { status } => GroupState { status, ..self },
            GroupEvent::GroupDeleted { is_deleted, .. } => GroupState { is_deleted, ..GroupState::initial() },
            GroupEvent::ClientAddedToGroup { client_id, .. } => GroupState { members: self.members.insert(client_id), ..self },
            GroupEvent::ClientRemovedFromGroup { client_id, .. } => GroupState { members: self.members.remove(client_id), ..self },
            GroupEvent::FundsAllocatedToGroup { amount, .. } => GroupState { balance: saturating_add(self.balance, amount), ..self },
            GroupEvent::FundsWithdrawnFromGroup { amount, .. } => GroupState { balance: saturating_sub(self.balance, amount), ..self },
            GroupEvent::TransactionFeePaidRecorded { new_balance, .. } => GroupState { balance: new_balance, ..self },
        }
    }

    /// The state after a sequence of events, applied in order.
    pub open spec fn evolve_all(self, events: Seq<GroupEvent>) -> GroupState
        decreases events.len(),
    {
        if events.len() == 0 {
            self
        } else {
            self.evolve(events[0]).evolve_all(events.drop_first())
        }
    }
}

impl Group {
    /// The kind of aggregate, as stored with its events.
    pub fn aggregate_type() -> (s: String)
        ensures
            s@ == "group"@,
    {
        "group".to_string()
    }

    /// Decides a command on the current state, with the identifier and
    /// time to give a newly recorded sponsored transaction.
    pub fn decide_with(&self, command: GroupCommand, transaction_id: u128, now: Timestamp) -> (r: Result<
        Vec<GroupEvent>,
        GroupError,
    >)
        ensures
            events_of(r) == self@.decide(command, transaction_id, now),
    {
        let has_been_created = !crate::ids::is_nil(self.group_id);
        match command {
            GroupCommand::CreateGroup { group_id, name, logo_uri } => {
                if has_been_created {
                    return Err(GroupError::GroupAlreadyExists);
                }
                let events = vec![GroupEvent::GroupCreated { group_id, name, logo_uri }];
                assert(events@ =~= seq![GroupEvent::GroupCreated { group_id, name, logo_uri }]);
                Ok(events)
            },
            other => {
                // every other command needs a created group
                if !has_been_created {
                    return Err(GroupError::GroupNotFound);
                }
                let event = match other {
                    GroupCommand::UpdateGroupName { name } => GroupEvent::GroupNameUpdated { name },
                    GroupCommand::UpdateGroupLogoUri { logo_uri } => GroupEvent::GroupLogoUriUpdated { logo_uri },
                    GroupCommand::UpdateGroupStatus { status } => GroupEvent::GroupStatusUpdated { status },
                    GroupCommand::DeleteGroup { group_id } => GroupEvent::GroupDeleted { group_id, is_deleted: true },
                    GroupCommand::AddClientToGroup { client_id } => GroupEvent::ClientAddedToGroup { group_id: self.group_id, client_id },
                    GroupCommand::RemoveClientFromGroup { client_id } => GroupEvent::ClientRemovedFromGroup { group_id: self.group_id, client_id },
                    GroupCommand::AllocateFundsToGroup { group_id, amount } => GroupEvent::FundsAllocatedToGroup { group_id, amount },
                    GroupCommand::WithdrawFundsFromGroup { group_id, amount } => {
                        if self.balance < amount {
                            return Err(GroupError::InsufficientBalance);
                        }
                        GroupEvent::FundsWithdrawnFromGroup { group_id, amount }
                    },
                    GroupCommand::RecordTransactionFeePaid {
                        client_id,
                        client_name,
                        transaction_fee,
                        transaction_fee_iot_bits,
                        transaction_fee_eur_bits,
                        transaction_fee_usd_bits,
                    } => {
                        let new_balance = self.balance.saturating_sub(transaction_fee);
                        GroupEvent::TransactionFeePaidRecorded {
                            sponsorship_transaction_id: transaction_id,
                            group_id: self.group_id,
                            client_id,
                            client_name,
                            transaction_fee,
                            transaction_fee_iot_bits,
                            transaction_fee_eur_bits,
                            transaction_fee_usd_bits,
                            new_balance,
                            timestamp: now,
                        }
                    },
                    GroupCommand::RecordTransactionFeePaidForDemo {
                        client_id,
                        client_name,
                        transaction_fee,
                        transaction_fee_iot_bits,
                        transaction_fee_eur_bits,
                        transaction_fee_usd_bits,
                        timestamp,
                    } => GroupEvent::TransactionFeePaidRecorded {
                        sponsorship_transaction_id: transaction_id,
                        group_id: self.group_id,
                        client_id,
                        client_name,
                        transaction_fee,
                        transaction_fee_iot_bits,
                        transaction_fee_eur_bits,
                        transaction_fee_usd_bits,
                        new_balance: self.balance,
                        timestamp,
                    },
                    GroupCommand::CreateGroup { .. } => {
                        return Err(GroupError::GroupAlreadyExists);
                    },
                };
                let events = vec![event];
                assert(events@ =~= seq![event]);
                Ok(events)
            },
        }
    }

    /// Decides a command on the current state. A command that records a
    /// sponsored transaction on a created group draws a fresh random
    /// identifier for it, and the variant for real transactions reads the
    /// clock.
    pub fn handle(&self, command: GroupCommand) -> (r: Result<Vec<GroupEvent>, GroupError>)
        ensures
            exists|transaction_id: u128, now: Timestamp|
                transaction_id & crate::ids::VERSION_VARIANT_MASK == crate::ids::RANDOM_VERSION_VARIANT
                && now.seconds >= 0 && now.nanos < 1_000_000_000
                && events_of(r) == self@.decide(command, transaction_id, now),
    {
        let needs_fresh_id = !crate::ids::is_nil(self.group_id) && match &command {
            GroupCommand::RecordTransactionFeePaid { .. } => true,
            GroupCommand::RecordTransactionFeePaidForDemo { .. } => true,
            _ => false,
        };
        let reads_clock = !crate::ids::is_nil(self.group_id) && match &command {
            GroupCommand::RecordTransactionFeePaid { .. } => true,
            _ => false,
        };
        let now = if reads_clock {
            crate::time::current_time()
        } else {
            Timestamp::epoch()
        };
        let transaction_id = if needs_fresh_id {
            crate::ids::new_random_id()
        } else {
            crate::ids::RANDOM_VERSION_VARIANT
        };
        assert(crate::ids::RANDOM_VERSION_VARIANT & crate::ids::VERSION_VARIANT_MASK
            == crate::ids::RANDOM_VERSION_VARIANT) by (bit_vector);
        self.decide_with(command, transaction_id, now)
    }

    /// Applies a sequence of events in order, as a replay does.
    pub fn apply_all(&mut self, events: &Vec<GroupEvent>)
        ensures
            final(self)@ == old(self)@.evolve_all(events@),
    {
        let ghost start = self@;
        let mut i: usize = 0;
        assert(events@.subrange(0, events.len() as int) =~= events@);
        while i < events.len()
            invariant
                i <= events.len(),
                start.evolve_all(events@) == self@.evolve_all(events@.subrange(i as int, events.len() as int)),
            decreases events.len() - i,
        {
            self.apply(events[i].clone());
            assert(events@.subrange(i as int, events.len() as int).drop_first()
                =~= events@.subrange(i + 1, events.len() as int));
            i = i + 1;
        }
        assert(events@.subrange(i as int, events.len() as int) =~= Seq::<GroupEvent>::empty());
    }

    /// Applies an event to the state.
    pub fn apply(&mut self, event: GroupEvent)
        ensures
            final(self)@ == old(self)@.evolve(event),
    {
        match event {
            GroupEvent::GroupCreated { group_id, name, logo_uri } => {
                self.group_id = group_id;
                self.name = name;
                self.logo_uri = logo_uri;
                self.balance = 0;
                self.members = HashSet::new();
            },
            GroupEvent::GroupNameUpdated { name } => {
                self.name = name;
            },
            GroupEvent::GroupLogoUriUpdated { logo_uri } => {
                self.logo_uri = logo_uri;
            },
            GroupEvent::GroupStatusUpdated { status } => {
                self.status = status;
            },
            GroupEvent::GroupDeleted { is_deleted, .. } => {
                *self = Group::default();
                self.is_deleted = is_deleted;
            },
            GroupEvent::ClientAddedToGroup { client_id, .. } => {
                self.members.insert(client_id);
            },
            GroupEvent::ClientRemovedFromGroup { client_id, .. } => {
                self.members.remove(&client_id);
            },
            GroupEvent::FundsAllocatedToGroup { amount, .. } => {
                self.balance = self.balance.saturating_add(amount);
            },
            GroupEvent::FundsWithdrawnFromGroup { amount, .. } => {
                self.balance = self.balance.saturating_sub(amount);
            },
            GroupEvent::TransactionFeePaidRecorded { new_balance, .. } => {
                self.balance = new_balance;
            },
        }
    }
}

impl Clone for GroupEvent {
    fn clone(&self) -> (e: GroupEvent)
        ensures
            e == *self,
    {
        match self {
            GroupEvent::GroupCreated { group_id, name, logo_uri } =>
                GroupEvent::GroupCreated { group_id: *group_id, name: name.clone(), logo_uri: clone_text(logo_uri) },
            GroupEvent::GroupNameUpdated { name } => GroupEvent::GroupNameUpdated { name: name.clone() },
            GroupEvent::GroupLogoUriUpdated { logo_uri } => GroupEvent::GroupLogoUriUpdated { logo_uri: clone_text(logo_uri) },
            GroupEvent::GroupStatusUpdated { status } => GroupEvent::GroupStatusUpdated { status: *status },
            GroupEvent::GroupDeleted { group_id, is_deleted } =>
                GroupEvent::GroupDeleted { group_id: *group_id, is_deleted: *is_deleted },
            GroupEvent::ClientAddedToGroup { group_id, client_id } =>
                GroupEvent::ClientAddedToGroup { group_id: *group_id, client_id: *client_id },
            GroupEvent::ClientRemovedFromGroup { group_id, client_id } =>
                GroupEvent::ClientRemovedFromGroup { group_id: *group_id, client_id: *client_id },
            GroupEvent::FundsAllocatedToGroup { group_id, amount } =>
                GroupEvent::FundsAllocatedToGroup { group_id: *group_id, amount: *amount },
            GroupEvent::FundsWithdrawnFromGroup { group_id, amount } =>
                GroupEvent::FundsWithdrawnFromGroup { group_id: *group_id, amount: *amount },
            GroupEvent::TransactionFeePaidRecorded {
                sponsorship_transaction_id,
                group_id,
                client_id,
                client_name,
                transaction_fee,
                transaction_fee_iot_bits,
                transaction_fee_eur_bits,
                transaction_fee_usd_bits,
                new_balance,
                timestamp,
            } => GroupEvent::TransactionFeePaidRecorded {
                sponsorship_transaction_id: *sponsorship_transaction_id,
                group_id: *group_id,
                client_id: *client_id,
                client_name: client_name.clone(),
                transaction_fee: *transaction_fee,
                transaction_fee_iot_bits: *transaction_fee_iot_bits,
                transaction_fee_eur_bits: *transaction_fee_eur_bits,
                transaction_fee_usd_bits: *transaction_fee_usd_bits,
                new_balance: *new_balance,
                timestamp: *timestamp,
            },
        }
    }
}

impl Default for Group {
    fn default() -> (g: Group)
        ensures
            g@ == GroupState::initial(),
    {
        Group {
            group_id: 0,
            name: String::new(),
            logo_uri: None,
            balance: 0,
            members: HashSet::new(),
            status: Status::default(),
            is_deleted: false,
        }
    }
}

} // verus!
