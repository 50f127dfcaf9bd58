//! Read models: the states that queries serve, kept up to date from the
//! aggregates' events.
use std::collections::HashMap;
use vstd::prelude::*;

use crate::client::{all_applicable, Client, ClientEvent, ClientState};
use crate::group::{Group, GroupEvent, GroupState};
use crate::sponsor_wallet::{SponsorWallet, SponsorWalletEvent, SponsorWalletState};
use crate::time::Timestamp;

verus! {

broadcast use {vstd::string::group_string_axioms, vstd::std_specs::hash::group_hash_axioms};

/// The identifier under which the sponsor wallet and its view are kept.
pub open spec fn sponsor_wallet_view_id() -> Seq<char> {
    "sponsor-wallet"@
}

/// The identifier under which the sponsor wallet and its view are kept.
pub fn sponsor_wallet_view_id_text() -> (s: String)
    ensures
        s@ == sponsor_wallet_view_id(),
{
    "sponsor-wallet".to_string()
}

/// The view of one client: its state.
#[derive(Debug)]
pub struct ClientView(Client);

/// The view of one group: its state.
#[derive(Debug)]
pub struct GroupView(Group);

/// The view of the sponsor wallet: its state.
#[derive(Debug)]
pub struct SponsorWalletView(SponsorWallet);

impl View for ClientView {
    type V = ClientState;

    closed spec fn view(&self) -> ClientState {
        self.0@
    }
}

impl View for GroupView {
    type V = GroupState;

    closed spec fn view(&self) -> GroupState {
        self.0@
    }
}

impl View for SponsorWalletView {
    type V = SponsorWalletState;

    closed spec fn view(&self) -> SponsorWalletState {
        self.0@
    }
}

impl ClientView {
    /// A view holding the given state.
    pub fn new(client: Client) -> (v: ClientView)
        ensures
            v@ == client@,
    {
        ClientView(client)
    }

    /// The state the view holds.
    pub fn into_inner(self) -> (c: Client)
        ensures
            c@ == self@,
    {
        self.0
    }

    /// The state the view holds.
    pub fn inner(&self) -> (c: &Client)
        ensures
            c@ == self@,
    {
        &self.0
    }

    /// Brings the view up to date with an event.
    pub fn update(&mut self, event: &ClientEvent)
        requires
            event.is_applicable(),
        ensures
            final(self)@ == old(self)@.evolve(*event),
    {
        self.0.apply(event.clone());
    }

    /// Brings the view up to date with a sequence of events, in order.
    pub fn update_all(&mut self, events: &Vec<ClientEvent>)
        requires
            all_applicable(events@),
        ensures
            final(self)@ == old(self)@.evolve_all(events@),
    {
        self.0.apply_all(events);
    }
}

impl Default for ClientView {
    fn default() -> (v: ClientView)
        ensures
            v@ == ClientState::initial(),
    {
        ClientView(Client::default())
    }
}

impl GroupView {
    /// A view holding the given state.
    pub fn new(group: Group) -> (v: GroupView)
        ensures
            v@ == group@,
    {
        GroupView(group)
    }

    /// The state the view holds.
    pub fn into_inner(self) -> (g: Group)
        ensures
            g@ == self@,
    {
        self.0
    }

    /// The state the view holds.
    pub fn inner(&self) -> (g: &Group)
        ensures
            g@ == self@,
    {
        &self.0
    }

    /// Brings the view up to date with an event.
    pub fn update(&mut self, event: &GroupEvent)
        ensures
            final(self)@ == old(self)@.evolve(*event),
    {
        self.0.apply(event.clone());
    }

    /// Brings the view up to date with a sequence of events, in order.
    pub fn update_all(&mut self, events: &Vec<GroupEvent>)
        ensures
            final(self)@ == old(self)@.evolve_all(events@),
    {
        self.0.apply_all(events);
    }
}

impl Default for GroupView {
    fn default() -> (v: GroupView)
        ensures
            v@ == GroupState::initial(),
    {
        GroupView(Group::default())
    }
}

impl SponsorWalletView {
    /// A view holding the given state.
    pub fn new(wallet: SponsorWallet) -> (v: SponsorWalletView)
        ensures
            v@ == wallet@,
    {
        SponsorWalletView(wallet)
    }

    /// The state the view holds.
    pub fn into_inner(self) -> (w: SponsorWallet)
        ensures
            w@ == self@,
    {
        self.0
    }

    /// The state the view holds.
    pub fn inner(&self) -> (w: &SponsorWallet)
        ensures
            w@ == self@,
    {
        &self.0
    }

    /// Brings the view up to date with an event.
    pub fn update(&mut self, event: &SponsorWalletEvent)
        ensures
            final(self)@ == old(self)@.evolve(*event),
    {
        self.0.apply(event.clone());
    }
}

impl Default for SponsorWalletView {
    fn default() -> (v: SponsorWalletView)
        ensures
            v@ == SponsorWalletState::initial(),
    {
        SponsorWalletView(SponsorWallet::default())
    }
}

/// The identifier under which the list of all clients is kept.
pub open spec fn client_list_view_id() -> Seq<char> {
    "client_list"@
}

/// The identifier under which the list of all groups is kept.
pub open spec fn group_list_view_id() -> Seq<char> {
    "group_list"@
}

/// The identifier under which the list of all sponsored transactions is
/// kept.
pub open spec fn sponsorship_transaction_list_view_id() -> Seq<char> {
    "sponsorship_transaction_list"@
}

/// The identifier under which the list of all clients is kept.
pub fn client_list_view_id_text() -> (s: String)
    ensures
        s@ == client_list_view_id(),
{
    "client_list".to_string()
}

/// The identifier under which the list of all groups is kept.
pub fn group_list_view_id_text() -> (s: String)
    ensures
        s@ == group_list_view_id(),
{
    "group_list".to_string()
}

/// The identifier under which the list of all sponsored transactions is
/// kept.
pub fn sponsorship_transaction_list_view_id_text() -> (s: String)
    ensures
        s@ == sponsorship_transaction_list_view_id(),
{
    "sponsorship_transaction_list".to_string()
}

/// All clients, by identifier.
#[derive(Debug)]
pub struct ClientListView(HashMap<u128, ClientView>);

/// All groups, by identifier.
#[derive(Debug)]
pub struct GroupListView(HashMap<u128, GroupView>);

/// The state each entry of a map of views holds.
pub open spec fn client_states(m: Map<u128, ClientView>) -> Map<u128, ClientState> {
    m.map_values(|v: ClientView| v@)
}

/// The state each entry of a map of views holds.
pub open spec fn group_states(m: Map<u128, GroupView>) -> Map<u128, GroupState> {
    m.map_values(|v: GroupView| v@)
}

/// The state kept for an identifier, or the initial state where none is.
pub open spec fn client_or_initial(m: Map<u128, ClientState>, id: u128) -> ClientState {
    if m.contains_key(id) { m[id] } else { ClientState::initial() }
}

/// The state kept for an identifier, or the initial state where none is.
pub open spec fn group_or_initial(m: Map<u128, GroupState>, id: u128) -> GroupState {
    if m.contains_key(id) { m[id] } else { GroupState::initial() }
}

impl View for ClientListView {
    type V = Map<u128, ClientState>;

    closed spec fn view(&self) -> Map<u128, ClientState> {
        client_states(self.0@)
    }
}

impl View for GroupListView {
    type V = Map<u128, GroupState>;

    closed spec fn view(&self) -> Map<u128, GroupState> {
        group_states(self.0@)
    }
}

impl ClientListView {
    /// A list holding the given views.
    pub fn new(clients: HashMap<u128, ClientView>) -> (l: ClientListView)
        ensures
            l@ == client_states(clients@),
    {
        ClientListView(clients)
    }

    /// The views the list holds, by client identifier.
    pub fn into_inner(self) -> (m: HashMap<u128, ClientView>)
        ensures
            client_states(m@) == self@,
    {
        self.0
    }

    /// The views the list holds, by client identifier.
    pub fn entries(&self) -> (m: &HashMap<u128, ClientView>)
        ensures
            client_states(m@) == self@,
    {
        &self.0
    }

    /// Brings the entry of the client the event belongs to up to date,
    /// starting it from the initial state where there is none yet.
    pub fn update(&mut self, client_id: u128, event: &ClientEvent)
        requires
            event.is_applicable(),
        ensures
            final(self)@ == old(self)@.insert(client_id, client_or_initial(old(self)@, client_id).evolve(*event)),
    {
        let mut view = match self.0.remove(&client_id) {
            Some(v) => v,
            None => ClientView::default(),
        };
        view.update(event);
        self.0.insert(client_id, view);
        assert(self@ =~= old(self)@.insert(client_id, client_or_initial(old(self)@, client_id).evolve(*event)));
    }
}

impl Default for ClientListView {
    fn default() -> (l: ClientListView)
        ensures
            l@ == Map::<u128, ClientState>::empty(),
    {
        let l = ClientListView(HashMap::new());
        assert(l@ =~= Map::<u128, ClientState>::empty());
        l
    }
}

impl GroupListView {
    /// A list holding the given views.
    pub fn new(groups: HashMap<u128, GroupView>) -> (l: GroupListView)
        ensures
            l@ == group_states(groups@),
    {
        GroupListView(groups)
    }

    /// The views the list holds, by group identifier.
    pub fn into_inner(self) -> (m: HashMap<u128, GroupView>)
        ensures
            group_states(m@) == self@,
    {
        self.0
    }

    /// The views the list holds, by group identifier.
    pub fn entries(&self) -> (m: &HashMap<u128, GroupView>)
        ensures
            group_states(m@) == self@,
    {
        &self.0
    }

    /// Brings the entry of the group the event belongs to up to date,
    /// starting it from the initial state where there is none yet.
    pub fn update(&mut self, group_id: u128, event: &GroupEvent)
        ensures
            final(self)@ == old(self)@.insert(group_id, group_or_initial(old(self)@, group_id).evolve(*event)),
    {
        let mut view = match self.0.remove(&group_id) {
            Some(v) => v,
            None => GroupView::default(),
        };
        view.update(event);
        self.0.insert(group_id, view);
        assert(self@ =~= old(self)@.insert(group_id, group_or_initial(old(self)@, group_id).evolve(*event)));
    }
}

impl Default for GroupListView {
    fn default() -> (l: GroupListView)
        ensures
            l@ == Map::<u128, GroupState>::empty(),
    {
        let l = GroupListView(HashMap::new());
        assert(l@ =~= Map::<u128, GroupState>::empty());
        l
    }
}

} // verus!

verus! {

/// One sponsored transaction, as recorded for a group.
///
/// Fee amounts in IOTA, EUR and USD are the bit patterns of IEEE-754
/// binary64 values.
#[derive(Debug)]
pub struct SponsorshipTransactionView {
    pub sponsorship_transaction_id: u128,
    pub group_id: u128,
    pub client_id: u128,
    pub client_name: String,
    pub transaction_fee: u64,
    pub transaction_fee_iot_bits: u64,
    pub transaction_fee_eur_bits: u64,
    pub transaction_fee_usd_bits: u64,
    pub timestamp: Timestamp,
}

/// The abstract content of a sponsored transaction record.
pub struct SponsorshipTransactionState {
    pub sponsorship_transaction_id: u128,
    pub group_id: u128,
    pub client_id: u128,
    pub client_name: Seq<char>,
    pub transaction_fee: u64,
    pub transaction_fee_iot_bits: u64,
    pub transaction_fee_eur_bits: u64,
    pub transaction_fee_usd_bits: u64,
    pub timestamp: Timestamp,
}

impl View for SponsorshipTransactionView {
    type V = SponsorshipTransactionState;

    open spec fn view(&self) -> SponsorshipTransactionState {
        SponsorshipTransactionState {
            sponsorship_transaction_id: self.sponsorship_transaction_id,
            group_id: self.group_id,
            client_id: self.client_id,
            client_name: self.client_name@,
            transaction_fee: self.transaction_fee,
            transaction_fee_iot_bits: self.transaction_fee_iot_bits,
            transaction_fee_eur_bits: self.transaction_fee_eur_bits,
            transaction_fee_usd_bits: self.transaction_fee_usd_bits,
            timestamp: self.timestamp,
        }
    }
}

/// The record that a sponsored-transaction event describes.
pub open spec fn recorded_transaction(event: GroupEvent) -> SponsorshipTransactionState
    recommends
        event is TransactionFeePaidRecorded,
{
    match event {
        GroupEvent::TransactionFeePaidRecorded {
            sponsorship_transaction_id,
            group_id,
            client_id,
            client_name,
            transaction_fee,
            transaction_fee_iot_bits,
            transaction_fee_eur_bits,
            transaction_fee_usd_bits,
            timestamp,
            ..
        } => SponsorshipTransactionState {
            sponsorship_transaction_id,
            group_id,
            client_id,
            client_name: client_name@,
            transaction_fee,
            transaction_fee_iot_bits,
            transaction_fee_eur_bits,
            transaction_fee_usd_bits,
            timestamp,
        },
        _ => arbitrary(),
    }
}

impl SponsorshipTransactionState {
    /// The record of no transaction: all identifiers nil, empty name, zero
    /// fees, at the Unix epoch.
    pub open spec fn initial() -> SponsorshipTransactionState {
        SponsorshipTransactionState {
            sponsorship_transaction_id: 0,
            group_id: 0,
            client_id: 0,
            client_name: Seq::empty(),
            transaction_fee: 0,
            transaction_fee_iot_bits: 0,
            transaction_fee_eur_bits: 0,
            transaction_fee_usd_bits: 0,
            timestamp: Timestamp { seconds: 0, nanos: 0 },
        }
    }
}

impl Default for SponsorshipTransactionView {
    fn default() -> (v: SponsorshipTransactionView)
        ensures
            v@ == SponsorshipTransactionState::initial(),
    {
        SponsorshipTransactionView {
            sponsorship_transaction_id: 0,
            group_id: 0,
            client_id: 0,
            client_name: String::new(),
            transaction_fee: 0,
            transaction_fee_iot_bits: 0,
            transaction_fee_eur_bits: 0,
            transaction_fee_usd_bits: 0,
            timestamp: Timestamp::epoch(),
        }
    }
}

impl SponsorshipTransactionView {
    /// Takes over the details of a sponsored-transaction event; other events
    /// leave the record unchanged.
    pub fn update(&mut self, event: &GroupEvent)
        ensures
            final(self)@ == (if event is TransactionFeePaidRecorded {
                recorded_transaction(*event)
            } else {
                old(self)@
            }),
    {
        match event {
            GroupEvent::TransactionFeePaidRecorded {
                sponsorship_transaction_id,
                group_id,
                client_id,
                client_name,
                transaction_fee,
                transaction_fee_iot_bits,
                transaction_fee_eur_bits,
                transaction_fee_usd_bits,
                new_balance: _,
                timestamp,
            } => {
                self.sponsorship_transaction_id = *sponsorship_transaction_id;
                self.group_id = *group_id;
                self.client_id = *client_id;
                self.client_name = client_name.clone();
                self.transaction_fee = *transaction_fee;
                self.transaction_fee_iot_bits = *transaction_fee_iot_bits;
                self.transaction_fee_eur_bits = *transaction_fee_eur_bits;
                self.transaction_fee_usd_bits = *transaction_fee_usd_bits;
                self.timestamp = *timestamp;
            },
            _ => {},
        }
    }

    /// A copy of the record.
    pub fn duplicate(&self) -> (c: SponsorshipTransactionView)
        ensures
            c@ == self@,
    {
        SponsorshipTransactionView {
            sponsorship_transaction_id: self.sponsorship_transaction_id,
            group_id: self.group_id,
            client_id: self.client_id,
            client_name: self.client_name.clone(),
            transaction_fee: self.transaction_fee,
            transaction_fee_iot_bits: self.transaction_fee_iot_bits,
            transaction_fee_eur_bits: self.transaction_fee_eur_bits,
            transaction_fee_usd_bits: self.transaction_fee_usd_bits,
            timestamp: self.timestamp,
        }
    }
}

/// All sponsored transactions, by transaction identifier.
#[derive(Debug)]
pub struct SponsorshipTransactionListView(HashMap<u128, SponsorshipTransactionView>);

/// The record each entry of a map of transaction views holds.
pub open spec fn transaction_states(m: Map<u128, SponsorshipTransactionView>) -> Map<
    u128,
    SponsorshipTransactionState,
> {
    m.map_values(|v: SponsorshipTransactionView| v@)
}

impl View for SponsorshipTransactionListView {
    type V = Map<u128, SponsorshipTransactionState>;

    closed spec fn view(&self) -> Map<u128, SponsorshipTransactionState> {
        transaction_states(self.0@)
    }
}

/// The identifier of the sponsored transaction an event records.
pub open spec fn recorded_transaction_id(event: GroupEvent) -> u128 {
    match event {
        GroupEvent::TransactionFeePaidRecorded { sponsorship_transaction_id, .. } => sponsorship_transaction_id,
        _ => 0,
    }
}

/// The recorded transactions after an event: a sponsored-transaction event
/// records its transaction under its identifier; other events change
/// nothing.
pub open spec fn transactions_after(
    transactions: Map<u128, SponsorshipTransactionState>,
    event: GroupEvent,
) -> Map<u128, SponsorshipTransactionState> {
    if event is TransactionFeePaidRecorded {
        transactions.insert(recorded_transaction_id(event), recorded_transaction(event))
    } else {
        transactions
    }
}

impl SponsorshipTransactionListView {
    /// A list holding the given records.
    pub fn new(transactions: HashMap<u128, SponsorshipTransactionView>) -> (l: SponsorshipTransactionListView)
        ensures
            l@ == transaction_states(transactions@),
    {
        SponsorshipTransactionListView(transactions)
    }

    /// The records the list holds, by transaction identifier.
    pub fn into_inner(self) -> (m: HashMap<u128, SponsorshipTransactionView>)
        ensures
            transaction_states(m@) == self@,
    {
        self.0
    }

    /// The records the list holds, by transaction identifier.
    pub fn entries(&self) -> (m: &HashMap<u128, SponsorshipTransactionView>)
        ensures
            transaction_states(m@) == self@,
    {
        &self.0
    }

    /// Records the transaction a sponsored-transaction event describes,
    /// under its identifier; other events leave the list unchanged.
    pub fn update(&mut self, event: &GroupEvent)
        ensures
            final(self)@ == transactions_after(old(self)@, *event),
    {
        match event {
            GroupEvent::TransactionFeePaidRecorded { sponsorship_transaction_id, .. } => {
                let key = *sponsorship_transaction_id;
                let mut record = match self.0.remove(&key) {
                    Some(v) => v,
                    None => SponsorshipTransactionView::default(),
                };
                record.update(event);
                self.0.insert(key, record);
                assert(self@ =~= old(self)@.insert(recorded_transaction_id(*event), recorded_transaction(*event)));
            },
            _ => {},
        }
    }
}

impl Default for SponsorshipTransactionListView {
    fn default() -> (l: SponsorshipTransactionListView)
        ensures
            l@ == Map::<u128, SponsorshipTransactionState>::empty(),
    {
        let l = SponsorshipTransactionListView(HashMap::new());
        assert(l@ =~= Map::<u128, SponsorshipTransactionState>::empty());
        l
    }
}

} // verus!
