//! The client aggregate: an organisation whose transactions may be
//! sponsored, registered once and then updated, grouped and removed.
use vstd::prelude::*;

verus! {

broadcast use vstd::string::group_string_axioms;

/// The state of one client, rebuilt from its events.
///
/// Identifiers are UUID values (0 is the nil UUID); URIs are held in their
/// serialised form.
#[derive(Clone, Debug)]
pub struct Client {
    /// The unique identifier of the client; nil until it is registered.
    pub client_id: u128,
    /// A user-friendly name.
    pub name: String,
    /// Logo URI.
    pub logo_uri: Option<String>,
    /// Website URI for more information about the client.
    pub website_uri: Option<String>,
    /// The client's IOTA wallet address.
    pub wallet_address: String,
    /// An individual balance, if the client has one.
    pub balance: Option<u64>,
    /// The group the client belongs to, if any.
    pub group_id: Option<u128>,
    /// Whether the client has been removed.
    pub is_deleted: bool,
}

/// Requests addressed to a client.
#[derive(Debug)]
pub enum ClientCommand {
    /// Register a new client.
    RegisterClient {
        client_id: u128,
        name: String,
        logo_uri: Option<String>,
        website_uri: Option<String>,
        wallet_address: String,
    },
    /// Update the client's name.
    UpdateClientName { name: String },
    /// Update the client's logo URI.
    UpdateClientLogoUri { logo_uri: Option<String> },
    /// Update the client's website URI.
    UpdateClientWebsiteUri { website_uri: Option<String> },
    /// Update the client's wallet address.
    UpdateClientWalletAddress { wallet_address: String },
    /// Remove the client.
    RemoveClient { client_id: u128 },
    /// Assign the client to a group.
    AssignClientToGroup { group_id: u128 },
    /// Remove the client from its group.
    RemoveClientFromGroup,
    /// Allocate an individual balance to the client.
    AllocateBalanceToClient { amount: u64 },
    /// Withdraw from the client's individual balance.
    WithdrawBalanceFromClient { amount: u64 },
}

/// Facts recorded about a client.
#[derive(Debug)]
pub enum ClientEvent {
    ClientRegistered {
        client_id: u128,
        name: String,
        logo_uri: Option<String>,
        website_uri: Option<String>,
        wallet_address: String,
    },
    ClientNameUpdated { name: String },
    ClientLogoUriUpdated { logo_uri: Option<String> },
    ClientWebsiteUriUpdated { website_uri: Option<String> },
    ClientWalletAddressUpdated { wallet_address: String },
    ClientRemoved { client_id: u128, group_id: Option<u128>, is_deleted: bool },
    ClientAssignedToGroup { client_id: u128, group_id: u128 },
    ClientRemovedFromGroup { client_id: u128, group_id: Option<u128> },
    BalanceAllocatedToClient { client_id: u128, amount: u64 },
    BalanceWithdrawnFromClient { client_id: u128, amount: u64 },
    ClientBalanceDecremented { client_id: u128, fee_paid: u64 },
    ClientBalanceRanLow { client_id: u128, current_balance: u64 },
}

/// Why a client command was refused.
#[derive(Clone, Copy, Debug, PartialEq, Eq, Structural)]
pub enum ClientError {
    ClientAlreadyExists,
    ClientNotFound,
    InsufficientBalance,
}

/// A `Result` of events, seen as a sequence.
pub open spec fn events_of<E, X>(r: Result<Vec<E>, X>) -> Result<Seq<E>, X> {
    match r {
        Ok(v) => Ok(v@),
        Err(e) => Err(e),
    }
}

impl ClientError {
    /// The text of the error.
    pub open spec fn text(self) -> Seq<char> {
        match self {
            ClientError::ClientAlreadyExists => "Client already exists"@,
            ClientError::ClientNotFound => "Client not found"@,
            ClientError::InsufficientBalance => "Insufficient balance for withdrawal"@,
        }
    }

    /// The text of the error, as the service reports it.
    pub fn message(&self) -> (s: String)
        ensures
            s@ == self.text(),
    {
        match self {
            ClientError::ClientAlreadyExists => "Client already exists".to_string(),
            ClientError::ClientNotFound => "Client not found".to_string(),
            ClientError::InsufficientBalance => "Insufficient balance for withdrawal".to_string(),
        }
    }
}

impl ClientEvent {
    /// The events that a client's state has a rule for. The balance events
    /// have none: applying one is an error.
    pub open spec fn is_applicable(self) -> bool {
        match self {
            ClientEvent::BalanceAllocatedToClient { .. } => false,
            ClientEvent::BalanceWithdrawnFromClient { .. } => false,
            ClientEvent::ClientBalanceDecremented { .. } => false,
            ClientEvent::ClientBalanceRanLow { .. } => false,
            _ => true,
        }
    }

    /// Whether a client's state has a rule for this event.
    pub fn can_be_applied(&self) -> (r: bool)
        ensures
            r == self.is_applicable(),
    {
        match self {
            ClientEvent::BalanceAllocatedToClient { .. } => false,
            ClientEvent::BalanceWithdrawnFromClient { .. } => false,
            ClientEvent::ClientBalanceDecremented { .. } => false,
            ClientEvent::ClientBalanceRanLow { .. } => false,
            _ => true,
        }
    }

    /// The name of the event's kind.
    pub open spec fn kind_name(self) -> Seq<char> {
        match self {
            ClientEvent::ClientRegistered { .. } => "ClientRegistered"@,
            ClientEvent::ClientNameUpdated { .. } => "ClientNameUpdated"@,
            ClientEvent::ClientLogoUriUpdated { .. } => "ClientLogoUriUpdated"@,
            ClientEvent::ClientWebsiteUriUpdated { .. } => "ClientWebsiteUriUpdated"@,
            ClientEvent::ClientWalletAddressUpdated { .. } => "ClientWalletAddressUpdated"@,
            ClientEvent::ClientRemoved { .. } => "ClientRemoved"@,
            ClientEvent::ClientAssignedToGroup { .. } => "ClientAssignedToGroup"@,
            ClientEvent::ClientRemovedFromGroup { .. } => "ClientRemovedFromGroup"@,
            ClientEvent::BalanceAllocatedToClient { .. } => "BalanceAllocatedToClient"@,
            ClientEvent::BalanceWithdrawnFromClient { .. } => "BalanceWithdrawnFromClient"@,
            ClientEvent::ClientBalanceDecremented { .. } => "ClientBalanceDecremented"@,
            ClientEvent::ClientBalanceRanLow { .. } => "ClientBalanceRanLow"@,
        }
    }

    /// The type under which the event is stored: the name of its kind.
    pub fn event_type(&self) -> (s: String)
        ensures
            s@ == self.kind_name(),
    {
        match self {
            ClientEvent::ClientRegistered { .. } => "ClientRegistered".to_string(),
            ClientEvent::ClientNameUpdated { .. } => "ClientNameUpdated".to_string(),
            ClientEvent::ClientLogoUriUpdated { .. } => "ClientLogoUriUpdated".to_string(),
            ClientEvent::ClientWebsiteUriUpdated { .. } => "ClientWebsiteUriUpdated".to_string(),
            ClientEvent::ClientWalletAddressUpdated { .. } => "ClientWalletAddressUpdated".to_string(),
            ClientEvent::ClientRemoved { .. } => "ClientRemoved".to_string(),
            ClientEvent::ClientAssignedToGroup { .. } => "ClientAssignedToGroup".to_string(),
            ClientEvent::ClientRemovedFromGroup { .. } => "ClientRemovedFromGroup".to_string(),
            ClientEvent::BalanceAllocatedToClient { .. } => "BalanceAllocatedToClient".to_string(),
            ClientEvent::BalanceWithdrawnFromClient { .. } => "BalanceWithdrawnFromClient".to_string(),
            ClientEvent::ClientBalanceDecremented { .. } => "ClientBalanceDecremented".to_string(),
            ClientEvent::ClientBalanceRanLow { .. } => "ClientBalanceRanLow".to_string(),
        }
    }

    /// The version under which the event is stored.
    pub fn event_version(&self) -> (s: String)
        ensures
            s@ == "1"@,
    {
        "1".to_string()
    }
}

/// The abstract state of a client: its fields, with texts as character
/// sequences.
pub struct ClientState {
    pub client_id: u128,
    pub name: Seq<char>,
    pub logo_uri: Option<Seq<char>>,
    pub website_uri: Option<Seq<char>>,
    pub wallet_address: Seq<char>,
    pub balance: Option<u64>,
    pub group_id: Option<u128>,
    pub is_deleted: bool,
}

impl View for Client {
    type V = ClientState;

    open spec fn view(&self) -> ClientState {
        ClientState {
            client_id: self.client_id,
            name: self.name@,
            logo_uri: self.logo_uri.deep_view(),
            website_uri: self.website_uri.deep_view(),
            wallet_address: self.wallet_address@,
            balance: self.balance,
            group_id: self.group_id,
            is_deleted: self.is_deleted,
        }
    }
}

impl ClientState {
    /// The state of a client before any event: nil identifier, empty
    /// texts, no balance, no group, not removed.
    pub open spec fn initial() -> ClientState {
        ClientState {
            client_id: 0,
            name: Seq::empty(),
            logo_uri: None,
            website_uri: None,
            wallet_address: Seq::empty(),
            balance: None,
            group_id: None,
            is_deleted: false,
        }
    }

    /// A client exists once it has a non-nil identifier.
    pub open spec fn is_registered(self) -> bool {
        self.client_id != 0
    }

    /// What a command yields on this state: the events to record, or why
    /// it is refused.
    pub open spec fn decide(self, command: ClientCommand) -> Result<Seq<ClientEvent>, ClientError> {
        match command {
            ClientCommand::RegisterClient { client_id, name, logo_uri, website_uri, wallet_address } => {
                if self.is_registered() {
                    Err(ClientError::ClientAlreadyExists)
                } else {
                    Ok(seq![ClientEvent::ClientRegistered { client_id, name, logo_uri, website_uri, wallet_address }])
                }
            },
            _ => if !self.is_registered() {
                Err(ClientError::ClientNotFound)
            } else {
                match command {
                    ClientCommand::UpdateClientName { name } => Ok(seq![ClientEvent::ClientNameUpdated { name }]),
                    ClientCommand::UpdateClientLogoUri { logo_uri } => Ok(seq![ClientEvent::ClientLogoUriUpdated { logo_uri }]),
                    ClientCommand::UpdateClientWebsiteUri { website_uri } => Ok(seq![ClientEvent::ClientWebsiteUriUpdated { website_uri }]),
                    ClientCommand::UpdateClientWalletAddress { wallet_address } => Ok(seq![ClientEvent::ClientWalletAddressUpdated { wallet_address }]),
                    ClientCommand::RemoveClient { client_id } => Ok(seq![ClientEvent::ClientRemoved { client_id, group_id: self.group_id, is_deleted: true }]),
                    ClientCommand::AssignClientToGroup { group_id } => Ok(seq![ClientEvent::ClientAssignedToGroup { client_id: self.client_id, group_id }]),
                    ClientCommand::RemoveClientFromGroup => Ok(seq![ClientEvent::ClientRemovedFromGroup { client_id: self.client_id, group_id: None }]),
                    ClientCommand::AllocateBalanceToClient { amount } => Ok(seq![ClientEvent::BalanceAllocatedToClient { client_id: self.client_id, amount }]),
                    ClientCommand::WithdrawBalanceFromClient { amount } => {
                        if (match self.balance { Some(b) => b, None => 0 }) < amount {
                            Err(ClientError::InsufficientBalance)
                        } else {
                            Ok(seq![ClientEvent::BalanceWithdrawnFromClient { client_id: self.client_id, amount }])
                        }
                    },
                    ClientCommand::RegisterClient { .. } => Err(ClientError::ClientAlreadyExists),
                }
            },
        }
    }

    /// The state after an applicable event.
    pub open spec fn evolve(self, event: ClientEvent) -> ClientState {
        match event {
            ClientEvent::ClientRegistered { client_id, name, logo_uri, website_uri, wallet_address } =>
                ClientState {
                    client_id,
                    name: name@,
                    logo_uri: logo_uri.deep_view(),
                    website_uri: website_uri.deep_view(),
                    wallet_address: wallet_address@,
                    ..self
                },
            ClientEvent::ClientNameUpdated { name } => ClientState { name: name@, ..self },
            ClientEvent::ClientLogoUriUpdated { logo_uri } => ClientState { logo_uri: logo_uri.deep_view(), ..self },
            ClientEvent::ClientWebsiteUriUpdated { website_uri } => ClientState { website_uri: website_uri.deep_view(), ..self },
            ClientEvent::ClientWalletAddressUpdated { wallet_address } => ClientState { wallet_address: wallet_address@, ..self },
            ClientEvent::ClientRemoved { is_deleted, .. } => ClientState { is_deleted, ..ClientState::initial() },
            ClientEvent::ClientAssignedToGroup { group_id, .. } => ClientState { group_id: Some(group_id), ..self },
            ClientEvent::ClientRemovedFromGroup { group_id, .. } => ClientState { group_id, ..self },
            _ => self,
        }
    }

    /// The state after a sequence of events, applied in order.
    pub open spec fn evolve_all(self, events: Seq<ClientEvent>) -> ClientState
        decreases events.len(),
    {
        if events.len() == 0 {
            self
        } else {
            self.evolve(events[0]).evolve_all(events.drop_first())
        }
    }
}

/// Every event of a sequence has a rule.
pub open spec fn all_applicable(events: Seq<ClientEvent>) -> bool {
    forall|i: int| 0 <= i < events.len() ==> (#[trigger] events[i]).is_applicable()
}

impl Client {
    /// The kind of aggregate, as stored with its events.
    pub fn aggregate_type() -> (s: String)
        ensures
            s@ == "client"@,
    {
        "client".to_string()
    }

    /// Decides a command on the current state.
    pub fn handle(&self, command: ClientCommand) -> (r: Result<Vec<ClientEvent>, ClientError>)
        ensures
            events_of(r) == self@.decide(command),
    {
        let has_been_created = !crate::ids::is_nil(self.client_id);
        match command {
            ClientCommand::RegisterClient { client_id, name, logo_uri, website_uri, wallet_address } => {
                if has_been_created {
                    return Err(ClientError::ClientAlreadyExists);
                }
                let events = vec![ClientEvent::ClientRegistered { client_id, name, logo_uri, website_uri, wallet_address }];
                assert(events@ =~= seq![ClientEvent::ClientRegistered { client_id, name, logo_uri, website_uri, wallet_address }]);
                Ok(events)
            },
            other => {
                // every other command needs a registered client
                if !has_been_created {
                    return Err(ClientError::ClientNotFound);
                }
                let event = match other {
                    ClientCommand::UpdateClientName { name } => ClientEvent::ClientNameUpdated { name },
                    ClientCommand::UpdateClientLogoUri { logo_uri } => ClientEvent::ClientLogoUriUpdated { logo_uri },
                    ClientCommand::UpdateClientWebsiteUri { website_uri } => ClientEvent::ClientWebsiteUriUpdated { website_uri },
                    ClientCommand::UpdateClientWalletAddress { wallet_address } => ClientEvent::ClientWalletAddressUpdated { wallet_address },
                    ClientCommand::RemoveClient { client_id } => ClientEvent::ClientRemoved { client_id, group_id: self.group_id, is_deleted: true },
                    ClientCommand::AssignClientToGroup { group_id } => ClientEvent::ClientAssignedToGroup { client_id: self.client_id, group_id },
                    ClientCommand::RemoveClientFromGroup => ClientEvent::ClientRemovedFromGroup { client_id: self.client_id, group_id: None },
                    ClientCommand::AllocateBalanceToClient { amount } => ClientEvent::BalanceAllocatedToClient { client_id: self.client_id, amount },
                    ClientCommand::WithdrawBalanceFromClient { amount } => {
                        let balance = match self.balance {
                            Some(b) => b,
                            None => 0,
                        };
                        if balance < amount {
                            return Err(ClientError::InsufficientBalance);
                        }
                        ClientEvent::BalanceWithdrawnFromClient { client_id: self.client_id, amount }
                    },
                    ClientCommand::RegisterClient { .. } => {
                        return Err(ClientError::ClientAlreadyExists);
                    },
                };
                let events = vec![event];
                assert(events@ =~= seq![event]);
                Ok(events)
            },
        }
    }

    /// Applies a sequence of events in order, as a replay does.
    pub fn apply_all(&mut self, events: &Vec<ClientEvent>)
        requires
            all_applicable(events@),
        ensures
            final(self)@ == old(self)@.evolve_all(events@),
    {
        let ghost start = self@;
        let mut i: usize = 0;
        assert(events@.subrange(0, events.len() as int) =~= events@);
        while i < events.len()
            invariant
                i <= events.len(),
                all_applicable(events@),
                start.evolve_all(events@) == self@.evolve_all(events@.subrange(i as int, events.len() as int)),
            decreases events.len() - i,
        {
            assert(events@[i as int].is_applicable());
            let ghost before = self@;
            self.apply(events[i].clone());
            assert(events@.subrange(i as int, events.len() as int).drop_first()
                =~= events@.subrange(i + 1, events.len() as int));
            i = i + 1;
        }
        assert(events@.subrange(i as int, events.len() as int) =~= Seq::<ClientEvent>::empty());
    }

    /// Applies an event to the state. The balance events have no rule.
    pub fn apply(&mut self, event: ClientEvent)
        requires
            event.is_applicable(),
        ensures
            final(self)@ == old(self)@.evolve(event),
    {
        match event {
            ClientEvent::ClientRegistered { client_id, name, logo_uri, website_uri, wallet_address } => {
                self.client_id = client_id;
                self.name = name;
                self.logo_uri = logo_uri;
                self.website_uri = website_uri;
                self.wallet_address = wallet_address;
            },
            ClientEvent::ClientNameUpdated { name } => {
                self.name = name;
            },
            ClientEvent::ClientLogoUriUpdated { logo_uri } => {
                self.logo_uri = logo_uri;
            },
            ClientEvent::ClientWebsiteUriUpdated { website_uri } => {
                self.website_uri = website_uri;
            },
            ClientEvent::ClientWalletAddressUpdated { wallet_address } => {
                self.wallet_address = wallet_address;
            },
            ClientEvent::ClientRemoved { is_deleted, .. } => {
                *self = Client::default();
                self.is_deleted = is_deleted;
            },
            ClientEvent::ClientAssignedToGroup { group_id, .. } => {
                self.group_id = Some(group_id);
            },
            ClientEvent::ClientRemovedFromGroup { group_id, .. } => {
                self.group_id = group_id;
            },
            _ => {},
        }
    }
}

impl Clone for ClientEvent {
    fn clone(&self) -> (e: ClientEvent)
        ensures
            e == *self,
    {
        match self {
            ClientEvent::ClientRegistered { client_id, name, logo_uri, website_uri, wallet_address } =>
                ClientEvent::ClientRegistered {
                    client_id: *client_id,
                    name: name.clone(),
                    logo_uri: clone_text(logo_uri),
                    website_uri: clone_text(website_uri),
                    wallet_address: wallet_address.clone(),
                },
            ClientEvent::ClientNameUpdated { name } => ClientEvent::ClientNameUpdated { name: name.clone() },
            ClientEvent::ClientLogoUriUpdated { logo_uri } => ClientEvent::ClientLogoUriUpdated { logo_uri: clone_text(logo_uri) },
            ClientEvent::ClientWebsiteUriUpdated { website_uri } => ClientEvent::ClientWebsiteUriUpdated { website_uri: clone_text(website_uri) },
            ClientEvent::ClientWalletAddressUpdated { wallet_address } =>
                ClientEvent::ClientWalletAddressUpdated { wallet_address: wallet_address.clone() },
            ClientEvent::ClientRemoved { client_id, group_id, is_deleted } =>
                ClientEvent::ClientRemoved { client_id: *client_id, group_id: *group_id, is_deleted: *is_deleted },
            ClientEvent::ClientAssignedToGroup { client_id, group_id } =>
                ClientEvent::ClientAssignedToGroup { client_id: *client_id, group_id: *group_id },
            ClientEvent::ClientRemovedFromGroup { client_id, group_id } =>
                ClientEvent::ClientRemovedFromGroup { client_id: *client_id, group_id: *group_id },
            ClientEvent::BalanceAllocatedToClient { client_id, amount } =>
                ClientEvent::BalanceAllocatedToClient { client_id: *client_id, amount: *amount },
            ClientEvent::BalanceWithdrawnFromClient { client_id, amount } =>
                ClientEvent::BalanceWithdrawnFromClient { client_id: *client_id, amount: *amount },
            ClientEvent::ClientBalanceDecremented { client_id, fee_paid } =>
                ClientEvent::ClientBalanceDecremented { client_id: *client_id, fee_paid: *fee_paid },
            ClientEvent::ClientBalanceRanLow { client_id, current_balance } =>
                ClientEvent::ClientBalanceRanLow { client_id: *client_id, current_balance: *current_balance },
        }
    }
}

/// A copy of an optional text.
pub fn clone_text(t: &Option<String>) -> (c: Option<String>)
    ensures
        c == *t,
{
    match t {
        Some(s) => Some(s.clone()),
        None => None,
    }
}

impl Default for Client {
    fn default() -> (c: Client)
        ensures
            c@ == ClientState::initial(),
    {
        Client {
            client_id: 0,
            name: String::new(),
            logo_uri: None,
            website_uri: None,
            wallet_address: String::new(),
            balance: None,
            group_id: None,
            is_deleted: false,
        }
    }
}

} // verus!
