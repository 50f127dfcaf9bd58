//! The sponsor wallet aggregate: the service's own wallet, which pays
//! the gas of sponsored transactions.
use vstd::prelude::*;

use crate::client::{clone_text, events_of};

verus! {

broadcast use vstd::string::group_string_axioms;

/// The state of the sponsor wallet, rebuilt from its events.
#[derive(Debug)]
pub struct SponsorWallet {
    /// The identifier of the wallet; empty until it is created.
    pub sponsor_wallet_id: String,
    /// The wallet's address.
    pub address: String,
    /// The wallet's balance, in nanos.
    pub balance: u64,
    /// A display name, once one has been set.
    pub name: Option<String>,
    /// A logo URI, once one has been set.
    pub logo_uri: Option<String>,
}

/// Requests addressed to the sponsor wallet.
#[derive(Debug)]
pub enum SponsorWalletCommand {
    CreateSponsorWallet { sponsor_wallet_id: String, address: String, balance: u64 },
    UpdateSponsorWalletName { name: String },
    UpdateSponsorWalletLogoUri { logo_uri: Option<String> },
    RecordBalanceUpdate { new_balance: u64 },
}

/// Facts recorded about the sponsor wallet.
#[derive(Debug)]
pub enum SponsorWalletEvent {
    SponsorWalletCreated { sponsor_wallet_id: String, address: String, balance: u64 },
    ClientNameUpdated { name: String },
    ClientLogoUriUpdated { logo_uri: Option<String> },
    BalanceUpdateRecorded { new_balance: u64 },
    TransactionFeePaidRecorded { sender_address: String, new_balance: u64 },
}

/// Why a sponsor wallet command was refused.
#[derive(Clone, Copy, Debug, PartialEq, Eq, Structural)]
pub enum SponsorWalletError {
    SponsorWalletAlreadyExists,
    SponsorWalletNotFound,
}

impl SponsorWalletError {
    /// The text of the error.
    pub open spec fn text(self) -> Seq<char> {
        match self {
            SponsorWalletError::SponsorWalletAlreadyExists => "Sponsor wallet already exists"@,
            SponsorWalletError::SponsorWalletNotFound => "Sponsor wallet not found"@,
        }
    }

    /// The text of the error, as the service reports it.
    pub fn message(&self) -> (s: String)
        ensures
            s@ == self.text(),
    {
        match self {
            SponsorWalletError::SponsorWalletAlreadyExists => "Sponsor wallet already exists".to_string(),
            SponsorWalletError::SponsorWalletNotFound => "Sponsor wallet not found".to_string(),
        }
    }
}

impl SponsorWalletEvent {
    /// The name of the event's kind.
    pub open spec fn kind_name(self) -> Seq<char> {
        match self {
            SponsorWalletEvent::SponsorWalletCreated { .. } => "SponsorWalletCreated"@,
            SponsorWalletEvent::ClientNameUpdated { .. } => "ClientNameUpdated"@,
            SponsorWalletEvent::ClientLogoUriUpdated { .. } => "ClientLogoUriUpdated"@,
            SponsorWalletEvent::BalanceUpdateRecorded { .. } => "BalanceUpdateRecorded"@,
            SponsorWalletEvent::TransactionFeePaidRecorded { .. } => "TransactionFeePaidRecorded"@,
        }
    }

    /// The type under which the event is stored: the name of its kind.
    pub fn event_type(&self) -> (s: String)
        ensures
            s@ == self.kind_name(),
    {
        match self {
            SponsorWalletEvent::SponsorWalletCreated { .. } => "SponsorWalletCreated".to_string(),
            SponsorWalletEvent::ClientNameUpdated { .. } => "ClientNameUpdated".to_string(),
            SponsorWalletEvent::ClientLogoUriUpdated { .. } => "ClientLogoUriUpdated".to_string(),
            SponsorWalletEvent::BalanceUpdateRecorded { .. } => "BalanceUpdateRecorded".to_string(),
            SponsorWalletEvent::TransactionFeePaidRecorded { .. } => "TransactionFeePaidRecorded".to_string(),
        }
    }

    /// The version under which the event is stored.
    pub fn event_version(&self) -> (s: String)
        ensures
            s@ == "1"@,
    {
        "1".to_string()
    }
}

/// The abstract state of the sponsor wallet, with texts as character
/// sequences.
pub struct SponsorWalletState {
    pub sponsor_wallet_id: Seq<char>,
    pub address: Seq<char>,
    pub balance: u64,
    pub name: Option<Seq<char>>,
    pub logo_uri: Option<Seq<char>>,
}

impl View for SponsorWallet {
    type V = SponsorWalletState;

    open spec fn view(&self) -> SponsorWalletState {
        SponsorWalletState {
            sponsor_wallet_id: self.sponsor_wallet_id@,
            address: self.address@,
            balance: self.balance,
            name: self.name.deep_view(),
            logo_uri: self.logo_uri.deep_view(),
        }
    }
}

impl SponsorWalletState {
    /// The state before any event: empty identifier and address, zero
    /// balance, no name, no logo.
    pub open spec fn initial() -> SponsorWalletState {
        SponsorWalletState {
            sponsor_wallet_id: Seq::empty(),
            address: Seq::empty(),
            balance: 0,
            name: None,
            logo_uri: None,
        }
    }

    /// The wallet exists once its identifier is not empty.
    pub open spec fn is_created(self) -> bool {
        self.sponsor_wallet_id.len() != 0
    }

    /// What a command yields on this state.
    pub open spec fn decide(self, command: SponsorWalletCommand) -> Result<Seq<SponsorWalletEvent>, SponsorWalletError> {
        match command {
            SponsorWalletCommand::CreateSponsorWallet { sponsor_wallet_id, address, balance } => {
                if self.is_created() {
                    Err(SponsorWalletError::SponsorWalletAlreadyExists)
                } else {
                    Ok(seq![SponsorWalletEvent::SponsorWalletCreated { sponsor_wallet_id, address, balance }])
                }
            },
            SponsorWalletCommand::UpdateSponsorWalletName { name } => if !self.is_created() {
                Err(SponsorWalletError::SponsorWalletNotFound)
            } else {
                Ok(seq![SponsorWalletEvent::ClientNameUpdated { name }])
            },
            SponsorWalletCommand::UpdateSponsorWalletLogoUri { logo_uri } => if !self.is_created() {
                Err(SponsorWalletError::SponsorWalletNotFound)
            } else {
                Ok(seq![SponsorWalletEvent::ClientLogoUriUpdated { logo_uri }])
            },
            SponsorWalletCommand::RecordBalanceUpdate { new_balance } => if !self.is_created() {
                Err(SponsorWalletError::SponsorWalletNotFound)
            } else {
                Ok(seq![SponsorWalletEvent::BalanceUpdateRecorded { new_balance }])
            },
        }
    }

    /// The state after an event.
    pub open spec fn evolve(self, event: SponsorWalletEvent) -> SponsorWalletState {
        match event {
            SponsorWalletEvent::SponsorWalletCreated { sponsor_wallet_id, address, balance } =>
                SponsorWalletState { sponsor_wallet_id: sponsor_wallet_id@, address: address@, balance, ..self },
            SponsorWalletEvent::ClientNameUpdated { name } => SponsorWalletState { name: Some(name@), ..self },
            SponsorWalletEvent::ClientLogoUriUpdated { logo_uri } => SponsorWalletState { logo_uri: logo_uri.deep_view(), ..self },
            SponsorWalletEvent::BalanceUpdateRecorded { new_balance } => SponsorWalletState { balance: new_balance, ..self },
            SponsorWalletEvent::TransactionFeePaidRecorded { new_balance, .. } => SponsorWalletState { balance: new_balance, ..self },
        }
    }
}

impl SponsorWallet {
    /// The kind of aggregate, as stored with its events.
    pub fn aggregate_type() -> (s: String)
        ensures
            s@ == "sponsor_wallet"@,
    {
        "sponsor_wallet".to_string()
    }

    /// Decides a command on the current state.
    pub fn handle(&self, command: SponsorWalletCommand) -> (r: Result<Vec<SponsorWalletEvent>, SponsorWalletError>)
        ensures
            events_of(r) == self@.decide(command),
    {
        let has_been_created = !self.sponsor_wallet_id.as_str().is_empty();
        let event = match command {
            SponsorWalletCommand::CreateSponsorWallet { sponsor_wallet_id, address, balance } => {
                if has_been_created {
                    return Err(SponsorWalletError::SponsorWalletAlreadyExists);
                }
                SponsorWalletEvent::SponsorWalletCreated { sponsor_wallet_id, address, balance }
            },
            SponsorWalletCommand::UpdateSponsorWalletName { name } => {
                if !has_been_created {
                    return Err(SponsorWalletError::SponsorWalletNotFound);
                }
                SponsorWalletEvent::ClientNameUpdated { name }
            },
            SponsorWalletCommand::UpdateSponsorWalletLogoUri { logo_uri } => {
                if !has_been_created {
                    return Err(SponsorWalletError::SponsorWalletNotFound);
                }
                SponsorWalletEvent::ClientLogoUriUpdated { logo_uri }
            },
            SponsorWalletCommand::RecordBalanceUpdate { new_balance } => {
                if !has_been_created {
                    return Err(SponsorWalletError::SponsorWalletNotFound);
                }
                SponsorWalletEvent::BalanceUpdateRecorded { new_balance }
            },
        };
        let events = vec![event];
        assert(events@ =~= seq![event]);
        Ok(events)
    }

    /// Applies an event to the state.
    pub fn apply(&mut self, event: SponsorWalletEvent)
        ensures
            final(self)@ == old(self)@.evolve(event),
    {
        match event {
            SponsorWalletEvent::SponsorWalletCreated { sponsor_wallet_id, address, balance } => {
                self.sponsor_wallet_id = sponsor_wallet_id;
                self.address = address;
                self.balance = balance;
            },
            SponsorWalletEvent::ClientNameUpdated { name } => {
                self.name = Some(name);
            },
            SponsorWalletEvent::ClientLogoUriUpdated { logo_uri } => {
                self.logo_uri = logo_uri;
            },
            SponsorWalletEvent::BalanceUpdateRecorded { new_balance } => {
                self.balance = new_balance;
            },
            SponsorWalletEvent::TransactionFeePaidRecorded { new_balance, .. } => {
                self.balance = new_balance;
            },
        }
    }
}

impl Clone for SponsorWalletEvent {
    fn clone(&self) -> (e: SponsorWalletEvent)
        ensures
            e == *self,
    {
        match self {
            SponsorWalletEvent::SponsorWalletCreated { sponsor_wallet_id, address, balance } =>
                SponsorWalletEvent::SponsorWalletCreated {
                    sponsor_wallet_id: sponsor_wallet_id.clone(),
                    address: address.clone(),
                    balance: *balance,
                },
            SponsorWalletEvent::ClientNameUpdated { name } => SponsorWalletEvent::ClientNameUpdated { name: name.clone() },
            SponsorWalletEvent::ClientLogoUriUpdated { logo_uri } =>
                SponsorWalletEvent::ClientLogoUriUpdated { logo_uri: clone_text(logo_uri) },
            SponsorWalletEvent::BalanceUpdateRecorded { new_balance } =>
                SponsorWalletEvent::BalanceUpdateRecorded { new_balance: *new_balance },
            SponsorWalletEvent::TransactionFeePaidRecorded { sender_address, new_balance } =>
                SponsorWalletEvent::TransactionFeePaidRecorded { sender_address: sender_address.clone(), new_balance: *new_balance },
        }
    }
}

impl Default for SponsorWallet {
    fn default() -> (w: SponsorWallet)
        ensures
            w@ == SponsorWalletState::initial(),
    {
        SponsorWallet {
            sponsor_wallet_id: String::new(),
            address: String::new(),
            balance: 0,
            name: None,
            logo_uri: None,
        }
    }
}

} // verus!
