//! The decisions the application services take between reading views and
//! dispatching commands: which client a transaction belongs to, whether a
//! group may pay for it, whether the sponsor wallet can fund an
//! allocation, and which commands a request turns into.
use std::collections::HashMap;
use vstd::prelude::*;

use crate::client::{ClientCommand, ClientState};
use crate::group::{GroupCommand, GroupState};
use crate::sponsor_wallet::SponsorWalletCommand;
use crate::views::{ClientListView, ClientView, GroupListView, GroupView};

verus! {

broadcast use {vstd::string::group_string_axioms, vstd::std_specs::hash::group_hash_axioms};

/// The sum of the balances of all groups in a map.
pub open spec fn total_balance(groups: Map<u128, GroupState>) -> int
    decreases groups.dom().len(),
    when groups.dom().finite()
{
    if groups.dom().len() == 0 {
        0
    } else {
        let k = groups.dom().choose();
        groups[k].balance + total_balance(groups.remove(k))
    }
}

/// The sum does not depend on the key taken first.
pub proof fn lemma_total_balance_remove(groups: Map<u128, GroupState>, k: u128)
    requires
        groups.dom().finite(),
        groups.contains_key(k),
    ensures
        total_balance(groups) == groups[k].balance + total_balance(groups.remove(k)),
    decreases groups.dom().len(),
{
    let c = groups.dom().choose();
    if c != k {
        lemma_total_balance_remove(groups.remove(c), k);
        lemma_total_balance_remove(groups.remove(k), c);
        assert(groups.remove(c).remove(k) =~= groups.remove(k).remove(c));
    }
}

/// The sum of the balances of all groups is not negative.
pub proof fn lemma_total_balance_nonnegative(groups: Map<u128, GroupState>)
    requires
        groups.dom().finite(),
    ensures
        total_balance(groups) >= 0,
    decreases groups.dom().len(),
{
    if groups.dom().len() != 0 {
        lemma_total_balance_nonnegative(groups.remove(groups.dom().choose()));
    }
}

/// The funds already allocated to groups: the sum of all group balances.
pub fn allocated_balance(groups: &GroupListView) -> (total: u128)
    ensures
        total == total_balance(groups@),
        total <= (usize::MAX as int) * (u64::MAX as int),
{
    let m: &HashMap<u128, GroupView> = groups.entries();
    let ghost states = groups@;
    let count = m.len();
    let mut total: u128 = 0;
    let ghost mut visited: Map<u128, GroupState> = Map::empty();
    for (k, v) in it: m.iter()
        invariant
            states == crate::views::group_states(m@),
            count == m@.len(),
            it.index() <= it.seq().len(),
            it.seq().len() == count,
            it.seq().no_duplicates(),
            visited.dom().finite(),
            visited.dom().len() == it.index(),
            forall|j: u128| #[trigger] visited.contains_key(j) ==> states.contains_key(j) && visited[j] == states[j],
            forall|i: int| 0 <= i < it.index() ==> visited.contains_key(*(#[trigger] it.seq()[i]).0),
            forall|j: u128| #[trigger] visited.contains_key(j) ==> exists|i: int| 0 <= i < it.index() && *it.seq()[i].0 == j,
            total == total_balance(visited),
            total <= it.index() * (u64::MAX as int),
    {
        let ghost i = it.index();
        let ghost key = *k;
        proof {
            if visited.contains_key(key) {
                let w = choose|w: int| 0 <= w < i && *it.seq()[w].0 == key;
                assert(it.seq()[w] == it.seq()[i]);
            }
            let next = visited.insert(key, states[key]);
            lemma_total_balance_remove(next, key);
            assert(next.remove(key) =~= visited);
            visited = next;
        }
        let b = v.inner().balance;
        assert(total + b <= (i + 1) * (u64::MAX as int)) by (nonlinear_arith)
            requires total <= i * (u64::MAX as int), b <= u64::MAX;
        assert((i + 1) * (u64::MAX as int) <= u128::MAX) by (nonlinear_arith)
            requires i + 1 <= usize::MAX;
        total = total + b as u128;
    }
    proof {
        assert forall|j: u128| #[trigger] states.contains_key(j) implies visited.contains_key(j) by {
            assert(m@.contains_key(j));
        }
        assert(visited =~= states);
        assert(total <= (usize::MAX as int) * (u64::MAX as int)) by (nonlinear_arith)
            requires total <= count * (u64::MAX as int), count <= usize::MAX;
    }
    total
}

/// Why a service refuses a request.
#[derive(Clone, Copy, Debug, PartialEq, Eq, Structural)]
pub enum ServiceError {
    /// The sponsor wallet cannot cover what is already allocated plus the
    /// requested amount.
    InsufficientSponsorBalance { available: u64, requested: u64 },
    /// No client has the given wallet address.
    ClientNotFoundForAddress,
    /// The client is not assigned to a group, so nothing pays for it.
    ClientNotInGroup { client_id: u128 },
    /// The group's balance does not cover the transaction's gas budget.
    InsufficientGroupBalance { group_id: u128, available: u64, required: u64 },
    /// A registration names neither a website nor both a name and a wallet
    /// address.
    MissingRegistrationDetails,
    /// The transaction bytes handed to the authorisation hook are not
    /// standard base64.
    InvalidTransactionEncoding,
    /// A client is to be registered into a group that does not exist.
    GroupNotFoundForRegistration { client_id: u128, group_id: u128 },
}

/// Whether the sponsor wallet can fund a further allocation: its balance
/// must cover all group balances plus the requested amount.
pub fn check_allocation(sponsor_balance: u64, groups: &GroupListView, amount: u64) -> (r: Result<(), ServiceError>)
    ensures
        r is Ok <==> sponsor_balance >= total_balance(groups@) + amount,
        r is Err ==> r == Err::<(), ServiceError>(
            ServiceError::InsufficientSponsorBalance { available: sponsor_balance, requested: amount },
        ),
{
    let allocated = allocated_balance(groups);
    assert(allocated + amount <= u128::MAX) by (nonlinear_arith)
        requires allocated <= (usize::MAX as int) * (u64::MAX as int), amount <= u64::MAX;
    if (sponsor_balance as u128) < allocated + amount as u128 {
        Err(ServiceError::InsufficientSponsorBalance { available: sponsor_balance, requested: amount })
    } else {
        Ok(())
    }
}

/// Some client of the list has the given wallet address.
pub open spec fn has_client_with_address(clients: Map<u128, ClientState>, address: Seq<char>) -> bool {
    exists|k: u128| clients.contains_key(k) && #[trigger] clients[k].wallet_address == address
}

/// Finds a client by its wallet address. Where several clients share the
/// address, any one of them may be found.
pub fn find_client_by_wallet_address<'a>(clients: &'a ClientListView, address: &String) -> (r: Option<&'a ClientView>)
    ensures
        r is None <==> !has_client_with_address(clients@, address@),
        r matches Some(v) ==> exists|k: u128| clients@.contains_key(k) && clients@[k] == v@ && v@.wallet_address == address@,
{
    let m: &HashMap<u128, ClientView> = clients.entries();
    let ghost states = clients@;
    let count = m.len();
    for (k, v) in it: m.iter()
        invariant
            states == crate::views::client_states(m@),
            states == clients@,
            count == m@.len(),
            it.index() <= it.seq().len(),
            it.seq().len() == count,
            forall|i: int| 0 <= i < it.index() ==> (*(#[trigger] it.seq()[i]).1)@.wallet_address != address@,
    {
        if v.inner().wallet_address == *address {
            assert(m@.contains_key(*k) && m@[*k] == *v);
            assert(states.contains_key(*k) && states[*k] == v@);
            assert(states[*k].wallet_address == address@);
            assert(has_client_with_address(states, address@));
            return Some(v);
        }
    }
    proof {
        assert forall|k: u128| states.contains_key(k) implies #[trigger] states[k].wallet_address != address@ by {
            assert(m@.contains_key(k));
        }
    }
    None
}

/// What recording a sponsored transaction's fee asks of the group of the
/// client that sent it: the group and the command, or nothing where the
/// client is in no group.
pub open spec fn fee_recording_for(
    client: ClientView,
    transaction_fee: u64,
    fee_iot_bits: u64,
    fee_eur_bits: u64,
    fee_usd_bits: u64,
) -> Option<(u128, u128, Seq<char>, u64, u64, u64, u64)> {
    match client@.group_id {
        Some(g) => Some((g, client@.client_id, client@.name, transaction_fee, fee_iot_bits, fee_eur_bits, fee_usd_bits)),
        None => None,
    }
}

/// Decides how to record the fee of a transaction sent from `sender_address`:
/// refused where no client has that address; nothing to do where the
/// client is in no group; otherwise a `RecordTransactionFeePaid` command
/// for the client's group, carrying the client's identifier and name.
pub fn plan_fee_recording(
    clients: &ClientListView,
    sender_address: &String,
    transaction_fee: u64,
    fee_iot_bits: u64,
    fee_eur_bits: u64,
    fee_usd_bits: u64,
) -> (r: Result<Option<(u128, GroupCommand)>, ServiceError>)
    ensures
        r is Err <==> !has_client_with_address(clients@, sender_address@),
        r is Err ==> r == Err::<Option<(u128, GroupCommand)>, ServiceError>(ServiceError::ClientNotFoundForAddress),
        r is Ok ==> exists|k: u128| #![trigger clients@[k]]
            clients@.contains_key(k) && clients@[k].wallet_address == sender_address@ && match clients@[k].group_id {
                None => r == Ok::<Option<(u128, GroupCommand)>, ServiceError>(None),
                Some(g) => r matches Ok(Some((gid, GroupCommand::RecordTransactionFeePaid {
                    client_id,
                    client_name,
                    transaction_fee: fee,
                    transaction_fee_iot_bits,
                    transaction_fee_eur_bits,
                    transaction_fee_usd_bits,
                }))) && gid == g && client_id == clients@[k].client_id && client_name@ == clients@[k].name
                    && fee == transaction_fee && transaction_fee_iot_bits == fee_iot_bits
                    && transaction_fee_eur_bits == fee_eur_bits && transaction_fee_usd_bits == fee_usd_bits,
            },
{
    match find_client_by_wallet_address(clients, sender_address) {
        None => Err(ServiceError::ClientNotFoundForAddress),
        Some(view) => {
            let client = view.inner();
            match client.group_id {
                Some(group_id) => Ok(Some((group_id, GroupCommand::RecordTransactionFeePaid {
                    client_id: client.client_id,
                    client_name: client.name.clone(),
                    transaction_fee,
                    transaction_fee_iot_bits: fee_iot_bits,
                    transaction_fee_eur_bits: fee_eur_bits,
                    transaction_fee_usd_bits: fee_usd_bits,
                }))),
                None => Ok(None),
            }
        },
    }
}

/// The group that pays for a transaction sent from `sender_address`:
/// refused where no client has the address or where the client is in no
/// group.
pub fn paying_group(clients: &ClientListView, sender_address: &String) -> (r: Result<u128, ServiceError>)
    ensures
        !has_client_with_address(clients@, sender_address@) ==> r == Err::<u128, ServiceError>(
            ServiceError::ClientNotFoundForAddress,
        ),
        has_client_with_address(clients@, sender_address@) ==> exists|k: u128| #![trigger clients@[k]]
            clients@.contains_key(k) && clients@[k].wallet_address == sender_address@ && match clients@[k].group_id {
                Some(g) => r == Ok::<u128, ServiceError>(g),
                None => r == Err::<u128, ServiceError>(ServiceError::ClientNotInGroup { client_id: clients@[k].client_id }),
            },
{
    match find_client_by_wallet_address(clients, sender_address) {
        None => Err(ServiceError::ClientNotFoundForAddress),
        Some(view) => match view.inner().group_id {
            Some(group_id) => Ok(group_id),
            None => Err(ServiceError::ClientNotInGroup { client_id: view.inner().client_id }),
        },
    }
}

/// Whether a group can pay for a transaction: its balance must cover the
/// transaction's gas budget.
pub fn authorize_with_group_balance(group_id: u128, group_balance: u64, gas_budget: u64) -> (r: Result<(), ServiceError>)
    ensures
        r is Ok <==> group_balance >= gas_budget,
        r is Err ==> r == Err::<(), ServiceError>(
            ServiceError::InsufficientGroupBalance { group_id, available: group_balance, required: gas_budget },
        ),
{
    if group_balance >= gas_budget {
        Ok(())
    } else {
        Err(ServiceError::InsufficientGroupBalance { group_id, available: group_balance, required: gas_budget })
    }
}

/// The bytes that standard base64 (with padding, no trailing bits) decodes
/// a text into, or `None` where the text is not such base64.
pub uninterp spec fn base64_standard_decoded(text: Seq<char>) -> Option<Seq<u8>>;

/// Decodes standard base64.
///
/// Calls `base64::Engine::decode` of `base64::engine::general_purpose::STANDARD`
/// on the text's bytes. Decoding is a function of the text alone; what it
/// gives is named `base64_standard_decoded` and nothing more is claimed of it.
#[verifier::external_body]
fn decode_base64_standard(text: &str) -> (r: Option<Vec<u8>>)
    ensures
        r.deep_view() == base64_standard_decoded(text@),
{
    base64::Engine::decode(&base64::engine::general_purpose::STANDARD, text).ok()
}

/// The raw transaction bytes that the gas station hands to the
/// authorisation hook, base64-encoded; refused where the text is not
/// standard base64.
pub fn decode_transaction_bytes(tx_bytes: &String) -> (r: Result<Vec<u8>, ServiceError>)
    ensures
        match base64_standard_decoded(tx_bytes@) {
            Some(bytes) => r is Ok && r->Ok_0@ == bytes,
            None => r == Err::<Vec<u8>, ServiceError>(ServiceError::InvalidTransactionEncoding),
        },
{
    match decode_base64_standard(tx_bytes.as_str()) {
        Some(bytes) => Ok(bytes),
        None => Err(ServiceError::InvalidTransactionEncoding),
    }
}

/// The clients that belong to a group.
pub open spec fn members_of(clients: Map<u128, ClientState>, group_id: u128) -> Set<u128> {
    Set::new(|k: u128| clients.contains_key(k) && clients[k].group_id == Some(group_id))
}

/// The clients to take out of a group before it is deleted: every client
/// whose group it is, each once.
pub fn clients_to_unlink(clients: &ClientListView, group_id: u128) -> (ids: Vec<u128>)
    ensures
        ids@.no_duplicates(),
        ids@.to_set() == members_of(clients@, group_id),
{
    let m: &HashMap<u128, ClientView> = clients.entries();
    let ghost states = clients@;
    let mut ids: Vec<u128> = Vec::new();
    let ghost mut witness: Seq<int> = Seq::empty();
    let count = m.len();
    for (k, v) in it: m.iter()
        invariant
            states == crate::views::client_states(m@),
            count == m@.len(),
            it.index() <= it.seq().len(),
            it.seq().len() == count,
            it.seq().no_duplicates(),
            ids@.no_duplicates(),
            witness.len() == ids@.len(),
            forall|y: int| 0 <= y < ids@.len() ==> 0 <= #[trigger] witness[y] < it.index(),
            forall|y: int| 0 <= y < ids@.len() ==> *it.seq()[#[trigger] witness[y]].0 == ids@[y],
            forall|y: int| 0 <= y < ids@.len() ==> (*it.seq()[#[trigger] witness[y]].1)@.group_id == Some(group_id),
            forall|y: int| 0 <= y < ids@.len() ==> states.contains_key(#[trigger] ids@[y]) && states[ids@[y]].group_id == Some(group_id),
            forall|x: int| 0 <= x < it.index() && (*(#[trigger] it.seq()[x]).1)@.group_id == Some(group_id)
                ==> ids@.contains(*it.seq()[x].0),
    {
        let ghost i = it.index();
        let ghost old_ids = ids@;
        proof {
            assert(m@.contains_key(*k) && m@[*k] == *v);
        }
        if v.inner().group_id == Some(group_id) {
            proof {
                if ids@.contains(*k) {
                    let y = choose|y: int| 0 <= y < ids@.len() && ids@[y] == *k;
                    let w = witness[y];
                    assert(m@[*it.seq()[w].0] == *it.seq()[w].1);
                    assert(it.seq()[w] == it.seq()[i]);
                }
            }
            ids.push(*k);
            proof {
                witness = witness.push(i);
                assert forall|x: int| 0 <= x < i + 1 && (*(#[trigger] it.seq()[x]).1)@.group_id == Some(group_id)
                    implies ids@.contains(*it.seq()[x].0) by {
                    if x < i {
                        let y = choose|y: int| 0 <= y < old_ids.len() && old_ids[y] == *it.seq()[x].0;
                        assert(ids@[y] == old_ids[y]);
                    } else {
                        assert(ids@[ids@.len() - 1] == *k);
                    }
                }
            }
        }
    }
    proof {
        assert forall|j: u128| ids@.to_set().contains(j) <==> #[trigger] members_of(states, group_id).contains(j) by {
            if members_of(states, group_id).contains(j) {
                assert(m@.contains_key(j));
            }
            if ids@.contains(j) {
                let y = choose|y: int| 0 <= y < ids@.len() && ids@[y] == j;
                assert(ids@[y] == j);
            }
        }
        assert(ids@.to_set() =~= members_of(states, group_id));
    }
    ids
}

/// What removing a client takes.
#[derive(Clone, Copy, Debug, PartialEq, Eq, Structural)]
pub enum ClientRemovalPlan {
    /// The client is unknown: nothing is done and the removal counts as
    /// done.
    NothingToRemove,
    /// Take the client out of this group first, if any, then remove it.
    Remove { leave_group: Option<u128> },
}

/// Decides how to remove a client, given its view if there is one.
pub fn plan_client_removal(client: Option<&ClientView>) -> (p: ClientRemovalPlan)
    ensures
        client is None ==> p == ClientRemovalPlan::NothingToRemove,
        client matches Some(v) ==> p == (ClientRemovalPlan::Remove { leave_group: v@.group_id }),
{
    match client {
        None => ClientRemovalPlan::NothingToRemove,
        Some(view) => ClientRemovalPlan::Remove { leave_group: view.inner().group_id },
    }
}

/// The details a client publishes about itself for sponsoring, found at a
/// well-known location of its website.
#[derive(Debug)]
pub struct IotaGasStationClientData {
    pub name: String,
    pub logo_uri: Option<String>,
    pub iota_address: String,
}

/// The information needed to register a new client.
#[derive(Debug)]
pub enum ClientRegistration {
    /// The details are given directly.
    Explicit {
        name: String,
        wallet_address: String,
        logo_uri: Option<String>,
        website_uri: Option<String>,
        group_id: Option<u128>,
    },
    /// The details are to be read from the client's website.
    FromWebsiteUrl { website_uri: String, group_id: Option<u128> },
}

/// The details a client is registered with.
#[derive(Debug)]
pub struct RegistrationDetails {
    pub name: String,
    pub wallet_address: String,
    pub logo_uri: Option<String>,
    pub website_uri: Option<String>,
    pub group_id: Option<u128>,
}

/// Chooses the kind of registration from what a request provides: a
/// website, if one is given; otherwise a name and a wallet address, which
/// must then both be given.
pub fn choose_registration(
    name: Option<String>,
    wallet_address: Option<String>,
    logo_uri: Option<String>,
    website_uri: Option<String>,
    group_id: Option<u128>,
) -> (r: Result<ClientRegistration, ServiceError>)
    ensures
        website_uri matches Some(w) ==> (r matches Ok(ClientRegistration::FromWebsiteUrl { website_uri: w2, group_id: g })
            && w2 == w && g == group_id),
        website_uri is None && name is Some && wallet_address is Some ==> (r matches Ok(
            ClientRegistration::Explicit { name: n, wallet_address: a, logo_uri: l, website_uri: None, group_id: g },
        ) && Some(n) == name && Some(a) == wallet_address && l == logo_uri && g == group_id),
        website_uri is None && !(name is Some && wallet_address is Some) ==> r == Err::<ClientRegistration, ServiceError>(
            ServiceError::MissingRegistrationDetails,
        ),
{
    match website_uri {
        Some(website_uri) => Ok(ClientRegistration::FromWebsiteUrl { website_uri, group_id }),
        None => match (name, wallet_address) {
            (Some(name), Some(wallet_address)) => Ok(
                ClientRegistration::Explicit { name, wallet_address, logo_uri, website_uri: None, group_id },
            ),
            _ => Err(ServiceError::MissingRegistrationDetails),
        },
    }
}

/// The well-known path, relative to a client's website, at which it
/// publishes its sponsoring configuration.
pub open spec fn sponsoring_configuration_path() -> Seq<char> {
    "/.well-known/sponsoring-configuration"@
}

/// What resolving `reference` against the URL `base` gives, in serialised
/// form, or `None` where `base` is not a URL or the reference cannot be
/// resolved against it.
pub uninterp spec fn resolved_url(base: Seq<char>, reference: Seq<char>) -> Option<Seq<char>>;

/// Resolves a reference against a base URL.
///
/// Calls `url::Url::parse` on `base`, then `Url::join` with `reference`,
/// and serialises the result with `Url::as_str`. What that gives is named
/// `resolved_url` of the two texts (URL parsing and resolution are a
/// function of the texts alone); nothing more is claimed of it.
#[verifier::external_body]
fn resolve_url(base: &str, reference: &str) -> (r: Option<String>)
    ensures
        r.deep_view() == resolved_url(base@, reference@),
{
    match url::Url::parse(base) {
        Ok(u) => match u.join(reference) {
            Ok(j) => Some(j.as_str().to_string()),
            Err(_) => None,
        },
        Err(_) => None,
    }
}

/// Where a client's sponsoring configuration is published: its website
/// with the well-known path.
pub fn sponsoring_configuration_url(website_uri: &String) -> (r: Option<String>)
    ensures
        r.deep_view() == resolved_url(website_uri@, sponsoring_configuration_path()),
{
    resolve_url(website_uri.as_str(), "/.well-known/sponsoring-configuration")
}

/// The details to register a client with. An explicit registration gives
/// them directly; one from a website takes the name, logo and address the
/// website published and keeps the website as the client's website URI.
pub fn registration_details(registration: ClientRegistration, published: Option<IotaGasStationClientData>) -> (r: Option<
    RegistrationDetails,
>)
    ensures
        registration matches ClientRegistration::Explicit { name, wallet_address, logo_uri, website_uri, group_id }
            ==> (r matches Some(d) && d.name == name && d.wallet_address == wallet_address && d.logo_uri == logo_uri
            && d.website_uri == website_uri && d.group_id == group_id),
        registration is FromWebsiteUrl && published is None ==> r is None,
        registration matches ClientRegistration::FromWebsiteUrl { website_uri, group_id } ==> (published matches Some(p)
            ==> (r matches Some(d) && d.name == p.name && d.wallet_address == p.iota_address && d.logo_uri == p.logo_uri
            && d.website_uri == Some(website_uri) && d.group_id == group_id)),
{
    match registration {
        ClientRegistration::Explicit { name, wallet_address, logo_uri, website_uri, group_id } => Some(
            RegistrationDetails { name, wallet_address, logo_uri, website_uri, group_id },
        ),
        ClientRegistration::FromWebsiteUrl { website_uri, group_id } => match published {
            Some(p) => Some(
                RegistrationDetails {
                    name: p.name,
                    wallet_address: p.iota_address,
                    logo_uri: p.logo_uri,
                    website_uri: Some(website_uri),
                    group_id,
                },
            ),
            None => None,
        },
    }
}

/// The command that registers a client with the given details.
pub fn register_command(client_id: u128, details: RegistrationDetails) -> (c: ClientCommand)
    ensures
        c == (ClientCommand::RegisterClient {
            client_id,
            name: details.name,
            logo_uri: details.logo_uri,
            website_uri: details.website_uri,
            wallet_address: details.wallet_address,
        }),
{
    ClientCommand::RegisterClient {
        client_id,
        name: details.name,
        logo_uri: details.logo_uri,
        website_uri: details.website_uri,
        wallet_address: details.wallet_address,
    }
}

/// The commands that register a client, in order: the registration, then,
/// where the details name a group, the client's assignment to it and the
/// group's new member. Refused where the details name a group that was not
/// found.
pub fn registration_commands(client_id: u128, details: RegistrationDetails, group_found: bool) -> (r: Result<
    (ClientCommand, Option<(ClientCommand, GroupCommand)>),
    ServiceError,
>)
    ensures
        (match details.group_id {
            Some(g) => !group_found && r == Err::<(ClientCommand, Option<(ClientCommand, GroupCommand)>), ServiceError>(
                ServiceError::GroupNotFoundForRegistration { client_id, group_id: g },
            ) || group_found && (r matches Ok((c, Some((assign, add)))) && c == (ClientCommand::RegisterClient {
                client_id,
                name: details.name,
                logo_uri: details.logo_uri,
                website_uri: details.website_uri,
                wallet_address: details.wallet_address,
            }) && assign == (ClientCommand::AssignClientToGroup { group_id: g }) && add == (
            GroupCommand::AddClientToGroup { client_id })),
            None => r matches Ok((c, None)) && c == (ClientCommand::RegisterClient {
                client_id,
                name: details.name,
                logo_uri: details.logo_uri,
                website_uri: details.website_uri,
                wallet_address: details.wallet_address,
            }),
        }),
{
    match details.group_id {
        Some(group_id) => {
            if !group_found {
                return Err(ServiceError::GroupNotFoundForRegistration { client_id, group_id });
            }
            let register = register_command(client_id, details);
            Ok(
                (
                    register,
                    Some((ClientCommand::AssignClientToGroup { group_id }, GroupCommand::AddClientToGroup { client_id })),
                ),
            )
        },
        None => Ok((register_command(client_id, details), None)),
    }
}

/// The commands that an update of a group's name and logo asks for, in
/// order: the name first, if one is given, then the logo, if one is given.
pub fn group_update_commands(name: Option<String>, logo_uri: Option<Option<String>>) -> (cs: Vec<GroupCommand>)
    ensures
        cs@ == (match name {
            Some(n) => seq![GroupCommand::UpdateGroupName { name: n }],
            None => Seq::empty(),
        }) + (match logo_uri {
            Some(l) => seq![GroupCommand::UpdateGroupLogoUri { logo_uri: l }],
            None => Seq::empty(),
        }),
{
    let mut cs: Vec<GroupCommand> = Vec::new();
    let ghost first: Seq<GroupCommand> = Seq::empty();
    if let Some(name) = name {
        proof {
            first = seq![GroupCommand::UpdateGroupName { name }];
        }
        cs.push(GroupCommand::UpdateGroupName { name });
    }
    assert(cs@ =~= first);
    if let Some(logo_uri) = logo_uri {
        cs.push(GroupCommand::UpdateGroupLogoUri { logo_uri });
        assert(cs@ =~= first + seq![GroupCommand::UpdateGroupLogoUri { logo_uri }]);
    } else {
        assert(cs@ =~= first + Seq::<GroupCommand>::empty());
    }
    cs
}

/// The commands that an update of a client asks for, in order: name, logo,
/// website, wallet address, each where one is given.
pub fn client_update_commands(
    name: Option<String>,
    logo_uri: Option<Option<String>>,
    website_uri: Option<Option<String>>,
    wallet_address: Option<String>,
) -> (cs: Vec<ClientCommand>)
    ensures
        cs@ == (match name {
            Some(n) => seq![ClientCommand::UpdateClientName { name: n }],
            None => Seq::empty(),
        }) + (match logo_uri {
            Some(l) => seq![ClientCommand::UpdateClientLogoUri { logo_uri: l }],
            None => Seq::empty(),
        }) + (match website_uri {
            Some(w) => seq![ClientCommand::UpdateClientWebsiteUri { website_uri: w }],
            None => Seq::empty(),
        }) + (match wallet_address {
            Some(a) => seq![ClientCommand::UpdateClientWalletAddress { wallet_address: a }],
            None => Seq::empty(),
        }),
{
    let mut cs: Vec<ClientCommand> = Vec::new();
    let ghost s1: Seq<ClientCommand> = Seq::empty();
    let ghost s2: Seq<ClientCommand> = Seq::empty();
    let ghost s3: Seq<ClientCommand> = Seq::empty();
    let ghost s4: Seq<ClientCommand> = Seq::empty();
    if let Some(name) = name {
        proof {
            s1 = seq![ClientCommand::UpdateClientName { name }];
        }
        cs.push(ClientCommand::UpdateClientName { name });
    }
    assert(cs@ =~= s1);
    if let Some(logo_uri) = logo_uri {
        proof {
            s2 = seq![ClientCommand::UpdateClientLogoUri { logo_uri }];
        }
        cs.push(ClientCommand::UpdateClientLogoUri { logo_uri });
    }
    assert(cs@ =~= s1 + s2);
    if let Some(website_uri) = website_uri {
        proof {
            s3 = seq![ClientCommand::UpdateClientWebsiteUri { website_uri }];
        }
        cs.push(ClientCommand::UpdateClientWebsiteUri { website_uri });
    }
    assert(cs@ =~= s1 + s2 + s3);
    if let Some(wallet_address) = wallet_address {
        proof {
            s4 = seq![ClientCommand::UpdateClientWalletAddress { wallet_address }];
        }
        cs.push(ClientCommand::UpdateClientWalletAddress { wallet_address });
    }
    assert(cs@ =~= s1 + s2 + s3 + s4);
    cs
}

/// The commands that an update of the sponsor wallet's name and logo asks
/// for, in order: the name first, if one is given, then the logo, if one
/// is given.
pub fn sponsor_wallet_update_commands(name: Option<String>, logo_uri: Option<Option<String>>) -> (cs: Vec<
    SponsorWalletCommand,
>)
    ensures
        cs@ == (match name {
            Some(n) => seq![SponsorWalletCommand::UpdateSponsorWalletName { name: n }],
            None => Seq::empty(),
        }) + (match logo_uri {
            Some(l) => seq![SponsorWalletCommand::UpdateSponsorWalletLogoUri { logo_uri: l }],
            None => Seq::empty(),
        }),
{
    let mut cs: Vec<SponsorWalletCommand> = Vec::new();
    let ghost first: Seq<SponsorWalletCommand> = Seq::empty();
    if let Some(name) = name {
        proof {
            first = seq![SponsorWalletCommand::UpdateSponsorWalletName { name }];
        }
        cs.push(SponsorWalletCommand::UpdateSponsorWalletName { name });
    }
    assert(cs@ =~= first);
    if let Some(logo_uri) = logo_uri {
        cs.push(SponsorWalletCommand::UpdateSponsorWalletLogoUri { logo_uri });
        assert(cs@ =~= first + seq![SponsorWalletCommand::UpdateSponsorWalletLogoUri { logo_uri }]);
    } else {
        assert(cs@ =~= first + Seq::<SponsorWalletCommand>::empty());
    }
    cs
}

} // verus!
