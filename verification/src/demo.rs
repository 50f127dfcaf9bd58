//! Demonstration data: three example groups of clients, each with a
//! funded budget and a history of sponsored transactions over the last
//! months.
use vstd::prelude::*;

use crate::client::ClientCommand;
use crate::group::GroupCommand;
use crate::time::{at_or_before, Timestamp};
use rand::Rng;

verus! {

broadcast use {vstd::string::group_string_axioms, vstd::seq_lib::group_to_multiset_ensures};

/// The budget each demonstration group receives, in nanos.
pub const DEMO_GROUP_FUNDS: u64 = 10_000_000_000;

/// How many transactions each demonstration client gets.
pub const DEMO_TRANSACTIONS_PER_CLIENT: usize = 50;

/// The smallest fee of a demonstration transaction, in nanos.
pub const DEMO_MIN_FEE: u64 = 1_000_000;

/// The largest fee of a demonstration transaction, in nanos.
pub const DEMO_MAX_FEE: u64 = 10_000_000;

/// One demonstration client.
#[derive(Debug)]
pub struct DemoClient {
    pub name: String,
    pub logo_uri: Option<String>,
    pub wallet_address: String,
    /// How many days back its transactions reach.
    pub since_days: u64,
}

/// One demonstration group and its clients.
#[derive(Debug)]
pub struct DemoEcosystem {
    pub name: String,
    pub logo_uri: String,
    pub clients: Vec<DemoClient>,
}

/// A client of a demonstration group, as plain values.
pub open spec fn demo_client_is(c: DemoClient, name: Seq<char>, wallet_address: Seq<char>, since_days: u64) -> bool {
    &&& c.name@ == name
    &&& c.logo_uri is None
    &&& c.wallet_address@ == wallet_address
    &&& c.since_days == since_days
}

fn demo_client(name: &str, wallet_address: &str, since_days: u64) -> (c: DemoClient)
    ensures
        demo_client_is(c, name@, wallet_address@, since_days),
{
    DemoClient { name: name.to_string(), logo_uri: None, wallet_address: wallet_address.to_string(), since_days }
}

/// The EVC ecosystem.
pub fn evc_ecosystem() -> (e: DemoEcosystem)
    ensures
        e.name@ == "EVC Ecosystem"@,
        e.logo_uri@ == "https://evc-nederland.nl/wp-content/uploads/2023/11/evc-nederland_logo-website-1.png"@,
        e.clients@.len() == 3,
        demo_client_is(e.clients@[0], "EVC Nederland"@, "0xdemoaddressA"@, 90),
        demo_client_is(e.clients@[1], "Libereaux"@, "0xdemoaddressB"@, 60),
        demo_client_is(e.clients@[2], "ExamenKamer"@, "0xdemoaddressC"@, 30),
{
    let clients = vec![
        demo_client("EVC Nederland", "0xdemoaddressA", 90),
        demo_client("Libereaux", "0xdemoaddressB", 60),
        demo_client("ExamenKamer", "0xdemoaddressC", 30),
    ];
    DemoEcosystem {
        name: "EVC Ecosystem".to_string(),
        logo_uri: "https://evc-nederland.nl/wp-content/uploads/2023/11/evc-nederland_logo-website-1.png".to_string(),
        clients,
    }
}

/// The SURF ecosystem.
pub fn surf_ecosystem() -> (e: DemoEcosystem)
    ensures
        e.name@ == "SURF Ecosystem"@,
        e.logo_uri@ == "https://images.seeklogo.com/logo-png/51/2/surfnet-logo-png_seeklogo-515342.png"@,
        e.clients@.len() == 3,
        demo_client_is(e.clients@[0], "Rijksuniversiteit Groningen"@, "0xdemoaddressD"@, 90),
        demo_client_is(e.clients@[1], "Avans"@, "0xdemoaddressE"@, 60),
        demo_client_is(e.clients@[2], "Koning Willem I College"@, "0xdemoaddressF"@, 30),
{
    let clients = vec![
        demo_client("Rijksuniversiteit Groningen", "0xdemoaddressD", 90),
        demo_client("Avans", "0xdemoaddressE", 60),
        demo_client("Koning Willem I College", "0xdemoaddressF", 30),
    ];
    DemoEcosystem {
        name: "SURF Ecosystem".to_string(),
        logo_uri: "https://images.seeklogo.com/logo-png/51/2/surfnet-logo-png_seeklogo-515342.png".to_string(),
        clients,
    }
}

/// The technology partners.
pub fn tech_partners() -> (e: DemoEcosystem)
    ensures
        e.name@ == "Tech Partners"@,
        e.logo_uri@ == "https://d315pvdvxi2gex.cloudfront.net/d96a337f84c5c900f31e08818.png"@,
        e.clients@.len() == 3,
        demo_client_is(e.clients@[0], "Filancore"@, "0xdemoaddressG"@, 90),
        demo_client_is(e.clients@[1], "IOTA Foundation"@, "0xdemoaddressH"@, 60),
        demo_client_is(e.clients@[2], "TWIN Foundation"@, "0xdemoaddressI"@, 30),
{
    let clients = vec![
        demo_client("Filancore", "0xdemoaddressG", 90),
        demo_client("IOTA Foundation", "0xdemoaddressH", 60),
        demo_client("TWIN Foundation", "0xdemoaddressI", 30),
    ];
    DemoEcosystem {
        name: "Tech Partners".to_string(),
        logo_uri: "https://d315pvdvxi2gex.cloudfront.net/d96a337f84c5c900f31e08818.png".to_string(),
        clients,
    }
}

/// The identifier that a name yields in the DNS namespace: the
/// name-based (version 5, SHA-1) UUID of the UTF-8 encoding of `name` in
/// the DNS namespace, as a value.
pub uninterp spec fn dns_name_id(name: Seq<char>) -> u128;

/// The name-based identifier of a name in the DNS namespace.
///
/// Calls `uuid::Uuid::new_v5` with `Uuid::NAMESPACE_DNS` and the name's
/// bytes. The SHA-1 based result is named `dns_name_id` of the name; it
/// depends on the name alone.
#[verifier::external_body]
fn dns_name_uuid(name: &str) -> (id: u128)
    ensures
        id == dns_name_id(name@),
{
    uuid::Uuid::new_v5(&uuid::Uuid::NAMESPACE_DNS, name.as_bytes()).as_u128()
}

/// The identifier of a demonstration group, derived from its name so that
/// the group keeps it from one start of the service to the next, and the
/// commands that set the group up: create it, then fund it.
pub fn demo_group_commands(ecosystem: &DemoEcosystem) -> (r: (u128, Vec<GroupCommand>))
    ensures
        r.0 == dns_name_id(ecosystem.name@),
        r.1@.len() == 2,
        r.1@[0] matches GroupCommand::CreateGroup { group_id: g, name, logo_uri: Some(logo) } && g == r.0
            && name@ == ecosystem.name@ && logo@ == ecosystem.logo_uri@,
        r.1@[1] == (GroupCommand::AllocateFundsToGroup { group_id: r.0, amount: DEMO_GROUP_FUNDS }),
{
    let group_id = dns_name_uuid(ecosystem.name.as_str());
    let commands = vec![
        GroupCommand::CreateGroup {
            group_id,
            name: ecosystem.name.clone(),
            logo_uri: Some(ecosystem.logo_uri.clone()),
        },
        GroupCommand::AllocateFundsToGroup { group_id, amount: DEMO_GROUP_FUNDS },
    ];
    (group_id, commands)
}

/// The commands that add a demonstration client to its group: register the
/// client, assign it to the group, and add it to the group's members.
pub fn demo_client_commands(client: &DemoClient, client_id: u128, group_id: u128) -> (r: (
    ClientCommand,
    ClientCommand,
    GroupCommand,
))
    ensures
        r.0 matches ClientCommand::RegisterClient { client_id: c, name, logo_uri, website_uri, wallet_address }
            && c == client_id && name@ == client.name@ && logo_uri == client.logo_uri && website_uri is None
            && wallet_address@ == client.wallet_address@,
        r.1 == (ClientCommand::AssignClientToGroup { group_id }),
        r.2 == (GroupCommand::AddClientToGroup { client_id }),
{
    (
        ClientCommand::RegisterClient {
            client_id,
            name: client.name.clone(),
            logo_uri: crate::client::clone_text(&client.logo_uri),
            website_uri: None,
            wallet_address: client.wallet_address.clone(),
        },
        ClientCommand::AssignClientToGroup { group_id },
        GroupCommand::AddClientToGroup { client_id },
    )
}

/// A uniformly random number from `low` to `high`, both included.
///
/// Calls `rand::rng()` and `Rng::random_range` with `low..=high`; its
/// source panics on an empty range, which `requires` leaves out. Only the
/// bounds are stated: two calls may give any two numbers in range.
#[verifier::external_body]
fn random_in_range(low: u64, high: u64) -> (r: u64)
    requires
        low <= high,
    ensures
        low <= r <= high,
{
    rand::rng().random_range(low..=high)
}

/// Transactions ordered oldest first.
pub open spec fn oldest_first(txs: Seq<(Timestamp, u64)>) -> bool {
    forall|i: int, j: int| 0 <= i < j < txs.len() ==> at_or_before(#[trigger] txs[i].0, #[trigger] txs[j].0)
}

/// Orders transactions oldest first, keeping every one (in no particular
/// order among transactions made at the same time).
pub fn sort_by_time(txs: Vec<(Timestamp, u64)>) -> (sorted: Vec<(Timestamp, u64)>)
    ensures
        sorted@.to_multiset() == txs@.to_multiset(),
        oldest_first(sorted@),
{
    let mut sorted: Vec<(Timestamp, u64)> = Vec::new();
    let mut i: usize = 0;
    while i < txs.len()
        invariant
            i <= txs@.len(),
            sorted@.to_multiset() == txs@.take(i as int).to_multiset(),
            oldest_first(sorted@),
        decreases txs@.len() - i,
    {
        let tx = txs[i];
        let mut p: usize = 0;
        while p < sorted.len()
            invariant
                p <= sorted@.len(),
                forall|y: int| 0 <= y < p ==> at_or_before(#[trigger] sorted@[y].0, tx.0),
            ensures
                p <= sorted@.len(),
                forall|y: int| 0 <= y < p ==> at_or_before(#[trigger] sorted@[y].0, tx.0),
                p < sorted@.len() ==> !at_or_before(sorted@[p as int].0, tx.0),
            decreases sorted@.len() - p,
        {
            if !sorted[p].0.is_at_or_before(&tx.0) {
                break;
            }
            p = p + 1;
        }
        let ghost old_sorted = sorted@;
        sorted.insert(p, tx);
        proof {
            assert(txs@.take(i + 1) =~= txs@.take(i as int).push(tx));
            assert forall|a: int, b: int| 0 <= a < b < sorted@.len() implies at_or_before(
                #[trigger] sorted@[a].0,
                #[trigger] sorted@[b].0,
            ) by {
                if a < p && b < p {
                    assert(sorted@[a] == old_sorted[a] && sorted@[b] == old_sorted[b]);
                } else if a < p && b == p {
                    assert(sorted@[a] == old_sorted[a]);
                } else if a < p && b > p {
                    assert(sorted@[a] == old_sorted[a] && sorted@[b] == old_sorted[b - 1]);
                } else if a == p {
                    assert(sorted@[b] == old_sorted[b - 1]);
                    if b - 1 > p {
                        assert(at_or_before(old_sorted[p as int].0, old_sorted[b - 1].0));
                    }
                } else {
                    assert(sorted@[a] == old_sorted[a - 1] && sorted@[b] == old_sorted[b - 1]);
                }
            }
        }
        i = i + 1;
    }
    assert(txs@.take(i as int) =~= txs@);
    sorted
}

/// The longest demonstration period, in days: the most days a time span can
/// count (`i64::MAX` milliseconds).
pub const DEMO_MAX_DAYS: u64 = 106_751_991;

/// The transactions that drawn values describe: the `i`-th made
/// `offsets[i]` seconds before `now` (at the same fraction of a second) with
/// fee `fees[i]`.
pub open spec fn drawn_transactions(now: Timestamp, offsets: Seq<u64>, fees: Seq<u64>) -> Seq<(Timestamp, u64)> {
    Seq::new(
        offsets.len(),
        |i: int| (Timestamp { seconds: (now.seconds - offsets[i]) as i64, nanos: now.nanos }, fees[i]),
    )
}

/// The demonstration transactions that drawn values describe, oldest first:
/// the `i`-th made `offsets[i]` seconds before `now` with fee `fees[i]`.
pub fn demo_transactions_from(now: Timestamp, offsets: &Vec<u64>, fees: &Vec<u64>) -> (txs: Vec<(Timestamp, u64)>)
    requires
        offsets@.len() == fees@.len(),
        forall|i: int| 0 <= i < offsets@.len() ==> now.seconds - #[trigger] offsets@[i] >= i64::MIN,
    ensures
        txs@.to_multiset() == drawn_transactions(now, offsets@, fees@).to_multiset(),
        oldest_first(txs@),
{
    let mut unsorted: Vec<(Timestamp, u64)> = Vec::new();
    let mut i: usize = 0;
    while i < offsets.len()
        invariant
            i <= offsets@.len(),
            offsets@.len() == fees@.len(),
            forall|k: int| 0 <= k < offsets@.len() ==> now.seconds - #[trigger] offsets@[k] >= i64::MIN,
            unsorted@ == drawn_transactions(now, offsets@, fees@).take(i as int),
        decreases offsets@.len() - i,
    {
        let offset = offsets[i];
        assert(now.seconds - offsets@[i as int] >= i64::MIN);
        let seconds = (now.seconds as i128 - offset as i128) as i64;
        let at = Timestamp { seconds, nanos: now.nanos };
        unsorted.push((at, fees[i]));
        assert(drawn_transactions(now, offsets@, fees@)[i as int] == (at, fees@[i as int]));
        assert(unsorted@ =~= drawn_transactions(now, offsets@, fees@).take(i + 1));
        i = i + 1;
    }
    assert(unsorted@ =~= drawn_transactions(now, offsets@, fees@));
    sort_by_time(unsorted)
}

/// Random demonstration transactions: `count` of them, oldest first. For
/// each one the clock is read once, an offset of up to `since_days` days
/// and a fee from the smallest to the largest demonstration fee are drawn,
/// and the transactions are those the drawn values describe.
pub fn generate_random_transactions(count: usize, since_days: u64) -> (txs: Vec<(Timestamp, u64)>)
    requires
        since_days <= DEMO_MAX_DAYS,
    ensures
        txs@.len() == count,
        oldest_first(txs@),
        exists|now: Timestamp, offsets: Seq<u64>, fees: Seq<u64>| {
            &&& now.seconds >= 0
            &&& now.nanos < 1_000_000_000
            &&& offsets.len() == count
            &&& fees.len() == count
            &&& forall|i: int| 0 <= i < count ==> #[trigger] offsets[i] <= since_days * 86_400
            &&& forall|i: int| 0 <= i < count ==> DEMO_MIN_FEE <= #[trigger] fees[i] <= DEMO_MAX_FEE
            &&& txs@.to_multiset() == drawn_transactions(now, offsets, fees).to_multiset()
        },
{
    let now = crate::time::current_time();
    let span: u64 = since_days * 86_400;
    let mut offsets: Vec<u64> = Vec::new();
    let mut fees: Vec<u64> = Vec::new();
    let mut i: usize = 0;
    while i < count
        invariant
            i <= count,
            offsets@.len() == i,
            fees@.len() == i,
            span == since_days * 86_400,
            forall|k: int| 0 <= k < i ==> #[trigger] offsets@[k] <= span,
            forall|k: int| 0 <= k < i ==> DEMO_MIN_FEE <= #[trigger] fees@[k] <= DEMO_MAX_FEE,
        decreases count - i,
    {
        offsets.push(random_in_range(0, span));
        fees.push(random_in_range(DEMO_MIN_FEE, DEMO_MAX_FEE));
        i = i + 1;
    }
    let txs = demo_transactions_from(now, &offsets, &fees);
    proof {
        assert(txs@.to_multiset().len() == txs@.len());
        assert(drawn_transactions(now, offsets@, fees@).to_multiset().len() == count);
        assert(forall|k: int| 0 <= k < count ==> #[trigger] offsets@[k] <= since_days * 86_400);
    }
    txs
}

} // verus!
