//! What the query and mutation endpoints decide: how a status is shown,
//! which clients and groups are listed, which transactions a query
//! returns and in what order, and whether a request opens a subscription.
use std::collections::HashMap;
use vstd::prelude::*;

use crate::client::ClientState;
use crate::group::{GroupState, Status, Variant};
use crate::time::{at_or_before, Timestamp};
use crate::views::{
    ClientListView, ClientView, GroupListView, GroupView, SponsorshipTransactionListView,
    SponsorshipTransactionState, SponsorshipTransactionView,
};

verus! {

broadcast use {vstd::string::group_string_axioms, vstd::std_specs::hash::group_hash_axioms};

/// A group status as the API shows it.
#[derive(Debug)]
pub struct StatusDto {
    pub variant: String,
}

/// The name under which the API shows a status variant.
pub open spec fn variant_name(v: Variant) -> Seq<char> {
    match v {
        Variant::Action => "action"@,
        Variant::Warning => "warning"@,
        Variant::Success => "success"@,
    }
}

/// The variant a name stands for; an unknown name stands for the default
/// variant, `Success`.
pub open spec fn variant_named(name: Seq<char>) -> Variant {
    if name == "action"@ {
        Variant::Action
    } else if name == "warning"@ {
        Variant::Warning
    } else {
        Variant::Success
    }
}

impl StatusDto {
    /// How the API shows a status.
    pub fn from_status(status: Status) -> (d: StatusDto)
        ensures
            d.variant@ == variant_name(status.variant),
    {
        let variant = match status.variant {
            Variant::Action => "action".to_string(),
            Variant::Warning => "warning".to_string(),
            Variant::Success => "success".to_string(),
        };
        StatusDto { variant }
    }

    /// The status the API input stands for.
    pub fn into_status(self) -> (s: Status)
        ensures
            s.variant == variant_named(self.variant@),
    {
        let action = "action".to_string();
        let warning = "warning".to_string();
        let variant = if self.variant == action {
            Variant::Action
        } else if self.variant == warning {
            Variant::Warning
        } else {
            Variant::Success
        };
        Status { variant }
    }
}

/// Whether a request asks to be upgraded to a WebSocket: its `upgrade`
/// header is present and is exactly `websocket`.
pub open spec fn is_websocket_upgrade(upgrade_header: Option<Seq<u8>>) -> bool {
    match upgrade_header {
        Some(value) => value == "websocket"@.map_values(|c: char| c as u8),
        None => false,
    }
}

/// Serves GraphQL over HTTP, and subscriptions over WebSocket.
#[derive(Clone, Debug)]
pub struct GraphQLEndpointService<E> {
    pub executor: E,
}

impl<E> GraphQLEndpointService<E> {
    /// An endpoint that runs requests with the given executor.
    pub fn new(executor: E) -> (s: Self)
        ensures
            s.executor == executor,
    {
        Self { executor }
    }

    /// Whether a request goes to the subscription endpoint: only where its
    /// `upgrade` header, given by its bytes, is `websocket`.
    pub fn routes_to_subscription(upgrade_header: Option<&[u8]>) -> (r: bool)
        ensures
            r == is_websocket_upgrade(
                match upgrade_header {
                    Some(v) => Some(v@),
                    None => None,
                },
            ),
    {
        match upgrade_header {
            None => false,
            Some(value) => {
                let expected: [u8; 9] = [119, 101, 98, 115, 111, 99, 107, 101, 116];
                proof {
                    reveal_strlit("websocket");
                    assert("websocket"@.map_values(|c: char| c as u8) =~= expected@);
                }
                if value.len() != 9 {
                    return false;
                }
                let mut i: usize = 0;
                while i < 9
                    invariant
                        value@.len() == 9,
                        upgrade_header == Some(value),
                        "websocket"@.map_values(|c: char| c as u8) == expected@,
                        i <= 9,
                        forall|j: int| 0 <= j < i ==> value@[j] == expected@[j],
                    decreases 9 - i,
                {
                    if value[i] != expected[i] {
                        assert(value@[i as int] != expected@[i as int]);
                        return false;
                    }
                    i = i + 1;
                }
                assert(value@ =~= expected@);
                true
            },
        }
    }
}

/// Which sponsored transactions a query asks for.
#[derive(Clone, Copy, Debug, PartialEq, Eq, Structural)]
pub enum TransactionFilter {
    /// All transactions.
    All,
    /// The transactions of one client.
    OfClient { client_id: u128 },
    /// The transactions paid by one group.
    OfGroup { group_id: u128 },
    /// The transactions made from `start` to `end`, both included.
    Between { start: Timestamp, end: Timestamp },
}

impl TransactionFilter {
    /// Whether a transaction record is asked for.
    pub open spec fn selects(self, t: SponsorshipTransactionState) -> bool {
        match self {
            TransactionFilter::All => true,
            TransactionFilter::OfClient { client_id } => t.client_id == client_id,
            TransactionFilter::OfGroup { group_id } => t.group_id == group_id,
            TransactionFilter::Between { start, end } => at_or_before(start, t.timestamp) && at_or_before(t.timestamp, end),
        }
    }

    /// Whether a transaction record is asked for.
    pub fn accepts(&self, t: &SponsorshipTransactionView) -> (r: bool)
        ensures
            r == self.selects(t@),
    {
        match self {
            TransactionFilter::All => true,
            TransactionFilter::OfClient { client_id } => t.client_id == *client_id,
            TransactionFilter::OfGroup { group_id } => t.group_id == *group_id,
            TransactionFilter::Between { start, end } => start.is_at_or_before(&t.timestamp)
                && t.timestamp.is_at_or_before(end),
        }
    }
}

/// The identifiers of the transactions of a list that a filter asks for.
pub open spec fn selected_ids(
    transactions: Map<u128, SponsorshipTransactionState>,
    filter: TransactionFilter,
) -> Set<u128> {
    Set::new(|k: u128| transactions.contains_key(k) && filter.selects(transactions[k]))
}

/// Transaction identifiers ordered newest first by the times recorded for
/// them.
pub open spec fn newest_first(keys: Seq<u128>, transactions: Map<u128, SponsorshipTransactionState>) -> bool {
    forall|i: int, j: int|
        0 <= i < j < keys.len() ==> at_or_before(
            #[trigger] transactions[keys[j]].timestamp,
            #[trigger] transactions[keys[i]].timestamp,
        )
}

/// Selects the transactions a filter asks for, newest first (in no
/// particular order among transactions made at the same time): their
/// identifiers, and copies of their records in the same order.
pub fn select_transactions(list: &SponsorshipTransactionListView, filter: TransactionFilter) -> (r: (
    Vec<u128>,
    Vec<SponsorshipTransactionView>,
))
    ensures
        r.0@.no_duplicates(),
        r.0@.to_set() == selected_ids(list@, filter),
        newest_first(r.0@, list@),
        r.1@.len() == r.0@.len(),
        forall|i: int| 0 <= i < r.0@.len() ==> (#[trigger] r.1@[i])@ == list@[r.0@[i]],
{
    let m: &HashMap<u128, SponsorshipTransactionView> = list.entries();
    let ghost states = list@;
    let mut keys: Vec<u128> = Vec::new();
    let ghost mut witness: Seq<int> = Seq::empty();
    let count = m.len();
    for (k, v) in it: m.iter()
        invariant
            states == crate::views::transaction_states(m@),
            count == m@.len(),
            it.index() <= it.seq().len(),
            it.seq().len() == count,
            it.seq().no_duplicates(),
            keys@.no_duplicates(),
            forall|y: int| 0 <= y < keys@.len() ==> states.contains_key(#[trigger] keys@[y]) && filter.selects(states[keys@[y]]),
            witness.len() == keys@.len(),
            forall|y: int| 0 <= y < keys@.len() ==> 0 <= #[trigger] witness[y] < it.index(),
            forall|y: int| 0 <= y < keys@.len() ==> *it.seq()[#[trigger] witness[y]].0 == keys@[y],
            forall|x: int| 0 <= x < it.index() && filter.selects((*(#[trigger] it.seq()[x]).1)@)
                ==> keys@.contains(*it.seq()[x].0),
            newest_first(keys@, states),
    {
        let ghost i = it.index();
        let ghost old_keys = keys@;
        proof {
            assert(m@.contains_key(*k) && m@[*k] == *v);
        }
        if filter.accepts(v) {
            let t = v.timestamp;
            // find where the record belongs, after every record made at the
            // same time or later
            let mut p: usize = 0;
            while p < keys.len()
                invariant
                    p <= keys@.len(),
                    keys@ == old_keys,
                    states == crate::views::transaction_states(m@),
                    forall|y: int| 0 <= y < keys@.len() ==> states.contains_key(#[trigger] keys@[y]),
                    forall|y: int| 0 <= y < p ==> at_or_before(t, #[trigger] states[keys@[y]].timestamp),
                ensures
                    p <= keys@.len(),
                    forall|y: int| 0 <= y < p ==> at_or_before(t, #[trigger] states[keys@[y]].timestamp),
                    p < keys@.len() ==> !at_or_before(t, states[keys@[p as int]].timestamp),
                decreases keys@.len() - p,
            {
                assert(states.contains_key(keys@[p as int]));
                assert(m@.contains_key(keys@[p as int]));
                let other = m.get(&keys[p]);
                match other {
                    Some(o) => {
                        if !t.is_at_or_before(&o.timestamp) {
                            break;
                        }
                    },
                    None => {
                        break;
                    },
                }
                p = p + 1;
            }
            proof {
                if p < keys@.len() {
                    assert(states.contains_key(keys@[p as int]));
                    assert(m@.contains_key(keys@[p as int]));
                }
                if keys@.contains(*k) {
                    let y = choose|y: int| 0 <= y < keys@.len() && keys@[y] == *k;
                    let w = witness[y];
                    assert(m@[*it.seq()[w].0] == *it.seq()[w].1);
                    assert(it.seq()[w] == it.seq()[i]);
                }
            }
            keys.insert(p, *k);
            proof {
                assert(keys@ == old_keys.insert(p as int, *k));
                witness = witness.insert(p as int, i);
                assert forall|y: int| 0 <= y < keys@.len() implies 0 <= #[trigger] witness[y] < i + 1
                    && *it.seq()[witness[y]].0 == keys@[y] by {
                    if y < p {
                        assert(keys@[y] == old_keys[y]);
                    } else if y > p {
                        assert(keys@[y] == old_keys[y - 1]);
                    } else {
                        assert(*it.seq()[i].0 == keys@[y]);
                    }
                }
                assert forall|x: int| 0 <= x < i + 1 && filter.selects((*(#[trigger] it.seq()[x]).1)@)
                    implies keys@.contains(*it.seq()[x].0) by {
                    if x < i {
                        let y = choose|y: int| 0 <= y < old_keys.len() && old_keys[y] == *it.seq()[x].0;
                        if y < p {
                            assert(keys@[y] == old_keys[y]);
                        } else {
                            assert(keys@[y + 1] == old_keys[y]);
                        }
                    } else {
                        assert(keys@[p as int] == *k);
                    }
                }
                assert forall|y: int| 0 <= y < keys@.len() implies states.contains_key(#[trigger] keys@[y])
                    && filter.selects(states[keys@[y]]) by {
                    if y < p {
                        assert(keys@[y] == old_keys[y]);
                    } else if y > p {
                        assert(keys@[y] == old_keys[y - 1]);
                    }
                }
                assert forall|a: int, b: int| 0 <= a < b < keys@.len() implies at_or_before(
                    #[trigger] states[keys@[b]].timestamp,
                    #[trigger] states[keys@[a]].timestamp,
                ) by {
                    let ta = states[keys@[a]].timestamp;
                    let tb = states[keys@[b]].timestamp;
                    if a < p && b < p {
                        assert(keys@[a] == old_keys[a] && keys@[b] == old_keys[b]);
                    } else if a < p && b == p {
                        assert(keys@[a] == old_keys[a]);
                    } else if a < p && b > p {
                        assert(keys@[a] == old_keys[a] && keys@[b] == old_keys[b - 1]);
                    } else if a == p {
                        assert(keys@[b] == old_keys[b - 1]);
                        assert(states[old_keys[p as int]].timestamp == states[old_keys[p as int]].timestamp);
                        if b - 1 > p {
                            assert(at_or_before(states[old_keys[b - 1]].timestamp, states[old_keys[p as int]].timestamp));
                        }
                    } else {
                        assert(keys@[a] == old_keys[a - 1] && keys@[b] == old_keys[b - 1]);
                    }
                }
                assert(keys@.no_duplicates()) by {
                    assert forall|a: int, b: int| 0 <= a < b < keys@.len() implies keys@[a] != keys@[b] by {
                        if a == p {
                            assert(keys@[b] == old_keys[b - 1]);
                        } else if b == p {
                            assert(keys@[a] == old_keys[a]);
                        } else {
                            let oa = if a < p { a } else { a - 1 };
                            let ob = if b < p { b } else { b - 1 };
                            assert(keys@[a] == old_keys[oa] && keys@[b] == old_keys[ob]);
                        }
                    }
                }
            }
        }
    }
    proof {
        assert forall|j: u128| keys@.to_set().contains(j) <==> #[trigger] selected_ids(states, filter).contains(j) by {
            if selected_ids(states, filter).contains(j) {
                assert(m@.contains_key(j));
            }
            if keys@.contains(j) {
                let y = choose|y: int| 0 <= y < keys@.len() && keys@[y] == j;
                assert(keys@[y] == j);
            }
        }
        assert(keys@.to_set() =~= selected_ids(states, filter));
    }
    let mut records: Vec<SponsorshipTransactionView> = Vec::new();
    let mut i: usize = 0;
    while i < keys.len()
        invariant
            i <= keys@.len(),
            records@.len() == i,
            states == crate::views::transaction_states(m@),
            forall|y: int| 0 <= y < keys@.len() ==> states.contains_key(#[trigger] keys@[y]),
            forall|y: int| 0 <= y < i ==> (#[trigger] records@[y])@ == states[keys@[y]],
        decreases keys@.len() - i,
    {
        assert(states.contains_key(keys@[i as int]));
        match m.get(&keys[i]) {
            Some(record) => {
                records.push(record.duplicate());
            },
            None => {
                assert(false);
                records.push(SponsorshipTransactionView::default());
            },
        }
        i = i + 1;
    }
    (keys, records)
}

/// The clients a list shows: those not removed.
pub open spec fn visible_clients(entries: Map<u128, ClientState>) -> Set<u128> {
    Set::new(|k: u128| entries.contains_key(k) && !entries[k].is_deleted)
}

/// The identifiers of the clients a list shows: those not removed, each
/// once.
pub fn visible_client_ids(list: &ClientListView) -> (ids: Vec<u128>)
    ensures
        ids@.no_duplicates(),
        ids@.to_set() == visible_clients(list@),
{
    let m: &HashMap<u128, ClientView> = list.entries();
    let ghost states = list@;
    let mut ids: Vec<u128> = Vec::new();
    let ghost mut witness: Seq<int> = Seq::empty();
    let count = m.len();
    for (k, v) in it: m.iter()
        invariant
            states == crate::views::client_states(m@),
            count == m@.len(),
            it.index() <= it.seq().len(),
            it.seq().len() == count,
            it.seq().no_duplicates(),
            ids@.no_duplicates(),
            witness.len() == ids@.len(),
            forall|y: int| 0 <= y < ids@.len() ==> 0 <= #[trigger] witness[y] < it.index(),
            forall|y: int| 0 <= y < ids@.len() ==> *it.seq()[#[trigger] witness[y]].0 == ids@[y],
            forall|y: int| 0 <= y < ids@.len() ==> states.contains_key(#[trigger] ids@[y]) && !states[ids@[y]].is_deleted,
            forall|x: int| 0 <= x < it.index() && !(*(#[trigger] it.seq()[x]).1)@.is_deleted
                ==> ids@.contains(*it.seq()[x].0),
    {
        let ghost i = it.index();
        let ghost old_ids = ids@;
        proof {
            assert(m@.contains_key(*k) && m@[*k] == *v);
        }
        if !v.inner().is_deleted {
            proof {
                if ids@.contains(*k) {
                    let y = choose|y: int| 0 <= y < ids@.len() && ids@[y] == *k;
                    let w = witness[y];
                    assert(m@[*it.seq()[w].0] == *it.seq()[w].1);
                    assert(it.seq()[w] == it.seq()[i]);
                }
            }
            ids.push(*k);
            proof {
                witness = witness.push(i);
                assert forall|x: int| 0 <= x < i + 1 && !(*(#[trigger] it.seq()[x]).1)@.is_deleted
                    implies ids@.contains(*it.seq()[x].0) by {
                    if x < i {
                        let y = choose|y: int| 0 <= y < old_ids.len() && old_ids[y] == *it.seq()[x].0;
                        assert(ids@[y] == old_ids[y]);
                    } else {
                        assert(ids@[ids@.len() - 1] == *k);
                    }
                }
            }
        }
    }
    proof {
        assert forall|j: u128| ids@.to_set().contains(j) <==> #[trigger] visible_clients(states).contains(j) by {
            if visible_clients(states).contains(j) {
                assert(m@.contains_key(j));
            }
            if ids@.contains(j) {
                let y = choose|y: int| 0 <= y < ids@.len() && ids@[y] == j;
                assert(ids@[y] == j);
            }
        }
        assert(ids@.to_set() =~= visible_clients(states));
    }
    ids
}

/// The groups a list shows: those not deleted.
pub open spec fn visible_groups(entries: Map<u128, GroupState>) -> Set<u128> {
    Set::new(|k: u128| entries.contains_key(k) && !entries[k].is_deleted)
}

/// The identifiers of the groups a list shows: those not deleted, each
/// once.
pub fn visible_group_ids(list: &GroupListView) -> (ids: Vec<u128>)
    ensures
        ids@.no_duplicates(),
        ids@.to_set() == visible_groups(list@),
{
    let m: &HashMap<u128, GroupView> = list.entries();
    let ghost states = list@;
    let mut ids: Vec<u128> = Vec::new();
    let ghost mut witness: Seq<int> = Seq::empty();
    let count = m.len();
    for (k, v) in it: m.iter()
        invariant
            states == crate::views::group_states(m@),
            count == m@.len(),
            it.index() <= it.seq().len(),
            it.seq().len() == count,
            it.seq().no_duplicates(),
            ids@.no_duplicates(),
            witness.len() == ids@.len(),
            forall|y: int| 0 <= y < ids@.len() ==> 0 <= #[trigger] witness[y] < it.index(),
            forall|y: int| 0 <= y < ids@.len() ==> *it.seq()[#[trigger] witness[y]].0 == ids@[y],
            forall|y: int| 0 <= y < ids@.len() ==> states.contains_key(#[trigger] ids@[y]) && !states[ids@[y]].is_deleted,
            forall|x: int| 0 <= x < it.index() && !(*(#[trigger] it.seq()[x]).1)@.is_deleted
                ==> ids@.contains(*it.seq()[x].0),
    {
        let ghost i = it.index();
        let ghost old_ids = ids@;
        proof {
            assert(m@.contains_key(*k) && m@[*k] == *v);
        }
        if !v.inner().is_deleted {
            proof {
                if ids@.contains(*k) {
                    let y = choose|y: int| 0 <= y < ids@.len() && ids@[y] == *k;
                    let w = witness[y];
                    assert(m@[*it.seq()[w].0] == *it.seq()[w].1);
                    assert(it.seq()[w] == it.seq()[i]);
                }
            }
            ids.push(*k);
            proof {
                witness = witness.push(i);
                assert forall|x: int| 0 <= x < i + 1 && !(*(#[trigger] it.seq()[x]).1)@.is_deleted
                    implies ids@.contains(*it.seq()[x].0) by {
                    if x < i {
                        let y = choose|y: int| 0 <= y < old_ids.len() && old_ids[y] == *it.seq()[x].0;
                        assert(ids@[y] == old_ids[y]);
                    } else {
                        assert(ids@[ids@.len() - 1] == *k);
                    }
                }
            }
        }
    }
    proof {
        assert forall|j: u128| ids@.to_set().contains(j) <==> #[trigger] visible_groups(states).contains(j) by {
            if visible_groups(states).contains(j) {
                assert(m@.contains_key(j));
            }
            if ids@.contains(j) {
                let y = choose|y: int| 0 <= y < ids@.len() && ids@[y] == j;
                assert(ids@[y] == j);
            }
        }
        assert(ids@.to_set() =~= visible_groups(states));
    }
    ids
}

impl ClientView {
    /// Whether queries show the client: only while it is not removed.
    pub fn is_visible(&self) -> (r: bool)
        ensures
            r == !self@.is_deleted,
    {
        !self.inner().is_deleted
    }
}

impl GroupView {
    /// Whether queries show the group: only while it is not deleted.
    pub fn is_visible(&self) -> (r: bool)
        ensures
            r == !self@.is_deleted,
    {
        !self.inner().is_deleted
    }
}

} // verus!
