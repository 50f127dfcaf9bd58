//! Properties that relate several operations of the library: what a
//! decision followed by its events does to a state, and what every state
//! keeps.
use vstd::prelude::*;

use crate::client::{ClientCommand, ClientError, ClientEvent, ClientState};
use crate::group::{saturating_add, GroupCommand, GroupError, GroupEvent, GroupState};
use crate::metrics::{
    count_sum_max_step, earliest, earliest_step, latest, latest_step, lemma_fold_permutation, lemma_period_as_folds,
    lemma_steps_commute, min_step, period_over, period_start, PeriodModel,
};
use crate::operations::{variant_name, variant_named};
use crate::group::{Status, Variant};
use crate::log_events::{classify, regex_named_capture, LogLineKind};
use crate::sponsor_wallet::{SponsorWalletCommand, SponsorWalletState};
use crate::ids::{RANDOM_VERSION_VARIANT, VERSION_VARIANT_MASK};
use crate::services::{lemma_total_balance_nonnegative, lemma_total_balance_remove, members_of, total_balance};
use crate::time::{at_or_before, Timestamp};
use crate::views::{client_or_initial, group_or_initial, recorded_transaction, transactions_after, SponsorshipTransactionState, SponsorshipTransactionView};

verus! {

/// A client is registered with exactly the details its registration
/// carries, provided its identifier is not nil.
pub proof fn law_register_then_apply(
    client: ClientState,
    client_id: u128,
    name: String,
    logo_uri: Option<String>,
    website_uri: Option<String>,
    wallet_address: String,
)
    requires
        !client.is_registered(),
    ensures
        ({
            let command = ClientCommand::RegisterClient { client_id, name, logo_uri, website_uri, wallet_address };
            let event = ClientEvent::ClientRegistered { client_id, name, logo_uri, website_uri, wallet_address };
            &&& client.decide(command) == Ok::<Seq<ClientEvent>, ClientError>(seq![event])
            &&& client.evolve(event).client_id == client_id
            &&& client.evolve(event).name == name@
            &&& client.evolve(event).wallet_address == wallet_address@
            &&& client_id != 0 ==> client.evolve(event).is_registered()
        }),
{
}

/// Before registration a client accepts no command but its registration;
/// once registered, it refuses a second registration.
pub proof fn law_client_commands_need_registration(client: ClientState, command: ClientCommand)
    ensures
        !client.is_registered() && !(command is RegisterClient) ==> client.decide(command) == Err::<
            Seq<ClientEvent>,
            ClientError,
        >(ClientError::ClientNotFound),
        client.is_registered() && command is RegisterClient ==> client.decide(command) == Err::<
            Seq<ClientEvent>,
            ClientError,
        >(ClientError::ClientAlreadyExists),
{
}

/// Removing a registered client leaves the initial state, marked as
/// removed: it is no longer registered.
pub proof fn law_remove_client(client: ClientState, client_id: u128)
    requires
        client.is_registered(),
    ensures
        client.decide(ClientCommand::RemoveClient { client_id }) matches Ok(events) && events.len() == 1 && {
            let after = client.evolve(events[0]);
            &&& after == ClientState { is_deleted: true, ..ClientState::initial() }
            &&& !after.is_registered()
        },
{
}

/// Assigning a registered client to a group and taking it out again.
pub proof fn law_client_group_membership(client: ClientState, group_id: u128)
    requires
        client.is_registered(),
    ensures
        client.decide(ClientCommand::AssignClientToGroup { group_id }) matches Ok(events) && events.len() == 1
            && client.evolve(events[0]).group_id == Some(group_id),
        client.decide(ClientCommand::RemoveClientFromGroup) matches Ok(events) && events.len() == 1
            && client.evolve(events[0]).group_id is None,
{
}

/// Every event a client decides on has a rule for its state, except those
/// of the individual balance commands.
pub proof fn law_client_events_applicable(client: ClientState, command: ClientCommand)
    requires
        !(command is AllocateBalanceToClient),
        !(command is WithdrawBalanceFromClient),
    ensures
        client.decide(command) matches Ok(events) ==> crate::client::all_applicable(events),
{
}

/// A withdrawal from a client is refused exactly when it exceeds the
/// client's individual balance (none counting as 0).
pub proof fn law_client_withdrawal(client: ClientState, amount: u64)
    requires
        client.is_registered(),
    ensures
        client.decide(ClientCommand::WithdrawBalanceFromClient { amount }) is Err
            <==> (match client.balance { Some(b) => b, None => 0 }) < amount,
{
}

/// A group is created with exactly its name, a zero balance and no
/// members.
pub proof fn law_create_group(
    group: GroupState,
    group_id: u128,
    name: String,
    logo_uri: Option<String>,
    transaction_id: u128,
    now: Timestamp,
)
    requires
        !group.is_created(),
    ensures
        ({
            let event = GroupEvent::GroupCreated { group_id, name, logo_uri };
            &&& group.decide(GroupCommand::CreateGroup { group_id, name, logo_uri }, transaction_id, now) == Ok::<
                Seq<GroupEvent>,
                GroupError,
            >(seq![event])
            &&& group.evolve(event).group_id == group_id
            &&& group.evolve(event).name == name@
            &&& group.evolve(event).balance == 0
            &&& group.evolve(event).members.is_empty()
            &&& group_id != 0 ==> group.evolve(event).is_created()
        }),
{
}

/// Before creation a group accepts no command but its creation; once
/// created, it refuses a second creation.
pub proof fn law_group_commands_need_creation(group: GroupState, command: GroupCommand, transaction_id: u128, now: Timestamp)
    ensures
        !group.is_created() && !(command is CreateGroup) ==> group.decide(command, transaction_id, now) == Err::<
            Seq<GroupEvent>,
            GroupError,
        >(GroupError::GroupNotFound),
        group.is_created() && command is CreateGroup ==> group.decide(command, transaction_id, now) == Err::<
            Seq<GroupEvent>,
            GroupError,
        >(GroupError::GroupAlreadyExists),
{
}

/// A withdrawal from a group succeeds exactly when the balance covers it,
/// and then takes exactly the amount: the balance never goes below zero.
pub proof fn law_group_withdrawal(group: GroupState, target: u128, amount: u64, transaction_id: u128, now: Timestamp)
    requires
        group.is_created(),
    ensures
        group.decide(GroupCommand::WithdrawFundsFromGroup { group_id: target, amount }, transaction_id, now) is Err
            <==> group.balance < amount,
        group.decide(GroupCommand::WithdrawFundsFromGroup { group_id: target, amount }, transaction_id, now) matches Ok(
            events,
        ) ==> events.len() == 1 && group.evolve(events[0]).balance == group.balance - amount,
{
}

/// Allocating an amount to a group and withdrawing it again restores the
/// balance, where the allocation does not exceed the largest balance.
pub proof fn law_allocate_then_withdraw(group: GroupState, target: u128, amount: u64, transaction_id: u128, now: Timestamp)
    requires
        group.is_created(),
        group.balance + amount <= u64::MAX,
    ensures
        group.decide(GroupCommand::AllocateFundsToGroup { group_id: target, amount }, transaction_id, now) matches Ok(
            allocated,
        ) && allocated.len() == 1 && {
            let funded = group.evolve(allocated[0]);
            &&& funded.balance == group.balance + amount
            &&& group.evolve(allocated[0]).decide(
                GroupCommand::WithdrawFundsFromGroup { group_id: target, amount },
                transaction_id,
                now,
            ) matches Ok(withdrawn) && withdrawn.len() == 1 && funded.evolve(withdrawn[0]).balance == group.balance
        },
{
}

/// Recording a sponsored transaction charges the fee it was told was paid,
/// down to zero at most, and records that fee; recording demonstration data
/// charges nothing.
pub proof fn law_fee_recording(
    group: GroupState,
    client_id: u128,
    client_name: String,
    fee: u64,
    iot: u64,
    eur: u64,
    usd: u64,
    at: Timestamp,
    transaction_id: u128,
    now: Timestamp,
)
    requires
        group.is_created(),
    ensures
        group.decide(
            GroupCommand::RecordTransactionFeePaid {
                client_id,
                client_name,
                transaction_fee: fee,
                transaction_fee_iot_bits: iot,
                transaction_fee_eur_bits: eur,
                transaction_fee_usd_bits: usd,
            },
            transaction_id,
            now,
        ) matches Ok(events) && events.len() == 1 && (events[0] matches GroupEvent::TransactionFeePaidRecorded {
            transaction_fee: recorded,
            ..
        } && recorded == fee) && group.evolve(events[0]).balance == (if group.balance < fee {
            0
        } else {
            group.balance - fee
        }),
        group.decide(
            GroupCommand::RecordTransactionFeePaidForDemo {
                client_id,
                client_name,
                transaction_fee: fee,
                transaction_fee_iot_bits: iot,
                transaction_fee_eur_bits: eur,
                transaction_fee_usd_bits: usd,
                timestamp: at,
            },
            transaction_id,
            now,
        ) matches Ok(events) && events.len() == 1 && group.evolve(events[0]).balance == group.balance,
{
}

/// Adding a client to a group makes it a member and removing it makes it
/// none; other members stay.
pub proof fn law_group_membership(group: GroupState, client_id: u128, other: u128, transaction_id: u128, now: Timestamp)
    requires
        group.is_created(),
        other != client_id,
    ensures
        group.decide(GroupCommand::AddClientToGroup { client_id }, transaction_id, now) matches Ok(events)
            && events.len() == 1 && group.evolve(events[0]).members.contains(client_id)
            && (group.evolve(events[0]).members.contains(other) == group.members.contains(other)),
        group.decide(GroupCommand::RemoveClientFromGroup { client_id }, transaction_id, now) matches Ok(events)
            && events.len() == 1 && !group.evolve(events[0]).members.contains(client_id)
            && (group.evolve(events[0]).members.contains(other) == group.members.contains(other)),
{
}

/// Deleting a group leaves the initial state marked as deleted; the group
/// is then no longer created, so its identifier can be used again.
pub proof fn law_delete_group(group: GroupState, target: u128, transaction_id: u128, now: Timestamp)
    requires
        group.is_created(),
    ensures
        group.decide(GroupCommand::DeleteGroup { group_id: target }, transaction_id, now) matches Ok(events)
            && events.len() == 1 && group.evolve(events[0]) == (GroupState { is_deleted: true, ..GroupState::initial() })
            && !group.evolve(events[0]).is_created(),
{
}

/// Replaying a history in two parts gives the same state as replaying it
/// at once.
pub proof fn law_group_replay_split(group: GroupState, first: Seq<GroupEvent>, second: Seq<GroupEvent>)
    ensures
        group.evolve_all(first + second) == group.evolve_all(first).evolve_all(second),
    decreases first.len(),
{
    if first.len() > 0 {
        assert((first + second).drop_first() =~= first.drop_first() + second);
        law_group_replay_split(group.evolve(first[0]), first.drop_first(), second);
    } else {
        assert(first + second =~= second);
    }
}

/// Replaying a history in two parts gives the same state as replaying it
/// at once.
pub proof fn law_client_replay_split(client: ClientState, first: Seq<ClientEvent>, second: Seq<ClientEvent>)
    ensures
        client.evolve_all(first + second) == client.evolve_all(first).evolve_all(second),
    decreases first.len(),
{
    if first.len() > 0 {
        assert((first + second).drop_first() =~= first.drop_first() + second);
        law_client_replay_split(client.evolve(first[0]), first.drop_first(), second);
    } else {
        assert(first + second =~= second);
    }
}

/// Allocations never exceed the sponsor wallet: where the check admits an
/// allocation to a group of the list, the group balances afterwards still
/// sum to no more than the sponsor wallet's balance.
pub proof fn law_allocation_within_sponsor_balance(
    groups: Map<u128, GroupState>,
    sponsor_balance: u64,
    group_id: u128,
    amount: u64,
)
    requires
        groups.dom().finite(),
        groups.contains_key(group_id),
        sponsor_balance >= total_balance(groups) + amount,
    ensures
        ({
            let funded = groups.insert(
                group_id,
                groups[group_id].evolve(GroupEvent::FundsAllocatedToGroup { group_id, amount }),
            );
            total_balance(funded) == total_balance(groups) + amount && total_balance(funded) <= sponsor_balance
        }),
{
    let funded = groups.insert(group_id, groups[group_id].evolve(GroupEvent::FundsAllocatedToGroup { group_id, amount }));
    lemma_total_balance_remove(groups, group_id);
    lemma_total_balance_nonnegative(groups.remove(group_id));
    lemma_total_balance_remove(funded, group_id);
    assert(funded.remove(group_id) =~= groups.remove(group_id));
    assert(saturating_add(groups[group_id].balance, amount) == groups[group_id].balance + amount);
}

/// Every fee of a period is at most its largest fee, and the period holds
/// exactly its transactions.
pub proof fn law_period_max_fee(txs: Seq<SponsorshipTransactionView>, since: Option<Timestamp>, n: nat)
    requires
        n <= txs.len(),
        txs.len() <= usize::MAX,
    ensures
        ({
            let p = period_over(txs, since, n);
            &&& p.total_transactions == p.transactions.len()
            &&& forall|i: int| 0 <= i < p.transactions.len() ==> txs[p.transactions[i] as int].transaction_fee
                <= p.max_transaction_fee
        }),
    decreases n,
{
    if n > 0 {
        law_period_max_fee(txs, since, (n - 1) as nat);
        let before = period_over(txs, since, (n - 1) as nat);
        let p = period_over(txs, since, n);
        if crate::metrics::in_period(txs[n - 1].timestamp, since) {
            assert(p == before.add((n - 1) as usize, txs[n - 1].transaction_fee));
            assert forall|i: int| 0 <= i < p.transactions.len() implies txs[p.transactions[i] as int].transaction_fee
                <= p.max_transaction_fee by {
                if i < before.transactions.len() {
                    assert(p.transactions[i] == before.transactions[i]);
                } else {
                    assert(p.transactions[i] == (n - 1) as usize);
                }
            }
        }
    }
}

/// Where every fee is positive, every fee of a period is at least its
/// smallest fee.
pub proof fn law_period_min_fee(txs: Seq<SponsorshipTransactionView>, since: Option<Timestamp>, n: nat)
    requires
        n <= txs.len(),
        txs.len() <= usize::MAX,
        forall|i: int| 0 <= i < txs.len() ==> (#[trigger] txs[i]).transaction_fee > 0,
    ensures
        ({
            let p = period_over(txs, since, n);
            &&& p.transactions.len() > 0 ==> p.min_transaction_fee > 0
            &&& p.transactions.len() == 0 ==> p.min_transaction_fee == 0
            &&& forall|i: int| 0 <= i < p.transactions.len() ==> p.min_transaction_fee
                <= txs[p.transactions[i] as int].transaction_fee
            &&& forall|i: int| 0 <= i < p.transactions.len() ==> 0 <= #[trigger] p.transactions[i] < n
        }),
    decreases n,
{
    if n > 0 {
        law_period_min_fee(txs, since, (n - 1) as nat);
        let before = period_over(txs, since, (n - 1) as nat);
        let p = period_over(txs, since, n);
        if crate::metrics::in_period(txs[n - 1].timestamp, since) {
            assert(txs[n - 1].transaction_fee > 0);
            assert(p == before.add((n - 1) as usize, txs[n - 1].transaction_fee));
            assert forall|i: int| 0 <= i < p.transactions.len() implies p.min_transaction_fee
                <= txs[p.transactions[i] as int].transaction_fee by {
                if i < before.transactions.len() {
                    assert(p.transactions[i] == before.transactions[i]);
                } else {
                    assert(p.transactions[i] == (n - 1) as usize);
                }
            }
            assert forall|i: int| 0 <= i < p.transactions.len() implies 0 <= #[trigger] p.transactions[i] < n by {
                if i < before.transactions.len() {
                    assert(p.transactions[i] == before.transactions[i]);
                }
            }
        }
    }
}

/// A period that starts later holds no more transactions than one that
/// starts earlier: the last 7 days hold no more than the last 30, which
/// hold no more than the last 90, which hold no more than all time.
pub proof fn law_periods_nested(txs: Seq<SponsorshipTransactionView>, later: Timestamp, earlier: Timestamp, n: nat)
    requires
        n <= txs.len(),
        at_or_before(earlier, later),
    ensures
        period_over(txs, Some(later), n).total_transactions <= period_over(txs, Some(earlier), n).total_transactions,
        period_over(txs, Some(earlier), n).total_transactions <= period_over(txs, None, n).total_transactions,
        period_over(txs, Some(later), n).total_sponsored_amount <= period_over(txs, Some(earlier), n).total_sponsored_amount,
    decreases n,
{
    if n > 0 {
        law_periods_nested(txs, later, earlier, (n - 1) as nat);
    }
}

/// A status shown by the API reads back as the same status.
pub proof fn law_status_round_trip(v: Variant)
    ensures
        variant_named(variant_name(v)) == v,
{
    reveal_strlit("action");
    reveal_strlit("warning");
    reveal_strlit("success");
    match v {
        Variant::Action => {},
        Variant::Warning => {
            assert("warning"@.len() != "action"@.len());
        },
        Variant::Success => {
            assert("success"@.len() != "action"@.len());
            assert("success"@[0] != "warning"@[0]);
        },
    }
}

/// Recording the same event twice leaves the transactions as recording it
/// once: a redelivered event adds no second transaction.
pub proof fn law_transaction_recording_idempotent(
    transactions: Map<u128, SponsorshipTransactionState>,
    event: GroupEvent,
)
    ensures
        transactions_after(transactions_after(transactions, event), event) == transactions_after(transactions, event),
{
    if event is TransactionFeePaidRecorded {
        assert(transactions_after(transactions_after(transactions, event), event) =~= transactions_after(
            transactions,
            event,
        ));
    }
}

/// A period of the last days starts no later than the time it is counted
/// back from.
pub proof fn law_period_starts_before_now(now: Timestamp, days: int)
    requires
        days >= 0,
        now.seconds - days * 86_400 >= i64::MIN,
    ensures
        at_or_before(period_start(now, days), now),
{
}

/// A freshly drawn random identifier is never the nil identifier, so
/// every recorded sponsored transaction has an identifier.
pub proof fn law_random_id_not_nil(id: u128)
    requires
        id & VERSION_VARIANT_MASK == RANDOM_VERSION_VARIANT,
    ensures
        id != 0,
{
    assert(id & 0x0000_0000_0000_F000_C000_0000_0000_0000u128
        == 0x0000_0000_0000_4000_8000_0000_0000_0000u128 ==> id != 0) by (bit_vector);
}

/// The list of all clients and a client's own view stay in agreement: where
/// the list's entry for a client equals the client's view, it still does
/// once both have taken the same event, and the other entries stay as they
/// were.
pub proof fn law_client_list_follows_client_view(
    list: Map<u128, ClientState>,
    view: ClientState,
    client_id: u128,
    other: u128,
    event: ClientEvent,
)
    requires
        client_or_initial(list, client_id) == view,
        other != client_id,
    ensures
        client_or_initial(list.insert(client_id, client_or_initial(list, client_id).evolve(event)), client_id)
            == view.evolve(event),
        client_or_initial(list.insert(client_id, client_or_initial(list, client_id).evolve(event)), other)
            == client_or_initial(list, other),
{
}

/// The list of all groups and a group's own view stay in agreement: where
/// the list's entry for a group equals the group's view, it still does once
/// both have taken the same event, and the other entries stay as they were.
pub proof fn law_group_list_follows_group_view(
    list: Map<u128, GroupState>,
    view: GroupState,
    group_id: u128,
    other: u128,
    event: GroupEvent,
)
    requires
        group_or_initial(list, group_id) == view,
        other != group_id,
    ensures
        group_or_initial(list.insert(group_id, group_or_initial(list, group_id).evolve(event)), group_id)
            == view.evolve(event),
        group_or_initial(list.insert(group_id, group_or_initial(list, group_id).evolve(event)), other)
            == group_or_initial(list, other),
{
}

/// A list of clients after each of the given clients has been taken out of
/// its group, in order, as its own aggregate decides and the list records.
pub open spec fn after_unlinking(clients: Map<u128, ClientState>, ids: Seq<u128>) -> Map<u128, ClientState>
    decreases ids.len(),
{
    if ids.len() == 0 {
        clients
    } else {
        let k = ids[0];
        let c = client_or_initial(clients, k);
        let next = match c.decide(ClientCommand::RemoveClientFromGroup) {
            Ok(events) => clients.insert(k, c.evolve_all(events)),
            Err(_) => clients,
        };
        after_unlinking(next, ids.drop_first())
    }
}

/// Before a group is deleted its members are taken out of it: once the
/// clients that the unlinking names are taken out (each a registered
/// client, as the commands succeed), no client of the list refers to the
/// group any more, the list keeps the same clients, and clients of other
/// groups are left as they were.
pub proof fn law_no_client_refers_to_deleted_group(
    clients: Map<u128, ClientState>,
    group_id: u128,
    ids: Seq<u128>,
)
    requires
        ids.no_duplicates(),
        ids.to_set() == members_of(clients, group_id),
        forall|k: u128| #[trigger] members_of(clients, group_id).contains(k) ==> clients[k].is_registered(),
    ensures
        after_unlinking(clients, ids).dom() == clients.dom(),
        forall|k: u128| #[trigger] after_unlinking(clients, ids).contains_key(k)
            ==> after_unlinking(clients, ids)[k].group_id != Some(group_id),
        forall|k: u128| clients.contains_key(k) && !members_of(clients, group_id).contains(k)
            ==> #[trigger] after_unlinking(clients, ids)[k] == clients[k],
    decreases ids.len(),
{
    if ids.len() == 0 {
        assert forall|k: u128| #[trigger] clients.contains_key(k) implies clients[k].group_id != Some(group_id) by {
            if clients[k].group_id == Some(group_id) {
                assert(members_of(clients, group_id).contains(k));
                assert(ids.to_set().contains(k));
            }
        }
    } else {
        let k = ids[0];
        assert(ids.to_set().contains(k));
        assert(members_of(clients, group_id).contains(k));
        let c = clients[k];
        let event = ClientEvent::ClientRemovedFromGroup { client_id: c.client_id, group_id: None };
        assert(c.decide(ClientCommand::RemoveClientFromGroup) == Ok::<Seq<ClientEvent>, ClientError>(seq![event]));
        assert(seq![event].drop_first() =~= Seq::<ClientEvent>::empty());
        let updated = c.evolve_all(seq![event]);
        assert(seq![event][0] == event);
        assert(c.evolve(event).evolve_all(Seq::<ClientEvent>::empty()) == c.evolve(event));
        assert(updated == c.evolve(event));
        let next = clients.insert(k, updated);
        let rest = ids.drop_first();
        assert(members_of(next, group_id) =~= members_of(clients, group_id).remove(k));
        assert forall|x: u128| rest.to_set().contains(x) <==> #[trigger] members_of(next, group_id).contains(x) by {
            if rest.to_set().contains(x) {
                let j = choose|j: int| 0 <= j < rest.len() && rest[j] == x;
                assert(ids[j + 1] == x);
                assert(ids.to_set().contains(x));
                assert(x != k);
            }
            if members_of(next, group_id).contains(x) {
                assert(ids.to_set().contains(x));
                let j = choose|j: int| 0 <= j < ids.len() && ids[j] == x;
                assert(j != 0);
                assert(rest[j - 1] == x);
            }
        }
        assert(rest.to_set() =~= members_of(next, group_id));
        assert(rest.no_duplicates()) by {
            assert forall|a: int, b: int| 0 <= a < b < rest.len() implies rest[a] != rest[b] by {
                assert(rest[a] == ids[a + 1] && rest[b] == ids[b + 1]);
            }
        }
        law_no_client_refers_to_deleted_group(next, group_id, rest);
        assert(after_unlinking(clients, ids) == after_unlinking(next, rest));
        assert(next.dom() =~= clients.dom());
        assert forall|x: u128| clients.contains_key(x) && !members_of(clients, group_id).contains(x)
            implies #[trigger] after_unlinking(clients, ids)[x] == clients[x] by {
            assert(x != k);
            assert(!members_of(next, group_id).contains(x));
        }
    }
}

/// The metrics do not depend on the order of the transactions: in any order
/// the same transactions have the same earliest and latest time and, in
/// every period, the same count, sum and largest fee, and, where every fee
/// is positive, the same smallest fee.
pub proof fn law_metrics_independent_of_order(
    txs: Seq<SponsorshipTransactionView>,
    reordered: Seq<SponsorshipTransactionView>,
    since: Option<Timestamp>,
)
    requires
        reordered.to_multiset() == txs.to_multiset(),
    ensures
        earliest(reordered, reordered.len()) == earliest(txs, txs.len()),
        latest(reordered, reordered.len()) == latest(txs, txs.len()),
        period_over(reordered, since, reordered.len()).total_transactions == period_over(
            txs,
            since,
            txs.len(),
        ).total_transactions,
        period_over(reordered, since, reordered.len()).total_sponsored_amount == period_over(
            txs,
            since,
            txs.len(),
        ).total_sponsored_amount,
        period_over(reordered, since, reordered.len()).max_transaction_fee == period_over(
            txs,
            since,
            txs.len(),
        ).max_transaction_fee,
        (forall|i: int| 0 <= i < txs.len() ==> #[trigger] txs[i].transaction_fee > 0) ==> period_over(
            reordered,
            since,
            reordered.len(),
        ).min_transaction_fee == period_over(txs, since, txs.len()).min_transaction_fee,
{
    lemma_period_as_folds(txs, since, txs.len());
    lemma_period_as_folds(reordered, since, reordered.len());
    assert(txs.take(txs.len() as int) =~= txs);
    assert(reordered.take(reordered.len() as int) =~= reordered);
    lemma_steps_commute(since);
    let any = |tx: SponsorshipTransactionView| true;
    lemma_fold_permutation(txs, reordered, (0nat, 0nat, 0u64), count_sum_max_step(since), any);
    lemma_fold_permutation(txs, reordered, None, earliest_step(), any);
    lemma_fold_permutation(txs, reordered, None, latest_step(), any);
    if forall|i: int| 0 <= i < txs.len() ==> #[trigger] txs[i].transaction_fee > 0 {
        let positive = |tx: SponsorshipTransactionView| tx.transaction_fee > 0;
        lemma_fold_permutation(txs, reordered, 0u64, min_step(since), positive);
    }
}

/// Updating a created group's name, logo or status changes exactly that
/// field to the value given, and nothing else.
pub proof fn law_group_updates(
    group: GroupState,
    name: String,
    logo_uri: Option<String>,
    status: Status,
    transaction_id: u128,
    now: Timestamp,
)
    requires
        group.is_created(),
    ensures
        group.decide(GroupCommand::UpdateGroupName { name }, transaction_id, now) matches Ok(events) && events.len()
            == 1 && group.evolve(events[0]) == (GroupState { name: name@, ..group }),
        group.decide(GroupCommand::UpdateGroupLogoUri { logo_uri }, transaction_id, now) matches Ok(events)
            && events.len() == 1 && group.evolve(events[0]) == (GroupState { logo_uri: logo_uri.deep_view(), ..group }),
        group.decide(GroupCommand::UpdateGroupStatus { status }, transaction_id, now) matches Ok(events)
            && events.len() == 1 && group.evolve(events[0]) == (GroupState { status, ..group }),
{
}

/// Updating a registered client's name, logo, website or wallet address
/// changes exactly that field to the value given, and nothing else.
pub proof fn law_client_updates(
    client: ClientState,
    name: String,
    logo_uri: Option<String>,
    website_uri: Option<String>,
    wallet_address: String,
)
    requires
        client.is_registered(),
    ensures
        client.decide(ClientCommand::UpdateClientName { name }) matches Ok(events) && events.len() == 1
            && client.evolve(events[0]) == (ClientState { name: name@, ..client }),
        client.decide(ClientCommand::UpdateClientLogoUri { logo_uri }) matches Ok(events) && events.len() == 1
            && client.evolve(events[0]) == (ClientState { logo_uri: logo_uri.deep_view(), ..client }),
        client.decide(ClientCommand::UpdateClientWebsiteUri { website_uri }) matches Ok(events) && events.len() == 1
            && client.evolve(events[0]) == (ClientState { website_uri: website_uri.deep_view(), ..client }),
        client.decide(ClientCommand::UpdateClientWalletAddress { wallet_address }) matches Ok(events)
            && events.len() == 1 && client.evolve(events[0]) == (ClientState {
            wallet_address: wallet_address@,
            ..client
        }),
{
}

/// Updating a created sponsor wallet's name, logo or balance changes
/// exactly that field to the value given, and nothing else.
pub proof fn law_sponsor_wallet_updates(
    wallet: SponsorWalletState,
    name: String,
    logo_uri: Option<String>,
    new_balance: u64,
)
    requires
        wallet.is_created(),
    ensures
        wallet.decide(SponsorWalletCommand::UpdateSponsorWalletName { name }) matches Ok(events) && events.len() == 1
            && wallet.evolve(events[0]) == (SponsorWalletState { name: Some(name@), ..wallet }),
        wallet.decide(SponsorWalletCommand::UpdateSponsorWalletLogoUri { logo_uri }) matches Ok(events)
            && events.len() == 1 && wallet.evolve(events[0]) == (SponsorWalletState {
            logo_uri: logo_uri.deep_view(),
            ..wallet
        }),
        wallet.decide(SponsorWalletCommand::RecordBalanceUpdate { new_balance }) matches Ok(events)
            && events.len() == 1 && wallet.evolve(events[0]) == (SponsorWalletState { balance: new_balance, ..wallet }),
{
}

/// A sponsored transaction is listed under its identifier with every
/// detail the event gives, unchanged (its fee and its IOTA, EUR and USD
/// amounts among them); the other listed transactions stay as they were.
pub proof fn law_transaction_record_carries_event(
    transactions: Map<u128, SponsorshipTransactionState>,
    sponsorship_transaction_id: u128,
    group_id: u128,
    client_id: u128,
    client_name: String,
    transaction_fee: u64,
    transaction_fee_iot_bits: u64,
    transaction_fee_eur_bits: u64,
    transaction_fee_usd_bits: u64,
    new_balance: u64,
    timestamp: Timestamp,
    other: u128,
)
    requires
        other != sponsorship_transaction_id,
    ensures
        ({
            let event = GroupEvent::TransactionFeePaidRecorded {
                sponsorship_transaction_id,
                group_id,
                client_id,
                client_name,
                transaction_fee,
                transaction_fee_iot_bits,
                transaction_fee_eur_bits,
                transaction_fee_usd_bits,
                new_balance,
                timestamp,
            };
            let record = SponsorshipTransactionState {
                sponsorship_transaction_id,
                group_id,
                client_id,
                client_name: client_name@,
                transaction_fee,
                transaction_fee_iot_bits,
                transaction_fee_eur_bits,
                transaction_fee_usd_bits,
                timestamp,
            };
            &&& recorded_transaction(event) == record
            &&& transactions_after(transactions, event).contains_key(sponsorship_transaction_id)
            &&& transactions_after(transactions, event)[sponsorship_transaction_id] == record
            &&& transactions_after(transactions, event).contains_key(other) == transactions.contains_key(other)
            &&& transactions.contains_key(other) ==> transactions_after(transactions, event)[other]
                == transactions[other]
        }),
{
}

/// A log line is read with the gas station's four patterns, tried in
/// order: the balance before execution, the sender (`0x` and every hex
/// digit that follows), the balance after execution and the new total
/// balance; the first that matches gives the line's kind and the text of
/// its capture group.
pub proof fn law_log_lines_read_with_gas_station_patterns(message: Seq<char>)
    ensures
        classify(message) == (if let Some(c) = regex_named_capture(
            r"Total gas coin balance prior to execution: (?P<balance>\d+) reservation_id="@,
            "balance"@,
            message,
        ) {
            (LogLineKind::PriorBalance, c)
        } else if let Some(c) = regex_named_capture(
            r"Executing transaction:.*?sender: (?P<sender>0x[0-9a-fA-F]+)"@,
            "sender"@,
            message,
        ) {
            (LogLineKind::Sender, c)
        } else if let Some(c) = regex_named_capture(
            r"New gas coin balance after execution: (?P<balance>\d+) reservation_id="@,
            "balance"@,
            message,
        ) {
            (LogLineKind::AfterBalance, c)
        } else if let Some(c) = regex_named_capture(
            r"After add_new_coins. New total balance: (?P<balance>\d+)"@,
            "balance"@,
            message,
        ) {
            (LogLineKind::NewTotalBalance, c)
        } else {
            (LogLineKind::Unrecognised, None)
        }),
{
}

} // verus!
