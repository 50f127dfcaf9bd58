# IOTA sponsoring service

A service that sponsors the gas of IOTA transactions for registered
clients. Clients are grouped; each group holds a balance funded from the
sponsor wallet, and each sponsored transaction is charged to the group of
the client that sent it. The state is event-sourced: commands are decided
on aggregates (client, group, sponsor wallet), the resulting events are
stored, and read models (views) are rebuilt from them.

## Layout

- `src/` — the library, verified with Verus:
  - `client.rs`, `group.rs`, `sponsor_wallet.rs`: the aggregates, each with
    an abstract state, a `decide` rule from command to events and an
    `evolve` rule from event to state;
  - `views.rs`: the read models and how events update them;
  - `services.rs`: the decisions of the application services (allocation
    checks, fee recording, authorisation, registration, removal plans);
  - `operations.rs`: what the API selects and shows (transaction lists,
    visible clients and groups, status names, request routing);
  - `metrics.rs`: the integer metrics of a list of transactions over the
    last 7, 30 and 90 days and all time;
  - `log_events.rs`: reading the gas station's log lines;
  - `demo.rs`: demonstration data;
  - `time.rs`, `ids.rs`: points in time and identifiers;
  - `laws.rs`: properties that relate several operations.
- `tests/` — tests of the library.
- `app/` — the executable: event store and read-model plumbing, the GraphQL
  API, webhooks, floating-point amounts and estimates.
