//! Start-up: the schema is brought up to date before the first request is
//! served, and a failure to do so is fatal.
//!
//! The caller looks the connection pool up and applies the migrations; this
//! module decides, from what came of each, what to do next.

use vstd::prelude::*;

verus! {

/// Where start-up stands.
#[derive(Debug, Clone, Copy, PartialEq, Eq, Structural)]
pub enum Startup {
    /// The pool has not been looked up yet.
    Igniting,
    /// The pool was found; the migrations are being applied.
    Migrating,
    /// The migrations are applied; requests may be served.
    Ready,
    /// Start-up failed; the service must not start.
    Failed,
}

/// What came of the step that was asked for.
#[derive(Debug, Clone, Copy, PartialEq, Eq, Structural)]
pub enum Event {
    PoolFound,
    PoolMissing,
    Migrated,
    MigrationFailed,
}

/// What to do next.
#[derive(Debug, Clone, Copy, PartialEq, Eq, Structural)]
pub enum Action {
    /// Apply the unapplied migrations, in version order.
    Migrate,
    /// Go on to serve requests.
    Launch,
    /// Give start-up up.
    Abort,
    /// Nothing: the event does not belong to this point of start-up.
    Ignore,
}

/// The state after an event, and what to do next. A missing pool and a
/// failed migration are fatal; `Ready` and `Failed` are final.
pub open spec fn next(state: Startup, event: Event) -> (Startup, Action) {
    match (state, event) {
        (Startup::Igniting, Event::PoolFound) => (Startup::Migrating, Action::Migrate),
        (Startup::Igniting, Event::PoolMissing) => (Startup::Failed, Action::Abort),
        (Startup::Migrating, Event::Migrated) => (Startup::Ready, Action::Launch),
        (Startup::Migrating, Event::MigrationFailed) => (Startup::Failed, Action::Abort),
        _ => (state, Action::Ignore),
    }
}

/// The state that a run of events leads to.
pub open spec fn after(state: Startup, events: Seq<Event>) -> Startup
    decreases events.len(),
{
    if events.len() == 0 {
        state
    } else {
        next(after(state, events.drop_last()), events.last()).0
    }
}

/// Takes start-up one step on: from the state and what came of the last
/// action, to the next state and the next action.
pub fn run_migrations(state: Startup, event: Event) -> (step: (Startup, Action))
    ensures
        step == next(state, event),
{
    match (state, event) {
        (Startup::Igniting, Event::PoolFound) => (Startup::Migrating, Action::Migrate),
        (Startup::Igniting, Event::PoolMissing) => (Startup::Failed, Action::Abort),
        (Startup::Migrating, Event::Migrated) => (Startup::Ready, Action::Launch),
        (Startup::Migrating, Event::MigrationFailed) => (Startup::Failed, Action::Abort),
        _ => (state, Action::Ignore),
    }
}

/// Once start-up has failed, nothing brings the service up.
pub proof fn failed_is_final(events: Seq<Event>)
    ensures
        after(Startup::Failed, events) == Startup::Failed,
    decreases events.len(),
{
    if events.len() > 0 {
        failed_is_final(events.drop_last());
    }
}

/// The service is ready only after the migrations were applied: some event
/// of the run is `Migrated`, and it came while the migrations were under
/// way.
pub proof fn ready_only_after_migration(events: Seq<Event>)
    requires
        after(Startup::Igniting, events) == Startup::Ready,
    ensures
        exists|j: int|
            0 <= j < events.len() && #[trigger] events[j] == Event::Migrated && after(
                Startup::Igniting,
                events.take(j),
            ) == Startup::Migrating,
    decreases events.len(),
{
    if events.len() > 0 {
        let before = events.drop_last();
        let j = events.len() - 1;
        if after(Startup::Igniting, before) == Startup::Ready {
            ready_only_after_migration(before);
            let k = choose|k: int|
                0 <= k < before.len() && #[trigger] before[k] == Event::Migrated && after(
                    Startup::Igniting,
                    before.take(k),
                ) == Startup::Migrating;
            assert(events.take(k) =~= before.take(k));
        }
    }
}

} // verus!
