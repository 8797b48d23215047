//! The startup bootstrap sequence, as a state machine.
//!
//! Preparing the database is a fixed sequence of outside operations: check
//! whether the database exists, create it if absent, open a pooled
//! connection, resolve the migrations directory, load the migration set,
//! apply it. Each operation is I/O performed by the caller; the decisions
//! between them — what to do next after each outcome, and that no traffic is
//! ever served without a fully migrated database — live here. The caller
//! performs the operation named by the current phase, reports its outcome as
//! a [`BootstrapEvent`], and steps the machine; a terminal [`Ready`] phase
//! yields the pool, a terminal [`Failed`] phase is fatal by design: there is
//! no retry and no partial, degraded state.
//!
//! [`Ready`]: BootstrapPhase::Ready
//! [`Failed`]: BootstrapPhase::Failed

use vstd::prelude::*;

use crate::errors::DatabaseError;

verus! {

/// Which bootstrap step failed. A failure of any step is fatal.
#[derive(Clone, Copy, PartialEq, Eq, Structural, Debug)]
pub enum BootstrapFailure {
    /// The check whether the database exists itself errored.
    ExistenceCheck,
    /// Creating the absent database errored.
    Creation,
    /// Opening the pooled connection errored.
    Connection,
    /// The migrations directory root could not be resolved.
    Environment,
    /// The migration set could not be loaded from its directory.
    MigrationLoad,
    /// Applying a migration errored.
    MigrationRun,
}

/// The control state of the bootstrap sequence. A non-terminal phase names
/// the outside operation the caller must perform next.
#[derive(Clone, Copy, PartialEq, Eq, Structural, Debug)]
pub enum BootstrapPhase {
    /// Check whether a database exists at the connection URL.
    CheckExistence,
    /// The database is absent: create it.
    CreateDatabase,
    /// Open a pooled connection to the database.
    Connect,
    /// Resolve the fixed migrations directory.
    ResolveMigrationsDir,
    /// Load and order the migration set from the directory.
    LoadMigrations,
    /// Apply every pending migration, in ascending version order.
    ApplyMigrations,
    /// Every step succeeded: the pool may serve traffic.
    Ready,
    /// A step failed: startup must abort.
    Failed(BootstrapFailure),
}

/// The outcome of the outside operation that the current phase asked for.
#[derive(Clone, Copy, PartialEq, Eq, Structural, Debug)]
pub enum BootstrapEvent {
    /// The existence check answered: `true` if the database exists.
    ExistenceChecked(bool),
    /// The existence check itself errored.
    ExistenceCheckFailed,
    /// The database was created.
    DatabaseCreated,
    /// Creating the database errored.
    DatabaseCreationFailed,
    /// The pooled connection is open.
    Connected,
    /// Opening the connection errored.
    ConnectionFailed,
    /// The migrations directory was resolved.
    MigrationsDirResolved,
    /// The migrations directory could not be resolved.
    MigrationsDirMissing,
    /// The migration set was loaded and ordered.
    MigratorLoaded,
    /// Loading the migration set errored.
    MigratorLoadFailed,
    /// All pending migrations were applied.
    MigrationsApplied,
    /// Applying a migration errored.
    MigrationApplicationFailed,
}

/// The phase the sequence starts in.
pub open spec fn init_phase() -> BootstrapPhase {
    BootstrapPhase::CheckExistence
}

/// A terminal phase asks for no further operation.
pub open spec fn phase_terminal(p: BootstrapPhase) -> bool {
    p is Ready || p is Failed
}

/// Whether an event reports the outcome of the operation that phase `p`
/// asks for.
pub open spec fn event_answers(p: BootstrapPhase, e: BootstrapEvent) -> bool {
    match p {
        BootstrapPhase::CheckExistence => e is ExistenceChecked || e is ExistenceCheckFailed,
        BootstrapPhase::CreateDatabase => e is DatabaseCreated || e is DatabaseCreationFailed,
        BootstrapPhase::Connect => e is Connected || e is ConnectionFailed,
        BootstrapPhase::ResolveMigrationsDir =>
            e is MigrationsDirResolved || e is MigrationsDirMissing,
        BootstrapPhase::LoadMigrations => e is MigratorLoaded || e is MigratorLoadFailed,
        BootstrapPhase::ApplyMigrations =>
            e is MigrationsApplied || e is MigrationApplicationFailed,
        BootstrapPhase::Ready => false,
        BootstrapPhase::Failed(_) => false,
    }
}

/// An event that reports success rather than an error.
pub open spec fn event_ok(e: BootstrapEvent) -> bool {
    match e {
        BootstrapEvent::ExistenceChecked(_) => true,
        BootstrapEvent::DatabaseCreated => true,
        BootstrapEvent::Connected => true,
        BootstrapEvent::MigrationsDirResolved => true,
        BootstrapEvent::MigratorLoaded => true,
        BootstrapEvent::MigrationsApplied => true,
        _ => false,
    }
}

/// The transition table. An answering event alone determines the next phase:
/// each success advances to the following step (an existing database skips
/// creation), and any error moves to the fatal [`BootstrapPhase::Failed`]
/// phase naming the step that failed.
pub open spec fn step_spec(p: BootstrapPhase, e: BootstrapEvent) -> BootstrapPhase
    recommends
        event_answers(p, e),
{
    match e {
        BootstrapEvent::ExistenceChecked(exists) => if exists {
            BootstrapPhase::Connect
        } else {
            BootstrapPhase::CreateDatabase
        },
        BootstrapEvent::ExistenceCheckFailed =>
            BootstrapPhase::Failed(BootstrapFailure::ExistenceCheck),
        BootstrapEvent::DatabaseCreated => BootstrapPhase::Connect,
        BootstrapEvent::DatabaseCreationFailed =>
            BootstrapPhase::Failed(BootstrapFailure::Creation),
        BootstrapEvent::Connected => BootstrapPhase::ResolveMigrationsDir,
        BootstrapEvent::ConnectionFailed => BootstrapPhase::Failed(BootstrapFailure::Connection),
        BootstrapEvent::MigrationsDirResolved => BootstrapPhase::LoadMigrations,
        BootstrapEvent::MigrationsDirMissing =>
            BootstrapPhase::Failed(BootstrapFailure::Environment),
        BootstrapEvent::MigratorLoaded => BootstrapPhase::ApplyMigrations,
        BootstrapEvent::MigratorLoadFailed =>
            BootstrapPhase::Failed(BootstrapFailure::MigrationLoad),
        BootstrapEvent::MigrationsApplied => BootstrapPhase::Ready,
        BootstrapEvent::MigrationApplicationFailed =>
            BootstrapPhase::Failed(BootstrapFailure::MigrationRun),
    }
}

/// Where the bootstrap sequence begins: at the existence check.
pub fn bootstrap_start() -> (r: BootstrapPhase)
    ensures
        r == init_phase(),
{
    BootstrapPhase::CheckExistence
}

/// Advance the bootstrap sequence by one reported outcome.
///
/// The caller performs the operation named by the current phase and reports
/// its outcome; the next phase follows the transition table exactly.
pub fn bootstrap_step(phase: &BootstrapPhase, event: &BootstrapEvent) -> (next: BootstrapPhase)
    requires
        !phase_terminal(*phase),
        event_answers(*phase, *event),
    ensures
        next == step_spec(*phase, *event),
{
    match event {
        BootstrapEvent::ExistenceChecked(exists) => if *exists {
            BootstrapPhase::Connect
        } else {
            BootstrapPhase::CreateDatabase
        },
        BootstrapEvent::ExistenceCheckFailed =>
            BootstrapPhase::Failed(BootstrapFailure::ExistenceCheck),
        BootstrapEvent::DatabaseCreated => BootstrapPhase::Connect,
        BootstrapEvent::DatabaseCreationFailed =>
            BootstrapPhase::Failed(BootstrapFailure::Creation),
        BootstrapEvent::Connected => BootstrapPhase::ResolveMigrationsDir,
        BootstrapEvent::ConnectionFailed => BootstrapPhase::Failed(BootstrapFailure::Connection),
        BootstrapEvent::MigrationsDirResolved => BootstrapPhase::LoadMigrations,
        BootstrapEvent::MigrationsDirMissing =>
            BootstrapPhase::Failed(BootstrapFailure::Environment),
        BootstrapEvent::MigratorLoaded => BootstrapPhase::ApplyMigrations,
        BootstrapEvent::MigratorLoadFailed =>
            BootstrapPhase::Failed(BootstrapFailure::MigrationLoad),
        BootstrapEvent::MigrationsApplied => BootstrapPhase::Ready,
        BootstrapEvent::MigrationApplicationFailed =>
            BootstrapPhase::Failed(BootstrapFailure::MigrationRun),
    }
}

/// The failure class the original initialization reported for a failed step,
/// where it classified one: environment failures and both migration steps
/// were classified; the earlier connection-path steps aborted with the bare
/// database error.
pub fn classify_failure(f: &BootstrapFailure) -> (r: Option<DatabaseError>)
    ensures
        *f is Environment ==> r == Some(DatabaseError::Environment),
        *f is MigrationLoad ==> r == Some(DatabaseError::Migration),
        *f is MigrationRun ==> r == Some(DatabaseError::Migration),
        *f is ExistenceCheck || *f is Creation || *f is Connection ==> r is None,
{
    match f {
        BootstrapFailure::Environment => Some(DatabaseError::Environment),
        BootstrapFailure::MigrationLoad => Some(DatabaseError::Migration),
        BootstrapFailure::MigrationRun => Some(DatabaseError::Migration),
        _ => None,
    }
}

/// The phase reached after feeding `events` in order, starting from `p`.
pub open spec fn run_from(p: BootstrapPhase, events: Seq<BootstrapEvent>) -> BootstrapPhase
    decreases events.len(),
{
    if events.len() == 0 {
        p
    } else {
        run_from(step_spec(p, events[0]), events.skip(1))
    }
}

/// Whether `events` is a well-formed trace from `p`: each event answers the
/// phase current when it arrives, and no event follows a terminal phase.
pub open spec fn trace_answers(p: BootstrapPhase, events: Seq<BootstrapEvent>) -> bool
    decreases events.len(),
{
    events.len() == 0 || {
        &&& !phase_terminal(p)
        &&& event_answers(p, events[0])
        &&& trace_answers(step_spec(p, events[0]), events.skip(1))
    }
}

/// A terminal phase accepts no further event: a well-formed trace from it is
/// empty, so the phase never changes again. In particular a failed bootstrap
/// stays failed — there is no retry.
pub proof fn lemma_terminal_is_final(p: BootstrapPhase, events: Seq<BootstrapEvent>)
    requires
        phase_terminal(p),
        trace_answers(p, events),
    ensures
        events.len() == 0,
        run_from(p, events) == p,
{
}

/// The all-or-nothing startup policy: a trace that ends in the ready phase
/// contains no failed step at all, and — unless it started there — its last
/// event is the successful application of the migration set. The pool is
/// never handed out over a database whose bootstrap had any error.
pub proof fn lemma_ready_implies_all_ok(p: BootstrapPhase, events: Seq<BootstrapEvent>)
    requires
        trace_answers(p, events),
        run_from(p, events) is Ready,
    ensures
        forall|i: int| 0 <= i < events.len() ==> event_ok(#[trigger] events[i]),
        !(p is Ready) ==> events.len() > 0 && events.last() is MigrationsApplied,
    decreases events.len(),
{
    if events.len() == 0 {
    } else {
        let next = step_spec(p, events[0]);
        if !event_ok(events[0]) {
            assert(next is Failed);
            lemma_terminal_is_final(next, events.skip(1));
            assert(false);
        }
        lemma_ready_implies_all_ok(next, events.skip(1));
        assert forall|i: int| 1 <= i < events.len() implies event_ok(#[trigger] events[i]) by {
            assert(events[i] == events.skip(1)[i - 1]);
            assert(event_ok(events.skip(1)[i - 1]));
        }
        if events.len() == 1 {
            assert(next is Ready);
            assert(events.last() is MigrationsApplied);
        } else {
            assert(!(next is Ready)) by {
                if next is Ready {
                    lemma_terminal_is_final(next, events.skip(1));
                }
            }
            assert(events.skip(1).last() == events.last());
        }
    }
}

/// Law: exactly two traces reach the ready phase from the start — the
/// full success sequence over an existing database, and the same sequence
/// with the creation step inserted over an absent one. Every other trace
/// ends short of ready or in a fatal failure.
pub proof fn lemma_ready_trace_shape(events: Seq<BootstrapEvent>)
    requires
        trace_answers(init_phase(), events),
        run_from(init_phase(), events) is Ready,
    ensures
        events =~= seq![
            BootstrapEvent::ExistenceChecked(true),
            BootstrapEvent::Connected,
            BootstrapEvent::MigrationsDirResolved,
            BootstrapEvent::MigratorLoaded,
            BootstrapEvent::MigrationsApplied,
        ] || events =~= seq![
            BootstrapEvent::ExistenceChecked(false),
            BootstrapEvent::DatabaseCreated,
            BootstrapEvent::Connected,
            BootstrapEvent::MigrationsDirResolved,
            BootstrapEvent::MigratorLoaded,
            BootstrapEvent::MigrationsApplied,
        ],
{
    lemma_ready_implies_all_ok(init_phase(), events);
    assert(events.len() > 0);
    let p1 = step_spec(init_phase(), events[0]);
    let s1 = events.skip(1);
    assert(trace_answers(p1, s1) && run_from(p1, s1) is Ready);
    if events[0] == BootstrapEvent::ExistenceChecked(true) {
        assert(p1 is Connect);
        lemma_ready_tail_from_connect(s1);
        assert(events =~= seq![events[0]] + s1);
    } else {
        assert(events[0] == BootstrapEvent::ExistenceChecked(false));
        assert(p1 is CreateDatabase);
        assert(s1.len() > 0);
        assert(event_ok(s1[0]) && event_answers(p1, s1[0]));
        assert(s1[0] == BootstrapEvent::DatabaseCreated);
        let p2 = step_spec(p1, s1[0]);
        let s2 = s1.skip(1);
        assert(p2 is Connect);
        lemma_ready_tail_from_connect(s2);
        assert(s1 =~= seq![s1[0]] + s2);
        assert(events =~= seq![events[0]] + s1);
    }
}

proof fn lemma_ready_tail_from_connect(events: Seq<BootstrapEvent>)
    requires
        trace_answers(BootstrapPhase::Connect, events),
        run_from(BootstrapPhase::Connect, events) is Ready,
    ensures
        events =~= seq![
            BootstrapEvent::Connected,
            BootstrapEvent::MigrationsDirResolved,
            BootstrapEvent::MigratorLoaded,
            BootstrapEvent::MigrationsApplied,
        ],
{
    lemma_ready_implies_all_ok(BootstrapPhase::Connect, events);
    assert(events.len() > 0);
    assert(events[0] == BootstrapEvent::Connected);
    let s1 = events.skip(1);
    assert(trace_answers(BootstrapPhase::ResolveMigrationsDir, s1));
    assert(run_from(BootstrapPhase::ResolveMigrationsDir, s1) is Ready);
    lemma_ready_implies_all_ok(BootstrapPhase::ResolveMigrationsDir, s1);
    assert(s1.len() > 0);
    assert(s1[0] == BootstrapEvent::MigrationsDirResolved);
    let s2 = s1.skip(1);
    assert(trace_answers(BootstrapPhase::LoadMigrations, s2));
    assert(run_from(BootstrapPhase::LoadMigrations, s2) is Ready);
    lemma_ready_implies_all_ok(BootstrapPhase::LoadMigrations, s2);
    assert(s2.len() > 0);
    assert(s2[0] == BootstrapEvent::MigratorLoaded);
    let s3 = s2.skip(1);
    assert(trace_answers(BootstrapPhase::ApplyMigrations, s3));
    assert(run_from(BootstrapPhase::ApplyMigrations, s3) is Ready);
    lemma_ready_implies_all_ok(BootstrapPhase::ApplyMigrations, s3);
    assert(s3.len() > 0);
    assert(s3[0] == BootstrapEvent::MigrationsApplied);
    let s4 = s3.skip(1);
    lemma_terminal_is_final(BootstrapPhase::Ready, s4);
    assert(s3 =~= seq![s3[0]]);
    assert(s2 =~= seq![s2[0]] + s3);
    assert(s1 =~= seq![s1[0]] + s2);
    assert(events =~= seq![events[0]] + s1);
}

/// A bootstrap that found the database absent and still reached the ready
/// phase must have created it as its very next step.
pub proof fn lemma_absent_database_is_created(events: Seq<BootstrapEvent>)
    requires
        trace_answers(init_phase(), events),
        run_from(init_phase(), events) is Ready,
        events.len() > 0,
        events[0] == BootstrapEvent::ExistenceChecked(false),
    ensures
        events.len() >= 2,
        events[1] == BootstrapEvent::DatabaseCreated,
{
    let next = step_spec(init_phase(), events[0]);
    assert(next is CreateDatabase);
    assert(trace_answers(next, events.skip(1)));
    assert(run_from(next, events.skip(1)) is Ready);
    if events.len() == 1 {
        assert(false);
    }
    lemma_ready_implies_all_ok(next, events.skip(1));
    assert(event_ok(events.skip(1)[0]));
    assert(event_answers(next, events.skip(1)[0]));
    assert(events.skip(1)[0] == events[1]);
}

} // verus!
