//! The decisions of a transactional unit of work, as a state machine.
//!
//! A driver (synchronous, as `with_transaction`, or asynchronous) performs the
//! outside work: it begins the transaction, runs the unit of work, commits.
//! After each piece of work it hands what happened to [`step`] as a
//! [`TxEvent`], and performs the [`TxAction`] that comes back.
use vstd::prelude::*;

use crate::external_connections::TxOrSourceError;

verus! {

/// Where a transaction run stands.
pub enum TxStage<R> {
    /// The transaction has been asked for and has not begun yet.
    Beginning,
    /// The transaction is open and the unit of work runs inside it.
    Working,
    /// The unit of work succeeded with this value; the commit is in flight.
    Committing(R),
    /// The run is over: nothing more happens.
    Finished,
}

/// What the driver observed after performing the last action.
pub enum TxEvent<R, E> {
    /// The transaction began.
    Begun,
    /// The transaction could not begin.
    BeginFailed(anyhow::Error),
    /// The unit of work returned.
    WorkDone(Result<R, E>),
    /// The commit succeeded.
    Committed,
    /// The commit failed.
    CommitFailed(anyhow::Error),
}

/// What the driver must do next.
pub enum TxAction<R, E> {
    /// Invoke the unit of work with the open transaction.
    RunWork,
    /// Commit the open transaction.
    Commit,
    /// Drop the transaction, if one is still open (which abandons it), and
    /// return this result to the caller.
    Finish(Result<R, TxOrSourceError<R, E>>),
}

/// The events that answer the work a stage is waiting for.
pub open spec fn accepts<R, E>(stage: TxStage<R>, event: TxEvent<R, E>) -> bool {
    match stage {
        TxStage::Beginning => event is Begun || event is BeginFailed,
        TxStage::Working => event is WorkDone,
        TxStage::Committing(_) => event is Committed || event is CommitFailed,
        TxStage::Finished => false,
    }
}

/// The transition table: the next stage and the action, for an accepted event.
pub open spec fn next<R, E>(stage: TxStage<R>, event: TxEvent<R, E>) -> (TxStage<R>, TxAction<R, E>)
    recommends
        accepts(stage, event),
{
    match (stage, event) {
        (TxStage::Beginning, TxEvent::Begun) => (TxStage::Working, TxAction::RunWork),
        (TxStage::Beginning, TxEvent::BeginFailed(err)) => (
            TxStage::Finished,
            TxAction::Finish(Err(TxOrSourceError::TxBegin(err))),
        ),
        (TxStage::Working, TxEvent::WorkDone(Ok(value))) => (
            TxStage::Committing(value),
            TxAction::Commit,
        ),
        (TxStage::Working, TxEvent::WorkDone(Err(err))) => (
            TxStage::Finished,
            TxAction::Finish(Err(TxOrSourceError::Source(err))),
        ),
        (TxStage::Committing(value), TxEvent::Committed) => (
            TxStage::Finished,
            TxAction::Finish(Ok(value)),
        ),
        (TxStage::Committing(value), TxEvent::CommitFailed(err)) => (
            TxStage::Finished,
            TxAction::Finish(
                Err(TxOrSourceError::TxCommit { successful_result: value, transaction_err: err }),
            ),
        ),
        // An event the stage does not accept is never fed to `step`.
        (other, _) => (other, TxAction::RunWork),
    }
}

/// Tells whether `event` answers what `stage` waits for.
pub fn accepts_event<R, E>(stage: &TxStage<R>, event: &TxEvent<R, E>) -> (r: bool)
    ensures
        r == accepts(*stage, *event),
{
    match stage {
        TxStage::Beginning => match event {
            TxEvent::Begun | TxEvent::BeginFailed(_) => true,
            _ => false,
        },
        TxStage::Working => match event {
            TxEvent::WorkDone(_) => true,
            _ => false,
        },
        TxStage::Committing(_) => match event {
            TxEvent::Committed | TxEvent::CommitFailed(_) => true,
            _ => false,
        },
        TxStage::Finished => false,
    }
}

/// Takes the run one step further.
pub fn step<R, E>(stage: TxStage<R>, event: TxEvent<R, E>) -> (r: (TxStage<R>, TxAction<R, E>))
    requires
        accepts(stage, event),
    ensures
        r == next(stage, event),
{
    match stage {
        TxStage::Beginning => match event {
            TxEvent::Begun => (TxStage::Working, TxAction::RunWork),
            TxEvent::BeginFailed(err) => (
                TxStage::Finished,
                TxAction::Finish(Err(TxOrSourceError::TxBegin(err))),
            ),
            _ => vstd::pervasive::unreached(),
        },
        TxStage::Working => match event {
            TxEvent::WorkDone(Ok(value)) => (TxStage::Committing(value), TxAction::Commit),
            TxEvent::WorkDone(Err(err)) => (
                TxStage::Finished,
                TxAction::Finish(Err(TxOrSourceError::Source(err))),
            ),
            _ => vstd::pervasive::unreached(),
        },
        TxStage::Committing(value) => match event {
            TxEvent::Committed => (TxStage::Finished, TxAction::Finish(Ok(value))),
            TxEvent::CommitFailed(err) => (
                TxStage::Finished,
                TxAction::Finish(
                    Err(
                        TxOrSourceError::TxCommit {
                            successful_result: value,
                            transaction_err: err,
                        },
                    ),
                ),
            ),
            _ => vstd::pervasive::unreached(),
        },
        TxStage::Finished => vstd::pervasive::unreached(),
    }
}

/// The actions a run takes when `events` are fed in order from `stage`. Feeding
/// stops at the first event that the stage reached does not accept.
pub open spec fn run<R, E>(stage: TxStage<R>, events: Seq<TxEvent<R, E>>) -> Seq<TxAction<R, E>>
    decreases events.len(),
{
    if events.len() == 0 || !accepts(stage, events[0]) {
        Seq::empty()
    } else {
        seq![next(stage, events[0]).1] + run(next(stage, events[0]).0, events.drop_first())
    }
}

/// `events` make a whole run from the beginning: each of them was accepted,
/// and the last action hands `result` back.
pub open spec fn completes_with<R, E>(
    events: Seq<TxEvent<R, E>>,
    result: Result<R, TxOrSourceError<R, E>>,
) -> bool {
    &&& events.len() > 0
    &&& run(TxStage::Beginning, events).len() == events.len()
    &&& run(TxStage::Beginning, events).last() == TxAction::Finish(result)
}

/// Unfolds one step of [`run`].
proof fn lemma_run_unfold<R, E>(stage: TxStage<R>, events: Seq<TxEvent<R, E>>)
    requires
        events.len() > 0,
        accepts(stage, events[0]),
    ensures
        run(stage, events).len() == 1 + run(next(stage, events[0]).0, events.drop_first()).len(),
        run(stage, events)[0] == next(stage, events[0]).1,
        forall|i: int|
            0 < i < run(stage, events).len() ==> #[trigger] run(stage, events)[i] == run(
                next(stage, events[0]).0,
                events.drop_first(),
            )[i - 1],
{
}

/// Once the unit of work has returned, no further commit is asked for.
proof fn lemma_no_commit_once_work_returned<R, E>(stage: TxStage<R>, events: Seq<TxEvent<R, E>>)
    requires
        stage is Committing || stage is Finished,
    ensures
        forall|i: int| 0 <= i < run(stage, events).len() ==> !(#[trigger] run(stage, events)[i] is Commit),
    decreases events.len(),
{
    if events.len() > 0 && accepts(stage, events[0]) {
        lemma_run_unfold(stage, events);
        lemma_no_commit_once_work_returned(next(stage, events[0]).0, events.drop_first());
    }
}

/// A commit is asked for at most once in any run: the transaction handle is
/// committed once, or not at all.
pub proof fn lemma_single_commit<R, E>(stage: TxStage<R>, events: Seq<TxEvent<R, E>>)
    ensures
        forall|i: int, j: int|
            0 <= i < run(stage, events).len() && 0 <= j < run(stage, events).len() && #[trigger] run(
                stage,
                events,
            )[i] is Commit && #[trigger] run(stage, events)[j] is Commit ==> i == j,
    decreases events.len(),
{
    if events.len() > 0 && accepts(stage, events[0]) {
        lemma_run_unfold(stage, events);
        let after = next(stage, events[0]).0;
        if next(stage, events[0]).1 is Commit {
            lemma_no_commit_once_work_returned(after, events.drop_first());
        } else {
            lemma_single_commit(after, events.drop_first());
        }
    }
}

/// A commit is asked for exactly where the event is the unit of work
/// returning `Ok`: commit on success, and never after a failed unit of work.
pub proof fn lemma_commit_iff_work_succeeded<R, E>(stage: TxStage<R>, events: Seq<TxEvent<R, E>>)
    ensures
        run(stage, events).len() <= events.len(),
        forall|i: int|
            0 <= i < run(stage, events).len() ==> (#[trigger] run(stage, events)[i] is Commit <==> (
            events[i] matches TxEvent::WorkDone(Ok(_)))),
    decreases events.len(),
{
    if events.len() > 0 && accepts(stage, events[0]) {
        lemma_run_unfold(stage, events);
        let rest = events.drop_first();
        lemma_commit_iff_work_succeeded(next(stage, events[0]).0, rest);
        assert forall|i: int| 0 < i < run(stage, events).len() implies (#[trigger] run(
            stage,
            events,
        )[i] is Commit <==> (events[i] matches TxEvent::WorkDone(Ok(_)))) by {
            assert(events[i] == rest[i - 1]);
        }
    }
}

/// The run ends at its first `Finish`: nothing is done after the result is
/// handed back.
pub proof fn lemma_finish_is_last<R, E>(stage: TxStage<R>, events: Seq<TxEvent<R, E>>)
    ensures
        forall|i: int|
            0 <= i < run(stage, events).len() && #[trigger] run(stage, events)[i] is Finish ==> i
                == run(stage, events).len() - 1,
    decreases events.len(),
{
    if events.len() > 0 && accepts(stage, events[0]) {
        lemma_run_unfold(stage, events);
        let after = next(stage, events[0]).0;
        let rest = events.drop_first();
        if next(stage, events[0]).1 is Finish {
            assert(after is Finished);
            assert(run(after, rest) =~= Seq::empty());
        } else {
            lemma_finish_is_last(after, rest);
        }
    }
}

/// A run that has finished does nothing more, whatever is fed to it.
proof fn lemma_finished_run_is_empty<R, E>(events: Seq<TxEvent<R, E>>)
    ensures
        run(TxStage::<R>::Finished, events) == Seq::<TxAction<R, E>>::empty(),
{
}

/// When the transaction cannot begin, the unit of work is never invoked: the
/// run ends at once with `TxBegin` holding the begin error.
pub proof fn lemma_begin_failure_short_circuits<R, E>(
    err: anyhow::Error,
    later: Seq<TxEvent<R, E>>,
)
    ensures
        run(TxStage::Beginning, seq![TxEvent::BeginFailed(err)] + later) == seq![
            TxAction::<R, E>::Finish(Err(TxOrSourceError::TxBegin(err))),
        ],
{
    let events = seq![TxEvent::BeginFailed(err)] + later;
    lemma_run_unfold(TxStage::<R>::Beginning, events);
    lemma_finished_run_is_empty(events.drop_first());
    assert(run(TxStage::Beginning, events) =~= seq![
        TxAction::<R, E>::Finish(Err(TxOrSourceError::TxBegin(err))),
    ]);
}

/// When the unit of work returns `Ok(value)`, the transaction is committed, and
/// once the commit succeeds the run ends with `Ok(value)`.
pub proof fn lemma_commit_on_success<R, E>(value: R, later: Seq<TxEvent<R, E>>)
    ensures
        run(
            TxStage::Beginning,
            seq![TxEvent::Begun, TxEvent::WorkDone(Ok(value)), TxEvent::Committed] + later,
        ) == seq![TxAction::<R, E>::RunWork, TxAction::Commit, TxAction::Finish(Ok(value))],
{
    let events = seq![TxEvent::Begun, TxEvent::WorkDone(Ok(value)), TxEvent::Committed] + later;
    let after_begin = events.drop_first();
    let after_work = after_begin.drop_first();
    lemma_run_unfold(TxStage::<R>::Beginning, events);
    lemma_run_unfold(TxStage::<R>::Working, after_begin);
    lemma_run_unfold(TxStage::<R>::Committing(value), after_work);
    lemma_finished_run_is_empty(after_work.drop_first());
    assert(run(TxStage::Beginning, events) =~= seq![
        TxAction::<R, E>::RunWork,
        TxAction::Commit,
        TxAction::Finish(Ok(value)),
    ]);
}

/// When the unit of work returns `Err(err)`, no commit is asked for: the run
/// ends with `Source(err)` and the transaction is dropped uncommitted.
pub proof fn lemma_no_commit_on_failure<R, E>(err: E, later: Seq<TxEvent<R, E>>)
    ensures
        run(TxStage::Beginning, seq![TxEvent::Begun, TxEvent::WorkDone(Err(err))] + later) == seq![
            TxAction::<R, E>::RunWork,
            TxAction::Finish(Err(TxOrSourceError::Source(err))),
        ],
{
    let events = seq![TxEvent::Begun, TxEvent::WorkDone(Err(err))] + later;
    let after_begin = events.drop_first();
    lemma_run_unfold(TxStage::<R>::Beginning, events);
    lemma_run_unfold(TxStage::<R>::Working, after_begin);
    lemma_finished_run_is_empty(after_begin.drop_first());
    assert(run(TxStage::Beginning, events) =~= seq![
        TxAction::<R, E>::RunWork,
        TxAction::Finish(Err(TxOrSourceError::Source(err))),
    ]);
}

/// When the unit of work returns `Ok(value)` and the commit fails with `err`,
/// the run ends with `TxCommit` holding exactly `value` and `err`.
pub proof fn lemma_commit_failure_preserves_value<R, E>(
    value: R,
    err: anyhow::Error,
    later: Seq<TxEvent<R, E>>,
)
    ensures
        run(
            TxStage::Beginning,
            seq![TxEvent::Begun, TxEvent::WorkDone(Ok(value)), TxEvent::CommitFailed(err)] + later,
        ) == seq![
            TxAction::<R, E>::RunWork,
            TxAction::Commit,
            TxAction::Finish(
                Err(TxOrSourceError::TxCommit { successful_result: value, transaction_err: err }),
            ),
        ],
{
    let events = seq![TxEvent::Begun, TxEvent::WorkDone(Ok(value)), TxEvent::CommitFailed(err)]
        + later;
    let after_begin = events.drop_first();
    let after_work = after_begin.drop_first();
    lemma_run_unfold(TxStage::<R>::Beginning, events);
    lemma_run_unfold(TxStage::<R>::Working, after_begin);
    lemma_run_unfold(TxStage::<R>::Committing(value), after_work);
    lemma_finished_run_is_empty(after_work.drop_first());
    assert(run(TxStage::Beginning, events) =~= seq![
        TxAction::<R, E>::RunWork,
        TxAction::Commit,
        TxAction::Finish(
            Err(TxOrSourceError::TxCommit { successful_result: value, transaction_err: err }),
        ),
    ]);
}

} // verus!
