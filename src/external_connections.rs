//! Capabilities that business logic uses to reach the outside world, and the
//! coordinator that runs a unit of work inside one database transaction.
use vstd::prelude::*;
use vstd::string::{to_string_from_display_ensures, StringExecFns};

use crate::transaction::{
    completes_with, lemma_begin_failure_short_circuits, lemma_commit_failure_preserves_value,
    lemma_commit_on_success, lemma_no_commit_on_failure, step, TxAction, TxEvent, TxStage,
};

verus! {

/// `anyhow::Error`, carried through unopened: the opaque error of every
/// outside operation.
#[verifier::external_type_specification]
#[verifier::external_body]
pub struct ExAnyhowError(anyhow::Error);

/// ConnectionHandle is a handle borrowed from [ExternalConnectivity] which can be
/// used to reach a connection to the database.
pub trait ConnectionHandle {
    /// The driver's raw connection type.
    type Connection;

    /// Borrow the connection to perform a query. The borrow cannot outlive
    /// the handle.
    fn borrow_connection(&mut self) -> &mut Self::Connection;
}

/// ExternalConnectivity owns clients that are able to communicate with the
/// outside world, such as database clients and HTTP clients.
pub trait ExternalConnectivity {
    /// A connection handle; it borrows from the connectivity that made it, so it
    /// cannot outlive it.
    type DbHandle<'handle>: ConnectionHandle + 'handle where Self: 'handle;

    /// The client used for outbound HTTP requests.
    type HttpClient;

    /// Acquire a handle which allows borrowing a connection from the database.
    fn database_cxn(&mut self) -> Result<Self::DbHandle<'_>, anyhow::Error>;

    /// Reach the HTTP client, also from inside a transaction.
    fn http_client(&self) -> &Self::HttpClient;
}

/// TransactionHandle represents an in-flight database transaction that can be
/// committed once. Dropping the handle without committing abandons the
/// transaction (it rolls back).
pub trait TransactionHandle: Sized {
    /// Commit the changes to the database. Consumes the handle, so a second
    /// commit cannot be written.
    fn commit(self) -> Result<(), anyhow::Error>;
}

/// Anything that can initiate a database transaction.
pub trait Transactable {
    /// The transactional connectivity: a source of connection handles and a
    /// commit capability. It does not start nested transactions.
    type Handle: TransactionHandle + ExternalConnectivity;

    /// Begin a transaction. The origin is left as it was; several transactions
    /// may be started from it.
    fn start_transaction(&self) -> Result<Self::Handle, anyhow::Error>;
}

/// An [ExternalConnectivity] that can also initiate a database transaction.
pub trait TransactableExternalConnectivity: ExternalConnectivity + Transactable {

}

impl<T: ExternalConnectivity + Transactable> TransactableExternalConnectivity for T {

}

/// How a transactional unit of work failed. The three cases exclude each other.
#[derive(Debug)]
pub enum TxOrSourceError<SourceValue, SourceErr> {
    /// The unit of work failed and returned this error; nothing was committed.
    Source(SourceErr),
    /// The transaction could not begin; the unit of work did not run.
    TxBegin(anyhow::Error),
    /// The unit of work succeeded, but the commit failed. Its value is kept.
    TxCommit {
        /// The success value returned from the unit of work.
        successful_result: SourceValue,
        /// The database error that occurred when the commit failed.
        transaction_err: anyhow::Error,
    },
}

impl<SourceValue, SourceErr: core::fmt::Display> TxOrSourceError<SourceValue, SourceErr> {
    /// The error's message: the unit of work's error as it displays, or a
    /// sentence that names the failed stage followed by the database error.
    pub fn describe(&self) -> (r: String)
        ensures
            self matches TxOrSourceError::Source(err) ==> to_string_from_display_ensures::<
                SourceErr,
            >(err, r),
            self matches TxOrSourceError::TxBegin(err) ==> exists|text: String|
                {
                    &&& to_string_from_display_ensures::<anyhow::Error>(err, text)
                    &&& r@ == "Failed to start the transaction: "@ + text@
                },
            self matches TxOrSourceError::TxCommit { transaction_err, .. } ==> exists|text: String|
                {
                    &&& to_string_from_display_ensures::<anyhow::Error>(transaction_err, text)
                    &&& r@ == "Got a successful result, but the database transaction failed: "@
                        + text@
                },
    {
        match self {
            TxOrSourceError::Source(err) => err.to_string(),
            TxOrSourceError::TxBegin(err) => {
                let text = err.to_string();
                "Failed to start the transaction: ".to_owned().concat(text.as_str())
            },
            TxOrSourceError::TxCommit { transaction_err, .. } => {
                let text = transaction_err.to_string();
                "Got a successful result, but the database transaction failed: ".to_owned().concat(
                    text.as_str(),
                )
            },
        }
    }
}

/// Runs `transaction_context` inside a transaction begun from `tx_origin`, and
/// commits the transaction if and only if the unit of work returns `Ok`.
///
/// - If the transaction cannot begin, the unit of work does not run, and the
///   result is `TxBegin`.
/// - If the unit of work returns `Err(e)`, the transaction is dropped
///   uncommitted, and the result is `Source(e)`.
/// - If it returns `Ok(v)`, the transaction is committed once: the result is
///   `Ok(v)`, or, when the commit fails, `TxCommit` holding `v`.
///
/// Each decision is taken by [`step`]: the result is the one that the state
/// machine of `transaction` hands back for what happened, so the laws proved
/// there hold of every call.
pub fn with_transaction<TxAble, Handle, R, E, F>(
    tx_origin: &TxAble,
    transaction_context: F,
) -> (r: Result<R, TxOrSourceError<R, E>>) where
    TxAble: Transactable<Handle = Handle>,
    Handle: TransactionHandle + ExternalConnectivity,
    F: FnOnce(&mut Handle) -> Result<R, E>,

    requires
        forall|handle: &mut Handle| transaction_context.requires((handle,)),
    ensures
        exists|events: Seq<TxEvent<R, E>>|
            {
                &&& completes_with(events, r)
                &&& forall|i: int|
                    0 <= i < events.len() && #[trigger] events[i] is WorkDone ==> exists|
                        handle: &mut Handle,
                    | transaction_context.ensures((handle,), events[i]->WorkDone_0)
            },
        r matches Ok(value) ==> exists|handle: &mut Handle|
            transaction_context.ensures((handle,), Ok(value)),
        r matches Err(TxOrSourceError::Source(err)) ==> exists|handle: &mut Handle|
            transaction_context.ensures((handle,), Err(err)),
        r matches Err(TxOrSourceError::TxCommit { successful_result, .. }) ==> exists|
            handle: &mut Handle,
        | transaction_context.ensures((handle,), Ok(successful_result)),
{
    let stage: TxStage<R> = TxStage::Beginning;
    let mut tx_handle = match tx_origin.start_transaction() {
        Ok(handle) => handle,
        Err(err) => {
            let ghost begin_err = err;
            let (_, action) = step(stage, TxEvent::<R, E>::BeginFailed(err));
            let ghost events = seq![TxEvent::<R, E>::BeginFailed(begin_err)];
            proof {
                lemma_begin_failure_short_circuits::<R, E>(begin_err, Seq::empty());
                assert(events + Seq::empty() =~= events);
            }
            return match action {
                TxAction::Finish(result) => {
                    assert(completes_with(events, result));
                    result
                },
                _ => vstd::pervasive::unreached(),
            };
        },
    };
    let (stage, action) = step(stage, TxEvent::<R, E>::Begun);
    assert(action is RunWork);
    let ret_val = transaction_context(&mut tx_handle);
    let ghost work_result = ret_val;
    assert(exists|handle: &mut Handle| transaction_context.ensures((handle,), work_result));
    let (stage, action) = step(stage, TxEvent::WorkDone(ret_val));
    match action {
        TxAction::Commit => {
            let ghost value = stage->Committing_0;
            assert(work_result == Ok::<R, E>(value));
            assert(exists|handle: &mut Handle|
                transaction_context.ensures((handle,), Ok::<R, E>(value)));
            match tx_handle.commit() {
                Ok(()) => {
                    let (_, action) = step(stage, TxEvent::Committed);
                    let ghost events = seq![
                        TxEvent::<R, E>::Begun,
                        TxEvent::WorkDone(Ok(value)),
                        TxEvent::Committed,
                    ];
                    proof {
                        lemma_commit_on_success::<R, E>(value, Seq::empty());
                        assert(events + Seq::empty() =~= events);
                    }
                    match action {
                        TxAction::Finish(result) => {
                            assert(completes_with(events, result));
                            assert(events[1] == TxEvent::<R, E>::WorkDone(work_result));
                            assert(result matches Ok(v) ==> v == value);
                            assert(result matches Err(
                                TxOrSourceError::TxCommit { successful_result, .. },
                            ) ==> successful_result == value);
                            result
                        },
                        _ => vstd::pervasive::unreached(),
                    }
                },
                Err(commit_err) => {
                    let ghost commit_error = commit_err;
                    let (_, action) = step(stage, TxEvent::CommitFailed(commit_err));
                    let ghost events = seq![
                        TxEvent::<R, E>::Begun,
                        TxEvent::WorkDone(Ok(value)),
                        TxEvent::CommitFailed(commit_error),
                    ];
                    proof {
                        lemma_commit_failure_preserves_value::<R, E>(
                            value,
                            commit_error,
                            Seq::empty(),
                        );
                        assert(events + Seq::empty() =~= events);
                    }
                    match action {
                        TxAction::Finish(result) => {
                            assert(completes_with(events, result));
                            assert(events[1] == TxEvent::<R, E>::WorkDone(work_result));
                            assert(result matches Ok(v) ==> v == value);
                            assert(result matches Err(
                                TxOrSourceError::TxCommit { successful_result, .. },
                            ) ==> successful_result == value);
                            result
                        },
                        _ => vstd::pervasive::unreached(),
                    }
                },
            }
        },
        TxAction::Finish(result) => {
            let ghost events = seq![TxEvent::<R, E>::Begun, TxEvent::WorkDone(work_result)];
            proof {
                lemma_no_commit_on_failure::<R, E>(work_result->Err_0, Seq::empty());
                assert(events + Seq::empty() =~= events);
            }
            assert(completes_with(events, result));
            assert(result matches Err(TxOrSourceError::Source(err)) ==> work_result == Err::<R, E>(
                err,
            ));
            result
        },
        TxAction::RunWork => vstd::pervasive::unreached(),
    }
}

} // verus!
