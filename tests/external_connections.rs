use sample_rest::external_connections::{
    with_transaction, ConnectionHandle, ExternalConnectivity, Transactable, TransactionHandle,
    TxOrSourceError,
};
use std::sync::atomic::{AtomicBool, AtomicUsize, Ordering};
use std::sync::Arc;

#[derive(Debug)]
struct SampleErr;

/// A fake connectivity that records whether a transaction committed, and can be
/// told to fail at the begin or at the commit.
struct FakeExternalConnectivity {
    is_transacting: bool,
    fail_begin: bool,
    fail_commit: bool,
    downstream_transaction_committed: Arc<AtomicBool>,
}

impl FakeExternalConnectivity {
    fn new() -> Self {
        Self {
            is_transacting: false,
            fail_begin: false,
            fail_commit: false,
            downstream_transaction_committed: Arc::new(AtomicBool::new(false)),
        }
    }

    fn did_transaction_commit(&self) -> bool {
        self.downstream_transaction_committed.load(Ordering::SeqCst)
    }
}

struct MockHandle {
    connection: (),
}

impl ConnectionHandle for MockHandle {
    type Connection = ();

    fn borrow_connection(&mut self) -> &mut () {
        &mut self.connection
    }
}

impl ExternalConnectivity for FakeExternalConnectivity {
    type DbHandle<'cxn> = MockHandle;
    type HttpClient = ();

    fn database_cxn(&mut self) -> Result<MockHandle, anyhow::Error> {
        Ok(MockHandle { connection: () })
    }

    fn http_client(&self) -> &() {
        &()
    }
}

impl TransactionHandle for FakeExternalConnectivity {
    fn commit(self) -> Result<(), anyhow::Error> {
        if !self.is_transacting {
            panic!("Tried to commit when we weren't in a transaction!")
        }
        if self.fail_commit {
            return Err(anyhow::Error::msg("commit refused"));
        }
        self.downstream_transaction_committed
            .store(true, Ordering::SeqCst);
        Ok(())
    }
}

impl Transactable for FakeExternalConnectivity {
    type Handle = FakeExternalConnectivity;

    fn start_transaction(&self) -> Result<FakeExternalConnectivity, anyhow::Error> {
        if self.fail_begin {
            return Err(anyhow::Error::msg("cannot begin"));
        }
        Ok(FakeExternalConnectivity {
            is_transacting: true,
            fail_begin: false,
            fail_commit: self.fail_commit,
            downstream_transaction_committed: Arc::clone(&self.downstream_transaction_committed),
        })
    }
}

#[test]
fn commits_on_success() {
    let ext_cxn = FakeExternalConnectivity::new();
    let tx_result = with_transaction(&ext_cxn, |_tx_cxn: &mut FakeExternalConnectivity| {
        println!("Woohoo!");
        Ok::<(), SampleErr>(())
    });

    assert!(tx_result.is_ok());
    assert!(ext_cxn.did_transaction_commit());
}

#[test]
fn does_not_commit_on_failure() {
    let ext_cxn = FakeExternalConnectivity::new();
    let tx_result = with_transaction(&ext_cxn, |_tx_cxn: &mut FakeExternalConnectivity| {
        println!("Whoopsie!");
        Err::<(), SampleErr>(SampleErr)
    });

    assert!(matches!(tx_result, Err(TxOrSourceError::Source(SampleErr))));
    assert!(!ext_cxn.did_transaction_commit());
}

#[test]
fn unit_of_work_success_returns_ok_and_commits() {
    let ext_cxn = FakeExternalConnectivity::new();
    let tx_result = with_transaction(&ext_cxn, |_tx_cxn: &mut FakeExternalConnectivity| {
        println!("Doing the work");
        Ok::<(), SampleErr>(())
    });

    assert!(matches!(tx_result, Ok(())));
    assert!(ext_cxn.did_transaction_commit());
}

#[test]
fn unit_of_work_failure_returns_source_without_commit() {
    let ext_cxn = FakeExternalConnectivity::new();
    let tx_result = with_transaction(&ext_cxn, |_tx_cxn: &mut FakeExternalConnectivity| {
        Err::<(), SampleErr>(SampleErr)
    });

    assert!(matches!(tx_result, Err(TxOrSourceError::Source(SampleErr))));
    assert!(!ext_cxn.did_transaction_commit());
}

#[test]
fn begin_failure_never_invokes_unit_of_work() {
    let mut ext_cxn = FakeExternalConnectivity::new();
    ext_cxn.fail_begin = true;
    let invocations = AtomicUsize::new(0);
    let tx_result = with_transaction(&ext_cxn, |_tx_cxn: &mut FakeExternalConnectivity| {
        invocations.fetch_add(1, Ordering::SeqCst);
        Ok::<(), SampleErr>(())
    });

    match tx_result {
        Err(TxOrSourceError::TxBegin(err)) => assert_eq!(err.to_string(), "cannot begin"),
        other => panic!("expected a begin failure, got {:?}", other),
    }
    assert_eq!(invocations.load(Ordering::SeqCst), 0);
    assert!(!ext_cxn.did_transaction_commit());
}

#[test]
fn commit_failure_keeps_successful_result() {
    let mut ext_cxn = FakeExternalConnectivity::new();
    ext_cxn.fail_commit = true;
    let tx_result = with_transaction(&ext_cxn, |_tx_cxn: &mut FakeExternalConnectivity| {
        Ok::<i32, SampleErr>(42)
    });

    match tx_result {
        Err(TxOrSourceError::TxCommit { successful_result, transaction_err }) => {
            assert_eq!(successful_result, 42);
            assert_eq!(transaction_err.to_string(), "commit refused");
        }
        other => panic!("expected a commit failure, got {:?}", other),
    }
    assert!(!ext_cxn.did_transaction_commit());
}

#[test]
fn unit_of_work_runs_once_and_reaches_the_database() {
    let ext_cxn = FakeExternalConnectivity::new();
    let invocations = AtomicUsize::new(0);
    let tx_result = with_transaction(&ext_cxn, |tx_cxn: &mut FakeExternalConnectivity| {
        invocations.fetch_add(1, Ordering::SeqCst);
        let mut handle = tx_cxn.database_cxn().map_err(|_| SampleErr)?;
        let _connection: &mut () = handle.borrow_connection();
        Ok::<&str, SampleErr>("done")
    });

    assert_eq!(tx_result.unwrap(), "done");
    assert_eq!(invocations.load(Ordering::SeqCst), 1);
    assert!(ext_cxn.did_transaction_commit());
}

#[test]
fn errors_describe_the_failed_stage() {
    let begin: TxOrSourceError<i32, String> = TxOrSourceError::TxBegin(anyhow::Error::msg("pool closed"));
    assert_eq!(begin.describe(), "Failed to start the transaction: pool closed");

    let commit: TxOrSourceError<i32, String> = TxOrSourceError::TxCommit {
        successful_result: 42,
        transaction_err: anyhow::Error::msg("serialization conflict"),
    };
    assert_eq!(
        commit.describe(),
        "Got a successful result, but the database transaction failed: serialization conflict"
    );

    let source: TxOrSourceError<i32, String> = TxOrSourceError::Source("Abcde".to_owned());
    assert_eq!(source.describe(), "Abcde");
}
