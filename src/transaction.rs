//! The transaction state machine.
//!
//! Every operation that needs the server comes in two calls. The first checks
//! the transaction's state and returns what to send; the caller sends it and
//! hands the server's answer to the second, which checks again and records the
//! result. Between the two the caller keeps the transaction borrowed.
use vstd::prelude::*;

use crate::options::{start_transaction_command, start_transaction_text, IsolationLevel, ReadVariant};
use crate::cursor::{Cursor, CursorState, CursorView};
use crate::savepoint::SavepointRegistry;
use crate::text::{decimal, lemma_decimal_injective, push_decimal};

verus! {

/// Where a transaction stands in its life: `Done` is final.
#[derive(Clone, Copy, Debug, PartialEq, Eq, Structural)]
pub enum TransactionState {
    NotStarted,
    Started,
    Done,
}

/// Why an operation on a transaction failed. `E` is the connection's error.
#[derive(Debug, PartialEq, Eq)]
pub enum TransactionError<E> {
    /// The transaction has not been started with `BEGIN`.
    NotStarted,
    /// `begin` was called on a running transaction.
    AlreadyStarted,
    /// The transaction was committed or rolled back.
    AlreadyDone,
    /// `execute_many` was given no parameter sets.
    EmptyParameterSet,
    /// A savepoint of that name already exists.
    SavepointAlreadyExists,
    /// No savepoint of that name exists.
    SavepointNotFound,
    /// A single-row fetch matched more than one row.
    TooManyRows,
    /// A single-row fetch matched no row.
    NoRows,
    /// The connection or the server failed.
    DriverError(E),
}

/// One statement to run on the connection, with its bound parameters.
pub struct Statement<P> {
    pub querystring: String,
    pub parameters: P,
    pub prepared: bool,
}

/// The abstract state of a transaction.
pub struct TransactionView {
    pub state: TransactionState,
    pub isolation_level: Option<IsolationLevel>,
    pub read_variant: Option<ReadVariant>,
    pub deferable: Option<bool>,
    pub savepoints: Set<Seq<char>>,
    pub cursor_num: nat,
}

/// A transaction on one connection: its options, its state and its savepoints.
pub struct Transaction {
    state: TransactionState,
    isolation_level: Option<IsolationLevel>,
    read_variant: Option<ReadVariant>,
    deferable: Option<bool>,
    savepoints: SavepointRegistry,
    cursor_num: usize,
}

impl View for Transaction {
    type V = TransactionView;

    closed spec fn view(&self) -> TransactionView {
        TransactionView {
            state: self.state,
            isolation_level: self.isolation_level,
            read_variant: self.read_variant,
            deferable: self.deferable,
            savepoints: self.savepoints@,
            cursor_num: self.cursor_num as nat,
        }
    }
}

/// The check that queries and `commit`/`rollback` make: the transaction must be running.
pub open spec fn ready_check<E>(state: TransactionState) -> Result<(), TransactionError<E>> {
    match state {
        TransactionState::NotStarted => Err(TransactionError::NotStarted),
        TransactionState::Started => Ok(()),
        TransactionState::Done => Err(TransactionError::AlreadyDone),
    }
}

/// The check that `begin` makes: the transaction must not have started.
pub open spec fn begin_check<E>(state: TransactionState) -> Result<(), TransactionError<E>> {
    match state {
        TransactionState::NotStarted => Ok(()),
        TransactionState::Started => Err(TransactionError::AlreadyStarted),
        TransactionState::Done => Err(TransactionError::AlreadyDone),
    }
}

/// The check for a new savepoint: a running transaction, and a name not yet taken.
pub open spec fn savepoint_check<E>(v: TransactionView, name: Seq<char>) -> Result<
    (),
    TransactionError<E>,
> {
    match ready_check::<E>(v.state) {
        Err(e) => Err(e),
        Ok(_) => if v.savepoints.contains(name) {
            Err(TransactionError::SavepointAlreadyExists)
        } else {
            Ok(())
        },
    }
}

/// The check for using a savepoint: a running transaction, and a registered name.
pub open spec fn existing_savepoint_check<E>(v: TransactionView, name: Seq<char>) -> Result<
    (),
    TransactionError<E>,
> {
    match ready_check::<E>(v.state) {
        Err(e) => Err(e),
        Ok(_) => if v.savepoints.contains(name) {
            Ok(())
        } else {
            Err(TransactionError::SavepointNotFound)
        },
    }
}

/// The check that `execute_many` makes: a running transaction, then at least one parameter set.
pub open spec fn execute_many_check<E>(state: TransactionState, sets: nat) -> Result<
    (),
    TransactionError<E>,
> {
    match ready_check::<E>(state) {
        Err(e) => Err(e),
        Ok(_) => if sets == 0 {
            Err(TransactionError::EmptyParameterSet)
        } else {
            Ok(())
        },
    }
}

/// The `START TRANSACTION` text for a transaction's options.
pub open spec fn begin_text(v: TransactionView) -> Seq<char> {
    start_transaction_text(v.isolation_level, v.read_variant, v.deferable)
}

pub open spec fn savepoint_text(name: Seq<char>) -> Seq<char> {
    "SAVEPOINT "@ + name
}

pub open spec fn rollback_to_text(name: Seq<char>) -> Seq<char> {
    "ROLLBACK TO SAVEPOINT "@ + name
}

pub open spec fn release_savepoint_text(name: Seq<char>) -> Seq<char> {
    "RELEASE SAVEPOINT "@ + name
}

/// A first call: on a failed check the check's error, otherwise the command `text`.
pub open spec fn issues<E>(
    check: Result<(), TransactionError<E>>,
    r: Result<String, TransactionError<E>>,
    text: Seq<char>,
) -> bool {
    match check {
        Err(e) => r == Err::<String, TransactionError<E>>(e),
        Ok(_) => r matches Ok(command) && command@ == text,
    }
}

/// A second call: on a failed check the check's error and nothing changed; on
/// the server's error that error and nothing changed; otherwise success and `next`.
pub open spec fn settles<E>(
    before: TransactionView,
    after: TransactionView,
    check: Result<(), TransactionError<E>>,
    outcome: Result<(), E>,
    next: TransactionView,
    r: Result<(), TransactionError<E>>,
) -> bool {
    match check {
        Err(e) => r == Err::<(), TransactionError<E>>(e) && after == before,
        Ok(_) => match outcome {
            Ok(_) => r == Ok::<(), TransactionError<E>>(()) && after == next,
            Err(d) => r == Err::<(), TransactionError<E>>(TransactionError::DriverError(d))
                && after == before,
        },
    }
}

/// The state after a successful `BEGIN`.
pub open spec fn after_begin(v: TransactionView) -> TransactionView {
    TransactionView { state: TransactionState::Started, ..v }
}

/// The state after a successful `COMMIT` or `ROLLBACK`.
pub open spec fn after_end(v: TransactionView) -> TransactionView {
    TransactionView { state: TransactionState::Done, ..v }
}

/// The state after a successful `SAVEPOINT name`.
pub open spec fn after_savepoint(v: TransactionView, name: Seq<char>) -> TransactionView {
    TransactionView { savepoints: v.savepoints.insert(name), ..v }
}

/// The state after a successful `RELEASE SAVEPOINT name`.
pub open spec fn after_release(v: TransactionView, name: Seq<char>) -> TransactionView {
    TransactionView { savepoints: v.savepoints.remove(name), ..v }
}

/// `s` runs `querystring` with `parameters`, prepared or not as `prepared` says.
pub open spec fn is_statement<P>(s: Statement<P>, querystring: Seq<char>, parameters: P, prepared: bool) -> bool {
    &&& s.querystring@ == querystring
    &&& s.parameters == parameters
    &&& s.prepared == prepared
}

/// A statement handed out after `check`: the check's error, or exactly the given fields.
pub open spec fn passes_statement<P, E>(
    check: Result<(), TransactionError<E>>,
    r: Result<Statement<P>, TransactionError<E>>,
    querystring: Seq<char>,
    parameters: P,
    prepared: bool,
) -> bool {
    match check {
        Err(e) => r == Err::<Statement<P>, TransactionError<E>>(e),
        Ok(_) => r matches Ok(s) && is_statement(s, querystring, parameters, prepared),
    }
}

impl Transaction {
    /// A transaction that has not started, with the given options.
    pub fn new(
        isolation_level: Option<IsolationLevel>,
        read_variant: Option<ReadVariant>,
        deferable: Option<bool>,
    ) -> (r: Self)
        ensures
            r@ == (TransactionView {
                state: TransactionState::NotStarted,
                isolation_level,
                read_variant,
                deferable,
                savepoints: Set::empty(),
                cursor_num: 0,
            }),
    {
        Transaction {
            state: TransactionState::NotStarted,
            isolation_level,
            read_variant,
            deferable,
            savepoints: SavepointRegistry::new(),
            cursor_num: 0,
        }
    }

    pub fn state(&self) -> (r: TransactionState)
        ensures
            r == self@.state,
    {
        self.state
    }

    /// Whether `BEGIN` has succeeded.
    pub fn is_started(&self) -> (r: bool)
        ensures
            r == (self@.state != TransactionState::NotStarted),
    {
        self.state != TransactionState::NotStarted
    }

    /// Whether `COMMIT` or `ROLLBACK` has succeeded.
    pub fn is_done(&self) -> (r: bool)
        ensures
            r == (self@.state == TransactionState::Done),
    {
        self.state == TransactionState::Done
    }

    /// The number the next cursor's name will carry.
    pub fn cursor_num(&self) -> (r: usize)
        ensures
            r == self@.cursor_num,
    {
        self.cursor_num
    }

    /// Whether a savepoint of this name is currently valid.
    pub fn has_savepoint(&self, name: &String) -> (r: bool)
        ensures
            r == self@.savepoints.contains(name@),
    {
        self.savepoints.contains(name)
    }

    /// Succeeds exactly when the transaction is running.
    pub fn check_is_transaction_ready<E>(&self) -> (r: Result<(), TransactionError<E>>)
        ensures
            r == ready_check::<E>(self@.state),
    {
        match self.state {
            TransactionState::NotStarted => Err(TransactionError::NotStarted),
            TransactionState::Started => Ok(()),
            TransactionState::Done => Err(TransactionError::AlreadyDone),
        }
    }

    fn check_can_begin<E>(&self) -> (r: Result<(), TransactionError<E>>)
        ensures
            r == begin_check::<E>(self@.state),
    {
        match self.state {
            TransactionState::NotStarted => Ok(()),
            TransactionState::Started => Err(TransactionError::AlreadyStarted),
            TransactionState::Done => Err(TransactionError::AlreadyDone),
        }
    }

    fn check_new_savepoint<E>(&self, name: &String) -> (r: Result<(), TransactionError<E>>)
        ensures
            r == savepoint_check::<E>(self@, name@),
    {
        self.check_is_transaction_ready()?;
        if self.savepoints.contains(name) {
            return Err(TransactionError::SavepointAlreadyExists);
        }
        Ok(())
    }

    fn check_existing_savepoint<E>(&self, name: &String) -> (r: Result<(), TransactionError<E>>)
        ensures
            r == existing_savepoint_check::<E>(self@, name@),
    {
        self.check_is_transaction_ready()?;
        if !self.savepoints.contains(name) {
            return Err(TransactionError::SavepointNotFound);
        }
        Ok(())
    }

    /// The `START TRANSACTION` command for this transaction's options.
    pub fn start_transaction(&self) -> (r: String)
        ensures
            r@ == begin_text(self@),
    {
        start_transaction_command(self.isolation_level, self.read_variant, self.deferable)
    }

    /// First call of `begin`: the `START TRANSACTION` command to send.
    pub fn begin_command<E>(&self) -> (r: Result<String, TransactionError<E>>)
        ensures
            issues(begin_check::<E>(self@.state), r, begin_text(self@)),
    {
        self.check_can_begin()?;
        Ok(self.start_transaction())
    }

    /// Second call of `begin`: on the server's success the transaction is running.
    pub fn begin<E>(&mut self, outcome: Result<(), E>) -> (r: Result<(), TransactionError<E>>)
        ensures
            settles(
                old(self)@,
                final(self)@,
                begin_check::<E>(old(self)@.state),
                outcome,
                after_begin(old(self)@),
                r,
            ),
    {
        self.check_can_begin()?;
        match outcome {
            Ok(()) => {
                self.state = TransactionState::Started;
                Ok(())
            },
            Err(e) => Err(TransactionError::DriverError(e)),
        }
    }

    /// First call of `commit`: the `COMMIT;` command to send.
    pub fn commit_command<E>(&self) -> (r: Result<String, TransactionError<E>>)
        ensures
            issues(ready_check::<E>(self@.state), r, "COMMIT;"@),
    {
        self.check_is_transaction_ready()?;
        Ok(String::from_str("COMMIT;"))
    }

    /// Second call of `commit`: on the server's success the transaction is done.
    pub fn commit<E>(&mut self, outcome: Result<(), E>) -> (r: Result<(), TransactionError<E>>)
        ensures
            settles(
                old(self)@,
                final(self)@,
                ready_check::<E>(old(self)@.state),
                outcome,
                after_end(old(self)@),
                r,
            ),
    {
        self.finish(outcome)
    }

    /// First call of `rollback`: the `ROLLBACK` command to send.
    pub fn rollback_command<E>(&self) -> (r: Result<String, TransactionError<E>>)
        ensures
            issues(ready_check::<E>(self@.state), r, "ROLLBACK"@),
    {
        self.check_is_transaction_ready()?;
        Ok(String::from_str("ROLLBACK"))
    }

    /// Second call of `rollback`: on the server's success the transaction is done.
    pub fn rollback<E>(&mut self, outcome: Result<(), E>) -> (r: Result<(), TransactionError<E>>)
        ensures
            settles(
                old(self)@,
                final(self)@,
                ready_check::<E>(old(self)@.state),
                outcome,
                after_end(old(self)@),
                r,
            ),
    {
        self.finish(outcome)
    }

    fn finish<E>(&mut self, outcome: Result<(), E>) -> (r: Result<(), TransactionError<E>>)
        ensures
            settles(
                old(self)@,
                final(self)@,
                ready_check::<E>(old(self)@.state),
                outcome,
                after_end(old(self)@),
                r,
            ),
    {
        self.check_is_transaction_ready()?;
        match outcome {
            Ok(()) => {
                self.state = TransactionState::Done;
                Ok(())
            },
            Err(e) => Err(TransactionError::DriverError(e)),
        }
    }

    /// First call of `savepoint`: the `SAVEPOINT name` command to send.
    pub fn savepoint_command<E>(&self, name: &String) -> (r: Result<String, TransactionError<E>>)
        ensures
            issues(savepoint_check::<E>(self@, name@), r, savepoint_text(name@)),
    {
        self.check_new_savepoint(name)?;
        let mut command = String::from_str("SAVEPOINT ");
        command.append(name.as_str());
        Ok(command)
    }

    /// Second call of `savepoint`: on the server's success the name is registered.
    pub fn savepoint<E>(&mut self, name: String, outcome: Result<(), E>) -> (r: Result<
        (),
        TransactionError<E>,
    >)
        ensures
            settles(
                old(self)@,
                final(self)@,
                savepoint_check::<E>(old(self)@, name@),
                outcome,
                after_savepoint(old(self)@, name@),
                r,
            ),
    {
        self.check_new_savepoint(&name)?;
        match outcome {
            Ok(()) => {
                self.savepoints.insert(name);
                Ok(())
            },
            Err(e) => Err(TransactionError::DriverError(e)),
        }
    }

    /// First call of `rollback_to`: the `ROLLBACK TO SAVEPOINT name` command to send.
    pub fn rollback_to_command<E>(&self, name: &String) -> (r: Result<String, TransactionError<E>>)
        ensures
            issues(existing_savepoint_check::<E>(self@, name@), r, rollback_to_text(name@)),
    {
        self.check_existing_savepoint(name)?;
        let mut command = String::from_str("ROLLBACK TO SAVEPOINT ");
        command.append(name.as_str());
        Ok(command)
    }

    /// Second call of `rollback_to`. The savepoint stays valid either way.
    pub fn rollback_to<E>(&self, name: &String, outcome: Result<(), E>) -> (r: Result<
        (),
        TransactionError<E>,
    >)
        ensures
            settles(
                self@,
                self@,
                existing_savepoint_check::<E>(self@, name@),
                outcome,
                self@,
                r,
            ),
    {
        self.check_existing_savepoint(name)?;
        match outcome {
            Ok(()) => Ok(()),
            Err(e) => Err(TransactionError::DriverError(e)),
        }
    }

    /// First call of `release_savepoint`: the `RELEASE SAVEPOINT name` command to send.
    pub fn release_savepoint_command<E>(&self, name: &String) -> (r: Result<
        String,
        TransactionError<E>,
    >)
        ensures
            issues(existing_savepoint_check::<E>(self@, name@), r, release_savepoint_text(name@)),
    {
        self.check_existing_savepoint(name)?;
        let mut command = String::from_str("RELEASE SAVEPOINT ");
        command.append(name.as_str());
        Ok(command)
    }

    /// Second call of `release_savepoint`: on the server's success the name is removed.
    pub fn release_savepoint<E>(&mut self, name: &String, outcome: Result<(), E>) -> (r: Result<
        (),
        TransactionError<E>,
    >)
        ensures
            settles(
                old(self)@,
                final(self)@,
                existing_savepoint_check::<E>(old(self)@, name@),
                outcome,
                after_release(old(self)@, name@),
                r,
            ),
    {
        self.check_existing_savepoint(name)?;
        match outcome {
            Ok(()) => {
                self.savepoints.remove(name);
                Ok(())
            },
            Err(e) => Err(TransactionError::DriverError(e)),
        }
    }

    /// A statement for `execute`, `execute_raw` or `fetch_row`, once the
    /// transaction is running.
    pub fn execute<P, E>(&self, querystring: String, parameters: P, prepared: bool) -> (r: Result<
        Statement<P>,
        TransactionError<E>,
    >)
        ensures
            passes_statement(
                ready_check::<E>(self@.state),
                r,
                querystring@,
                parameters,
                prepared,
            ),
    {
        self.check_is_transaction_ready()?;
        Ok(Statement { querystring, parameters, prepared })
    }

    /// The statements of `execute_many`: the same query once per parameter set,
    /// in the order of the sets. They are to be run one after the other,
    /// stopping at the first failure.
    pub fn execute_many<P, E>(
        &self,
        querystring: String,
        parameters: Vec<P>,
        prepared: bool,
    ) -> (r: Result<Vec<Statement<P>>, TransactionError<E>>)
        ensures
            match execute_many_check::<E>(self@.state, parameters@.len()) {
                Err(e) => r == Err::<Vec<Statement<P>>, TransactionError<E>>(e),
                Ok(_) => r matches Ok(statements) && statements@.len() == parameters@.len() && (
                forall|i: int|
                    0 <= i < parameters@.len() ==> #[trigger] is_statement(statements@[i], querystring@, parameters@[i], prepared)),
            },
    {
        self.check_is_transaction_ready()?;
        if parameters.len() == 0 {
            return Err(TransactionError::EmptyParameterSet);
        }
        let ghost sets = parameters@;
        let mut statements: Vec<Statement<P>> = Vec::new();
        let mut rest = parameters;
        while rest.len() > 0
            invariant
                statements@.len() + rest@.len() == sets.len(),
                rest@ == sets.subrange(statements@.len() as int, sets.len() as int),
                forall|i: int|
                    0 <= i < statements@.len() ==> #[trigger] is_statement(statements@[i], querystring@, sets[i], prepared),
            decreases rest@.len(),
        {
            let single_parameters = rest.remove(0);
            let copy = querystring.clone();
            assert(copy@ == querystring@);
            statements.push(Statement { querystring: copy, parameters: single_parameters, prepared });
        }
        Ok(statements)
    }

    /// Second call of `fetch_row`, given the rows that the statement from
    /// `execute` returned: the one row, or why there is not exactly one.
    pub fn fetch_row<R, E>(&self, outcome: Result<Vec<R>, E>) -> (r: Result<R, TransactionError<E>>)
        ensures
            match ready_check::<E>(self@.state) {
                Err(e) => r == Err::<R, TransactionError<E>>(e),
                Ok(_) => match outcome {
                    Err(d) => r == Err::<R, TransactionError<E>>(TransactionError::DriverError(d)),
                    Ok(rows) => if rows@.len() == 1 {
                        r == Ok::<R, TransactionError<E>>(rows@[0])
                    } else if rows@.len() == 0 {
                        r == Err::<R, TransactionError<E>>(TransactionError::NoRows)
                    } else {
                        r == Err::<R, TransactionError<E>>(TransactionError::TooManyRows)
                    },
                },
            },
    {
        self.check_is_transaction_ready()?;
        match outcome {
            Err(e) => Err(TransactionError::DriverError(e)),
            Ok(mut rows) => {
                if rows.len() > 1 {
                    Err(TransactionError::TooManyRows)
                } else {
                    match rows.pop() {
                        Some(row) => Ok(row),
                        None => Err(TransactionError::NoRows),
                    }
                }
            },
        }
    }

    /// The statements of a pipeline, in the order of `queries`. They may run
    /// concurrently; `pipeline_results` puts their answers back in this order.
    pub fn pipeline<P, E>(&self, queries: Vec<(String, P)>, prepared: bool) -> (r: Result<
        Vec<Statement<P>>,
        TransactionError<E>,
    >)
        ensures
            match ready_check::<E>(self@.state) {
                Err(e) => r == Err::<Vec<Statement<P>>, TransactionError<E>>(e),
                Ok(_) => r matches Ok(statements) && statements@.len() == queries@.len() && (
                forall|i: int|
                    0 <= i < queries@.len() ==> #[trigger] is_statement(statements@[i], queries@[i].0@, queries@[i].1, prepared)),
            },
    {
        self.check_is_transaction_ready()?;
        let ghost qs = queries@;
        let mut statements: Vec<Statement<P>> = Vec::new();
        let mut rest = queries;
        while rest.len() > 0
            invariant
                statements@.len() + rest@.len() == qs.len(),
                rest@ == qs.subrange(statements@.len() as int, qs.len() as int),
                forall|i: int|
                    0 <= i < statements@.len() ==> #[trigger] is_statement(statements@[i], qs[i].0@, qs[i].1, prepared),
            decreases rest@.len(),
        {
            let (querystring, parameters) = rest.remove(0);
            statements.push(Statement { querystring, parameters, prepared });
        }
        Ok(statements)
    }

    /// A new cursor over `querystring`, named `cur<N>` after this transaction's
    /// cursor counter, which then moves on. Unset options default to ten rows
    /// per page, no scrolling, and a prepared statement.
    pub fn cursor<P>(
        &mut self,
        querystring: String,
        parameters: P,
        fetch_number: Option<usize>,
        scroll: Option<bool>,
        prepared: Option<bool>,
    ) -> (r: Cursor<P>)
        requires
            old(self)@.cursor_num < usize::MAX,
        ensures
            final(self)@ == (TransactionView { cursor_num: old(self)@.cursor_num + 1, ..old(self)@ }),
            r@ == (CursorView {
                cursor_name: "cur"@ + decimal(old(self)@.cursor_num),
                querystring: querystring@,
                fetch_number: match fetch_number {
                    Some(n) => n as nat,
                    None => 10,
                },
                scroll: scroll == Some(true),
                prepared: prepared != Some(false),
                state: CursorState::Fresh(parameters),
            }),
    {
        let mut cursor_name = String::from_str("cur");
        push_decimal(&mut cursor_name, self.cursor_num);
        self.cursor_num = self.cursor_num + 1;
        let fetch_number = match fetch_number {
            Some(n) => n,
            None => 10,
        };
        let scroll = match scroll {
            Some(s) => s,
            None => false,
        };
        let prepared = match prepared {
            Some(p) => p,
            None => true,
        };
        Cursor::new(querystring, parameters, cursor_name, scroll, fetch_number, prepared)
    }
}

/// After `COMMIT` or `ROLLBACK` has succeeded, neither can be issued again:
/// asking for either command, or handing in a server answer for either, fails
/// with `AlreadyDone` and leaves the transaction as it was.
pub proof fn lemma_no_end_after_done<E>(
    v: TransactionView,
    after: TransactionView,
    command: Result<String, TransactionError<E>>,
    outcome: Result<(), E>,
    r: Result<(), TransactionError<E>>,
)
    requires
        v.state == TransactionState::Done,
    ensures
        issues(ready_check::<E>(v.state), command, "COMMIT;"@) ==> command == Err::<
            String,
            TransactionError<E>,
        >(TransactionError::AlreadyDone),
        issues(ready_check::<E>(v.state), command, "ROLLBACK"@) ==> command == Err::<
            String,
            TransactionError<E>,
        >(TransactionError::AlreadyDone),
        settles(v, after, ready_check::<E>(v.state), outcome, after_end(v), r) ==> r == Err::<
            (),
            TransactionError<E>,
        >(TransactionError::AlreadyDone) && after == v,
{
}

/// Before `BEGIN` has succeeded, every query and every savepoint, commit or
/// rollback fails with `NotStarted`.
pub proof fn lemma_nothing_before_begin<E>(v: TransactionView, name: Seq<char>, sets: nat)
    requires
        v.state == TransactionState::NotStarted,
    ensures
        ready_check::<E>(v.state) == Err::<(), TransactionError<E>>(TransactionError::NotStarted),
        execute_many_check::<E>(v.state, sets) == Err::<(), TransactionError<E>>(
            TransactionError::NotStarted,
        ),
        savepoint_check::<E>(v, name) == Err::<(), TransactionError<E>>(
            TransactionError::NotStarted,
        ),
        existing_savepoint_check::<E>(v, name) == Err::<(), TransactionError<E>>(
            TransactionError::NotStarted,
        ),
{
}

/// A savepoint name is taken once: right after a successful `SAVEPOINT name`
/// a second one fails with `SavepointAlreadyExists`, and after the name is
/// released a new `SAVEPOINT name` passes again.
pub proof fn lemma_savepoint_names_unique<E>(v: TransactionView, name: Seq<char>)
    requires
        savepoint_check::<E>(v, name) is Ok,
    ensures
        savepoint_check::<E>(after_savepoint(v, name), name) == Err::<(), TransactionError<E>>(
            TransactionError::SavepointAlreadyExists,
        ),
        existing_savepoint_check::<E>(after_savepoint(v, name), name) is Ok,
        savepoint_check::<E>(after_release(after_savepoint(v, name), name), name) is Ok,
{
    assert(after_release(after_savepoint(v, name), name).savepoints =~= v.savepoints.remove(name));
}

/// Rolling back to a savepoint keeps it: after a successful
/// `ROLLBACK TO SAVEPOINT name` the name is still registered, and a second
/// rollback to it succeeds whenever the server accepts it.
pub proof fn lemma_rollback_to_keeps_savepoint<E>(
    v: TransactionView,
    name: Seq<char>,
    outcome: Result<(), E>,
    r: Result<(), TransactionError<E>>,
    r2: Result<(), TransactionError<E>>,
)
    requires
        settles(v, v, existing_savepoint_check::<E>(v, name), outcome, v, r),
        r is Ok,
    ensures
        v.savepoints.contains(name),
        existing_savepoint_check::<E>(v, name) is Ok,
        settles(v, v, existing_savepoint_check::<E>(v, name), Ok::<(), E>(()), v, r2) ==> r2 is Ok,
{
}

/// `Done` is final: from a finished transaction, no state-changing call that is
/// handed a server answer changes anything, and each reports `AlreadyDone`.
pub proof fn lemma_done_is_final<E>(
    v: TransactionView,
    after: TransactionView,
    name: Seq<char>,
    outcome: Result<(), E>,
    next: TransactionView,
    r: Result<(), TransactionError<E>>,
)
    requires
        v.state == TransactionState::Done,
    ensures
        settles(v, after, begin_check::<E>(v.state), outcome, next, r) ==> after == v && r == Err::<
            (),
            TransactionError<E>,
        >(TransactionError::AlreadyDone),
        settles(v, after, ready_check::<E>(v.state), outcome, next, r) ==> after == v && r == Err::<
            (),
            TransactionError<E>,
        >(TransactionError::AlreadyDone),
        settles(v, after, savepoint_check::<E>(v, name), outcome, next, r) ==> after == v && r
            == Err::<(), TransactionError<E>>(TransactionError::AlreadyDone),
        settles(v, after, existing_savepoint_check::<E>(v, name), outcome, next, r) ==> after == v
            && r == Err::<(), TransactionError<E>>(TransactionError::AlreadyDone),
{
}

/// Cursors made by one transaction have distinct names: the counter only
/// grows, and different counter values give different `cur<N>` names.
pub proof fn lemma_cursor_names_distinct(a: nat, b: nat)
    requires
        a != b,
    ensures
        "cur"@ + decimal(a) != "cur"@ + decimal(b),
{
    lemma_decimal_injective(a, b);
    let x = "cur"@ + decimal(a);
    let y = "cur"@ + decimal(b);
    if x == y {
        assert(x.subrange("cur"@.len() as int, x.len() as int) == decimal(a));
        assert(y.subrange("cur"@.len() as int, y.len() as int) == decimal(b));
    }
}

} // verus!
