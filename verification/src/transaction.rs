//! Transactions: the lease that gives one continuation the connection for
//! itself, from `BEGIN` until the transaction is committed, rolled back or
//! abandoned.
//!
//! The holder of a lease keeps the connection's lock for as long as the
//! lease is open. What is sent over the connection is sent by the caller;
//! the lease decides whether, and what.

use vstd::prelude::*;
use vstd::string::*;
use crate::error::Failure;
use crate::query::{Query, NO_CONTINUATION};

verus! {

/// How a transaction is ended.
#[derive(Clone, Copy, Debug, PartialEq, Eq, Structural)]
pub enum Finish {
    Commit,
    Rollback,
}

/// Why a lease turns an operation away. Nothing is sent in any of these cases.
#[derive(Clone, Copy, Debug, PartialEq, Eq, Structural)]
pub enum LeaseError {
    /// The transaction is closed, or is being ended.
    Closed,
    /// The operation comes from another continuation than the one that the
    /// lease was given to.
    WrongContinuation,
    /// The connection was opened anew since the lease was given: the
    /// transaction that the lease stands for is no more.
    Stale,
    /// A transaction holds the connection, and the caller would wait for a
    /// result that cannot come before the transaction has ended.
    Deadlock,
}

/// What a connection knows of the transaction that holds it.
#[derive(Clone, Copy, Debug, PartialEq, Eq, Structural)]
pub enum Marker {
    /// No transaction holds the connection.
    Free,
    /// The transaction of `owner` holds the connection.
    Held { owner: i32 },
    /// No transaction holds the connection, and the last one ended on
    /// another connection than it had begun on.
    Invalid,
}

/// What came of taking the connection and sending `BEGIN`.
#[derive(Debug, PartialEq, Eq)]
pub enum BeginOutcome {
    /// No connection is held; nothing was sent.
    NoConnection,
    /// The statement failed.
    Failed(Failure),
    Started,
}

/// How the result of an operation on a transaction reaches its continuation.
#[derive(Clone, Copy, Debug, PartialEq, Eq, Structural)]
pub enum Route {
    /// The caller waits and takes the result itself.
    Direct,
    /// The result is queued for the host, which then resumes `continuation`.
    Resume { continuation: i32 },
}

/// A query that a lease has let through.
#[derive(Debug, PartialEq, Eq)]
pub struct LeasedQuery {
    pub query: Query,
    pub route: Route,
}

/// What is to be done to end a transaction: send the statement of `action`
/// and report its failure, if any; then send the statement that turns
/// autocommit on again, whatever comes of it; then release the connection's
/// lock and forget the transaction.
#[derive(Clone, Copy, Debug, PartialEq, Eq, Structural)]
pub struct Finalization {
    pub action: Finish,
    /// The connection was opened anew since the lease was given: the host is
    /// told that the transaction is no more.
    pub stale: bool,
    /// Nobody had asked to end the transaction: a diagnostic is owed.
    pub forgotten: bool,
}

/// What came of resuming the continuation that holds a lease.
#[derive(Clone, Copy, Debug, PartialEq, Eq, Structural)]
pub enum Resumed {
    /// It waits again, for the result of its next operation.
    Yielded,
    /// It ran to its end.
    Finished,
    /// It failed.
    Failed,
}

/// A lease as a plain value.
pub struct LeaseView {
    pub owner: i32,
    pub generation: u64,
    pub open: bool,
    pub finalizing: bool,
    pub sync: bool,
}

impl Finish {
    /// The statement that ends a transaction in this way.
    pub open spec fn sql(self) -> Seq<char> {
        match self {
            Finish::Commit => "COMMIT;"@,
            Finish::Rollback => "ROLLBACK;"@,
        }
    }

    /// The statement that ends a transaction in this way.
    pub fn statement(self) -> (sql: &'static str)
        ensures
            sql@ == self.sql(),
    {
        match self {
            Finish::Commit => "COMMIT;",
            Finish::Rollback => "ROLLBACK;",
        }
    }
}

impl LeaseError {
    /// Why the operation was turned away, in words.
    pub open spec fn text(self) -> Seq<char> {
        match self {
            LeaseError::Closed => "transaction is closed"@,
            LeaseError::WrongContinuation =>
                "transaction can only be accessed from the coroutine it was created in"@,
            LeaseError::Stale => "transaction is lost: the connection was opened anew"@,
            LeaseError::Deadlock => "connection is held by a transaction"@,
        }
    }

    /// Why the operation was turned away, in words.
    pub fn message(self) -> (text: String)
        ensures
            text@ == self.text(),
    {
        match self {
            LeaseError::Closed => String::from_str("transaction is closed"),
            LeaseError::WrongContinuation => String::from_str(
                "transaction can only be accessed from the coroutine it was created in",
            ),
            LeaseError::Stale => String::from_str(
                "transaction is lost: the connection was opened anew",
            ),
            LeaseError::Deadlock => String::from_str("connection is held by a transaction"),
        }
    }
}

impl Finalization {
    /// The statements that end the transaction, in the order in which they
    /// are sent: the one that commits or rolls back, then the one that turns
    /// autocommit on again. Each is sent whatever came of the one before.
    pub fn statements(&self) -> (list: Vec<&'static str>)
        ensures
            list@.len() == 2,
            list@[0]@ == self.action.sql(),
            list@[1]@ == "SET autocommit = 1;"@,
    {
        let mut list: Vec<&'static str> = Vec::new();
        list.push(self.action.statement());
        list.push(restore_statement());
        list
    }

    /// What the one who asked to end the transaction is told, given what
    /// came of the two statements: what came of the first. What came of
    /// turning autocommit on again is dropped, and never stands in for it.
    pub fn outcome(&self, statement: Result<(), Failure>, restore: Result<(), Failure>) -> (res:
        Result<(), Failure>)
        ensures
            res == statement,
    {
        statement
    }
}

impl Marker {
    /// What the connection knows once the attempt to begin the transaction
    /// of `owner` has ended: the transaction holds it where it has begun,
    /// and nothing holds it where it has not.
    pub open spec fn after_begin_spec(owner: i32, started: bool) -> Marker {
        if started {
            Marker::Held { owner }
        } else {
            Marker::Free
        }
    }

    /// What the connection knows once the attempt to begin the transaction
    /// of `owner` has ended.
    pub fn after_begin(owner: i32, started: bool) -> (marker: Marker)
        ensures
            marker == Marker::after_begin_spec(owner, started),
    {
        if started {
            Marker::Held { owner }
        } else {
            Marker::Free
        }
    }

    /// What the connection knows once a transaction has ended as `done` says.
    pub open spec fn after_spec(done: Finalization) -> Marker {
        if done.stale {
            Marker::Invalid
        } else {
            Marker::Free
        }
    }

    /// Whether an ordinary query may be handed to the connection: one whose
    /// caller waits for the result is turned away while a transaction holds
    /// the connection.
    pub open spec fn admits(self, sync: bool) -> Result<(), LeaseError> {
        if self is Held && sync {
            Err(LeaseError::Deadlock)
        } else {
            Ok(())
        }
    }

    /// What the connection knows while the transaction of `owner` is being
    /// begun and while it is open.
    pub fn begin(owner: i32) -> (marker: Marker)
        ensures
            marker == (Marker::Held { owner }),
    {
        Marker::Held { owner }
    }

    /// What the connection knows once a transaction has ended as `done`
    /// says: nothing holds it any more, and it remembers if the transaction
    /// had become stale.
    pub fn after(done: Finalization) -> (marker: Marker)
        ensures
            marker == Marker::after_spec(done),
    {
        if done.stale {
            Marker::Invalid
        } else {
            Marker::Free
        }
    }

    /// Whether an ordinary query may be handed to the connection. While a
    /// transaction holds the connection, a query whose caller waits for the
    /// result is turned away at once, since it could only hang.
    pub fn check_query(self, sync: bool) -> (res: Result<(), LeaseError>)
        ensures
            res == self.admits(sync),
    {
        match self {
            Marker::Held { .. } => if sync {
                Err(LeaseError::Deadlock)
            } else {
                Ok(())
            },
            _ => Ok(()),
        }
    }
}

/// The statement that begins a transaction.
pub fn begin_statement() -> (sql: &'static str)
    ensures
        sql@ == "SET autocommit = 0; BEGIN;"@,
{
    "SET autocommit = 0; BEGIN;"
}

/// The statement that is sent after a transaction has ended.
pub fn restore_statement() -> (sql: &'static str)
    ensures
        sql@ == "SET autocommit = 1;"@,
{
    "SET autocommit = 1;"
}

impl LeaseView {
    /// Whether the transaction takes operations: it is open and nobody has
    /// asked to end it.
    pub open spec fn usable(self) -> bool {
        self.open && !self.finalizing
    }

    /// Whether `caller` may act on the transaction.
    pub open spec fn holder_check(self, caller: i32) -> Result<(), LeaseError> {
        if !self.usable() {
            Err(LeaseError::Closed)
        } else if caller == NO_CONTINUATION || caller != self.owner {
            Err(LeaseError::WrongContinuation)
        } else {
            Ok(())
        }
    }

    /// Whether `caller` may send something within the transaction, the
    /// connection being of generation `generation`.
    pub open spec fn access(self, caller: i32, generation: u64) -> Result<(), LeaseError> {
        if self.holder_check(caller) is Err {
            self.holder_check(caller)
        } else if generation != self.generation {
            Err(LeaseError::Stale)
        } else {
            Ok(())
        }
    }

    /// How a result reaches the holder.
    pub open spec fn route(self) -> Route {
        if self.sync {
            Route::Direct
        } else {
            Route::Resume { continuation: self.owner }
        }
    }

    /// Whether `caller` is the continuation that the lease was given to.
    pub open spec fn held_by(self, caller: i32) -> bool {
        caller != NO_CONTINUATION && caller == self.owner
    }

    /// The lease after `caller` asked to end the transaction, and the
    /// answer. To end a closed transaction once more is no error for its
    /// holder: nothing changes and nothing is asked for. Otherwise the
    /// caller has to be the holder of a transaction that takes operations;
    /// from then on it takes none, and the answer is the holder's route.
    pub open spec fn end_requested(self, caller: i32) -> (
        LeaseView,
        Result<Option<Route>, LeaseError>,
    ) {
        if !self.open && self.held_by(caller) {
            (self, Ok(None))
        } else {
            match self.holder_check(caller) {
                Ok(_) => (LeaseView { finalizing: true, ..self }, Ok(Some(self.route()))),
                Err(e) => (self, Err(e)),
            }
        }
    }

    /// The lease after it was asked to end the transaction, the connection
    /// being of generation `generation`, and what is to be done for it.
    pub open spec fn finalized(self, action: Finish, generation: u64, forgotten: bool) -> (
        LeaseView,
        Option<Finalization>,
    ) {
        if self.open {
            (
                LeaseView { open: false, ..self },
                Some(Finalization { action, stale: generation != self.generation, forgotten }),
            )
        } else {
            (self, None)
        }
    }

    /// The lease after its holder let go of it without ending the
    /// transaction, and what is to be done for it.
    pub open spec fn abandoned(self, generation: u64) -> (LeaseView, Option<Finalization>) {
        self.finalized(Finish::Rollback, generation, !self.finalizing)
    }

    /// The lease after its holder was resumed, and what is to be done for
    /// it: nothing while the holder waits again; once the holder is gone, a
    /// transaction that is still open is rolled back.
    pub open spec fn after_resume(self, outcome: Resumed, generation: u64) -> (
        LeaseView,
        Option<Finalization>,
    ) {
        match outcome {
            Resumed::Yielded => (self, None),
            Resumed::Finished => self.abandoned(generation),
            Resumed::Failed => self.finalized(Finish::Rollback, generation, false),
        }
    }
}

/// The lease of one transaction.
#[derive(Debug, PartialEq, Eq)]
pub struct Transaction {
    coroutine_ref: i32,
    generation: u64,
    open: bool,
    sync: bool,
    finalizing: bool,
}

impl View for Transaction {
    type V = LeaseView;

    closed spec fn view(&self) -> LeaseView {
        LeaseView {
            owner: self.coroutine_ref,
            generation: self.generation,
            open: self.open,
            finalizing: self.finalizing,
            sync: self.sync,
        }
    }
}

impl Transaction {
    /// The lease for `owner` on a connection of generation `generation`,
    /// given what came of beginning the transaction. There is a lease only
    /// where the transaction has begun.
    pub fn new(owner: i32, generation: u64, outcome: BeginOutcome) -> (res: Result<
        Transaction,
        Failure,
    >)
        ensures
            match outcome {
                BeginOutcome::Started => res is Ok && res->Ok_0@ == (LeaseView {
                    owner,
                    generation,
                    open: true,
                    finalizing: false,
                    sync: false,
                }),
                BeginOutcome::NoConnection => res is Err && res->Err_0 == Failure::Closed,
                BeginOutcome::Failed(e) => res is Err && res->Err_0 == e,
            },
    {
        match outcome {
            BeginOutcome::Started => Ok(
                Transaction {
                    coroutine_ref: owner,
                    generation,
                    open: true,
                    sync: false,
                    finalizing: false,
                },
            ),
            BeginOutcome::NoConnection => Err(Failure::Closed),
            BeginOutcome::Failed(e) => Err(e),
        }
    }

    /// Whether the transaction takes operations.
    pub fn is_open(&self) -> (open: bool)
        ensures
            open == self@.usable(),
    {
        self.open && !self.finalizing
    }

    pub fn set_open(&mut self, open: bool)
        ensures
            final(self)@ == (LeaseView { open, ..old(self)@ }),
    {
        self.open = open;
    }

    /// Whether the holder waits for each result itself.
    pub fn is_sync(&self) -> (sync: bool)
        ensures
            sync == self@.sync,
    {
        self.sync
    }

    pub fn set_sync(&mut self, sync: bool)
        ensures
            final(self)@ == (LeaseView { sync, ..old(self)@ }),
    {
        self.sync = sync;
    }

    /// How a result reaches the holder.
    pub fn route(&self) -> (route: Route)
        ensures
            route == self@.route(),
    {
        if self.sync {
            Route::Direct
        } else {
            Route::Resume { continuation: self.coroutine_ref }
        }
    }

    /// The continuation that the lease was given to.
    pub fn owner(&self) -> (owner: i32)
        ensures
            owner == self@.owner,
    {
        self.coroutine_ref
    }

    /// The generation of the connection when the lease was given.
    pub fn generation(&self) -> (generation: u64)
        ensures
            generation == self@.generation,
    {
        self.generation
    }

    /// Whether `caller` may act on the transaction: it is turned away where
    /// the transaction is closed or being ended, and where it is not the
    /// continuation that the lease was given to.
    pub fn check_holder(&self, caller: i32) -> (res: Result<(), LeaseError>)
        ensures
            res == self@.holder_check(caller),
    {
        if !self.is_open() {
            Err(LeaseError::Closed)
        } else if caller == NO_CONTINUATION || caller != self.coroutine_ref {
            Err(LeaseError::WrongContinuation)
        } else {
            Ok(())
        }
    }

    /// Whether `caller` may send something within the transaction, the
    /// connection being of generation `generation`.
    pub fn check_access(&self, caller: i32, generation: u64) -> (res: Result<(), LeaseError>)
        ensures
            res == self@.access(caller, generation),
    {
        match self.check_holder(caller) {
            Err(e) => Err(e),
            Ok(_) => if generation != self.generation {
                Err(LeaseError::Stale)
            } else {
                Ok(())
            },
        }
    }

    /// Lets a query of `caller` through, or turns it away. A query that is
    /// let through is sent on the leased connection at once, and its result
    /// goes the holder's way.
    pub fn query(&self, caller: i32, generation: u64, query: Query) -> (res: Result<
        LeasedQuery,
        LeaseError,
    >)
        ensures
            res == match self@.access(caller, generation) {
                Ok(_) => Ok(LeasedQuery { query, route: self@.route() }),
                Err(e) => Err(e),
            },
    {
        match self.check_access(caller, generation) {
            Err(e) => Err(e),
            Ok(_) => Ok(LeasedQuery { query, route: self.route() }),
        }
    }

    /// Takes the request of `caller` to end the transaction. Where the
    /// request is taken, the transaction takes no more operations from then
    /// on, and the answer is how the outcome reaches the holder. Where the
    /// holder asks to end a transaction that is closed already, nothing
    /// changes and nothing is to be done: the answer is `Ok(None)`.
    pub fn begin_finalize(&mut self, caller: i32) -> (res: Result<Option<Route>, LeaseError>)
        ensures
            (final(self)@, res) == old(self)@.end_requested(caller),
    {
        if !self.open && caller != NO_CONTINUATION && caller == self.coroutine_ref {
            return Ok(None);
        }
        match self.check_holder(caller) {
            Err(e) => Err(e),
            Ok(_) => {
                self.finalizing = true;
                Ok(Some(self.route()))
            },
        }
    }

    /// Ends the transaction, the connection being of generation
    /// `generation`: closes the lease and says what is to be done. On a
    /// closed lease nothing changes and nothing is to be done.
    pub fn finalize(&mut self, action: Finish, generation: u64) -> (todo: Option<Finalization>)
        ensures
            (final(self)@, todo) == old(self)@.finalized(action, generation, false),
    {
        if !self.open {
            return None;
        }
        self.set_open(false);
        Some(Finalization { action, stale: generation != self.generation, forgotten: false })
    }

    /// The holder let go of the lease. If the transaction is still open it
    /// is rolled back, and where nobody had asked to end it a diagnostic is
    /// owed. On a closed lease nothing changes and nothing is to be done.
    pub fn abandon(&mut self, generation: u64) -> (todo: Option<Finalization>)
        ensures
            (final(self)@, todo) == old(self)@.abandoned(generation),
    {
        if !self.open {
            return None;
        }
        self.set_open(false);
        Some(
            Finalization {
                action: Finish::Rollback,
                stale: generation != self.generation,
                forgotten: !self.finalizing,
            },
        )
    }
}

impl Transaction {
    /// The holder was resumed with a result. While it waits again nothing
    /// is done. Once it has run to its end or failed, it can end the
    /// transaction no more: a transaction that is still open is rolled back,
    /// and a diagnostic is owed where the holder ended without a failure and
    /// without having asked to end the transaction.
    pub fn resume(&mut self, outcome: Resumed, generation: u64) -> (todo: Option<Finalization>)
        ensures
            (final(self)@, todo) == old(self)@.after_resume(outcome, generation),
    {
        match outcome {
            Resumed::Yielded => None,
            Resumed::Finished => self.abandon(generation),
            Resumed::Failed => self.finalize(Finish::Rollback, generation),
        }
    }
}

/// A lease given at one generation turns away whatever is sent after the
/// generation has grown; the holder itself is told that the lease is stale.
pub proof fn stale_lease_is_rejected(lease: LeaseView, caller: i32, generation: u64)
    requires
        generation > lease.generation,
    ensures
        lease.access(caller, generation) is Err,
        lease.holder_check(caller) is Ok ==> lease.access(caller, generation) == Err::<
            (),
            LeaseError,
        >(LeaseError::Stale),
{
}

/// Only the continuation that a lease was given to is let through, and only
/// while the transaction is open and not being ended.
pub proof fn foreign_continuation_is_rejected(lease: LeaseView, caller: i32, generation: u64)
    ensures
        caller != lease.owner ==> lease.access(caller, generation) is Err,
        (caller != lease.owner && lease.usable()) ==> lease.access(caller, generation) == Err::<
            (),
            LeaseError,
        >(LeaseError::WrongContinuation),
        lease.access(caller, generation) is Ok <==> (lease.usable() && caller == lease.owner
            && caller != NO_CONTINUATION && generation == lease.generation),
{
}

/// Ending a transaction that is closed changes nothing and asks for nothing;
/// so ending a transaction twice does, the second time, nothing. And for the
/// holder it is no error to ask for it: the request is answered with
/// success, and with nothing to do.
pub proof fn finalize_is_idempotent(
    lease: LeaseView,
    first: Finish,
    second: Finish,
    g1: u64,
    g2: u64,
    f1: bool,
    f2: bool,
)
    ensures
        !lease.open ==> lease.finalized(first, g1, f1) == (lease, None::<Finalization>),
        lease.finalized(first, g1, f1).0.finalized(second, g2, f2) == (
            lease.finalized(first, g1, f1).0,
            None::<Finalization>,
        ),
        (!lease.open && lease.held_by(lease.owner)) ==> lease.end_requested(lease.owner) == (
            lease,
            Ok::<Option<Route>, LeaseError>(None),
        ),
        lease.held_by(lease.owner) ==> lease.finalized(first, g1, f1).0.end_requested(lease.owner)
            == (lease.finalized(first, g1, f1).0, Ok::<Option<Route>, LeaseError>(None)),
{
}

/// A lease that is let go of while its transaction is open asks for exactly
/// one rollback: the first time for one, and never again after that.
pub proof fn abandoned_lease_rolls_back_once(lease: LeaseView, g1: u64, g2: u64, again: Finish)
    requires
        lease.open,
    ensures
        lease.abandoned(g1).1 is Some,
        lease.abandoned(g1).1->Some_0.action == Finish::Rollback,
        lease.abandoned(g1).1->Some_0.forgotten == !lease.finalizing,
        lease.abandoned(g1).0.abandoned(g2).1 is None,
        lease.abandoned(g1).0.finalized(again, g2, false).1 is None,
        lease.abandoned(g1).0.access(lease.owner, g2) == Err::<(), LeaseError>(
            LeaseError::Closed,
        ),
{
}

} // verus!
