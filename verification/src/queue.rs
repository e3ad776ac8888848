//! The queues between the workers and the host: the commands that wait for
//! a connection's actor, the results that wait for the host's next tick, and
//! the wait of a host call that has to return its result itself.

use vstd::prelude::*;
use crate::conn::Command;
use crate::query::NO_CONTINUATION;

verus! {

/// Results that wait for the host. Workers add to it; the host alone takes
/// from it, when it polls, and gets everything in the order in which it was
/// added.
#[derive(Debug, PartialEq, Eq)]
pub struct TaskQueue<T> {
    tasks: Vec<T>,
}

impl<T> View for TaskQueue<T> {
    type V = Seq<T>;

    closed spec fn view(&self) -> Seq<T> {
        self.tasks@
    }
}

impl<T> TaskQueue<T> {
    pub fn new() -> (queue: Self)
        ensures
            queue@ == Seq::<T>::empty(),
    {
        TaskQueue { tasks: Vec::new() }
    }

    /// The number of tasks that wait.
    pub fn len(&self) -> (n: usize)
        ensures
            n == self@.len(),
    {
        self.tasks.len()
    }

    pub fn is_empty(&self) -> (empty: bool)
        ensures
            empty == (self@.len() == 0),
    {
        self.tasks.len() == 0
    }

    /// Puts a task behind those that wait.
    pub fn add(&mut self, task: T)
        ensures
            final(self)@ == old(self)@.push(task),
    {
        self.tasks.push(task);
    }

    /// Takes all the tasks that wait, the oldest first.
    pub fn poll(&mut self) -> (tasks: Vec<T>)
        ensures
            tasks@ == old(self)@,
            final(self)@ == Seq::<T>::empty(),
    {
        let mut tasks: Vec<T> = Vec::new();
        core::mem::swap(&mut self.tasks, &mut tasks);
        tasks
    }
}

/// What a host call that waits for a result does next.
#[derive(Debug, PartialEq, Eq)]
pub enum BridgeStep<R, T> {
    /// The result is there: the call returns it.
    Return(R),
    /// The result is not there yet: the host runs these tasks, which were
    /// all that waited, then pauses for a moment and looks again.
    Drain(Vec<T>),
}

/// One turn of the wait for a result that a worker computes: where the
/// result has `arrived` it is returned and the queue is left alone; where it
/// has not, the queue is emptied for the host to run, so that work which
/// needs the host can go on while the host waits.
pub fn bridge_step<R, T>(arrived: Option<R>, queue: &mut TaskQueue<T>) -> (step: BridgeStep<R, T>)
    ensures
        match arrived {
            Some(r) => step == BridgeStep::<R, T>::Return(r) && final(queue)@ == old(queue)@,
            None => step is Drain && step->Drain_0@ == old(queue)@ && final(queue)@ == Seq::<
                T,
            >::empty(),
        },
{
    match arrived {
        Some(r) => BridgeStep::Return(r),
        None => BridgeStep::Drain(queue.poll()),
    }
}

/// The commands of one connection as a plain value.
pub struct MailboxView {
    /// All commands ever submitted, in the order in which they came.
    pub submitted: Seq<Command>,
    /// How many of them were handed to the actor.
    pub started: nat,
    /// Whether the command handed out last is still under way.
    pub running: bool,
}

impl MailboxView {
    pub open spec fn wf(self) -> bool {
        self.started <= self.submitted.len() && (self.running ==> self.started >= 1)
    }

    /// How many commands are done.
    pub open spec fn completed(self) -> nat {
        if self.running {
            (self.started - 1) as nat
        } else {
            self.started
        }
    }

    /// The commands that wait, the oldest first.
    pub open spec fn waiting(self) -> Seq<Command> {
        self.submitted.skip(self.started as int)
    }

    /// The command handed to the actor next, if any, and the mailbox after
    /// that: the oldest that waits, and none while one is under way.
    pub open spec fn taken(self) -> (MailboxView, Option<Command>) {
        if self.running || self.started >= self.submitted.len() {
            (self, None)
        } else {
            (
                MailboxView { started: self.started + 1, running: true, ..self },
                Some(self.submitted[self.started as int]),
            )
        }
    }
}

/// The commands that wait for a connection's actor. Anyone may submit; the
/// actor takes them one at a time, in the order in which they came.
pub struct Mailbox {
    pending: Vec<Command>,
    running: bool,
    submitted: Ghost<Seq<Command>>,
    started: Ghost<nat>,
}

impl View for Mailbox {
    type V = MailboxView;

    closed spec fn view(&self) -> MailboxView {
        MailboxView {
            submitted: self.submitted@,
            started: self.started@,
            running: self.running,
        }
    }
}

impl Mailbox {
    pub closed spec fn wf(self) -> bool {
        self@.wf() && self.pending@ == self@.waiting()
    }

    /// What holds of a mailbox holds of it as a plain value, so that what
    /// is proved of the plain value can be used of the mailbox.
    pub proof fn view_is_well_formed(self)
        requires
            self.wf(),
        ensures
            self@.wf(),
    {
    }

    pub fn new() -> (mailbox: Mailbox)
        ensures
            mailbox.wf(),
            mailbox@ == (MailboxView { submitted: Seq::empty(), started: 0, running: false }),
    {
        let mailbox = Mailbox {
            pending: Vec::new(),
            running: false,
            submitted: Ghost(Seq::empty()),
            started: Ghost(0),
        };
        proof {
            assert(mailbox.pending@ =~= mailbox@.waiting());
        }
        mailbox
    }

    /// The number of commands that wait.
    pub fn waiting(&self) -> (n: usize)
        requires
            self.wf(),
        ensures
            n == self@.waiting().len(),
    {
        self.pending.len()
    }

    /// Whether a command is under way.
    pub fn is_running(&self) -> (running: bool)
        ensures
            running == self@.running,
    {
        self.running
    }

    /// Puts a command behind those that wait.
    pub fn submit(&mut self, command: Command)
        requires
            old(self).wf(),
        ensures
            final(self).wf(),
            final(self)@ == (MailboxView {
                submitted: old(self)@.submitted.push(command),
                ..old(self)@
            }),
    {
        self.pending.push(command);
        proof {
            self.submitted@ = self.submitted@.push(command);
            assert(self.pending@ =~= self@.waiting());
        }
    }

    /// Hands the actor its next command: the oldest that waits. While a
    /// command is under way none is handed out.
    pub fn take(&mut self) -> (command: Option<Command>)
        requires
            old(self).wf(),
        ensures
            final(self).wf(),
            (final(self)@, command) == old(self)@.taken(),
    {
        if self.running || self.pending.len() == 0 {
            return None;
        }
        let command = self.pending.remove(0);
        self.running = true;
        proof {
            self.started@ = self.started@ + 1;
            assert(self.pending@ =~= self@.waiting());
        }
        Some(command)
    }

    /// The owner lets go of the connection: a last `Disconnect`, for which
    /// nobody waits, and then `Close` are put behind the commands that wait.
    pub fn release(&mut self)
        requires
            old(self).wf(),
        ensures
            final(self).wf(),
            final(self)@ == (MailboxView {
                submitted: old(self)@.submitted.push(Command::Disconnect(NO_CONTINUATION)).push(
                    Command::Close,
                ),
                ..old(self)@
            }),
    {
        self.submit(Command::Disconnect(NO_CONTINUATION));
        self.submit(Command::Close);
    }

    /// The command under way is done.
    pub fn complete(&mut self)
        requires
            old(self).wf(),
        ensures
            final(self).wf(),
            final(self)@ == (MailboxView { running: false, ..old(self)@ }),
    {
        self.running = false;
    }
}

/// Commands are handed to the actor in the order in which they were
/// submitted, none is skipped, and none is handed out while another is under
/// way: whatever is handed out is the command that follows those already
/// started.
pub proof fn commands_run_in_order(mailbox: MailboxView)
    requires
        mailbox.wf(),
    ensures
        mailbox.taken().0.wf(),
        mailbox.taken().0.submitted == mailbox.submitted,
        mailbox.running ==> mailbox.taken() == (mailbox, None::<Command>),
        mailbox.taken().1 matches Some(command) ==> {
            &&& !mailbox.running
            &&& command == mailbox.submitted[mailbox.started as int]
            &&& mailbox.taken().0.started == mailbox.started + 1
            &&& mailbox.taken().0.running
            &&& mailbox.completed() == mailbox.started
        },
        mailbox.taken().1 is None <==> (mailbox.running || mailbox.waiting().len() == 0),
{
}

} // verus!
