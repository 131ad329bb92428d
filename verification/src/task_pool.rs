//! A pool that runs submitted actors, never more than a fixed number at a
//! time.
//!
//! The pool holds the bookkeeping only: a bounded queue of submitted actors,
//! the actor that the dispatcher has taken from the queue and not yet
//! started, and the number of permits in use. Whoever drives the pool calls
//! [`TaskPool::dispatch`] to learn what to do next, runs the actor that it is
//! handed, and calls [`TaskPool::complete`] when that actor has ended, however
//! it ended.

use crate::action::log_line_spec;
use crate::action::ActorResponse;
use std::collections::VecDeque;
use vstd::prelude::*;

verus! {

/// Number of actors that can wait in the queue.
pub const QUEUE_CAPACITY: usize = 100;

/// Why a submission was not taken. The actor comes back in either case: it is
/// never dropped.
#[derive(Debug, PartialEq, Eq)]
pub enum SendError<A> {
    /// The pool no longer accepts work.
    Closed(A),
    /// The queue is full: the submitter has to wait until an actor has left it.
    Full(A),
}

/// What the dispatcher has to do next.
#[derive(Debug, PartialEq, Eq)]
pub enum Dispatch<A> {
    /// Run this actor; it holds a permit until it is reported complete.
    Start(A),
    /// An actor is waiting and every permit is in use: wait for a completion.
    AwaitPermit,
    /// Nothing is waiting: wait for a submission.
    AwaitActor,
    /// The pool is closed and nothing is waiting: the dispatcher ends.
    Finished,
}

/// How the run of an actor ended.
#[derive(Debug, PartialEq, Eq)]
pub enum Completion {
    /// The actor answered.
    Response(ActorResponse),
    /// The actor ended without an answer.
    NoResponse,
    /// The actor's run panicked.
    Panicked,
}

/// A queue of actors and a fixed number of permits.
pub struct TaskPool<A> {
    limit: usize,
    capacity: usize,
    queue: VecDeque<A>,
    held: Option<A>,
    running: usize,
    closed: bool,
    submitted: Ghost<Seq<A>>,
    started: Ghost<Seq<A>>,
}

/// The line to note when an actor has ended: that of its answer, and none if
/// it gave no answer.
pub open spec fn completion_line(completion: Completion) -> Option<Seq<char>> {
    match completion {
        Completion::Response(response) => log_line_spec(response),
        _ => None,
    }
}

/// The actor that the dispatcher holds, as a sequence of at most one.
pub open spec fn held_seq<A>(held: Option<A>) -> Seq<A> {
    match held {
        Some(a) => seq![a],
        None => Seq::empty(),
    }
}

impl<A> TaskPool<A> {
    /// The greatest number of actors that run at the same time.
    pub closed spec fn limit(&self) -> nat {
        self.limit as nat
    }

    /// The number of actors that can wait in the queue.
    pub closed spec fn capacity(&self) -> nat {
        self.capacity as nat
    }

    /// The actors waiting in the queue, the one submitted first at the front.
    pub closed spec fn queue(&self) -> Seq<A> {
        self.queue@
    }

    /// The actor that has left the queue and waits for a permit.
    pub closed spec fn held(&self) -> Option<A> {
        self.held
    }

    /// The number of actors that are running.
    pub closed spec fn running(&self) -> nat {
        self.running as nat
    }

    /// Whether the pool has stopped taking submissions.
    pub closed spec fn closed(&self) -> bool {
        self.closed
    }

    /// Every actor that the pool has taken, in the order of submission.
    pub closed spec fn submitted(&self) -> Seq<A> {
        self.submitted@
    }

    /// Every actor that has been started, in the order of its start.
    pub closed spec fn started(&self) -> Seq<A> {
        self.started@
    }

    /// What holds of a pool at all times: no more actors run than there are
    /// permits, the queue is within its capacity, and the actors started, the
    /// one held and those queued are, in this order, the actors submitted.
    pub open spec fn wf(&self) -> bool {
        &&& self.running() <= self.limit()
        &&& self.queue().len() <= self.capacity()
        &&& self.submitted() == self.started() + held_seq(self.held()) + self.queue()
    }

    /// A pool with nothing in it.
    pub open spec fn fresh(&self, max_concurrent_tasks: nat, queue_capacity: nat) -> bool {
        &&& self.wf()
        &&& self.limit() == max_concurrent_tasks
        &&& self.capacity() == queue_capacity
        &&& self.queue() == Seq::<A>::empty()
        &&& self.held() is None
        &&& self.running() == 0
        &&& !self.closed()
        &&& self.submitted() == Seq::<A>::empty()
        &&& self.started() == Seq::<A>::empty()
    }

    /// What a submission does: a closed pool and a full queue hand the actor
    /// back and change nothing; otherwise the actor joins the queue at the
    /// back.
    pub open spec fn sent(self, after: Self, actor: A, result: Result<(), SendError<A>>) -> bool {
        &&& after.limit() == self.limit()
        &&& after.capacity() == self.capacity()
        &&& after.held() == self.held()
        &&& after.running() == self.running()
        &&& after.closed() == self.closed()
        &&& after.started() == self.started()
        &&& if self.closed() {
            &&& result == Err::<(), SendError<A>>(SendError::Closed(actor))
            &&& after.queue() == self.queue()
            &&& after.submitted() == self.submitted()
        } else if self.queue().len() >= self.capacity() {
            &&& result == Err::<(), SendError<A>>(SendError::Full(actor))
            &&& after.queue() == self.queue()
            &&& after.submitted() == self.submitted()
        } else {
            &&& result == Ok::<(), SendError<A>>(())
            &&& after.queue() == self.queue().push(actor)
            &&& after.submitted() == self.submitted().push(actor)
        }
    }

    /// The actor that is next in line: the one held, else the front of the
    /// queue.
    pub open spec fn next_in_line(self) -> Option<A> {
        match self.held() {
            Some(a) => Some(a),
            None => if self.queue().len() > 0 {
                Some(self.queue().first())
            } else {
                None
            },
        }
    }

    /// The queue once the dispatcher has taken its actor: unchanged if it
    /// held one already, else without its front.
    pub open spec fn queue_behind(self) -> Seq<A> {
        if self.held() is None && self.queue().len() > 0 {
            self.queue().drop_first()
        } else {
            self.queue()
        }
    }

    /// What a step of the dispatcher does. With nobody in line it reports
    /// that it waits, or that it has finished if the pool is closed. Else the
    /// next in line starts if a permit is free, and is held if none is.
    pub open spec fn dispatched(self, after: Self, step: Dispatch<A>) -> bool {
        &&& after.limit() == self.limit()
        &&& after.capacity() == self.capacity()
        &&& after.closed() == self.closed()
        &&& after.submitted() == self.submitted()
        &&& after.queue() == self.queue_behind()
        &&& match self.next_in_line() {
            None => {
                &&& step == if self.closed() {
                    Dispatch::<A>::Finished
                } else {
                    Dispatch::<A>::AwaitActor
                }
                &&& after.held() is None
                &&& after.running() == self.running()
                &&& after.started() == self.started()
            },
            Some(actor) => if self.running() < self.limit() {
                &&& step == Dispatch::Start(actor)
                &&& after.held() is None
                &&& after.running() == self.running() + 1
                &&& after.started() == self.started().push(actor)
            } else {
                &&& step == Dispatch::<A>::AwaitPermit
                &&& after.held() == Some(actor)
                &&& after.running() == self.running()
                &&& after.started() == self.started()
            },
        }
    }

    /// What the end of an actor does: one permit fewer is in use, whatever
    /// the outcome, and nothing else changes.
    pub open spec fn completed(self, after: Self) -> bool {
        &&& after.limit() == self.limit()
        &&& after.capacity() == self.capacity()
        &&& after.queue() == self.queue()
        &&& after.held() == self.held()
        &&& after.closed() == self.closed()
        &&& after.submitted() == self.submitted()
        &&& after.started() == self.started()
        &&& after.running() == if self.running() > 0 {
            self.running() - 1
        } else {
            0
        }
    }

    /// The same pool, closed.
    pub open spec fn closed_from(self, before: Self) -> bool {
        &&& self.closed()
        &&& self.limit() == before.limit()
        &&& self.capacity() == before.capacity()
        &&& self.queue() == before.queue()
        &&& self.held() == before.held()
        &&& self.running() == before.running()
        &&& self.submitted() == before.submitted()
        &&& self.started() == before.started()
    }

    /// A pool with `max_concurrent_tasks` permits and room for
    /// [`QUEUE_CAPACITY`] waiting actors.
    pub fn new(max_concurrent_tasks: usize) -> (pool: TaskPool<A>)
        ensures
            pool.fresh(max_concurrent_tasks as nat, QUEUE_CAPACITY as nat),
    {
        TaskPool::with_capacity(max_concurrent_tasks, QUEUE_CAPACITY)
    }

    /// A pool with `max_concurrent_tasks` permits and room for
    /// `queue_capacity` waiting actors.
    pub fn with_capacity(max_concurrent_tasks: usize, queue_capacity: usize) -> (pool: TaskPool<A>)
        ensures
            pool.fresh(max_concurrent_tasks as nat, queue_capacity as nat),
    {
        let pool = TaskPool {
            limit: max_concurrent_tasks,
            capacity: queue_capacity,
            queue: VecDeque::new(),
            held: None,
            running: 0,
            closed: false,
            submitted: Ghost(Seq::empty()),
            started: Ghost(Seq::empty()),
        };
        assert(pool.submitted() =~= pool.started() + held_seq(pool.held()) + pool.queue());
        pool
    }

    /// Submits an actor. A closed pool and a full queue hand the actor back;
    /// otherwise it joins the queue behind those already waiting.
    pub fn send_actor(&mut self, actor: A) -> (result: Result<(), SendError<A>>)
        requires
            old(self).wf(),
        ensures
            final(self).wf(),
            old(self).sent(*final(self), actor, result),
    {
        if self.closed {
            return Err(SendError::Closed(actor));
        }
        if self.queue.len() >= self.capacity {
            return Err(SendError::Full(actor));
        }
        proof {
            self.submitted = Ghost(self.submitted@.push(actor));
        }
        self.queue.push_back(actor);
        assert(self.submitted() =~= self.started() + held_seq(self.held()) + self.queue());
        Ok(())
    }

    /// One step of the dispatcher. It takes the actor at the front of the
    /// queue, unless it already holds one, and starts the actor it holds if a
    /// permit is free. With every permit in use nothing starts.
    pub fn dispatch(&mut self) -> (step: Dispatch<A>)
        requires
            old(self).wf(),
        ensures
            final(self).wf(),
            old(self).dispatched(*final(self), step),
    {
        if self.held.is_none() {
            let front = self.queue.pop_front();
            assert(self.queue@ =~= old(self).queue@.drop_first() || old(self).queue@.len() == 0);
            self.held = front;
        }
        assert(old(self).submitted() =~= self.started() + held_seq(self.held()) + self.queue());
        if self.held.is_none() {
            if self.closed {
                Dispatch::Finished
            } else {
                Dispatch::AwaitActor
            }
        } else if self.running < self.limit {
            let actor = self.held.take().unwrap();
            self.running = self.running + 1;
            proof {
                self.started = Ghost(self.started@.push(actor));
            }
            assert(self.submitted() =~= self.started() + held_seq(self.held()) + self.queue());
            Dispatch::Start(actor)
        } else {
            Dispatch::AwaitPermit
        }
    }

    /// Reports that a started actor has ended. Its permit is free again
    /// whether the actor answered, ended without an answer or panicked.
    /// Returns the line to note for the answer, if it calls for one.
    pub fn complete(&mut self, completion: &Completion) -> (line: Option<String>)
        requires
            old(self).wf(),
        ensures
            final(self).wf(),
            old(self).completed(*final(self)),
            line.is_some() == completion_line(*completion).is_some(),
            line matches Some(text) ==> completion_line(*completion) == Some(text@),
    {
        if self.running > 0 {
            self.running = self.running - 1;
        }
        match completion {
            Completion::Response(response) => response.log_line(),
            _ => None,
        }
    }

    /// Stops taking submissions. Actors that wait or run are not touched.
    pub fn close(&mut self)
        requires
            old(self).wf(),
        ensures
            final(self).wf(),
            final(self).closed_from(*old(self)),
    {
        self.closed = true;
    }

    /// Closes the pool and hands it back to be drained: the dispatcher goes
    /// on until [`Dispatch::Finished`].
    pub fn stop(self) -> (pool: TaskPool<A>)
        requires
            self.wf(),
        ensures
            pool.wf(),
            pool.closed_from(self),
    {
        let mut pool = self;
        pool.close();
        pool
    }

    pub fn max_concurrent_tasks(&self) -> (limit: usize)
        ensures
            limit == self.limit(),
    {
        self.limit
    }

    pub fn running_count(&self) -> (running: usize)
        ensures
            running == self.running(),
    {
        self.running
    }

    /// The number of actors in the queue.
    pub fn queue_len(&self) -> (len: usize)
        ensures
            len == self.queue().len(),
    {
        self.queue.len()
    }

    /// Whether the dispatcher holds an actor that waits for a permit.
    pub fn is_holding(&self) -> (holding: bool)
        ensures
            holding == self.held() is Some,
    {
        self.held.is_some()
    }

    pub fn is_closed(&self) -> (closed: bool)
        ensures
            closed == self.closed(),
    {
        self.closed
    }

    /// Whether the pool is closed and no actor waits or runs.
    pub fn is_drained(&self) -> (drained: bool)
        ensures
            drained == (self.closed() && self.held() is None && self.queue().len() == 0
                && self.running() == 0),
    {
        self.closed && self.held.is_none() && self.queue.len() == 0 && self.running == 0
    }
}

/// At no time do more actors run than the pool has permits.
pub proof fn lemma_concurrency_bound<A>(pool: TaskPool<A>)
    requires
        pool.wf(),
    ensures
        pool.running() <= pool.limit(),
{
}

/// Actors start in the order of their submission: those started so far are
/// the first of those submitted, and the ones that wait follow in the order
/// they came.
pub proof fn lemma_first_in_first_out<A>(pool: TaskPool<A>)
    requires
        pool.wf(),
    ensures
        pool.started().len() <= pool.submitted().len(),
        pool.started() == pool.submitted().take(pool.started().len() as int),
        held_seq(pool.held()) + pool.queue() == pool.submitted().skip(pool.started().len() as int),
{
    let rest = held_seq(pool.held()) + pool.queue();
    assert(pool.submitted() == pool.started() + rest) by {
        assert(pool.started() + held_seq(pool.held()) + pool.queue() =~= pool.started() + rest);
    }
    assert((pool.started() + rest).take(pool.started().len() as int) =~= pool.started());
    assert((pool.started() + rest).skip(pool.started().len() as int) =~= rest);
}

/// No submission is lost: what a pool was handed is started, held or queued,
/// and nothing else is.
pub proof fn lemma_nothing_dropped<A>(pool: TaskPool<A>)
    requires
        pool.wf(),
    ensures
        pool.submitted().len() == pool.started().len() + held_seq(pool.held()).len()
            + pool.queue().len(),
{
}

} // verus!
