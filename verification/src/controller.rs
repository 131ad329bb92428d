//! The controller: the capacity to run commands that a node has while it is
//! the leader.

use crate::action::BashCommand;
use crate::task_pool::completion_line;
use crate::task_pool::Completion;
use crate::task_pool::Dispatch;
use crate::task_pool::SendError;
use crate::task_pool::TaskPool;
use crate::task_pool::QUEUE_CAPACITY;
use vstd::prelude::*;

verus! {

/// Owns one task pool and submits shell commands to it.
pub struct Controller {
    task_pool: TaskPool<Box<BashCommand>>,
}

impl Controller {
    /// The pool that this controller owns.
    pub closed spec fn pool(&self) -> TaskPool<Box<BashCommand>> {
        self.task_pool
    }

    pub open spec fn wf(&self) -> bool {
        self.pool().wf()
    }

    /// A controller with a fresh pool of `max_concurrent_tasks` permits.
    pub fn new(max_concurrent_tasks: usize) -> (controller: Controller)
        ensures
            controller.pool().fresh(max_concurrent_tasks as nat, QUEUE_CAPACITY as nat),
    {
        Controller { task_pool: TaskPool::new(max_concurrent_tasks) }
    }

    /// Closes the pool and gives it up, for the caller to drain. The
    /// controller is gone after this.
    pub fn stop(self) -> (pool: TaskPool<Box<BashCommand>>)
        requires
            self.wf(),
        ensures
            pool.wf(),
            pool.closed_from(self.pool()),
    {
        self.task_pool.stop()
    }

    /// Submits an actor to the pool.
    pub fn send_actor(&mut self, actor: Box<BashCommand>) -> (result: Result<
        (),
        SendError<Box<BashCommand>>,
    >)
        requires
            old(self).wf(),
        ensures
            final(self).wf(),
            old(self).pool().sent(final(self).pool(), actor, result),
    {
        self.task_pool.send_actor(actor)
    }

    /// Wraps `command` as an actor and submits it. The result tells whether
    /// the pool took it, not how the command ends.
    pub fn run_command(&mut self, command: String) -> (result: Result<
        (),
        SendError<Box<BashCommand>>,
    >)
        requires
            old(self).wf(),
        ensures
            final(self).wf(),
            exists|actor: Box<BashCommand>|
                actor.spec_command() == command@ && #[trigger] old(self).pool().sent(
                    final(self).pool(),
                    actor,
                    result,
                ),
    {
        let actor = BashCommand::new(command);
        let ghost submitted = actor;
        let result = self.task_pool.send_actor(actor);
        assert(old(self).pool().sent(self.pool(), submitted, result));
        result
    }

    /// One step of the pool's dispatcher.
    pub fn dispatch(&mut self) -> (step: Dispatch<Box<BashCommand>>)
        requires
            old(self).wf(),
        ensures
            final(self).wf(),
            old(self).pool().dispatched(final(self).pool(), step),
    {
        self.task_pool.dispatch()
    }

    /// Reports that a started command has ended and frees its permit.
    pub fn complete(&mut self, completion: &Completion) -> (line: Option<String>)
        requires
            old(self).wf(),
        ensures
            final(self).wf(),
            old(self).pool().completed(final(self).pool()),
            line.is_some() == completion_line(*completion).is_some(),
            line matches Some(text) ==> completion_line(*completion) == Some(text@),
    {
        self.task_pool.complete(completion)
    }
}

/// What a controller can be told to do.
#[derive(Clone, Copy, Debug, PartialEq, Eq, Structural)]
pub enum Command {
    StartController,
    StopController,
}

/// Whether the controller's work is under way.
#[derive(Clone, Copy, Debug, PartialEq, Eq, Structural)]
pub struct ControllerInner {
    pub running: bool,
}

impl ControllerInner {
    pub fn new() -> (inner: ControllerInner)
        ensures
            !inner.running,
    {
        ControllerInner { running: false }
    }

    pub fn start_controller(&mut self)
        ensures
            final(self).running,
    {
        self.running = true;
    }

    pub fn stop_controller(&mut self)
        ensures
            !final(self).running,
    {
        self.running = false;
    }

    /// Carries out one command: after it the controller runs exactly if the
    /// command was to start it.
    pub fn handle(&mut self, command: Command)
        ensures
            final(self).running == (command is StartController),
    {
        match command {
            Command::StartController => self.start_controller(),
            Command::StopController => self.stop_controller(),
        }
    }
}

} // verus!
