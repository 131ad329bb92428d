//! What a node does when its role changes: while it is the leader it has a
//! controller, and at no other time.
//!
//! [`LeaderMonitor`] turns the roles that the consensus engine reports into
//! actions; [`NodeInner`] holds the controller and carries the actions out.

use crate::action::BashCommand;
use crate::controller::Controller;
use crate::settings::checked_raft_config;
use crate::settings::ConfigError;
use crate::settings::RaftConfig;
use crate::task_pool::TaskPool;
use crate::task_pool::QUEUE_CAPACITY;
use vstd::prelude::*;
use vstd::string::StringExecFns;

verus! {

pub type NodeId = u64;

/// The number of commands that a node's controller runs at the same time.
pub const CONTROLLER_CONCURRENCY: usize = 10;

/// The role of a node, as the consensus engine reports it.
#[derive(Clone, Copy, Debug, PartialEq, Eq, Structural)]
pub enum ServerState {
    Learner,
    Follower,
    Candidate,
    Leader,
    Shutdown,
}

/// What a report of the engine calls for.
#[derive(Clone, Copy, Debug, PartialEq, Eq, Structural)]
pub enum MonitorAction {
    /// Nothing is to be done.
    Keep,
    /// The node has become the leader: it needs a controller.
    StartController,
    /// The node is no longer the leader: its controller has to stop.
    StopController,
    /// The engine reports no more: the monitor ends. The controller is left
    /// as it is.
    Quit,
}

/// The action for a report of `observed` when `current` was seen last.
/// A report of the role seen last calls for nothing. Otherwise becoming the
/// leader starts the controller and ceasing to be the leader stops it.
pub open spec fn monitor_action(current: Option<ServerState>, observed: ServerState) -> MonitorAction {
    if current == Some(observed) {
        MonitorAction::Keep
    } else if observed is Leader {
        MonitorAction::StartController
    } else if current == Some(ServerState::Leader) {
        MonitorAction::StopController
    } else {
        MonitorAction::Keep
    }
}

/// Remembers the role seen last.
#[derive(Clone, Copy, Debug, PartialEq, Eq, Structural)]
pub struct LeaderMonitor {
    current_state: Option<ServerState>,
}

impl LeaderMonitor {
    pub closed spec fn spec_current_state(&self) -> Option<ServerState> {
        self.current_state
    }

    /// A monitor that has seen no report yet.
    pub fn new() -> (monitor: LeaderMonitor)
        ensures
            monitor.spec_current_state() is None,
    {
        LeaderMonitor { current_state: None }
    }

    #[verifier::when_used_as_spec(spec_current_state)]
    pub fn current_state(&self) -> (state: Option<ServerState>)
        ensures
            state == self.spec_current_state(),
    {
        self.current_state
    }

    /// Takes a report of the node's role.
    pub fn observe(&mut self, state: ServerState) -> (action: MonitorAction)
        ensures
            action == monitor_action(old(self).spec_current_state(), state),
            final(self).spec_current_state() == Some(state),
    {
        let action = match self.current_state {
            Some(current) => {
                if current == state {
                    MonitorAction::Keep
                } else if state == ServerState::Leader {
                    MonitorAction::StartController
                } else if current == ServerState::Leader {
                    MonitorAction::StopController
                } else {
                    MonitorAction::Keep
                }
            },
            None => {
                if state == ServerState::Leader {
                    MonitorAction::StartController
                } else {
                    MonitorAction::Keep
                }
            },
        };
        self.current_state = Some(state);
        action
    }

    /// Takes what the engine's notifications gave: a role, or `None` when
    /// they have ended. The end of the notifications ends the monitor and
    /// changes nothing.
    pub fn next(&mut self, report: Option<ServerState>) -> (action: MonitorAction)
        ensures
            match report {
                Some(state) => {
                    &&& action == monitor_action(old(self).spec_current_state(), state)
                    &&& final(self).spec_current_state() == Some(state)
                },
                None => {
                    &&& action == MonitorAction::Quit
                    &&& final(self).spec_current_state() == old(self).spec_current_state()
                },
            },
    {
        match report {
            Some(state) => self.observe(state),
            None => MonitorAction::Quit,
        }
    }
}

/// The part of a node that owns the controller.
pub struct NodeInner {
    controller: Option<Controller>,
    max_concurrent_tasks: usize,
}

impl NodeInner {
    /// The controller, while there is one.
    pub closed spec fn controller(&self) -> Option<Controller> {
        self.controller
    }

    /// The number of permits that a new controller gets.
    pub closed spec fn max_concurrent_tasks(&self) -> nat {
        self.max_concurrent_tasks as nat
    }

    pub open spec fn wf(&self) -> bool {
        self.controller() matches Some(c) ==> c.wf()
    }

    /// A node without a controller.
    pub fn new(max_concurrent_tasks: usize) -> (inner: NodeInner)
        ensures
            inner.wf(),
            inner.controller() is None,
            inner.max_concurrent_tasks() == max_concurrent_tasks,
    {
        NodeInner { controller: None, max_concurrent_tasks }
    }

    /// What starting the controller does: a node without one gets a new one;
    /// a node that has one keeps it, untouched.
    pub open spec fn started(self, after: Self, created: bool) -> bool {
        &&& after.max_concurrent_tasks() == self.max_concurrent_tasks()
        &&& created == self.controller() is None
        &&& match self.controller() {
            Some(c) => after.controller() == Some(c),
            None => after.controller() matches Some(c) && c.pool().fresh(
                self.max_concurrent_tasks(),
                QUEUE_CAPACITY as nat,
            ),
        }
    }

    /// What stopping the controller does: the node has none afterwards, and
    /// the pool of the one it had comes out closed, with all that was in it.
    pub open spec fn stopped(self, after: Self, pool: Option<TaskPool<Box<BashCommand>>>) -> bool {
        &&& after.max_concurrent_tasks() == self.max_concurrent_tasks()
        &&& after.controller() is None
        &&& match self.controller() {
            Some(c) => pool matches Some(p) && p.wf() && p.closed_from(c.pool()),
            None => pool is None,
        }
    }

    /// Makes sure that the node has a controller. Returns whether one was
    /// created.
    pub fn start_controller(&mut self) -> (created: bool)
        requires
            old(self).wf(),
        ensures
            final(self).wf(),
            old(self).started(*final(self), created),
    {
        if self.controller.is_none() {
            self.controller = Some(Controller::new(self.max_concurrent_tasks));
            true
        } else {
            false
        }
    }

    /// Takes the controller away, if there is one, and stops it. The pool
    /// that comes out is to be drained by the caller.
    pub fn stop_controller(&mut self) -> (pool: Option<TaskPool<Box<BashCommand>>>)
        requires
            old(self).wf(),
        ensures
            final(self).wf(),
            old(self).stopped(*final(self), pool),
    {
        match self.controller.take() {
            Some(controller) => Some(controller.stop()),
            None => None,
        }
    }

    /// Carries out what the monitor calls for.
    pub fn apply(&mut self, action: MonitorAction) -> (pool: Option<TaskPool<Box<BashCommand>>>)
        requires
            old(self).wf(),
        ensures
            final(self).wf(),
            match action {
                MonitorAction::StartController => pool is None && exists|created: bool|
                    #[trigger] old(self).started(*final(self), created),
                MonitorAction::StopController => old(self).stopped(*final(self), pool),
                _ => pool is None && *final(self) == *old(self),
            },
    {
        match action {
            MonitorAction::StartController => {
                let created = self.start_controller();
                assert(old(self).started(*self, created));
                None
            },
            MonitorAction::StopController => self.stop_controller(),
            _ => None,
        }
    }

    pub fn has_controller(&self) -> (has: bool)
        ensures
            has == self.controller() is Some,
    {
        self.controller.is_some()
    }

    /// The controller, to submit work to it or to drive its pool.
    pub fn controller_mut(&mut self) -> (controller: Option<&mut Controller>)
        ensures
            match controller {
                Some(c) => old(self).controller() == Some(*c) && final(self).controller() == Some(
                    *final(c),
                ),
                None => old(self).controller() is None && final(self).controller() is None,
            },
            final(self).max_concurrent_tasks() == old(self).max_concurrent_tasks(),
    {
        self.controller.as_mut()
    }
}

/// A node's role and controller, for reasoning about a run of reports.
pub struct NodeModel {
    /// The role seen last.
    pub current: Option<ServerState>,
    /// Whether the node has a controller.
    pub has_controller: bool,
    /// How many controllers have been created.
    pub created: nat,
    /// How many controllers have been stopped.
    pub stopped: nat,
}

/// The model of a node that has just come up.
pub open spec fn model_start() -> NodeModel {
    NodeModel { current: None, has_controller: false, created: 0, stopped: 0 }
}

/// One report: the monitor's action, carried out as [`NodeInner::apply`] does.
pub open spec fn model_step(m: NodeModel, observed: ServerState) -> NodeModel {
    match monitor_action(m.current, observed) {
        MonitorAction::StartController => NodeModel {
            current: Some(observed),
            has_controller: true,
            created: if m.has_controller {
                m.created
            } else {
                m.created + 1
            },
            stopped: m.stopped,
        },
        MonitorAction::StopController => NodeModel {
            current: Some(observed),
            has_controller: false,
            created: m.created,
            stopped: if m.has_controller {
                m.stopped + 1
            } else {
                m.stopped
            },
        },
        _ => NodeModel { current: Some(observed), ..m },
    }
}

/// A run of reports, one after the other.
pub open spec fn model_run(m: NodeModel, reports: Seq<ServerState>) -> NodeModel
    decreases reports.len(),
{
    if reports.len() == 0 {
        m
    } else {
        model_step(model_run(m, reports.drop_last()), reports.last())
    }
}

/// The number of places in `reports` where the role becomes `Leader`: the
/// report is `Leader` and the one before it, if there is one, is not.
pub open spec fn times_elected(reports: Seq<ServerState>) -> nat
    decreases reports.len(),
{
    if reports.len() == 0 {
        0
    } else {
        let before = times_elected(reports.drop_last());
        if reports.last() is Leader && (reports.len() == 1 || !(reports[reports.len() - 2]
            is Leader)) {
            before + 1
        } else {
            before
        }
    }
}

/// A report of the role that was reported last changes nothing: no
/// controller is created and none is stopped.
pub proof fn lemma_repeated_report_changes_nothing(m: NodeModel, observed: ServerState)
    ensures
        monitor_action(Some(observed), observed) == MonitorAction::Keep,
        model_step(model_step(m, observed), observed) == model_step(m, observed),
{
}

/// However the role changes, a node has a controller exactly while the role
/// seen last is `Leader`; there is never more than one, because each one
/// created but the present one has been stopped; and as many were created as
/// there were elections, however often each was reported.
pub proof fn lemma_controller_follows_leadership(reports: Seq<ServerState>)
    ensures
        ({
            let m = model_run(model_start(), reports);
            &&& m.current == if reports.len() == 0 {
                None
            } else {
                Some(reports.last())
            }
            &&& m.has_controller == (m.current == Some(ServerState::Leader))
            &&& m.created == m.stopped + if m.has_controller {
                1nat
            } else {
                0nat
            }
            &&& m.created == times_elected(reports)
        }),
    decreases reports.len(),
{
    if reports.len() > 0 {
        lemma_controller_follows_leadership(reports.drop_last());
        if reports.len() > 1 {
            assert(reports.drop_last().last() == reports[reports.len() - 2]);
        }
    }
}

/// Of two attempts to start a controller, in whichever order they get hold
/// of the node, the first creates it if there was none, and the second finds
/// it and leaves it as it is.
pub proof fn lemma_at_most_one_controller(
    before: NodeInner,
    between: NodeInner,
    after: NodeInner,
    first: bool,
    second: bool,
)
    requires
        before.started(between, first),
        between.started(after, second),
    ensures
        first == before.controller() is None,
        !second,
        between.controller() is Some,
        after.controller() == between.controller(),
{
}

/// A node that serves without TLS: an id and the address it serves at.
#[derive(Clone, Debug, PartialEq, Eq)]
pub struct NodeService {
    node_id: NodeId,
    addr: String,
}

/// The cluster name that the engine assumes when it is given none.
pub const ENGINE_DEFAULT_CLUSTER_NAME: &'static str = "foo";

/// The engine's own timeout for a snapshot segment, in milliseconds.
pub const ENGINE_DEFAULT_INSTALL_SNAPSHOT_TIMEOUT: u64 = 200;

pub const NODE_SERVICE_HEARTBEAT_INTERVAL: u64 = 500;

pub const NODE_SERVICE_ELECTION_TIMEOUT_MIN: u64 = 1500;

pub const NODE_SERVICE_ELECTION_TIMEOUT_MAX: u64 = 3000;

impl NodeService {
    pub closed spec fn spec_node_id(&self) -> NodeId {
        self.node_id
    }

    pub closed spec fn spec_addr(&self) -> Seq<char> {
        self.addr@
    }

    pub fn new(node_id: NodeId, addr: String) -> (service: NodeService)
        ensures
            service.spec_node_id() == node_id,
            service.spec_addr() == addr@,
    {
        NodeService { node_id, addr }
    }

    pub fn node_id(&self) -> (node_id: NodeId)
        ensures
            node_id == self.spec_node_id(),
    {
        self.node_id
    }

    pub fn addr(&self) -> (addr: &str)
        ensures
            addr@ == self.spec_addr(),
    {
        self.addr.as_str()
    }

    /// Where the node keeps its data: the address with `.db` behind it.
    pub fn storage_dir(&self) -> (dir: String)
        ensures
            dir@ == self.spec_addr() + ".db"@,
    {
        let mut dir = self.addr.clone();
        dir.append(".db");
        dir
    }

    /// The configuration that such a node runs the engine with: a heartbeat
    /// every 500 ms, elections after 1500 to 3000 ms, and the engine's own
    /// defaults for the rest. The engine accepts these timeouts.
    pub fn raft_config(&self) -> (result: Result<RaftConfig, ConfigError>)
        ensures
            result matches Ok(config) && {
                &&& config.cluster_name@ == ENGINE_DEFAULT_CLUSTER_NAME@
                &&& config.heartbeat_interval == NODE_SERVICE_HEARTBEAT_INTERVAL
                &&& config.election_timeout_min == NODE_SERVICE_ELECTION_TIMEOUT_MIN
                &&& config.election_timeout_max == NODE_SERVICE_ELECTION_TIMEOUT_MAX
                &&& config.install_snapshot_timeout == ENGINE_DEFAULT_INSTALL_SNAPSHOT_TIMEOUT
            },
    {
        checked_raft_config(
            String::from_str(ENGINE_DEFAULT_CLUSTER_NAME),
            NODE_SERVICE_ELECTION_TIMEOUT_MIN,
            NODE_SERVICE_ELECTION_TIMEOUT_MAX,
            NODE_SERVICE_HEARTBEAT_INTERVAL,
            ENGINE_DEFAULT_INSTALL_SNAPSHOT_TIMEOUT,
        )
    }
}

} // verus!
