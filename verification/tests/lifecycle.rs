use disco::node::LeaderMonitor;
use disco::node::MonitorAction;
use disco::node::NodeInner;
use disco::node::NodeService;
use disco::node::ServerState;
use disco::settings::checked_raft_config;
use disco::settings::ConfigError;
use disco::settings::RaftConfig;
use disco::settings::Settings;
use disco::task_pool::Dispatch;

/// Runs the monitor over the reports and carries its actions out. Returns
/// how many controllers were created and how many stopped.
fn run(node: &mut NodeInner, monitor: &mut LeaderMonitor, reports: &[ServerState]) -> (u32, u32) {
    let mut created = 0;
    let mut stopped = 0;
    for report in reports {
        let had = node.has_controller();
        let action = monitor.observe(*report);
        let pool = node.apply(action);
        if !had && node.has_controller() {
            created += 1;
        }
        if pool.is_some() {
            stopped += 1;
        }
        assert_eq!(node.has_controller(), monitor.current_state() == Some(ServerState::Leader));
    }
    (created, stopped)
}

#[test]
fn leader_seen_twice_creates_one_controller() {
    let mut node = NodeInner::new(10);
    let mut monitor = LeaderMonitor::new();
    assert_eq!(monitor.current_state(), None);
    assert_eq!(monitor.observe(ServerState::Leader), MonitorAction::StartController);
    assert!(node.apply(MonitorAction::StartController).is_none());
    assert!(node.has_controller());
    assert_eq!(monitor.observe(ServerState::Leader), MonitorAction::Keep);
    assert!(node.apply(MonitorAction::Keep).is_none());
    assert!(node.has_controller());
    let mut again = NodeInner::new(10);
    let mut monitor = LeaderMonitor::new();
    let reports = [ServerState::Leader, ServerState::Leader, ServerState::Leader];
    assert_eq!(run(&mut again, &mut monitor, &reports), (1, 0));
}

#[test]
fn second_start_is_a_no_op() {
    let mut node = NodeInner::new(4);
    assert!(node.start_controller());
    node.controller_mut().unwrap().run_command("echo kept".to_string()).unwrap();
    // the losing attempt neither fails nor replaces the controller
    assert!(!node.start_controller());
    assert!(node.has_controller());
    match node.controller_mut().unwrap().dispatch() {
        Dispatch::Start(actor) => assert_eq!(actor.command(), "echo kept"),
        other => panic!("unexpected {:?}", other),
    }
}

#[test]
fn new_controller_has_the_nodes_limit() {
    let mut node = NodeInner::new(7);
    node.start_controller();
    let pool = node.stop_controller().unwrap();
    assert_eq!(pool.max_concurrent_tasks(), 7);
    assert!(pool.is_closed());
    assert!(pool.is_drained());
}

#[test]
fn losing_leadership_stops_the_controller() {
    for other in [
        ServerState::Follower,
        ServerState::Candidate,
        ServerState::Learner,
        ServerState::Shutdown,
    ] {
        let mut node = NodeInner::new(2);
        let mut monitor = LeaderMonitor::new();
        assert_eq!(run(&mut node, &mut monitor, &[ServerState::Leader, other]), (1, 1));
        assert!(!node.has_controller());
    }
}

#[test]
fn stop_without_controller_does_nothing() {
    let mut node = NodeInner::new(2);
    assert!(node.stop_controller().is_none());
    assert!(node.apply(MonitorAction::StopController).is_none());
    assert!(!node.has_controller());
    assert!(node.controller_mut().is_none());
}

#[test]
fn changes_between_other_roles_call_for_nothing() {
    let mut monitor = LeaderMonitor::new();
    assert_eq!(monitor.observe(ServerState::Learner), MonitorAction::Keep);
    assert_eq!(monitor.observe(ServerState::Follower), MonitorAction::Keep);
    assert_eq!(monitor.observe(ServerState::Candidate), MonitorAction::Keep);
    assert_eq!(monitor.observe(ServerState::Follower), MonitorAction::Keep);
    assert_eq!(monitor.current_state(), Some(ServerState::Follower));
}

#[test]
fn each_election_creates_one_controller() {
    let mut node = NodeInner::new(2);
    let mut monitor = LeaderMonitor::new();
    let reports = [
        ServerState::Follower,
        ServerState::Candidate,
        ServerState::Leader,
        ServerState::Leader,
        ServerState::Follower,
        ServerState::Follower,
        ServerState::Candidate,
        ServerState::Leader,
        ServerState::Leader,
        ServerState::Leader,
        ServerState::Learner,
        ServerState::Leader,
    ];
    assert_eq!(run(&mut node, &mut monitor, &reports), (3, 2));
    assert!(node.has_controller());
}

#[test]
fn end_of_reports_quits_and_leaves_the_controller() {
    let mut node = NodeInner::new(2);
    let mut monitor = LeaderMonitor::new();
    assert_eq!(monitor.next(Some(ServerState::Leader)), MonitorAction::StartController);
    node.apply(MonitorAction::StartController);
    assert_eq!(monitor.next(None), MonitorAction::Quit);
    assert_eq!(monitor.current_state(), Some(ServerState::Leader));
    assert!(node.apply(MonitorAction::Quit).is_none());
    assert!(node.has_controller());
}

#[test]
fn default_settings() {
    let settings = Settings::new();
    assert_eq!(
        settings,
        Settings {
            cluster_name: "cluster".to_string(),
            election_timeout_min: 150,
            election_timeout_max: 300,
            heartbeat_interval: 50,
            install_snapshot_timeout: 120,
        }
    );
    assert_eq!(
        settings.raft_config(),
        Ok(RaftConfig {
            cluster_name: "cluster".to_string(),
            election_timeout_min: 150,
            election_timeout_max: 300,
            heartbeat_interval: 50,
            install_snapshot_timeout: 120,
        })
    );
}

#[test]
fn election_timeouts_out_of_order_are_refused() {
    let mut settings = Settings::new();
    settings.election_timeout_min = 300;
    assert_eq!(settings.raft_config(), Err(ConfigError::ElectionTimeout { min: 300, max: 300 }));
    settings.election_timeout_min = 400;
    assert_eq!(settings.raft_config(), Err(ConfigError::ElectionTimeout { min: 400, max: 300 }));
}

#[test]
fn election_timeout_not_above_heartbeat_is_refused() {
    let mut settings = Settings::new();
    settings.heartbeat_interval = 150;
    assert_eq!(
        settings.raft_config(),
        Err(ConfigError::ElectionTimeoutLTHeartBeat {
            election_timeout_min: 150,
            heartbeat_interval: 150,
        })
    );
    settings.heartbeat_interval = 149;
    assert!(settings.raft_config().is_ok());
}

#[test]
fn election_timeouts_are_looked_at_first() {
    assert_eq!(
        checked_raft_config("c".to_string(), 10, 5, 20, 1),
        Err(ConfigError::ElectionTimeout { min: 10, max: 5 })
    );
    assert_eq!(
        checked_raft_config("c".to_string(), 0, 1, 0, 1),
        Err(ConfigError::ElectionTimeoutLTHeartBeat { election_timeout_min: 0, heartbeat_interval: 0 })
    );
    assert_eq!(
        checked_raft_config("c".to_string(), 1, u64::MAX, 0, 9),
        Ok(RaftConfig {
            cluster_name: "c".to_string(),
            election_timeout_min: 1,
            election_timeout_max: u64::MAX,
            heartbeat_interval: 0,
            install_snapshot_timeout: 9,
        })
    );
}

#[test]
fn node_service() {
    let service = NodeService::new(3, "127.0.0.1:50051".to_string());
    assert_eq!(service.node_id(), 3);
    assert_eq!(service.addr(), "127.0.0.1:50051");
    assert_eq!(service.storage_dir(), "127.0.0.1:50051.db");
    assert_eq!(
        service.raft_config(),
        Ok(RaftConfig {
            cluster_name: "foo".to_string(),
            election_timeout_min: 1500,
            election_timeout_max: 3000,
            heartbeat_interval: 500,
            install_snapshot_timeout: 200,
        })
    );
}
