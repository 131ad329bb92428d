use disco::action::ActorResponse;
use disco::action::BashCommand;
use disco::action::CommandResult;
use disco::controller::Command;
use disco::controller::Controller;
use disco::controller::ControllerInner;
use disco::task_pool::Completion;
use disco::task_pool::Dispatch;
use disco::task_pool::SendError;
use disco::task_pool::TaskPool;
use disco::task_pool::QUEUE_CAPACITY;

fn answered() -> Completion {
    Completion::Response(ActorResponse::Empty)
}

#[test]
fn queue_capacity_is_one_hundred() {
    assert_eq!(QUEUE_CAPACITY, 100);
    let mut pool: TaskPool<u32> = TaskPool::new(2);
    for i in 0..100 {
        assert_eq!(pool.send_actor(i), Ok(()));
    }
    assert_eq!(pool.send_actor(100), Err(SendError::Full(100)));
    assert_eq!(pool.queue_len(), 100);
    assert_eq!(pool.max_concurrent_tasks(), 2);
}

#[test]
fn never_more_than_the_limit_run() {
    let limit = 3;
    let mut pool: TaskPool<u32> = TaskPool::with_capacity(limit, 50);
    for i in 0..10 {
        pool.send_actor(i).unwrap();
    }
    let mut started = Vec::new();
    // long-running actors: none completes
    for _ in 0..40 {
        if let Dispatch::Start(actor) = pool.dispatch() {
            started.push(actor);
        }
        assert!(pool.running_count() <= limit);
    }
    assert_eq!(started, vec![0, 1, 2]);
    assert_eq!(pool.running_count(), 3);
    assert_eq!(pool.dispatch(), Dispatch::AwaitPermit);
    assert!(pool.is_holding());
    assert_eq!(pool.queue_len(), 6);
}

#[test]
fn limit_holds_while_actors_come_and_go() {
    let limit = 2;
    let mut pool: TaskPool<u32> = TaskPool::with_capacity(limit, 8);
    let mut next = 0;
    let mut started = Vec::new();
    for round in 0..60 {
        if round % 2 == 0 && pool.send_actor(next).is_ok() {
            next += 1;
        }
        if let Dispatch::Start(actor) = pool.dispatch() {
            started.push(actor);
        }
        assert!(pool.running_count() <= limit);
        if round % 3 == 0 {
            pool.complete(&answered());
        }
        assert!(pool.running_count() <= limit);
    }
    let in_order: Vec<u32> = (0..started.len() as u32).collect();
    assert_eq!(started, in_order);
}

#[test]
fn actors_start_in_the_order_of_submission() {
    let mut pool: TaskPool<&'static str> = TaskPool::with_capacity(1, 4);
    for name in ["a", "b", "c"] {
        pool.send_actor(name).unwrap();
    }
    let mut started = Vec::new();
    loop {
        match pool.dispatch() {
            Dispatch::Start(actor) => started.push(actor),
            Dispatch::AwaitPermit => {
                pool.complete(&answered());
            }
            Dispatch::AwaitActor => break,
            Dispatch::Finished => panic!("the pool is open"),
        }
    }
    assert_eq!(started, vec!["a", "b", "c"]);
}

#[test]
fn full_queue_makes_the_submitter_wait_and_drops_nothing() {
    let capacity = 5;
    let mut pool: TaskPool<u32> = TaskPool::with_capacity(1, capacity);
    for i in 0..capacity as u32 {
        assert_eq!(pool.send_actor(i), Ok(()));
    }
    // the next submission finds no room: the actor comes back
    assert_eq!(pool.send_actor(5), Err(SendError::Full(5)));
    assert_eq!(pool.queue_len(), capacity);
    // a prior actor starts and completes: room again
    assert_eq!(pool.dispatch(), Dispatch::Start(0));
    pool.complete(&answered());
    assert_eq!(pool.send_actor(5), Ok(()));
    // everything submitted is started, in order
    let mut started = vec![0];
    loop {
        match pool.dispatch() {
            Dispatch::Start(actor) => {
                started.push(actor);
                pool.complete(&answered());
            }
            Dispatch::AwaitActor => break,
            other => panic!("unexpected {:?}", other),
        }
    }
    assert_eq!(started, vec![0, 1, 2, 3, 4, 5]);
}

#[test]
fn held_actor_waits_for_a_permit() {
    let mut pool: TaskPool<u32> = TaskPool::with_capacity(1, 2);
    pool.send_actor(1).unwrap();
    pool.send_actor(2).unwrap();
    assert_eq!(pool.dispatch(), Dispatch::Start(1));
    assert_eq!(pool.dispatch(), Dispatch::AwaitPermit);
    assert!(pool.is_holding());
    assert_eq!(pool.queue_len(), 0);
    assert_eq!(pool.dispatch(), Dispatch::AwaitPermit);
    pool.complete(&answered());
    assert_eq!(pool.dispatch(), Dispatch::Start(2));
    assert!(!pool.is_holding());
}

#[test]
fn permit_is_free_again_however_the_actor_ended() {
    for completion in [
        Completion::Response(ActorResponse::Boolean(false)),
        Completion::NoResponse,
        Completion::Panicked,
    ] {
        let mut pool: TaskPool<u32> = TaskPool::with_capacity(1, 2);
        pool.send_actor(1).unwrap();
        pool.send_actor(2).unwrap();
        assert_eq!(pool.dispatch(), Dispatch::Start(1));
        assert_eq!(pool.running_count(), 1);
        pool.complete(&completion);
        assert_eq!(pool.running_count(), 0);
        assert_eq!(pool.dispatch(), Dispatch::Start(2));
    }
}

#[test]
fn completion_without_a_running_actor_changes_nothing() {
    let mut pool: TaskPool<u32> = TaskPool::new(4);
    assert_eq!(pool.complete(&Completion::Panicked), None);
    assert_eq!(pool.running_count(), 0);
}

#[test]
fn zero_permits_start_nothing() {
    let mut pool: TaskPool<u32> = TaskPool::with_capacity(0, 2);
    pool.send_actor(1).unwrap();
    assert_eq!(pool.dispatch(), Dispatch::AwaitPermit);
    assert_eq!(pool.running_count(), 0);
}

#[test]
fn closed_pool_takes_no_work_and_finishes_what_it_has() {
    let mut pool: TaskPool<u32> = TaskPool::with_capacity(1, 4);
    pool.send_actor(1).unwrap();
    pool.send_actor(2).unwrap();
    assert_eq!(pool.dispatch(), Dispatch::Start(1));
    let mut pool = pool.stop();
    assert!(pool.is_closed());
    assert_eq!(pool.send_actor(3), Err(SendError::Closed(3)));
    assert!(!pool.is_drained());
    assert_eq!(pool.dispatch(), Dispatch::AwaitPermit);
    pool.complete(&answered());
    assert_eq!(pool.dispatch(), Dispatch::Start(2));
    assert_eq!(pool.dispatch(), Dispatch::Finished);
    assert!(!pool.is_drained());
    pool.complete(&answered());
    assert!(pool.is_drained());
}

#[test]
fn open_pool_waits_for_actors() {
    let mut pool: TaskPool<u32> = TaskPool::new(1);
    assert_eq!(pool.dispatch(), Dispatch::AwaitActor);
    pool.close();
    assert_eq!(pool.dispatch(), Dispatch::Finished);
}

#[test]
fn completion_gives_the_line_to_note() {
    let mut pool: TaskPool<u32> = TaskPool::new(1);
    let result = CommandResult { stdout: "hi\n".to_string(), stderr: "".to_string(), status: 0 };
    assert_eq!(
        pool.complete(&Completion::Response(ActorResponse::CommandResult(result))),
        Some("Command executed with status: 0, stdout: hi\n, stderr: ".to_string())
    );
    assert_eq!(
        pool.complete(&Completion::Response(ActorResponse::Boolean(true))),
        Some("Boolean result: true".to_string())
    );
    assert_eq!(pool.complete(&Completion::Response(ActorResponse::Empty)), None);
    assert_eq!(pool.complete(&Completion::Response(ActorResponse::Custom(vec![1]))), None);
    assert_eq!(pool.complete(&Completion::NoResponse), None);
}

#[test]
fn log_lines() {
    let failed = CommandResult { stdout: "".to_string(), stderr: "boom".to_string(), status: -1 };
    assert_eq!(
        ActorResponse::CommandResult(failed).log_line(),
        Some("Command executed with status: -1, stdout: , stderr: boom".to_string())
    );
    let big = CommandResult { stdout: "o".to_string(), stderr: "e".to_string(), status: i32::MIN };
    assert_eq!(
        ActorResponse::CommandResult(big).log_line(),
        Some("Command executed with status: -2147483648, stdout: o, stderr: e".to_string())
    );
    assert_eq!(
        ActorResponse::Boolean(false).log_line(),
        Some("Boolean result: false".to_string())
    );
    assert_eq!(ActorResponse::Empty.log_line(), None);
}

#[test]
fn echo_hi_gives_its_output_and_status() {
    let actor = BashCommand::new("echo hi".to_string());
    assert_eq!(actor.command(), "echo hi");
    // what `bash -c "echo hi"` leaves: "hi\n" on standard output, exit code 0
    let response = actor.response(b"hi\n", b"", Some(0));
    assert_eq!(
        response,
        ActorResponse::CommandResult(CommandResult {
            stdout: "hi\n".to_string(),
            stderr: "".to_string(),
            status: 0,
        })
    );
}

#[test]
fn command_without_exit_code_has_status_minus_one() {
    let result = CommandResult::from_output(b"", b"killed", None);
    assert_eq!(result.status, -1);
    assert_eq!(result.stderr, "killed");
    assert_eq!(CommandResult::from_output(b"", b"", Some(127)).status, 127);
}

#[test]
fn output_that_is_no_utf8_gets_replacement_characters() {
    let result = CommandResult::from_output(&[b'a', 0xff, b'b'], &[0xc3, 0x28], Some(0));
    assert_eq!(result.stdout, "a\u{fffd}b");
    assert_eq!(result.stderr, "\u{fffd}(");
    let valid = CommandResult::from_output("gr\u{fc}n".as_bytes(), b"", Some(0));
    assert_eq!(valid.stdout, "gr\u{fc}n");
}

#[test]
fn controller_submits_commands_to_its_pool() {
    let mut controller = Controller::new(2);
    assert_eq!(controller.run_command("echo one".to_string()), Ok(()));
    assert_eq!(controller.run_command("echo two".to_string()), Ok(()));
    assert_eq!(controller.send_actor(BashCommand::new("echo three".to_string())), Ok(()));
    let mut commands = Vec::new();
    loop {
        match controller.dispatch() {
            Dispatch::Start(actor) => commands.push(actor.command().to_string()),
            Dispatch::AwaitPermit => {
                controller.complete(&answered());
            }
            Dispatch::AwaitActor => break,
            Dispatch::Finished => panic!("the controller is running"),
        }
    }
    assert_eq!(commands, vec!["echo one", "echo two", "echo three"]);
}

#[test]
fn controller_with_a_full_queue_hands_the_command_back() {
    let mut controller = Controller::new(1);
    for i in 0..100 {
        assert_eq!(controller.run_command(format!("echo {}", i)), Ok(()));
    }
    match controller.run_command("echo 100".to_string()) {
        Err(SendError::Full(actor)) => assert_eq!(actor.command(), "echo 100"),
        other => panic!("unexpected {:?}", other),
    }
}

#[test]
fn stopped_controller_gives_up_a_closed_pool() {
    let mut controller = Controller::new(1);
    controller.run_command("sleep 5".to_string()).unwrap();
    let mut pool = controller.stop();
    assert!(pool.is_closed());
    assert_eq!(pool.queue_len(), 1);
    match pool.send_actor(BashCommand::new("late".to_string())) {
        Err(SendError::Closed(actor)) => assert_eq!(actor.command(), "late"),
        other => panic!("unexpected {:?}", other),
    }
    assert!(matches!(pool.dispatch(), Dispatch::Start(_)));
    assert_eq!(pool.dispatch(), Dispatch::Finished);
}

#[test]
fn controller_inner_follows_its_commands() {
    let mut inner = ControllerInner::new();
    assert!(!inner.running);
    inner.handle(Command::StartController);
    assert!(inner.running);
    inner.handle(Command::StartController);
    assert!(inner.running);
    inner.handle(Command::StopController);
    assert!(!inner.running);
    inner.start_controller();
    assert!(inner.running);
    inner.stop_controller();
    assert!(!inner.running);
}
