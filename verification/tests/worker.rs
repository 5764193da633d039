use mcp_worker::executor::Command;
use mcp_worker::executor::Run;
use mcp_worker::record::ResultRecord;
use mcp_worker::task::Task;
use mcp_worker::task::TaskType;
use mcp_worker::worker::queue_names;
use mcp_worker::worker::Action;
use mcp_worker::worker::Event;
use mcp_worker::worker::Worker;
use mcp_worker::worker::BACKOFF_SECONDS;

fn pop() -> Action {
    Action::Pop { queues: vec!["mcp::tasks::shell".to_string(), "mcp::tasks::docker".to_string()] }
}

fn popped(payload: &str) -> Event {
    Event::Popped { queue: "mcp::tasks::docker".to_string(), payload: payload.to_string() }
}

fn write(key: &str, value: &str) -> Action {
    Action::Write {
        record: ResultRecord { key: key.to_string(), value: value.to_string(), ttl_seconds: 3600 },
    }
}

fn listing() -> Action {
    Action::Run {
        command: Command {
            program: "docker".to_string(),
            arguments: vec![
                "ps".to_string(),
                "-a".to_string(),
                "--format".to_string(),
                "{{json .}}".to_string(),
            ],
        },
    }
}

fn exited(success: bool, stdout: &str, stderr: &str) -> Event {
    Event::Ran {
        run: Run::Exited {
            success,
            stdout: stdout.as_bytes().to_vec(),
            stderr: stderr.as_bytes().to_vec(),
        },
    }
}

fn listing_task(id: &str) -> Task {
    Task {
        id: id.to_string(),
        target_host: "h1".to_string(),
        task_type: TaskType::Docker,
        details: serde_json::from_str(r#"{"command":"list_containers"}"#).unwrap(),
    }
}

#[test]
fn worker_starts_by_popping_from_both_queues() {
    assert_eq!(Worker::start(), (Worker::Popping, pop()));
    assert_eq!(queue_names(), vec!["mcp::tasks::shell", "mcp::tasks::docker"]);
}

#[test]
fn listing_task_is_run_and_its_output_reported() {
    let payload =
        r#"{"id":"t1","target_host":"h1","task_type":"DOCKER","details":{"command":"list_containers"}}"#;
    let (worker, action) = Worker::start();
    assert_eq!(action, pop());

    let (worker, action) = worker.step(popped(payload)).unwrap();
    assert_eq!(worker, Worker::Listing { task: listing_task("t1") });
    assert_eq!(action, listing());

    let (worker, action) = worker.step(exited(true, "{\"Names\":\"c1\"}", "")).unwrap();
    assert_eq!(worker, Worker::Writing);
    assert_eq!(action, write("mcp::result::t1", "SUCCESS: {\"Names\":\"c1\"}"));

    let (worker, action) = worker.step(Event::Written).unwrap();
    assert_eq!(worker, Worker::Popping);
    assert_eq!(action, pop());
}

#[test]
fn unsupported_container_command_is_reported_as_an_error() {
    let payload = r#"{"id":"t2","target_host":"h1","task_type":"DOCKER","details":{"command":"bogus"}}"#;
    let (worker, _) = Worker::start();
    let (worker, action) = worker.step(popped(payload)).unwrap();
    assert_eq!(worker, Worker::Writing);
    assert_eq!(action, write("mcp::result::t2", "ERROR: Unsupported Docker command: bogus"));
    assert_eq!(worker.step(Event::Written), Some((Worker::Popping, pop())));
}

#[test]
fn container_task_without_a_command_is_reported_as_an_error() {
    let payload = r#"{"id":"t3","target_host":"h1","task_type":"DOCKER","details":{}}"#;
    let (worker, action) = Worker::Popping.step(popped(payload)).unwrap();
    assert_eq!(worker, Worker::Writing);
    assert_eq!(action, write("mcp::result::t3", "ERROR: Unsupported Docker command: "));
}

#[test]
fn shell_task_is_reported_as_a_success() {
    let payload = r#"{"id":"s1","target_host":"h9","task_type":"SHELL","details":{"command":"whoami"}}"#;
    let event = Event::Popped { queue: "mcp::tasks::shell".to_string(), payload: payload.to_string() };
    let (worker, action) = Worker::Popping.step(event).unwrap();
    assert_eq!(worker, Worker::Writing);
    assert_eq!(action, write("mcp::result::s1", "SUCCESS: Shell command executed successfully."));
}

#[test]
fn shell_task_on_the_other_queue_is_treated_alike() {
    let payload = r#"{"id":"s2","target_host":"h9","task_type":"SHELL","details":null}"#;
    let (worker, action) = Worker::Popping.step(popped(payload)).unwrap();
    assert_eq!(worker, Worker::Writing);
    assert_eq!(action, write("mcp::result::s2", "SUCCESS: Shell command executed successfully."));
}

#[test]
fn truncated_payload_is_dropped_without_a_record() {
    let stepped = Worker::Popping.step(popped(r#"{"id":"t1","target_host":"h1","task_typ"#));
    assert_eq!(stepped, Some((Worker::Popping, pop())));
}

#[test]
fn payload_without_id_is_dropped_without_a_record() {
    let payload = r#"{"target_host":"h1","task_type":"DOCKER","details":{"command":"list_containers"}}"#;
    assert_eq!(Worker::Popping.step(popped(payload)), Some((Worker::Popping, pop())));
}

#[test]
fn payload_without_task_type_is_dropped_without_a_record() {
    let payload = r#"{"id":"t1","target_host":"h1","details":{"command":"list_containers"}}"#;
    assert_eq!(Worker::Popping.step(popped(payload)), Some((Worker::Popping, pop())));
}

#[test]
fn payload_with_an_unknown_task_type_is_dropped_without_a_record() {
    let payload = r#"{"id":"t1","target_host":"h1","task_type":"docker","details":{}}"#;
    assert_eq!(Worker::Popping.step(popped(payload)), Some((Worker::Popping, pop())));
    assert_eq!(Worker::Popping.step(popped("not json")), Some((Worker::Popping, pop())));
    assert_eq!(Worker::Popping.step(popped("")), Some((Worker::Popping, pop())));
}

#[test]
fn failed_pop_pauses_five_seconds_and_pops_again() {
    assert_eq!(BACKOFF_SECONDS, 5);
    let (worker, action) = Worker::Popping.step(Event::PopFailed).unwrap();
    assert_eq!(worker, Worker::Sleeping);
    assert_eq!(action, Action::Sleep { seconds: 5 });
    let (worker, action) = worker.step(Event::Slept).unwrap();
    assert_eq!(worker, Worker::Popping);
    assert_eq!(action, pop());
}

#[test]
fn repeated_pop_failures_each_pause_once() {
    let mut worker = Worker::Popping;
    for _ in 0..20 {
        let (sleeping, action) = worker.step(Event::PopFailed).unwrap();
        assert_eq!(action, Action::Sleep { seconds: 5 });
        let (popping, action) = sleeping.step(Event::Slept).unwrap();
        assert_eq!(action, pop());
        worker = popping;
    }
    assert_eq!(worker, Worker::Popping);
}

#[test]
fn failed_write_loses_the_record_and_the_worker_goes_on() {
    assert_eq!(Worker::Writing.step(Event::WriteFailed), Some((Worker::Popping, pop())));
}

#[test]
fn failed_listing_reports_the_standard_error() {
    let worker = Worker::Listing { task: listing_task("t4") };
    let (worker, action) = worker.step(exited(false, "ignored", "permission denied")).unwrap();
    assert_eq!(worker, Worker::Writing);
    assert_eq!(action, write("mcp::result::t4", "ERROR: permission denied"));
}

#[test]
fn listing_that_did_not_start_reports_the_reason() {
    let worker = Worker::Listing { task: listing_task("t5") };
    let event = Event::Ran { run: Run::NotLaunched { reason: "docker: not found".to_string() } };
    let (worker, action) = worker.step(event).unwrap();
    assert_eq!(worker, Worker::Writing);
    assert_eq!(
        action,
        write("mcp::result::t5", "ERROR: Failed to execute docker command: docker: not found")
    );
}

#[test]
fn events_that_were_not_awaited_give_nothing() {
    assert_eq!(Worker::Popping.step(Event::Slept), None);
    assert_eq!(Worker::Popping.step(Event::Written), None);
    assert_eq!(Worker::Popping.step(Event::WriteFailed), None);
    assert_eq!(Worker::Popping.step(exited(true, "", "")), None);
    assert_eq!(Worker::Sleeping.step(Event::PopFailed), None);
    assert_eq!(Worker::Sleeping.step(popped("{}")), None);
    assert_eq!(Worker::Sleeping.step(Event::Written), None);
    assert_eq!(Worker::Writing.step(Event::Slept), None);
    assert_eq!(Worker::Writing.step(Event::PopFailed), None);
    assert_eq!(Worker::Writing.step(exited(false, "", "")), None);
    assert_eq!(Worker::Listing { task: listing_task("t") }.step(Event::Written), None);
    assert_eq!(Worker::Listing { task: listing_task("t") }.step(Event::PopFailed), None);
    assert_eq!(Worker::Listing { task: listing_task("t") }.step(popped("{}")), None);
}

#[test]
fn receive_is_the_step_after_a_pop() {
    let payload = r#"{"id":"t2","target_host":"h1","task_type":"DOCKER","details":{"command":"bogus"}}"#;
    assert_eq!(Some(Worker::receive(payload)), Worker::Popping.step(popped(payload)));
    assert_eq!(Worker::receive("["), (Worker::Popping, pop()));
}

#[test]
fn worker_serves_one_task_after_another() {
    let (mut worker, mut action) = Worker::start();
    let mut written: Vec<(String, String)> = Vec::new();
    let mut payloads = vec![
        r#"{"id":"a","target_host":"h","task_type":"SHELL","details":{}}"#,
        r#"{"id":"b""#,
        r#"{"id":"c","target_host":"h","task_type":"DOCKER","details":{"command":"list_containers"}}"#,
        r#"{"id":"d","target_host":"h","task_type":"DOCKER","details":{"command":"stop"}}"#,
    ]
    .into_iter();
    let mut done = false;
    while !done {
        let event = match &action {
            Action::Pop { .. } => match payloads.next() {
                Some(payload) => popped(payload),
                None => {
                    done = true;
                    Event::PopFailed
                }
            },
            Action::Run { .. } => exited(true, "{\"Names\":\"web\"}\n", ""),
            Action::Write { record } => {
                written.push((record.key.clone(), record.value.clone()));
                Event::Written
            }
            Action::Sleep { .. } => Event::Slept,
        };
        let (next_worker, next_action) = worker.step(event).unwrap();
        worker = next_worker;
        action = next_action;
    }
    assert_eq!(worker, Worker::Sleeping);
    assert_eq!(
        written,
        vec![
            (
                "mcp::result::a".to_string(),
                "SUCCESS: Shell command executed successfully.".to_string()
            ),
            ("mcp::result::c".to_string(), "SUCCESS: {\"Names\":\"web\"}\n".to_string()),
            ("mcp::result::d".to_string(), "ERROR: Unsupported Docker command: stop".to_string()),
        ]
    );
}
