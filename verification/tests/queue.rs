use grip::ffi::{grip_request, prepare_callback, ForeignText};
use grip::handle_table::HandleTable;
use grip::networking_queue::{
    complete_request, plan_command, should_continue_draining, Command, DrainBudget,
    PendingCallback, Queue, Request, RequestType, Response, SubmitError, WorkerStep,
};

fn running_queue() -> Queue {
    match Queue::new(4) {
        Ok(q) => q,
        Err(_) => panic!("a positive concurrency hint must start the queue"),
    }
}

fn get_request(id: isize, uri: &str) -> Request {
    Request { id, http_type: RequestType::Get, uri: uri.to_string() }
}

#[test]
fn zero_concurrency_fails_fast() {
    assert!(Queue::new(0).is_err());
    assert!(Queue::new(1).is_ok());
}

#[test]
fn submit_after_shutdown_is_refused() {
    let mut queue = running_queue();
    let cmd = queue.stop();
    assert!(matches!(cmd, Command::Shutdown));
    let r = queue.send_request(
        get_request(1, "https://docs.rs/"),
        PendingCallback { handler: 0x1000, user_data: vec![] },
    );
    assert!(matches!(r, Err(SubmitError::ShutdownRace)));
}

#[test]
fn shutdown_refusal_reaches_the_boundary() {
    let mut queue = running_queue();
    queue.stop();
    let out = grip_request(
        &mut queue,
        1,
        ForeignText::Text("https://docs.rs/".to_string()),
        0,
        0x1000,
        Some(vec![]),
    );
    assert_eq!(out.result, grip::ffi::INVALID_CELL);
    assert_eq!(out.error, Some(grip::ffi::GripError::ShutdownRace));
    assert!(out.command.is_none());
}

#[test]
fn worker_performs_submissions_and_terminates_on_shutdown() {
    let request = get_request(5, "https://docs.rs/");
    let callback = PendingCallback { handler: 0x1000, user_data: vec![4, 2] };
    match plan_command(Command::Submit(request, callback)) {
        WorkerStep::Perform(req, cb) => {
            assert_eq!(req.id, 5);
            assert_eq!(cb.user_data, vec![4, 2]);
        },
        WorkerStep::Terminate => panic!("a submission must be performed"),
    }
    assert!(matches!(plan_command(Command::Shutdown), WorkerStep::Terminate));
}

#[test]
fn transport_failure_produces_no_completion() {
    let request = get_request(6, "https://docs.rs/");
    let callback = PendingCallback { handler: 0x1000, user_data: vec![] };
    assert!(complete_request(request, callback, None).is_none());
}

#[test]
fn drain_budget_performs_exactly_limit_plus_one_attempts() {
    // With nothing pending, a drain with limit 5 still makes 5 + 1 attempts.
    let mut budget = DrainBudget::new(5);
    let mut attempts = 0usize;
    while budget.should_attempt() {
        attempts += 1;
        budget.record_attempt();
    }
    assert_eq!(attempts, 6);
    assert_eq!(budget.attempts(), 6);

    let mut zero = DrainBudget::new(0);
    let mut n = 0usize;
    while zero.should_attempt() {
        n += 1;
        zero.record_attempt();
    }
    assert_eq!(n, 1);
}

#[test]
fn timeout_drain_decides_between_attempts() {
    assert!(should_continue_draining(0, 5));
    assert!(should_continue_draining(5, 5));
    assert!(!should_continue_draining(6, 5));
}

#[test]
fn get_request_completes_once_with_fixture_body() {
    // A submission flows through the whole pipeline against a fixture
    // transport: the callback fires exactly once with the fixture payload
    // and the submitted correlation id.
    let fixture_body = b"fixture payload for id one".to_vec();
    let mut queue = running_queue();
    let mut table: HandleTable<Response> = HandleTable::new();

    let out = grip_request(
        &mut queue,
        1,
        ForeignText::Text("https://docs.rs/".to_string()),
        0,
        0x1000,
        Some(vec![7, 7]),
    );
    assert_eq!(out.result, 1);
    let cmd = out.command.expect("accepted submission yields a command");

    let (request, callback) = match plan_command(cmd) {
        WorkerStep::Perform(req, cb) => (req, cb),
        WorkerStep::Terminate => panic!("a submission must be performed"),
    };
    let completion = complete_request(request, callback, Some(fixture_body.clone()))
        .expect("a transport body yields a completion");

    let mut invocations = 0usize;
    let inv = prepare_callback(&mut table, completion);
    // The callback runs synchronously on the host thread with these values.
    invocations += 1;
    assert_eq!(inv.forward_handle, 1);
    assert_eq!(inv.handler, 0x1000);
    assert_eq!(inv.user_data, vec![7, 7]);
    let held = table.lookup(inv.response_handle).expect("the handle is live during the callback");
    assert_eq!(held.body, fixture_body);
    assert_eq!(held.base_request.id, 1);
    // The instant the invocation returns, the handle is revoked.
    let removed = table.remove_with_id(inv.response_handle);
    assert!(removed.is_some());
    assert!(table.lookup(inv.response_handle).is_none());
    assert_eq!(invocations, 1);
}

#[test]
fn completions_are_delivered_in_completion_order() {
    // id 1 is slow, id 2 is fast: the fast one finishes first, so its
    // callback is observed first — completion order, not submission order.
    let mut queue = running_queue();
    let mut table: HandleTable<Response> = HandleTable::new();

    let cmd1 = queue
        .send_request(
            get_request(1, "https://docs.rs/slow"),
            PendingCallback { handler: 0x1000, user_data: vec![] },
        )
        .expect("running queue accepts");
    let cmd2 = queue
        .send_request(
            get_request(2, "https://docs.rs/fast"),
            PendingCallback { handler: 0x1000, user_data: vec![] },
        )
        .expect("running queue accepts");

    let perform = |cmd: Command| match plan_command(cmd) {
        WorkerStep::Perform(req, cb) => (req, cb),
        WorkerStep::Terminate => panic!("a submission must be performed"),
    };
    let (req1, cb1) = perform(cmd1);
    let (req2, cb2) = perform(cmd2);

    // The fast request's completion reaches the channel first.
    let completed_first = complete_request(req2, cb2, Some(b"fast".to_vec())).unwrap();
    let completed_second = complete_request(req1, cb1, Some(b"slow".to_vec())).unwrap();

    let mut observed: Vec<isize> = Vec::new();
    for completion in [completed_first, completed_second] {
        let inv = prepare_callback(&mut table, completion);
        observed.push(inv.forward_handle);
        table.remove_with_id(inv.response_handle);
    }
    assert_eq!(observed, vec![2, 1]);
}
