use web_worker::bootstrap::glob;
use web_worker::codec::{Encoding, Payload};
use web_worker::error::WorkerError;
use web_worker::integer::{answer_i64, decode_i64, encode_i64};
use web_worker::protocol::{Policy, WorkerState};
use web_worker::worker::{Handshake, Startup, WrappedWorker};

fn tasks() -> Vec<String> {
    vec![
        String::from("square"),
        String::from("f"),
        String::from("slow"),
        String::from("other"),
        String::from("t"),
        String::from("greet"),
    ]
}

fn ready(policy: Policy) -> WrappedWorker {
    let handshake = Handshake::begin("/m.js", "https://example.org", policy, tasks());
    WrappedWorker::new(handshake, &Startup::FirstMessage(String::from("\"ready\""))).unwrap()
}

#[test]
fn handshake_writes_the_script_of_the_module() {
    let handshake = Handshake::begin("/m.js", "https://example.org", Policy::Reusable, tasks());
    assert_eq!(handshake.script(), glob("https://example.org", "/m.js"));
    assert_eq!(handshake.policy(), Policy::Reusable);
    assert_eq!(handshake.state(), WorkerState::Created);
}

#[test]
fn first_message_makes_the_handle_ready() {
    let handle = ready(Policy::SingleShot);
    assert_eq!(handle.state(), WorkerState::Ready);
    assert_eq!(handle.policy(), Policy::SingleShot);
    assert_eq!(handle.awaiting(), None);
}

#[test]
fn first_message_is_the_signal_whatever_it_holds() {
    for content in ["\"ready\"", "", "[98]", "{\"task_name\":\"x\"}", "not even a document"] {
        let handshake = Handshake::begin("/m.js", "", Policy::Reusable, tasks());
        let handle = WrappedWorker::new(handshake, &Startup::FirstMessage(String::from(content))).unwrap();
        assert_eq!(handle.state(), WorkerState::Ready);
    }
}

#[test]
fn failed_spawn_is_a_creation_failure() {
    let handshake = Handshake::begin("/m.js", "https://example.org", Policy::Reusable, tasks());
    let handle = WrappedWorker::new(handshake, &Startup::Failed);
    assert_eq!(handle.err(), Some(WorkerError::CreationFailure));
}

#[test]
fn square_of_seven_then_busy_then_terminated() {
    let mut handle = ready(Policy::Reusable);

    let request = handle.run_task("square", &encode_i64(7)).unwrap();
    assert_eq!(request, "{\"message\":[14],\"task_name\":\"square\"}");
    assert_eq!(handle.state(), WorkerState::Busy);

    let second = handle.run_task("square", &encode_i64(8));
    assert_eq!(second, Err(WorkerError::Busy));
    assert_eq!(handle.state(), WorkerState::Busy);

    let answer = answer_i64(|x: i64| x * x, &encode_i64(7)).unwrap();
    let raw = match &answer {
        Payload::Binary(bytes) => serde_json::to_string(bytes).unwrap(),
        Payload::Text(text) => text.clone(),
    };
    let response = handle.on_message(&raw).unwrap().unwrap();
    assert_eq!(decode_i64(&response), Ok(49));
    assert_eq!(handle.state(), WorkerState::Ready);

    handle.kill();
    assert_eq!(handle.state(), WorkerState::Terminated);
    assert_eq!(handle.run_task("square", &encode_i64(7)), Err(WorkerError::TerminatedUse));
    assert_eq!(handle.state(), WorkerState::Terminated);
}

#[test]
fn reusable_handle_takes_one_task_after_another() {
    let mut handle = ready(Policy::Reusable);
    for n in 0..5i64 {
        assert!(handle.run_task("square", &encode_i64(n)).is_ok());
        assert_eq!(handle.awaiting(), Some(Encoding::Binary));
        let raw = format!("[{}]", 2 * n * n);
        let response = handle.on_message(&raw).unwrap().unwrap();
        assert_eq!(decode_i64(&response), Ok(n * n));
        assert_eq!(handle.state(), WorkerState::Ready);
        assert_eq!(handle.awaiting(), None);
    }
}

#[test]
fn single_shot_handle_serves_one_task() {
    let mut handle = ready(Policy::SingleShot);
    assert!(handle.run_task("f", &encode_i64(5)).is_ok());
    assert_eq!(handle.state(), WorkerState::Busy);
    let response = handle.on_message("[240]").unwrap().unwrap();
    assert_eq!(decode_i64(&response), Ok(120));
    assert_eq!(handle.state(), WorkerState::Terminated);
    assert_eq!(handle.run_task("f", &encode_i64(6)), Err(WorkerError::TerminatedUse));
}

#[test]
fn busy_handle_rejects_every_further_task() {
    let mut handle = ready(Policy::Reusable);
    assert!(handle.run_task("slow", &encode_i64(1)).is_ok());
    for n in 0..10i64 {
        assert_eq!(handle.run_task("slow", &encode_i64(n)), Err(WorkerError::Busy));
        assert_eq!(
            handle.run_task("other", &Payload::Text(String::from("null"))),
            Err(WorkerError::Busy)
        );
    }
    assert_eq!(handle.awaiting(), Some(Encoding::Binary));
}

#[test]
fn of_many_submissions_one_is_in_flight() {
    let mut handle = ready(Policy::Reusable);
    let mut launched = 0;
    let mut settled = 0;
    for round in 0..20 {
        for _ in 0..3 {
            if handle.run_task("t", &encode_i64(round)).is_ok() {
                launched += 1;
            }
            assert!(launched - settled <= 1);
        }
        if round % 2 == 0 {
            if handle.on_message("[0]").is_some() {
                settled += 1;
            }
        }
        assert_eq!(launched - settled == 1, handle.state() == WorkerState::Busy);
    }
    assert_eq!(launched, 11);
    assert_eq!(settled, 10);
}

#[test]
fn killed_handle_stays_terminated() {
    let mut handle = ready(Policy::Reusable);
    handle.kill();
    assert_eq!(handle.run_task("square", &encode_i64(7)), Err(WorkerError::TerminatedUse));
    assert_eq!(handle.on_message("[98]"), None);
    assert_eq!(handle.on_post_failure(), None);
    handle.kill();
    assert_eq!(handle.run_task("square", &Payload::Text(String::from("7"))), Err(WorkerError::TerminatedUse));
    assert_eq!(handle.run_task("square", &Payload::Text(String::from("{"))), Err(WorkerError::TerminatedUse));
    assert_eq!(handle.state(), WorkerState::Terminated);
}

#[test]
fn kill_in_flight_leaves_the_response_undelivered() {
    let mut handle = ready(Policy::Reusable);
    assert!(handle.run_task("square", &encode_i64(7)).is_ok());
    handle.kill();
    assert_eq!(handle.state(), WorkerState::Terminated);
    assert_eq!(handle.awaiting(), None);
    assert_eq!(handle.on_message("[98]"), None);
    assert_eq!(handle.run_task("square", &encode_i64(7)), Err(WorkerError::TerminatedUse));
}

#[test]
fn message_without_a_task_is_dropped() {
    let mut handle = ready(Policy::Reusable);
    assert_eq!(handle.on_message("\"ready\""), None);
    assert_eq!(handle.on_message("[98]"), None);
    assert_eq!(handle.state(), WorkerState::Ready);
    assert!(handle.run_task("square", &encode_i64(7)).is_ok());
}

#[test]
fn malformed_response_is_a_decode_failure_and_releases_the_guard() {
    let mut handle = ready(Policy::Reusable);
    assert!(handle.run_task("square", &encode_i64(7)).is_ok());
    assert_eq!(handle.on_message("{\"oops\":1}"), Some(Err(WorkerError::DecodeFailure)));
    assert_eq!(handle.state(), WorkerState::Ready);

    let mut once = ready(Policy::SingleShot);
    assert!(once.run_task("square", &encode_i64(7)).is_ok());
    assert_eq!(once.on_message("[300]"), Some(Err(WorkerError::DecodeFailure)));
    assert_eq!(once.state(), WorkerState::Terminated);
}

#[test]
fn response_bytes_that_hold_no_integer_fail_to_decode() {
    let mut handle = ready(Policy::Reusable);
    assert!(handle.run_task("square", &encode_i64(7)).is_ok());
    let response = handle.on_message("[251]").unwrap().unwrap();
    assert_eq!(response, Payload::Binary(vec![251]));
    assert_eq!(decode_i64(&response), Err(WorkerError::DecodeFailure));
}

#[test]
fn text_task_is_answered_in_text() {
    let mut handle = ready(Policy::Reusable);
    let request = handle.run_task("greet", &Payload::Text(String::from("{\"name\":\"Ada\"}"))).unwrap();
    assert_eq!(request, "{\"message\":{\"name\":\"Ada\"},\"task_name\":\"greet\"}");
    assert_eq!(handle.awaiting(), Some(Encoding::Text));
    assert_eq!(
        handle.on_message("\"Hello, Ada\""),
        Some(Ok(Payload::Text(String::from("\"Hello, Ada\""))))
    );
    assert_eq!(handle.state(), WorkerState::Ready);
}

#[test]
fn payload_that_cannot_be_encoded_leaves_the_handle_ready() {
    let mut handle = ready(Policy::SingleShot);
    assert_eq!(
        handle.run_task("greet", &Payload::Text(String::from("{\"name\":"))),
        Err(WorkerError::DecodeFailure)
    );
    assert_eq!(handle.state(), WorkerState::Ready);
    assert!(handle.run_task("greet", &Payload::Text(String::from("{\"name\":1}"))).is_ok());
    assert_eq!(handle.state(), WorkerState::Busy);
}

#[test]
fn failed_post_is_a_transport_failure_and_releases_the_guard() {
    let mut handle = ready(Policy::SingleShot);
    assert!(handle.run_task("square", &encode_i64(7)).is_ok());
    assert_eq!(handle.on_post_failure(), Some(WorkerError::TransportFailure));
    assert_eq!(handle.state(), WorkerState::Ready);
    assert_eq!(handle.on_post_failure(), None);
    assert!(handle.run_task("square", &encode_i64(7)).is_ok());
}

#[test]
fn handle_knows_the_tasks_of_its_module() {
    let handle = ready(Policy::Reusable);
    assert!(handle.exports("square"));
    assert!(handle.exports("greet"));
    assert!(!handle.exports("cube"));
    assert!(!handle.exports("Square"));
    assert!(!handle.exports(""));
    assert!(!handle.exports("squar"));
}

#[test]
fn unknown_task_is_a_lookup_failure_and_nothing_is_posted() {
    let mut handle = ready(Policy::SingleShot);
    assert_eq!(handle.run_task("cube", &encode_i64(3)), Err(WorkerError::DispatchLookupFailure));
    assert_eq!(handle.state(), WorkerState::Ready);
    assert_eq!(handle.awaiting(), None);
    assert_eq!(
        handle.run_task("cube", &Payload::Text(String::from("{"))),
        Err(WorkerError::DispatchLookupFailure)
    );
    assert!(handle.run_task("square", &encode_i64(3)).is_ok());
    assert_eq!(handle.run_task("cube", &encode_i64(3)), Err(WorkerError::Busy));
    handle.kill();
    assert_eq!(handle.run_task("cube", &encode_i64(3)), Err(WorkerError::TerminatedUse));
}

#[test]
fn handle_without_tasks_takes_none() {
    let handshake = Handshake::begin("/m.js", "https://example.org", Policy::Reusable, Vec::new());
    let mut handle = WrappedWorker::new(handshake, &Startup::FirstMessage(String::new())).unwrap();
    assert_eq!(handle.run_task("square", &encode_i64(3)), Err(WorkerError::DispatchLookupFailure));
    assert_eq!(handle.state(), WorkerState::Ready);
}
