use serde_json::Value;
use sqlxmq::checkpoint::Checkpoint;
use sqlxmq::current_job::{ChangeStep, CurrentJob};
use sqlxmq::options::JobRunnerOptions;
use sqlxmq::payload::{decode_json, decoded, encode_json, PayloadError};
use sqlxmq::poll::{
    after_delete, delete_statement, ids_to_delete, jobs_to_run, poll_and_dispatch, single_job,
    wait_time, Batch, Interval, PollRound, PolledJob, PolledMessage,
};
use sqlxmq::runner::{
    JobRunnerHandle, KeepAlive, Listener, ListenerStep, MainLoop, RunnerStep,
};
use sqlxmq::spawn::TaskBuilder;
use sqlxmq::statement::SqlArg;
use sqlxmq::utils::OwnedHandle;
use std::time::Duration;

fn secs(n: i64) -> Option<Interval> {
    Some(Interval { months: 0, days: 0, microseconds: n * 1_000_000 })
}

fn message(id: u128, committed: bool, name: &str) -> PolledMessage {
    PolledMessage {
        id: Some(id),
        is_committed: Some(committed),
        name: Some(name.to_string()),
        payload_json: None,
        payload_bytes: None,
        retry_backoff: secs(2),
        wait_time: None,
    }
}

fn job(id: u128, payload_json: Option<&str>) -> PolledJob {
    PolledJob {
        id,
        name: "foo".to_string(),
        payload_json: payload_json.map(|s| s.to_string()),
        payload_bytes: None,
        keep_alive: None,
    }
}

#[test]
fn committed_messages_are_run_in_order() {
    let mut second = message(2, true, "b");
    second.payload_json = Some("1".to_string());
    second.payload_bytes = Some(vec![4]);
    let jobs = jobs_to_run(vec![message(1, true, "a"), second], true);
    assert_eq!(jobs.len(), 2);
    assert_eq!(jobs[0].id, 1);
    assert_eq!(jobs[0].name, "a");
    assert_eq!(jobs[0].keep_alive, Some(Duration::from_secs(2)));
    assert_eq!(jobs[1].id, 2);
    assert_eq!(jobs[1].payload_json, Some("1".to_string()));
    assert_eq!(jobs[1].payload_bytes, Some(vec![4]));
    assert_eq!(jobs_to_run(vec![message(1, true, "a")], false)[0].keep_alive, None);
}

#[test]
fn incomplete_messages_are_not_run() {
    let mut no_id = message(1, true, "a");
    no_id.id = None;
    let mut no_name = message(2, true, "a");
    no_name.name = None;
    let mut no_backoff = message(3, true, "a");
    no_backoff.retry_backoff = None;
    let mut no_commit = message(4, true, "a");
    no_commit.is_committed = None;
    let messages = vec![no_id, no_name, no_backoff, no_commit, message(5, false, "a")];
    assert_eq!(ids_to_delete(&messages), vec![5]);
    assert_eq!(jobs_to_run(messages, true), vec![]);
}

#[test]
fn abandoned_messages_are_deleted_first() {
    let mut nameless = message(9, false, "a");
    nameless.id = None;
    let messages = vec![message(1, false, "a"), message(2, true, "b"), nameless, message(3, false, "c")];
    match poll_and_dispatch::<u8>(Ok(messages), false) {
        Ok(PollRound::Delete { ids, batch }) => {
            assert_eq!(ids, vec![1, 3]);
            assert_eq!(batch.jobs.len(), 1);
            assert_eq!(batch.jobs[0].id, 2);
            let statement = delete_statement(ids);
            assert_eq!(statement.sql, "SELECT mq_delete($1)");
            assert_eq!(statement.args, vec![SqlArg::Uuids(vec![1, 3])]);
            match after_delete::<u8>(batch, Ok(())) {
                Ok(batch) => assert_eq!(batch.jobs[0].name, "b"),
                Err(_) => panic!("the batch is to be run"),
            }
        }
        _ => panic!("the messages are to be deleted"),
    }
}

#[test]
fn a_failed_deletion_runs_nothing() {
    let batch = Batch { jobs: vec![job(1, None)], wait: Duration::from_secs(1) };
    assert_eq!(after_delete(batch, Err(7u8)), Err(7));
}

#[test]
fn a_failed_poll_is_an_error() {
    assert_eq!(poll_and_dispatch(Err(7u8), true), Err(7));
}

#[test]
fn a_poll_without_messages_waits_a_minute() {
    assert_eq!(
        poll_and_dispatch::<u8>(Ok(vec![]), true),
        Ok(PollRound::Dispatch(Batch { jobs: vec![], wait: Duration::from_secs(60) }))
    );
}

#[test]
fn the_shortest_wait_is_taken() {
    let mut messages = vec![message(1, true, "a"), message(2, true, "b"), message(3, true, "c")];
    assert_eq!(wait_time(&messages), Duration::from_secs(60));
    messages[0].wait_time = secs(90);
    assert_eq!(wait_time(&messages), Duration::from_secs(90));
    messages[2].wait_time = secs(5);
    messages[1].wait_time = secs(7);
    assert_eq!(wait_time(&messages), Duration::from_secs(5));
    messages[1].wait_time = secs(-7);
    assert_eq!(wait_time(&messages), Duration::from_secs(0));
}

#[test]
fn a_single_job_needs_no_backoff() {
    let mut only = message(1, true, "a");
    only.retry_backoff = None;
    let found = single_job(vec![only]).unwrap();
    assert_eq!(found.id, 1);
    assert_eq!(found.name, "a");
    assert_eq!(found.keep_alive, None);
    assert_eq!(single_job(vec![message(1, false, "a")]), None);
    let mut nameless = message(1, true, "a");
    nameless.name = None;
    assert_eq!(single_job(vec![nameless]), None);
}

#[test]
fn the_options_start_with_the_defaults() {
    let options = JobRunnerOptions::new();
    assert_eq!(options.min_concurrency(), 16);
    assert_eq!(options.max_concurrency(), 32);
    assert!(options.keep_alive());
    assert_eq!(options.listen_channels(), vec!["mq".to_string()]);
    let statement = options.poll_statement(5);
    assert_eq!(statement.args, vec![SqlArg::OptTexts(&None), SqlArg::Int(5)]);
}

#[test]
fn a_runner_listens_to_its_channels() {
    let mut options = JobRunnerOptions::new();
    options.set_channel_names(&["foo", "bar"]).set_keep_alive(false);
    assert!(!options.keep_alive());
    assert_eq!(options.listen_channels(), vec!["mq_foo".to_string(), "mq_bar".to_string()]);
    let names = Some(vec!["foo".to_string(), "bar".to_string()]);
    let statement = options.test_one();
    assert_eq!(statement.sql, "SELECT * FROM mq_poll($1, 1)");
    assert_eq!(statement.args, vec![SqlArg::OptTexts(&names)]);
    options.set_channel_names(&[]);
    assert_eq!(options.listen_channels(), Vec::<String>::new());
}

#[test]
fn a_runner_polls_below_the_minimum_up_to_the_maximum() {
    let mut options = JobRunnerOptions::new();
    options.set_concurrency(10, 20);
    let main = MainLoop::new();
    for (running, batch) in [(0usize, 20i32), (9, 11)] {
        match main.next(&options, running) {
            RunnerStep::Poll(statement) => {
                assert_eq!(statement.sql, "SELECT * FROM mq_poll($1, $2)");
                assert_eq!(statement.args, vec![SqlArg::OptTexts(&None), SqlArg::Int(batch)]);
            }
            RunnerStep::Wait(_) => panic!("jobs are missing"),
        }
    }
    assert_eq!(main.next(&options, 10), RunnerStep::Wait(Duration::from_secs(60)));
    assert_eq!(main.next(&options, 35), RunnerStep::Wait(Duration::from_secs(60)));
}

#[test]
fn failures_double_the_wait() {
    let mut main = MainLoop::new();
    assert_eq!(main.polled(Err(())), Duration::from_millis(100));
    assert_eq!(main.polled(Err(())), Duration::from_millis(200));
    assert_eq!(main.polled(Err(())), Duration::from_millis(400));
    assert_eq!(main.failures(), 3);
    assert_eq!(main.polled::<()>(Ok(Duration::from_secs(5))), Duration::from_secs(5));
    assert_eq!(main.failures(), 0);
    assert_eq!(main.polled(Err(())), Duration::from_millis(100));
}

#[test]
fn the_wait_loses_high_bits_after_many_failures() {
    let mut main = MainLoop::new();
    for _ in 0..62 {
        main.polled(Err(()));
    }
    assert_eq!(main.failures(), 62);
    assert_eq!(main.polled(Err(())), Duration::from_millis(50u64 << 63));
}

#[test]
fn the_runner_is_woken_when_a_job_is_missing() {
    let mut options = JobRunnerOptions::new();
    options.set_concurrency(2, 4);
    let mut runner = options.run();
    assert_eq!(runner.running_jobs(), 0);
    for _ in 0..4 {
        runner.job_started();
    }
    assert_eq!(runner.running_jobs(), 4);
    assert!(!runner.job_dropped());
    assert!(!runner.job_dropped());
    assert!(runner.job_dropped());
    assert!(!runner.job_dropped());
    assert_eq!(runner.running_jobs(), 0);
    assert_eq!(runner.options().min_concurrency(), 2);
}

#[test]
fn the_listener_wakes_the_runner_after_an_error() {
    let mut listener = Listener::new();
    assert_eq!(listener.next(), ListenerStep::Receive);
    assert_eq!(listener.received::<()>(Ok(())), ListenerStep::Notify);
    assert_eq!(listener.next(), ListenerStep::Receive);
    assert_eq!(listener.received(Err(())), ListenerStep::Sleep(Duration::from_secs(1)));
    assert_eq!(listener.next(), ListenerStep::Notify);
    assert_eq!(listener.next(), ListenerStep::Receive);
    assert_eq!(listener.received(Err(())), ListenerStep::Sleep(Duration::from_secs(1)));
}

#[test]
fn a_job_is_kept_alive_in_time() {
    let mut task = KeepAlive::new(7, Duration::from_millis(200));
    assert_eq!(task.pause(), Duration::from_millis(100));
    let statement = task.renew();
    assert_eq!(statement.sql, "SELECT mq_keep_alive(ARRAY[$1], $2)");
    assert_eq!(
        statement.args,
        vec![SqlArg::Uuid(7), SqlArg::Interval(Duration::from_millis(400))]
    );
    assert!(task.renewed::<()>(&Ok(())));
    assert_eq!(task.pause(), Duration::from_millis(200));
    assert_eq!(task.renew().args[1], SqlArg::Interval(Duration::from_millis(800)));
    assert_eq!(task.interval(), Duration::from_millis(800));
    assert!(!task.renewed(&Err(())));
}

#[test]
fn waiting_for_jobs_ends_at_the_timeout() {
    let handle = JobRunnerHandle::new(OwnedHandle::new(5u8));
    let mut runner = JobRunnerOptions::new().run();
    let timeout = Duration::from_secs(10);
    let step = Some(Duration::from_millis(10));
    assert_eq!(handle.wait_jobs_finish(&runner, Duration::from_secs(0), timeout), None);
    runner.job_started();
    assert_eq!(handle.num_running_jobs(&runner), 1);
    assert_eq!(handle.wait_jobs_finish(&runner, Duration::from_secs(9), timeout), step);
    assert_eq!(handle.wait_jobs_finish(&runner, timeout, timeout), None);
}

#[test]
fn waiting_for_jobs_takes_no_longer_than_the_timeout() {
    let handle = JobRunnerHandle::new(OwnedHandle::new(5u8));
    let mut runner = JobRunnerOptions::new().run();
    runner.job_started();
    let ms = Duration::from_millis;
    assert_eq!(handle.wait_jobs_finish(&runner, ms(0), ms(5)), Some(ms(5)));
    assert_eq!(handle.wait_jobs_finish(&runner, ms(0), ms(10)), Some(ms(10)));
    assert_eq!(handle.wait_jobs_finish(&runner, ms(0), ms(0)), None);
    let almost = Duration::new(0, 999_999_999);
    let second = Duration::from_secs(1);
    assert_eq!(handle.wait_jobs_finish(&runner, almost, second), Some(Duration::from_nanos(1)));

    let timeout = ms(25);
    let mut elapsed = ms(0);
    let mut steps: Vec<Duration> = Vec::new();
    while let Some(step) = handle.wait_jobs_finish(&runner, elapsed, timeout) {
        elapsed += step;
        steps.push(step);
    }
    assert_eq!(steps, vec![ms(10), ms(10), ms(5)]);
    assert_eq!(elapsed, timeout);
}

#[test]
fn a_runner_never_runs_more_jobs_than_the_maximum() {
    let mut options = JobRunnerOptions::new();
    options.set_concurrency(3, 5);
    let mut runner = options.run();
    let main = MainLoop::new();
    for turn in 0..20 {
        if let RunnerStep::Poll(statement) = main.next(&options, runner.running_jobs()) {
            let batch = match statement.args[1] {
                SqlArg::Int(n) => n,
                _ => panic!("a number of jobs is asked for"),
            };
            assert!(batch > 2 && batch <= 5);
            for _ in 0..batch {
                runner.job_started();
            }
            assert_eq!(runner.running_jobs(), 5);
        }
        for _ in 0..(turn % 4) {
            if runner.running_jobs() > 0 {
                runner.job_dropped();
            }
        }
        assert!(runner.running_jobs() <= 5);
    }
}

#[test]
fn a_runner_is_stopped_once() {
    let mut handle = JobRunnerHandle::new(OwnedHandle::new(5u8));
    assert_eq!(handle.stop().map(|h| h.into_inner()), Some(5));
    assert!(handle.stop().is_none());
}

#[test]
fn a_task_is_cancelled_at_most_once() {
    let mut handle = OwnedHandle::new("task");
    assert_eq!(handle.release(), Some("task"));
    assert_eq!(handle.release(), None);
    assert_eq!(OwnedHandle::new("task").into_inner(), "task");
}

#[test]
fn a_completed_job_is_no_longer_kept_alive() {
    let mut current = CurrentJob::new(job(7, None), Some(OwnedHandle::new(1u8)));
    let mut change = current.complete();
    assert_eq!(change.step(), ChangeStep::Execute);
    assert_eq!(change.statement().sql, "SELECT mq_delete(ARRAY[$1])");
    assert_eq!(change.statement().args, vec![SqlArg::Uuid(7)]);
    assert_eq!(change.done::<u8>(Ok(())), Ok(ChangeStep::Made));
    assert_eq!(current.finish(change).map(|h| h.into_inner()), Some(1));
    assert!(current.stop_keep_alive().is_none());
}

#[test]
fn a_failed_completion_leaves_the_job_alive() {
    let mut current = CurrentJob::new(job(7, None), Some(OwnedHandle::new(1u8)));
    let mut change = current.complete();
    assert_eq!(change.done(Err(3u8)), Err(3));
    assert_eq!(change.step(), ChangeStep::Failed);
    assert!(current.finish(change).is_none());
    assert!(current.stop_keep_alive().is_some());
}

#[test]
fn a_transaction_has_to_be_committed() {
    let mut current = CurrentJob::new(job(7, None), Some(OwnedHandle::new(1u8)));
    let mut change = current.complete_with_transaction();
    assert_eq!(change.done::<u8>(Ok(())), Ok(ChangeStep::Commit));
    assert_eq!(change.done(Err(3u8)), Err(3));
    assert!(current.finish(change).is_none());

    let mut change = current.complete_with_transaction();
    assert_eq!(change.done(Err(3u8)), Err(3));
    assert_eq!(change.step(), ChangeStep::Failed);
    assert!(current.finish(change).is_none());

    let mut change = current.complete_with_transaction();
    assert_eq!(change.done::<u8>(Ok(())), Ok(ChangeStep::Commit));
    assert_eq!(change.done::<u8>(Ok(())), Ok(ChangeStep::Made));
    assert!(current.finish(change).is_some());
}

#[test]
fn a_checkpoint_does_not_complete_the_job() {
    let mut current = CurrentJob::new(job(7, None), Some(OwnedHandle::new(1u8)));
    let mut checkpoint = Checkpoint::new();
    checkpoint.set_raw_json("2");
    let mut change = current.checkpoint(&checkpoint);
    assert_eq!(change.statement().sql, "SELECT mq_checkpoint($1, $2, $3, $4, $5)");
    assert_eq!(change.statement().args[0], SqlArg::Uuid(7));
    assert_eq!(change.statement().args[2], SqlArg::OptText(Some("2")));
    assert_eq!(change.done::<u8>(Ok(())), Ok(ChangeStep::Made));
    assert!(current.finish(change).is_none());
    let mut change = current.checkpoint_with_transaction(&checkpoint);
    assert_eq!(change.done::<u8>(Ok(())), Ok(ChangeStep::Commit));
    assert_eq!(change.done::<u8>(Ok(())), Ok(ChangeStep::Made));
    assert!(current.finish(change).is_none());
    assert!(current.stop_keep_alive().is_some());
}

#[test]
fn a_job_shows_what_it_was_polled_with() {
    let mut polled = job(7, Some("[1]"));
    polled.payload_bytes = Some(vec![1, 2]);
    let current: CurrentJob<u8> = CurrentJob::new(polled, None);
    assert_eq!(current.id(), 7);
    assert_eq!(current.name(), "foo");
    assert_eq!(current.raw_json(), Some("[1]"));
    assert_eq!(current.raw_bytes(), Some(&[1u8, 2][..]));
    assert_eq!(
        current.keep_alive(Duration::from_secs(4)).args,
        vec![SqlArg::Uuid(7), SqlArg::Interval(Duration::from_secs(4))]
    );
    let empty: CurrentJob<u8> = CurrentJob::new(job(7, None), None);
    assert_eq!(empty.raw_json(), None);
    assert_eq!(empty.raw_bytes(), None);
}

#[test]
fn the_payload_is_read_as_json() {
    let current: CurrentJob<u8> = CurrentJob::new(job(7, Some(" [1, true] ")), None);
    let expected = Value::Array(vec![Value::from(1), Value::Bool(true)]);
    assert_eq!(current.json().unwrap(), Some(expected));
    let empty: CurrentJob<u8> = CurrentJob::new(job(7, None), None);
    assert_eq!(empty.json().unwrap(), None);
    let broken: CurrentJob<u8> = CurrentJob::new(job(7, Some("[1")), None);
    assert!(matches!(broken.json(), Err(PayloadError::Decode(_))));
}

#[test]
fn a_checkpoint_replaces_the_payload_for_the_next_attempt() {
    let first: CurrentJob<u8> = CurrentJob::new(job(7, Some("false")), None);
    assert_eq!(first.json().unwrap(), Some(Value::Bool(false)));
    let mut checkpoint = Checkpoint::new();
    assert!(checkpoint.set_json(&Value::Bool(true)).is_ok());
    let change = first.checkpoint(&checkpoint);
    let saved = match &change.statement().args[2] {
        SqlArg::OptText(Some(text)) => text.to_string(),
        _ => panic!("a payload is saved"),
    };
    let second: CurrentJob<u8> = CurrentJob::new(job(7, Some(&saved)), None);
    assert_eq!(second.json().unwrap(), Some(Value::Bool(true)));
}

#[test]
fn documents_are_written_and_read() {
    assert_eq!(encode_json(&Value::Null).unwrap(), "null");
    assert_eq!(encode_json(&Value::from("a")).unwrap(), "\"a\"");
    assert_eq!(decode_json("12").unwrap(), Value::from(12));
    assert!(matches!(decode_json(""), Err(PayloadError::Decode(_))));
    assert_eq!(decoded::<u8, u8>(None), Ok(None));
    assert_eq!(decoded::<u8, u8>(Some(Ok(1))), Ok(Some(1)));
    assert_eq!(decoded::<u8, u8>(Some(Err(2))), Err(2));
}

#[test]
fn a_document_is_read_back() {
    let mut object = serde_json::Map::new();
    object.insert("a \"key\"\n".to_string(), Value::from(u64::MAX));
    object.insert("b".to_string(), Value::from(i64::MIN));
    object.insert(String::new(), Value::Array(vec![Value::Null, Value::from("\u{1}\u{7f}\u{e9}")]));
    let document = Value::Object(object);
    let mut task = TaskBuilder::new_with_id(1, "foo");
    assert!(task.set_json(&document).is_ok());
    let statement = task.spawn();
    let sent = match statement.args[9] {
        SqlArg::OptText(Some(text)) => text,
        _ => panic!("a payload is sent"),
    };
    let received: CurrentJob<u8> = CurrentJob::new(job(1, Some(sent)), None);
    assert_eq!(received.json().unwrap(), Some(document));
}

fn nested(depth: usize) -> Value {
    let mut value = Value::from(0);
    for _ in 0..depth {
        value = Value::Array(vec![value]);
    }
    value
}

#[test]
fn deep_documents_are_read_back_up_to_a_limit() {
    let text = encode_json(&nested(127)).unwrap();
    assert_eq!(decode_json(&text).unwrap(), nested(127));
    let text = encode_json(&nested(128)).unwrap();
    assert!(matches!(decode_json(&text), Err(PayloadError::Decode(_))));
}

fn read_back(document: &Value) -> Value {
    decode_json(&encode_json(document).unwrap()).unwrap()
}

#[test]
fn strings_may_hold_anything() {
    let mut object = serde_json::Map::new();
    object.insert("1.5e3 $".to_string(), Value::from("[".repeat(200)));
    object.insert("\\\"{".to_string(), Value::from("{\"$serde_json::private::RawValue\":\"1\"}"));
    let document = Value::Object(object);
    assert_eq!(read_back(&document), document);
}

#[test]
fn many_arrays_side_by_side_are_read_back() {
    let document = Value::Array(vec![nested(126); 300]);
    assert_eq!(read_back(&document), document);
}

#[test]
fn a_private_key_matters_only_in_front() {
    let key = "$serde_json::private::RawValue";
    let mut object = serde_json::Map::new();
    object.insert(key.to_string(), Value::from("1"));
    assert_eq!(read_back(&Value::Object(object.clone())), Value::from(1));
    object.insert("#".to_string(), Value::Null);
    let document = Value::Object(object);
    assert_eq!(read_back(&document), document);
}
