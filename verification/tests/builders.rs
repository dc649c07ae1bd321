use serde_json::Value;
use sqlxmq::checkpoint::Checkpoint;
use sqlxmq::spawn::TaskBuilder;
use sqlxmq::statement::{
    narrow, SqlArg, CHECKPOINT, DELETE_MANY, DELETE_ONE, INSERT, KEEP_ALIVE, POLL, POLL_ONE,
};
use std::time::Duration;

#[test]
fn a_job_starts_with_the_defaults() {
    let task = TaskBuilder::new_with_id(0x1234, "foo");
    let statement = task.spawn();
    assert_eq!(
        statement.sql,
        "SELECT mq_insert(ARRAY[($1, $2, $3, $4, $5, $6, $7, $8, $9, $10, $11)::mq_new_t])"
    );
    assert_eq!(statement.sql, INSERT);
    assert_eq!(
        statement.args,
        vec![
            SqlArg::Uuid(0x1234),
            SqlArg::Interval(Duration::from_secs(0)),
            SqlArg::Int(4),
            SqlArg::Interval(Duration::from_secs(1)),
            SqlArg::Text(""),
            SqlArg::Text(""),
            SqlArg::OptInterval(None),
            SqlArg::Bool(false),
            SqlArg::Text("foo"),
            SqlArg::OptText(None),
            SqlArg::OptBytes(None),
        ]
    );
    assert_eq!(task.spawned::<u8>(Ok(())), Ok(0x1234));
    assert_eq!(task.spawned(Err(7u8)), Err(7));
}

#[test]
fn every_option_reaches_the_statement() {
    let bytes = [1u8, 2, 3];
    let mut task = TaskBuilder::new_with_id(1, "foo");
    task.set_channel_name("bar")
        .set_channel_args("7")
        .set_retries(2)
        .set_retry_backoff(Duration::from_millis(200))
        .set_commit_interval(Some(Duration::from_secs(9)))
        .set_ordered(true)
        .set_delay(Duration::from_secs(5))
        .set_raw_json("[1]")
        .set_raw_bytes(&bytes);
    assert_eq!(
        task.spawn().args,
        vec![
            SqlArg::Uuid(1),
            SqlArg::Interval(Duration::from_secs(5)),
            SqlArg::Int(2),
            SqlArg::Interval(Duration::from_millis(200)),
            SqlArg::Text("bar"),
            SqlArg::Text("7"),
            SqlArg::OptInterval(Some(Duration::from_secs(9))),
            SqlArg::Bool(true),
            SqlArg::Text("foo"),
            SqlArg::OptText(Some("[1]")),
            SqlArg::OptBytes(Some(&bytes)),
        ]
    );
    assert_eq!(task.clone().spawn().args, task.spawn().args);
}

#[test]
fn a_new_job_has_a_random_identifier() {
    let first = TaskBuilder::new("foo").spawned::<()>(Ok(())).unwrap();
    let second = TaskBuilder::new("foo").spawned::<()>(Ok(())).unwrap();
    assert_ne!(first, second);
    for id in [first, second] {
        assert_eq!((id >> 76) & 0xf, 4);
        assert_eq!((id >> 62) & 0x3, 2);
        let uuid = uuid::Uuid::from_u128(id);
        assert_eq!(uuid.get_version_num(), 4);
        assert_eq!(uuid.get_variant(), uuid::Variant::RFC4122);
    }
}

#[test]
fn a_document_is_sent_as_text() {
    let mut task = TaskBuilder::new_with_id(1, "foo");
    let value = Value::Array(vec![Value::Bool(true), Value::Null, Value::from("x\"y")]);
    assert!(task.set_json(&value).is_ok());
    assert_eq!(task.spawn().args[9], SqlArg::OptText(Some("[true,null,\"x\\\"y\"]")));
}

#[test]
fn a_value_that_was_not_written_changes_nothing() {
    let mut task = TaskBuilder::new_with_id(1, "foo");
    task.set_raw_json("1");
    assert_eq!(task.set_encoded_json::<u8>(Err(3)).err(), Some(3));
    assert_eq!(task.spawn().args[9], SqlArg::OptText(Some("1")));
    assert!(task.set_encoded_json::<u8>(Ok("2".to_string())).is_ok());
    assert_eq!(task.spawn().args[9], SqlArg::OptText(Some("2")));
}

fn task_proto<'a, 'b>(builder: &'a mut TaskBuilder<'b>) -> &'a mut TaskBuilder<'b> {
    builder.set_channel_name("bar").set_retries(9)
}

#[test]
fn explicit_options_override_the_prototype() {
    let mut task = TaskBuilder::new_with_id(1, "foo");
    task.set_proto(task_proto).set_retries(3);
    let statement = task.spawn();
    assert_eq!(statement.args[4], SqlArg::Text("bar"));
    assert_eq!(statement.args[2], SqlArg::Int(3));
}

#[test]
fn a_checkpoint_starts_empty() {
    let checkpoint = Checkpoint::new();
    let statement = checkpoint.execute(5);
    assert_eq!(statement.sql, "SELECT mq_checkpoint($1, $2, $3, $4, $5)");
    assert_eq!(statement.sql, CHECKPOINT);
    assert_eq!(
        statement.args,
        vec![
            SqlArg::Uuid(5),
            SqlArg::Interval(Duration::default()),
            SqlArg::OptText(None),
            SqlArg::OptBytes(None),
            SqlArg::Int(0),
        ]
    );
}

#[test]
fn a_checkpoint_holds_what_was_set() {
    let bytes = [7u8];
    let mut checkpoint = Checkpoint::new_keep_alive(Duration::from_secs(3));
    checkpoint.set_extra_retries(2).set_raw_json("{}").set_raw_bytes(&bytes);
    assert_eq!(
        checkpoint.execute(5).args,
        vec![
            SqlArg::Uuid(5),
            SqlArg::Interval(Duration::from_secs(3)),
            SqlArg::OptText(Some("{}")),
            SqlArg::OptBytes(Some(&bytes)),
            SqlArg::Int(2),
        ]
    );
    assert!(checkpoint.set_json(&Value::Bool(true)).is_ok());
    assert_eq!(checkpoint.execute(5).args[2], SqlArg::OptText(Some("true")));
    assert_eq!(checkpoint.clone().execute(5).args, checkpoint.execute(5).args);
    assert_eq!(checkpoint.set_encoded_json::<u8>(Err(1)).err(), Some(1));
    assert_eq!(checkpoint.execute(5).args[2], SqlArg::OptText(Some("true")));
}

#[test]
fn counts_keep_their_low_bits() {
    assert_eq!(narrow(0), 0);
    assert_eq!(narrow(2147483647), 2147483647);
    assert_eq!(narrow(2147483648), -2147483648);
    assert_eq!(narrow(4294967295), -1);
    assert_eq!(narrow(4294967296 + 5), 5);
    let mut task = TaskBuilder::new_with_id(1, "foo");
    task.set_retries(4294967295);
    assert_eq!(task.spawn().args[2], SqlArg::Int(-1));
}

#[test]
fn statements_read_as_the_database_expects() {
    assert_eq!(DELETE_ONE, "SELECT mq_delete(ARRAY[$1])");
    assert_eq!(DELETE_MANY, "SELECT mq_delete($1)");
    assert_eq!(KEEP_ALIVE, "SELECT mq_keep_alive(ARRAY[$1], $2)");
    assert_eq!(POLL, "SELECT * FROM mq_poll($1, $2)");
    assert_eq!(POLL_ONE, "SELECT * FROM mq_poll($1, 1)");
}
