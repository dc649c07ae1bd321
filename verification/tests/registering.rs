use sqlxmq::hidden::{BuildFn, RunFn};
use sqlxmq::job_attr::{
    interpret_job_arg, job, ArgError, AttrLit, BuilderCall, JobArg, JobOptions, ListHead,
    MetaValue, NumberLit,
};
use sqlxmq::registry::{find_duplicate, JobOutcome, JobRegistry, NamedJob, UnknownJobError};
use sqlxmq::spawn::TaskBuilder;
use sqlxmq::statement::SqlArg;
use sqlxmq::utils::Opaque;
use std::time::Duration;

type Build = for<'b> fn(&'b mut TaskBuilder<'static>) -> &'b mut TaskBuilder<'static>;

fn build1<'b>(builder: &'b mut TaskBuilder<'static>) -> &'b mut TaskBuilder<'static> {
    builder
        .set_channel_name("foo")
        .set_retries(3)
        .set_retry_backoff(Duration::from_secs_f64(2.0))
        .set_ordered(true)
}

fn task_proto<'a, 'b>(builder: &'a mut TaskBuilder<'b>) -> &'a mut TaskBuilder<'b> {
    builder.set_channel_name("bar")
}

fn build2<'b>(builder: &'b mut TaskBuilder<'static>) -> &'b mut TaskBuilder<'static> {
    builder.set_proto(task_proto)
}

fn named(name: &'static str, build: Build, run: u8) -> &'static NamedJob<Build, u8> {
    Box::leak(Box::new(NamedJob::new_internal(name, BuildFn(build), RunFn(run))))
}

#[test]
fn a_registry_finds_its_jobs_by_name() {
    let example_task1 = named("example_task1", build1, 1);
    let example_task2 = named("example_task2", build2, 2);
    let jobs = [example_task1, example_task2];
    assert_eq!(find_duplicate(&jobs), None);
    let registry = JobRegistry::new(&jobs);
    assert_eq!(registry.resolve_job("example_task1").map(|j| *j.run_fn()), Some(1));
    assert_eq!(registry.resolve_job("example_task2").map(|j| j.name()), Some("example_task2"));
    assert!(registry.resolve_job("example_task").is_none());
    assert!(registry.resolve_job("").is_none());
    match registry.dispatch("example_task2") {
        Ok(found) => assert_eq!(*found.run_fn(), 2),
        Err(_) => panic!("the job is registered"),
    }
    match registry.dispatch("other") {
        Ok(_) => panic!("no such job"),
        Err(e) => assert_eq!(e.to_string(), "Unknown job"),
    }
}

#[test]
fn a_name_is_registered_once() {
    let jobs = [
        named("a", build1, 1),
        named("b", build1, 2),
        named("c", build1, 3),
        named("b", build1, 4),
        named("a", build1, 5),
    ];
    assert_eq!(find_duplicate(&jobs), Some(3));
    assert_eq!(find_duplicate(&jobs[..3]), None);
    assert_eq!(find_duplicate::<Build, u8>(&[]), None);
}

#[test]
fn a_named_job_begins_with_its_options() {
    let task = named("example_task1", build1, 1).builder_with_id(5);
    let statement = task.spawn();
    assert_eq!(statement.args[0], SqlArg::Uuid(5));
    assert_eq!(statement.args[2], SqlArg::Int(3));
    assert_eq!(statement.args[3], SqlArg::Interval(Duration::from_secs(2)));
    assert_eq!(statement.args[4], SqlArg::Text("foo"));
    assert_eq!(statement.args[7], SqlArg::Bool(true));
    assert_eq!(statement.args[8], SqlArg::Text("example_task1"));
    let task = named("example_task2", build2, 2).builder();
    assert_eq!((task.spawned::<()>(Ok(())).unwrap() >> 76) & 0xf, 4);
    assert_eq!(task.spawn().args[4], SqlArg::Text("bar"));
    assert_eq!(task.spawn().args[2], SqlArg::Int(4));
}

#[test]
fn both_builders_set_the_same_options() {
    for job in [named("example_task1", build1, 1), named("example_task2", build2, 2)] {
        let task = job.builder();
        let other = job.builder_with_id(5);
        assert_eq!(other.spawned::<()>(Ok(())), Ok(5));
        assert_eq!(task.spawn().sql, other.spawn().sql);
        assert_eq!(task.spawn().args[1..], other.spawn().args[1..]);
    }
}

#[test]
fn a_failed_job_is_reported() {
    assert!(matches!(JobRegistry::<Build, u8>::spawn_internal::<u8>(Ok(())), JobOutcome::Completed));
    assert!(matches!(JobRegistry::<Build, u8>::spawn_internal(Err(3u8)), JobOutcome::Failed(3)));
    assert_eq!(UnknownJobError.to_string(), "Unknown job");
}

#[test]
fn an_opaque_value_is_not_shown() {
    let mut value = Opaque(5u8);
    assert_eq!(*value, 5);
    *value = 6;
    assert_eq!(value.0, 6);
    assert_eq!(value.debug_text(), "Any { .. }");
    assert_eq!(Opaque("x").debug_text(), "Any { .. }");
}

fn text(s: &str) -> AttrLit {
    AttrLit::Str(s.to_string())
}

fn number(digits: &str) -> NumberLit {
    NumberLit { digits: digits.to_string(), is_f64: digits.parse::<f64>().is_ok() }
}

fn value(ident: &str, lit: AttrLit) -> JobArg {
    JobArg::Meta { ident: Some(ident.to_string()), value: MetaValue::Value(lit) }
}

fn word(ident: &str) -> JobArg {
    JobArg::Meta { ident: Some(ident.to_string()), value: MetaValue::Word }
}

fn list(ident: &str, path: &str) -> JobArg {
    let head = ListHead::Path(path.to_string());
    JobArg::Meta { ident: Some(ident.to_string()), value: MetaValue::List(head) }
}

#[test]
fn every_option_is_understood() {
    let mut options = JobOptions::new();
    for arg in [
        JobArg::Lit(text("my_job")),
        list("proto", "my_proto"),
        value("channel_name", text("foo")),
        value("retries", AttrLit::Int(number("3"))),
        value("backoff_secs", AttrLit::Float(number("1.5"))),
        value("ordered", AttrLit::Bool(false)),
    ] {
        assert_eq!(interpret_job_arg(&mut options, arg), Ok(()));
    }
    assert_eq!(
        options,
        JobOptions {
            proto: Some("my_proto".to_string()),
            name: Some("my_job".to_string()),
            channel_name: Some("foo".to_string()),
            retries: Some(3),
            backoff_secs: Some("1.5".to_string()),
            ordered: Some(false),
        }
    );
}

#[test]
fn an_option_is_given_once() {
    let mut options = JobOptions::new();
    assert_eq!(interpret_job_arg(&mut options, JobArg::Lit(text("a"))), Ok(()));
    for arg in [JobArg::Lit(text("b")), value("name", text("b"))] {
        assert_eq!(interpret_job_arg(&mut options, arg), Err(ArgError::Unexpected));
    }
    assert_eq!(interpret_job_arg(&mut options, word("ordered")), Ok(()));
    assert_eq!(interpret_job_arg(&mut options, word("ordered")), Err(ArgError::Unexpected));
    assert_eq!(
        interpret_job_arg(&mut options, value("ordered", AttrLit::Bool(false))),
        Err(ArgError::Unexpected)
    );
    assert_eq!(
        interpret_job_arg(&mut options, value("backoff_secs", AttrLit::Int(number("2")))),
        Ok(())
    );
    assert_eq!(
        interpret_job_arg(&mut options, value("backoff_secs", AttrLit::Float(number("2.5")))),
        Err(ArgError::Unexpected)
    );
    assert_eq!(options.name, Some("a".to_string()));
    assert_eq!(options.ordered, Some(true));
    assert_eq!(options.backoff_secs, Some("2".to_string()));
}

#[test]
fn other_arguments_are_refused() {
    let other_list = MetaValue::List(ListHead::Other);
    for arg in [
        JobArg::Lit(AttrLit::Int(number("1"))),
        JobArg::Lit(AttrLit::Other),
        word("proto"),
        word("retries"),
        word("unknown"),
        list("name", "a"),
        list("ordered", "a"),
        JobArg::Meta { ident: Some("proto".to_string()), value: other_list },
        value("proto", text("a")),
        value("name", AttrLit::Int(number("1"))),
        value("channel_name", AttrLit::Bool(true)),
        value("retries", text("1")),
        value("retries", AttrLit::Float(number("1.5"))),
        value("backoff_secs", text("1")),
        value("ordered", text("true")),
        value("Ordered", AttrLit::Bool(true)),
        value("ordered", AttrLit::Other),
    ] {
        let mut options = JobOptions::new();
        assert_eq!(interpret_job_arg(&mut options, arg), Err(ArgError::Unexpected));
        assert_eq!(options, JobOptions::new());
    }
}

#[test]
fn a_number_has_to_be_readable() {
    let mut options = JobOptions::new();
    for digits in ["4294967296", "-1"] {
        assert_eq!(
            interpret_job_arg(&mut options, value("retries", AttrLit::Int(number(digits)))),
            Err(ArgError::Number)
        );
    }
    let bad = NumberLit { digits: "1".to_string(), is_f64: false };
    assert_eq!(
        interpret_job_arg(&mut options, value("backoff_secs", AttrLit::Float(bad))),
        Err(ArgError::Number)
    );
    assert_eq!(options, JobOptions::new());
}

#[test]
fn a_longer_path_is_passed_over() {
    let mut options = JobOptions::new();
    let arg = JobArg::Meta { ident: None, value: MetaValue::List(ListHead::Missing) };
    assert_eq!(interpret_job_arg(&mut options, arg), Ok(()));
    assert_eq!(options, JobOptions::new());
}

#[test]
fn the_prototype_comes_first() {
    let plan = job(
        vec![
            word("ordered"),
            value("retries", AttrLit::Int(number("0"))),
            value("backoff_secs", AttrLit::Int(number("2"))),
            value("channel_name", text("c")),
            list("proto", "my_proto"),
            JobArg::Lit(text("my_job")),
        ],
        3,
    );
    assert_eq!(plan.errors, vec![]);
    assert_eq!(plan.name, Some("my_job".to_string()));
    assert_eq!(
        plan.chain,
        vec![
            BuilderCall::SetProto("my_proto".to_string()),
            BuilderCall::SetChannelName("c".to_string()),
            BuilderCall::SetRetries(0),
            BuilderCall::SetRetryBackoff("2".to_string()),
            BuilderCall::SetOrdered(true),
        ]
    );
    assert_eq!(plan.contexts, 2);
}

#[test]
fn the_order_of_arguments_is_not_important() {
    let forward = job(vec![word("ordered"), list("proto", "p"), value("name", text("n"))], 1);
    let backward = job(vec![value("name", text("n")), list("proto", "p"), word("ordered")], 1);
    assert_eq!(forward, backward);
    assert_eq!(forward.contexts, 0);
}

#[test]
fn errors_are_collected_with_their_places() {
    let plan = job(
        vec![
            word("unknown"),
            value("retries", AttrLit::Int(number("1"))),
            value("retries", AttrLit::Int(number("2"))),
            JobArg::Lit(AttrLit::Bool(true)),
        ],
        0,
    );
    assert_eq!(
        plan.errors,
        vec![
            (0, ArgError::Unexpected),
            (2, ArgError::Unexpected),
            (3, ArgError::Unexpected),
        ]
    );
    assert_eq!(plan.chain, vec![BuilderCall::SetRetries(1)]);
    assert_eq!(plan.name, None);
    assert_eq!(plan.contexts, 0);
}
