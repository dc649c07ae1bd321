//! Describing a job and sending it to the queue.
use std::borrow::Cow;
use core::time::Duration;
use crate::duration::{from_secs, nanos, NANOS_PER_SEC};
use crate::payload::{
    cow_clone, cow_text, encode_json, is_plain, json_text, json_value, opt_cow, PayloadError,
};
use crate::statement::{low_i32, narrow, opt_slice, ArgView, SqlArg, Statement, INSERT};
use vstd::prelude::*;

verus! {

/// Says that an identifier is a random UUID: one of version 4 and of the variant of RFC 9562.
pub open spec fn is_random_id(id: u128) -> bool {
    &&& (id >> 76u128) & 0xf == 4
    &&& (id >> 62u128) & 0x3 == 2
}

/// `Uuid::new_v4`, as the number that `Uuid::as_u128` makes of it. The version and the variant
/// are fixed; the other bits are random.
#[verifier::external_body]
fn random_id() -> (id: u128)
    ensures
        is_random_id(id),
{
    uuid::Uuid::new_v4().as_u128()
}

/// A job to be sent to the queue. It is named after the function that runs it, and its options
/// can be set one by one.
#[derive(Debug)]
pub struct TaskBuilder<'a> {
    id: u128,
    delay: Duration,
    channel_name: &'a str,
    channel_args: &'a str,
    retries: usize,
    retry_backoff: Duration,
    commit_interval: Option<Duration>,
    ordered: bool,
    name: &'a str,
    payload_json: Option<Cow<'a, str>>,
    payload_bytes: Option<&'a [u8]>,
}

/// What a [`TaskBuilder`] stands for.
pub struct TaskView {
    pub id: u128,
    pub delay: Duration,
    pub channel_name: Seq<char>,
    pub channel_args: Seq<char>,
    pub retries: usize,
    pub retry_backoff: Duration,
    pub commit_interval: Option<Duration>,
    pub ordered: bool,
    pub name: Seq<char>,
    pub payload_json: Option<Seq<char>>,
    pub payload_bytes: Option<Seq<u8>>,
}

/// Says that a job has the options that a job starts out with: it is run at once, on the
/// channel without a name, in no particular order, and retried four times, at first after one
/// second. It has no payload, and no second commit is awaited.
pub open spec fn is_default_task(task: TaskView) -> bool {
    &&& nanos(task.delay) == 0
    &&& task.channel_name == ""@
    &&& task.channel_args == ""@
    &&& task.retries == 4
    &&& nanos(task.retry_backoff) == NANOS_PER_SEC
    &&& task.commit_interval is None
    &&& !task.ordered
    &&& task.payload_json is None
    &&& task.payload_bytes is None
}

/// Says that two jobs have the same options: they agree in everything but their identifiers and
/// names. Times are compared by their lengths.
pub open spec fn same_options(a: TaskView, b: TaskView) -> bool {
    &&& nanos(a.delay) == nanos(b.delay)
    &&& a.channel_name == b.channel_name
    &&& a.channel_args == b.channel_args
    &&& a.retries == b.retries
    &&& nanos(a.retry_backoff) == nanos(b.retry_backoff)
    &&& match (a.commit_interval, b.commit_interval) {
        (Some(c), Some(d)) => nanos(c) == nanos(d),
        (None, None) => true,
        _ => false,
    }
    &&& a.ordered == b.ordered
    &&& a.payload_json == b.payload_json
    &&& a.payload_bytes == b.payload_bytes
}

/// A job starts out with the same options whatever its identifier and its name: no delay, the
/// channel without a name or arguments, four retries, a backoff of one second, no commit
/// interval, no order and no payloads.
pub proof fn law_defaults(task: TaskView)
    requires
        is_default_task(task),
    ensures
        nanos(task.delay) == 0,
        task.channel_name.len() == 0,
        task.channel_args.len() == 0,
        task.retries == 4,
        nanos(task.retry_backoff) == 1_000_000_000,
        task.commit_interval is None,
        !task.ordered,
        task.payload_json is None,
        task.payload_bytes is None,
{
    reveal_strlit("");
}

/// Each option of a job reaches its own parameter of the statement that sends it, unchanged and
/// whatever the other options are.
pub proof fn law_spawn_sends_each_option(task: TaskView, statement: Statement<'_>)
    requires
        statement.is(INSERT, insert_args(task)),
    ensures
        statement.args@.len() == 11,
        statement.args@[0] == SqlArg::Uuid(task.id),
        statement.args@[1] == SqlArg::Interval(task.delay),
        statement.args@[2] is Int,
        task.retries <= i32::MAX ==> statement.args@[2]->Int_0 == task.retries,
        (task.retries - statement.args@[2]->Int_0) % 0x1_0000_0000 == 0,
        statement.args@[3] == SqlArg::Interval(task.retry_backoff),
        statement.args@[4] matches SqlArg::Text(t) && t@ == task.channel_name,
        statement.args@[5] matches SqlArg::Text(t) && t@ == task.channel_args,
        statement.args@[6] == SqlArg::OptInterval(task.commit_interval),
        statement.args@[7] == SqlArg::Bool(task.ordered),
        statement.args@[8] matches SqlArg::Text(t) && t@ == task.name,
        match (statement.args@[9], task.payload_json) {
            (SqlArg::OptText(Some(t)), Some(json)) => t@ == json,
            (SqlArg::OptText(None), None) => true,
            _ => false,
        },
        match (statement.args@[10], task.payload_bytes) {
            (SqlArg::OptBytes(Some(b)), Some(bytes)) => b@ == bytes,
            (SqlArg::OptBytes(None), None) => true,
            _ => false,
        },
{
    let args = insert_args(task);
    assert(args.len() == 11);
    assert forall|i: int| 0 <= i < 11 implies (#[trigger] statement.args@[i])@ == args[i] by {}
}

/// A parameter of two jobs' statements agrees exactly where the option that it stands for does:
/// no option has an influence on the parameter of another.
pub proof fn law_parameters_are_independent(a: TaskView, b: TaskView)
    requires
        a.retries <= i32::MAX,
        b.retries <= i32::MAX,
    ensures
        insert_args(a).len() == insert_args(b).len() == 11,
        insert_args(a)[0] == insert_args(b)[0] <==> a.id == b.id,
        insert_args(a)[1] == insert_args(b)[1] <==> a.delay == b.delay,
        insert_args(a)[2] == insert_args(b)[2] <==> a.retries == b.retries,
        insert_args(a)[3] == insert_args(b)[3] <==> a.retry_backoff == b.retry_backoff,
        insert_args(a)[4] == insert_args(b)[4] <==> a.channel_name == b.channel_name,
        insert_args(a)[5] == insert_args(b)[5] <==> a.channel_args == b.channel_args,
        insert_args(a)[6] == insert_args(b)[6] <==> a.commit_interval == b.commit_interval,
        insert_args(a)[7] == insert_args(b)[7] <==> a.ordered == b.ordered,
        insert_args(a)[8] == insert_args(b)[8] <==> a.name == b.name,
        insert_args(a)[9] == insert_args(b)[9] <==> a.payload_json == b.payload_json,
        insert_args(a)[10] == insert_args(b)[10] <==> a.payload_bytes == b.payload_bytes,
{
}

/// The values of the statement that inserts a job.
pub open spec fn insert_args(task: TaskView) -> Seq<ArgView> {
    seq![
        ArgView::Uuid(task.id),
        ArgView::Interval(task.delay),
        ArgView::Int(low_i32(task.retries as int)),
        ArgView::Interval(task.retry_backoff),
        ArgView::Text(task.channel_name),
        ArgView::Text(task.channel_args),
        ArgView::OptInterval(task.commit_interval),
        ArgView::Bool(task.ordered),
        ArgView::Text(task.name),
        ArgView::OptText(task.payload_json),
        ArgView::OptBytes(task.payload_bytes),
    ]
}

impl<'a> View for TaskBuilder<'a> {
    type V = TaskView;

    closed spec fn view(&self) -> TaskView {
        TaskView {
            id: self.id,
            delay: self.delay,
            channel_name: self.channel_name@,
            channel_args: self.channel_args@,
            retries: self.retries,
            retry_backoff: self.retry_backoff,
            commit_interval: self.commit_interval,
            ordered: self.ordered,
            name: self.name@,
            payload_json: opt_cow(self.payload_json),
            payload_bytes: opt_slice(self.payload_bytes),
        }
    }
}

impl<'a> Clone for TaskBuilder<'a> {
    fn clone(&self) -> (task: Self)
        ensures
            task@ == self@,
    {
        TaskBuilder {
            id: self.id,
            delay: self.delay,
            channel_name: self.channel_name,
            channel_args: self.channel_args,
            retries: self.retries,
            retry_backoff: self.retry_backoff,
            commit_interval: self.commit_interval,
            ordered: self.ordered,
            name: self.name,
            payload_json: cow_clone(&self.payload_json),
            payload_bytes: self.payload_bytes,
        }
    }
}

impl<'a> TaskBuilder<'a> {
    /// Begins a job with the given name and a new identifier.
    pub fn new(name: &'a str) -> (task: Self)
        ensures
            is_random_id(task@.id),
            task@.name == name@,
            is_default_task(task@),
            nanos(task@.delay) == 0,
            task@.channel_name == ""@,
            task@.channel_args == ""@,
            task@.retries == 4,
            nanos(task@.retry_backoff) == 1_000_000_000,
            task@.commit_interval is None,
            !task@.ordered,
            task@.payload_json is None,
            task@.payload_bytes is None,
    {
        Self::new_with_id(random_id(), name)
    }

    /// Begins a job with the given name and identifier.
    pub fn new_with_id(id: u128, name: &'a str) -> (task: Self)
        ensures
            task@.id == id,
            task@.name == name@,
            is_default_task(task@),
            nanos(task@.delay) == 0,
            task@.channel_name == ""@,
            task@.channel_args == ""@,
            task@.retries == 4,
            nanos(task@.retry_backoff) == 1_000_000_000,
            task@.commit_interval is None,
            !task@.ordered,
            task@.payload_json is None,
            task@.payload_bytes is None,
    {
        TaskBuilder {
            id,
            delay: from_secs(0),
            channel_name: "",
            channel_args: "",
            retries: 4,
            retry_backoff: from_secs(1),
            commit_interval: None,
            ordered: false,
            name,
            payload_json: None,
            payload_bytes: None,
        }
    }

    /// Sets the job's options with the given function.
    pub fn set_proto<'b, P: FnOnce(&'b mut Self) -> &'b mut Self>(
        &'b mut self,
        proto: P,
    ) -> (task: &'b mut Self)
        requires
            forall|t: &'b mut Self| *t == *old(self) ==> call_requires(proto, (t,)),
        ensures
            exists|t: &'b mut Self|
                *t == *old(self) && #[trigger] call_ensures(proto, (t,), task) && *final(t)
                    == *final(self),
    {
        proto(self)
    }

    /// Sets the name of the channel on which the job is spawned.
    pub fn set_channel_name(&mut self, channel_name: &'a str) -> (task: &mut Self)
        ensures
            task@ == (TaskView { channel_name: channel_name@, ..old(self)@ }),
            *final(self) == *final(task),
    {
        self.channel_name = channel_name;
        self
    }

    /// Sets the arguments of the channel on which the job is spawned.
    pub fn set_channel_args(&mut self, channel_args: &'a str) -> (task: &mut Self)
        ensures
            task@ == (TaskView { channel_args: channel_args@, ..old(self)@ }),
            *final(self) == *final(task),
    {
        self.channel_args = channel_args;
        self
    }

    /// Sets how often the job is retried.
    pub fn set_retries(&mut self, retries: usize) -> (task: &mut Self)
        ensures
            task@ == (TaskView { retries, ..old(self)@ }),
            *final(self) == *final(task),
    {
        self.retries = retries;
        self
    }

    /// Sets the time before the first retry.
    pub fn set_retry_backoff(&mut self, retry_backoff: Duration) -> (task: &mut Self)
        ensures
            task@ == (TaskView { retry_backoff, ..old(self)@ }),
            *final(self) == *final(task),
    {
        self.retry_backoff = retry_backoff;
        self
    }

    /// Sets the time within which the job has to be committed, for a two-phase commit.
    pub fn set_commit_interval(&mut self, commit_interval: Option<Duration>) -> (task: &mut Self)
        ensures
            task@ == (TaskView { commit_interval, ..old(self)@ }),
            *final(self) == *final(task),
    {
        self.commit_interval = commit_interval;
        self
    }

    /// Sets whether the job is strictly ordered within its channel.
    pub fn set_ordered(&mut self, ordered: bool) -> (task: &mut Self)
        ensures
            task@ == (TaskView { ordered, ..old(self)@ }),
            *final(self) == *final(task),
    {
        self.ordered = ordered;
        self
    }

    /// Sets the time before the first attempt.
    pub fn set_delay(&mut self, delay: Duration) -> (task: &mut Self)
        ensures
            task@ == (TaskView { delay, ..old(self)@ }),
            *final(self) == *final(task),
    {
        self.delay = delay;
        self
    }

    /// Sets the JSON payload to a text.
    pub fn set_raw_json(&mut self, raw_json: &'a str) -> (task: &mut Self)
        ensures
            task@ == (TaskView { payload_json: Some(raw_json@), ..old(self)@ }),
            *final(self) == *final(task),
    {
        self.payload_json = Some(Cow::Borrowed(raw_json));
        self
    }

    /// Sets the binary payload.
    pub fn set_raw_bytes(&mut self, raw_bytes: &'a [u8]) -> (task: &mut Self)
        ensures
            task@ == (TaskView { payload_bytes: Some(raw_bytes@), ..old(self)@ }),
            *final(self) == *final(task),
    {
        self.payload_bytes = Some(raw_bytes);
        self
    }

    /// Sets the JSON payload to the text that a value was written as, unless that failed.
    pub fn set_encoded_json<E>(&mut self, encoded: Result<String, E>) -> (task: Result<
        &mut Self,
        E,
    >)
        ensures
            match (encoded, task) {
                (Ok(text), Ok(t)) => {
                    &&& t@ == (TaskView { payload_json: Some(text@), ..old(self)@ })
                    &&& *final(self) == *final(t)
                },
                (Err(e), Err(f)) => f == e && *final(self) == *old(self),
                _ => false,
            },
    {
        match encoded {
            Ok(text) => {
                self.payload_json = Some(Cow::Owned(text));
                Ok(self)
            },
            Err(e) => Err(e),
        }
    }

    /// Sets the JSON payload to a document. A job that is received with this payload reads the
    /// document back where its text is plain.
    pub fn set_json(&mut self, value: &serde_json::Value) -> (task: Result<&mut Self, PayloadError>)
        ensures
            match task {
                Ok(t) => {
                    &&& json_text(*value) is Some
                    &&& is_plain(json_text(*value)->0) ==> json_value(json_text(*value)->0) == Some(
                        *value,
                    )
                    &&& t@ == (TaskView { payload_json: json_text(*value), ..old(self)@ })
                    &&& *final(self) == *final(t)
                },
                Err(PayloadError::Encode(_)) => {
                    &&& json_text(*value) is None
                    &&& *final(self) == *old(self)
                },
                Err(_) => false,
            },
    {
        self.set_encoded_json(encode_json(value))
    }

    /// The statement that sends the job to the queue.
    pub fn spawn(&self) -> (statement: Statement<'_>)
        ensures
            statement.is(INSERT, insert_args(self@)),
            statement.sql@ == INSERT@,
            statement.args@.len() == 11,
            statement.args@[0] == SqlArg::Uuid(self@.id),
            statement.args@[1] == SqlArg::Interval(self@.delay),
            statement.args@[2] matches SqlArg::Int(n) && (self@.retries <= i32::MAX ==> n
                == self@.retries),
            statement.args@[3] == SqlArg::Interval(self@.retry_backoff),
            statement.args@[4] matches SqlArg::Text(t) && t@ == self@.channel_name,
            statement.args@[5] matches SqlArg::Text(t) && t@ == self@.channel_args,
            statement.args@[6] == SqlArg::OptInterval(self@.commit_interval),
            statement.args@[7] == SqlArg::Bool(self@.ordered),
            statement.args@[8] matches SqlArg::Text(t) && t@ == self@.name,
            match (statement.args@[9], self@.payload_json) {
                (SqlArg::OptText(Some(t)), Some(json)) => t@ == json,
                (SqlArg::OptText(None), None) => true,
                _ => false,
            },
            match (statement.args@[10], self@.payload_bytes) {
                (SqlArg::OptBytes(Some(b)), Some(bytes)) => b@ == bytes,
                (SqlArg::OptBytes(None), None) => true,
                _ => false,
            },
    {
        let args = vec![
            SqlArg::Uuid(self.id),
            SqlArg::Interval(self.delay),
            SqlArg::Int(narrow(self.retries)),
            SqlArg::Interval(self.retry_backoff),
            SqlArg::Text(self.channel_name),
            SqlArg::Text(self.channel_args),
            SqlArg::OptInterval(self.commit_interval),
            SqlArg::Bool(self.ordered),
            SqlArg::Text(self.name),
            SqlArg::OptText(cow_text(&self.payload_json)),
            SqlArg::OptBytes(self.payload_bytes),
        ];
        Statement { sql: INSERT, args }
    }

    /// Takes the outcome of that statement: the identifier of the job that was spawned, unless
    /// it failed.
    pub fn spawned<E>(&self, reply: Result<(), E>) -> (id: Result<u128, E>)
        ensures
            id == (match reply {
                Ok(_) => Ok::<u128, E>(self@.id),
                Err(e) => Err::<u128, E>(e),
            }),
    {
        match reply {
            Ok(_) => Ok(self.id),
            Err(e) => Err(e),
        }
    }
}

} // verus!
