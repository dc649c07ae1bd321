//! Saving the state of a running job.
use core::time::Duration;
use crate::duration::{from_secs, nanos};
use crate::payload::{
    cow_clone, cow_text, encode_json, is_plain, json_text, json_value, opt_cow, PayloadError,
};
use crate::statement::{low_i32, narrow, opt_slice, ArgView, SqlArg, Statement, CHECKPOINT};
use std::borrow::Cow;
use vstd::prelude::*;

verus! {

/// What is to be saved of a running job.
#[derive(Debug)]
pub struct Checkpoint<'a> {
    duration: Duration,
    extra_retries: usize,
    payload_json: Option<Cow<'a, str>>,
    payload_bytes: Option<&'a [u8]>,
}

/// What a [`Checkpoint`] stands for.
pub struct CheckpointView {
    pub duration: Duration,
    pub extra_retries: usize,
    pub payload_json: Option<Seq<char>>,
    pub payload_bytes: Option<Seq<u8>>,
}

/// The values of the statement that saves a checkpoint of a job.
pub open spec fn checkpoint_args(checkpoint: CheckpointView, job_id: u128) -> Seq<ArgView> {
    seq![
        ArgView::Uuid(job_id),
        ArgView::Interval(checkpoint.duration),
        ArgView::OptText(checkpoint.payload_json),
        ArgView::OptBytes(checkpoint.payload_bytes),
        ArgView::Int(low_i32(checkpoint.extra_retries as int)),
    ]
}

/// Everything that a checkpoint holds reaches its own parameter of the statement that saves it,
/// unchanged and whatever else the checkpoint holds.
pub proof fn law_checkpoint_saves_everything(
    checkpoint: CheckpointView,
    job_id: u128,
    statement: Statement<'_>,
)
    requires
        statement.is(CHECKPOINT, checkpoint_args(checkpoint, job_id)),
    ensures
        statement.args@.len() == 5,
        statement.args@[0] == SqlArg::Uuid(job_id),
        statement.args@[1] == SqlArg::Interval(checkpoint.duration),
        match (statement.args@[2], checkpoint.payload_json) {
            (SqlArg::OptText(Some(t)), Some(json)) => t@ == json,
            (SqlArg::OptText(None), None) => true,
            _ => false,
        },
        match (statement.args@[3], checkpoint.payload_bytes) {
            (SqlArg::OptBytes(Some(b)), Some(bytes)) => b@ == bytes,
            (SqlArg::OptBytes(None), None) => true,
            _ => false,
        },
        statement.args@[4] is Int,
        checkpoint.extra_retries <= i32::MAX ==> statement.args@[4]->Int_0
            == checkpoint.extra_retries,
        (checkpoint.extra_retries - statement.args@[4]->Int_0) % 0x1_0000_0000 == 0,
{
    let args = checkpoint_args(checkpoint, job_id);
    assert(args.len() == 5);
    assert forall|i: int| 0 <= i < 5 implies (#[trigger] statement.args@[i])@ == args[i] by {}
}

/// A parameter of two checkpoints' statements agrees exactly where what it stands for does:
/// nothing that a checkpoint holds has an influence on the parameter of something else.
pub proof fn law_checkpoint_parameters_are_independent(
    a: CheckpointView,
    a_job: u128,
    b: CheckpointView,
    b_job: u128,
)
    requires
        a.extra_retries <= i32::MAX,
        b.extra_retries <= i32::MAX,
    ensures
        checkpoint_args(a, a_job).len() == checkpoint_args(b, b_job).len() == 5,
        checkpoint_args(a, a_job)[0] == checkpoint_args(b, b_job)[0] <==> a_job == b_job,
        checkpoint_args(a, a_job)[1] == checkpoint_args(b, b_job)[1] <==> a.duration == b.duration,
        checkpoint_args(a, a_job)[2] == checkpoint_args(b, b_job)[2] <==> a.payload_json
            == b.payload_json,
        checkpoint_args(a, a_job)[3] == checkpoint_args(b, b_job)[3] <==> a.payload_bytes
            == b.payload_bytes,
        checkpoint_args(a, a_job)[4] == checkpoint_args(b, b_job)[4] <==> a.extra_retries
            == b.extra_retries,
{
}

impl<'a> View for Checkpoint<'a> {
    type V = CheckpointView;

    closed spec fn view(&self) -> CheckpointView {
        CheckpointView {
            duration: self.duration,
            extra_retries: self.extra_retries,
            payload_json: opt_cow(self.payload_json),
            payload_bytes: opt_slice(self.payload_bytes),
        }
    }
}

impl<'a> Clone for Checkpoint<'a> {
    fn clone(&self) -> (checkpoint: Self)
        ensures
            checkpoint@ == self@,
    {
        Checkpoint {
            duration: self.duration,
            extra_retries: self.extra_retries,
            payload_json: cow_clone(&self.payload_json),
            payload_bytes: self.payload_bytes,
        }
    }
}

impl<'a> Default for Checkpoint<'a> {
    fn default() -> (checkpoint: Self)
        ensures
            nanos(checkpoint@.duration) == 0,
            checkpoint@.extra_retries == 0,
            checkpoint@.payload_json is None,
            checkpoint@.payload_bytes is None,
    {
        Checkpoint::new_keep_alive(from_secs(0))
    }
}

impl<'a> Checkpoint<'a> {
    /// Begins a checkpoint that also keeps the job alive for the given time.
    pub fn new_keep_alive(duration: Duration) -> (checkpoint: Self)
        ensures
            checkpoint@ == (CheckpointView {
                duration,
                extra_retries: 0,
                payload_json: None,
                payload_bytes: None,
            }),
    {
        Checkpoint { duration, extra_retries: 0, payload_json: None, payload_bytes: None }
    }

    /// Begins a checkpoint that changes nothing.
    pub fn new() -> (checkpoint: Self)
        ensures
            nanos(checkpoint@.duration) == 0,
            checkpoint@.extra_retries == 0,
            checkpoint@.payload_json is None,
            checkpoint@.payload_bytes is None,
    {
        Self::default()
    }

    /// Adds retries to the job.
    pub fn set_extra_retries(&mut self, extra_retries: usize) -> (checkpoint: &mut Self)
        ensures
            checkpoint@ == (CheckpointView { extra_retries, ..old(self)@ }),
            *final(self) == *final(checkpoint),
    {
        self.extra_retries = extra_retries;
        self
    }

    /// Replaces the job's JSON payload by a text.
    pub fn set_raw_json(&mut self, raw_json: &'a str) -> (checkpoint: &mut Self)
        ensures
            checkpoint@ == (CheckpointView { payload_json: Some(raw_json@), ..old(self)@ }),
            *final(self) == *final(checkpoint),
    {
        self.payload_json = Some(Cow::Borrowed(raw_json));
        self
    }

    /// Replaces the job's binary payload.
    pub fn set_raw_bytes(&mut self, raw_bytes: &'a [u8]) -> (checkpoint: &mut Self)
        ensures
            checkpoint@ == (CheckpointView { payload_bytes: Some(raw_bytes@), ..old(self)@ }),
            *final(self) == *final(checkpoint),
    {
        self.payload_bytes = Some(raw_bytes);
        self
    }

    /// Replaces the job's JSON payload by the text that a value was written as, unless that
    /// failed.
    pub fn set_encoded_json<E>(&mut self, encoded: Result<String, E>) -> (checkpoint: Result<
        &mut Self,
        E,
    >)
        ensures
            match (encoded, checkpoint) {
                (Ok(text), Ok(c)) => {
                    &&& c@ == (CheckpointView { payload_json: Some(text@), ..old(self)@ })
                    &&& *final(self) == *final(c)
                },
                (Err(e), Err(f)) => f == e && *final(self) == *old(self),
                _ => false,
            },
    {
        match encoded {
            Ok(text) => {
                self.payload_json = Some(Cow::Owned(text));
                Ok(self)
            },
            Err(e) => Err(e),
        }
    }

    /// Replaces the job's JSON payload by a document. A job that is received with this payload
    /// reads the document back where its text is plain.
    pub fn set_json(&mut self, value: &serde_json::Value) -> (checkpoint: Result<
        &mut Self,
        PayloadError,
    >)
        ensures
            match checkpoint {
                Ok(c) => {
                    &&& json_text(*value) is Some
                    &&& is_plain(json_text(*value)->0) ==> json_value(json_text(*value)->0) == Some(
                        *value,
                    )
                    &&& c@ == (CheckpointView { payload_json: json_text(*value), ..old(self)@ })
                    &&& *final(self) == *final(c)
                },
                Err(PayloadError::Encode(_)) => {
                    &&& json_text(*value) is None
                    &&& *final(self) == *old(self)
                },
                Err(_) => false,
            },
    {
        self.set_encoded_json(encode_json(value))
    }

    /// The statement that saves this checkpoint of a job.
    pub fn execute(&self, job_id: u128) -> (statement: Statement<'_>)
        ensures
            statement.is(CHECKPOINT, checkpoint_args(self@, job_id)),
            statement.sql@ == CHECKPOINT@,
            statement.args@.len() == 5,
            statement.args@[0] == SqlArg::Uuid(job_id),
            statement.args@[1] == SqlArg::Interval(self@.duration),
            match (statement.args@[2], self@.payload_json) {
                (SqlArg::OptText(Some(t)), Some(json)) => t@ == json,
                (SqlArg::OptText(None), None) => true,
                _ => false,
            },
            match (statement.args@[3], self@.payload_bytes) {
                (SqlArg::OptBytes(Some(b)), Some(bytes)) => b@ == bytes,
                (SqlArg::OptBytes(None), None) => true,
                _ => false,
            },
            statement.args@[4] matches SqlArg::Int(n) && (self@.extra_retries <= i32::MAX ==> n
                == self@.extra_retries),
    {
        let args = vec![
            SqlArg::Uuid(job_id),
            SqlArg::Interval(self.duration),
            SqlArg::OptText(cow_text(&self.payload_json)),
            SqlArg::OptBytes(self.payload_bytes),
            SqlArg::Int(narrow(self.extra_retries)),
        ];
        Statement { sql: CHECKPOINT, args }
    }
}

} // verus!
