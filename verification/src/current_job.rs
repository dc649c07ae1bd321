//! The job that is being run.
use core::time::Duration;
use crate::checkpoint::{checkpoint_args, Checkpoint};
use crate::payload::{decode_json, decoded, json_value, PayloadError};
use crate::poll::PolledJob;
use crate::runner::{keep_alive_args, keep_alive_statement};
use crate::statement::{
    opt_bytes, opt_slice, opt_string, opt_text, ArgView, SqlArg, Statement, CHECKPOINT, DELETE_ONE,
    KEEP_ALIVE,
};
use crate::utils::OwnedHandle;
use vstd::prelude::*;

verus! {

/// What is left to do of a change to a job.
#[derive(Debug, Clone, Copy, PartialEq, Eq, Structural)]
pub enum ChangeStep {
    /// Execute the change's statement.
    Execute,
    /// Commit the transaction in which the statement was executed.
    Commit,
    /// Nothing: the change is made.
    Made,
    /// Nothing: the change failed, and is not made.
    Failed,
}

/// The step that follows a step which has succeeded or failed.
pub open spec fn next_step(step: ChangeStep, in_transaction: bool, succeeded: bool) -> ChangeStep {
    match step {
        ChangeStep::Execute => if !succeeded {
            ChangeStep::Failed
        } else if in_transaction {
            ChangeStep::Commit
        } else {
            ChangeStep::Made
        },
        ChangeStep::Commit => if succeeded {
            ChangeStep::Made
        } else {
            ChangeStep::Failed
        },
        ChangeStep::Made => ChangeStep::Made,
        ChangeStep::Failed => ChangeStep::Failed,
    }
}

/// The step that follows the given outcomes of the first steps.
pub open spec fn step_after(in_transaction: bool, outcomes: Seq<bool>) -> ChangeStep
    decreases outcomes.len(),
{
    if outcomes.len() == 0 {
        ChangeStep::Execute
    } else {
        next_step(
            step_after(in_transaction, outcomes.drop_last()),
            in_transaction,
            outcomes.last(),
        )
    }
}

/// A change to a job that is under way: its completion or a checkpoint.
#[derive(Debug)]
pub struct JobChange<'a> {
    statement: Statement<'a>,
    in_transaction: bool,
    completes: bool,
    step: ChangeStep,
}

impl<'a> JobChange<'a> {
    /// The statement that makes the change.
    pub closed spec fn statement_view(self) -> Statement<'a> {
        self.statement
    }

    /// Tells whether the change is made together with the caller's transaction.
    pub closed spec fn transactional(self) -> bool {
        self.in_transaction
    }

    /// Tells whether the change completes the job.
    pub closed spec fn completion(self) -> bool {
        self.completes
    }

    /// What is left to do.
    pub closed spec fn at(self) -> ChangeStep {
        self.step
    }

    /// The statement that makes the change.
    pub fn statement(&self) -> (statement: &Statement<'a>)
        ensures
            *statement == self.statement_view(),
    {
        &self.statement
    }

    /// What is left to do.
    pub fn step(&self) -> (step: ChangeStep)
        ensures
            step == self.at(),
    {
        self.step
    }

    /// Takes the outcome of the step that was to be done. An error is handed back, and ends the
    /// change.
    pub fn done<E>(&mut self, outcome: Result<(), E>) -> (next: Result<ChangeStep, E>)
        ensures
            final(self).at() == next_step(
                old(self).at(),
                old(self).transactional(),
                outcome is Ok,
            ),
            match (old(self).at(), outcome) {
                (ChangeStep::Execute, Ok(_)) => if old(self).transactional() {
                    final(self).at() is Commit
                } else {
                    final(self).at() is Made
                },
                (ChangeStep::Commit, Ok(_)) => final(self).at() is Made,
                (ChangeStep::Execute, Err(_)) => final(self).at() is Failed,
                (ChangeStep::Commit, Err(_)) => final(self).at() is Failed,
                _ => final(self).at() == old(self).at(),
            },
            final(self).statement_view() == old(self).statement_view(),
            final(self).transactional() == old(self).transactional(),
            final(self).completion() == old(self).completion(),
            match outcome {
                Ok(_) => next == Ok::<ChangeStep, E>(final(self).at()),
                Err(e) => next == Err::<ChangeStep, E>(e),
            },
    {
        let succeeded = match &outcome {
            Ok(_) => true,
            Err(_) => false,
        };
        self.step = match self.step {
            ChangeStep::Execute => if !succeeded {
                ChangeStep::Failed
            } else if self.in_transaction {
                ChangeStep::Commit
            } else {
                ChangeStep::Made
            },
            ChangeStep::Commit => if succeeded {
                ChangeStep::Made
            } else {
                ChangeStep::Failed
            },
            ChangeStep::Made => ChangeStep::Made,
            ChangeStep::Failed => ChangeStep::Failed,
        };
        match outcome {
            Ok(_) => Ok(self.step),
            Err(e) => Err(e),
        }
    }
}

/// The number of steps that a change takes.
pub open spec fn steps(in_transaction: bool) -> nat {
    if in_transaction {
        2
    } else {
        1
    }
}

/// A change is made exactly where every step has succeeded: the statement and, in a
/// transaction, the commit.
pub proof fn law_made_iff_committed(in_transaction: bool, outcomes: Seq<bool>)
    ensures
        step_after(in_transaction, outcomes) is Made <==> (outcomes.len() >= steps(in_transaction)
            && forall|i: int| 0 <= i < steps(in_transaction) ==> #[trigger] outcomes[i]),
{
    lemma_step_after(in_transaction, outcomes);
    if step_after(in_transaction, outcomes) is Made {
        assert(forall|i: int| 0 <= i < steps(in_transaction) ==> #[trigger] outcomes[i]);
    } else if outcomes.len() >= steps(in_transaction) {
        assert(!outcomes[0] || in_transaction && !outcomes[1]);
    }
}

/// A change goes on to the commit where its statement has succeeded in a transaction, fails at
/// the first step that fails, and stays where it ended.
pub proof fn law_each_step_follows_the_one_before(
    step: ChangeStep,
    in_transaction: bool,
    succeeded: bool,
)
    ensures
        !succeeded && (step is Execute || step is Commit) ==> next_step(
            step,
            in_transaction,
            succeeded,
        ) is Failed,
        next_step(step, in_transaction, succeeded) is Commit <==> step is Execute && in_transaction
            && succeeded,
        next_step(step, in_transaction, succeeded) is Made <==> step is Made || (succeeded && (step
            is Commit || (step is Execute && !in_transaction))),
        step is Failed ==> next_step(step, in_transaction, succeeded) is Failed,
        !(next_step(step, in_transaction, succeeded) is Execute),
{
}

/// A transaction is not committed where the statement has failed in it.
pub proof fn law_committed_only_if_executed(in_transaction: bool, outcomes: Seq<bool>)
    ensures
        step_after(in_transaction, outcomes) is Commit ==> in_transaction && outcomes == seq![true],
{
    lemma_step_after(in_transaction, outcomes);
    if step_after(in_transaction, outcomes) is Commit {
        assert(outcomes == seq![true]);
    }
}

proof fn lemma_step_after(in_transaction: bool, outcomes: Seq<bool>)
    ensures
        step_after(in_transaction, outcomes) == (if outcomes.len() == 0 {
            ChangeStep::Execute
        } else if !outcomes[0] {
            ChangeStep::Failed
        } else if !in_transaction {
            ChangeStep::Made
        } else if outcomes.len() == 1 {
            ChangeStep::Commit
        } else if !outcomes[1] {
            ChangeStep::Failed
        } else {
            ChangeStep::Made
        }),
    decreases outcomes.len(),
{
    if outcomes.len() > 0 {
        lemma_step_after(in_transaction, outcomes.drop_last());
    }
}

/// The job that is being run. To prevent it from being retried it must be completed.
#[derive(Debug)]
pub struct CurrentJob<H> {
    id: u128,
    name: String,
    payload_json: Option<String>,
    payload_bytes: Option<Vec<u8>>,
    keep_alive: Option<OwnedHandle<H>>,
}

/// What a [`CurrentJob`] stands for.
pub struct CurrentJobView<H> {
    pub id: u128,
    pub name: Seq<char>,
    pub payload_json: Option<Seq<char>>,
    pub payload_bytes: Option<Seq<u8>>,
    /// The task that keeps the job alive.
    pub keep_alive: Option<OwnedHandle<H>>,
}

impl<H> View for CurrentJob<H> {
    type V = CurrentJobView<H>;

    closed spec fn view(&self) -> CurrentJobView<H> {
        CurrentJobView {
            id: self.id,
            name: self.name@,
            payload_json: opt_string(self.payload_json),
            payload_bytes: opt_bytes(self.payload_bytes),
            keep_alive: self.keep_alive,
        }
    }
}

impl<H> CurrentJob<H> {
    /// Begins to run a job, which the given task keeps alive.
    pub fn new(job: PolledJob, keep_alive: Option<OwnedHandle<H>>) -> (current: Self)
        ensures
            current@ == (CurrentJobView {
                id: job@.id,
                name: job@.name,
                payload_json: job@.payload_json,
                payload_bytes: job@.payload_bytes,
                keep_alive,
            }),
            current@.id == job.id,
            current@.name == job.name@,
            match (current@.payload_json, job.payload_json) {
                (Some(a), Some(b)) => a == b@,
                (None, None) => true,
                _ => false,
            },
            match (current@.payload_bytes, job.payload_bytes) {
                (Some(a), Some(b)) => a == b@,
                (None, None) => true,
                _ => false,
            },
    {
        CurrentJob {
            id: job.id,
            name: job.name,
            payload_json: job.payload_json,
            payload_bytes: job.payload_bytes,
            keep_alive,
        }
    }

    /// The statement that deletes this job.
    fn delete(&self) -> (statement: Statement<'static>)
        ensures
            statement.is(DELETE_ONE, seq![ArgView::Uuid(self@.id)]),
    {
        Statement { sql: DELETE_ONE, args: vec![SqlArg::Uuid(self.id)] }
    }

    /// Takes out the task that keeps this job alive, to be stopped: there is one at most once.
    pub fn stop_keep_alive(&mut self) -> (task: Option<OwnedHandle<H>>)
        ensures
            task == old(self)@.keep_alive,
            final(self)@ == (CurrentJobView { keep_alive: None, ..old(self)@ }),
    {
        self.keep_alive.take()
    }

    /// Begins to complete this job together with a transaction: the job is completed only if
    /// the transaction is committed.
    pub fn complete_with_transaction(&self) -> (change: JobChange<'static>)
        ensures
            change.statement_view().is(DELETE_ONE, seq![ArgView::Uuid(self@.id)]),
            change.transactional(),
            change.completion(),
            change.at() is Execute,
    {
        JobChange {
            statement: self.delete(),
            in_transaction: true,
            completes: true,
            step: ChangeStep::Execute,
        }
    }

    /// Begins to complete this job.
    pub fn complete(&self) -> (change: JobChange<'static>)
        ensures
            change.statement_view().is(DELETE_ONE, seq![ArgView::Uuid(self@.id)]),
            !change.transactional(),
            change.completion(),
            change.at() is Execute,
    {
        JobChange {
            statement: self.delete(),
            in_transaction: false,
            completes: true,
            step: ChangeStep::Execute,
        }
    }

    /// Begins to save a checkpoint of this job together with a transaction: it is saved only if
    /// the transaction is committed.
    pub fn checkpoint_with_transaction<'c>(&self, checkpoint: &'c Checkpoint<'_>) -> (change:
        JobChange<'c>)
        ensures
            change.statement_view().is(CHECKPOINT, checkpoint_args(checkpoint@, self@.id)),
            change.transactional(),
            !change.completion(),
            change.at() is Execute,
    {
        JobChange {
            statement: checkpoint.execute(self.id),
            in_transaction: true,
            completes: false,
            step: ChangeStep::Execute,
        }
    }

    /// Begins to save a checkpoint of this job.
    pub fn checkpoint<'c>(&self, checkpoint: &'c Checkpoint<'_>) -> (change: JobChange<'c>)
        ensures
            change.statement_view().is(CHECKPOINT, checkpoint_args(checkpoint@, self@.id)),
            !change.transactional(),
            !change.completion(),
            change.at() is Execute,
    {
        JobChange {
            statement: checkpoint.execute(self.id),
            in_transaction: false,
            completes: false,
            step: ChangeStep::Execute,
        }
    }

    /// Ends a change to this job. Only a completion that was made stops the task that keeps the
    /// job alive: that task is taken out.
    pub fn finish(&mut self, change: JobChange<'_>) -> (task: Option<OwnedHandle<H>>)
        ensures
            if change.completion() && change.at() is Made {
                &&& task == old(self)@.keep_alive
                &&& final(self)@ == (CurrentJobView { keep_alive: None, ..old(self)@ })
            } else {
                &&& task is None
                &&& *final(self) == *old(self)
            },
    {
        if change.completes && change.step == ChangeStep::Made {
            self.stop_keep_alive()
        } else {
            None
        }
    }

    /// The statement that prevents this job from being retried for the given time.
    pub fn keep_alive(&self, duration: Duration) -> (statement: Statement<'static>)
        ensures
            statement.is(KEEP_ALIVE, keep_alive_args(self@.id, duration)),
    {
        keep_alive_statement(self.id, duration)
    }

    /// Returns the identifier of this job.
    pub fn id(&self) -> (id: u128)
        ensures
            id == self@.id,
    {
        self.id
    }

    /// Returns the name of this job.
    pub fn name(&self) -> (name: &str)
        ensures
            name@ == self@.name,
    {
        self.name.as_str()
    }

    /// Reads the JSON payload of this job, if it has one.
    pub fn json(&self) -> (value: Result<Option<serde_json::Value>, PayloadError>)
        ensures
            match self@.payload_json {
                Some(text) => match value {
                    Ok(Some(v)) => json_value(text) == Some(v),
                    Err(PayloadError::Decode(_)) => json_value(text) is None,
                    _ => false,
                },
                None => value == Ok::<Option<serde_json::Value>, PayloadError>(None),
            },
    {
        decoded(
            match &self.payload_json {
                Some(text) => Some(decode_json(text.as_str())),
                None => None,
            },
        )
    }

    /// Returns the JSON payload of this job as text.
    pub fn raw_json(&self) -> (text: Option<&str>)
        ensures
            opt_text(text) == self@.payload_json,
            match (text, self@.payload_json) {
                (Some(a), Some(b)) => a@ == b,
                (None, None) => true,
                _ => false,
            },
    {
        match &self.payload_json {
            Some(text) => Some(text.as_str()),
            None => None,
        }
    }

    /// Returns the binary payload of this job.
    pub fn raw_bytes(&self) -> (bytes: Option<&[u8]>)
        ensures
            opt_slice(bytes) == self@.payload_bytes,
            match (bytes, self@.payload_bytes) {
                (Some(a), Some(b)) => a@ == b,
                (None, None) => true,
                _ => false,
            },
    {
        match &self.payload_bytes {
            Some(bytes) => Some(bytes.as_slice()),
            None => None,
        }
    }
}

} // verus!
