//! What a poll brings back, and what is to be done with it.
use core::time::Duration;
use crate::duration::{from_micros, from_secs, nanos, plus, shorter, NANOS_PER_SEC};
use crate::statement::{opt_bytes, opt_string, SqlArg, Statement, ArgView, DELETE_MANY};
use vstd::prelude::*;

verus! {

/// A PostgreSQL interval.
#[derive(Debug, Clone, Copy, PartialEq, Eq, Structural)]
pub struct Interval {
    pub months: i32,
    pub days: i32,
    pub microseconds: i64,
}

/// Seconds in a day.
pub const SECONDS_PER_DAY: u64 = 86_400;

/// Days in a month, for want of the month's name.
pub const DAYS_PER_MONTH: u64 = 30;

/// Seconds to wait where no message asks for an earlier poll.
pub const MAX_WAIT_SECS: u64 = 60;

/// The length of an interval in nanoseconds. One with a negative part counts as empty.
pub open spec fn interval_nanos(interval: Interval) -> nat {
    if interval.microseconds < 0 || interval.days < 0 || interval.months < 0 {
        0
    } else {
        (interval.microseconds * 1_000 + (interval.days + interval.months * DAYS_PER_MONTH)
            * SECONDS_PER_DAY * NANOS_PER_SEC) as nat
    }
}

/// The duration that an interval stands for.
pub fn to_duration(interval: Interval) -> (d: Duration)
    ensures
        nanos(d) == interval_nanos(interval),
{
    if interval.microseconds < 0 || interval.days < 0 || interval.months < 0 {
        from_secs(0)
    } else {
        let days: u64 = interval.days as u64 + interval.months as u64 * DAYS_PER_MONTH;
        plus(from_micros(interval.microseconds as u64), from_secs(days * SECONDS_PER_DAY))
    }
}

/// A row that a poll returned. Every column may be `NULL`.
#[derive(Debug, PartialEq)]
pub struct PolledMessage {
    pub id: Option<u128>,
    pub is_committed: Option<bool>,
    pub name: Option<String>,
    pub payload_json: Option<String>,
    pub payload_bytes: Option<Vec<u8>>,
    pub retry_backoff: Option<Interval>,
    pub wait_time: Option<Interval>,
}

/// A job to be run.
#[derive(Debug, PartialEq)]
pub struct PolledJob {
    pub id: u128,
    pub name: String,
    pub payload_json: Option<String>,
    pub payload_bytes: Option<Vec<u8>>,
    /// The retry backoff from which the job is kept alive; `None` to leave it alone.
    pub keep_alive: Option<Duration>,
}

/// What a [`PolledJob`] stands for, with the retry backoff in nanoseconds.
pub struct PolledJobView {
    pub id: u128,
    pub name: Seq<char>,
    pub payload_json: Option<Seq<char>>,
    pub payload_bytes: Option<Seq<u8>>,
    pub keep_alive: Option<nat>,
}

impl View for PolledJob {
    type V = PolledJobView;

    open spec fn view(&self) -> PolledJobView {
        PolledJobView {
            id: self.id,
            name: self.name@,
            payload_json: opt_string(self.payload_json),
            payload_bytes: opt_bytes(self.payload_bytes),
            keep_alive: match self.keep_alive {
                Some(d) => Some(nanos(d)),
                None => None,
            },
        }
    }
}

/// What a batch of jobs stands for.
pub open spec fn jobs_view(jobs: Seq<PolledJob>) -> Seq<PolledJobView> {
    jobs.map_values(|j: PolledJob| j@)
}

/// A message whose two-phase commit was not completed in time: it is to be deleted.
pub open spec fn is_abandoned(msg: PolledMessage) -> bool {
    msg.is_committed == Some(false) && msg.id is Some
}

/// A message that carries a job to be run.
pub open spec fn is_runnable(msg: PolledMessage) -> bool {
    &&& msg.id is Some
    &&& msg.is_committed == Some(true)
    &&& msg.name is Some
    &&& msg.retry_backoff is Some
}

/// The identifiers of the messages to be deleted, in the order of the messages.
pub open spec fn abandoned_ids(messages: Seq<PolledMessage>) -> Seq<u128> {
    messages.filter(|msg: PolledMessage| is_abandoned(msg)).map_values(
        |msg: PolledMessage| msg.id->0,
    )
}

/// The job that a runnable message carries.
pub open spec fn job_of(msg: PolledMessage, keep_alive: bool) -> PolledJobView {
    PolledJobView {
        id: msg.id->0,
        name: msg.name->0@,
        payload_json: opt_string(msg.payload_json),
        payload_bytes: opt_bytes(msg.payload_bytes),
        keep_alive: if keep_alive {
            Some(interval_nanos(msg.retry_backoff->0))
        } else {
            None
        },
    }
}

/// The jobs to be run, in the order of the messages.
pub open spec fn jobs_of(messages: Seq<PolledMessage>, keep_alive: bool) -> Seq<PolledJobView> {
    messages.filter(|msg: PolledMessage| is_runnable(msg)).map_values(
        |msg: PolledMessage| job_of(msg, keep_alive),
    )
}

/// Says that some message tells how long to wait.
pub open spec fn has_wait_time(messages: Seq<PolledMessage>) -> bool {
    exists|i: int| 0 <= i < messages.len() && (#[trigger] messages[i]).wait_time is Some
}

/// Says that `wait`, in nanoseconds, is the shortest wait that a message asks for, or the
/// longest wait allowed where none asks.
pub open spec fn is_wait_time(wait: nat, messages: Seq<PolledMessage>) -> bool {
    if has_wait_time(messages) {
        &&& exists|i: int|
            0 <= i < messages.len() && (#[trigger] messages[i]).wait_time is Some
                && interval_nanos(messages[i].wait_time->0) == wait
        &&& forall|i: int|
            0 <= i < messages.len() && (#[trigger] messages[i]).wait_time is Some ==> wait
                <= interval_nanos(messages[i].wait_time->0)
    } else {
        wait == MAX_WAIT_SECS * NANOS_PER_SEC
    }
}

/// Collects the identifiers of the messages to be deleted.
pub fn ids_to_delete(messages: &Vec<PolledMessage>) -> (ids: Vec<u128>)
    ensures
        ids@ == abandoned_ids(messages@),
{
    let mut ids: Vec<u128> = Vec::new();
    let ghost pred = |msg: PolledMessage| is_abandoned(msg);
    let ghost id = |msg: PolledMessage| msg.id->0;
    for i in 0..messages.len()
        invariant
            pred == (|msg: PolledMessage| is_abandoned(msg)),
            id == (|msg: PolledMessage| msg.id->0),
            ids@ == messages@.take(i as int).filter(pred).map_values(id),
    {
        proof {
            reveal(Seq::filter);
            assert(messages@.take(i + 1).drop_last() == messages@.take(i as int));
        }
        if let Some(false) = messages[i].is_committed {
            if let Some(n) = messages[i].id {
                ids.push(n);
            }
        }
        assert(ids@ == messages@.take(i + 1).filter(pred).map_values(id));
    }
    assert(messages@.take(messages@.len() as int) == messages@);
    ids
}

/// Tells how long to wait before the next poll.
pub fn wait_time(messages: &Vec<PolledMessage>) -> (wait: Duration)
    ensures
        is_wait_time(nanos(wait), messages@),
{
    let mut least: Option<Duration> = None;
    for i in 0..messages.len()
        invariant
            match least {
                Some(d) => is_wait_time(nanos(d), messages@.take(i as int)) && has_wait_time(
                    messages@.take(i as int),
                ),
                None => !has_wait_time(messages@.take(i as int)),
            },
    {
        let ghost seen = messages@.take(i as int);
        let ghost now = messages@.take(i + 1);
        assert(now[i as int] == messages@[i as int]);
        assert(forall|j: int| 0 <= j < i ==> #[trigger] now[j] == seen[j]);
        if let Some(w) = messages[i].wait_time {
            let d = to_duration(w);
            least = match least {
                Some(l) => {
                    if shorter(d, l) {
                        Some(d)
                    } else {
                        proof {
                            let k = choose|k: int|
                                0 <= k < seen.len() && (#[trigger] seen[k]).wait_time is Some
                                    && interval_nanos(seen[k].wait_time->0) == nanos(l);
                            assert(now[k] == seen[k]);
                        }
                        Some(l)
                    }
                },
                None => Some(d),
            };
        } else {
            proof {
                if let Some(l) = least {
                    let k = choose|k: int|
                        0 <= k < seen.len() && (#[trigger] seen[k]).wait_time is Some
                            && interval_nanos(seen[k].wait_time->0) == nanos(l);
                    assert(now[k] == seen[k]);
                }
            }
        }
    }
    assert(messages@.take(messages@.len() as int) == messages@);
    match least {
        Some(d) => d,
        None => from_secs(MAX_WAIT_SECS),
    }
}

/// Turns the runnable messages into jobs.
pub fn jobs_to_run(messages: Vec<PolledMessage>, keep_alive: bool) -> (jobs: Vec<PolledJob>)
    ensures
        jobs_view(jobs@) == jobs_of(messages@, keep_alive),
        forall|i: int|
            0 <= i < messages@.len() && (#[trigger] messages@[i]).id is Some
                && messages@[i].is_committed == Some(true) && messages@[i].name is Some
                && messages@[i].retry_backoff is Some ==> exists|k: int|
                0 <= k < jobs@.len() && (#[trigger] jobs@[k]).id == messages@[i].id->0
                    && jobs@[k].name@ == messages@[i].name->0@,
{
    let mut jobs: Vec<PolledJob> = Vec::new();
    let ghost all = messages@;
    let ghost pred = |msg: PolledMessage| is_runnable(msg);
    let ghost job = |msg: PolledMessage| job_of(msg, keep_alive);
    for msg in it: messages
        invariant
            it.seq() == all,
            pred == (|msg: PolledMessage| is_runnable(msg)),
            job == (|msg: PolledMessage| job_of(msg, keep_alive)),
            jobs_view(jobs@) == all.take(it.index()).filter(pred).map_values(job),
    {
        proof {
            reveal(Seq::filter);
            assert(all.take(it.index() + 1).drop_last() == all.take(it.index()));
        }
        let ghost before = jobs@;
        if let PolledMessage {
            id: Some(id),
            is_committed: Some(true),
            name: Some(name),
            payload_json,
            payload_bytes,
            retry_backoff: Some(retry_backoff),
            ..
        } = msg {
            let keep_alive = if keep_alive {
                Some(to_duration(retry_backoff))
            } else {
                None
            };
            jobs.push(PolledJob { id, name, payload_json, payload_bytes, keep_alive });
            assert(jobs_view(jobs@) == jobs_view(before).push(jobs@.last()@));
        }
        assert(jobs_view(jobs@) == all.take(it.index() + 1).filter(pred).map_values(job));
    }
    assert(all.take(all.len() as int) == all);
    proof {
        let places = law_jobs_are_the_committed_messages(jobs@, all, keep_alive);
        assert forall|i: int|
            0 <= i < all.len() && (#[trigger] all[i]).id is Some && all[i].is_committed == Some(
                true,
            ) && all[i].name is Some && all[i].retry_backoff is Some implies exists|k: int|
            0 <= k < jobs@.len() && (#[trigger] jobs@[k]).id == all[i].id->0 && jobs@[k].name@
                == all[i].name->0@ by {
            assert(places.contains(i));
            let k = choose|k: int| 0 <= k < places.len() && places[k] == i;
            assert(jobs@[k].id == all[places[k]].id->0);
        }
    }
    jobs
}

/// The jobs that a poll brought, and how long to wait before the next poll.
#[derive(Debug, PartialEq)]
pub struct Batch {
    pub jobs: Vec<PolledJob>,
    pub wait: Duration,
}

/// Says that a batch is what the messages ask for.
pub open spec fn is_batch(batch: Batch, messages: Seq<PolledMessage>, keep_alive: bool) -> bool {
    &&& jobs_view(batch.jobs@) == jobs_of(messages, keep_alive)
    &&& is_wait_time(nanos(batch.wait), messages)
}

/// What comes after a poll.
#[derive(Debug, PartialEq)]
pub enum PollRound {
    /// Delete these messages first. The batch is run only once they are gone.
    Delete { ids: Vec<u128>, batch: Batch },
    /// Run the batch.
    Dispatch(Batch),
}

/// Decides what to do with the outcome of a poll.
pub fn poll_and_dispatch<E>(
    reply: Result<Vec<PolledMessage>, E>,
    keep_alive: bool,
) -> (round: Result<PollRound, E>)
    ensures
        match reply {
            Ok(messages) => match round {
                Ok(PollRound::Delete { ids, batch }) => {
                    &&& ids@ == abandoned_ids(messages@)
                    &&& ids@.len() > 0
                    &&& is_batch(batch, messages@, keep_alive)
                },
                Ok(PollRound::Dispatch(batch)) => {
                    &&& abandoned_ids(messages@).len() == 0
                    &&& is_batch(batch, messages@, keep_alive)
                },
                Err(_) => false,
            },
            Err(e) => round == Err::<PollRound, E>(e),
        },
{
    match reply {
        Ok(messages) => {
            let ids = ids_to_delete(&messages);
            let wait = wait_time(&messages);
            let jobs = jobs_to_run(messages, keep_alive);
            let batch = Batch { jobs, wait };
            if ids.len() > 0 {
                Ok(PollRound::Delete { ids, batch })
            } else {
                Ok(PollRound::Dispatch(batch))
            }
        },
        Err(e) => Err(e),
    }
}

/// The statement that deletes a list of messages.
pub fn delete_statement(ids: Vec<u128>) -> (statement: Statement<'static>)
    ensures
        statement.is(DELETE_MANY, seq![ArgView::Uuids(ids@)]),
{
    Statement { sql: DELETE_MANY, args: vec![SqlArg::Uuids(ids)] }
}

/// Decides what to do with a batch once its abandoned messages were to be deleted: where that
/// failed nothing of the batch is run.
pub fn after_delete<E>(batch: Batch, reply: Result<(), E>) -> (next: Result<Batch, E>)
    ensures
        match reply {
            Ok(_) => next == Ok::<Batch, E>(batch),
            Err(e) => next == Err::<Batch, E>(e),
        },
{
    match reply {
        Ok(_) => Ok(batch),
        Err(e) => Err(e),
    }
}

/// Takes the job out of the only message of a poll for a single job. The message need not tell
/// the retry backoff: such a job is not kept alive in the database.
pub fn single_job(messages: Vec<PolledMessage>) -> (job: Option<PolledJob>)
    requires
        messages@.len() == 1,
    ensures
        ({
            let msg = messages@[0];
            if msg.id is Some && msg.is_committed == Some(true) && msg.name is Some {
                &&& job is Some
                &&& job->0@ == job_of(msg, false)
                &&& job->0.id == msg.id->0
                &&& job->0.name@ == msg.name->0@
                &&& job->0.payload_json == msg.payload_json
                &&& job->0.payload_bytes == msg.payload_bytes
                &&& job->0.keep_alive is None
            } else {
                job is None
            }
        }),
{
    let mut messages = messages;
    match messages.pop() {
        Some(PolledMessage {
            id: Some(id),
            is_committed: Some(true),
            name: Some(name),
            payload_json,
            payload_bytes,
            ..
        }) => Some(PolledJob { id, name, payload_json, payload_bytes, keep_alive: None }),
        _ => None,
    }
}

/// An interval counts a thousand nanoseconds for each microsecond, 86,400 seconds for each day and
/// thirty days for each month. One with a negative part counts nothing.
pub proof fn law_interval_length(interval: Interval)
    ensures
        interval.microseconds < 0 || interval.days < 0 || interval.months < 0 ==> interval_nanos(
            interval,
        ) == 0,
        interval.microseconds >= 0 && interval.days >= 0 && interval.months >= 0
            ==> interval_nanos(interval) == 1_000 * interval.microseconds + 86_400_000_000_000 * (
        interval.days + 30 * interval.months),
{
}

/// The jobs of a poll are its committed messages, one job for each message that has an
/// identifier, a name and a retry backoff, in the order of the messages, with the message's
/// identifier, name and payloads, whatever the payloads and the wait time are. The places of
/// those messages are returned.
pub proof fn law_jobs_are_the_committed_messages(
    jobs: Seq<PolledJob>,
    messages: Seq<PolledMessage>,
    keep_alive: bool,
) -> (places: Seq<int>)
    requires
        jobs_view(jobs) == jobs_of(messages, keep_alive),
    ensures
        places.len() == jobs.len(),
        forall|k: int, l: int|
            0 <= k < l < places.len() ==> #[trigger] places[k] < #[trigger] places[l],
        forall|i: int|
            0 <= i < messages.len() && (#[trigger] messages[i]).id is Some
                && messages[i].is_committed == Some(true) && messages[i].name is Some
                && messages[i].retry_backoff is Some ==> places.contains(i),
        forall|k: int|
            0 <= k < places.len() ==> 0 <= #[trigger] places[k] < messages.len() && ({
                let msg = messages[places[k]];
                &&& msg.is_committed == Some(true)
                &&& msg.id == Some(jobs[k].id)
                &&& msg.name is Some && jobs[k].name@ == msg.name->0@
                &&& match (jobs[k].payload_json, msg.payload_json) {
                    (Some(a), Some(b)) => a@ == b@,
                    (None, None) => true,
                    _ => false,
                }
                &&& match (jobs[k].payload_bytes, msg.payload_bytes) {
                    (Some(a), Some(b)) => a@ == b@,
                    (None, None) => true,
                    _ => false,
                }
                &&& msg.retry_backoff is Some
                &&& jobs[k].keep_alive is Some <==> keep_alive
                &&& keep_alive ==> nanos(jobs[k].keep_alive->0) == interval_nanos(
                    msg.retry_backoff->0,
                )
            }),
    decreases messages.len(),
{
    reveal(Seq::filter);
    if messages.len() == 0 {
        assert(jobs_view(jobs).len() == 0);
        Seq::empty()
    } else {
        let earlier = messages.drop_last();
        let last = messages.last();
        let at = messages.len() - 1;
        if is_runnable(last) {
            assert(jobs_of(messages, keep_alive) == jobs_of(earlier, keep_alive).push(
                job_of(last, keep_alive),
            ));
            assert(jobs_view(jobs).len() == jobs.len());
            assert(jobs_view(jobs.drop_last()) == jobs_view(jobs).drop_last());
            assert(jobs_of(messages, keep_alive).drop_last() == jobs_of(earlier, keep_alive));
            assert(jobs_view(jobs).last() == jobs.last()@);
            let before = law_jobs_are_the_committed_messages(
                jobs.drop_last(),
                earlier,
                keep_alive,
            );
            let places = before.push(at);
            assert forall|i: int|
                0 <= i < messages.len() && (#[trigger] messages[i]).id is Some
                    && messages[i].is_committed == Some(true) && messages[i].name is Some
                    && messages[i].retry_backoff is Some implies places.contains(i) by {
                if i < at {
                    assert(earlier[i] == messages[i]);
                    let k = choose|k: int| 0 <= k < before.len() && before[k] == i;
                    assert(places[k] == i);
                } else {
                    assert(places[before.len() as int] == i);
                }
            }
            assert forall|k: int| 0 <= k < before.len() implies messages[#[trigger] before[k]]
                == earlier[before[k]] && places[k] == before[k] && jobs[k] == jobs.drop_last()[k] by {}
            places
        } else {
            assert(jobs_of(messages, keep_alive) == jobs_of(earlier, keep_alive));
            let places = law_jobs_are_the_committed_messages(jobs, earlier, keep_alive);
            assert forall|i: int|
                0 <= i < messages.len() && (#[trigger] messages[i]).id is Some
                    && messages[i].is_committed == Some(true) && messages[i].name is Some
                    && messages[i].retry_backoff is Some implies places.contains(i) by {
                assert(i < at);
                assert(earlier[i] == messages[i]);
            }
            assert forall|k: int| 0 <= k < places.len() implies messages[#[trigger] places[k]]
                == earlier[places[k]] by {}
            places
        }
    }
}

/// The identifiers that are deleted are those of the messages that are not committed, one for
/// each such message that has an identifier, in the order of the messages and whatever else they
/// hold. The places of those messages are returned.
pub proof fn law_deleted_are_the_uncommitted_messages(
    ids: Seq<u128>,
    messages: Seq<PolledMessage>,
) -> (places: Seq<int>)
    requires
        ids == abandoned_ids(messages),
    ensures
        places.len() == ids.len(),
        forall|k: int, l: int|
            0 <= k < l < places.len() ==> #[trigger] places[k] < #[trigger] places[l],
        forall|i: int|
            0 <= i < messages.len() && (#[trigger] messages[i]).id is Some
                && messages[i].is_committed == Some(false) ==> places.contains(i),
        forall|k: int|
            0 <= k < places.len() ==> 0 <= #[trigger] places[k] < messages.len()
                && messages[places[k]].is_committed == Some(false) && messages[places[k]].id
                == Some(ids[k]),
    decreases messages.len(),
{
    reveal(Seq::filter);
    if messages.len() == 0 {
        Seq::empty()
    } else {
        let earlier = messages.drop_last();
        let last = messages.last();
        let at = messages.len() - 1;
        if is_abandoned(last) {
            assert(abandoned_ids(messages) == abandoned_ids(earlier).push(last.id->0));
            assert(ids.drop_last() == abandoned_ids(earlier));
            let before = law_deleted_are_the_uncommitted_messages(ids.drop_last(), earlier);
            let places = before.push(at);
            assert forall|i: int|
                0 <= i < messages.len() && (#[trigger] messages[i]).id is Some
                    && messages[i].is_committed == Some(false) implies places.contains(i) by {
                if i < at {
                    assert(earlier[i] == messages[i]);
                    let k = choose|k: int| 0 <= k < before.len() && before[k] == i;
                    assert(places[k] == i);
                } else {
                    assert(places[before.len() as int] == i);
                }
            }
            assert forall|k: int| 0 <= k < before.len() implies messages[#[trigger] before[k]]
                == earlier[before[k]] && places[k] == before[k] by {}
            places
        } else {
            assert(abandoned_ids(messages) == abandoned_ids(earlier));
            let places = law_deleted_are_the_uncommitted_messages(ids, earlier);
            assert forall|i: int|
                0 <= i < messages.len() && (#[trigger] messages[i]).id is Some
                    && messages[i].is_committed == Some(false) implies places.contains(i) by {
                assert(i < at);
                assert(earlier[i] == messages[i]);
            }
            assert forall|k: int| 0 <= k < places.len() implies messages[#[trigger] places[k]]
                == earlier[places[k]] by {}
            places
        }
    }
}

/// The wait is no longer than any that a message asks for, and one of those where any does; a
/// minute otherwise.
pub proof fn law_wait_is_the_shortest(wait: nat, messages: Seq<PolledMessage>)
    requires
        is_wait_time(wait, messages),
    ensures
        forall|i: int|
            0 <= i < messages.len() && (#[trigger] messages[i]).wait_time is Some ==> wait
                <= interval_nanos(messages[i].wait_time->0),
        (exists|i: int|
            0 <= i < messages.len() && (#[trigger] messages[i]).wait_time is Some
                && interval_nanos(messages[i].wait_time->0) == wait) || (wait == 60_000_000_000
            && forall|i: int|
            0 <= i < messages.len() ==> (#[trigger] messages[i]).wait_time is None),
{
}

/// A batch holds the jobs of the messages and the wait that they ask for.
pub proof fn law_batch_holds_jobs_and_wait(
    batch: Batch,
    messages: Seq<PolledMessage>,
    keep_alive: bool,
)
    requires
        is_batch(batch, messages, keep_alive),
    ensures
        jobs_view(batch.jobs@) == jobs_of(messages, keep_alive),
        is_wait_time(nanos(batch.wait), messages),
{
}

/// No message is both deleted and run: one whose commit was not completed is never run, and
/// one that is run is never deleted.
pub proof fn law_deleted_or_run(msg: PolledMessage)
    ensures
        !(is_abandoned(msg) && is_runnable(msg)),
        msg.is_committed == Some(false) ==> !is_runnable(msg),
{
}

/// Of a poll's messages no more are run and deleted than there are.
pub proof fn law_no_more_jobs_than_messages(messages: Seq<PolledMessage>, keep_alive: bool)
    ensures
        jobs_of(messages, keep_alive).len() + abandoned_ids(messages).len() <= messages.len(),
    decreases messages.len(),
{
    reveal(Seq::filter);
    if messages.len() > 0 {
        law_no_more_jobs_than_messages(messages.drop_last(), keep_alive);
    }
}

/// Jobs are run in the order in which the database returned them: the jobs of two runs of
/// messages, one after the other, are the jobs of the first followed by those of the second.
pub proof fn law_jobs_in_order(
    first: Seq<PolledMessage>,
    second: Seq<PolledMessage>,
    keep_alive: bool,
)
    ensures
        jobs_of(first + second, keep_alive) == jobs_of(first, keep_alive) + jobs_of(
            second,
            keep_alive,
        ),
    decreases second.len(),
{
    reveal(Seq::filter);
    let pred = |msg: PolledMessage| is_runnable(msg);
    let job = |msg: PolledMessage| job_of(msg, keep_alive);
    if second.len() == 0 {
        assert(first + second == first);
        assert(jobs_of(second, keep_alive) == Seq::<PolledJobView>::empty());
    } else {
        law_jobs_in_order(first, second.drop_last(), keep_alive);
        assert((first + second).drop_last() == first + second.drop_last());
        assert(jobs_of(first + second, keep_alive) == jobs_of(first, keep_alive) + jobs_of(
            second,
            keep_alive,
        ));
    }
}

} // verus!
