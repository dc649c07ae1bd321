//! Running jobs: when to poll, how many jobs to ask for, how long to wait, and how to keep
//! running jobs alive.
use core::time::Duration;
use crate::duration::{
    double, from_millis, from_secs, half, minus, nanos, nanos_limit, shorter, NANOS_PER_SEC,
};
use crate::options::{JobRunnerOptions, OptionsView};
use crate::poll::{jobs_of, law_no_more_jobs_than_messages, PolledMessage};
use crate::statement::{low_i32, narrow, texts, ArgView, SqlArg, Statement, KEEP_ALIVE, POLL};
use crate::utils::OwnedHandle;
use vstd::prelude::*;

verus! {

/// Seconds between two looks at the queue where enough jobs are running.
pub const IDLE_SECS: u64 = 60;

/// The most milliseconds between two looks at the number of running jobs whilst waiting for
/// them.
pub const FINISH_STEP_MILLIS: u64 = 10;

/// Something that changes the number of running jobs.
pub enum JobEvent {
    /// A job is about to run.
    Started,
    /// A job is no longer running.
    Dropped,
}

/// The count of running jobs after an event. It wraps around at the ends of its type.
pub open spec fn count_after(count: usize, event: JobEvent) -> usize {
    match event {
        JobEvent::Started => if count == usize::MAX {
            0
        } else {
            (count + 1) as usize
        },
        JobEvent::Dropped => if count == 0 {
            usize::MAX
        } else {
            (count - 1) as usize
        },
    }
}

/// Says that a job that is no longer running wakes the runner up: that is so where the count,
/// with the job, is at the minimum.
pub open spec fn wakes(options: OptionsView, count: usize) -> bool {
    count == options.min_concurrency
}

/// A running job runner: its options and the number of jobs that are running.
#[derive(Debug)]
pub struct JobRunner {
    options: JobRunnerOptions,
    running_jobs: usize,
}

impl JobRunner {
    /// The runner's options.
    pub closed spec fn options_view(self) -> OptionsView {
        self.options@
    }

    /// The number of running jobs.
    pub closed spec fn running(self) -> usize {
        self.running_jobs
    }

    /// The runner's options.
    pub fn options(&self) -> (options: &JobRunnerOptions)
        ensures
            options@ == self.options_view(),
    {
        &self.options
    }

    /// Returns the number of running jobs.
    pub fn running_jobs(&self) -> (n: usize)
        ensures
            n == self.running(),
    {
        self.running_jobs
    }

    /// Counts a job that is about to run.
    pub fn job_started(&mut self)
        ensures
            final(self).running() == count_after(old(self).running(), JobEvent::Started),
            old(self).running() < usize::MAX ==> final(self).running() == old(self).running() + 1,
            old(self).running() == usize::MAX ==> final(self).running() == 0,
            final(self).options_view() == old(self).options_view(),
    {
        self.running_jobs = if self.running_jobs == usize::MAX {
            0
        } else {
            self.running_jobs + 1
        };
    }

    /// Counts a job that is no longer running. Tells whether the runner is to be woken up: that
    /// is so when the number of jobs was at the minimum.
    pub fn job_dropped(&mut self) -> (wake: bool)
        ensures
            final(self).running() == count_after(old(self).running(), JobEvent::Dropped),
            old(self).running() > 0 ==> final(self).running() == old(self).running() - 1,
            old(self).running() == 0 ==> final(self).running() == usize::MAX,
            final(self).options_view() == old(self).options_view(),
            wake == wakes(old(self).options_view(), old(self).running()),
            wake == (old(self).running() == old(self).options_view().min_concurrency),
    {
        let previous: usize = self.running_jobs;
        self.running_jobs = if previous == 0 {
            usize::MAX
        } else {
            previous - 1
        };
        previous == self.options.min_concurrency()
    }
}

impl JobRunnerOptions {
    /// Begins to run: a runner with these options and no jobs.
    pub fn run(&self) -> (runner: JobRunner)
        ensures
            runner.options_view() == self@,
            runner.running() == 0,
    {
        JobRunner { options: self.clone(), running_jobs: 0 }
    }
}

/// What a runner does next.
#[derive(Debug, PartialEq)]
pub enum RunnerStep<'a> {
    /// Poll for jobs with this statement.
    Poll(Statement<'a>),
    /// Wait for that long, or until woken up.
    Wait(Duration),
}

/// The loop in which a runner polls: how often in a row that has failed.
#[derive(Debug)]
pub struct MainLoop {
    failures: u32,
}

/// Milliseconds to wait after the given number of failures in a row: fifty, shifted left once
/// for each failure.
pub open spec fn failure_millis(failures: u32) -> u64 {
    50u64 << failures
}

impl MainLoop {
    /// The number of failures in a row.
    pub closed spec fn failed(self) -> u32 {
        self.failures
    }

    /// Enters the loop.
    pub fn new() -> (main: Self)
        ensures
            main.failed() == 0,
    {
        MainLoop { failures: 0 }
    }

    /// The number of failures in a row.
    pub fn failures(&self) -> (n: u32)
        ensures
            n == self.failed(),
    {
        self.failures
    }

    /// Begins a turn of the loop: polls for as many jobs as are missing from the maximum where
    /// fewer than the minimum are running, and waits otherwise.
    pub fn next<'a>(&self, options: &'a JobRunnerOptions, running_jobs: usize) -> (step: RunnerStep<
        'a,
    >)
        requires
            running_jobs < options@.min_concurrency ==> running_jobs <= options@.max_concurrency,
        ensures
            match step {
                RunnerStep::Poll(statement) => {
                    &&& running_jobs < options@.min_concurrency
                    &&& statement.is(
                        POLL,
                        seq![
                            ArgView::OptTexts(options@.channel_names),
                            ArgView::Int(low_i32(options@.max_concurrency - running_jobs)),
                        ],
                    )
                },
                RunnerStep::Wait(d) => {
                    &&& running_jobs >= options@.min_concurrency
                    &&& nanos(d) == IDLE_SECS * NANOS_PER_SEC
                },
            },
    {
        if running_jobs < options.min_concurrency() {
            let batch_size: i32 = narrow(options.max_concurrency() - running_jobs);
            RunnerStep::Poll(options.poll_statement(batch_size))
        } else {
            RunnerStep::Wait(from_secs(IDLE_SECS))
        }
    }

    /// Ends a turn in which a poll was made: takes the poll's outcome, which is the time to
    /// wait where it succeeded, and tells how long to wait.
    pub fn polled<E>(&mut self, outcome: Result<Duration, E>) -> (wait: Duration)
        requires
            outcome is Err ==> old(self).failed() < 63,
        ensures
            match outcome {
                Ok(d) => wait == d && final(self).failed() == 0,
                Err(_) => {
                    &&& final(self).failed() == old(self).failed() + 1
                    &&& nanos(wait) == failure_millis(final(self).failed()) * 1_000_000
                },
            },
    {
        match outcome {
            Ok(d) => {
                self.failures = 0;
                d
            },
            Err(_) => {
                self.failures = self.failures + 1;
                let millis: u64 = 50u64 << self.failures;
                from_millis(millis)
            },
        }
    }
}

/// A job that starts and one that ends cancel out: the count is the number of jobs that have
/// started and not ended.
pub proof fn law_count_goes_up_and_down(count: usize)
    ensures
        count < usize::MAX ==> count_after(count, JobEvent::Started) == count + 1,
        count > 0 ==> count_after(count, JobEvent::Dropped) == count - 1,
        count_after(count_after(count, JobEvent::Started), JobEvent::Dropped) == count,
        count_after(count_after(count, JobEvent::Dropped), JobEvent::Started) == count,
{
}

/// The end of a job wakes the runner up exactly where it takes the count from the minimum to
/// below it.
pub proof fn law_woken_at_the_minimum(options: OptionsView, count: usize)
    requires
        count > 0,
    ensures
        wakes(options, count) <==> (count >= options.min_concurrency && count_after(
            count,
            JobEvent::Dropped,
        ) < options.min_concurrency),
{
}

/// The jobs that are running and those that a poll asks for make up the maximum together.
pub proof fn law_poll_fills_up_to_the_maximum(
    options: OptionsView,
    running: usize,
    statement: Statement<'_>,
)
    requires
        running <= options.max_concurrency <= i32::MAX,
        statement.is(
            POLL,
            seq![
                ArgView::OptTexts(options.channel_names),
                ArgView::Int(low_i32(options.max_concurrency - running)),
            ],
        ),
    ensures
        statement.args@.len() == 2,
        statement.args@[1] matches SqlArg::Int(n) && running + n == options.max_concurrency,
        match (statement.args@[0], options.channel_names) {
            (SqlArg::OptTexts(Some(names)), Some(wanted)) => {
                &&& names@.len() == wanted.len()
                &&& forall|i: int| 0 <= i < wanted.len() ==> (#[trigger] names@[i])@ == wanted[i]
            },
            (SqlArg::OptTexts(None), None) => true,
            _ => false,
        },
{
    let args = seq![
        ArgView::OptTexts(options.channel_names),
        ArgView::Int(low_i32(options.max_concurrency - running)),
    ];
    assert(statement.args@[0]@ == args[0]);
    assert(statement.args@[1]@ == args[1]);
    if let SqlArg::OptTexts(Some(names)) = statement.args@[0] {
        let seen = texts(names@);
        assert(options.channel_names == Some(seen));
        assert forall|i: int| 0 <= i < seen.len() implies (#[trigger] names@[i])@ == seen[i] by {}
    }
}

/// The number of jobs that a poll asks for is never more than the maximum, and always more than
/// the difference between the maximum and the minimum.
pub proof fn law_batch_size(options: OptionsView, running: usize)
    requires
        running < options.min_concurrency,
        running <= options.max_concurrency <= i32::MAX,
    ensures
        options.max_concurrency - options.min_concurrency < low_i32(
            options.max_concurrency - running,
        ) <= options.max_concurrency,
{
}

/// Each failure in a row doubles the time to wait, which starts at a tenth of a second, until
/// the number of milliseconds no longer fits.
pub proof fn law_failures_double_the_wait(failures: u32)
    requires
        0 < failures < 58,
    ensures
        failure_millis(1) == 100,
        failure_millis((failures + 1) as u32) == 2 * failure_millis(failures),
{
    assert(50u64 << 1u32 == 100) by (bit_vector);
    let more: u32 = (failures + 1) as u32;
    assert(50u64 << more == 2 * (50u64 << failures)) by (bit_vector)
        requires
            0 < failures < 58,
            more == failures + 1,
    ;
}

/// The milliseconds to wait start at fifty and are doubled by each failure, with what no longer
/// fits 64 bits cut off.
pub proof fn law_failure_wait_of_every_length(failures: u32)
    requires
        failures < 63,
    ensures
        failure_millis(0) == 50,
        failure_millis((failures + 1) as u32) == (2 * failure_millis(failures))
            % 0x1_0000_0000_0000_0000,
{
    assert(50u64 << 0u32 == 50) by (bit_vector);
    let more: u32 = (failures + 1) as u32;
    assert((50u64 << more) == (2 * (50u64 << failures)) % 0x1_0000_0000_0000_0000) by (bit_vector)
        requires
            failures < 63,
            more == failures + 1,
    ;
}

/// The count of running jobs after some events.
pub open spec fn running_after(count: usize, events: Seq<JobEvent>) -> usize
    decreases events.len(),
{
    if events.len() == 0 {
        count
    } else {
        count_after(running_after(count, events.drop_last()), events.last())
    }
}

/// Says that the count can be relied on: only a job that is running ends, and there are never
/// more jobs than the count can hold.
pub open spec fn is_history(count: usize, events: Seq<JobEvent>) -> bool {
    forall|i: int|
        0 <= i < events.len() ==> match #[trigger] events[i] {
            JobEvent::Started => running_after(count, events.take(i)) < usize::MAX,
            JobEvent::Dropped => running_after(count, events.take(i)) > 0,
        }
}

/// The number of jobs that were started by some events.
pub open spec fn started(events: Seq<JobEvent>) -> nat {
    events.filter(|e: JobEvent| e is Started).len()
}

proof fn lemma_history_prefix(count: usize, events: Seq<JobEvent>)
    requires
        is_history(count, events),
        events.len() > 0,
    ensures
        is_history(count, events.drop_last()),
        match events.last() {
            JobEvent::Started => running_after(count, events) == running_after(
                count,
                events.drop_last(),
            ) + 1,
            JobEvent::Dropped => running_after(count, events) == running_after(
                count,
                events.drop_last(),
            ) - 1,
        },
{
    let earlier = events.drop_last();
    assert(events.take(events.len() - 1) == earlier);
    assert(events[events.len() - 1] == events.last());
    assert forall|i: int| 0 <= i < earlier.len() implies match #[trigger] earlier[i] {
        JobEvent::Started => running_after(count, earlier.take(i)) < usize::MAX,
        JobEvent::Dropped => running_after(count, earlier.take(i)) > 0,
    } by {
        assert(earlier[i] == events[i]);
        assert(earlier.take(i) == events.take(i));
    }
}

proof fn lemma_running_bounded(count: usize, events: Seq<JobEvent>)
    requires
        is_history(count, events),
    ensures
        running_after(count, events) <= count + started(events),
    decreases events.len(),
{
    reveal(Seq::filter);
    if events.len() > 0 {
        lemma_history_prefix(count, events);
        lemma_running_bounded(count, events.drop_last());
    }
}

/// A turn of a runner's loop: the messages that were polled for, if any, and what became of the
/// jobs until the next turn.
pub struct Turn {
    pub messages: Seq<PolledMessage>,
    pub events: Seq<JobEvent>,
}

/// Says that a turn may follow where the given number of jobs is running. A poll is made where
/// that number is below the minimum, and the database returns no more messages than it was asked
/// for. Only jobs that the poll brought are started.
pub open spec fn is_turn(options: OptionsView, running: usize, turn: Turn) -> bool {
    &&& is_history(running, turn.events)
    &&& if running < options.min_concurrency {
        &&& turn.messages.len() <= low_i32(options.max_concurrency - running)
        &&& started(turn.events) <= jobs_of(turn.messages, options.keep_alive).len()
    } else {
        started(turn.events) == 0
    }
}

/// The number of running jobs after some turns.
pub open spec fn running_after_turns(turns: Seq<Turn>) -> usize
    decreases turns.len(),
{
    if turns.len() == 0 {
        0
    } else {
        running_after(running_after_turns(turns.drop_last()), turns.last().events)
    }
}

/// The number of running jobs stays within the maximum, however the jobs that a poll brought
/// are started and running jobs end.
pub proof fn law_concurrency_limit_of_a_turn(options: OptionsView, running: usize, turn: Turn)
    requires
        running <= options.max_concurrency,
        is_turn(options, running, turn),
    ensures
        running_after(running, turn.events) <= options.max_concurrency,
{
    law_no_more_jobs_than_messages(turn.messages, options.keep_alive);
    lemma_running_bounded(running, turn.events);
}

/// A runner never runs more jobs than the maximum, however long it runs. So the number of jobs
/// that are missing from the maximum, which the next poll asks for, is never negative.
pub proof fn law_concurrency_limit(options: OptionsView, turns: Seq<Turn>)
    requires
        forall|i: int|
            0 <= i < turns.len() ==> is_turn(
                options,
                running_after_turns(turns.take(i)),
                #[trigger] turns[i],
            ),
    ensures
        running_after_turns(turns) <= options.max_concurrency,
    decreases turns.len(),
{
    if turns.len() > 0 {
        let earlier = turns.drop_last();
        assert forall|i: int| 0 <= i < earlier.len() implies is_turn(
            options,
            running_after_turns(earlier.take(i)),
            #[trigger] earlier[i],
        ) by {
            assert(earlier[i] == turns[i]);
            assert(earlier.take(i) == turns.take(i));
        }
        law_concurrency_limit(options, earlier);
        assert(turns.take(turns.len() - 1) == earlier);
        assert(turns[turns.len() - 1] == turns.last());
        law_concurrency_limit_of_a_turn(
            options,
            running_after_turns(earlier),
            turns.last(),
        );
    }
}

/// The runner is woken up whenever the number of running jobs falls below the minimum: between
/// a moment with enough jobs and one with too few there is a job whose end wakes it up.
pub proof fn law_woken_below_minimum(options: OptionsView, running: usize, events: Seq<JobEvent>)
    requires
        running >= options.min_concurrency,
        running_after(running, events) < options.min_concurrency,
        is_history(running, events),
    ensures
        exists|i: int|
            0 <= i < events.len() && #[trigger] events[i] is Dropped && wakes(
                options,
                running_after(running, events.take(i)),
            ),
    decreases events.len(),
{
    lemma_history_prefix(running, events);
    let earlier = events.drop_last();
    if running_after(running, earlier) < options.min_concurrency {
        law_woken_below_minimum(options, running, earlier);
        let i = choose|i: int|
            0 <= i < earlier.len() && #[trigger] earlier[i] is Dropped && wakes(
                options,
                running_after(running, earlier.take(i)),
            );
        assert(events[i] == earlier[i]);
        assert(events.take(i) == earlier.take(i));
    } else {
        let i = events.len() - 1;
        assert(events.take(i) == earlier);
        assert(events[i] is Dropped);
    }
}

/// The runner is not woken up for nothing: where the end of a job wakes it up, fewer jobs than
/// the minimum are left.
pub proof fn law_woken_only_below_minimum(options: OptionsView, count: usize)
    requires
        count > 0,
        wakes(options, count),
    ensures
        count_after(count, JobEvent::Dropped) < options.min_concurrency,
{
}

/// How long to sleep, in nanoseconds, before a protection of the given length is renewed.
pub open spec fn pause_nanos(lease: nat) -> nat {
    lease / 2
}

/// The length, in nanoseconds, of the protection that follows one of the given length.
pub open spec fn next_lease_nanos(lease: nat) -> nat {
    2 * lease
}

/// The pause before a renewal is half of the current protection, to the nanosecond: two pauses
/// make up the protection but for a nanosecond at most, so that there is a pause wherever the
/// protection lasts two nanoseconds or more.
pub proof fn law_pause_is_half_the_protection(lease: nat)
    ensures
        2 * pause_nanos(lease) <= lease <= 2 * pause_nanos(lease) + 1,
        lease >= 2 ==> pause_nanos(lease) > 0,
{
}

/// Each protection lasts as long as two of the one before, which is the pause before the
/// renewal that follows it.
pub proof fn law_protection_doubles(lease: nat)
    ensures
        next_lease_nanos(lease) == lease + lease,
        pause_nanos(next_lease_nanos(lease)) == lease,
{
}

/// The length of the protection after some renewals.
pub open spec fn lease_after(lease: nat, renewals: nat) -> nat
    decreases renewals,
{
    if renewals == 0 {
        lease
    } else {
        next_lease_nanos(lease_after(lease, (renewals - 1) as nat))
    }
}

/// The time of a renewal, counted from the start of the job.
pub open spec fn renewal_time(lease: nat, renewals: nat) -> nat
    decreases renewals,
{
    if renewals == 0 {
        0
    } else {
        renewal_time(lease, (renewals - 1) as nat) + pause_nanos(
            lease_after(lease, (renewals - 1) as nat),
        )
    }
}

/// A running job is protected without a gap: each protection is renewed before it ends.
pub proof fn law_protected_without_gap(lease: nat, renewals: nat)
    requires
        lease > 0,
    ensures
        renewal_time(lease, renewals + 1) < renewal_time(lease, renewals) + lease_after(
            lease,
            renewals,
        ),
{
    lemma_lease_positive(lease, renewals);
}

proof fn lemma_lease_positive(lease: nat, renewals: nat)
    requires
        lease > 0,
    ensures
        lease_after(lease, renewals) > 0,
    decreases renewals,
{
    if renewals > 0 {
        lemma_lease_positive(lease, (renewals - 1) as nat);
    }
}

/// What the listener does next.
#[derive(Debug, PartialEq)]
pub enum ListenerStep {
    /// Wait for a notification.
    Receive,
    /// Wake the runner up.
    Notify,
    /// Wait for that long.
    Sleep(Duration),
}

/// The number of errors since the last notification, once one was awaited.
pub open spec fn errors_after(received: bool) -> u32 {
    if received {
        0
    } else {
        1
    }
}

/// Says that the listener waits for a notification, rather than wake the runner up at once.
pub open spec fn listens(errors: u32) -> bool {
    errors == 0
}

/// The listener waits for a notification exactly where there was no error since the last one.
pub proof fn law_listens_without_errors(errors: u32)
    ensures
        listens(errors) <==> errors == 0,
{
}

/// A failure to receive a notification loses no job: the runner is woken up before the next
/// notification is awaited. After a notification the next one is awaited.
pub proof fn law_failure_wakes_the_runner()
    ensures
        !listens(errors_after(false)),
        listens(errors_after(true)),
{
}

/// The task that waits for notifications and wakes the runner up.
#[derive(Debug)]
pub struct Listener {
    num_errors: u32,
}

impl Listener {
    /// The number of errors since the last notification.
    pub closed spec fn errors(self) -> u32 {
        self.num_errors
    }

    /// Starts to listen.
    pub fn new() -> (listener: Self)
        ensures
            listener.errors() == 0,
    {
        Listener { num_errors: 0 }
    }

    /// Begins a turn: after an error the runner is woken up, since notifications may have been
    /// missed; otherwise the next notification is awaited.
    pub fn next(&mut self) -> (step: ListenerStep)
        ensures
            final(self).errors() == 0,
            step is Receive <==> old(self).errors() == 0,
            step is Notify <==> old(self).errors() > 0,
            step == (if listens(old(self).errors()) {
                ListenerStep::Receive
            } else {
                ListenerStep::Notify
            }),
    {
        if self.num_errors > 0 {
            self.num_errors = 0;
            ListenerStep::Notify
        } else {
            ListenerStep::Receive
        }
    }

    /// Ends a turn in which a notification was awaited.
    pub fn received<E>(&mut self, reply: Result<(), E>) -> (step: ListenerStep)
        requires
            listens(old(self).errors()),
        ensures
            final(self).errors() == errors_after(reply is Ok),
            final(self).errors() > 0 <==> reply is Err,
            match reply {
                Ok(_) => step is Notify,
                Err(_) => step is Sleep && nanos(step->Sleep_0) == NANOS_PER_SEC,
            },
    {
        match reply {
            Ok(_) => ListenerStep::Notify,
            Err(_) => {
                assert(1u64 << 0u32 == 1) by (bit_vector);
                let secs: u64 = 1u64 << self.num_errors;
                self.num_errors = self.num_errors + 1;
                ListenerStep::Sleep(from_secs(secs))
            },
        }
    }
}

/// The task that keeps a running job alive.
#[derive(Debug)]
pub struct KeepAlive {
    id: u128,
    interval: Duration,
}

impl KeepAlive {
    /// The job that is kept alive.
    pub closed spec fn job(self) -> u128 {
        self.id
    }

    /// The time for which the job was last protected from being retried.
    pub closed spec fn lease(self) -> Duration {
        self.interval
    }

    /// Starts to keep a job alive, which is protected for the given time so far.
    pub fn new(id: u128, interval: Duration) -> (task: Self)
        ensures
            task.job() == id,
            task.lease() == interval,
    {
        KeepAlive { id, interval }
    }

    /// How long to sleep before the protection is renewed.
    pub fn pause(&self) -> (d: Duration)
        ensures
            nanos(d) == pause_nanos(nanos(self.lease())),
            2 * nanos(d) <= nanos(self.lease()) <= 2 * nanos(d) + 1,
    {
        half(self.interval)
    }

    /// The time for which the job was last protected from being retried.
    pub fn interval(&self) -> (d: Duration)
        ensures
            d == self.lease(),
    {
        self.interval
    }

    /// Doubles the time of protection and asks for it.
    pub fn renew(&mut self) -> (statement: Statement<'static>)
        requires
            next_lease_nanos(nanos(old(self).lease())) < nanos_limit(),
        ensures
            final(self).job() == old(self).job(),
            nanos(final(self).lease()) == next_lease_nanos(nanos(old(self).lease())),
            nanos(final(self).lease()) == 2 * nanos(old(self).lease()),
            statement.is(KEEP_ALIVE, keep_alive_args(final(self).job(), final(self).lease())),
    {
        self.interval = double(self.interval);
        keep_alive_statement(self.id, self.interval)
    }

    /// Tells whether to go on after the renewal was asked for: a failure ends the task.
    pub fn renewed<E>(&self, reply: &Result<(), E>) -> (go_on: bool)
        ensures
            go_on == (reply is Ok),
    {
        match reply {
            Ok(_) => true,
            Err(_) => false,
        }
    }
}

/// The values of the statement that protects a job from being retried.
pub open spec fn keep_alive_args(id: u128, d: Duration) -> Seq<ArgView> {
    seq![ArgView::Uuid(id), ArgView::Interval(d)]
}

/// The job and the time are sent as they are.
pub proof fn law_keep_alive_sends_job_and_time(id: u128, d: Duration, statement: Statement<'_>)
    requires
        statement.is(KEEP_ALIVE, keep_alive_args(id, d)),
    ensures
        statement.args@.len() == 2,
        statement.args@[0] == SqlArg::Uuid(id),
        statement.args@[1] == SqlArg::Interval(d),
{
    let args = keep_alive_args(id, d);
    assert(statement.args@[0]@ == args[0]);
    assert(statement.args@[1]@ == args[1]);
}

/// The statement that protects a job from being retried for the given time.
pub fn keep_alive_statement(id: u128, d: Duration) -> (statement: Statement<'static>)
    ensures
        statement.is(KEEP_ALIVE, keep_alive_args(id, d)),
        statement.args@.len() == 2,
        statement.args@[0] == SqlArg::Uuid(id),
        statement.args@[1] == SqlArg::Interval(d),
{
    Statement {
        sql: KEEP_ALIVE,
        args: vec![SqlArg::Uuid(id), SqlArg::Interval(d)],
    }
}

/// How long to wait, in nanoseconds, before the next look at the number of running jobs: a step,
/// or the time that is left where that is less.
pub open spec fn finish_step_nanos(elapsed: nat, timeout: nat) -> nat
    recommends
        elapsed < timeout,
{
    if timeout - elapsed < FINISH_STEP_MILLIS * 1_000_000 {
        (timeout - elapsed) as nat
    } else {
        (FINISH_STEP_MILLIS * 1_000_000) as nat
    }
}

/// Waiting for running jobs takes no more than the timeout, and goes on until it is reached:
/// each step takes some time, and none goes beyond the timeout. All but the last take ten
/// milliseconds, and the last no more.
pub proof fn law_wait_within_timeout(elapsed: nat, timeout: nat)
    requires
        elapsed < timeout,
    ensures
        elapsed < elapsed + finish_step_nanos(elapsed, timeout) <= timeout,
        finish_step_nanos(elapsed, timeout) <= 10_000_000,
        elapsed + finish_step_nanos(elapsed, timeout) < timeout ==> finish_step_nanos(
            elapsed,
            timeout,
        ) == 10_000_000,
{
}

/// The handle of a running job runner.
pub struct JobRunnerHandle<H> {
    handle: Option<OwnedHandle<H>>,
}

impl<H> JobRunnerHandle<H> {
    /// The task that is still running, if any.
    pub closed spec fn task(self) -> Option<OwnedHandle<H>> {
        self.handle
    }

    /// Takes over the runner's task.
    pub fn new(handle: OwnedHandle<H>) -> (runner: Self)
        ensures
            runner.task() == Some(handle),
    {
        JobRunnerHandle { handle: Some(handle) }
    }

    /// Returns the number of jobs of the handle's runner that are still running.
    pub fn num_running_jobs(&self, runner: &JobRunner) -> (n: usize)
        ensures
            n == runner.running(),
    {
        runner.running_jobs()
    }

    /// Decides whether to go on waiting for the running jobs, once that has taken some time,
    /// and how long to wait before the next look. It is never longer than the time that is left.
    pub fn wait_jobs_finish(
        &self,
        runner: &JobRunner,
        elapsed: Duration,
        timeout: Duration,
    ) -> (step: Option<Duration>)
        ensures
            match step {
                Some(d) => {
                    &&& runner.running() > 0 && nanos(elapsed) < nanos(timeout)
                    &&& nanos(d) == finish_step_nanos(nanos(elapsed), nanos(timeout))
                },
                None => runner.running() == 0 || nanos(elapsed) >= nanos(timeout),
            },
    {
        if self.num_running_jobs(runner) > 0 && shorter(elapsed, timeout) {
            let step = from_millis(FINISH_STEP_MILLIS);
            let left = minus(timeout, elapsed);
            if shorter(left, step) {
                Some(left)
            } else {
                Some(step)
            }
        } else {
            None
        }
    }

    /// Takes out the task that is to be stopped: there is one the first time only.
    pub fn stop(&mut self) -> (handle: Option<OwnedHandle<H>>)
        ensures
            handle == old(self).task(),
            final(self).task() is None,
    {
        self.handle.take()
    }
}

} // verus!
