//! Finding the function that runs a job.
use crate::hidden::{BuildFn, RunFn};
use crate::spawn::{is_default_task, is_random_id, same_options, TaskBuilder};
use crate::utils::{same_text, Opaque};
use vstd::prelude::*;

verus! {

/// Error returned when a job is received whose name is not in the registry.
#[derive(Debug)]
pub struct UnknownJobError;

impl UnknownJobError {
    /// The error's message.
    pub fn to_string(&self) -> (text: String)
        ensures
            text@ == "Unknown job"@,
    {
        "Unknown job".to_owned()
    }
}

/// A named job: the function that sets its default options and the function that runs it.
pub struct NamedJob<B, R> {
    name: &'static str,
    build_fn: Opaque<BuildFn<B>>,
    run_fn: Opaque<RunFn<R>>,
}

/// Says that a function which sets a job's options may be called on the given job.
pub open spec fn can_build<B: for<'b> Fn(&'b mut TaskBuilder<'static>) -> &'b mut TaskBuilder<
    'static,
>>(build: B, start: TaskBuilder<'static>) -> bool {
    forall|t: &mut TaskBuilder<'static>| *t == start ==> #[trigger] call_requires(build, (t,))
}

impl<B, R> NamedJob<B, R> {
    /// The job's name.
    pub closed spec fn name_view(self) -> Seq<char> {
        self.name@
    }

    /// The function that sets the job's default options.
    pub closed spec fn build_view(self) -> B {
        self.build_fn.0.0
    }

    /// The function that runs the job.
    pub closed spec fn run_view(self) -> R {
        self.run_fn.0.0
    }

    /// Names a job.
    pub fn new_internal(name: &'static str, build_fn: BuildFn<B>, run_fn: RunFn<R>) -> (job: Self)
        ensures
            job.name_view() == name@,
            job.build_view() == build_fn.0,
            job.run_view() == run_fn.0,
    {
        NamedJob { name, build_fn: Opaque(build_fn), run_fn: Opaque(run_fn) }
    }

    /// Returns the name of this job.
    pub fn name(&self) -> (name: &'static str)
        ensures
            name@ == self.name_view(),
    {
        self.name
    }

    /// Returns the function that runs this job.
    pub fn run_fn(&self) -> (run: &R)
        ensures
            *run == self.run_view(),
    {
        &self.run_fn.0.0
    }
}

impl<
    B: for<'b> Fn(&'b mut TaskBuilder<'static>) -> &'b mut TaskBuilder<'static>,
    R,
> NamedJob<B, R> {
    /// Begins a job with the name and the default options of this one, and a new identifier.
    pub fn builder(&self) -> (task: TaskBuilder<'static>)
        requires
            forall|start: TaskBuilder<'static>|
                is_default_task(start@) && start@.name == self.name_view() ==> #[trigger] can_build(
                    self.build_view(),
                    start,
                ),
        ensures
            exists|t: &mut TaskBuilder<'static>, r: &mut TaskBuilder<'static>|
                {
                    &&& is_random_id(t@.id) && is_default_task(t@) && t@.name == self.name_view()
                    &&& #[trigger] call_ensures(self.build_view(), (t,), r)
                    &&& *final(r) == *r
                    &&& *final(t) == task
                },
    {
        let mut builder = TaskBuilder::new(self.name);
        let ghost start = builder;
        assert(can_build(self.build_view(), start));
        (self.build_fn.0.0)(&mut builder);
        builder
    }

    /// Begins a job with the name and the default options of this one, and the given identifier.
    pub fn builder_with_id(&self, id: u128) -> (task: TaskBuilder<'static>)
        requires
            forall|start: TaskBuilder<'static>|
                is_default_task(start@) && start@.name == self.name_view() ==> #[trigger] can_build(
                    self.build_view(),
                    start,
                ),
        ensures
            exists|t: &mut TaskBuilder<'static>, r: &mut TaskBuilder<'static>|
                {
                    &&& t@.id == id && is_default_task(t@) && t@.name == self.name_view()
                    &&& #[trigger] call_ensures(self.build_view(), (t,), r)
                    &&& *final(r) == *r
                    &&& *final(t) == task
                },
    {
        let mut builder = TaskBuilder::new_with_id(id, self.name);
        let ghost start = builder;
        assert(can_build(self.build_view(), start));
        (self.build_fn.0.0)(&mut builder);
        builder
    }
}

/// A job begun with a given identifier has that identifier, the job's name, and the same options
/// as one begun with a new identifier. That is so wherever the function that sets the default
/// options makes the same of the same options, whatever the identifier, and leaves identifier
/// and name alone. `task` is what [`NamedJob::builder`] returned, and `other` what
/// [`NamedJob::builder_with_id`] returned.
pub proof fn law_builders_agree<
    B: for<'b> Fn(&'b mut TaskBuilder<'static>) -> &'b mut TaskBuilder<'static>,
    R,
>(job: NamedJob<B, R>, id: u128, task: TaskBuilder<'static>, other: TaskBuilder<'static>)
    requires
        forall|t: &mut TaskBuilder<'static>, r: &mut TaskBuilder<'static>|
            #[trigger] call_ensures(job.build_view(), (t,), r) && *final(r) == *r ==> final(t)@.id
                == t@.id && final(t)@.name == t@.name,
        forall|
            t: &mut TaskBuilder<'static>,
            r: &mut TaskBuilder<'static>,
            u: &mut TaskBuilder<'static>,
            s: &mut TaskBuilder<'static>,
        |
            #[trigger] call_ensures(job.build_view(), (t,), r) && *final(r) == *r
                && #[trigger] call_ensures(job.build_view(), (u,), s) && *final(s) == *s
                && t@.name == u@.name && same_options(t@, u@) ==> same_options(
                final(t)@,
                final(u)@,
            ),
        exists|t: &mut TaskBuilder<'static>, r: &mut TaskBuilder<'static>|
            {
                &&& is_random_id(t@.id) && is_default_task(t@) && t@.name == job.name_view()
                &&& #[trigger] call_ensures(job.build_view(), (t,), r)
                &&& *final(r) == *r
                &&& *final(t) == task
            },
        exists|t: &mut TaskBuilder<'static>, r: &mut TaskBuilder<'static>|
            {
                &&& t@.id == id && is_default_task(t@) && t@.name == job.name_view()
                &&& #[trigger] call_ensures(job.build_view(), (t,), r)
                &&& *final(r) == *r
                &&& *final(t) == other
            },
    ensures
        is_random_id(task@.id),
        task@.name == job.name_view(),
        other@.id == id,
        other@.name == job.name_view(),
        same_options(task@, other@),
{
}

/// Says that no two of the jobs have the same name.
pub open spec fn names_distinct<B, R>(jobs: Seq<&'static NamedJob<B, R>>) -> bool {
    forall|i: int, j: int|
        0 <= i < j < jobs.len() ==> (#[trigger] jobs[i]).name_view() != (
        #[trigger] jobs[j]).name_view()
}

/// Says that a job is the one with the given name, or that there is none.
pub open spec fn is_resolved<B, R>(
    jobs: Seq<&'static NamedJob<B, R>>,
    name: Seq<char>,
    job: Option<&'static NamedJob<B, R>>,
) -> bool {
    match job {
        Some(found) => found.name_view() == name && jobs.contains(found),
        None => forall|i: int| 0 <= i < jobs.len() ==> (#[trigger] jobs[i]).name_view() != name,
    }
}

/// Looks for a job with the same name as an earlier one: the first such job, by its place.
pub fn find_duplicate<B, R>(jobs: &[&'static NamedJob<B, R>]) -> (place: Option<usize>)
    ensures
        match place {
            Some(k) => {
                &&& k < jobs@.len()
                &&& names_distinct(jobs@.take(k as int))
                &&& exists|i: int|
                    0 <= i < k && (#[trigger] jobs@[i]).name_view() == jobs@[k as int].name_view()
            },
            None => names_distinct(jobs@),
        },
{
    for k in 0..jobs.len()
        invariant
            names_distinct(jobs@.take(k as int)),
    {
        for i in 0..k
            invariant
                k < jobs@.len(),
                names_distinct(jobs@.take(k as int)),
                forall|j: int|
                    0 <= j < i ==> (#[trigger] jobs@[j]).name_view()
                        != jobs@[k as int].name_view(),
        {
            if same_text(jobs[i].name(), jobs[k].name()) {
                return Some(k);
            }
        }
        assert(names_distinct(jobs@.take(k + 1))) by {
            let next = jobs@.take(k + 1);
            let seen = jobs@.take(k as int);
            assert forall|i: int, j: int| 0 <= i < j < next.len() implies (
            #[trigger] next[i]).name_view() != (#[trigger] next[j]).name_view() by {
                if j < k {
                    assert(next[i] == seen[i] && next[j] == seen[j]);
                } else {
                    assert(next[i] == jobs@[i] && next[j] == jobs@[k as int]);
                }
            }
        }
    }
    assert(jobs@.take(jobs@.len() as int) == jobs@);
    None
}

/// What became of a job that was run.
#[derive(Debug)]
pub enum JobOutcome<E> {
    /// The job is done.
    Completed,
    /// The job failed: the error goes to the registry's error handler.
    Failed(E),
}

/// The jobs that can be run, by their names.
pub struct JobRegistry<B: 'static, R: 'static> {
    jobs: Vec<&'static NamedJob<B, R>>,
}

impl<B: 'static, R: 'static> JobRegistry<B, R> {
    /// No name is registered twice.
    #[verifier::type_invariant]
    spec fn wf(self) -> bool {
        names_distinct(self.jobs@)
    }

    /// The registered jobs.
    pub closed spec fn jobs_view(self) -> Seq<&'static NamedJob<B, R>> {
        self.jobs@
    }

    /// Registers the given jobs.
    pub fn new(jobs: &[&'static NamedJob<B, R>]) -> (registry: Self)
        requires
            names_distinct(jobs@),
        ensures
            registry.jobs_view() == jobs@,
    {
        let mut registered: Vec<&'static NamedJob<B, R>> = Vec::new();
        for i in 0..jobs.len()
            invariant
                registered@ == jobs@.take(i as int),
        {
            registered.push(jobs[i]);
            assert(registered@ == jobs@.take(i + 1));
        }
        assert(registered@ == jobs@);
        JobRegistry { jobs: registered }
    }

    /// Looks up a job by its name.
    pub fn resolve_job(&self, name: &str) -> (job: Option<&'static NamedJob<B, R>>)
        ensures
            is_resolved(self.jobs_view(), name@, job),
            names_distinct(self.jobs_view()),
            match job {
                Some(found) => self.jobs_view().contains(found) && found.name_view() == name@,
                None => forall|i: int|
                    0 <= i < self.jobs_view().len() ==> (
                    #[trigger] self.jobs_view()[i]).name_view() != name@,
            },
    {
        proof {
            use_type_invariant(self);
        }
        for i in 0..self.jobs.len()
            invariant
                names_distinct(self.jobs@),
                forall|j: int| 0 <= j < i ==> (#[trigger] self.jobs@[j]).name_view() != name@,
        {
            let job = self.jobs[i];
            if same_text(job.name(), name) {
                assert(self.jobs@[i as int] == job);
                return Some(job);
            }
        }
        None
    }

    /// Decides what runs a job that was received: the registered job of that name, or nothing,
    /// in which case the error goes to the error handler.
    pub fn dispatch(&self, name: &str) -> (job: Result<&'static NamedJob<B, R>, UnknownJobError>)
        ensures
            match job {
                Ok(found) => is_resolved(self.jobs_view(), name@, Some(found)),
                Err(_) => is_resolved(self.jobs_view(), name@, None),
            },
            match job {
                Ok(found) => self.jobs_view().contains(found) && found.name_view() == name@,
                Err(_) => forall|i: int|
                    0 <= i < self.jobs_view().len() ==> (
                    #[trigger] self.jobs_view()[i]).name_view() != name@,
            },
    {
        match self.resolve_job(name) {
            Some(job) => Ok(job),
            None => Err(UnknownJobError),
        }
    }

    /// Decides what to report of a job that was run.
    pub fn spawn_internal<E>(result: Result<(), E>) -> (outcome: JobOutcome<E>)
        ensures
            outcome == (match result {
                Ok(_) => JobOutcome::Completed,
                Err(e) => JobOutcome::Failed(e),
            }),
    {
        match result {
            Ok(_) => JobOutcome::Completed,
            Err(e) => JobOutcome::Failed(e),
        }
    }
}

/// A name leads to a registered job of that very name, and to none where there is no such job.
pub proof fn law_only_the_named_job_is_found<B, R>(
    jobs: Seq<&'static NamedJob<B, R>>,
    name: Seq<char>,
    found: Option<&'static NamedJob<B, R>>,
)
    requires
        is_resolved(jobs, name, found),
    ensures
        found is Some ==> jobs.contains(found->0) && found->0.name_view() == name,
        found is Some <==> exists|i: int|
            0 <= i < jobs.len() && (#[trigger] jobs[i]).name_view() == name,
{
}

/// Names are distinct exactly where no job has the name of another.
pub proof fn law_distinct_names<B, R>(jobs: Seq<&'static NamedJob<B, R>>)
    ensures
        names_distinct(jobs) <==> forall|i: int, j: int|
            0 <= i < jobs.len() && 0 <= j < jobs.len() && (#[trigger] jobs[i]).name_view() == (
            #[trigger] jobs[j]).name_view() ==> i == j,
{
}

/// A name leads to one job at most, and every registered job is found under its own name.
pub proof fn law_every_job_is_found<B, R>(
    jobs: Seq<&'static NamedJob<B, R>>,
    i: int,
    found: Option<&'static NamedJob<B, R>>,
)
    requires
        names_distinct(jobs),
        0 <= i < jobs.len(),
        is_resolved(jobs, jobs[i].name_view(), found),
    ensures
        found == Some(jobs[i]),
{
    if let Some(job) = found {
        let j = choose|j: int| 0 <= j < jobs.len() && jobs[j] == job;
        assert(jobs[i].name_view() == jobs[j].name_view());
    }
}

} // verus!
