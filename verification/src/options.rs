//! How a job runner is set up.
use crate::statement::{opt_texts, texts, ArgView, SqlArg, Statement, POLL, POLL_ONE};
use vstd::prelude::*;

verus! {

/// The options of a job runner.
#[derive(Debug)]
pub struct JobRunnerOptions {
    min_concurrency: usize,
    max_concurrency: usize,
    channel_names: Option<Vec<String>>,
    keep_alive: bool,
}

/// What a [`JobRunnerOptions`] stands for.
pub struct OptionsView {
    pub min_concurrency: usize,
    pub max_concurrency: usize,
    pub channel_names: Option<Seq<Seq<char>>>,
    pub keep_alive: bool,
}

/// The texts behind a sequence of string slices.
pub open spec fn slice_texts(v: Seq<&str>) -> Seq<Seq<char>> {
    v.map_values(|s: &str| s@)
}

/// The notification channels for the given channel names: each name behind a prefix, or the
/// channel that hears of every job where no names are given.
pub open spec fn listen_names(channel_names: Option<Seq<Seq<char>>>) -> Seq<Seq<char>> {
    match channel_names {
        Some(names) => names.map_values(|name: Seq<char>| "mq_"@ + name),
        None => seq!["mq"@],
    }
}

impl View for JobRunnerOptions {
    type V = OptionsView;

    closed spec fn view(&self) -> OptionsView {
        OptionsView {
            min_concurrency: self.min_concurrency,
            max_concurrency: self.max_concurrency,
            channel_names: opt_texts(self.channel_names),
            keep_alive: self.keep_alive,
        }
    }
}

/// Copies an optional list of texts.
fn copy_texts(v: &Option<Vec<String>>) -> (copy: Option<Vec<String>>)
    ensures
        opt_texts(copy) == opt_texts(*v),
{
    match v {
        Some(names) => {
            let mut copy: Vec<String> = Vec::new();
            for i in 0..names.len()
                invariant
                    texts(copy@) == texts(names@.take(i as int)),
            {
                let ghost before = copy@;
                copy.push(names[i].clone());
                assert(texts(copy@) == texts(before).push(copy@.last()@));
                assert(texts(names@.take(i + 1)) == texts(names@.take(i as int)).push(
                    names@[i as int]@,
                ));
            }
            assert(names@.take(names@.len() as int) == names@);
            Some(copy)
        },
        None => None,
    }
}

impl Clone for JobRunnerOptions {
    fn clone(&self) -> (options: Self)
        ensures
            options@ == self@,
    {
        JobRunnerOptions {
            min_concurrency: self.min_concurrency,
            max_concurrency: self.max_concurrency,
            channel_names: copy_texts(&self.channel_names),
            keep_alive: self.keep_alive,
        }
    }
}

impl JobRunnerOptions {
    /// Begins a job runner: it keeps 16 to 32 jobs running, subscribes to all channels and
    /// keeps its jobs alive.
    pub fn new() -> (options: Self)
        ensures
            options@ == (OptionsView {
                min_concurrency: 16,
                max_concurrency: 32,
                channel_names: None,
                keep_alive: true,
            }),
    {
        JobRunnerOptions {
            min_concurrency: 16,
            max_concurrency: 32,
            channel_names: None,
            keep_alive: true,
        }
    }

    /// Sets the concurrency limits. When the number of running jobs falls below the minimum,
    /// the runner polls for more, up to the maximum.
    pub fn set_concurrency(&mut self, min_concurrency: usize, max_concurrency: usize) -> (options:
        &mut Self)
        ensures
            options@ == (OptionsView { min_concurrency, max_concurrency, ..old(self)@ }),
            *final(self) == *final(options),
    {
        self.min_concurrency = min_concurrency;
        self.max_concurrency = max_concurrency;
        self
    }

    /// Sets the names of the channels to subscribe to.
    pub fn set_channel_names<'a>(&'a mut self, channel_names: &[&str]) -> (options: &'a mut Self)
        ensures
            options@ == (OptionsView {
                channel_names: Some(slice_texts(channel_names@)),
                ..old(self)@
            }),
            options@.channel_names is Some,
            options@.channel_names->0.len() == channel_names@.len(),
            forall|i: int|
                0 <= i < channel_names@.len() ==> #[trigger] options@.channel_names->0[i]
                    == channel_names@[i]@,
            *final(self) == *final(options),
    {
        let mut names: Vec<String> = Vec::new();
        for i in 0..channel_names.len()
            invariant
                texts(names@) == slice_texts(channel_names@.take(i as int)),
        {
            let ghost before = names@;
            names.push(channel_names[i].to_owned());
            assert(texts(names@) == texts(before).push(names@.last()@));
            assert(slice_texts(channel_names@.take(i + 1)) == slice_texts(
                channel_names@.take(i as int),
            ).push(channel_names@[i as int]@));
        }
        assert(channel_names@.take(channel_names@.len() as int) == channel_names@);
        self.channel_names = Some(names);
        self
    }

    /// Chooses whether jobs are kept alive whilst they are running.
    pub fn set_keep_alive(&mut self, keep_alive: bool) -> (options: &mut Self)
        ensures
            options@ == (OptionsView { keep_alive, ..old(self)@ }),
            *final(self) == *final(options),
    {
        self.keep_alive = keep_alive;
        self
    }

    /// The number of running jobs below which the runner polls for more.
    pub fn min_concurrency(&self) -> (n: usize)
        ensures
            n == self@.min_concurrency,
    {
        self.min_concurrency
    }

    /// The number of running jobs up to which the runner polls.
    pub fn max_concurrency(&self) -> (n: usize)
        ensures
            n == self@.max_concurrency,
    {
        self.max_concurrency
    }

    /// Tells whether jobs are kept alive whilst they are running.
    pub fn keep_alive(&self) -> (b: bool)
        ensures
            b == self@.keep_alive,
    {
        self.keep_alive
    }

    /// The notification channels that the runner listens to.
    pub fn listen_channels(&self) -> (channels: Vec<String>)
        ensures
            texts(channels@) == listen_names(self@.channel_names),
            match self@.channel_names {
                Some(names) => {
                    &&& channels@.len() == names.len()
                    &&& forall|i: int|
                        0 <= i < names.len() ==> (#[trigger] channels@[i])@ == "mq_"@ + names[i]
                },
                None => channels@.len() == 1 && channels@[0]@ == "mq"@,
            },
    {
        let mut channels: Vec<String> = Vec::new();
        match &self.channel_names {
            Some(names) => {
                let ghost wanted = listen_names(Some(texts(names@)));
                for i in 0..names.len()
                    invariant
                        wanted == listen_names(Some(texts(names@))),
                        texts(channels@) == wanted.take(i as int),
                {
                    let ghost before = channels@;
                    channels.push("mq_".to_owned().concat(names[i].as_str()));
                    assert(texts(channels@) == texts(before).push(channels@.last()@));
                    assert(wanted.take(i + 1) == wanted.take(i as int).push(wanted[i as int]));
                }
                assert(wanted.take(names@.len() as int) == wanted);
            },
            None => {
                channels.push("mq".to_owned());
                assert(texts(channels@) == seq!["mq"@]);
            },
        }
        proof {
            law_one_channel_for_each_name(self@.channel_names, channels@);
        }
        channels
    }

    /// The statement that fetches up to the given number of jobs.
    pub fn poll_statement(&self, batch_size: i32) -> (statement: Statement<'_>)
        ensures
            statement.is(
                POLL,
                seq![ArgView::OptTexts(self@.channel_names), ArgView::Int(batch_size as int)],
            ),
    {
        let args = vec![SqlArg::OptTexts(&self.channel_names), SqlArg::Int(batch_size)];
        Statement { sql: POLL, args }
    }

    /// Begins the run of a single job: the statement that fetches it.
    pub fn test_one(&self) -> (statement: Statement<'_>)
        ensures
            statement.is(POLL_ONE, seq![ArgView::OptTexts(self@.channel_names)]),
    {
        Statement {
            sql: POLL_ONE,
            args: vec![SqlArg::OptTexts(&self.channel_names)],
        }
    }
}

/// A runner listens to one notification channel for each of its channel names, in their order,
/// or to a single one where it has no names.
pub proof fn law_one_channel_for_each_name(
    channel_names: Option<Seq<Seq<char>>>,
    channels: Seq<String>,
)
    requires
        texts(channels) == listen_names(channel_names),
    ensures
        match channel_names {
            Some(names) => {
                &&& channels.len() == names.len()
                &&& forall|i: int|
                    0 <= i < names.len() ==> (#[trigger] channels[i])@ == "mq_"@ + names[i]
            },
            None => channels.len() == 1 && channels[0]@ == "mq"@,
        },
{
    let heard = texts(channels);
    assert(heard.len() == channels.len());
    assert forall|i: int| 0 <= i < channels.len() implies (#[trigger] channels[i])@ == heard[i] by {}
}

/// Different channel names are listened to on different notification channels, and none of
/// them on the one that hears of every job.
pub proof fn law_listen_names_distinct(a: Seq<char>, b: Seq<char>)
    ensures
        "mq_"@ + a == "mq_"@ + b ==> a == b,
        "mq_"@ + a != "mq"@,
{
    reveal_strlit("mq_");
    reveal_strlit("mq");
    if "mq_"@ + a == "mq_"@ + b {
        assert(a == ("mq_"@ + a).skip(3));
        assert(b == ("mq_"@ + b).skip(3));
    }
    assert(("mq_"@ + a).len() >= 3);
}

} // verus!
