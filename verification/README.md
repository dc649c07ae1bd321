# sqlxmq

A job queue on top of a PostgreSQL database, with its client's decisions verified by Verus.

`src/` is the library. It holds everything that can be decided without talking to anyone:

- `spawn`, `checkpoint`: describing a job or the saved state of one, and the statement that
  sends it.
- `statement`: the statements and the values bound to them.
- `poll`: what is done with the rows of a poll; which are deleted, which are run, and how long
  to wait.
- `options`, `runner`: when to poll, for how many jobs, how long to wait after a failure, when
  the runner is woken up, and how running jobs are kept alive.
- `current_job`: completing and saving a job, alone or together with a transaction.
- `registry`: which function runs a job.
- `job_attr`: what the arguments of the attribute that marks a job stand for.
- `payload`, `duration`, `decimal`, `utils`, `hidden`: JSON payloads, lengths of time, numbers
  as text, and small wrappers.
- `stress`: where the jobs of a load test go, and what their durations amount to.

Identifiers are the 128 bits of a UUID. Loops that wait for the database or the clock appear as
state machines: a method says what to do next, and another takes the outcome.

Functions named `law_*` state what holds of the library as a whole.

`app/` is the crate `sqlxmq_app` around the library: it executes the statements, sleeps, spawns
tasks, turns the compiler's tokens into attribute arguments, and holds a load test and an
example of a graceful shutdown.

The database is expected to hold the tables and procedures whose names begin with `mq`.

What is taken on trust: the parts of std's `Duration`, the random identifiers of `uuid`, and the
reading and writing of documents by `serde_json`. Each such item says in its comment what is
claimed.
