//! The functions behind a named job.
use vstd::prelude::*;

verus! {

/// A function that sets a job's default options.
pub struct BuildFn<F>(pub F);

/// A function that runs a job.
pub struct RunFn<F>(pub F);

} // verus!
