//! How many workers the pool runs.
use vstd::prelude::*;

verus! {

/// Workers started for each logical CPU: most of a worker's time goes to
/// waiting on the disk.
pub const WORKERS_PER_CPU: usize = 5;

/// Relies on `num_cpus::get`: the number of logical CPUs this process may
/// use, which its documentation promises to be at least one.
#[verifier::external_body]
fn cpu_count() -> (r: usize)
    ensures
        r >= 1,
{
    num_cpus::get()
}

/// The number of workers for `cpus` logical CPUs: `WORKERS_PER_CPU` each,
/// held at the largest `usize`.
pub open spec fn workers_for(cpus: nat) -> nat {
    if cpus * WORKERS_PER_CPU <= usize::MAX {
        cpus * (WORKERS_PER_CPU as nat)
    } else {
        usize::MAX as nat
    }
}

/// The number of workers for `cpus` logical CPUs.
pub fn worker_count(cpus: usize) -> (r: usize)
    ensures
        r == workers_for(cpus as nat),
{
    if cpus > usize::MAX / WORKERS_PER_CPU {
        usize::MAX
    } else {
        cpus * WORKERS_PER_CPU
    }
}

/// The number of workers for the CPUs of this machine: proportional to
/// however many it reports, and at least `WORKERS_PER_CPU`.
pub fn default_capacity() -> (r: usize)
    ensures
        r >= WORKERS_PER_CPU,
        exists|c: nat| c >= 1 && r == #[trigger] workers_for(c),
{
    let c = cpu_count();
    let r = worker_count(c);
    assert(r == workers_for(c as nat));
    r
}

} // verus!
