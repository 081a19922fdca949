//! The shared-memory allocation state machine.
//!
//! The goal is a writable file descriptor backed by anonymous shared
//! memory of a requested size, with no name left behind in the
//! shared-memory namespace. The OS calls (exclusive creation, unlink,
//! truncate) happen outside this crate; the machine here decides, step
//! by step, what the allocating process must do next: which name to try,
//! whether a failed attempt is a collision to retry (at most 100
//! attempts in all) or a fatal OS error, and what size to truncate to.

use vstd::prelude::*;
use vstd::string::StringExecFns;

use crate::errors::{ResourceAllocationError, WdError};

verus! {

/// How many exclusive-creation attempts may be made in all.
pub const SHM_RETRY_BUDGET: u32 = 100;

/// The fixed tag every shared-memory name starts with.
pub const SHM_NAME_PREFIX: &'static str = "/wl_shm-";

/// Relies on rand's `Alphanumeric::sample_string`: a string of exactly
/// `len` characters, each drawn from a-z, A-Z, 0-9 (so ASCII), using the
/// thread-local generator. Nothing is assumed about which characters
/// come out.
#[verifier::external_body]
fn random_alnum(len: usize) -> (r: String)
    ensures
        r@.len() == len,
        r.is_ascii(),
{
    rand::distributions::DistString::sample_string(
        &rand::distributions::Alphanumeric,
        &mut rand::thread_rng(),
        len,
    )
}

/// A fresh random suffix for one shared-memory creation attempt:
/// six alphanumeric characters.
pub fn randname() -> (r: String)
    ensures
        r@.len() == 6,
        r.is_ascii(),
{
    random_alnum(6)
}

/// How one exclusive-creation attempt went, as reported by the OS.
#[derive(Clone, Copy, Debug, PartialEq, Eq, Structural)]
pub enum ShmAttemptOutcome {
    /// The name was fresh and the file was created.
    Created,
    /// The name already existed.
    Collision,
    /// Any other OS error, by its errno.
    OsFailure(i32),
}

/// What the allocating process must do after an attempt.
#[derive(Clone, Copy, Debug, PartialEq, Eq, Structural)]
pub enum ShmDirective {
    /// Unlink the name at once, truncate the file to the requested
    /// size, and hand the descriptor out.
    UnlinkTruncateReturn,
    /// Draw a fresh suffix and try again.
    Retry,
    /// Give up with this error.
    Abort(WdError),
}

/// The allocation in progress: the name tried so far (it grows by one
/// random suffix per attempt), the remaining attempt budget, and the
/// requested byte size.
pub struct ShmAllocator {
    name: String,
    attempts_left: u32,
    size: u64,
}

impl ShmAllocator {
    /// The name the next attempt will extend.
    pub closed spec fn spec_name(&self) -> Seq<char> {
        self.name@
    }

    /// How many attempts may still be made.
    pub closed spec fn spec_attempts_left(&self) -> u32 {
        self.attempts_left
    }

    /// The byte size the descriptor must be truncated to.
    pub closed spec fn spec_size(&self) -> u64 {
        self.size
    }

    /// The name always carries the fixed prefix.
    pub open spec fn wf(&self) -> bool {
        &&& self.spec_name().len() >= "/wl_shm-"@.len()
        &&& self.spec_name().subrange(0, "/wl_shm-"@.len() as int) == "/wl_shm-"@
        &&& self.spec_attempts_left() <= 100
    }

    /// Begin an allocation of `size` bytes: the fixed prefix, the full
    /// attempt budget.
    pub fn new(size: u64) -> (r: ShmAllocator)
        ensures
            r.wf(),
            r.spec_name() == "/wl_shm-"@,
            r.spec_attempts_left() == 100,
            r.spec_size() == size,
    {
        let r = ShmAllocator {
            name: SHM_NAME_PREFIX.to_owned(),
            attempts_left: SHM_RETRY_BUDGET,
            size,
        };
        proof {
            assert(r.spec_name().subrange(0, "/wl_shm-"@.len() as int) =~= "/wl_shm-"@);
        }
        r
    }

    /// Begin the next attempt: spend one unit of the budget and extend
    /// the name by the given suffix, yielding the name to try. Once the
    /// budget is spent, every further collision surfaces as the
    /// exhausted-retries error.
    pub fn begin_attempt(&mut self, suffix: String) -> (r: Result<String, WdError>)
        requires
            old(self).wf(),
        ensures
            final(self).wf(),
            final(self).spec_size() == old(self).spec_size(),
            match r {
                Ok(name) => {
                    &&& old(self).spec_attempts_left() > 0
                    &&& name@ == old(self).spec_name() + suffix@
                    &&& final(self).spec_name() == old(self).spec_name() + suffix@
                    &&& final(self).spec_attempts_left() == old(self).spec_attempts_left() - 1
                },
                Err(e) => {
                    &&& old(self).spec_attempts_left() == 0
                    &&& e == WdError::ResourceAllocation(ResourceAllocationError::RetriesExhausted)
                    &&& *final(self) == *old(self)
                },
            },
    {
        if self.attempts_left == 0 {
            return Err(
                WdError::ResourceAllocation(ResourceAllocationError::RetriesExhausted),
            );
        }
        self.attempts_left = self.attempts_left - 1;
        self.name.append(suffix.as_str());
        let name = self.name.clone();
        proof {
            assert(self.spec_name().subrange(0, "/wl_shm-"@.len() as int) =~= old(
                self,
            ).spec_name().subrange(0, "/wl_shm-"@.len() as int));
        }
        Ok(name)
    }

    /// Decide what follows one attempt: a created file is unlinked,
    /// truncated to the requested size and handed out; a name collision
    /// is retried; any other OS error aborts at once.
    pub fn on_outcome(&self, outcome: ShmAttemptOutcome) -> (r: ShmDirective)
        ensures
            match outcome {
                ShmAttemptOutcome::Created => r == ShmDirective::UnlinkTruncateReturn,
                ShmAttemptOutcome::Collision => r == ShmDirective::Retry,
                ShmAttemptOutcome::OsFailure(errno) => r == ShmDirective::Abort(
                    WdError::ResourceAllocation(ResourceAllocationError::OsError(errno)),
                ),
            },
    {
        match outcome {
            ShmAttemptOutcome::Created => ShmDirective::UnlinkTruncateReturn,
            ShmAttemptOutcome::Collision => ShmDirective::Retry,
            ShmAttemptOutcome::OsFailure(errno) => ShmDirective::Abort(
                WdError::ResourceAllocation(ResourceAllocationError::OsError(errno)),
            ),
        }
    }

    /// The exact byte size the created file must be truncated to.
    pub fn truncate_size(&self) -> (r: u64)
        ensures
            r == self.spec_size(),
    {
        self.size
    }

    /// Judge the truncate step: failure aborts with the OS error.
    pub fn on_truncate(&self, ok: bool, errno: i32) -> (r: Result<(), WdError>)
        ensures
            ok ==> r == Ok::<(), WdError>(()),
            !ok ==> r == Err::<(), WdError>(
                WdError::ResourceAllocation(ResourceAllocationError::OsError(errno)),
            ),
    {
        if ok {
            Ok(())
        } else {
            Err(WdError::ResourceAllocation(ResourceAllocationError::OsError(errno)))
        }
    }
}

} // verus!
