use vstd::prelude::*;

verus! {

/// Descriptors kept free for everything that is not a file being hashed.
pub const SAFETY_MARGIN: u64 = 100;

/// Limit assumed where the host's own limit cannot be read.
pub const FALLBACK_FD_LIMIT: u64 = 1024;

/// Limit assumed on hosts that impose no per-process descriptor ceiling.
pub const UNBOUNDED_HOST_FD_LIMIT: u64 = 8192;

/// The families of hosts whose descriptor ceiling is found in different ways.
#[derive(Clone, Copy, Debug, PartialEq, Eq, Structural)]
pub enum Platform {
    /// The kernel reports a soft limit on open descriptors.
    Posix,
    /// No strict per-process ceiling exists.
    Windows,
    /// Anything else.
    Other,
}

/// The descriptor ceiling that the admission gate works from.
pub open spec fn spec_fd_limit(platform: Platform, probe: Option<u64>) -> u64 {
    match platform {
        Platform::Posix => match probe {
            Some(limit) => limit,
            None => FALLBACK_FD_LIMIT,
        },
        Platform::Windows => UNBOUNDED_HOST_FD_LIMIT,
        Platform::Other => FALLBACK_FD_LIMIT,
    }
}

/// The number of file operations allowed in flight for a descriptor ceiling.
pub open spec fn spec_budget(fd_limit: u64) -> u64 {
    if fd_limit > SAFETY_MARGIN {
        (fd_limit - SAFETY_MARGIN) as u64
    } else if fd_limit == 0 {
        1
    } else {
        fd_limit
    }
}

/// Picks the descriptor ceiling of a host. `probe` is what the host's own
/// query returned (`None` where it failed); it is read only on POSIX hosts.
pub fn fd_limit_for(platform: Platform, probe: Option<u64>) -> (r: u64)
    ensures
        r == spec_fd_limit(platform, probe),
{
    match platform {
        Platform::Posix => match probe {
            Some(limit) => limit,
            None => FALLBACK_FD_LIMIT,
        },
        Platform::Windows => UNBOUNDED_HOST_FD_LIMIT,
        Platform::Other => FALLBACK_FD_LIMIT,
    }
}

/// The concurrency budget of one asynchronous run: the ceiling less the
/// safety margin, or the ceiling itself where the margin would leave nothing.
/// It is never zero.
pub fn concurrency_budget(fd_limit: u64) -> (r: u64)
    ensures
        r == spec_budget(fd_limit),
        r >= 1,
        fd_limit > SAFETY_MARGIN ==> r == fd_limit - SAFETY_MARGIN,
        1 <= fd_limit <= SAFETY_MARGIN ==> r == fd_limit,
{
    if fd_limit > SAFETY_MARGIN {
        fd_limit - SAFETY_MARGIN
    } else if fd_limit == 0 {
        1
    } else {
        fd_limit
    }
}

/// The budget is at least one for every ceiling, is the ceiling less the
/// margin above the margin, and never exceeds a ceiling of at least one.
pub proof fn lemma_budget_bounds(fd_limit: u64)
    requires
        fd_limit >= 1,
    ensures
        spec_budget(fd_limit) >= 1,
        spec_budget(fd_limit) <= fd_limit,
        fd_limit > SAFETY_MARGIN ==> spec_budget(fd_limit) == fd_limit - SAFETY_MARGIN,
{
}

} // verus!
