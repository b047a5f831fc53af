//! Timeline identity: the (name, user id) pair that names the logical
//! timeline a producer context belongs to.

use vstd::prelude::*;

verus! {

/// The information tracked for a single user timeline: a human-readable
/// name and an opaque 64-bit user id.
#[derive(Clone, Debug)]
pub struct UserTimelineInfo {
    pub name: String,
    pub user_id: u64,
}

impl UserTimelineInfo {
    /// Create a new timeline info structure.
    pub fn new(name: String, user_id: u64) -> (r: Self)
        ensures
            r.name@ == name@,
            r.user_id == user_id,
    {
        Self { name, user_id }
    }

    /// The name of the timeline.
    pub fn name(&self) -> (r: &str)
        ensures
            r@ == self.name@,
    {
        self.name.as_str()
    }

    /// The opaque user id of the timeline.
    pub fn user_id(&self) -> (r: u64)
        ensures
            r == self.user_id,
    {
        self.user_id
    }
}

/// A failure at initialization.
#[derive(Debug)]
pub enum InitError {
    /// No auth token was provided.
    AuthRequired,
    /// Auth was provided but the session refused it.
    AuthFailed(crate::ingest::ConnectError),
    /// Initialization was attempted while an earlier initialization
    /// is live.
    InitializedTwice,
    /// Any other failure, carrying its detail text.
    UnexpectedFailure(String),
}

/// The once-only initialization claim. The process holds one such
/// value; the first claim succeeds and every later claim is refused.
pub struct InitGuard {
    initialized: bool,
}

impl InitGuard {
    /// Whether initialization has been claimed.
    pub closed spec fn spec_initialized(&self) -> bool {
        self.initialized
    }

    pub fn new() -> (r: Self)
        ensures
            !r.spec_initialized(),
    {
        InitGuard { initialized: false }
    }

    /// Claim initialization: succeeds exactly on the first claim, and
    /// every later claim fails with `InitializedTwice`.
    pub fn try_claim(&mut self) -> (r: Result<(), InitError>)
        ensures
            final(self).spec_initialized(),
            old(self).spec_initialized() ==> (r matches Err(e) && e is InitializedTwice),
            !old(self).spec_initialized() ==> r is Ok,
    {
        if self.initialized {
            Err(InitError::InitializedTwice)
        } else {
            self.initialized = true;
            Ok(())
        }
    }
}

/// The one-shot warning latch: the first failure warns, every later
/// one is silent.
///
/// The caller passes the latch's current value and stores the new one;
/// the result says whether to print the warning.
pub fn warn_once(latch: &mut bool) -> (warn: bool)
    ensures
        *final(latch),
        warn == !*old(latch),
{
    let warn = !*latch;
    *latch = true;
    warn
}

} // verus!
