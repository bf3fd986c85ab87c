//! Per-field synchronization policy: which transfer directions a paired
//! buffer takes part in.

use vstd::prelude::*;

verus! {

/// Synchronization directives for one field: `push` opts the field into
/// host-to-device transfers, `pull` into device-to-host transfers.
#[derive(Clone, Copy, PartialEq, Eq, Structural, Debug)]
pub struct SyncPolicy {
    pub push: bool,
    pub pull: bool,
}

/// Rejected policy configurations.
#[derive(Clone, Copy, PartialEq, Eq, Structural, Debug)]
pub enum PolicyError {
    /// Neither direction was requested; such a field would never exchange
    /// data with the device and must not be declared as a paired buffer.
    NeitherDirection,
}

/// The policy assumed for a field that states none: both directions enabled.
pub open spec fn default_policy() -> SyncPolicy {
    SyncPolicy { push: true, pull: true }
}

/// The policy a field is governed by: the one it states, or the default.
pub open spec fn effective_policy(p: Option<SyncPolicy>) -> SyncPolicy {
    match p {
        Some(q) => q,
        None => default_policy(),
    }
}

impl SyncPolicy {
    /// A policy must request at least one direction to be meaningful.
    pub open spec fn is_meaningful(self) -> bool {
        self.push || self.pull
    }

    /// Runtime form of `is_meaningful`.
    pub fn meaningful(&self) -> (r: bool)
        ensures
            r == self.is_meaningful(),
    {
        self.push || self.pull
    }

    /// Builds a policy, rejecting the degenerate configuration that requests
    /// neither direction.
    pub fn new(push: bool, pull: bool) -> (r: Result<SyncPolicy, PolicyError>)
        ensures
            (push || pull) ==> r == Ok::<SyncPolicy, PolicyError>(SyncPolicy { push, pull }),
            !(push || pull) ==> r == Err::<SyncPolicy, PolicyError>(PolicyError::NeitherDirection),
    {
        if push || pull {
            Ok(SyncPolicy { push, pull })
        } else {
            Err(PolicyError::NeitherDirection)
        }
    }
}

impl Default for SyncPolicy {
    /// An unspecified policy enables both directions.
    fn default() -> (p: SyncPolicy)
        ensures
            p == default_policy(),
    {
        SyncPolicy { push: true, pull: true }
    }
}

/// Runtime form of `effective_policy`.
pub fn resolve_policy(p: Option<SyncPolicy>) -> (r: SyncPolicy)
    ensures
        r == effective_policy(p),
{
    match p {
        Some(q) => q,
        None => SyncPolicy { push: true, pull: true },
    }
}

/// A field with an unspecified policy is governed by exactly the same policy
/// as one that explicitly enables both directions.
pub proof fn lemma_unspecified_policy_defaults_to_both()
    ensures
        effective_policy(None) == effective_policy(Some(default_policy())),
        effective_policy(None).push,
        effective_policy(None).pull,
        effective_policy(None).is_meaningful(),
{
}

} // verus!
