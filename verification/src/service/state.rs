//! Runtime (non-persisted) state of one service web view.

use vstd::prelude::*;

verus! {

#[verifier::external_type_specification]
#[verifier::external_body]
pub struct ExInstant(std::time::Instant);

/// Reads the monotonic clock (`std::time::Instant::now`). Nothing is stated
/// of the returned instant: it depends on when the call happens.
#[verifier::external_body]
pub(crate) fn instant_now() -> (t: std::time::Instant) {
    std::time::Instant::now()
}

/// Lifecycle state for a service webview.
#[derive(Debug, Clone, Copy, PartialEq, Eq, Structural)]
pub enum ServiceLifecycleState {
    /// Fully visible and rendering, JS running, WebSockets alive.
    Active,
    /// Hidden, JS throttled, WebSockets alive; polled every 5 s.
    Backgrounded,
    /// Heavily throttled, audio muted, no polling. WebSockets still alive.
    Frozen,
    /// Page discarded, no resources consumed.
    Hibernated,
}

impl Default for ServiceLifecycleState {
    fn default() -> (s: Self)
        ensures
            s == ServiceLifecycleState::Active,
    {
        ServiceLifecycleState::Active
    }
}

/// Runtime state for a service (not persisted).
pub struct ServiceRuntimeState {
    pub lifecycle: ServiceLifecycleState,
    pub last_active: std::time::Instant,
    pub direct_count: u32,
    pub indirect_count: u32,
    pub dialog_title: Option<String>,
}

impl ServiceRuntimeState {
    /// The runtime state of a service that was just opened: active, no
    /// unread messages, no dialog title, last active now.
    pub open spec fn is_fresh(&self) -> bool {
        &&& self.lifecycle == ServiceLifecycleState::Active
        &&& self.direct_count == 0
        &&& self.indirect_count == 0
        &&& self.dialog_title is None
    }

    /// Unread messages of both kinds.
    pub open spec fn spec_total_unread(&self) -> int {
        self.direct_count + self.indirect_count
    }

    pub fn new() -> (s: Self)
        ensures
            s.is_fresh(),
    {
        ServiceRuntimeState {
            lifecycle: ServiceLifecycleState::Active,
            last_active: instant_now(),
            direct_count: 0,
            indirect_count: 0,
            dialog_title: None,
        }
    }

    pub fn total_unread(&self) -> (n: u32)
        requires
            self.spec_total_unread() <= u32::MAX,
        ensures
            n == self.spec_total_unread(),
    {
        self.direct_count + self.indirect_count
    }

    /// Records that the service was just used; only `last_active` changes.
    pub fn touch(&mut self)
        ensures
            final(self).lifecycle == old(self).lifecycle,
            final(self).direct_count == old(self).direct_count,
            final(self).indirect_count == old(self).indirect_count,
            final(self).dialog_title == old(self).dialog_title,
    {
        self.last_active = instant_now();
    }
}

} // verus!
