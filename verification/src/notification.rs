//! What an OS notification shows, and how many notifications may wait for
//! a click at once.

use vstd::prelude::*;
use crate::text::owned;

verus! {

/// Notifications that may block a thread waiting for a click at once;
/// beyond this a notification is still shown but not waited on.
pub const MAX_WAITERS: usize = 24;

/// The notification's summary line: `<service name>: <title>`, or just the
/// title when the service has no name.
pub open spec fn spec_summary(service_name: Seq<char>, title: Seq<char>) -> Seq<char> {
    if service_name.len() == 0 {
        title
    } else {
        service_name + ": "@ + title
    }
}

pub fn notification_summary(service_name: &str, title: &str) -> (s: String)
    ensures
        s@ == spec_summary(service_name@, title@),
{
    if service_name.is_empty() {
        owned(title)
    } else {
        let mut s = owned(service_name);
        s.append(": ");
        s.append(title);
        s
    }
}

/// Whether a notification may wait for a click: it must name a service to
/// switch to, and fewer than `MAX_WAITERS` other notifications may be
/// waiting (`waiting` is the count before this one claimed a slot).
pub fn may_wait_for_click(service_id: &str, waiting: usize) -> (b: bool)
    ensures
        b == (service_id@.len() > 0 && waiting < MAX_WAITERS),
{
    !service_id.is_empty() && waiting < MAX_WAITERS
}

} // verus!
