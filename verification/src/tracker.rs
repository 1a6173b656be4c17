//! The state tracker: decides from the previously tracked availability and a
//! freshly fetched status whether a notification is due, and what the next
//! tracked availability is.

use crate::notify::NotificationContent;
use crate::notify::is_status_notification;
use crate::status::ServerStatus;
use vstd::prelude::*;

verus! {

/// The decision rule: notify exactly when the observed availability differs
/// from the tracked one, or when a notification is forced (as it is for the
/// first successful observation of the process lifetime).
pub open spec fn spec_should_notify(current: bool, online: bool, force_notify: bool) -> bool {
    online != current || force_notify
}

/// The pure decision step.  Given the tracked availability, a well-formed
/// status, and the one-time force flag, returns the next tracked
/// availability — always the one just observed — and the notification to
/// deliver, present exactly when `spec_should_notify` says so and then
/// carrying the exact wording for `status`.  This function cannot fail.
pub fn evaluate(current: bool, status: &ServerStatus, force_notify: bool) -> (r: (
    bool,
    Option<NotificationContent>,
))
    requires
        status.well_formed(),
    ensures
        r.0 == status.online,
        r.1 is Some <==> spec_should_notify(current, status.online, force_notify),
        r.1 matches Some(n) ==> is_status_notification(n, *status),
{
    if status.online != current || force_notify {
        (status.online, Some(NotificationContent::for_status(status)))
    } else {
        (status.online, None)
    }
}

} // verus!
