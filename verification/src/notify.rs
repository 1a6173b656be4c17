//! Notification content and the exact text each notification carries.

use crate::status::ServerStatus;
use crate::text::push_decimal;
use crate::text::spec_decimal;
use vstd::prelude::*;
use vstd::string::StringExecFns;

verus! {

/// A notification ready for delivery: an optional application name and the
/// title/body pair handed to the OS notification surface.
#[derive(Debug)]
pub struct NotificationContent {
    /// `Some` for state-change notifications, `None` (the OS default) for
    /// the fetch-failure notification.
    pub app_name: Option<String>,
    pub title: String,
    pub body: String,
}

/// The application name carried by every state-change notification.
pub open spec fn spec_app_name() -> Seq<char> {
    "Minecraft Server Status"@
}

/// Body of an online notification: `host:port is online with N players`.
pub open spec fn spec_online_body(host: Seq<char>, port: u16, players: u32) -> Seq<char> {
    host + ":"@ + spec_decimal(port as int) + " is online with "@ + spec_decimal(players as int)
        + " players"@
}

/// Body of an offline notification: `host:port is offline`.
pub open spec fn spec_offline_body(host: Seq<char>, port: u16) -> Seq<char> {
    host + ":"@ + spec_decimal(port as int) + " is offline"@
}

/// What the state-change notification for `st` must say, word for word.
pub open spec fn is_status_notification(n: NotificationContent, st: ServerStatus) -> bool {
    &&& n.app_name matches Some(a) && a@ == spec_app_name()
    &&& if st.online {
        &&& n.title@ == "Server is online"@
        &&& n.body@ == spec_online_body(st.host@, st.port, st.player_count.unwrap())
    } else {
        &&& n.title@ == "Server is offline"@
        &&& n.body@ == spec_offline_body(st.host@, st.port)
    }
}

/// What the fixed fetch-failure notification must say.  It carries no
/// application name: the delivery surface falls back to its default.
pub open spec fn is_failure_notification(n: NotificationContent) -> bool {
    &&& n.app_name is None
    &&& n.title@ == "Failed to get server status"@
    &&& n.body@ == "Please check your internet connection"@
}

impl NotificationContent {
    /// Composes the notification announcing the availability carried by
    /// `st`: online notifications name the player count, offline ones do
    /// not.
    pub fn for_status(st: &ServerStatus) -> (n: NotificationContent)
        requires
            st.well_formed(),
        ensures
            is_status_notification(n, *st),
    {
        let mut body = String::from_str(st.host.as_str());
        body.append(":");
        push_decimal(&mut body, st.port as u64);
        let title: &str;
        if st.online {
            let players: u32 = match st.player_count {
                Some(p) => p,
                None => 0,
            };
            body.append(" is online with ");
            push_decimal(&mut body, players as u64);
            body.append(" players");
            title = "Server is online";
            proof {
                assert(body@ =~= spec_online_body(st.host@, st.port, st.player_count.unwrap()));
            }
        } else {
            body.append(" is offline");
            title = "Server is offline";
            proof {
                assert(body@ =~= spec_offline_body(st.host@, st.port));
            }
        }
        NotificationContent {
            app_name: Some(String::from_str("Minecraft Server Status")),
            title: String::from_str(title),
            body,
        }
    }

    /// The fixed notification shown when a fetch fails for any reason.
    pub fn fetch_failure() -> (n: NotificationContent)
        ensures
            is_failure_notification(n),
    {
        NotificationContent {
            app_name: None,
            title: String::from_str("Failed to get server status"),
            body: String::from_str("Please check your internet connection"),
        }
    }
}

} // verus!
