//! The status value fetched from the endpoint, and the classification of
//! fetch outcomes.

use vstd::prelude::*;

verus! {

/// Why a fetch produced no usable status.  Callers need not distinguish the
/// variants: all of them mean "treat as unknown, do not update state".
#[derive(Clone, Copy, Debug, PartialEq, Eq, Structural)]
pub enum FetchError {
    /// Connection, DNS, TLS or timeout failure on the network request.
    Transport,
    /// The response body was not JSON of the expected shape.
    Parse,
    /// The body parsed, but broke the upstream contract: `online` was true
    /// while the player count was absent.
    SchemaViolation,
}

/// One successfully fetched and validated status of the watched server.
#[derive(Debug)]
pub struct ServerStatus {
    pub online: bool,
    pub host: String,
    pub port: u16,
    pub player_count: Option<u32>,
}

impl ServerStatus {
    /// The upstream contract: an online server always reports a player count.
    pub open spec fn well_formed(self) -> bool {
        self.online ==> self.player_count is Some
    }

    /// Validates raw response fields into a status value.  The one rule of
    /// the schema that the parser cannot see: an online server must report a
    /// player count; its absence is a contract violation and counts as a
    /// fetch failure, never a panic.
    pub fn from_parts(online: bool, host: String, port: u16, player_count: Option<u32>) -> (r: Result<
        ServerStatus,
        FetchError,
    >)
        ensures
            online && player_count is None ==> r == Result::<ServerStatus, FetchError>::Err(
                FetchError::SchemaViolation,
            ),
            !(online && player_count is None) ==> r == Result::<ServerStatus, FetchError>::Ok(
                (ServerStatus { online, host, port, player_count }),
            ),
            r matches Ok(st) ==> st.well_formed(),
    {
        if online && player_count.is_none() {
            Err(FetchError::SchemaViolation)
        } else {
            Ok(ServerStatus { online, host, port, player_count })
        }
    }
}

} // verus!
