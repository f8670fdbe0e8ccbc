//! The connection status reported to the host application.
use vstd::prelude::*;

verus! {

/// Where the link to the headband stands.
#[derive(Clone, Copy, Debug, PartialEq, Eq, Structural)]
pub enum ConnectionStatus {
    Disconnected,
    Connecting,
    Connected,
    Error,
}

/// What a look at the board session found.
#[derive(Clone, Copy, Debug, PartialEq, Eq, Structural)]
pub enum BoardQuery {
    /// The session could not be reached.
    LockFailed,
    /// No board has been opened.
    NoBoard,
    /// The board answered whether its session is prepared.
    Prepared(bool),
    /// The board was asked and reported an error.
    QueryFailed,
}

pub open spec fn spec_connection_status(query: BoardQuery) -> ConnectionStatus {
    match query {
        BoardQuery::LockFailed => ConnectionStatus::Error,
        BoardQuery::NoBoard => ConnectionStatus::Disconnected,
        BoardQuery::Prepared(true) => ConnectionStatus::Connected,
        BoardQuery::Prepared(false) => ConnectionStatus::Disconnected,
        BoardQuery::QueryFailed => ConnectionStatus::Error,
    }
}

/// The status that a board query stands for: connected exactly when an
/// opened board reports a prepared session.
pub fn get_connection_status(query: BoardQuery) -> (r: ConnectionStatus)
    ensures
        r == spec_connection_status(query),
{
    match query {
        BoardQuery::LockFailed => ConnectionStatus::Error,
        BoardQuery::NoBoard => ConnectionStatus::Disconnected,
        BoardQuery::Prepared(prepared) => {
            if prepared {
                ConnectionStatus::Connected
            } else {
                ConnectionStatus::Disconnected
            }
        },
        BoardQuery::QueryFailed => ConnectionStatus::Error,
    }
}

} // verus!
