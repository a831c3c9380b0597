//! Verified core of the blueprint/team game server: message types, the
//! records kept in the graph database, the requests the server sends to the
//! database, and the decisions the server takes for every client message.

pub mod text;
pub mod messages;
pub mod records;
pub mod session;
pub mod database;
