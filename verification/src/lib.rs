//! Host configuration, session bookkeeping and IPC mapping of the Omny SSH
//! desktop client, with their contracts.

pub mod host;
pub mod hosts;
pub mod registry;
pub mod transfers;
pub mod event;
pub mod dto;
pub mod events;
pub mod bridge;
pub mod routes;
pub mod terminal;
