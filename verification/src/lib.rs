//! Verified core of the MX Player stream monitor: the data model of stream
//! endpoints, the primary/secondary fallback policy, the health-check status
//! rules and scheduling, the CSV source-list format, the player-session state
//! machine and the state the user interface shows.

pub mod text;
pub mod types;
pub mod fallback;
pub mod health;
pub mod store;
pub mod session;
pub mod ui;
