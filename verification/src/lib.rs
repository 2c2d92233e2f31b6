//! Lifecycle and roster reconciliation for game servers organised through a chat lobby.
//!
//! A server starts as a lobby in which players sign up for nations, and is later started
//! against a remote game host. The functions here decide which transitions are legal,
//! resolve a nation from what a player typed, and merge the registrations with the
//! host's snapshot into one roster. They hold no state and perform no I/O of their own:
//! the caller loads the stored records and persists what comes back, and the host is
//! reached through a `ServerConnection` that the caller supplies.
//!
//! - `model`: the value types.
//! - `resolver`: from a name prefix or an id to one nation.
//! - `roster`: the roster of a server, in each phase of its life.
//! - `lifecycle`: starting a lobby, and registering players.
//! - `details`: what there is to show of a server.
//! - `server`: the connection to the host.
//! - `error`: why an operation was refused.
//! - `text`, `name_order`, `seq_facts`: names as text, their order, and facts about
//!   sequences that the proofs rest on.

pub mod details;
pub mod error;
pub mod lifecycle;
pub mod model;
pub mod name_order;
pub mod resolver;
pub mod roster;
pub mod seq_facts;
pub mod server;
pub mod text;
