//! Value types of the domain.

pub mod enums;
pub mod game_data;
pub mod game_server;
pub mod nation;
pub mod player;

pub use self::enums::{Era, NationStatus, Nations, SubmissionStatus};
pub use self::game_data::GameData;
pub use self::game_server::{GameServerState, LobbyState, StartedState, PRETENDER_PHASE};
pub use self::nation::{Nation, NationDetails};
pub use self::player::Player;
