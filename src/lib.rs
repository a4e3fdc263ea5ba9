//! Typed domain model for replay records of a fighting game, with the codecs
//! between its enumerations and the byte and string codes of the remote API.

pub mod character;
pub mod error;
pub mod floor;
pub mod record;
pub mod text;

pub use character::Character;
pub use error::Error;
pub use floor::Floor;
pub use record::{Match, Player, Timestamp, Winner};
