//! Agent-side protocol layer of the snake arena game.
//!
//! The host runtime owns the arena and exports a narrow set of raw calls.
//! This library holds everything on the agent's side of that boundary that
//! can be stated and checked: the numeric codes of the binding layer, the
//! encoding of headings, the decoding of a probed cell into typed values, and
//! the pacing rules (one move per tick, leap and split legality) that a
//! well-behaved snake keeps.
pub mod raw;
pub mod arena;
pub mod direction;
pub mod observation;
pub mod rules;

pub use arena::get_arena_size;
pub use direction::Direction;
pub use rules::{check_split, Pacing, Violation};
pub use observation::{DecodeError, FoodInfo, Observation, ObservationItem, SnakeInfo};
