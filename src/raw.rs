//! Numeric codes shared with the host runtime. These values are fixed by the
//! host and must match it exactly.
use vstd::prelude::*;

verus! {

pub const DIRECTION_NORTH: u32 = 0;
pub const DIRECTION_EAST: u32 = 1;
pub const DIRECTION_SOUTH: u32 = 2;
pub const DIRECTION_WEST: u32 = 3;

pub const SPEED_NORMAL: u32 = 0;
pub const SPEED_FAST: u32 = 1;

pub const TYPE_EMPTY: u32 = 0;
pub const TYPE_FOOD: u32 = 1;
pub const TYPE_SNAKE_HEAD: u32 = 2;
pub const TYPE_SNAKE_BODY: u32 = 3;

pub const SPLIT_RESULT_FRONT: u32 = 0;
pub const SPLIT_RESULT_BACK: u32 = 1;

pub const ERR_OK: i32 = 0;
pub const ERR_COOL_DOWN: i32 = -1;

/// Slots of the five-element array that the host fills when a cell is probed.
pub const OUT_TYPE: usize = 0;
pub const OUT_TEAM_ID: usize = 1;
pub const OUT_SNAKE_ID: usize = 2;
pub const OUT_HEALTH: usize = 3;
pub const OUT_POISON: usize = 4;

} // verus!
