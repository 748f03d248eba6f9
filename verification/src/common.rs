//! Small shared types: facing direction, version numbers, tick timing.

use vstd::prelude::*;

verus! {

/// Facing direction of an entity; stored in saves as its index.
#[derive(Clone, Copy, Debug, PartialEq, Eq, Structural)]
pub enum Direction {
    Left,
    Up,
    Right,
    Bottom,
    FacingPlayer,
}

pub open spec fn direction_index(d: Direction) -> u32 {
    match d {
        Direction::Left => 0,
        Direction::Up => 1,
        Direction::Right => 2,
        Direction::Bottom => 3,
        Direction::FacingPlayer => 4,
    }
}

pub open spec fn direction_from_index(i: int) -> Option<Direction> {
    if i == 0 {
        Some(Direction::Left)
    } else if i == 1 {
        Some(Direction::Up)
    } else if i == 2 {
        Some(Direction::Right)
    } else if i == 3 {
        Some(Direction::Bottom)
    } else if i == 4 {
        Some(Direction::FacingPlayer)
    } else {
        None
    }
}

impl Direction {
    /// The direction with the given index, if any.
    pub fn from_int(val: usize) -> (res: Option<Direction>)
        ensures
            res == direction_from_index(val as int),
    {
        match val {
            0 => Some(Direction::Left),
            1 => Some(Direction::Up),
            2 => Some(Direction::Right),
            3 => Some(Direction::Bottom),
            4 => Some(Direction::FacingPlayer),
            _ => None,
        }
    }

    /// The index the direction is stored as.
    pub fn index(&self) -> (res: u32)
        ensures
            res == direction_index(*self),
    {
        match self {
            Direction::Left => 0,
            Direction::Up => 1,
            Direction::Right => 2,
            Direction::Bottom => 3,
            Direction::FacingPlayer => 4,
        }
    }

    /// -1 for left, 1 for right, 0 otherwise.
    pub fn vector_x(&self) -> (res: i32)
        ensures
            res == spec_vector_x(*self),
    {
        match self {
            Direction::Left => -1,
            Direction::Right => 1,
            _ => 0,
        }
    }

    /// The reverse direction; the player-facing marker has none.
    pub fn opposite(&self) -> (res: Direction)
        requires
            *self != Direction::FacingPlayer,
        ensures
            res == spec_opposite(*self),
    {
        match self {
            Direction::Left => Direction::Right,
            Direction::Up => Direction::Bottom,
            Direction::Right => Direction::Left,
            _ => Direction::Up,
        }
    }

    /// -1 for up, 1 for down, 0 otherwise.
    pub fn vector_y(&self) -> (res: i32)
        ensures
            res == spec_vector_y(*self),
    {
        match self {
            Direction::Up => -1,
            Direction::Bottom => 1,
            _ => 0,
        }
    }
}

pub open spec fn spec_vector_x(d: Direction) -> int {
    match d {
        Direction::Left => -1,
        Direction::Right => 1,
        _ => 0,
    }
}

pub open spec fn spec_opposite(d: Direction) -> Direction {
    match d {
        Direction::Left => Direction::Right,
        Direction::Up => Direction::Bottom,
        Direction::Right => Direction::Left,
        _ => Direction::Up,
    }
}

pub open spec fn spec_vector_y(d: Direction) -> int {
    match d {
        Direction::Up => -1,
        Direction::Bottom => 1,
        _ => 0,
    }
}

pub proof fn lemma_direction_index_roundtrip(d: Direction)
    ensures
        direction_from_index(direction_index(d) as int) == Some(d),
{
}

/// A release version number.
#[derive(Clone, Copy, Debug, PartialEq, Eq, Structural)]
pub struct Version {
    pub major: u32,
    pub minor: u32,
    pub patch: u32,
}

/// How game ticks are paced.
#[derive(Clone, Copy, Debug, PartialEq, Eq, Structural)]
pub enum TimingMode {
    _50Hz,
    _60Hz,
    FrameSynchronized,
}

pub open spec fn spec_tps(t: TimingMode) -> nat {
    match t {
        TimingMode::_50Hz => 50,
        TimingMode::_60Hz => 60,
        TimingMode::FrameSynchronized => 0,
    }
}

pub open spec fn spec_timing_from_tps(tps: int) -> TimingMode {
    if tps == 50 {
        TimingMode::_50Hz
    } else if tps == 60 {
        TimingMode::_60Hz
    } else {
        TimingMode::FrameSynchronized
    }
}

impl TimingMode {
    /// Ticks per second; 0 for frame-synchronised timing.
    pub fn get_tps(self) -> (res: usize)
        ensures
            res == spec_tps(self),
    {
        match self {
            TimingMode::_50Hz => 50,
            TimingMode::_60Hz => 60,
            TimingMode::FrameSynchronized => 0,
        }
    }

    /// The timing mode with the given ticks per second.
    pub fn from_tps(tps: usize) -> (res: TimingMode)
        ensures
            res == spec_timing_from_tps(tps as int),
    {
        if tps == 50 {
            TimingMode::_50Hz
        } else if tps == 60 {
            TimingMode::_60Hz
        } else {
            TimingMode::FrameSynchronized
        }
    }
}

} // verus!
