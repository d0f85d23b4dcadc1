//! The eight speaker directions and the tones a test plan assigns to them.
//!
//! The order of the directions is part of the file format: a tool that reads
//! a test file tells the segments apart by position alone.

use vstd::prelude::*;
use crate::sample::ComplexBits;

verus! {

/// How many directions a test file covers.
pub const DIRECTION_COUNT: usize = 8;

/// A speaker direction, in the order in which its tone appears in a file.
#[derive(Clone, Copy, Debug, PartialEq, Eq, Structural)]
pub enum Direction {
    Center,
    RightFront,
    RightMiddle,
    RightRear,
    RearCenter,
    LeftRear,
    LeftMiddle,
    LeftFront,
}

impl Direction {
    /// The position of this direction's tone among the tones of a file.
    pub open spec fn spec_index(self) -> int {
        match self {
            Direction::Center => 0,
            Direction::RightFront => 1,
            Direction::RightMiddle => 2,
            Direction::RightRear => 3,
            Direction::RearCenter => 4,
            Direction::LeftRear => 5,
            Direction::LeftMiddle => 6,
            Direction::LeftFront => 7,
        }
    }

    /// The direction whose tone stands at a position, if the position is one
    /// of the eight.
    pub open spec fn spec_from_index(index: int) -> Option<Direction> {
        if index == 0 {
            Some(Direction::Center)
        } else if index == 1 {
            Some(Direction::RightFront)
        } else if index == 2 {
            Some(Direction::RightMiddle)
        } else if index == 3 {
            Some(Direction::RightRear)
        } else if index == 4 {
            Some(Direction::RearCenter)
        } else if index == 5 {
            Some(Direction::LeftRear)
        } else if index == 6 {
            Some(Direction::LeftMiddle)
        } else if index == 7 {
            Some(Direction::LeftFront)
        } else {
            None
        }
    }

    pub fn index(self) -> (i: usize)
        ensures
            i == self.spec_index(),
            i < DIRECTION_COUNT,
            Direction::spec_from_index(i as int) == Some(self),
    {
        match self {
            Direction::Center => 0,
            Direction::RightFront => 1,
            Direction::RightMiddle => 2,
            Direction::RightRear => 3,
            Direction::RearCenter => 4,
            Direction::LeftRear => 5,
            Direction::LeftMiddle => 6,
            Direction::LeftFront => 7,
        }
    }

    pub fn from_index(index: usize) -> (d: Option<Direction>)
        ensures
            d == Direction::spec_from_index(index as int),
            d is Some <==> index < DIRECTION_COUNT,
            d is Some ==> d->0.spec_index() == index,
    {
        match index {
            0 => Some(Direction::Center),
            1 => Some(Direction::RightFront),
            2 => Some(Direction::RightMiddle),
            3 => Some(Direction::RightRear),
            4 => Some(Direction::RearCenter),
            5 => Some(Direction::LeftRear),
            6 => Some(Direction::LeftMiddle),
            7 => Some(Direction::LeftFront),
            _ => None,
        }
    }
}

/// The steady tone of one direction: a complex amplitude for each of the two
/// encoded channels.
#[derive(Clone, Copy, Debug, PartialEq, Eq, Structural)]
pub struct DirectionalTone {
    pub left: ComplexBits,
    pub right: ComplexBits,
}

/// The tones of one test file, one for each direction.
#[derive(Clone, Copy, Debug, PartialEq, Eq, Structural)]
pub struct TestPlan {
    pub center: DirectionalTone,
    pub right_front: DirectionalTone,
    pub right_middle: DirectionalTone,
    pub right_rear: DirectionalTone,
    pub rear_center: DirectionalTone,
    pub left_rear: DirectionalTone,
    pub left_middle: DirectionalTone,
    pub left_front: DirectionalTone,
}

impl TestPlan {
    /// The tone that the plan assigns to a direction.
    pub open spec fn spec_tone(&self, direction: Direction) -> DirectionalTone {
        match direction {
            Direction::Center => self.center,
            Direction::RightFront => self.right_front,
            Direction::RightMiddle => self.right_middle,
            Direction::RightRear => self.right_rear,
            Direction::RearCenter => self.rear_center,
            Direction::LeftRear => self.left_rear,
            Direction::LeftMiddle => self.left_middle,
            Direction::LeftFront => self.left_front,
        }
    }

    /// The plan's tones as a sequence, in file order.
    pub open spec fn tones(self) -> Seq<DirectionalTone> {
        seq![
            self.center,
            self.right_front,
            self.right_middle,
            self.right_rear,
            self.rear_center,
            self.left_rear,
            self.left_middle,
            self.left_front,
        ]
    }

    #[verifier::when_used_as_spec(spec_tone)]
    pub fn tone(&self, direction: Direction) -> (t: DirectionalTone)
        ensures
            t == self.spec_tone(direction),
            t == self.tones()[direction.spec_index()],
    {
        match direction {
            Direction::Center => self.center,
            Direction::RightFront => self.right_front,
            Direction::RightMiddle => self.right_middle,
            Direction::RightRear => self.right_rear,
            Direction::RearCenter => self.rear_center,
            Direction::LeftRear => self.left_rear,
            Direction::LeftMiddle => self.left_middle,
            Direction::LeftFront => self.left_front,
        }
    }
}

} // verus!
