//! The errors that the input interface reports to the host.

use vstd::prelude::*;

verus! {

/// Why a call of the input interface failed.
#[derive(Clone, Copy, Debug, PartialEq, Eq, Structural)]
pub enum InputError {
    /// The action exists, but not with the type that the call reads.
    WrongType,
    /// The handle stands for no action, action set or input source that is
    /// loaded.
    InvalidHandle,
    /// An argument of the call is not usable.
    InvalidParam,
    /// A table has no room left.
    MaxCapacityReached,
    /// The call named no action set.
    NoActiveActionSet,
    /// The device does not exist or cannot serve the call.
    InvalidDevice,
}

impl InputError {
    /// The number by which the host knows the error.
    pub open spec fn code(self) -> u32 {
        match self {
            InputError::WrongType => 2,
            InputError::InvalidHandle => 3,
            InputError::InvalidParam => 4,
            InputError::MaxCapacityReached => 6,
            InputError::NoActiveActionSet => 8,
            InputError::InvalidDevice => 9,
        }
    }

    /// Reads the number by which the host knows the error.
    pub fn number(self) -> (r: u32)
        ensures
            r == self.code(),
            r != 0,
    {
        match self {
            InputError::WrongType => 2,
            InputError::InvalidHandle => 3,
            InputError::InvalidParam => 4,
            InputError::MaxCapacityReached => 6,
            InputError::NoActiveActionSet => 8,
            InputError::InvalidDevice => 9,
        }
    }
}

} // verus!
