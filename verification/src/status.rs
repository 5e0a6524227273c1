//! The run state that the simulator reports.

use vstd::prelude::*;
use vstd::std_specs::convert::TryFromSpecImpl;
use crate::error::LibiguanaError;
use crate::wire::{le_u32, read_u32_le};

verus! {

/// Number of bytes in the response to a status query.
pub const STATUS_RESPONSE_LEN: usize = 9;

/// The run states of the simulator. The set is closed: a byte that is
/// the code of none of them is an error, never a state.
#[derive(Clone, Copy, Debug, PartialEq, Eq)]
pub enum Status {
    Normal,
    Busy,
    Stopped,
    Breakpoint,
    Memfault,
    Finished,
    Running,
    RunningSwi,
    Stepping,
    Broken,
}

impl Status {
    /// The byte that stands for the state on the wire.
    pub open spec fn code_of(self) -> u8 {
        match self {
            Status::Normal => 0x00,
            Status::Busy => 0x01,
            Status::Stopped => 0x40,
            Status::Breakpoint => 0x41,
            Status::Memfault => 0x43,
            Status::Finished => 0x44,
            Status::Running => 0x80,
            Status::RunningSwi => 0x81,
            Status::Stepping => 0x82,
            Status::Broken => 0x30,
        }
    }

    /// The state that a byte stands for, if it is the code of one.
    pub open spec fn of_code(code: u8) -> Option<Status> {
        if code == 0x00 {
            Some(Status::Normal)
        } else if code == 0x01 {
            Some(Status::Busy)
        } else if code == 0x40 {
            Some(Status::Stopped)
        } else if code == 0x41 {
            Some(Status::Breakpoint)
        } else if code == 0x43 {
            Some(Status::Memfault)
        } else if code == 0x44 {
            Some(Status::Finished)
        } else if code == 0x80 {
            Some(Status::Running)
        } else if code == 0x81 {
            Some(Status::RunningSwi)
        } else if code == 0x82 {
            Some(Status::Stepping)
        } else if code == 0x30 {
            Some(Status::Broken)
        } else {
            None
        }
    }

    /// The byte that stands for the state on the wire.
    pub fn code(&self) -> (code: u8)
        ensures
            code == self.code_of(),
    {
        match self {
            Status::Normal => 0x00,
            Status::Busy => 0x01,
            Status::Stopped => 0x40,
            Status::Breakpoint => 0x41,
            Status::Memfault => 0x43,
            Status::Finished => 0x44,
            Status::Running => 0x80,
            Status::RunningSwi => 0x81,
            Status::Stepping => 0x82,
            Status::Broken => 0x30,
        }
    }
}

impl TryFrom<u8> for Status {
    type Error = ();

    /// The state that `code` stands for. A byte that is the code of no
    /// state is refused.
    fn try_from(code: u8) -> (result: Result<Status, ()>) {
        match code {
            0x00 => Ok(Status::Normal),
            0x01 => Ok(Status::Busy),
            0x40 => Ok(Status::Stopped),
            0x41 => Ok(Status::Breakpoint),
            0x43 => Ok(Status::Memfault),
            0x44 => Ok(Status::Finished),
            0x80 => Ok(Status::Running),
            0x81 => Ok(Status::RunningSwi),
            0x82 => Ok(Status::Stepping),
            0x30 => Ok(Status::Broken),
            _ => Err(()),
        }
    }
}

impl TryFromSpecImpl<u8> for Status {
    open spec fn obeys_try_from_spec() -> bool {
        true
    }

    open spec fn try_from_spec(code: u8) -> Result<Status, ()> {
        match Status::of_code(code) {
            Some(status) => Ok(status),
            None => Err(()),
        }
    }
}

/// Every state is the state that its own code stands for.
pub proof fn lemma_code_round_trip(status: Status)
    ensures
        Status::of_code(status.code_of()) == Some(status),
{
}

/// A byte that stands for a state is the code of that state, so no two
/// states share a code.
pub proof fn lemma_of_code_is_code(code: u8)
    ensures
        Status::of_code(code) matches Some(status) ==> status.code_of() == code,
{
}

/// What a status query reports: the run state and two step counters.
#[derive(Clone, Copy, Debug, PartialEq, Eq)]
pub struct BoardState {
    /// The run state.
    pub status: Status,
    /// Steps left of the budget that execution was started with.
    pub steps_remaining: u32,
    /// Steps executed since the last reset.
    pub steps_since_reset: u32,
}

impl BoardState {
    /// What a response decodes to: the state that its first byte stands
    /// for, then the two counters as little-endian numbers. There is
    /// nothing to decode when the first byte stands for no state.
    pub open spec fn decoded(response: Seq<u8>) -> Option<BoardState>
        recommends
            response.len() == 9,
    {
        match Status::of_code(response[0]) {
            Some(status) => Some(
                BoardState {
                    status,
                    steps_remaining: le_u32(response.subrange(1, 5)),
                    steps_since_reset: le_u32(response.subrange(5, 9)),
                },
            ),
            None => None,
        }
    }

    /// Decodes the response to a status query. A first byte that is the
    /// code of no state is rejected as an invalid status, with the byte;
    /// it is never read as some state.
    pub fn decode(response: &[u8; 9]) -> (result: Result<BoardState, LibiguanaError>)
        ensures
            match result {
                Ok(state) => BoardState::decoded(response@) == Some(state),
                Err(error) => BoardState::decoded(response@) is None && error
                    == LibiguanaError::InvalidStatus(response@[0]),
            },
    {
        let status = match Status::try_from(response[0]) {
            Ok(status) => status,
            Err(_) => {
                return Err(LibiguanaError::InvalidStatus(response[0]));
            },
        };
        let bytes: &[u8] = response.as_slice();
        Ok(
            BoardState {
                status,
                steps_remaining: read_u32_le(bytes, 1),
                steps_since_reset: read_u32_le(bytes, 5),
            },
        )
    }
}

} // verus!
