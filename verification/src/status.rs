//! The closed set of states a todo can be in, and its storage code.

use vstd::prelude::*;

verus! {

/// Where a todo stands. The store keeps it as a small integer.
#[derive(Debug, Clone, Copy, PartialEq, Eq, Structural)]
pub enum TodoStatus {
    Pending,
    Doing,
    Done,
}

impl TodoStatus {
    /// The integer under which the store keeps this status.
    pub open spec fn spec_code(self) -> int {
        match self {
            TodoStatus::Pending => 0,
            TodoStatus::Doing => 1,
            TodoStatus::Done => 2,
        }
    }

    /// The status that a storage code stands for, if it stands for one.
    pub open spec fn spec_from_i16(code: i16) -> Option<TodoStatus> {
        if code == 0 {
            Some(TodoStatus::Pending)
        } else if code == 1 {
            Some(TodoStatus::Doing)
        } else if code == 2 {
            Some(TodoStatus::Done)
        } else {
            None
        }
    }

    /// Decodes a storage code. Codes other than 0, 1 and 2 stand for nothing.
    pub fn from_i16(row: i16) -> (status: Option<TodoStatus>)
        ensures
            status == Self::spec_from_i16(row),
    {
        match row {
            0 => Some(TodoStatus::Pending),
            1 => Some(TodoStatus::Doing),
            2 => Some(TodoStatus::Done),
            _ => None,
        }
    }

    /// Encodes this status for the store.
    pub fn code(self) -> (code: i16)
        ensures
            code == self.spec_code(),
    {
        match self {
            TodoStatus::Pending => 0,
            TodoStatus::Doing => 1,
            TodoStatus::Done => 2,
        }
    }
}

} // verus!
