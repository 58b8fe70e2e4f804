//! A small arithmetic command, used by examples and tests.
use vstd::prelude::*;
use vstd::wrapping::i32_specs;

use crate::{ActionResult, Command, SimpleStop};

verus! {

/// Integer arithmetic on `i32`, wrapping on overflow, plus a stop command.
#[derive(Debug, Clone, Copy, PartialEq, Eq, Structural)]
pub enum MathAction {
    Sum(i32, i32),
    Sub(i32, i32),
    Stop,
}

impl MathAction {
    /// The value the command computes; `None` for the stop command.
    pub open spec fn value(self) -> Option<i32> {
        match self {
            MathAction::Sum(a, b) => Some(i32_specs::wrapping_add(a, b)),
            MathAction::Sub(a, b) => Some(i32_specs::wrapping_sub(a, b)),
            MathAction::Stop => None,
        }
    }
}

impl Command for MathAction {
    type Result = i32;

    open spec fn is_stop(&self) -> bool {
        *self is Stop
    }

    open spec fn yields(&self, r: i32) -> bool {
        self.value() == Some(r)
    }

    fn execute(self) -> (r: ActionResult<i32>) {
        match self {
            MathAction::Sum(a, b) => ActionResult::Normal(a.wrapping_add(b)),
            MathAction::Sub(a, b) => ActionResult::Normal(a.wrapping_sub(b)),
            MathAction::Stop => ActionResult::Stop,
        }
    }
}

impl SimpleStop for MathAction {
    fn make_stop_command() -> (c: Self) {
        MathAction::Stop
    }
}

} // verus!
