//! Account positions: a sized holding of one contract.

use vstd::prelude::*;

use crate::contract::Contract;

verus! {

/// Direction of a position.
#[derive(Debug, Clone, Copy, PartialEq, Eq, Structural)]
pub enum PositionType {
    Long,
    Short,
}

/// A holding of one contract; the owned contract is the only part that
/// carries monetary fields.
#[derive(Debug, Clone, PartialEq, Eq)]
pub struct Position {
    pub id: u64,
    pub size: i32,
    pub assigned_size: i32,
    pub position_type: PositionType,
    pub exercise_instruction: Option<String>,
    pub has_settled: bool,
    pub contract: Contract,
}

impl Position {
    pub open spec fn wf(self) -> bool {
        self.contract.wf()
    }
}

} // verus!
