//! What the engine reports of one executed message.

use crate::cheatcodes::ActorAddress;
use crate::context::{ActorID, TokenAmount};
use vstd::prelude::*;

verus! {

/// The exit code of a message that succeeded.
pub const EXIT_OK: u32 = 0;

/// One entry of the flat, depth-first log of a message's call tree.
#[derive(Clone, Debug, PartialEq, Eq)]
pub enum ExecutionEvent {
    /// A call starts.
    Call { from: ActorID, to: ActorAddress, method: u64, value: TokenAmount },
    /// The innermost open call returns with an exit code.
    CallReturn { exit_code: u32 },
    /// The innermost open call ends with an error.
    CallError { error: String },
    /// Gas is charged to the innermost open call.
    GasCharge { name: String, amount: u64 },
}

/// The outcome of one executed message.
#[derive(Clone, Debug, PartialEq, Eq)]
pub struct ExecutionResult {
    pub exit_code: u32,
    pub gas_used: u64,
    pub return_data: Option<Vec<u8>>,
    pub failure_info: Option<String>,
    pub execution_trace: Vec<ExecutionEvent>,
}

impl ExecutionResult {
    /// Whether the message succeeded.
    pub fn succeeded(&self) -> (r: bool)
        ensures
            r == (self.exit_code == EXIT_OK),
    {
        self.exit_code == EXIT_OK
    }
}

} // verus!
