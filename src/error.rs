//! Why building a transaction can fail.
use vstd::prelude::*;

verus! {

/// A failure of one operation while building a transaction.
#[derive(Debug, Clone, Copy, PartialEq, Eq, Structural)]
pub enum OpError {
    /// Fewer matching live cells than the operation asked for.
    InsufficientCells,
    /// The payer's live cells cannot cover outputs and fee.
    ImbalancedTransaction,
    /// An output's capacity does not cover its own footprint.
    InsufficientCapacity,
    /// A total capacity or the transaction size left the `u64` range.
    Overflow,
    /// A script is malformed (code hash width, argument length).
    MalformedScript,
    /// A type identifier was asked for, but the transaction has no input yet.
    NoInputForTypeId,
    /// An input index that the transaction does not have.
    InputIndexOutOfRange,
    /// No live cell at the given reference.
    CellNotFound,
    /// None of the inputs is guarded by the signer's lock.
    NoSignerInput,
    /// The input chosen as purchase cell does not exist.
    NoPurchaseCell,
    /// The purchase cell's type arguments are not in the expected layout.
    BadArgs,
    /// A hexadecimal reference could not be read as a 32-byte hash.
    BadHash,
}

/// A failure while building: which instruction and which of its operations
/// failed, and why.
#[derive(Debug, Clone, Copy, PartialEq, Eq, Structural)]
pub struct BuildError {
    pub instruction: usize,
    pub operation: usize,
    pub error: OpError,
}

} // verus!
