//! Plain data carried through the instrumentation layer.
//!
//! Account identifiers and balances are opaque machine words here: the
//! layer only moves them between the journal, the hooks and the frames,
//! and never computes with them.

use vstd::prelude::*;

verus! {

/// An account identifier, opaque to this layer.
pub type Address = u128;

/// An account balance, opaque to this layer.
pub type Balance = u128;

/// Status of an execution, as produced by the interpreter or by an
/// observer that pre-empts it. Opaque to this layer beyond the
/// distinction "continue" / "anything else".
#[derive(Clone, Copy, Debug, PartialEq, Eq, Structural)]
pub enum InstructionResult {
    /// Execution proceeds to the next instruction.
    Continue,
    /// Execution halted normally without output.
    Stop,
    /// Execution halted normally with output.
    Return,
    /// Execution reverted; state changes are undone.
    Revert,
    /// The account was scheduled for destruction.
    SelfDestruct,
    /// Gas was exhausted.
    OutOfGas,
    /// A stack operation lacked operands.
    StackUnderflow,
    /// The host signalled an unrecoverable failure.
    FatalExternalError,
}

/// Gas accounting of a completed execution. The arithmetic behind these
/// numbers is out of this layer's scope; they are carried as-is.
#[derive(Clone, Copy, Debug, PartialEq, Eq, Structural)]
pub struct Gas {
    /// The gas limit the execution started with.
    pub limit: u64,
    /// Gas still unspent.
    pub remaining: u64,
    /// Gas refunded by the execution.
    pub refunded: i64,
}

/// A half-open byte range into a caller's linear memory.
///
/// A well-formed range has `start <= end`; an empty range is valid and
/// distinct from "no output".
#[derive(Clone, Copy, Debug, PartialEq, Eq, Structural)]
pub struct MemRange {
    pub start: usize,
    pub end: usize,
}

impl MemRange {
    /// Well-formedness: the range is half-open and non-reversed.
    pub open spec fn wf(self) -> bool {
        self.start <= self.end
    }

    /// Length of the range; a reversed range counts as empty.
    pub open spec fn len_spec(self) -> int {
        if self.start <= self.end {
            self.end - self.start
        } else {
            0
        }
    }

    /// The empty range at offset zero, used for a top-level frame that
    /// has no caller memory to write into.
    pub fn empty() -> (r: MemRange)
        ensures
            r == (MemRange { start: 0, end: 0 }),
    {
        MemRange { start: 0, end: 0 }
    }
}

/// A log record as journaled by a LOG instruction.
#[derive(Debug, PartialEq, Eq)]
pub struct LogRecord {
    /// The account that emitted the log.
    pub address: Address,
    /// The raw payload of the record.
    pub data: Vec<u8>,
}

/// Mathematical model of a [`LogRecord`].
pub struct LogModel {
    pub address: Address,
    pub data: Seq<u8>,
}

impl View for LogRecord {
    type V = LogModel;

    open spec fn view(&self) -> LogModel {
        LogModel { address: self.address, data: self.data@ }
    }
}

/// One entry of the append-only state-change journal. This layer only
/// reads the tail of the journal; it never writes an entry.
#[derive(Clone, Copy, Debug, PartialEq, Eq, Structural)]
pub enum JournalEntry {
    /// An account was destroyed, its balance moving to a beneficiary.
    AccountDestroyed { address: Address, target: Address, had_balance: Balance },
    /// An account was first touched in this transaction.
    AccountTouched { address: Address },
    /// Balance moved between two accounts.
    BalanceTransfer { from: Address, to: Address, balance: Balance },
}

/// Destination of a transaction: an existing account, or contract
/// creation.
#[derive(Clone, Copy, Debug, PartialEq, Eq, Structural)]
pub enum TransactTo {
    /// Call the account at the given address.
    Call(Address),
    /// Create a new contract.
    Create,
}

/// The fields of a transaction that the first-frame hook consumes.
pub struct TxEnv {
    /// The transaction sender.
    pub caller: Address,
    /// Call an account, or create a contract.
    pub transact_to: TransactTo,
    /// Value transferred by the transaction.
    pub value: Balance,
    /// Calldata, or init code for a creation.
    pub data: Vec<u8>,
}

/// Mathematical model of a [`TxEnv`].
pub struct TxModel {
    pub caller: Address,
    pub transact_to: TransactTo,
    pub value: Balance,
    pub data: Seq<u8>,
}

impl View for TxEnv {
    type V = TxModel;

    open spec fn view(&self) -> TxModel {
        TxModel {
            caller: self.caller,
            transact_to: self.transact_to,
            value: self.value,
            data: self.data@,
        }
    }
}

/// Input descriptor of a call sub-execution.
pub struct CallInputs {
    /// The account being called.
    pub target: Address,
    /// The calling account.
    pub caller: Address,
    /// Value transferred with the call.
    pub value: Balance,
    /// Calldata handed to the callee.
    pub input: Vec<u8>,
    /// Gas available to the callee.
    pub gas_limit: u64,
}

/// Mathematical model of [`CallInputs`].
pub struct CallInputsModel {
    pub target: Address,
    pub caller: Address,
    pub value: Balance,
    pub input: Seq<u8>,
    pub gas_limit: u64,
}

impl View for CallInputs {
    type V = CallInputsModel;

    open spec fn view(&self) -> CallInputsModel {
        CallInputsModel {
            target: self.target,
            caller: self.caller,
            value: self.value,
            input: self.input@,
            gas_limit: self.gas_limit,
        }
    }
}

/// The call input descriptor built from a transaction whose destination
/// is `target`.
pub open spec fn call_inputs_of(target: Address, tx: TxModel, gas_limit: u64) -> CallInputsModel {
    CallInputsModel {
        target,
        caller: tx.caller,
        value: tx.value,
        input: tx.data,
        gas_limit,
    }
}

impl CallInputs {
    /// Builds the input descriptor of the transaction's own top-level
    /// call. The transaction must target an account.
    pub fn new(tx: &TxEnv, gas_limit: u64) -> (r: CallInputs)
        requires
            tx.transact_to matches TransactTo::Call(_),
        ensures
            tx@.transact_to matches TransactTo::Call(a) ==> r@ == call_inputs_of(a, tx@, gas_limit),
    {
        let target = match tx.transact_to {
            TransactTo::Call(a) => a,
            TransactTo::Create => vstd::pervasive::unreached(),
        };
        CallInputs {
            target,
            caller: tx.caller,
            value: tx.value,
            input: copy_bytes(&tx.data),
            gas_limit,
        }
    }
}

/// Input descriptor of a create sub-execution.
pub struct CreateInputs {
    /// The creating account.
    pub caller: Address,
    /// Value endowed to the new contract.
    pub value: Balance,
    /// Init code of the new contract.
    pub init_code: Vec<u8>,
    /// Gas available to the creation.
    pub gas_limit: u64,
}

/// Mathematical model of [`CreateInputs`].
pub struct CreateInputsModel {
    pub caller: Address,
    pub value: Balance,
    pub init_code: Seq<u8>,
    pub gas_limit: u64,
}

impl View for CreateInputs {
    type V = CreateInputsModel;

    open spec fn view(&self) -> CreateInputsModel {
        CreateInputsModel {
            caller: self.caller,
            value: self.value,
            init_code: self.init_code@,
            gas_limit: self.gas_limit,
        }
    }
}

/// The create input descriptor built from a transaction.
pub open spec fn create_inputs_of(tx: TxModel, gas_limit: u64) -> CreateInputsModel {
    CreateInputsModel { caller: tx.caller, value: tx.value, init_code: tx.data, gas_limit }
}

impl CreateInputs {
    /// Builds the input descriptor of the transaction's own top-level
    /// creation. The transaction must be a creation.
    pub fn new(tx: &TxEnv, gas_limit: u64) -> (r: CreateInputs)
        requires
            tx.transact_to is Create,
        ensures
            r@ == create_inputs_of(tx@, gas_limit),
    {
        CreateInputs {
            caller: tx.caller,
            value: tx.value,
            init_code: copy_bytes(&tx.data),
            gas_limit,
        }
    }
}

/// Copies a byte buffer. Used where a record must be handed to an
/// observer while its original stays in place.
pub fn copy_bytes(src: &Vec<u8>) -> (r: Vec<u8>)
    ensures
        r@ == src@,
{
    let mut out: Vec<u8> = Vec::new();
    let mut i: usize = 0;
    while i < src.len()
        invariant
            i <= src.len(),
            out@ == src@.subrange(0, i as int),
        decreases src.len() - i,
    {
        out.push(src[i]);
        i += 1;
        proof {
            assert(out@ =~= src@.subrange(0, i as int));
        }
    }
    proof {
        assert(out@ =~= src@);
    }
    out
}

} // verus!
