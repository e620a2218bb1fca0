use evm_inspect::call_outcome::{CallOutcome, InterpreterResult};
use evm_inspect::types::{Gas, InstructionResult, MemRange};

fn sample_result(output: Vec<u8>) -> InterpreterResult {
    InterpreterResult {
        result: InstructionResult::Return,
        output,
        gas: Gas { limit: 100, remaining: 40, refunded: 2 },
    }
}

#[test]
fn test_new_and_accessors() {
    let outcome = CallOutcome::new(
        sample_result(vec![1, 2, 3]),
        MemRange { start: 4, end: 10 },
    );
    assert_eq!(*outcome.instruction_result(), InstructionResult::Return);
    assert_eq!(outcome.gas(), Gas { limit: 100, remaining: 40, refunded: 2 });
    assert_eq!(*outcome.output(), vec![1, 2, 3]);
    assert_eq!(outcome.memory_start(), 4);
    assert_eq!(outcome.memory_length(), 6);
}

#[test]
fn test_memory_length_matches_range() {
    let outcome = CallOutcome::new(sample_result(vec![]), MemRange { start: 3, end: 11 });
    assert_eq!(outcome.memory_length(), 11 - 3);
}

#[test]
fn test_zero_length_range_independent_of_output() {
    // An empty destination range is valid and distinct from "no
    // output": the outcome still carries its bytes.
    let outcome = CallOutcome::new(sample_result(vec![9, 9]), MemRange { start: 7, end: 7 });
    assert_eq!(outcome.memory_length(), 0);
    assert_eq!(outcome.memory_start(), 7);
    assert_eq!(*outcome.output(), vec![9, 9]);
}
