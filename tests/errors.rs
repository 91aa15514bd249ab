use sm83_core::decoder::Error;
use sm83_core::instructions::Error as InstructionError;

#[test]
fn test_error_display() {
    let opcode = 0xba;
    let error = Error::InvalidOpcode(opcode);
    assert!(error.to_string().contains(&format!("{}", opcode)));
}

#[test]
fn test_error_invalid_op_display() {
    let operand = "add8";
    let error = InstructionError::InvalidOperand(operand.to_string());
    assert!(error.to_string().contains(&operand));
}

#[test]
fn test_error_failed_display() {
    let reason = "hotdogs";
    let error = InstructionError::Failed(reason.to_string());
    assert!(error.to_string().contains(&reason));
}
