use pyc_vm::error::VmError;
use pyc_vm::magic::Magic;
use pyc_vm::object::{IntObject, NoneObject};
use pyc_vm::interpreter::Interpreter;
use pyc_vm::opcode::{cache_num, have_arg, opcode_name, JUMP_BACKWARD, JUMP_FORWARD, LOAD_GLOBAL, POP_TOP};
use pyc_vm::ops::{BinaryOp, CmpOP};

#[test]
fn jump_arithmetic() {
    assert_eq!(Interpreter::get_jump_offset(JUMP_FORWARD, 3), 6);
    assert_eq!(Interpreter::get_jump_offset(JUMP_BACKWARD, 3), -6);
    assert_eq!(Interpreter::get_jump_offset(JUMP_FORWARD, 0), 0);
}

#[test]
fn opcode_table() {
    assert!(have_arg(JUMP_FORWARD));
    assert!(!have_arg(POP_TOP));
    assert_eq!(cache_num(LOAD_GLOBAL), 5);
    assert_eq!(cache_num(POP_TOP), 0);
    assert_eq!(opcode_name(100).unwrap(), b"LOAD_CONST".to_vec());
    assert_eq!(opcode_name(3), None);
}

#[test]
fn binary_operator_table() {
    assert_eq!(BinaryOp::from_arg(0), Some(BinaryOp::Add(false)));
    assert_eq!(BinaryOp::from_arg(13), Some(BinaryOp::Add(true)));
    assert_eq!(BinaryOp::from_arg(25), Some(BinaryOp::XOR(true)));
    assert_eq!(BinaryOp::from_arg(26), None);
}

#[test]
fn integer_arithmetic() {
    assert_eq!(BinaryOp::Add(false).handle_int(2, 3), Ok(5));
    assert_eq!(BinaryOp::Minus(true).handle_int(2, 3), Ok(-1));
    assert_eq!(BinaryOp::Multiply(false).handle_int(-4, 3), Ok(-12));
    assert_eq!(BinaryOp::FloorDivide(false).handle_int(-7, 2), Ok(-4));
    assert_eq!(BinaryOp::FloorDivide(false).handle_int(7, -2), Ok(-4));
    assert_eq!(BinaryOp::Modulo(false).handle_int(-7, 2), Ok(1));
    assert_eq!(BinaryOp::Modulo(false).handle_int(7, -2), Ok(-1));
    assert_eq!(BinaryOp::POWER(false).handle_int(2, 10), Ok(1024));
    assert_eq!(BinaryOp::POWER(false).handle_int(-1, 7), Ok(-1));
    assert_eq!(BinaryOp::POWER(false).handle_int(-2, 31), Ok(i32::MIN));
    assert_eq!(BinaryOp::ShiftLeft(false).handle_int(3, 4), Ok(48));
    assert_eq!(BinaryOp::ShiftRight(false).handle_int(-8, 1), Ok(-4));
    assert_eq!(BinaryOp::ShiftRight(false).handle_int(-1, 40), Ok(-1));
    assert_eq!(BinaryOp::ShiftRight(false).handle_int(100, 40), Ok(0));
    assert_eq!(BinaryOp::And(false).handle_int(6, 3), Ok(2));
    assert_eq!(BinaryOp::OR(false).handle_int(6, 3), Ok(7));
    assert_eq!(BinaryOp::XOR(false).handle_int(6, 3), Ok(5));
}

#[test]
fn integer_arithmetic_errors() {
    assert_eq!(BinaryOp::Add(false).handle_int(i32::MAX, 1), Err(VmError::ArithmeticError));
    assert_eq!(BinaryOp::FloorDivide(false).handle_int(1, 0), Err(VmError::ArithmeticError));
    assert_eq!(BinaryOp::FloorDivide(false).handle_int(i32::MIN, -1), Err(VmError::ArithmeticError));
    assert_eq!(BinaryOp::Modulo(false).handle_int(1, 0), Err(VmError::ArithmeticError));
    assert_eq!(BinaryOp::POWER(false).handle_int(2, -1), Err(VmError::ArithmeticError));
    assert_eq!(BinaryOp::POWER(false).handle_int(2, 31), Err(VmError::ArithmeticError));
    assert_eq!(BinaryOp::ShiftLeft(false).handle_int(1, 31), Err(VmError::ArithmeticError));
    assert_eq!(BinaryOp::ShiftLeft(false).handle_int(1, -1), Err(VmError::ArithmeticError));
    assert_eq!(BinaryOp::MatrixMultiply(false).handle_int(1, 1), Err(VmError::UnsupportedOperator(4)));
    assert_eq!(BinaryOp::Divide(false).handle_int(1, 1), Err(VmError::UnsupportedOperator(11)));
}

#[test]
fn binary_operator_on_values() {
    let r = BinaryOp::Add(false).handle(&IntObject::new_from_i32(2), &IntObject::new_from_i32(40)).unwrap();
    assert!(r.equals(&IntObject::new_from_i32(42)));
    let e = BinaryOp::Add(false).handle(&IntObject::new_from_i32(2), &NoneObject::new());
    assert_eq!(e.err(), Some(VmError::TypeMismatch));
    assert_eq!(BinaryOp::FloorDivide(true).symbol(), "//=");
    assert_eq!(CmpOP::NEQ.symbol(), "!=");
    assert_eq!(BinaryOp::POWER(false).symbol(), "**");
}

#[test]
fn comparisons() {
    assert_eq!(CmpOP::from_arg(0), Some(CmpOP::LT));
    assert_eq!(CmpOP::from_arg(6), None);
    assert!(CmpOP::LT.apply(1, 2));
    assert!(!CmpOP::GE.apply(1, 2));
    assert!(CmpOP::NEQ.apply(1, 2));
}

#[test]
fn version_table() {
    assert_eq!(Magic::from_u32(0x0A0D0DA7), Ok(Magic::MAGIC3_11));
    assert_eq!(Magic::from_u32(0x12345678), Err(VmError::UnknownMagic(0x12345678)));
    assert!(Magic::MAGIC3_11.at_least(Magic::MAGIC3_8));
    assert!(!Magic::MAGIC2_7.at_least(Magic::MAGIC3_0));
    assert!(Magic::MAGIC1_0.at_least(Magic::MAGIC1_0));
    assert_eq!(Magic::MAGIC3_11.value(), 0x0A0D0DA7);
    assert_eq!(Magic::MAGIC3_11.version_name(), "3.11");
}
