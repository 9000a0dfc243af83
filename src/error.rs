use vstd::prelude::*;

verus! {

/// Why loading or running a program stopped.
#[derive(Clone, Copy, PartialEq, Eq, Structural, Debug)]
pub enum VmError {
    /// Malformed input: a read needed more bytes than remain.
    UnexpectedEof,
    /// Malformed input: a seek or jump left the byte buffer.
    SeekOutOfRange,
    /// Malformed input: a tag byte that names no known record kind.
    UnknownTag(u8),
    /// Malformed input: a back-reference beyond the reference table.
    BadReference(u32),
    /// Malformed input: a format-version tag that is not in the known table.
    UnknownMagic(u32),
    /// Malformed input: a record of the wrong kind where a field needs another.
    WrongRecordKind,
    /// Unimplemented: a known record kind that the loader does not build.
    UnsupportedRecord(u8),
    /// Unimplemented: an opcode outside the executed set.
    UnsupportedOpcode(u8),
    /// Unimplemented: an operator argument outside the operator table, or an operator not done.
    UnsupportedOperator(u8),
    /// Unimplemented: a call whose receiver slot holds a value.
    MethodCall,
    /// Program error: a name bound nowhere.
    UndefinedName,
    /// Program error: a pop from an empty operand stack.
    StackUnderflow,
    /// Program error: an operand of the wrong kind.
    TypeMismatch,
    /// Program error: an index outside a constant, name or local table.
    BadIndex,
    /// Program error: integer arithmetic that overflows or divides by zero.
    ArithmeticError,
    /// The step budget of a run was used up before the program finished.
    StepLimit,
}

} // verus!
