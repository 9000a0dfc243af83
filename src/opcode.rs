use vstd::prelude::*;

verus! {

pub const CACHE: u8 = 0;

pub const POP_TOP: u8 = 1;

pub const PUSH_NULL: u8 = 2;

pub const RETURN_VALUE: u8 = 83;

pub const STORE_NAME: u8 = 90;

pub const LOAD_CONST: u8 = 100;

pub const LOAD_NAME: u8 = 101;

pub const COMPARE_OP: u8 = 107;

pub const JUMP_FORWARD: u8 = 110;

pub const POP_JUMP_FORWARD_IF_FALSE: u8 = 114;

pub const POP_JUMP_FORWARD_IF_TRUE: u8 = 115;

pub const LOAD_GLOBAL: u8 = 116;

pub const BINARY_OP: u8 = 122;

pub const LOAD_FAST: u8 = 124;

pub const POP_JUMP_FORWARD_IF_NOT_NONE: u8 = 128;

pub const POP_JUMP_FORWARD_IF_NONE: u8 = 129;

pub const MAKE_FUNCTION: u8 = 132;

pub const JUMP_BACKWARD_NO_INTERRUPT: u8 = 134;

pub const JUMP_BACKWARD: u8 = 140;

pub const RESUME: u8 = 151;

pub const PRECALL: u8 = 166;

pub const CALL: u8 = 171;

pub const KW_NAMES: u8 = 172;

pub const POP_JUMP_BACKWARD_IF_NOT_NONE: u8 = 173;

pub const POP_JUMP_BACKWARD_IF_NONE: u8 = 174;

pub const POP_JUMP_BACKWARD_IF_FALSE: u8 = 175;

pub const POP_JUMP_BACKWARD_IF_TRUE: u8 = 176;

/// Opcodes from this value up carry a one-byte argument.
pub const HAVE_ARGUMENT: u8 = 90;

/// Whether the opcode is followed by a one-byte argument.
pub open spec fn takes_arg(op: u8) -> bool {
    op >= HAVE_ARGUMENT
}

/// Whether the opcode is followed by a one-byte argument.
pub fn have_arg(op: u8) -> (r: bool)
    ensures
        r == takes_arg(op),
{
    op >= HAVE_ARGUMENT
}

/// Number of two-byte inline cache slots that follow the opcode and its argument.
pub open spec fn cache_slots(op: u8) -> u8 {
    match op {
        25u8 => 4,
        60u8 => 1,
        92u8 => 1,
        95u8 => 4,
        106u8 => 4,
        107u8 => 2,
        116u8 => 5,
        122u8 => 1,
        160u8 => 10,
        166u8 => 1,
        171u8 => 4,
        _ => 0,
    }
}

/// Number of two-byte inline cache slots that follow the opcode and its argument.
pub fn cache_num(op: u8) -> (r: u8)
    ensures
        r == cache_slots(op),
{
    match op {
        25u8 => 4,
        60u8 => 1,
        92u8 => 1,
        95u8 => 4,
        106u8 => 4,
        107u8 => 2,
        116u8 => 5,
        122u8 => 1,
        160u8 => 10,
        166u8 => 1,
        171u8 => 4,
        _ => 0,
    }
}

/// Whether the opcode jumps backward, so that its argument counts toward lower offsets.
pub open spec fn is_backward_jump(op: u8) -> bool {
    op == POP_JUMP_BACKWARD_IF_NONE || op == POP_JUMP_BACKWARD_IF_FALSE || op
        == POP_JUMP_BACKWARD_IF_TRUE || op == JUMP_BACKWARD || op == POP_JUMP_BACKWARD_IF_NOT_NONE
        || op == JUMP_BACKWARD_NO_INTERRUPT
}

/// Whether the opcode jumps backward.
pub fn backward_jump(op: u8) -> (r: bool)
    ensures
        r == is_backward_jump(op),
{
    op == POP_JUMP_BACKWARD_IF_NONE || op == POP_JUMP_BACKWARD_IF_FALSE || op
        == POP_JUMP_BACKWARD_IF_TRUE || op == JUMP_BACKWARD || op == POP_JUMP_BACKWARD_IF_NOT_NONE
        || op == JUMP_BACKWARD_NO_INTERRUPT
}

/// The relative byte offset of a jump: two bytes per cache slot of the opcode, plus two
/// bytes per unit of the argument, negated for backward jumps.
pub open spec fn jump_offset_of(op: u8, arg: u8) -> int {
    let a: int = if is_backward_jump(op) { -(arg as int) } else { arg as int };
    2 * (cache_slots(op) as int) + a * 2
}

/// The mnemonic of an opcode in ASCII, or `None` for a byte that names no opcode.
pub open spec fn opcode_name_spec(op: u8) -> Option<Seq<u8>> {
    match op {
        0u8 => Some(seq![67u8, 65, 67, 72, 69]),
        1u8 => Some(seq![80u8, 79, 80, 95, 84, 79, 80]),
        2u8 => Some(seq![80u8, 85, 83, 72, 95, 78, 85, 76, 76]),
        9u8 => Some(seq![78u8, 79, 80]),
        10u8 => Some(seq![85u8, 78, 65, 82, 89, 95, 80, 79, 83, 73, 84, 73, 86, 69]),
        11u8 => Some(seq![85u8, 78, 65, 82, 89, 95, 78, 69, 71, 65, 84, 73, 86, 69]),
        12u8 => Some(seq![85u8, 78, 65, 82, 89, 95, 78, 79, 84]),
        15u8 => Some(seq![85u8, 78, 65, 82, 89, 95, 73, 78, 86, 69, 82, 84]),
        25u8 => Some(seq![66u8, 73, 78, 65, 82, 89, 95, 83, 85, 66, 83, 67, 82]),
        30u8 => Some(seq![71u8, 69, 84, 95, 76, 69, 78]),
        31u8 => Some(seq![77u8, 65, 84, 67, 72, 95, 77, 65, 80, 80, 73, 78, 71]),
        32u8 => Some(seq![77u8, 65, 84, 67, 72, 95, 83, 69, 81, 85, 69, 78, 67, 69]),
        33u8 => Some(seq![77u8, 65, 84, 67, 72, 95, 75, 69, 89, 83]),
        35u8 => Some(seq![80u8, 85, 83, 72, 95, 69, 88, 67, 95, 73, 78, 70, 79]),
        36u8 => Some(seq![67u8, 72, 69, 67, 75, 95, 69, 88, 67, 95, 77, 65, 84, 67, 72]),
        37u8 => Some(seq![67u8, 72, 69, 67, 75, 95, 69, 71, 95, 77, 65, 84, 67, 72]),
        49u8 => Some(seq![87u8, 73, 84, 72, 95, 69, 88, 67, 69, 80, 84, 95, 83, 84, 65, 82, 84]),
        50u8 => Some(seq![71u8, 69, 84, 95, 65, 73, 84, 69, 82]),
        51u8 => Some(seq![71u8, 69, 84, 95, 65, 78, 69, 88, 84]),
        52u8 => Some(seq![66u8, 69, 70, 79, 82, 69, 95, 65, 83, 89, 78, 67, 95, 87, 73, 84, 72]),
        53u8 => Some(seq![66u8, 69, 70, 79, 82, 69, 95, 87, 73, 84, 72]),
        54u8 => Some(seq![69u8, 78, 68, 95, 65, 83, 89, 78, 67, 95, 70, 79, 82]),
        60u8 => Some(seq![83u8, 84, 79, 82, 69, 95, 83, 85, 66, 83, 67, 82]),
        61u8 => Some(seq![68u8, 69, 76, 69, 84, 69, 95, 83, 85, 66, 83, 67, 82]),
        68u8 => Some(seq![71u8, 69, 84, 95, 73, 84, 69, 82]),
        69u8 => Some(seq![71u8, 69, 84, 95, 89, 73, 69, 76, 68, 95, 70, 82, 79, 77, 95, 73, 84, 69, 82]),
        70u8 => Some(seq![80u8, 82, 73, 78, 84, 95, 69, 88, 80, 82]),
        71u8 => Some(seq![76u8, 79, 65, 68, 95, 66, 85, 73, 76, 68, 95, 67, 76, 65, 83, 83]),
        74u8 => Some(seq![76u8, 79, 65, 68, 95, 65, 83, 83, 69, 82, 84, 73, 79, 78, 95, 69, 82, 82, 79, 82]),
        75u8 => Some(seq![82u8, 69, 84, 85, 82, 78, 95, 71, 69, 78, 69, 82, 65, 84, 79, 82]),
        82u8 => Some(seq![76u8, 73, 83, 84, 95, 84, 79, 95, 84, 85, 80, 76, 69]),
        83u8 => Some(seq![82u8, 69, 84, 85, 82, 78, 95, 86, 65, 76, 85, 69]),
        84u8 => Some(seq![73u8, 77, 80, 79, 82, 84, 95, 83, 84, 65, 82]),
        85u8 => Some(seq![83u8, 69, 84, 85, 80, 95, 65, 78, 78, 79, 84, 65, 84, 73, 79, 78, 83]),
        86u8 => Some(seq![89u8, 73, 69, 76, 68, 95, 86, 65, 76, 85, 69]),
        87u8 => Some(seq![65u8, 83, 89, 78, 67, 95, 71, 69, 78, 95, 87, 82, 65, 80]),
        88u8 => Some(seq![80u8, 82, 69, 80, 95, 82, 69, 82, 65, 73, 83, 69, 95, 83, 84, 65, 82]),
        89u8 => Some(seq![80u8, 79, 80, 95, 69, 88, 67, 69, 80, 84]),
        90u8 => Some(seq![83u8, 84, 79, 82, 69, 95, 78, 65, 77, 69]),
        91u8 => Some(seq![68u8, 69, 76, 69, 84, 69, 95, 78, 65, 77, 69]),
        92u8 => Some(seq![85u8, 78, 80, 65, 67, 75, 95, 83, 69, 81, 85, 69, 78, 67, 69]),
        93u8 => Some(seq![70u8, 79, 82, 95, 73, 84, 69, 82]),
        94u8 => Some(seq![85u8, 78, 80, 65, 67, 75, 95, 69, 88]),
        95u8 => Some(seq![83u8, 84, 79, 82, 69, 95, 65, 84, 84, 82]),
        96u8 => Some(seq![68u8, 69, 76, 69, 84, 69, 95, 65, 84, 84, 82]),
        97u8 => Some(seq![83u8, 84, 79, 82, 69, 95, 71, 76, 79, 66, 65, 76]),
        98u8 => Some(seq![68u8, 69, 76, 69, 84, 69, 95, 71, 76, 79, 66, 65, 76]),
        99u8 => Some(seq![83u8, 87, 65, 80]),
        100u8 => Some(seq![76u8, 79, 65, 68, 95, 67, 79, 78, 83, 84]),
        101u8 => Some(seq![76u8, 79, 65, 68, 95, 78, 65, 77, 69]),
        102u8 => Some(seq![66u8, 85, 73, 76, 68, 95, 84, 85, 80, 76, 69]),
        103u8 => Some(seq![66u8, 85, 73, 76, 68, 95, 76, 73, 83, 84]),
        104u8 => Some(seq![66u8, 85, 73, 76, 68, 95, 83, 69, 84]),
        105u8 => Some(seq![66u8, 85, 73, 76, 68, 95, 77, 65, 80]),
        106u8 => Some(seq![76u8, 79, 65, 68, 95, 65, 84, 84, 82]),
        107u8 => Some(seq![67u8, 79, 77, 80, 65, 82, 69, 95, 79, 80]),
        108u8 => Some(seq![73u8, 77, 80, 79, 82, 84, 95, 78, 65, 77, 69]),
        109u8 => Some(seq![73u8, 77, 80, 79, 82, 84, 95, 70, 82, 79, 77]),
        110u8 => Some(seq![74u8, 85, 77, 80, 95, 70, 79, 82, 87, 65, 82, 68]),
        114u8 => Some(seq![80u8, 79, 80, 95, 74, 85, 77, 80, 95, 70, 79, 82, 87, 65, 82, 68, 95, 73, 70, 95, 70, 65, 76, 83, 69]),
        115u8 => Some(seq![80u8, 79, 80, 95, 74, 85, 77, 80, 95, 70, 79, 82, 87, 65, 82, 68, 95, 73, 70, 95, 84, 82, 85, 69]),
        116u8 => Some(seq![76u8, 79, 65, 68, 95, 71, 76, 79, 66, 65, 76]),
        117u8 => Some(seq![73u8, 83, 95, 79, 80]),
        118u8 => Some(seq![67u8, 79, 78, 84, 65, 73, 78, 83, 95, 79, 80]),
        119u8 => Some(seq![82u8, 69, 82, 65, 73, 83, 69]),
        120u8 => Some(seq![67u8, 79, 80, 89]),
        122u8 => Some(seq![66u8, 73, 78, 65, 82, 89, 95, 79, 80]),
        123u8 => Some(seq![83u8, 69, 78, 68]),
        124u8 => Some(seq![76u8, 79, 65, 68, 95, 70, 65, 83, 84]),
        125u8 => Some(seq![83u8, 84, 79, 82, 69, 95, 70, 65, 83, 84]),
        126u8 => Some(seq![68u8, 69, 76, 69, 84, 69, 95, 70, 65, 83, 84]),
        128u8 => Some(seq![80u8, 79, 80, 95, 74, 85, 77, 80, 95, 70, 79, 82, 87, 65, 82, 68, 95, 73, 70, 95, 78, 79, 84, 95, 78, 79, 78, 69]),
        129u8 => Some(seq![80u8, 79, 80, 95, 74, 85, 77, 80, 95, 70, 79, 82, 87, 65, 82, 68, 95, 73, 70, 95, 78, 79, 78, 69]),
        130u8 => Some(seq![82u8, 65, 73, 83, 69, 95, 86, 65, 82, 65, 82, 71, 83]),
        131u8 => Some(seq![71u8, 69, 84, 95, 65, 87, 65, 73, 84, 65, 66, 76, 69]),
        132u8 => Some(seq![77u8, 65, 75, 69, 95, 70, 85, 78, 67, 84, 73, 79, 78]),
        133u8 => Some(seq![66u8, 85, 73, 76, 68, 95, 83, 76, 73, 67, 69]),
        134u8 => Some(seq![74u8, 85, 77, 80, 95, 66, 65, 67, 75, 87, 65, 82, 68, 95, 78, 79, 95, 73, 78, 84, 69, 82, 82, 85, 80, 84]),
        135u8 => Some(seq![77u8, 65, 75, 69, 95, 67, 69, 76, 76]),
        136u8 => Some(seq![76u8, 79, 65, 68, 95, 67, 76, 79, 83, 85, 82, 69]),
        137u8 => Some(seq![76u8, 79, 65, 68, 95, 68, 69, 82, 69, 70]),
        138u8 => Some(seq![83u8, 84, 79, 82, 69, 95, 68, 69, 82, 69, 70]),
        139u8 => Some(seq![68u8, 69, 76, 69, 84, 69, 95, 68, 69, 82, 69, 70]),
        140u8 => Some(seq![74u8, 85, 77, 80, 95, 66, 65, 67, 75, 87, 65, 82, 68]),
        142u8 => Some(seq![67u8, 65, 76, 76, 95, 70, 85, 78, 67, 84, 73, 79, 78, 95, 69, 88]),
        144u8 => Some(seq![69u8, 88, 84, 69, 78, 68, 69, 68, 95, 65, 82, 71]),
        145u8 => Some(seq![76u8, 73, 83, 84, 95, 65, 80, 80, 69, 78, 68]),
        146u8 => Some(seq![83u8, 69, 84, 95, 65, 68, 68]),
        147u8 => Some(seq![77u8, 65, 80, 95, 65, 68, 68]),
        148u8 => Some(seq![76u8, 79, 65, 68, 95, 67, 76, 65, 83, 83, 68, 69, 82, 69, 70]),
        149u8 => Some(seq![67u8, 79, 80, 89, 95, 70, 82, 69, 69, 95, 86, 65, 82, 83]),
        151u8 => Some(seq![82u8, 69, 83, 85, 77, 69]),
        152u8 => Some(seq![77u8, 65, 84, 67, 72, 95, 67, 76, 65, 83, 83]),
        155u8 => Some(seq![70u8, 79, 82, 77, 65, 84, 95, 86, 65, 76, 85, 69]),
        156u8 => Some(seq![66u8, 85, 73, 76, 68, 95, 67, 79, 78, 83, 84, 95, 75, 69, 89, 95, 77, 65, 80]),
        157u8 => Some(seq![66u8, 85, 73, 76, 68, 95, 83, 84, 82, 73, 78, 71]),
        160u8 => Some(seq![76u8, 79, 65, 68, 95, 77, 69, 84, 72, 79, 68]),
        162u8 => Some(seq![76u8, 73, 83, 84, 95, 69, 88, 84, 69, 78, 68]),
        163u8 => Some(seq![83u8, 69, 84, 95, 85, 80, 68, 65, 84, 69]),
        164u8 => Some(seq![68u8, 73, 67, 84, 95, 77, 69, 82, 71, 69]),
        165u8 => Some(seq![68u8, 73, 67, 84, 95, 85, 80, 68, 65, 84, 69]),
        166u8 => Some(seq![80u8, 82, 69, 67, 65, 76, 76]),
        171u8 => Some(seq![67u8, 65, 76, 76]),
        172u8 => Some(seq![75u8, 87, 95, 78, 65, 77, 69, 83]),
        173u8 => Some(seq![80u8, 79, 80, 95, 74, 85, 77, 80, 95, 66, 65, 67, 75, 87, 65, 82, 68, 95, 73, 70, 95, 78, 79, 84, 95, 78, 79, 78, 69]),
        174u8 => Some(seq![80u8, 79, 80, 95, 74, 85, 77, 80, 95, 66, 65, 67, 75, 87, 65, 82, 68, 95, 73, 70, 95, 78, 79, 78, 69]),
        175u8 => Some(seq![80u8, 79, 80, 95, 74, 85, 77, 80, 95, 66, 65, 67, 75, 87, 65, 82, 68, 95, 73, 70, 95, 70, 65, 76, 83, 69]),
        176u8 => Some(seq![80u8, 79, 80, 95, 74, 85, 77, 80, 95, 66, 65, 67, 75, 87, 65, 82, 68, 95, 73, 70, 95, 84, 82, 85, 69]),
        _ => None,
    }
}

/// The mnemonic of an opcode, or `None` for a byte that names no opcode.
pub fn opcode_name(op: u8) -> (r: Option<Vec<u8>>)
    ensures
        r is Some <==> opcode_name_spec(op) is Some,
        r is Some ==> r->0@ == opcode_name_spec(op)->0,
{
    match op {
        0u8 => Some(vec![67u8, 65, 67, 72, 69]),
        1u8 => Some(vec![80u8, 79, 80, 95, 84, 79, 80]),
        2u8 => Some(vec![80u8, 85, 83, 72, 95, 78, 85, 76, 76]),
        9u8 => Some(vec![78u8, 79, 80]),
        10u8 => Some(vec![85u8, 78, 65, 82, 89, 95, 80, 79, 83, 73, 84, 73, 86, 69]),
        11u8 => Some(vec![85u8, 78, 65, 82, 89, 95, 78, 69, 71, 65, 84, 73, 86, 69]),
        12u8 => Some(vec![85u8, 78, 65, 82, 89, 95, 78, 79, 84]),
        15u8 => Some(vec![85u8, 78, 65, 82, 89, 95, 73, 78, 86, 69, 82, 84]),
        25u8 => Some(vec![66u8, 73, 78, 65, 82, 89, 95, 83, 85, 66, 83, 67, 82]),
        30u8 => Some(vec![71u8, 69, 84, 95, 76, 69, 78]),
        31u8 => Some(vec![77u8, 65, 84, 67, 72, 95, 77, 65, 80, 80, 73, 78, 71]),
        32u8 => Some(vec![77u8, 65, 84, 67, 72, 95, 83, 69, 81, 85, 69, 78, 67, 69]),
        33u8 => Some(vec![77u8, 65, 84, 67, 72, 95, 75, 69, 89, 83]),
        35u8 => Some(vec![80u8, 85, 83, 72, 95, 69, 88, 67, 95, 73, 78, 70, 79]),
        36u8 => Some(vec![67u8, 72, 69, 67, 75, 95, 69, 88, 67, 95, 77, 65, 84, 67, 72]),
        37u8 => Some(vec![67u8, 72, 69, 67, 75, 95, 69, 71, 95, 77, 65, 84, 67, 72]),
        49u8 => Some(vec![87u8, 73, 84, 72, 95, 69, 88, 67, 69, 80, 84, 95, 83, 84, 65, 82, 84]),
        50u8 => Some(vec![71u8, 69, 84, 95, 65, 73, 84, 69, 82]),
        51u8 => Some(vec![71u8, 69, 84, 95, 65, 78, 69, 88, 84]),
        52u8 => Some(vec![66u8, 69, 70, 79, 82, 69, 95, 65, 83, 89, 78, 67, 95, 87, 73, 84, 72]),
        53u8 => Some(vec![66u8, 69, 70, 79, 82, 69, 95, 87, 73, 84, 72]),
        54u8 => Some(vec![69u8, 78, 68, 95, 65, 83, 89, 78, 67, 95, 70, 79, 82]),
        60u8 => Some(vec![83u8, 84, 79, 82, 69, 95, 83, 85, 66, 83, 67, 82]),
        61u8 => Some(vec![68u8, 69, 76, 69, 84, 69, 95, 83, 85, 66, 83, 67, 82]),
        68u8 => Some(vec![71u8, 69, 84, 95, 73, 84, 69, 82]),
        69u8 => Some(vec![71u8, 69, 84, 95, 89, 73, 69, 76, 68, 95, 70, 82, 79, 77, 95, 73, 84, 69, 82]),
        70u8 => Some(vec![80u8, 82, 73, 78, 84, 95, 69, 88, 80, 82]),
        71u8 => Some(vec![76u8, 79, 65, 68, 95, 66, 85, 73, 76, 68, 95, 67, 76, 65, 83, 83]),
        74u8 => Some(vec![76u8, 79, 65, 68, 95, 65, 83, 83, 69, 82, 84, 73, 79, 78, 95, 69, 82, 82, 79, 82]),
        75u8 => Some(vec![82u8, 69, 84, 85, 82, 78, 95, 71, 69, 78, 69, 82, 65, 84, 79, 82]),
        82u8 => Some(vec![76u8, 73, 83, 84, 95, 84, 79, 95, 84, 85, 80, 76, 69]),
        83u8 => Some(vec![82u8, 69, 84, 85, 82, 78, 95, 86, 65, 76, 85, 69]),
        84u8 => Some(vec![73u8, 77, 80, 79, 82, 84, 95, 83, 84, 65, 82]),
        85u8 => Some(vec![83u8, 69, 84, 85, 80, 95, 65, 78, 78, 79, 84, 65, 84, 73, 79, 78, 83]),
        86u8 => Some(vec![89u8, 73, 69, 76, 68, 95, 86, 65, 76, 85, 69]),
        87u8 => Some(vec![65u8, 83, 89, 78, 67, 95, 71, 69, 78, 95, 87, 82, 65, 80]),
        88u8 => Some(vec![80u8, 82, 69, 80, 95, 82, 69, 82, 65, 73, 83, 69, 95, 83, 84, 65, 82]),
        89u8 => Some(vec![80u8, 79, 80, 95, 69, 88, 67, 69, 80, 84]),
        90u8 => Some(vec![83u8, 84, 79, 82, 69, 95, 78, 65, 77, 69]),
        91u8 => Some(vec![68u8, 69, 76, 69, 84, 69, 95, 78, 65, 77, 69]),
        92u8 => Some(vec![85u8, 78, 80, 65, 67, 75, 95, 83, 69, 81, 85, 69, 78, 67, 69]),
        93u8 => Some(vec![70u8, 79, 82, 95, 73, 84, 69, 82]),
        94u8 => Some(vec![85u8, 78, 80, 65, 67, 75, 95, 69, 88]),
        95u8 => Some(vec![83u8, 84, 79, 82, 69, 95, 65, 84, 84, 82]),
        96u8 => Some(vec![68u8, 69, 76, 69, 84, 69, 95, 65, 84, 84, 82]),
        97u8 => Some(vec![83u8, 84, 79, 82, 69, 95, 71, 76, 79, 66, 65, 76]),
        98u8 => Some(vec![68u8, 69, 76, 69, 84, 69, 95, 71, 76, 79, 66, 65, 76]),
        99u8 => Some(vec![83u8, 87, 65, 80]),
        100u8 => Some(vec![76u8, 79, 65, 68, 95, 67, 79, 78, 83, 84]),
        101u8 => Some(vec![76u8, 79, 65, 68, 95, 78, 65, 77, 69]),
        102u8 => Some(vec![66u8, 85, 73, 76, 68, 95, 84, 85, 80, 76, 69]),
        103u8 => Some(vec![66u8, 85, 73, 76, 68, 95, 76, 73, 83, 84]),
        104u8 => Some(vec![66u8, 85, 73, 76, 68, 95, 83, 69, 84]),
        105u8 => Some(vec![66u8, 85, 73, 76, 68, 95, 77, 65, 80]),
        106u8 => Some(vec![76u8, 79, 65, 68, 95, 65, 84, 84, 82]),
        107u8 => Some(vec![67u8, 79, 77, 80, 65, 82, 69, 95, 79, 80]),
        108u8 => Some(vec![73u8, 77, 80, 79, 82, 84, 95, 78, 65, 77, 69]),
        109u8 => Some(vec![73u8, 77, 80, 79, 82, 84, 95, 70, 82, 79, 77]),
        110u8 => Some(vec![74u8, 85, 77, 80, 95, 70, 79, 82, 87, 65, 82, 68]),
        114u8 => Some(vec![80u8, 79, 80, 95, 74, 85, 77, 80, 95, 70, 79, 82, 87, 65, 82, 68, 95, 73, 70, 95, 70, 65, 76, 83, 69]),
        115u8 => Some(vec![80u8, 79, 80, 95, 74, 85, 77, 80, 95, 70, 79, 82, 87, 65, 82, 68, 95, 73, 70, 95, 84, 82, 85, 69]),
        116u8 => Some(vec![76u8, 79, 65, 68, 95, 71, 76, 79, 66, 65, 76]),
        117u8 => Some(vec![73u8, 83, 95, 79, 80]),
        118u8 => Some(vec![67u8, 79, 78, 84, 65, 73, 78, 83, 95, 79, 80]),
        119u8 => Some(vec![82u8, 69, 82, 65, 73, 83, 69]),
        120u8 => Some(vec![67u8, 79, 80, 89]),
        122u8 => Some(vec![66u8, 73, 78, 65, 82, 89, 95, 79, 80]),
        123u8 => Some(vec![83u8, 69, 78, 68]),
        124u8 => Some(vec![76u8, 79, 65, 68, 95, 70, 65, 83, 84]),
        125u8 => Some(vec![83u8, 84, 79, 82, 69, 95, 70, 65, 83, 84]),
        126u8 => Some(vec![68u8, 69, 76, 69, 84, 69, 95, 70, 65, 83, 84]),
        128u8 => Some(vec![80u8, 79, 80, 95, 74, 85, 77, 80, 95, 70, 79, 82, 87, 65, 82, 68, 95, 73, 70, 95, 78, 79, 84, 95, 78, 79, 78, 69]),
        129u8 => Some(vec![80u8, 79, 80, 95, 74, 85, 77, 80, 95, 70, 79, 82, 87, 65, 82, 68, 95, 73, 70, 95, 78, 79, 78, 69]),
        130u8 => Some(vec![82u8, 65, 73, 83, 69, 95, 86, 65, 82, 65, 82, 71, 83]),
        131u8 => Some(vec![71u8, 69, 84, 95, 65, 87, 65, 73, 84, 65, 66, 76, 69]),
        132u8 => Some(vec![77u8, 65, 75, 69, 95, 70, 85, 78, 67, 84, 73, 79, 78]),
        133u8 => Some(vec![66u8, 85, 73, 76, 68, 95, 83, 76, 73, 67, 69]),
        134u8 => Some(vec![74u8, 85, 77, 80, 95, 66, 65, 67, 75, 87, 65, 82, 68, 95, 78, 79, 95, 73, 78, 84, 69, 82, 82, 85, 80, 84]),
        135u8 => Some(vec![77u8, 65, 75, 69, 95, 67, 69, 76, 76]),
        136u8 => Some(vec![76u8, 79, 65, 68, 95, 67, 76, 79, 83, 85, 82, 69]),
        137u8 => Some(vec![76u8, 79, 65, 68, 95, 68, 69, 82, 69, 70]),
        138u8 => Some(vec![83u8, 84, 79, 82, 69, 95, 68, 69, 82, 69, 70]),
        139u8 => Some(vec![68u8, 69, 76, 69, 84, 69, 95, 68, 69, 82, 69, 70]),
        140u8 => Some(vec![74u8, 85, 77, 80, 95, 66, 65, 67, 75, 87, 65, 82, 68]),
        142u8 => Some(vec![67u8, 65, 76, 76, 95, 70, 85, 78, 67, 84, 73, 79, 78, 95, 69, 88]),
        144u8 => Some(vec![69u8, 88, 84, 69, 78, 68, 69, 68, 95, 65, 82, 71]),
        145u8 => Some(vec![76u8, 73, 83, 84, 95, 65, 80, 80, 69, 78, 68]),
        146u8 => Some(vec![83u8, 69, 84, 95, 65, 68, 68]),
        147u8 => Some(vec![77u8, 65, 80, 95, 65, 68, 68]),
        148u8 => Some(vec![76u8, 79, 65, 68, 95, 67, 76, 65, 83, 83, 68, 69, 82, 69, 70]),
        149u8 => Some(vec![67u8, 79, 80, 89, 95, 70, 82, 69, 69, 95, 86, 65, 82, 83]),
        151u8 => Some(vec![82u8, 69, 83, 85, 77, 69]),
        152u8 => Some(vec![77u8, 65, 84, 67, 72, 95, 67, 76, 65, 83, 83]),
        155u8 => Some(vec![70u8, 79, 82, 77, 65, 84, 95, 86, 65, 76, 85, 69]),
        156u8 => Some(vec![66u8, 85, 73, 76, 68, 95, 67, 79, 78, 83, 84, 95, 75, 69, 89, 95, 77, 65, 80]),
        157u8 => Some(vec![66u8, 85, 73, 76, 68, 95, 83, 84, 82, 73, 78, 71]),
        160u8 => Some(vec![76u8, 79, 65, 68, 95, 77, 69, 84, 72, 79, 68]),
        162u8 => Some(vec![76u8, 73, 83, 84, 95, 69, 88, 84, 69, 78, 68]),
        163u8 => Some(vec![83u8, 69, 84, 95, 85, 80, 68, 65, 84, 69]),
        164u8 => Some(vec![68u8, 73, 67, 84, 95, 77, 69, 82, 71, 69]),
        165u8 => Some(vec![68u8, 73, 67, 84, 95, 85, 80, 68, 65, 84, 69]),
        166u8 => Some(vec![80u8, 82, 69, 67, 65, 76, 76]),
        171u8 => Some(vec![67u8, 65, 76, 76]),
        172u8 => Some(vec![75u8, 87, 95, 78, 65, 77, 69, 83]),
        173u8 => Some(vec![80u8, 79, 80, 95, 74, 85, 77, 80, 95, 66, 65, 67, 75, 87, 65, 82, 68, 95, 73, 70, 95, 78, 79, 84, 95, 78, 79, 78, 69]),
        174u8 => Some(vec![80u8, 79, 80, 95, 74, 85, 77, 80, 95, 66, 65, 67, 75, 87, 65, 82, 68, 95, 73, 70, 95, 78, 79, 78, 69]),
        175u8 => Some(vec![80u8, 79, 80, 95, 74, 85, 77, 80, 95, 66, 65, 67, 75, 87, 65, 82, 68, 95, 73, 70, 95, 70, 65, 76, 83, 69]),
        176u8 => Some(vec![80u8, 79, 80, 95, 74, 85, 77, 80, 95, 66, 65, 67, 75, 87, 65, 82, 68, 95, 73, 70, 95, 84, 82, 85, 69]),
        _ => None,
    }
}

} // verus!
