use pyc_vm::error::VmError;
use pyc_vm::frame::Frame;
use pyc_vm::interpreter::{Interpreter, StepOutcome};
use pyc_vm::magic::Magic;
use pyc_vm::marshal::PycParser;
use pyc_vm::object::{
    CallableObject, Callee, CodeObject, IntObject, NoneObject, PyObject, StringObject, TupleObject,
};
use pyc_vm::stream::InputStream;

fn le32(v: u32) -> Vec<u8> {
    v.to_le_bytes().to_vec()
}

fn code_object(num_args: u32, code: Vec<u8>, consts: Vec<PyObject>, names: Vec<PyObject>) -> CodeObject {
    let mut c = CodeObject::empty();
    c.num_args = Some(num_args);
    c.num_stack = Some(8);
    c.code = code;
    c.constants = Some(TupleObject::new_from_values(consts));
    c.names = Some(TupleObject::new_from_values(names));
    c
}

#[test]
fn int_and_reference_records() {
    let mut bytes = vec![b'i' | 0x80];
    bytes.extend(le32(7));
    bytes.push(b'r');
    bytes.extend(le32(0));
    let mut s = InputStream::new(bytes);
    let a = PycParser::marshal_object(&mut s, Magic::MAGIC3_11).unwrap();
    let b = PycParser::marshal_object(&mut s, Magic::MAGIC3_11).unwrap();
    assert!(a.equals(&IntObject::new_from_i32(7)));
    assert!(b.equals(&IntObject::new_from_i32(7)));
    assert!(s.finish());
}

#[test]
fn self_referencing_tuple_gets_its_slot() {
    // A one-element tuple whose element refers back to the tuple's own slot.
    let mut bytes = vec![b'('];
    bytes.extend(le32(1));
    bytes.push(b'r');
    bytes.extend(le32(0));
    let mut s = InputStream::new(bytes);
    let t = PycParser::marshal_object(&mut s, Magic::MAGIC3_11).unwrap();
    match &t {
        PyObject::Tuple(x) => {
            assert_eq!(x.values.len(), 1);
            assert!(x.values[0].is_null());
        },
        _ => panic!("not a tuple"),
    }
    assert!(s.get_ref(0).equals(&t));
}

#[test]
fn malformed_records_are_reported() {
    let mut s = InputStream::new(vec![b'!']);
    assert_eq!(PycParser::marshal_object(&mut s, Magic::MAGIC3_11).err(), Some(VmError::UnknownTag(b'!')));
    let mut s = InputStream::new(vec![b'r', 3, 0, 0, 0]);
    assert_eq!(PycParser::marshal_object(&mut s, Magic::MAGIC3_11).err(), Some(VmError::BadReference(3)));
    let mut s = InputStream::new(vec![b'i', 1, 2]);
    assert_eq!(PycParser::marshal_object(&mut s, Magic::MAGIC3_11).err(), Some(VmError::UnexpectedEof));
    let mut s = InputStream::new(vec![b'g']);
    assert_eq!(PycParser::marshal_object(&mut s, Magic::MAGIC3_11).err(), Some(VmError::UnsupportedRecord(b'g')));
}

#[test]
fn dict_record_ends_at_null_key() {
    let mut bytes = vec![b'{', b'z', 1, b'k', b'i'];
    bytes.extend(le32(5));
    bytes.push(b'0');
    let mut s = InputStream::new(bytes);
    let d = PycParser::marshal_object(&mut s, Magic::MAGIC3_11).unwrap();
    assert_eq!(d.display().unwrap(), b"{k: 5}".to_vec());
}

/// A 3.11 image whose code object returns its only constant, `None`.
fn minimal_image() -> Vec<u8> {
    let mut b = le32(0x0A0D0DA7);
    b.extend(le32(0));
    b.extend(le32(0));
    b.extend(le32(0));
    b.push(b'c' | 0x80);
    b.extend(le32(0)); // arguments
    b.extend(le32(0)); // positional-only
    b.extend(le32(0)); // keyword-only
    b.extend(le32(1)); // stack size
    b.extend(le32(0)); // flags
    b.push(b's');
    b.extend(le32(4));
    b.extend([100, 0, 83, 0]); // LOAD_CONST 0; RETURN_VALUE
    b.extend([b')', 1, b'N']); // constants
    b.extend([b')', 0]); // names
    b.extend([b')', 0]); // local names
    b.push(b's');
    b.extend(le32(0)); // local kinds
    b.extend([b'z', 1, b'f']); // file name
    b.extend([b'z', 1, b'm']); // name
    b.extend([b'z', 1, b'm']); // qualified name
    b.extend(le32(1)); // first line
    b.push(b's');
    b.extend(le32(0)); // line table
    b.push(b's');
    b.extend(le32(0)); // exception table
    b
}

#[test]
fn end_to_end_minimal_image() {
    let parser = PycParser::new(minimal_image()).unwrap();
    assert_eq!(parser.header.magic, Magic::MAGIC3_11);
    assert_eq!(parser.code_object.code(), vec![100, 0, 83, 0]);
    assert_eq!(parser.code_object.num_args(), Some(0));
    let listing = parser.code_object.dump_code().unwrap();
    assert_eq!(listing, b"0: LOAD_CONST  arg=0\n2: RETURN_VALUE\n".to_vec());
    let mut vm = Interpreter::new(&parser.code_object).unwrap();
    let lines = vm.run().unwrap();
    assert!(lines.is_empty());
    assert!(vm.return_value().unwrap().equals(&NoneObject::new()));
    assert!(vm.is_finished());
}

#[test]
fn image_errors() {
    assert_eq!(PycParser::new(vec![1, 2]).err(), Some(VmError::UnexpectedEof));
    assert_eq!(PycParser::new(le32(7)).err(), Some(VmError::UnknownMagic(7)));
    let mut b = le32(0x0A0D0DA7);
    b.extend(le32(0));
    b.extend(le32(0));
    b.extend(le32(0));
    b.push(b'N');
    assert_eq!(PycParser::new(b).err(), Some(VmError::WrongRecordKind));
}

#[test]
fn call_and_return() {
    // def f(x): return x + 10
    let f = code_object(1, vec![124, 0, 100, 0, 122, 0, 0, 0, 83, 0], vec![IntObject::new_from_i32(10)], vec![]);
    // f(5), then return the result
    let root = code_object(
        0,
        vec![2, 0, 100, 0, 132, 0, 100, 1, 166, 1, 0, 0, 171, 1, 0, 0, 0, 0, 0, 0, 0, 0, 83, 0],
        vec![PyObject::Code(Box::new(f)), IntObject::new_from_i32(5)],
        vec![],
    );
    let mut vm = Interpreter::new(&root).unwrap();
    while vm.return_value().is_none() {
        vm.step().unwrap();
    }
    let stack = vm.current_stack();
    assert_eq!(stack.len(), 1);
    assert!(stack[0].equals(&IntObject::new_from_i32(15)));
    vm.run().unwrap();
    assert!(vm.return_value().unwrap().equals(&IntObject::new_from_i32(15)));
    assert!(vm.is_finished());
}

#[test]
fn locals_shadow_builtins() {
    // print = 7; return print
    let root = code_object(
        0,
        vec![100, 0, 90, 0, 101, 0, 83, 0],
        vec![IntObject::new_from_i32(7)],
        vec![StringObject::new_from_str("print")],
    );
    let mut vm = Interpreter::new(&root).unwrap();
    vm.run().unwrap();
    assert!(vm.return_value().unwrap().equals(&IntObject::new_from_i32(7)));
}

#[test]
fn undefined_name_is_reported() {
    let root = code_object(0, vec![101, 0, 83, 0], vec![], vec![StringObject::new_from_str("nowhere")]);
    let mut vm = Interpreter::new(&root).unwrap();
    assert_eq!(vm.run().err(), Some(VmError::UndefinedName));
}

#[test]
fn default_arguments_fill_parameters() {
    let code = code_object(3, vec![83, 0], vec![], vec![]);
    let callable = CallableObject { callee: Callee::Bytecode(Box::new(code), vec![IntObject::new_from_i32(30)]) };
    let frame = Frame::new_from_callable(&callable, vec![IntObject::new_from_i32(10), IntObject::new_from_i32(20)]).unwrap();
    assert!(frame.load_fast(0).equals(&IntObject::new_from_i32(10)));
    assert!(frame.load_fast(1).equals(&IntObject::new_from_i32(20)));
    assert!(frame.load_fast(2).equals(&IntObject::new_from_i32(30)));
    assert!(!frame.has_fast(3));
}

#[test]
fn print_builtin_writes_a_line() {
    // print(42, "!"); return None
    let root = code_object(
        0,
        vec![2, 0, 101, 0, 100, 0, 100, 1, 166, 2, 0, 0, 171, 2, 0, 0, 0, 0, 0, 0, 0, 0, 1, 0, 100, 2, 83, 0],
        vec![IntObject::new_from_i32(42), StringObject::new_from_str("!"), NoneObject::new()],
        vec![StringObject::new_from_str("print")],
    );
    let mut vm = Interpreter::new(&root).unwrap();
    let lines = vm.run().unwrap();
    assert_eq!(lines, vec![b"42!\n".to_vec()]);
}

#[test]
fn comparison_and_conditional_jump() {
    // if 1 < 2: return 1 else: return 2
    let root = code_object(
        0,
        vec![100, 0, 100, 1, 107, 0, 0, 0, 0, 0, 114, 2, 100, 0, 83, 0, 100, 1, 83, 0],
        vec![IntObject::new_from_i32(1), IntObject::new_from_i32(2)],
        vec![],
    );
    let mut vm = Interpreter::new(&root).unwrap();
    vm.run().unwrap();
    assert!(vm.return_value().unwrap().equals(&IntObject::new_from_i32(1)));
}

#[test]
fn step_reports_each_outcome() {
    let root = code_object(0, vec![9, 0], vec![], vec![]);
    let mut vm = Interpreter::new(&root).unwrap();
    assert_eq!(vm.step().err(), Some(VmError::UnsupportedOpcode(9)));
    let root = code_object(0, vec![151, 0], vec![], vec![]);
    let mut vm = Interpreter::new(&root).unwrap();
    assert!(matches!(vm.step(), Ok(StepOutcome::Continue)));
    assert!(matches!(vm.step(), Ok(StepOutcome::Finished)));
    assert!(vm.is_finished());
    let root = code_object(0, vec![83, 0], vec![], vec![]);
    let mut vm = Interpreter::new(&root).unwrap();
    assert_eq!(vm.step().err(), Some(VmError::StackUnderflow));
}

#[test]
fn strip_cache_drops_cache_opcodes() {
    let mut c = code_object(0, vec![151, 0, 0, 0, 1, 0, 83, 0], vec![], vec![]);
    c.strip_cache();
    assert_eq!(c.code, vec![151, 0, 1, 83]);
}

#[test]
fn ascii_strings_enter_the_table_but_byte_strings_do_not() {
    let mut bytes = vec![b's'];
    bytes.extend(le32(1));
    bytes.push(b'x');
    bytes.push(b'a' | 0x80);
    bytes.extend(le32(1));
    bytes.push(b'y');
    let mut s = InputStream::new(bytes);
    PycParser::marshal_object(&mut s, Magic::MAGIC3_11).unwrap();
    assert_eq!(s.ref_count(), 0);
    PycParser::marshal_object(&mut s, Magic::MAGIC3_11).unwrap();
    assert_eq!(s.ref_count(), 1);
    assert!(s.get_ref(0).equals(&StringObject::new_from_str("y")));
}

#[test]
fn tuple_encodings_compare_equal() {
    let mut long = vec![b'('];
    long.extend(le32(2));
    long.push(b'i');
    long.extend(le32(1));
    long.push(b'N');
    let mut short = vec![b')', 2, b'i'];
    short.extend(le32(1));
    short.push(b'N');
    let a = PycParser::marshal_object(&mut InputStream::new(long), Magic::MAGIC3_11).unwrap();
    let b = PycParser::marshal_object(&mut InputStream::new(short), Magic::MAGIC3_11).unwrap();
    assert!(a.equals(&b));
    assert!(b.equals(&a));
}

#[test]
fn cache_slots_are_two_bytes_each() {
    let code = code_object(0, vec![0; 6], vec![], vec![]);
    let mut frame = Frame::new_from_code(&code).unwrap();
    frame.skip_codes_of(2).unwrap();
    frame.skip_codes_of(1).unwrap();
    assert!(frame.finish());
    assert_eq!(frame.skip_codes_of(1).err(), Some(VmError::SeekOutOfRange));
}

#[test]
fn strip_cache_is_idempotent_and_keeps_other_fields() {
    let mut c = code_object(2, vec![151, 0, 0, 0, 1, 0, 100, 0, 83, 0], vec![IntObject::new_from_i32(4)], vec![]);
    c.strip_cache();
    let once = c.code.clone();
    c.strip_cache();
    assert_eq!(c.code, once);
    assert_eq!(c.num_args, Some(2));
    assert_eq!(c.num_stack, Some(8));
}
