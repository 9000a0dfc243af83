use pyc_vm::error::VmError;
use pyc_vm::stream::InputStream;

#[test]
fn test_input_stream() {
    let arr: Vec<u8> = vec![1, 2, 3, 4, 5];
    let mut stream = InputStream::new(arr);
    assert_eq!(stream.read_u32().unwrap(), 0x04030201);
    assert_eq!(stream.read().unwrap(), 5);
    stream.unread(1).unwrap();
    assert_eq!(stream.read().unwrap(), 5);
}

#[test]
fn reads_fail_at_end_without_moving() {
    let mut stream = InputStream::new(vec![1, 2, 3]);
    assert_eq!(stream.read_u32(), Err(VmError::UnexpectedEof));
    assert_eq!(stream.read_u16().unwrap(), 0x0201);
    assert_eq!(stream.read_u16(), Err(VmError::UnexpectedEof));
    assert_eq!(stream.read().unwrap(), 3);
    assert!(stream.finish());
    assert_eq!(stream.read(), Err(VmError::UnexpectedEof));
}

#[test]
fn reads_signed_and_wide_values() {
    let mut stream = InputStream::new(vec![0xfe, 0xff, 0xff, 0xff, 1, 0, 0, 0, 0, 0, 0, 0x80]);
    assert_eq!(stream.read_i32().unwrap(), -2);
    assert_eq!(stream.read_i64().unwrap(), i64::MIN + 1);
    let mut stream = InputStream::new(vec![0xff; 8]);
    assert_eq!(stream.read_long().unwrap(), u64::MAX);
}

#[test]
fn jumps_stay_inside_the_buffer() {
    let mut stream = InputStream::new(vec![0; 10]);
    stream.jump_offset(6).unwrap();
    stream.jump_offset(-6).unwrap();
    assert_eq!(stream.jump_offset(-1), Err(VmError::SeekOutOfRange));
    assert_eq!(stream.jump_offset(11), Err(VmError::SeekOutOfRange));
    stream.jump_offset(10).unwrap();
    assert!(stream.finish());
    assert_eq!(stream.forward(1), Err(VmError::SeekOutOfRange));
}

#[test]
fn depth_counter_goes_up_and_down() {
    let mut stream = InputStream::new(vec![]);
    assert_eq!(stream.depth(), 0);
    stream.inc_depth();
    stream.inc_depth();
    stream.dec_depth();
    assert_eq!(stream.depth(), 1);
}

#[test]
fn reference_table_reserve_and_fill() {
    let mut stream = InputStream::new(vec![]);
    let idx = stream.reserve_ref();
    assert_eq!(idx, 0);
    assert!(stream.get_ref(0).is_null());
    stream.set_ref(0, pyc_vm::object::IntObject::new_from_i32(9));
    assert!(stream.get_ref(0).equals(&pyc_vm::object::IntObject::new_from_i32(9)));
    assert_eq!(stream.ref_count(), 1);
}
