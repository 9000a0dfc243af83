use pyc_vm::error::VmError;
use pyc_vm::object::{
    iter_next, CallableObject, IntObject, IterObject, ListObject, NativeFn, NoneObject, NullObject,
    ObjectType, StringObject, TrueObject, TupleObject,
};

#[test]
fn tags_decode_with_reference_flag_cleared() {
    assert_eq!(ObjectType::from_tag(b'i'), Some(ObjectType::INT));
    assert_eq!(ObjectType::from_tag(b'i' | 0x80), Some(ObjectType::INT));
    assert_eq!(ObjectType::from_tag(b')'), Some(ObjectType::SMALL_TUPLE));
    assert_eq!(ObjectType::from_tag(b'Z' | 0x80), Some(ObjectType::SHORT_ASCII_INTERNED));
    assert_eq!(ObjectType::from_tag(b'!'), None);
}

#[test]
fn hash_keys_of_scalars() {
    let a = IntObject::new_from_i32(-42);
    assert_eq!(a.hash_key().unwrap(), b"$Int_-42".to_vec());
    assert_eq!(a.hash_key(), a.hash_key());
    let s = StringObject::new_from_str("print");
    assert_eq!(s.hash_key().unwrap(), b"$String_print".to_vec());
    assert_eq!(s.hash_key(), s.hash_key());
    assert_eq!(NoneObject::new().hash_key(), None);
}

#[test]
fn int_and_string_with_same_text_hash_differently() {
    let i = IntObject::new_from_i32(1);
    let s = StringObject::new_from_str("1");
    assert_ne!(i.hash_key(), s.hash_key());
}

#[test]
fn invalid_utf8_string_hashes_as_empty_text() {
    let s = StringObject::new_from_bytes(vec![0xff, 0xfe]);
    assert_eq!(s.hash_key().unwrap(), b"$String_".to_vec());
}

#[test]
fn string_text_goes_through_utf8_decoding() {
    let good = StringObject { data: "hé".as_bytes().to_vec() };
    assert_eq!(good.string(), "hé".to_string());
    assert!(good.is_text());
    let bad = StringObject { data: vec![0xc3] };
    assert_eq!(bad.string(), String::new());
    assert!(!bad.is_text());
}

#[test]
fn equal_containers_from_different_paths() {
    let a = TupleObject::new_from_values(vec![IntObject::new_from_i32(1), StringObject::new_from_str("x")]);
    let mut list = ListObject { values: vec![] };
    list.extend_impl(&vec![IntObject::new_from_i32(1), StringObject::new_from_str("x")]);
    let b = TupleObject::new_from_values(list.values);
    assert!(a.equals(&b));
    assert!(a.copy().equals(&a));
    let c = TupleObject::new_from_values(vec![IntObject::new_from_i32(1)]);
    assert!(!a.equals(&c));
    assert!(!IntObject::new_from_i32(1).equals(&StringObject::new_from_str("1")));
    assert!(NoneObject::new().equals(&NoneObject::new()));
}

#[test]
fn display_forms() {
    assert_eq!(NoneObject::new().display().unwrap(), b"None".to_vec());
    assert_eq!(TrueObject::new().display().unwrap(), b"True".to_vec());
    let t = TupleObject::new_from_values(vec![IntObject::new_from_i32(1), StringObject::new_from_str("a")]);
    assert_eq!(t.display().unwrap(), b"(1, a)".to_vec());
    let l = ListObject::new_from_values(vec![]);
    assert_eq!(l.display().unwrap(), b"[]".to_vec());
    assert_eq!(NullObject::new().display(), None);
    let nested = ListObject::new_from_values(vec![NullObject::new()]);
    assert_eq!(nested.display(), None);
}

#[test]
fn list_extend_accepts_lists_and_tuples() {
    let base = ListObject::new_from_values(vec![IntObject::new_from_i32(1)]);
    let other = TupleObject::new_from_values(vec![IntObject::new_from_i32(2)]);
    let r = ListObject::extend(base, &other);
    assert_eq!(r.display().unwrap(), b"[1, 2]".to_vec());
    let r = ListObject::extend(r, &ListObject::new_from_values(vec![IntObject::new_from_i32(3)]));
    assert_eq!(r.display().unwrap(), b"[1, 2, 3]".to_vec());
}

#[test]
fn iterator_walks_a_snapshot() {
    let t = TupleObject::new_from_values(vec![IntObject::new_from_i32(1), IntObject::new_from_i32(2)]);
    let mut args = vec![t.to_iter().unwrap()];
    let a = iter_next(&mut args).unwrap();
    let b = iter_next(&mut args).unwrap();
    let c = iter_next(&mut args).unwrap();
    assert!(a.equals(&IntObject::new_from_i32(1)));
    assert!(b.equals(&IntObject::new_from_i32(2)));
    assert!(c.is_null());
    let mut not_iter = vec![IntObject::new_from_i32(1)];
    assert_eq!(iter_next(&mut not_iter).err(), Some(VmError::TypeMismatch));
    let mut it = IterObject { cur_index: 0, values: vec![] };
    assert!(it.next().is_none());
}

#[test]
fn callables_report_their_kind() {
    let f = CallableObject::new_native(NativeFn::Print);
    match f {
        pyc_vm::object::PyObject::Callable(c) => assert!(c.is_native()),
        _ => panic!("not a callable"),
    }
}

#[test]
fn string_iterates_over_characters() {
    let s = StringObject::new_from_str("hé");
    let mut args = vec![s.to_iter().unwrap()];
    let a = iter_next(&mut args).unwrap();
    let b = iter_next(&mut args).unwrap();
    let c = iter_next(&mut args).unwrap();
    assert!(a.equals(&StringObject::new_from_str("h")));
    assert!(b.equals(&StringObject::new_from_str("é")));
    assert!(c.is_null());
    let bad = StringObject::new_from_bytes(vec![0xff]);
    let mut args = vec![bad.to_iter().unwrap()];
    assert!(iter_next(&mut args).unwrap().is_null());
    assert_eq!(IntObject::new_from_i32(1).to_iter().err(), Some(VmError::TypeMismatch));
}

#[test]
fn iterators_have_a_next_method() {
    let it = IterObject::new(vec![]);
    let m = it.get_attr(&b"next".to_vec()).unwrap();
    assert!(m.equals(&CallableObject::new_native(NativeFn::IterNext)));
    assert_eq!(it.get_attr(&b"prev".to_vec()).err(), Some(VmError::UndefinedName));
    assert_eq!(NoneObject::new().get_attr(&b"next".to_vec()).err(), Some(VmError::UndefinedName));
}
