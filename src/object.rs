use vstd::prelude::*;

use crate::error::VmError;
use vstd::string::StringSliceAdditionalSpecFns;

verus! {

/// Kind of a serialized record, named by its tag character.
#[allow(non_camel_case_types)]
#[derive(Clone, Copy, PartialEq, Eq, Structural, Debug)]
pub enum ObjectType {
    NULL,
    NONE,
    FALSE,
    TRUE,
    STOPITER,
    ELLIPSIS,
    INT,
    INT64,
    FLOAT,
    BINARY_FLOAT,
    COMPLEX,
    BINARY_COMPLEX,
    LONG,
    STRING,
    INTERNED,
    REF,
    STRINGREF,
    TUPLE,
    LIST,
    DICT,
    CODE,
    UNICODE,
    UNKNOWN,
    SET,
    FROZENSET,
    ASCII,
    ASCII_INTERNED,
    SMALL_TUPLE,
    SHORT_ASCII,
    SHORT_ASCII_INTERNED,
    CALLABLE,
    ITER,
}

/// High bit of a tag byte: the record may be the target of a later reference.
pub const FLAG_REF: u8 = 0x80;

/// The kind named by a tag byte once its reference flag is cleared.
pub open spec fn tag_type(b: u8) -> Option<ObjectType> {
    tag_char_type((b % 128) as u8)
}

/// The kind named by a tag character.
pub open spec fn tag_char_type(c: u8) -> Option<ObjectType> {
    match c {
        48u8 => Some(ObjectType::NULL),
        78u8 => Some(ObjectType::NONE),
        70u8 => Some(ObjectType::FALSE),
        84u8 => Some(ObjectType::TRUE),
        83u8 => Some(ObjectType::STOPITER),
        46u8 => Some(ObjectType::ELLIPSIS),
        105u8 => Some(ObjectType::INT),
        73u8 => Some(ObjectType::INT64),
        102u8 => Some(ObjectType::FLOAT),
        103u8 => Some(ObjectType::BINARY_FLOAT),
        120u8 => Some(ObjectType::COMPLEX),
        121u8 => Some(ObjectType::BINARY_COMPLEX),
        108u8 => Some(ObjectType::LONG),
        115u8 => Some(ObjectType::STRING),
        116u8 => Some(ObjectType::INTERNED),
        114u8 => Some(ObjectType::REF),
        82u8 => Some(ObjectType::STRINGREF),
        40u8 => Some(ObjectType::TUPLE),
        91u8 => Some(ObjectType::LIST),
        123u8 => Some(ObjectType::DICT),
        99u8 => Some(ObjectType::CODE),
        67u8 => Some(ObjectType::CALLABLE),
        117u8 => Some(ObjectType::UNICODE),
        63u8 => Some(ObjectType::UNKNOWN),
        60u8 => Some(ObjectType::SET),
        62u8 => Some(ObjectType::FROZENSET),
        97u8 => Some(ObjectType::ASCII),
        65u8 => Some(ObjectType::ASCII_INTERNED),
        41u8 => Some(ObjectType::SMALL_TUPLE),
        122u8 => Some(ObjectType::SHORT_ASCII),
        90u8 => Some(ObjectType::SHORT_ASCII_INTERNED),
        _ => None,
    }
}

impl ObjectType {
    /// Decodes a tag byte, ignoring its reference flag; `None` for an unknown tag.
    pub fn from_tag(b: u8) -> (r: Option<ObjectType>)
        ensures
            r == tag_type(b),
    {
        let c: u8 = b % 128;
        match c {
            48u8 => Some(ObjectType::NULL),
            78u8 => Some(ObjectType::NONE),
            70u8 => Some(ObjectType::FALSE),
            84u8 => Some(ObjectType::TRUE),
            83u8 => Some(ObjectType::STOPITER),
            46u8 => Some(ObjectType::ELLIPSIS),
            105u8 => Some(ObjectType::INT),
            73u8 => Some(ObjectType::INT64),
            102u8 => Some(ObjectType::FLOAT),
            103u8 => Some(ObjectType::BINARY_FLOAT),
            120u8 => Some(ObjectType::COMPLEX),
            121u8 => Some(ObjectType::BINARY_COMPLEX),
            108u8 => Some(ObjectType::LONG),
            115u8 => Some(ObjectType::STRING),
            116u8 => Some(ObjectType::INTERNED),
            114u8 => Some(ObjectType::REF),
            82u8 => Some(ObjectType::STRINGREF),
            40u8 => Some(ObjectType::TUPLE),
            91u8 => Some(ObjectType::LIST),
            123u8 => Some(ObjectType::DICT),
            99u8 => Some(ObjectType::CODE),
            67u8 => Some(ObjectType::CALLABLE),
            117u8 => Some(ObjectType::UNICODE),
            63u8 => Some(ObjectType::UNKNOWN),
            60u8 => Some(ObjectType::SET),
            62u8 => Some(ObjectType::FROZENSET),
            97u8 => Some(ObjectType::ASCII),
            65u8 => Some(ObjectType::ASCII_INTERNED),
            41u8 => Some(ObjectType::SMALL_TUPLE),
            122u8 => Some(ObjectType::SHORT_ASCII),
            90u8 => Some(ObjectType::SHORT_ASCII_INTERNED),
            _ => None,
        }
    }
}

/// Host functions that a callable value may stand for.
#[derive(Clone, Copy, PartialEq, Eq, Structural, Debug)]
pub enum NativeFn {
    Print,
    IterNext,
}

/// Mathematical model of a code object.
pub ghost struct CodeView {
    pub num_args: Option<u32>,
    pub num_pos_only_args: Option<u32>,
    pub num_kw_only_args: Option<u32>,
    pub num_locals: Option<u32>,
    pub num_stack: Option<u32>,
    pub flags: Option<u32>,
    pub first_line: Option<u32>,
    pub code: Seq<u8>,
    pub constants: Option<Obj>,
    pub names: Option<Obj>,
    pub local_names: Option<Obj>,
    pub local_kinds: Option<Obj>,
    pub free_vars: Option<Obj>,
    pub cell_vars: Option<Obj>,
    pub file_name: Option<Obj>,
    pub name: Option<Obj>,
    pub qualified_name: Option<Obj>,
    pub line_table: Option<Obj>,
    pub exception_table: Option<Obj>,
}

/// Mathematical model of a runtime value.
pub ghost enum Obj {
    Null,
    NoneValue,
    False,
    True,
    Int(i32),
    Long(i64),
    Str(Seq<u8>),
    Tuple(Seq<Obj>),
    List(Seq<Obj>),
    SetValue(Seq<Obj>),
    Dict(Seq<(Obj, Obj)>),
    Code(Box<CodeView>),
    Function(Box<CodeView>, Seq<Obj>),
    Native(NativeFn),
    Iter(Seq<Obj>, nat),
}

pub struct NullObject {}

pub struct NoneObject {}

pub struct TrueObject {}

pub struct FalseObject {}

pub struct IntObject {
    pub value: i32,
}

pub struct IntLongObject {
    pub value: i64,
}

pub struct StringObject {
    pub data: Vec<u8>,
}

pub struct TupleObject {
    pub values: Vec<PyObject>,
}

pub struct ListObject {
    pub values: Vec<PyObject>,
}

pub struct SetObject {
    pub values: Vec<PyObject>,
}

pub struct DictEntry {
    pub key: PyObject,
    pub value: PyObject,
}

pub struct DictObject {
    pub entries: Vec<DictEntry>,
}

pub struct CodeObject {
    pub num_args: Option<u32>,
    pub num_pos_only_args: Option<u32>,
    pub num_kw_only_args: Option<u32>,
    pub num_locals: Option<u32>,
    pub num_stack: Option<u32>,
    pub flags: Option<u32>,
    pub first_line: Option<u32>,
    pub code: Vec<u8>,
    pub constants: Option<PyObject>,
    pub names: Option<PyObject>,
    pub local_names: Option<PyObject>,
    pub local_kinds: Option<PyObject>,
    pub free_vars: Option<PyObject>,
    pub cell_vars: Option<PyObject>,
    pub file_name: Option<PyObject>,
    pub name: Option<PyObject>,
    pub qualified_name: Option<PyObject>,
    pub line_table: Option<PyObject>,
    pub exception_table: Option<PyObject>,
}

/// What a callable runs: bytecode with default argument values, or a host function.
pub enum Callee {
    Bytecode(Box<CodeObject>, Vec<PyObject>),
    Native(NativeFn),
}

pub struct CallableObject {
    pub callee: Callee,
}

pub struct IterObject {
    pub cur_index: usize,
    pub values: Vec<PyObject>,
}

/// A runtime value.
pub enum PyObject {
    Null(NullObject),
    NoneValue(NoneObject),
    False(FalseObject),
    True(TrueObject),
    Int(IntObject),
    Long(IntLongObject),
    Str(StringObject),
    Tuple(TupleObject),
    List(ListObject),
    SetValue(SetObject),
    Dict(DictObject),
    Code(Box<CodeObject>),
    Callable(CallableObject),
    Iter(IterObject),
}

/// Models of a sequence of values.
pub open spec fn views(s: Seq<PyObject>) -> Seq<Obj>
    decreases s,
{
    Seq::new(s.len(), |i: int| if 0 <= i < s.len() { s[i].view() } else { Obj::Null })
}

pub open spec fn opt_view(o: Option<PyObject>) -> Option<Obj>
    decreases o,
{
    match o {
        Some(x) => Some(x.view()),
        None => None,
    }
}

/// Models of dict entries, as key and value pairs in order.
pub open spec fn entry_views(s: Seq<DictEntry>) -> Seq<(Obj, Obj)>
    decreases s,
{
    Seq::new(
        s.len(),
        |i: int|
            if 0 <= i < s.len() {
                (s[i].key.view(), s[i].value.view())
            } else {
                (Obj::Null, Obj::Null)
            },
    )
}

impl CodeObject {
    pub open spec fn view(&self) -> CodeView
        decreases self,
    {
        CodeView {
            num_args: self.num_args,
            num_pos_only_args: self.num_pos_only_args,
            num_kw_only_args: self.num_kw_only_args,
            num_locals: self.num_locals,
            num_stack: self.num_stack,
            flags: self.flags,
            first_line: self.first_line,
            code: self.code@,
            constants: opt_view(self.constants),
            names: opt_view(self.names),
            local_names: opt_view(self.local_names),
            local_kinds: opt_view(self.local_kinds),
            free_vars: opt_view(self.free_vars),
            cell_vars: opt_view(self.cell_vars),
            file_name: opt_view(self.file_name),
            name: opt_view(self.name),
            qualified_name: opt_view(self.qualified_name),
            line_table: opt_view(self.line_table),
            exception_table: opt_view(self.exception_table),
        }
    }
}

impl PyObject {
    pub open spec fn view(&self) -> Obj
        decreases self,
    {
        match self {
            PyObject::Null(_) => Obj::Null,
            PyObject::NoneValue(_) => Obj::NoneValue,
            PyObject::False(_) => Obj::False,
            PyObject::True(_) => Obj::True,
            PyObject::Int(x) => Obj::Int(x.value),
            PyObject::Long(x) => Obj::Long(x.value),
            PyObject::Str(x) => Obj::Str(x.data@),
            PyObject::Tuple(x) => Obj::Tuple(views(x.values@)),
            PyObject::List(x) => Obj::List(views(x.values@)),
            PyObject::SetValue(x) => Obj::SetValue(views(x.values@)),
            PyObject::Dict(x) => Obj::Dict(entry_views(x.entries@)),
            PyObject::Code(c) => Obj::Code(Box::new(c.view())),
            PyObject::Callable(c) => match &c.callee {
                Callee::Bytecode(code, defaults) => Obj::Function(Box::new(code.view()), views(defaults@)),
                Callee::Native(f) => Obj::Native(*f),
            },
            PyObject::Iter(x) => Obj::Iter(views(x.values@), x.cur_index as nat),
        }
    }
}

} // verus!

verus! {

/// Copies of each value of `v`, in order.
pub fn copy_values(v: &Vec<PyObject>) -> (r: Vec<PyObject>)
    ensures
        views(r@) == views(v@),
    decreases v,
{
    let mut out: Vec<PyObject> = Vec::new();
    let mut i: usize = 0;
    while i < v.len()
        invariant
            i <= v@.len(),
            out@.len() == i,
            forall|j: int| 0 <= j < i ==> out@[j].view() == v@[j].view(),
        decreases v@.len() - i,
    {
        proof {
            vstd::std_specs::vec::axiom_vec_index_decreases(*v, i as int);
            assert(decreases_to!(*v => v@));
            assert(decreases_to!(v@ => v@[i as int]));
        }
        let e = v[i].copy();
        out.push(e);
        i += 1;
    }
    assert(views(out@) =~= views(v@));
    out
}

fn copy_opt(o: &Option<PyObject>) -> (r: Option<PyObject>)
    ensures
        opt_view(r) == opt_view(*o),
    decreases o,
{
    match o {
        Some(x) => {
            proof {
                assert(decreases_to!(*o => o->0));
            }
            Some(x.copy())
        },
        None => None,
    }
}

impl CodeObject {
    /// A copy of this code object.
    pub fn copy(&self) -> (r: CodeObject)
        ensures
            r.view() == self.view(),
        decreases self,
    {
        let code = self.code.clone();
        assert(code@ =~= self.code@);
        CodeObject {
            num_args: self.num_args,
            num_pos_only_args: self.num_pos_only_args,
            num_kw_only_args: self.num_kw_only_args,
            num_locals: self.num_locals,
            num_stack: self.num_stack,
            flags: self.flags,
            first_line: self.first_line,
            code,
            constants: copy_opt(&self.constants),
            names: copy_opt(&self.names),
            local_names: copy_opt(&self.local_names),
            local_kinds: copy_opt(&self.local_kinds),
            free_vars: copy_opt(&self.free_vars),
            cell_vars: copy_opt(&self.cell_vars),
            file_name: copy_opt(&self.file_name),
            name: copy_opt(&self.name),
            qualified_name: copy_opt(&self.qualified_name),
            line_table: copy_opt(&self.line_table),
            exception_table: copy_opt(&self.exception_table),
        }
    }
}

fn copy_entries(v: &Vec<DictEntry>) -> (r: Vec<DictEntry>)
    ensures
        entry_views(r@) == entry_views(v@),
    decreases v,
{
    let mut out: Vec<DictEntry> = Vec::new();
    let mut i: usize = 0;
    while i < v.len()
        invariant
            i <= v@.len(),
            out@.len() == i,
            forall|j: int| 0 <= j < i ==> out@[j].key.view() == v@[j].key.view(),
            forall|j: int| 0 <= j < i ==> out@[j].value.view() == v@[j].value.view(),
        decreases v@.len() - i,
    {
        proof {
            vstd::std_specs::vec::axiom_vec_index_decreases(*v, i as int);
            assert(decreases_to!(*v => v@));
            assert(decreases_to!(v@ => v@[i as int]));
            assert(decreases_to!(v@[i as int] => v@[i as int].key));
            assert(decreases_to!(v@[i as int] => v@[i as int].value));
        }
        let k = v[i].key.copy();
        let val = v[i].value.copy();
        out.push(DictEntry { key: k, value: val });
        i += 1;
    }
    assert(entry_views(out@) =~= entry_views(v@));
    out
}

impl PyObject {
    /// A copy of this value: equal to it as a model, sharing nothing with it.
    pub fn copy(&self) -> (r: PyObject)
        ensures
            r@ == self@,
        decreases self,
    {
        match self {
            PyObject::Null(_) => PyObject::Null(NullObject {}),
            PyObject::NoneValue(_) => PyObject::NoneValue(NoneObject {}),
            PyObject::False(_) => PyObject::False(FalseObject {}),
            PyObject::True(_) => PyObject::True(TrueObject {}),
            PyObject::Int(x) => PyObject::Int(IntObject { value: x.value }),
            PyObject::Long(x) => PyObject::Long(IntLongObject { value: x.value }),
            PyObject::Str(x) => {
                let data = x.data.clone();
                assert(data@ =~= x.data@);
                PyObject::Str(StringObject { data })
            },
            PyObject::Tuple(x) => {
                proof {
                    assert(decreases_to!(*self => self->Tuple_0));
                    assert(decreases_to!(self->Tuple_0 => self->Tuple_0.values));
                }
                PyObject::Tuple(TupleObject { values: copy_values(&x.values) })
            },
            PyObject::List(x) => {
                proof {
                    assert(decreases_to!(*self => self->List_0));
                    assert(decreases_to!(self->List_0 => self->List_0.values));
                }
                PyObject::List(ListObject { values: copy_values(&x.values) })
            },
            PyObject::SetValue(x) => {
                proof {
                    assert(decreases_to!(*self => self->SetValue_0));
                    assert(decreases_to!(self->SetValue_0 => self->SetValue_0.values));
                }
                PyObject::SetValue(SetObject { values: copy_values(&x.values) })
            },
            PyObject::Dict(x) => {
                proof {
                    assert(decreases_to!(*self => self->Dict_0));
                    assert(decreases_to!(self->Dict_0 => self->Dict_0.entries));
                }
                PyObject::Dict(DictObject { entries: copy_entries(&x.entries) })
            },
            PyObject::Code(c) => {
                proof {
                    assert(decreases_to!(*self => self->Code_0));
                }
                PyObject::Code(Box::new(c.copy()))
            },
            PyObject::Callable(c) => {
                proof {
                    assert(decreases_to!(*self => self->Callable_0));
                    assert(decreases_to!(self->Callable_0 => self->Callable_0.callee));
                }
                match &c.callee {
                    Callee::Bytecode(code, defaults) => {
                        proof {
                            assert(decreases_to!(c.callee => c.callee->Bytecode_0));
                            assert(decreases_to!(c.callee => c.callee->Bytecode_1));
                        }
                        PyObject::Callable(CallableObject {
                            callee: Callee::Bytecode(Box::new(code.copy()), copy_values(defaults)),
                        })
                    },
                    Callee::Native(f) => PyObject::Callable(CallableObject { callee: Callee::Native(*f) }),
                }
            },
            PyObject::Iter(x) => {
                proof {
                    assert(decreases_to!(*self => self->Iter_0));
                    assert(decreases_to!(self->Iter_0 => self->Iter_0.values));
                }
                PyObject::Iter(IterObject { cur_index: x.cur_index, values: copy_values(&x.values) })
            },
        }
    }
}

} // verus!

verus! {

/// Whether two byte sequences are equal.
pub fn bytes_equal(a: &Vec<u8>, b: &Vec<u8>) -> (r: bool)
    ensures
        r == (a@ == b@),
{
    if a.len() != b.len() {
        return false;
    }
    let mut i: usize = 0;
    while i < a.len()
        invariant
            i <= a@.len(),
            a@.len() == b@.len(),
            forall|j: int| 0 <= j < i ==> a@[j] == b@[j],
        decreases a@.len() - i,
    {
        if a[i] != b[i] {
            return false;
        }
        i += 1;
    }
    assert(a@ =~= b@);
    true
}

/// Whether two value sequences are equal element by element.
pub fn values_equal(a: &Vec<PyObject>, b: &Vec<PyObject>) -> (r: bool)
    ensures
        r == (views(a@) == views(b@)),
    decreases a,
{
    if a.len() != b.len() {
        assert(views(a@).len() != views(b@).len());
        return false;
    }
    let mut i: usize = 0;
    while i < a.len()
        invariant
            i <= a@.len(),
            a@.len() == b@.len(),
            forall|j: int| 0 <= j < i ==> a@[j].view() == b@[j].view(),
        decreases a@.len() - i,
    {
        proof {
            vstd::std_specs::vec::axiom_vec_index_decreases(*a, i as int);
            assert(decreases_to!(*a => a@));
            assert(decreases_to!(a@ => a@[i as int]));
        }
        if !a[i].equals(&b[i]) {
            assert(views(a@)[i as int] != views(b@)[i as int]);
            return false;
        }
        i += 1;
    }
    assert(views(a@) =~= views(b@));
    true
}

fn entries_equal(a: &Vec<DictEntry>, b: &Vec<DictEntry>) -> (r: bool)
    ensures
        r == (entry_views(a@) == entry_views(b@)),
    decreases a,
{
    if a.len() != b.len() {
        assert(entry_views(a@).len() != entry_views(b@).len());
        return false;
    }
    let mut i: usize = 0;
    while i < a.len()
        invariant
            i <= a@.len(),
            a@.len() == b@.len(),
            forall|j: int| 0 <= j < i ==> a@[j].key.view() == b@[j].key.view(),
            forall|j: int| 0 <= j < i ==> a@[j].value.view() == b@[j].value.view(),
        decreases a@.len() - i,
    {
        proof {
            vstd::std_specs::vec::axiom_vec_index_decreases(*a, i as int);
            assert(decreases_to!(*a => a@));
            assert(decreases_to!(a@ => a@[i as int]));
            assert(decreases_to!(a@[i as int] => a@[i as int].key));
            assert(decreases_to!(a@[i as int] => a@[i as int].value));
        }
        if !a[i].key.equals(&b[i].key) {
            assert(entry_views(a@)[i as int] != entry_views(b@)[i as int]);
            return false;
        }
        if !a[i].value.equals(&b[i].value) {
            assert(entry_views(a@)[i as int] != entry_views(b@)[i as int]);
            return false;
        }
        i += 1;
    }
    assert(entry_views(a@) =~= entry_views(b@));
    true
}

fn opt_equal(a: &Option<PyObject>, b: &Option<PyObject>) -> (r: bool)
    ensures
        r == (opt_view(*a) == opt_view(*b)),
    decreases a,
{
    match (a, b) {
        (Some(x), Some(y)) => {
            proof {
                assert(decreases_to!(*a => a->0));
            }
            x.equals(y)
        },
        (None, None) => true,
        _ => false,
    }
}

impl CodeObject {
    /// Whether two code objects are equal field by field.
    pub fn equals(&self, other: &CodeObject) -> (r: bool)
        ensures
            r == (self.view() == other.view()),
        decreases self,
    {
        self.num_args == other.num_args && self.num_pos_only_args == other.num_pos_only_args
            && self.num_kw_only_args == other.num_kw_only_args && self.num_locals
            == other.num_locals && self.num_stack == other.num_stack && self.flags
            == other.flags && self.first_line == other.first_line && bytes_equal(
            &self.code,
            &other.code,
        ) && opt_equal(&self.constants, &other.constants) && opt_equal(&self.names, &other.names)
            && opt_equal(&self.local_names, &other.local_names) && opt_equal(
            &self.local_kinds,
            &other.local_kinds,
        ) && opt_equal(&self.free_vars, &other.free_vars) && opt_equal(
            &self.cell_vars,
            &other.cell_vars,
        ) && opt_equal(&self.file_name, &other.file_name) && opt_equal(&self.name, &other.name)
            && opt_equal(&self.qualified_name, &other.qualified_name) && opt_equal(
            &self.line_table,
            &other.line_table,
        ) && opt_equal(&self.exception_table, &other.exception_table)
    }
}

impl PyObject {
    /// Structural equality: same variant, equal payloads, sequences compared in order.
    pub fn equals(&self, other: &PyObject) -> (r: bool)
        ensures
            r == (self@ == other@),
        decreases self,
    {
        match (self, other) {
            (PyObject::Null(_), PyObject::Null(_)) => true,
            (PyObject::NoneValue(_), PyObject::NoneValue(_)) => true,
            (PyObject::False(_), PyObject::False(_)) => true,
            (PyObject::True(_), PyObject::True(_)) => true,
            (PyObject::Int(x), PyObject::Int(y)) => x.value == y.value,
            (PyObject::Long(x), PyObject::Long(y)) => x.value == y.value,
            (PyObject::Str(x), PyObject::Str(y)) => bytes_equal(&x.data, &y.data),
            (PyObject::Tuple(x), PyObject::Tuple(y)) => {
                proof {
                    assert(decreases_to!(*self => self->Tuple_0));
                    assert(decreases_to!(self->Tuple_0 => self->Tuple_0.values));
                }
                values_equal(&x.values, &y.values)
            },
            (PyObject::List(x), PyObject::List(y)) => {
                proof {
                    assert(decreases_to!(*self => self->List_0));
                    assert(decreases_to!(self->List_0 => self->List_0.values));
                }
                values_equal(&x.values, &y.values)
            },
            (PyObject::SetValue(x), PyObject::SetValue(y)) => {
                proof {
                    assert(decreases_to!(*self => self->SetValue_0));
                    assert(decreases_to!(self->SetValue_0 => self->SetValue_0.values));
                }
                values_equal(&x.values, &y.values)
            },
            (PyObject::Dict(x), PyObject::Dict(y)) => {
                proof {
                    assert(decreases_to!(*self => self->Dict_0));
                    assert(decreases_to!(self->Dict_0 => self->Dict_0.entries));
                }
                entries_equal(&x.entries, &y.entries)
            },
            (PyObject::Code(x), PyObject::Code(y)) => {
                proof {
                    assert(decreases_to!(*self => self->Code_0));
                }
                x.equals(y)
            },
            (PyObject::Callable(x), PyObject::Callable(y)) => {
                proof {
                    assert(decreases_to!(*self => self->Callable_0));
                    assert(decreases_to!(self->Callable_0 => self->Callable_0.callee));
                }
                match (&x.callee, &y.callee) {
                    (Callee::Bytecode(c1, d1), Callee::Bytecode(c2, d2)) => {
                        proof {
                            assert(decreases_to!(x.callee => x.callee->Bytecode_0));
                            assert(decreases_to!(x.callee => x.callee->Bytecode_1));
                        }
                        c1.equals(c2) && values_equal(d1, d2)
                    },
                    (Callee::Native(f), Callee::Native(g)) => f == g,
                    _ => false,
                }
            },
            (PyObject::Iter(x), PyObject::Iter(y)) => {
                proof {
                    assert(decreases_to!(*self => self->Iter_0));
                    assert(decreases_to!(self->Iter_0 => self->Iter_0.values));
                }
                x.cur_index == y.cur_index && values_equal(&x.values, &y.values)
            },
            _ => false,
        }
    }
}

} // verus!

verus! {

impl NullObject {
    /// The null sentinel.
    pub fn new() -> (r: PyObject)
        ensures
            r@ == Obj::Null,
    {
        PyObject::Null(NullObject {})
    }
}

impl NoneObject {
    /// The `None` value.
    pub fn new() -> (r: PyObject)
        ensures
            r@ == Obj::NoneValue,
    {
        PyObject::NoneValue(NoneObject {})
    }

    /// The bare `None` payload.
    pub fn new_raw() -> NoneObject {
        NoneObject {}
    }
}

impl TrueObject {
    /// The `True` value.
    pub fn new() -> (r: PyObject)
        ensures
            r@ == Obj::True,
    {
        PyObject::True(TrueObject {})
    }
}

impl FalseObject {
    /// The `False` value.
    pub fn new() -> (r: PyObject)
        ensures
            r@ == Obj::False,
    {
        PyObject::False(FalseObject {})
    }
}

} // verus!

verus! {

/// Relies on `String::from_utf8`: it succeeds exactly on valid UTF-8, and the text then
/// holds the decoded characters.
#[verifier::external_body]
fn utf8_text(b: &Vec<u8>) -> (r: Option<String>)
    ensures
        r is Some <==> vstd::utf8::valid_utf8(b@),
        r is Some ==> r->0@ == vstd::utf8::decode_utf8(b@),
{
    String::from_utf8(b.clone()).ok()
}

impl IntObject {
    /// An integer value.
    pub fn new_from_i32(value: i32) -> (r: PyObject)
        ensures
            r@ == Obj::Int(value),
    {
        PyObject::Int(IntObject { value })
    }

    pub fn value(&self) -> (r: i32)
        ensures
            r == self.value,
    {
        self.value
    }
}

impl StringObject {
    /// A string value holding the UTF-8 bytes of `s`.
    pub fn new_from_str(s: &str) -> (r: PyObject)
        ensures
            r@ == Obj::Str(s.spec_bytes()),
    {
        let data = vstd::slice::slice_to_vec(s.as_bytes());
        PyObject::Str(StringObject { data })
    }

    /// A string value holding `data`.
    pub fn new_from_bytes(data: Vec<u8>) -> (r: PyObject)
        ensures
            r@ == Obj::Str(data@),
    {
        PyObject::Str(StringObject { data })
    }

    /// Whether the payload is valid UTF-8.
    pub fn is_text(&self) -> (r: bool)
        ensures
            r == vstd::utf8::valid_utf8(self.data@),
    {
        utf8_text(&self.data).is_some()
    }

    /// The payload as text; empty when it is not valid UTF-8.
    pub fn string(&self) -> (r: String)
        ensures
            vstd::utf8::valid_utf8(self.data@) ==> r@ == vstd::utf8::decode_utf8(self.data@),
            !vstd::utf8::valid_utf8(self.data@) ==> r@ == Seq::<char>::empty(),
    {
        match utf8_text(&self.data) {
            Some(s) => s,
            None => String::new(),
        }
    }

    pub fn data(&self) -> (r: &Vec<u8>)
        ensures
            r@ == self.data@,
    {
        &self.data
    }
}

impl TupleObject {
    /// A tuple of `values`.
    pub fn new_from_values(values: Vec<PyObject>) -> (r: PyObject)
        ensures
            r@ == Obj::Tuple(views(values@)),
    {
        PyObject::Tuple(TupleObject { values })
    }

    pub fn take_values(self) -> (r: Vec<PyObject>)
        ensures
            r@ == self.values@,
    {
        self.values
    }

    pub fn values(&self) -> (r: &Vec<PyObject>)
        ensures
            r@ == self.values@,
    {
        &self.values
    }
}

impl ListObject {
    /// A list of `values`.
    pub fn new_from_values(values: Vec<PyObject>) -> (r: PyObject)
        ensures
            r@ == Obj::List(views(values@)),
    {
        PyObject::List(ListObject { values })
    }

    /// Appends copies of `values` to this list.
    pub fn extend_impl(&mut self, values: &Vec<PyObject>)
        ensures
            views(final(self).values@) == views(old(self).values@) + views(values@),
    {
        let mut i: usize = 0;
        while i < values.len()
            invariant
                i <= values@.len(),
                views(self.values@) == views(old(self).values@) + views(values@).subrange(0, i as int),
            decreases values@.len() - i,
        {
            let ghost before = self.values@;
            self.values.push(values[i].copy());
            proof {
                assert(views(self.values@) =~= views(before).push(values@[i as int]@));
                assert(views(values@).subrange(0, i + 1) =~= views(values@).subrange(0, i as int).push(values@[i as int]@));
            }
            i += 1;
        }
        assert(views(values@).subrange(0, values@.len() as int) =~= views(values@));
    }

    /// The list `base` followed by the elements of `other`, which must be a list or a tuple.
    pub fn extend(base: PyObject, other: &PyObject) -> (r: PyObject)
        requires
            base@ is List,
            other@ is List || other@ is Tuple,
        ensures
            r@ == Obj::List(base@->List_0 + (if other@ is List { other@->List_0 } else { other@->Tuple_0 })),
    {
        match base {
            PyObject::List(mut l) => {
                match other {
                    PyObject::List(o) => l.extend_impl(&o.values),
                    PyObject::Tuple(o) => l.extend_impl(&o.values),
                    _ => {
                        assert(false);
                    },
                }
                PyObject::List(l)
            },
            _ => {
                assert(false);
                unreached()
            },
        }
    }
}

impl IterObject {
    /// An iterator over a snapshot of `values`, positioned at the first.
    pub fn new(values: Vec<PyObject>) -> (r: PyObject)
        ensures
            r@ == Obj::Iter(views(values@), 0),
    {
        PyObject::Iter(IterObject { cur_index: 0, values })
    }

    /// The value under the cursor, advancing past it; `None` once exhausted.
    pub fn next(&mut self) -> (r: Option<PyObject>)
        ensures
            final(self).values@ == old(self).values@,
            old(self).cur_index < old(self).values@.len() ==> r is Some && r->0@ == old(self).values@[old(
                self,
            ).cur_index as int]@ && final(self).cur_index == old(self).cur_index + 1,
            old(self).cur_index >= old(self).values@.len() ==> r is None && final(self).cur_index
                == old(self).cur_index,
    {
        if self.cur_index >= self.values.len() {
            return None;
        }
        let res = self.values[self.cur_index].copy();
        self.cur_index = self.cur_index + 1;
        Some(res)
    }
}

/// The host function behind an iterator's `next` method: advances the iterator held in
/// `args[0]` and yields its next value, or the null sentinel once it is exhausted.
pub fn iter_next(args: &mut Vec<PyObject>) -> (r: Result<PyObject, VmError>)
    ensures
        final(args)@.len() == old(args)@.len(),
        old(args)@.len() == 0 ==> r == Err::<PyObject, VmError>(VmError::TypeMismatch),
        old(args)@.len() > 0 ==> match old(args)@[0]@ {
            Obj::Iter(vs, i) => r is Ok && (if i < vs.len() {
                r->Ok_0@ == vs[i as int] && final(args)@[0]@ == Obj::Iter(vs, i + 1)
            } else {
                r->Ok_0@ == Obj::Null && final(args)@[0]@ == Obj::Iter(vs, i)
            }),
            _ => r == Err::<PyObject, VmError>(VmError::TypeMismatch),
        },
{
    if args.len() == 0 {
        return Err(VmError::TypeMismatch);
    }
    let first = args.remove(0);
    match first {
        PyObject::Iter(mut it) => {
            let out = it.next();
            args.insert(0, PyObject::Iter(it));
            match out {
                Some(v) => Ok(v),
                None => Ok(NullObject::new()),
            }
        },
        other => {
            args.insert(0, other);
            Err(VmError::TypeMismatch)
        },
    }
}

impl CallableObject {
    /// A function running `code` with the default argument values `defaults`.
    pub fn new(code: &CodeObject, defaults: Vec<PyObject>) -> (r: PyObject)
        ensures
            r@ == Obj::Function(Box::new(code.view()), views(defaults@)),
    {
        PyObject::Callable(CallableObject { callee: Callee::Bytecode(Box::new(code.copy()), defaults) })
    }

    /// A callable standing for the host function `f`.
    pub fn new_native(f: NativeFn) -> (r: PyObject)
        ensures
            r@ == Obj::Native(f),
    {
        PyObject::Callable(CallableObject { callee: Callee::Native(f) })
    }

    pub open spec fn is_native_spec(&self) -> bool {
        self.callee is Native
    }

    pub fn is_native(&self) -> (r: bool)
        ensures
            r == self.is_native_spec(),
    {
        match &self.callee {
            Callee::Native(_) => true,
            Callee::Bytecode(_, _) => false,
        }
    }

    /// The code of a bytecode function.
    pub fn code(&self) -> (r: &CodeObject)
        requires
            !self.is_native_spec(),
        ensures
            *r == self.callee->Bytecode_0,
    {
        match &self.callee {
            Callee::Bytecode(c, _) => c,
            Callee::Native(_) => {
                assert(false);
                unreached()
            },
        }
    }

    /// The default argument values of a bytecode function.
    pub fn defaults(&self) -> (r: &Vec<PyObject>)
        requires
            !self.is_native_spec(),
        ensures
            r@ == self.callee->Bytecode_1@,
    {
        match &self.callee {
            Callee::Bytecode(_, d) => d,
            Callee::Native(_) => {
                assert(false);
                unreached()
            },
        }
    }
}

impl PyObject {
    /// The record kind of this value.
    pub open spec fn type_of(self) -> ObjectType {
        match self {
            PyObject::Null(_) => ObjectType::NULL,
            PyObject::NoneValue(_) => ObjectType::NONE,
            PyObject::False(_) => ObjectType::FALSE,
            PyObject::True(_) => ObjectType::TRUE,
            PyObject::Int(_) => ObjectType::INT,
            PyObject::Long(_) => ObjectType::INT64,
            PyObject::Str(_) => ObjectType::STRING,
            PyObject::Tuple(_) => ObjectType::TUPLE,
            PyObject::List(_) => ObjectType::LIST,
            PyObject::SetValue(_) => ObjectType::SET,
            PyObject::Dict(_) => ObjectType::DICT,
            PyObject::Code(_) => ObjectType::CODE,
            PyObject::Callable(_) => ObjectType::CALLABLE,
            PyObject::Iter(_) => ObjectType::ITER,
        }
    }

    pub fn object_type(&self) -> (r: ObjectType)
        ensures
            r == self.type_of(),
    {
        match self {
            PyObject::Null(_) => ObjectType::NULL,
            PyObject::NoneValue(_) => ObjectType::NONE,
            PyObject::False(_) => ObjectType::FALSE,
            PyObject::True(_) => ObjectType::TRUE,
            PyObject::Int(_) => ObjectType::INT,
            PyObject::Long(_) => ObjectType::INT64,
            PyObject::Str(_) => ObjectType::STRING,
            PyObject::Tuple(_) => ObjectType::TUPLE,
            PyObject::List(_) => ObjectType::LIST,
            PyObject::SetValue(_) => ObjectType::SET,
            PyObject::Dict(_) => ObjectType::DICT,
            PyObject::Code(_) => ObjectType::CODE,
            PyObject::Callable(_) => ObjectType::CALLABLE,
            PyObject::Iter(_) => ObjectType::ITER,
        }
    }

    /// Whether this is the null sentinel.
    pub fn is_null(&self) -> (r: bool)
        ensures
            r == (self@ == Obj::Null),
    {
        match self {
            PyObject::Null(_) => true,
            _ => false,
        }
    }

    /// An iterator over a snapshot of a tuple or list, or over one-character strings for
    /// the characters of a string (none when its payload is not valid UTF-8).
    pub fn to_iter(&self) -> (r: Result<PyObject, VmError>)
        ensures
            match self@ {
                Obj::Tuple(vs) => r is Ok && r->Ok_0@ == Obj::Iter(vs, 0),
                Obj::List(vs) => r is Ok && r->Ok_0@ == Obj::Iter(vs, 0),
                Obj::Str(b) => r is Ok && r->Ok_0@ == Obj::Iter(char_strings(b), 0),
                _ => r == Err::<PyObject, VmError>(VmError::TypeMismatch),
            },
    {
        match self {
            PyObject::Tuple(t) => Ok(IterObject::new(copy_values(&t.values))),
            PyObject::List(l) => Ok(IterObject::new(copy_values(&l.values))),
            PyObject::Str(s) => {
                if s.is_text() {
                    Ok(IterObject::new(char_values(&s.data)))
                } else {
                    let v: Vec<PyObject> = Vec::new();
                    assert(views(v@) =~= char_strings(s.data@));
                    Ok(IterObject::new(v))
                }
            },
            _ => Err(VmError::TypeMismatch),
        }
    }
}

} // verus!

verus! {

/// The UTF-8 encodings of the characters of `b`, in order, up to the first byte that
/// does not start a well-formed character.
pub open spec fn char_chunks(b: Seq<u8>) -> Seq<Seq<u8>>
    decreases b.len(),
{
    if b.len() == 0 || !vstd::utf8::valid_first_scalar(b) {
        Seq::empty()
    } else {
        let w = vstd::utf8::length_of_first_scalar(b);
        if 1 <= w <= b.len() {
            seq![b.subrange(0, w)] + char_chunks(b.subrange(w, b.len() as int))
        } else {
            Seq::empty()
        }
    }
}

/// One-character string values for the characters of a string payload; none when the
/// payload is not valid UTF-8.
pub open spec fn char_strings(b: Seq<u8>) -> Seq<Obj> {
    let cs = if vstd::utf8::valid_utf8(b) { char_chunks(b) } else { Seq::empty() };
    Seq::new(cs.len(), |i: int| Obj::Str(cs[i]))
}

/// One-character strings for the characters of valid UTF-8 bytes.
fn char_values(b: &Vec<u8>) -> (r: Vec<PyObject>)
    requires
        vstd::utf8::valid_utf8(b@),
    ensures
        views(r@) == char_strings(b@),
{
    let ghost whole = char_chunks(b@);
    let mut out: Vec<PyObject> = Vec::new();
    let mut i: usize = 0;
    assert(b@.subrange(0, b@.len() as int) =~= b@);
    while i < b.len()
        invariant
            i <= b@.len(),
            vstd::utf8::valid_utf8(b@.subrange(i as int, b@.len() as int)),
            whole == char_chunks(b@),
            Seq::new(views(out@).len(), |k: int| views(out@)[k]->Str_0) + char_chunks(b@.subrange(i as int, b@.len() as int)) == whole,
            forall|k: int| 0 <= k < out@.len() ==> out@[k]@ is Str,
        decreases b@.len() - i,
    {
        let ghost rest = b@.subrange(i as int, b@.len() as int);
        let c = b[i];
        let w: usize = if c <= 0x7f {
            1
        } else if 0xc0 <= c && c <= 0xdf {
            2
        } else if 0xe0 <= c && c <= 0xef {
            3
        } else {
            4
        };
        assert(w as int == vstd::utf8::length_of_first_scalar(rest));
        let mut chunk: Vec<u8> = Vec::new();
        let mut j: usize = 0;
        while j < w
            invariant
                j <= w,
                i + w <= b@.len(),
                b@.len() <= usize::MAX,
                chunk@ == b@.subrange(i as int, i + j),
            decreases w - j,
        {
            chunk.push(b[i + j]);
            j += 1;
            assert(chunk@ =~= b@.subrange(i as int, i + j));
        }
        let ghost before = out@;
        proof {
            assert(rest.subrange(0, w as int) =~= chunk@);
            assert(rest.subrange(w as int, rest.len() as int) =~= b@.subrange(i + w, b@.len() as int));
            assert(vstd::utf8::pop_first_scalar(rest) == rest.subrange(w as int, rest.len() as int));
        }
        out.push(PyObject::Str(StringObject { data: chunk }));
        proof {
            let pre = Seq::new(views(before).len(), |k: int| views(before)[k]->Str_0);
            let post = Seq::new(views(out@).len(), |k: int| views(out@)[k]->Str_0);
            assert(post =~= pre.push(chunk@));
            assert(pre + char_chunks(rest) =~= pre.push(chunk@) + char_chunks(b@.subrange(i + w, b@.len() as int)));
        }
        i = i + w;
    }
    proof {
        assert(b@.subrange(i as int, b@.len() as int) =~= Seq::<u8>::empty());
        let post = Seq::new(views(out@).len(), |k: int| views(out@)[k]->Str_0);
        assert(post + Seq::<Seq<u8>>::empty() =~= post);
        assert(views(out@) =~= char_strings(b@));
    }
    out
}

} // verus!

verus! {

/// `next`
pub open spec fn next_name() -> Seq<u8> {
    seq![110u8, 101, 120, 116]
}

/// The attribute `name` of a value: iterators have the host method `next`; nothing else
/// has attributes.
pub open spec fn attr_of(o: Obj, name: Seq<u8>) -> Option<Obj> {
    if o is Iter && name == next_name() {
        Some(Obj::Native(NativeFn::IterNext))
    } else {
        None
    }
}

impl PyObject {
    /// The attribute `name` of this value, or `UndefinedName`.
    pub fn get_attr(&self, name: &Vec<u8>) -> (r: Result<PyObject, VmError>)
        ensures
            attr_of(self@, name@) is Some ==> r is Ok && r->Ok_0@ == attr_of(self@, name@)->0,
            attr_of(self@, name@) is None ==> r == Err::<PyObject, VmError>(VmError::UndefinedName),
    {
        let next: Vec<u8> = vec![110u8, 101, 120, 116];
        assert(next@ =~= next_name());
        match self {
            PyObject::Iter(_) => {
                if bytes_equal(name, &next) {
                    Ok(CallableObject::new_native(NativeFn::IterNext))
                } else {
                    Err(VmError::UndefinedName)
                }
            },
            _ => Err(VmError::UndefinedName),
        }
    }
}

} // verus!
