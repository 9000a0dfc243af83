use vstd::prelude::*;

use crate::error::VmError;
use crate::magic::{magic_of, Magic};
use crate::object::{
    tag_type, views, entry_views, CodeObject, CodeView, DictEntry, DictObject, FalseObject, IntLongObject,
    IntObject, ListObject, NoneObject, NullObject, Obj, ObjectType, PyObject, SetObject,
    StringObject, TrueObject, TupleObject,
};
use crate::stream::{le_value, lemma_le_small, InputStream};

verus! {

/// Where a parse stands: the next byte, and the back-reference table so far.
pub ghost struct ParseState {
    pub pos: int,
    pub refs: Seq<Obj>,
}

/// How a code-object field is stored in a given format version.
#[derive(Clone, Copy, PartialEq, Eq, Structural, Debug)]
pub enum FieldRule {
    Absent,
    U16,
    U32,
    Object,
}

/// Number of code-object fields, in serialized order.
pub const CODE_FIELDS: usize = 19;

/// The storage of code-object field `i` (serialized order) for the version of rank `r`.
/// Field presence and width change at fixed versions: 1.3 (rank 2), 1.5 (4), 2.1 (7),
/// 2.3 (9), 3.0 (14), 3.8 (23) and 3.11 (26).
pub open spec fn field_rule_spec(i: int, r: nat) -> FieldRule {
    if i == 0 {
        // argument count
        if 2 <= r < 9 { FieldRule::U16 } else if r >= 9 { FieldRule::U32 } else { FieldRule::Absent }
    } else if i == 1 {
        // positional-only argument count
        if r >= 23 { FieldRule::U32 } else { FieldRule::Absent }
    } else if i == 2 {
        // keyword-only argument count
        if r >= 14 { FieldRule::U32 } else { FieldRule::Absent }
    } else if i == 3 {
        // local count
        if 2 <= r < 9 { FieldRule::U16 } else if 9 <= r < 26 { FieldRule::U32 } else { FieldRule::Absent }
    } else if i == 4 || i == 5 || i == 16 {
        // stack size, flags, first line
        if 4 <= r < 9 { FieldRule::U16 } else if r >= 9 { FieldRule::U32 } else { FieldRule::Absent }
    } else if i == 6 || i == 7 || i == 8 || i == 13 || i == 14 {
        // code, constants, names, file name, name
        FieldRule::Object
    } else if i == 9 {
        // local names
        if r >= 2 { FieldRule::Object } else { FieldRule::Absent }
    } else if i == 10 || i == 15 || i == 18 {
        // local kinds, qualified name, exception table
        if r >= 26 { FieldRule::Object } else { FieldRule::Absent }
    } else if i == 11 || i == 12 {
        // free and cell variables
        if 7 <= r < 26 { FieldRule::Object } else { FieldRule::Absent }
    } else if i == 17 {
        // line table
        if r >= 4 { FieldRule::Object } else { FieldRule::Absent }
    } else {
        FieldRule::Absent
    }
}

/// The storage of code-object field `i` for version `m`.
pub fn field_rule(i: usize, m: Magic) -> (r: FieldRule)
    ensures
        r == field_rule_spec(i as int, m.rank()),
{
    let r = m.ordinal();
    if i == 0 {
        if 2 <= r && r < 9 { FieldRule::U16 } else if r >= 9 { FieldRule::U32 } else { FieldRule::Absent }
    } else if i == 1 {
        if r >= 23 { FieldRule::U32 } else { FieldRule::Absent }
    } else if i == 2 {
        if r >= 14 { FieldRule::U32 } else { FieldRule::Absent }
    } else if i == 3 {
        if 2 <= r && r < 9 { FieldRule::U16 } else if 9 <= r && r < 26 { FieldRule::U32 } else { FieldRule::Absent }
    } else if i == 4 || i == 5 || i == 16 {
        if 4 <= r && r < 9 { FieldRule::U16 } else if r >= 9 { FieldRule::U32 } else { FieldRule::Absent }
    } else if i == 6 || i == 7 || i == 8 || i == 13 || i == 14 {
        FieldRule::Object
    } else if i == 9 {
        if r >= 2 { FieldRule::Object } else { FieldRule::Absent }
    } else if i == 10 || i == 15 || i == 18 {
        if r >= 26 { FieldRule::Object } else { FieldRule::Absent }
    } else if i == 11 || i == 12 {
        if 7 <= r && r < 26 { FieldRule::Object } else { FieldRule::Absent }
    } else if i == 17 {
        if r >= 4 { FieldRule::Object } else { FieldRule::Absent }
    } else {
        FieldRule::Absent
    }
}

/// A code object with no field read yet.
pub open spec fn empty_code_view() -> CodeView {
    CodeView {
        num_args: None,
        num_pos_only_args: None,
        num_kw_only_args: None,
        num_locals: None,
        num_stack: None,
        flags: None,
        first_line: None,
        code: Seq::empty(),
        constants: None,
        names: None,
        local_names: None,
        local_kinds: None,
        free_vars: None,
        cell_vars: None,
        file_name: None,
        name: None,
        qualified_name: None,
        line_table: None,
        exception_table: None,
    }
}

/// `cv` with integer field `i` set to `v`.
pub open spec fn with_int_field(cv: CodeView, i: int, v: u32) -> CodeView {
    if i == 0 {
        CodeView { num_args: Some(v), ..cv }
    } else if i == 1 {
        CodeView { num_pos_only_args: Some(v), ..cv }
    } else if i == 2 {
        CodeView { num_kw_only_args: Some(v), ..cv }
    } else if i == 3 {
        CodeView { num_locals: Some(v), ..cv }
    } else if i == 4 {
        CodeView { num_stack: Some(v), ..cv }
    } else if i == 5 {
        CodeView { flags: Some(v), ..cv }
    } else if i == 16 {
        CodeView { first_line: Some(v), ..cv }
    } else {
        cv
    }
}

/// `cv` with object field `i` set to `o`; the instruction field takes the bytes of a
/// string and refuses anything else.
pub open spec fn with_obj_field(cv: CodeView, i: int, o: Obj) -> Result<CodeView, VmError> {
    if i == 6 {
        match o {
            Obj::Str(b) => Ok(CodeView { code: b, ..cv }),
            _ => Err(VmError::WrongRecordKind),
        }
    } else if i == 7 {
        Ok(CodeView { constants: Some(o), ..cv })
    } else if i == 8 {
        Ok(CodeView { names: Some(o), ..cv })
    } else if i == 9 {
        Ok(CodeView { local_names: Some(o), ..cv })
    } else if i == 10 {
        Ok(CodeView { local_kinds: Some(o), ..cv })
    } else if i == 11 {
        Ok(CodeView { free_vars: Some(o), ..cv })
    } else if i == 12 {
        Ok(CodeView { cell_vars: Some(o), ..cv })
    } else if i == 13 {
        Ok(CodeView { file_name: Some(o), ..cv })
    } else if i == 14 {
        Ok(CodeView { name: Some(o), ..cv })
    } else if i == 15 {
        Ok(CodeView { qualified_name: Some(o), ..cv })
    } else if i == 17 {
        Ok(CodeView { line_table: Some(o), ..cv })
    } else if i == 18 {
        Ok(CodeView { exception_table: Some(o), ..cv })
    } else {
        Ok(cv)
    }
}

/// Little-endian number of `n` bytes at `pos`.
pub open spec fn le_at(d: Seq<u8>, pos: int, n: int) -> nat {
    le_value(d.subrange(pos, pos + n))
}

/// A parse that made progress without passing the end of the input.
pub open spec fn advanced(d: Seq<u8>, before: ParseState, after: ParseState) -> bool {
    before.pos < after.pos <= d.len()
}

/// Parses one tagged record at `st.pos`.
pub open spec fn parse_value(d: Seq<u8>, m: Magic, st: ParseState) -> Result<(Obj, ParseState), VmError>
    decreases d.len() - st.pos, 0int, 0int,
{
    if st.pos < 0 || st.pos >= d.len() {
        Err(VmError::UnexpectedEof)
    } else {
        let tag = d[st.pos];
        let p = st.pos + 1;
        let after = ParseState { pos: p, refs: st.refs };
        match tag_type(tag) {
            None => Err(VmError::UnknownTag(tag)),
            Some(t) => match t {
                ObjectType::NULL => Ok((Obj::Null, after)),
                ObjectType::NONE => Ok((Obj::NoneValue, after)),
                ObjectType::FALSE => Ok((Obj::False, after)),
                ObjectType::TRUE => Ok((Obj::True, after)),
                ObjectType::INT => if p + 4 > d.len() {
                    Err(VmError::UnexpectedEof)
                } else {
                    let o = Obj::Int((le_at(d, p, 4) as u32) as i32);
                    Ok((o, ParseState { pos: p + 4, refs: st.refs.push(o) }))
                },
                ObjectType::INT64 => if p + 8 > d.len() {
                    Err(VmError::UnexpectedEof)
                } else {
                    let o = Obj::Long((le_at(d, p, 8) as u64) as i64);
                    Ok((o, ParseState { pos: p + 8, refs: st.refs.push(o) }))
                },
                ObjectType::STRING => parse_str(d, after, 4),
                ObjectType::ASCII | ObjectType::ASCII_INTERNED => match parse_str(d, after, 4) {
                    Ok((o, s2)) => Ok((o, ParseState { pos: s2.pos, refs: s2.refs.push(o) })),
                    Err(e) => Err(e),
                },
                ObjectType::SHORT_ASCII | ObjectType::SHORT_ASCII_INTERNED => {
                    match parse_str(d, after, 1) {
                        Ok((o, s2)) => Ok((o, ParseState { pos: s2.pos, refs: s2.refs.push(o) })),
                        Err(e) => Err(e),
                    }
                },
                ObjectType::UNICODE => match parse_str(d, after, 4) {
                    Ok((o, s2)) => Ok((o, ParseState { pos: s2.pos, refs: s2.refs.push(o) })),
                    Err(e) => Err(e),
                },
                ObjectType::TUPLE | ObjectType::SMALL_TUPLE => {
                    let w: int = if t == ObjectType::TUPLE { 4 } else { 1 };
                    let idx = st.refs.len() as int;
                    let reserved = ParseState { pos: p, refs: st.refs.push(Obj::Null) };
                    match parse_seq_body(d, m, reserved, w) {
                        Ok((vs, s2)) => {
                            let o = Obj::Tuple(vs);
                            if idx < s2.refs.len() {
                                Ok((o, ParseState { pos: s2.pos, refs: s2.refs.update(idx, o) }))
                            } else {
                                Err(VmError::BadReference(idx as u32))
                            }
                        },
                        Err(e) => Err(e),
                    }
                },
                ObjectType::LIST => match parse_seq_body(d, m, after, 4) {
                    Ok((vs, s2)) => Ok((Obj::List(vs), ParseState { pos: s2.pos, refs: s2.refs.push(Obj::List(vs)) })),
                    Err(e) => Err(e),
                },
                ObjectType::SET => match parse_seq_body(d, m, after, 4) {
                    Ok((vs, s2)) => Ok((Obj::SetValue(vs), ParseState { pos: s2.pos, refs: s2.refs.push(Obj::SetValue(vs)) })),
                    Err(e) => Err(e),
                },
                ObjectType::DICT => match parse_dict(d, m, after) {
                    Ok((es, s2)) => Ok((Obj::Dict(es), ParseState { pos: s2.pos, refs: s2.refs.push(Obj::Dict(es)) })),
                    Err(e) => Err(e),
                },
                ObjectType::REF => if p + 4 > d.len() {
                    Err(VmError::UnexpectedEof)
                } else {
                    let i = le_at(d, p, 4);
                    if i < st.refs.len() {
                        Ok((st.refs[i as int], ParseState { pos: p + 4, refs: st.refs }))
                    } else {
                        Err(VmError::BadReference(i as u32))
                    }
                },
                ObjectType::CODE => match parse_fields(d, m, after, 0, empty_code_view()) {
                    Ok((cv, s2)) => Ok((Obj::Code(Box::new(cv)), s2)),
                    Err(e) => Err(e),
                },
                _ => Err(VmError::UnsupportedRecord(tag)),
            },
        }
    }
}

/// A string record body: a length of `w` bytes, then that many bytes.
pub open spec fn parse_str(d: Seq<u8>, st: ParseState, w: int) -> Result<(Obj, ParseState), VmError> {
    if st.pos + w > d.len() {
        Err(VmError::UnexpectedEof)
    } else {
        let n = le_at(d, st.pos, w);
        let p = st.pos + w;
        if p + n > d.len() {
            Err(VmError::UnexpectedEof)
        } else {
            Ok((Obj::Str(d.subrange(p, p + n)), ParseState { pos: p + n, refs: st.refs }))
        }
    }
}

/// A sequence record body: a count of `w` bytes, then that many records.
pub open spec fn parse_seq_body(d: Seq<u8>, m: Magic, st: ParseState, w: int) -> Result<(Seq<Obj>, ParseState), VmError>
    decreases d.len() - st.pos, 2int, 0int,
{
    if w < 1 || st.pos < 0 || st.pos + w > d.len() {
        Err(VmError::UnexpectedEof)
    } else {
        let n = le_at(d, st.pos, w);
        parse_elems(d, m, ParseState { pos: st.pos + w, refs: st.refs }, n)
    }
}

/// `n` records in a row.
pub open spec fn parse_elems(d: Seq<u8>, m: Magic, st: ParseState, n: nat) -> Result<(Seq<Obj>, ParseState), VmError>
    decreases d.len() - st.pos, 1int, n,
{
    if n == 0 {
        Ok((Seq::empty(), st))
    } else if st.pos < 0 || st.pos >= d.len() {
        Err(VmError::UnexpectedEof)
    } else {
        match parse_value(d, m, st) {
            Err(e) => Err(e),
            Ok((v, s1)) => if !advanced(d, st, s1) {
                Err(VmError::UnexpectedEof)
            } else {
                match parse_elems(d, m, s1, (n - 1) as nat) {
                    Err(e) => Err(e),
                    Ok((vs, s2)) => Ok((seq![v] + vs, s2)),
                }
            },
        }
    }
}

/// Key and value records in turn, up to a null key.
pub open spec fn parse_dict(d: Seq<u8>, m: Magic, st: ParseState) -> Result<(Seq<(Obj, Obj)>, ParseState), VmError>
    decreases d.len() - st.pos, 1int, 0int,
{
    if st.pos < 0 || st.pos >= d.len() {
        Err(VmError::UnexpectedEof)
    } else {
        match parse_value(d, m, st) {
            Err(e) => Err(e),
            Ok((k, s1)) => if k == Obj::Null {
                Ok((Seq::empty(), s1))
            } else if !advanced(d, st, s1) || s1.pos >= d.len() {
                Err(VmError::UnexpectedEof)
            } else {
                match parse_value(d, m, s1) {
                    Err(e) => Err(e),
                    Ok((v, s2)) => if !advanced(d, st, s2) {
                        Err(VmError::UnexpectedEof)
                    } else {
                        match parse_dict(d, m, s2) {
                            Err(e) => Err(e),
                            Ok((es, s3)) => Ok((seq![(k, v)] + es, s3)),
                        }
                    },
                }
            },
        }
    }
}

/// Code-object fields from field `i` on, filling `acc`.
pub open spec fn parse_fields(d: Seq<u8>, m: Magic, st: ParseState, i: nat, acc: CodeView) -> Result<(CodeView, ParseState), VmError>
    decreases d.len() - st.pos, 1int, CODE_FIELDS - i,
{
    if i >= CODE_FIELDS || st.pos < 0 || st.pos > d.len() {
        if i >= CODE_FIELDS {
            Ok((acc, st))
        } else {
            Err(VmError::UnexpectedEof)
        }
    } else {
        match field_rule_spec(i as int, m.rank()) {
            FieldRule::Absent => parse_fields(d, m, st, i + 1, acc),
            FieldRule::U16 => if st.pos + 2 > d.len() {
                Err(VmError::UnexpectedEof)
            } else {
                let v = (le_at(d, st.pos, 2) as u16) as u32;
                parse_fields(d, m, ParseState { pos: st.pos + 2, refs: st.refs }, i + 1, with_int_field(acc, i as int, v))
            },
            FieldRule::U32 => if st.pos + 4 > d.len() {
                Err(VmError::UnexpectedEof)
            } else {
                let v = le_at(d, st.pos, 4) as u32;
                parse_fields(d, m, ParseState { pos: st.pos + 4, refs: st.refs }, i + 1, with_int_field(acc, i as int, v))
            },
            FieldRule::Object => match parse_value(d, m, st) {
                Err(e) => Err(e),
                Ok((o, s1)) => if !advanced(d, st, s1) {
                    Err(VmError::UnexpectedEof)
                } else {
                    match with_obj_field(acc, i as int, o) {
                        Err(e) => Err(e),
                        Ok(acc1) => parse_fields(d, m, s1, i + 1, acc1),
                    }
                },
            },
        }
    }
}

} // verus!

verus! {

/// The parse state that a stream stands at.
pub open spec fn state_of(s: InputStream) -> ParseState {
    ParseState { pos: s.position(), refs: s.table() }
}

/// `r` and the stream `s` after the call agree with the parse result `spec`.
pub open spec fn value_outcome(spec: Result<(Obj, ParseState), VmError>, r: Result<PyObject, VmError>, s: InputStream) -> bool {
    match spec {
        Ok((o, st)) => r is Ok && r->Ok_0@ == o && state_of(s) == st,
        Err(e) => r == Err::<PyObject, VmError>(e),
    }
}

/// Like `value_outcome`, for a sequence of values.
pub open spec fn elems_outcome(spec: Result<(Seq<Obj>, ParseState), VmError>, r: Result<Vec<PyObject>, VmError>, s: InputStream) -> bool {
    match spec {
        Ok((vs, st)) => r is Ok && views(r->Ok_0@) == vs && state_of(s) == st,
        Err(e) => r == Err::<Vec<PyObject>, VmError>(e),
    }
}

/// A sequence parse result wrapped as one value by `wrap`.
pub open spec fn wrap_seq(spec: Result<(Seq<Obj>, ParseState), VmError>, kind: ObjectType) -> Result<(Obj, ParseState), VmError> {
    match spec {
        Ok((vs, st)) => Ok((
            if kind == ObjectType::LIST {
                Obj::List(vs)
            } else if kind == ObjectType::SET {
                Obj::SetValue(vs)
            } else {
                Obj::Tuple(vs)
            },
            st,
        )),
        Err(e) => Err(e),
    }
}

pub open spec fn prepend(acc: Seq<Obj>, r: Result<(Seq<Obj>, ParseState), VmError>) -> Result<(Seq<Obj>, ParseState), VmError> {
    match r {
        Ok((vs, st)) => Ok((acc + vs, st)),
        Err(e) => Err(e),
    }
}

pub open spec fn prepend_entries(es: Seq<(Obj, Obj)>, r: Result<(Seq<(Obj, Obj)>, ParseState), VmError>) -> Result<(Seq<(Obj, Obj)>, ParseState), VmError> {
    match r {
        Ok((a, st)) => Ok((es + a, st)),
        Err(e) => Err(e),
    }
}

proof fn lemma_prepend_step(acc: Seq<Obj>, v: Obj, r: Result<(Seq<Obj>, ParseState), VmError>)
    ensures
        prepend(acc, prepend(seq![v], r)) == prepend(acc.push(v), r),
{
    match r {
        Ok((vs, st)) => {
            assert(acc + (seq![v] + vs) =~= acc.push(v) + vs);
        },
        Err(e) => {},
    }
}

/// Reads `n` records in a row.
fn read_elems(stream: &mut InputStream, magic: Magic, n: u32) -> (r: Result<Vec<PyObject>, VmError>)
    requires
        old(stream).wf(),
    ensures
        final(stream).wf(),
        final(stream).bytes() == old(stream).bytes(),
        final(stream).depth_count() == old(stream).depth_count(),
        elems_outcome(parse_elems(old(stream).bytes(), magic, state_of(*old(stream)), n as nat), r, *final(stream)),
        r is Ok ==> old(stream).position() <= final(stream).position() && old(stream).table().len() <= final(stream).table().len(),
    decreases old(stream).bytes().len() - old(stream).position(), 1int, 0int,
{
    let ghost d = stream.bytes();
    let ghost st0 = state_of(*stream);
    let mut out: Vec<PyObject> = Vec::new();
    let mut k: u32 = 0;
    proof {
        assert(views(out@) =~= Seq::<Obj>::empty());
        assert(prepend(Seq::<Obj>::empty(), parse_elems(d, magic, st0, n as nat)) == parse_elems(d, magic, st0, n as nat)) by {
            match parse_elems(d, magic, st0, n as nat) {
                Ok((vs, st)) => {
                    assert(Seq::<Obj>::empty() + vs =~= vs);
                },
                Err(e) => {},
            }
        }
    }
    while k < n
        invariant
            stream.wf(),
            stream.bytes() == d,
            d == old(stream).bytes(),
            stream.depth_count() == old(stream).depth_count(),
            st0 == state_of(*old(stream)),
            k <= n,
            st0.pos <= stream.position(),
            st0.refs.len() <= stream.table().len(),
            parse_elems(d, magic, st0, n as nat) == prepend(views(out@), parse_elems(d, magic, state_of(*stream), (n - k) as nat)),
        decreases n - k,
    {
        let ghost cur = state_of(*stream);
        let ghost before = views(out@);
        let v = PycParser::marshal_object(stream, magic);
        match v {
            Err(e) => {
                return Err(e);
            },
            Ok(v) => {
                proof {
                    let rest = parse_elems(d, magic, state_of(*stream), (n - k - 1) as nat);
                    assert(parse_elems(d, magic, cur, (n - k) as nat) == prepend(seq![v@], rest));
                    lemma_prepend_step(before, v@, rest);
                }
                out.push(v);
                proof {
                    assert(views(out@) =~= before.push(v@));
                }
                k += 1;
            },
        }
    }
    proof {
        assert(views(out@) + Seq::<Obj>::empty() =~= views(out@));
    }
    Ok(out)
}

/// Reads the fields of a code object, as the version `magic` lays them out.
fn read_code(stream: &mut InputStream, magic: Magic) -> (r: Result<CodeObject, VmError>)
    requires
        old(stream).wf(),
    ensures
        final(stream).wf(),
        final(stream).bytes() == old(stream).bytes(),
        final(stream).depth_count() == old(stream).depth_count(),
        match parse_fields(old(stream).bytes(), magic, state_of(*old(stream)), 0, empty_code_view()) {
            Ok((cv, st)) => r is Ok && r->Ok_0.view() == cv && state_of(*final(stream)) == st,
            Err(e) => r == Err::<CodeObject, VmError>(e),
        },
        r is Ok ==> old(stream).position() <= final(stream).position() && old(stream).table().len() <= final(stream).table().len(),
    decreases old(stream).bytes().len() - old(stream).position(), 1int, 0int,
{
    let ghost d = stream.bytes();
    let ghost st0 = state_of(*stream);
    let mut acc = CodeObject::empty();
    let mut i: usize = 0;
    while i < CODE_FIELDS
        invariant
            stream.wf(),
            stream.bytes() == d,
            d == old(stream).bytes(),
            stream.depth_count() == old(stream).depth_count(),
            st0 == state_of(*old(stream)),
            i <= CODE_FIELDS,
            st0.pos <= stream.position(),
            st0.refs.len() <= stream.table().len(),
            parse_fields(d, magic, st0, 0, empty_code_view()) == parse_fields(d, magic, state_of(*stream), i as nat, acc.view()),
        decreases CODE_FIELDS - i,
    {
        match field_rule(i, magic) {
            FieldRule::Absent => {},
            FieldRule::U16 => {
                let v = match stream.read_u16() {
                    Ok(v) => v,
                    Err(e) => {
                        return Err(e);
                    },
                };
                acc.set_int_field(i, v as u32);
            },
            FieldRule::U32 => {
                let v = match stream.read_u32() {
                    Ok(v) => v,
                    Err(e) => {
                        return Err(e);
                    },
                };
                acc.set_int_field(i, v);
            },
            FieldRule::Object => {
                let o = match PycParser::marshal_object(stream, magic) {
                    Ok(o) => o,
                    Err(e) => {
                        return Err(e);
                    },
                };
                match acc.set_obj_field(i, o) {
                    Ok(()) => {},
                    Err(e) => {
                        return Err(e);
                    },
                }
            },
        }
        i += 1;
    }
    Ok(acc)
}

impl CodeObject {
    /// A code object with no field set.
    pub fn empty() -> (r: CodeObject)
        ensures
            r.view() == empty_code_view(),
    {
        let r = CodeObject {
            num_args: None,
            num_pos_only_args: None,
            num_kw_only_args: None,
            num_locals: None,
            num_stack: None,
            flags: None,
            first_line: None,
            code: Vec::new(),
            constants: None,
            names: None,
            local_names: None,
            local_kinds: None,
            free_vars: None,
            cell_vars: None,
            file_name: None,
            name: None,
            qualified_name: None,
            line_table: None,
            exception_table: None,
        };
        assert(r.view().code =~= Seq::<u8>::empty());
        r
    }

    /// Sets integer field `i` (serialized order).
    pub fn set_int_field(&mut self, i: usize, v: u32)
        ensures
            final(self).view() == with_int_field(old(self).view(), i as int, v),
    {
        if i == 0 {
            self.num_args = Some(v);
        } else if i == 1 {
            self.num_pos_only_args = Some(v);
        } else if i == 2 {
            self.num_kw_only_args = Some(v);
        } else if i == 3 {
            self.num_locals = Some(v);
        } else if i == 4 {
            self.num_stack = Some(v);
        } else if i == 5 {
            self.flags = Some(v);
        } else if i == 16 {
            self.first_line = Some(v);
        }
    }

    /// Sets object field `i` (serialized order); the instruction field takes a string's bytes.
    pub fn set_obj_field(&mut self, i: usize, o: PyObject) -> (r: Result<(), VmError>)
        ensures
            match with_obj_field(old(self).view(), i as int, o@) {
                Ok(cv) => r is Ok && final(self).view() == cv,
                Err(e) => r == Err::<(), VmError>(e),
            },
    {
        if i == 6 {
            match o {
                PyObject::Str(s) => {
                    self.code = s.data;
                    Ok(())
                },
                _ => Err(VmError::WrongRecordKind),
            }
        } else {
            if i == 7 {
                self.constants = Some(o);
            } else if i == 8 {
                self.names = Some(o);
            } else if i == 9 {
                self.local_names = Some(o);
            } else if i == 10 {
                self.local_kinds = Some(o);
            } else if i == 11 {
                self.free_vars = Some(o);
            } else if i == 12 {
                self.cell_vars = Some(o);
            } else if i == 13 {
                self.file_name = Some(o);
            } else if i == 14 {
                self.name = Some(o);
            } else if i == 15 {
                self.qualified_name = Some(o);
            } else if i == 17 {
                self.line_table = Some(o);
            } else if i == 18 {
                self.exception_table = Some(o);
            }
            Ok(())
        }
    }

    /// Reads a code-object record body.
    pub fn new(stream: &mut InputStream, magic: Magic) -> (r: Result<PyObject, VmError>)
        requires
            old(stream).wf(),
        ensures
            final(stream).wf(),
            final(stream).bytes() == old(stream).bytes(),
            final(stream).depth_count() == old(stream).depth_count(),
        final(stream).depth_count() == old(stream).depth_count(),
            value_outcome(
                match parse_fields(old(stream).bytes(), magic, state_of(*old(stream)), 0, empty_code_view()) {
                    Ok((cv, st)) => Ok((Obj::Code(Box::new(cv)), st)),
                    Err(e) => Err(e),
                },
                r,
                *final(stream),
            ),
            r is Ok ==> old(stream).position() <= final(stream).position() && old(stream).table().len() <= final(stream).table().len(),
        decreases old(stream).bytes().len() - old(stream).position(), 2int, 0int,
    {
        match read_code(stream, magic) {
            Ok(c) => Ok(PyObject::Code(Box::new(c))),
            Err(e) => Err(e),
        }
    }
}

} // verus!

verus! {

/// A string record body parsed with a length of `w` bytes, as a value outcome.
pub open spec fn str_outcome(d: Seq<u8>, st: ParseState, w: int, r: Result<PyObject, VmError>, s: InputStream) -> bool {
    value_outcome(parse_str(d, st, w), r, s)
}

impl StringObject {
    /// Reads `length` bytes as a string's payload.
    pub fn _new(stream: &mut InputStream, length: u32) -> (r: Result<StringObject, VmError>)
        requires
            old(stream).wf(),
        ensures
            final(stream).wf(),
            final(stream).bytes() == old(stream).bytes(),
            final(stream).depth_count() == old(stream).depth_count(),
        final(stream).depth_count() == old(stream).depth_count(),
            final(stream).table() == old(stream).table(),
            old(stream).has(length as int) ==> r is Ok && r->Ok_0.data@ == old(stream).next_bytes(length as int)
                && final(stream).position() == old(stream).position() + length,
            !old(stream).has(length as int) ==> r is Err && r->Err_0 == VmError::UnexpectedEof,
    {
        match stream.read_bytes(length) {
            Ok(data) => Ok(StringObject { data }),
            Err(e) => Err(e),
        }
    }

    /// Reads a string body with a four-byte length.
    pub fn new(stream: &mut InputStream) -> (r: Result<PyObject, VmError>)
        requires
            old(stream).wf(),
        ensures
            final(stream).wf(),
            final(stream).bytes() == old(stream).bytes(),
            final(stream).depth_count() == old(stream).depth_count(),
        final(stream).depth_count() == old(stream).depth_count(),
            str_outcome(old(stream).bytes(), state_of(*old(stream)), 4, r, *final(stream)),
            r is Ok ==> old(stream).position() < final(stream).position() && old(stream).table() == final(stream).table(),
    {
        proof {
            lemma_le_small(old(stream).next_bytes(4));
        }
        let n = match stream.read_u32() {
            Ok(n) => n,
            Err(e) => {
                return Err(e);
            },
        };
        match StringObject::_new(stream, n) {
            Ok(s) => Ok(PyObject::Str(s)),
            Err(e) => Err(e),
        }
    }

    /// Reads a string body with a one-byte length.
    pub fn new_from_short(stream: &mut InputStream) -> (r: Result<PyObject, VmError>)
        requires
            old(stream).wf(),
        ensures
            final(stream).wf(),
            final(stream).bytes() == old(stream).bytes(),
            final(stream).depth_count() == old(stream).depth_count(),
        final(stream).depth_count() == old(stream).depth_count(),
            str_outcome(old(stream).bytes(), state_of(*old(stream)), 1, r, *final(stream)),
            r is Ok ==> old(stream).position() < final(stream).position() && old(stream).table() == final(stream).table(),
    {
        proof {
            lemma_le_small(old(stream).next_bytes(1));
        }
        let n = match stream.read() {
            Ok(n) => n,
            Err(e) => {
                return Err(e);
            },
        };
        match StringObject::_new(stream, n as u32) {
            Ok(s) => Ok(PyObject::Str(s)),
            Err(e) => Err(e),
        }
    }

    /// Reads a text string body with a four-byte length; its payload is UTF-8.
    pub fn new_from_unicode(stream: &mut InputStream) -> (r: Result<PyObject, VmError>)
        requires
            old(stream).wf(),
        ensures
            final(stream).wf(),
            final(stream).bytes() == old(stream).bytes(),
            final(stream).depth_count() == old(stream).depth_count(),
        final(stream).depth_count() == old(stream).depth_count(),
            str_outcome(old(stream).bytes(), state_of(*old(stream)), 4, r, *final(stream)),
            r is Ok ==> old(stream).position() < final(stream).position() && old(stream).table() == final(stream).table(),
    {
        StringObject::new(stream)
    }
}

impl IntObject {
    /// Reads a four-byte integer body.
    pub fn new(stream: &mut InputStream) -> (r: Result<PyObject, VmError>)
        requires
            old(stream).wf(),
        ensures
            final(stream).wf(),
            final(stream).bytes() == old(stream).bytes(),
            final(stream).depth_count() == old(stream).depth_count(),
        final(stream).depth_count() == old(stream).depth_count(),
            final(stream).table() == old(stream).table(),
            old(stream).has(4) ==> r is Ok && r->Ok_0@ == Obj::Int((le_value(old(stream).next_bytes(4)) as u32) as i32)
                && final(stream).position() == old(stream).position() + 4,
            !old(stream).has(4) ==> r == Err::<PyObject, VmError>(VmError::UnexpectedEof),
    {
        match stream.read_i32() {
            Ok(v) => Ok(PyObject::Int(IntObject { value: v })),
            Err(e) => Err(e),
        }
    }
}

impl IntLongObject {
    /// Reads an eight-byte integer body.
    pub fn new(stream: &mut InputStream) -> (r: Result<PyObject, VmError>)
        requires
            old(stream).wf(),
        ensures
            final(stream).wf(),
            final(stream).bytes() == old(stream).bytes(),
            final(stream).depth_count() == old(stream).depth_count(),
        final(stream).depth_count() == old(stream).depth_count(),
            final(stream).table() == old(stream).table(),
            old(stream).has(8) ==> r is Ok && r->Ok_0@ == Obj::Long((le_value(old(stream).next_bytes(8)) as u64) as i64)
                && final(stream).position() == old(stream).position() + 8,
            !old(stream).has(8) ==> r == Err::<PyObject, VmError>(VmError::UnexpectedEof),
    {
        match stream.read_i64() {
            Ok(v) => Ok(PyObject::Long(IntLongObject { value: v })),
            Err(e) => Err(e),
        }
    }
}

impl TupleObject {
    /// Reads `length` records as a tuple.
    pub fn _new(stream: &mut InputStream, magic: Magic, length: u32) -> (r: Result<TupleObject, VmError>)
        requires
            old(stream).wf(),
        ensures
            final(stream).wf(),
            final(stream).bytes() == old(stream).bytes(),
            final(stream).depth_count() == old(stream).depth_count(),
        final(stream).depth_count() == old(stream).depth_count(),
            match parse_elems(old(stream).bytes(), magic, state_of(*old(stream)), length as nat) {
                Ok((vs, st)) => r is Ok && views(r->Ok_0.values@) == vs && state_of(*final(stream)) == st,
                Err(e) => r == Err::<TupleObject, VmError>(e),
            },
            r is Ok ==> old(stream).position() <= final(stream).position() && old(stream).table().len() <= final(stream).table().len(),
        decreases old(stream).bytes().len() - old(stream).position(), 2int, 0int,
    {
        match read_elems(stream, magic, length) {
            Ok(values) => Ok(TupleObject { values }),
            Err(e) => Err(e),
        }
    }

    /// Reads a tuple body with a four-byte count.
    pub fn new(stream: &mut InputStream, magic: Magic) -> (r: Result<PyObject, VmError>)
        requires
            old(stream).wf(),
        ensures
            final(stream).wf(),
            final(stream).bytes() == old(stream).bytes(),
            final(stream).depth_count() == old(stream).depth_count(),
        final(stream).depth_count() == old(stream).depth_count(),
            value_outcome(wrap_seq(parse_seq_body(old(stream).bytes(), magic, state_of(*old(stream)), 4), ObjectType::TUPLE), r, *final(stream)),
            r is Ok ==> old(stream).position() < final(stream).position() && old(stream).table().len() <= final(stream).table().len(),
        decreases old(stream).bytes().len() - old(stream).position(), 3int, 0int,
    {
        proof {
            lemma_le_small(old(stream).next_bytes(4));
        }
        let n = match stream.read_u32() {
            Ok(n) => n,
            Err(e) => {
                return Err(e);
            },
        };
        match TupleObject::_new(stream, magic, n) {
            Ok(t) => Ok(PyObject::Tuple(t)),
            Err(e) => Err(e),
        }
    }

    /// Reads a tuple body with a one-byte count.
    pub fn new_from_short(stream: &mut InputStream, magic: Magic) -> (r: Result<PyObject, VmError>)
        requires
            old(stream).wf(),
        ensures
            final(stream).wf(),
            final(stream).bytes() == old(stream).bytes(),
            final(stream).depth_count() == old(stream).depth_count(),
        final(stream).depth_count() == old(stream).depth_count(),
            value_outcome(wrap_seq(parse_seq_body(old(stream).bytes(), magic, state_of(*old(stream)), 1), ObjectType::TUPLE), r, *final(stream)),
            r is Ok ==> old(stream).position() < final(stream).position() && old(stream).table().len() <= final(stream).table().len(),
        decreases old(stream).bytes().len() - old(stream).position(), 3int, 0int,
    {
        proof {
            lemma_le_small(old(stream).next_bytes(1));
        }
        let n = match stream.read() {
            Ok(n) => n,
            Err(e) => {
                return Err(e);
            },
        };
        match TupleObject::_new(stream, magic, n as u32) {
            Ok(t) => Ok(PyObject::Tuple(t)),
            Err(e) => Err(e),
        }
    }
}

impl ListObject {
    /// Reads a list body with a four-byte count.
    pub fn new(stream: &mut InputStream, magic: Magic) -> (r: Result<PyObject, VmError>)
        requires
            old(stream).wf(),
        ensures
            final(stream).wf(),
            final(stream).bytes() == old(stream).bytes(),
            final(stream).depth_count() == old(stream).depth_count(),
        final(stream).depth_count() == old(stream).depth_count(),
            value_outcome(wrap_seq(parse_seq_body(old(stream).bytes(), magic, state_of(*old(stream)), 4), ObjectType::LIST), r, *final(stream)),
            r is Ok ==> old(stream).position() < final(stream).position() && old(stream).table().len() <= final(stream).table().len(),
        decreases old(stream).bytes().len() - old(stream).position(), 3int, 0int,
    {
        proof {
            lemma_le_small(old(stream).next_bytes(4));
        }
        let n = match stream.read_u32() {
            Ok(n) => n,
            Err(e) => {
                return Err(e);
            },
        };
        match read_elems(stream, magic, n) {
            Ok(values) => Ok(PyObject::List(ListObject { values })),
            Err(e) => Err(e),
        }
    }
}

impl SetObject {
    /// Reads a set body with a four-byte count.
    pub fn new(stream: &mut InputStream, magic: Magic) -> (r: Result<PyObject, VmError>)
        requires
            old(stream).wf(),
        ensures
            final(stream).wf(),
            final(stream).bytes() == old(stream).bytes(),
            final(stream).depth_count() == old(stream).depth_count(),
        final(stream).depth_count() == old(stream).depth_count(),
            value_outcome(wrap_seq(parse_seq_body(old(stream).bytes(), magic, state_of(*old(stream)), 4), ObjectType::SET), r, *final(stream)),
            r is Ok ==> old(stream).position() < final(stream).position() && old(stream).table().len() <= final(stream).table().len(),
        decreases old(stream).bytes().len() - old(stream).position(), 3int, 0int,
    {
        proof {
            lemma_le_small(old(stream).next_bytes(4));
        }
        let n = match stream.read_u32() {
            Ok(n) => n,
            Err(e) => {
                return Err(e);
            },
        };
        match read_elems(stream, magic, n) {
            Ok(values) => Ok(PyObject::SetValue(SetObject { values })),
            Err(e) => Err(e),
        }
    }
}

impl DictObject {
    /// Reads key and value records in turn up to a null key.
    pub fn new(stream: &mut InputStream, magic: Magic) -> (r: Result<PyObject, VmError>)
        requires
            old(stream).wf(),
        ensures
            final(stream).wf(),
            final(stream).bytes() == old(stream).bytes(),
            final(stream).depth_count() == old(stream).depth_count(),
        final(stream).depth_count() == old(stream).depth_count(),
            value_outcome(
                match parse_dict(old(stream).bytes(), magic, state_of(*old(stream))) {
                    Ok((es, st)) => Ok((Obj::Dict(es), st)),
                    Err(e) => Err(e),
                },
                r,
                *final(stream),
            ),
            r is Ok ==> old(stream).position() < final(stream).position() && old(stream).table().len() <= final(stream).table().len(),
        decreases old(stream).bytes().len() - old(stream).position(), 1int, 0int,
    {
        let ghost d = stream.bytes();
        let ghost st0 = state_of(*stream);
        let mut entries: Vec<DictEntry> = Vec::new();
        proof {
            assert(entry_views(entries@) =~= Seq::<(Obj, Obj)>::empty());
            match parse_dict(d, magic, st0) {
                Ok((a, st)) => {
                    assert(Seq::<(Obj, Obj)>::empty() + a =~= a);
                },
                Err(e) => {},
            }
        }
        loop
            invariant
                stream.wf(),
                stream.bytes() == d,
                d == old(stream).bytes(),
                stream.depth_count() == old(stream).depth_count(),
            stream.depth_count() == old(stream).depth_count(),
                st0 == state_of(*old(stream)),
                st0.pos <= stream.position(),
                st0.refs.len() <= stream.table().len(),
                parse_dict(d, magic, st0) == prepend_entries(entry_views(entries@), parse_dict(d, magic, state_of(*stream))),
            decreases d.len() - stream.position(),
        {
            let ghost cur = state_of(*stream);
            let ghost es = entry_views(entries@);
            let key = match PycParser::marshal_object(stream, magic) {
                Ok(k) => k,
                Err(e) => {
                    return Err(e);
                },
            };
            if let PyObject::Null(_) = key {
                proof {
                    assert(es + Seq::<(Obj, Obj)>::empty() =~= es);
                }
                return Ok(PyObject::Dict(DictObject { entries }));
            }
            let ghost s1 = state_of(*stream);
            let value = match PycParser::marshal_object(stream, magic) {
                Ok(v) => v,
                Err(e) => {
                    return Err(e);
                },
            };
            proof {
                let rest = parse_dict(d, magic, state_of(*stream));
                assert(parse_dict(d, magic, cur) == prepend_entries(seq![(key@, value@)], rest));
                match rest {
                    Ok((a, st)) => {
                        assert(es + (seq![(key@, value@)] + a) =~= es.push((key@, value@)) + a);
                    },
                    Err(e) => {},
                }
            }
            entries.push(DictEntry { key, value });
            proof {
                assert(entry_views(entries@) =~= es.push((entries@.last().key@, entries@.last().value@)));
            }
        }
    }
}

/// The fixed header that precedes the serialized code object.
pub struct PycHeader {
    pub magic: Magic,
    pub flags: u32,
    pub timestamp: u32,
    pub size: u32,
}

/// A loaded bytecode image: its header and its top-level code object.
pub struct PycParser {
    pub header: PycHeader,
    pub code_object: CodeObject,
}

/// What loading an image yields: version, flags, timestamp, size and the code object.
pub open spec fn parse_pyc(d: Seq<u8>) -> Result<(Magic, u32, u32, u32, CodeView), VmError> {
    if d.len() < 4 {
        Err(VmError::UnexpectedEof)
    } else {
        let word = le_at(d, 0, 4) as u32;
        match magic_of(word) {
            None => Err(VmError::UnknownMagic(word)),
            Some(m) => if d.len() < 16 {
                Err(VmError::UnexpectedEof)
            } else {
                match parse_value(d, m, ParseState { pos: 16, refs: Seq::empty() }) {
                    Ok((Obj::Code(cv), _)) => Ok((m, le_at(d, 4, 4) as u32, le_at(d, 8, 4) as u32, le_at(d, 12, 4) as u32, *cv)),
                    Ok(_) => Err(VmError::WrongRecordKind),
                    Err(e) => Err(e),
                }
            },
        }
    }
}

impl PycParser {
    /// Loads an image: a header of four little-endian words (version tag, flags,
    /// timestamp, size), then one record that must be a code object.
    pub fn new(contents: Vec<u8>) -> (r: Result<PycParser, VmError>)
        ensures
            match parse_pyc(contents@) {
                Ok((m, flags, timestamp, size, cv)) => r is Ok && r->Ok_0.header.magic == m
                    && r->Ok_0.header.flags == flags && r->Ok_0.header.timestamp == timestamp
                    && r->Ok_0.header.size == size && r->Ok_0.code_object.view() == cv,
                Err(e) => r is Err && r->Err_0 == e,
            },
    {
        let ghost d = contents@;
        let mut stream = InputStream::new(contents);
        let word = match stream.read_u32() {
            Ok(w) => w,
            Err(e) => {
                return Err(e);
            },
        };
        assert(stream.next_bytes(0).len() == 0);
        let magic = match Magic::from_u32(word) {
            Ok(m) => m,
            Err(e) => {
                return Err(e);
            },
        };
        let flags = match stream.read_u32() {
            Ok(w) => w,
            Err(e) => {
                return Err(e);
            },
        };
        let timestamp = match stream.read_u32() {
            Ok(w) => w,
            Err(e) => {
                return Err(e);
            },
        };
        let size = match stream.read_u32() {
            Ok(w) => w,
            Err(e) => {
                return Err(e);
            },
        };
        let header = PycHeader { magic, flags, timestamp, size };
        match PycParser::marshal_object(&mut stream, magic) {
            Ok(PyObject::Code(c)) => Ok(PycParser { header, code_object: *c }),
            Ok(_) => Err(VmError::WrongRecordKind),
            Err(e) => Err(e),
        }
    }

    /// Reads one tagged record. Integers, ASCII, short ASCII and text strings, lists, sets
    /// and dicts are appended to the back-reference table once built; plain byte strings
    /// and code objects are not. A tuple reserves its slot before its elements are read
    /// and fills it afterwards; a reference record yields a copy of the table entry it
    /// names, and a reference past the table is reported as `BadReference`.
    pub fn marshal_object(stream: &mut InputStream, magic: Magic) -> (r: Result<PyObject, VmError>)
        requires
            old(stream).wf(),
        ensures
            final(stream).wf(),
            final(stream).bytes() == old(stream).bytes(),
            final(stream).depth_count() == old(stream).depth_count(),
        final(stream).depth_count() == old(stream).depth_count(),
            value_outcome(parse_value(old(stream).bytes(), magic, state_of(*old(stream))), r, *final(stream)),
            r is Ok ==> old(stream).position() < final(stream).position() && old(stream).table().len() <= final(stream).table().len(),
        decreases old(stream).bytes().len() - old(stream).position(), 0int, 0int,
    {
        let tag = match stream.read() {
            Ok(t) => t,
            Err(e) => {
                return Err(e);
            },
        };
        let t = match ObjectType::from_tag(tag) {
            Some(t) => t,
            None => {
                return Err(VmError::UnknownTag(tag));
            },
        };
        match t {
            ObjectType::NULL => Ok(NullObject::new()),
            ObjectType::NONE => Ok(NoneObject::new()),
            ObjectType::FALSE => Ok(FalseObject::new()),
            ObjectType::TRUE => Ok(TrueObject::new()),
            ObjectType::INT => match IntObject::new(stream) {
                Ok(o) => {
                    stream.push_ref(o.copy());
                    Ok(o)
                },
                Err(e) => Err(e),
            },
            ObjectType::INT64 => match IntLongObject::new(stream) {
                Ok(o) => {
                    stream.push_ref(o.copy());
                    Ok(o)
                },
                Err(e) => Err(e),
            },
            ObjectType::STRING => StringObject::new(stream),
            ObjectType::ASCII | ObjectType::ASCII_INTERNED => match StringObject::new(stream) {
                Ok(o) => {
                    stream.push_ref(o.copy());
                    Ok(o)
                },
                Err(e) => Err(e),
            },
            ObjectType::SHORT_ASCII | ObjectType::SHORT_ASCII_INTERNED => match StringObject::new_from_short(stream) {
                Ok(o) => {
                    stream.push_ref(o.copy());
                    Ok(o)
                },
                Err(e) => Err(e),
            },
            ObjectType::UNICODE => match StringObject::new_from_unicode(stream) {
                Ok(o) => {
                    stream.push_ref(o.copy());
                    Ok(o)
                },
                Err(e) => Err(e),
            },
            ObjectType::TUPLE | ObjectType::SMALL_TUPLE => {
                let index = stream.reserve_ref();
                let res = if t == ObjectType::TUPLE {
                    TupleObject::new(stream, magic)
                } else {
                    TupleObject::new_from_short(stream, magic)
                };
                match res {
                    Ok(o) => {
                        stream.set_ref(index, o.copy());
                        Ok(o)
                    },
                    Err(e) => Err(e),
                }
            },
            ObjectType::LIST => match ListObject::new(stream, magic) {
                Ok(o) => {
                    stream.push_ref(o.copy());
                    Ok(o)
                },
                Err(e) => Err(e),
            },
            ObjectType::SET => match SetObject::new(stream, magic) {
                Ok(o) => {
                    stream.push_ref(o.copy());
                    Ok(o)
                },
                Err(e) => Err(e),
            },
            ObjectType::DICT => match DictObject::new(stream, magic) {
                Ok(o) => {
                    stream.push_ref(o.copy());
                    Ok(o)
                },
                Err(e) => Err(e),
            },
            ObjectType::REF => {
                proof {
                    lemma_le_small(stream.next_bytes(4));
                }
                let index = match stream.read_u32() {
                    Ok(i) => i,
                    Err(e) => {
                        return Err(e);
                    },
                };
                if index as usize >= stream.ref_count() {
                    return Err(VmError::BadReference(index));
                }
                Ok(stream.get_ref(index as usize))
            },
            ObjectType::CODE => CodeObject::new(stream, magic),
            _ => Err(VmError::UnsupportedRecord(tag)),
        }
    }
}

} // verus!

verus! {

/// A tuple record fills the table slot that it reserved before reading its elements:
/// once the parse succeeds, that slot holds the tuple itself rather than the placeholder,
/// so a later back-reference to it finds the tuple.
pub proof fn law_tuple_fills_its_slot(d: Seq<u8>, m: Magic, st: ParseState)
    requires
        0 <= st.pos < d.len(),
        tag_type(d[st.pos]) == Some(ObjectType::TUPLE) || tag_type(d[st.pos]) == Some(ObjectType::SMALL_TUPLE),
        parse_value(d, m, st) is Ok,
    ensures
        ({
            let (o, s2) = parse_value(d, m, st)->Ok_0;
            &&& o is Tuple
            &&& st.refs.len() < s2.refs.len()
            &&& s2.refs[st.refs.len() as int] == o
        }),
{
}

} // verus!
