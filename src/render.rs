use vstd::prelude::*;

use crate::decimal::{decimal, push_decimal};
use crate::object::{entry_views, views, DictEntry, Obj, PyObject};

verus! {

/// `$Int_`
pub open spec fn int_prefix() -> Seq<u8> {
    seq![36u8, 73, 110, 116, 95]
}

/// `$IntLong_`
pub open spec fn long_prefix() -> Seq<u8> {
    seq![36u8, 73, 110, 116, 76, 111, 110, 103, 95]
}

/// `$String_`
pub open spec fn string_prefix() -> Seq<u8> {
    seq![36u8, 83, 116, 114, 105, 110, 103, 95]
}

/// The text bytes of a string payload: the payload itself when it is valid UTF-8, else empty.
pub open spec fn text_of(b: Seq<u8>) -> Seq<u8> {
    if vstd::utf8::valid_utf8(b) {
        b
    } else {
        Seq::empty()
    }
}

/// The lookup key of a value: a prefix naming its kind, then its text. Only integers
/// and strings have one.
pub open spec fn key_of(o: Obj) -> Option<Seq<u8>> {
    match o {
        Obj::Int(v) => Some(int_prefix() + decimal(v as int)),
        Obj::Long(v) => Some(long_prefix() + decimal(v as int)),
        Obj::Str(b) => Some(string_prefix() + text_of(b)),
        _ => None,
    }
}

/// The lookup key for a name string with payload `b`.
pub open spec fn name_key(b: Seq<u8>) -> Seq<u8> {
    string_prefix() + text_of(b)
}

pub fn push_all(out: &mut Vec<u8>, b: &Vec<u8>)
    ensures
        final(out)@ == old(out)@ + b@,
{
    let mut i: usize = 0;
    while i < b.len()
        invariant
            i <= b@.len(),
            out@ == old(out)@ + b@.subrange(0, i as int),
        decreases b@.len() - i,
    {
        out.push(b[i]);
        i += 1;
        assert(out@ =~= old(out)@ + b@.subrange(0, i as int));
    }
    assert(b@.subrange(0, b@.len() as int) =~= b@);
}

impl PyObject {
    /// The lookup key of this value, or `None` for a kind that has none.
    pub fn hash_key(&self) -> (r: Option<Vec<u8>>)
        ensures
            r is Some <==> key_of(self@) is Some,
            r is Some ==> r->0@ == key_of(self@)->0,
    {
        match self {
            PyObject::Int(x) => {
                let mut out: Vec<u8> = vec![36u8, 73, 110, 116, 95];
                assert(out@ =~= int_prefix());
                push_decimal(x.value as i64, &mut out);
                Some(out)
            },
            PyObject::Long(x) => {
                let mut out: Vec<u8> = vec![36u8, 73, 110, 116, 76, 111, 110, 103, 95];
                assert(out@ =~= long_prefix());
                push_decimal(x.value, &mut out);
                Some(out)
            },
            PyObject::Str(s) => {
                let mut out: Vec<u8> = vec![36u8, 83, 116, 114, 105, 110, 103, 95];
                assert(out@ =~= string_prefix());
                if s.is_text() {
                    push_all(&mut out, &s.data);
                } else {
                    assert(out@ + Seq::<u8>::empty() =~= out@);
                }
                Some(out)
            },
            _ => None,
        }
    }
}

/// `", "`
pub open spec fn sep() -> Seq<u8> {
    seq![44u8, 32]
}

/// The print form of a value: `None`, `True`, `False`, decimal integers, string text,
/// and bracketed comma-separated elements for containers; code, functions and host
/// functions print as nothing. The null sentinel has no print form.
pub open spec fn display_of(o: Obj) -> Option<Seq<u8>>
    decreases o,
{
    match o {
        Obj::Null => None,
        Obj::NoneValue => Some(seq![78u8, 111, 110, 101]),
        Obj::True => Some(seq![84u8, 114, 117, 101]),
        Obj::False => Some(seq![70u8, 97, 108, 115, 101]),
        Obj::Int(v) => Some(decimal(v as int)),
        Obj::Long(v) => Some(decimal(v as int)),
        Obj::Str(b) => Some(text_of(b)),
        Obj::Tuple(vs) => bracket(40u8, join_displays(vs), 41u8),
        Obj::Iter(vs, _) => bracket(40u8, join_displays(vs), 41u8),
        Obj::List(vs) => bracket(91u8, join_displays(vs), 93u8),
        Obj::SetValue(vs) => bracket(123u8, join_displays(vs), 125u8),
        Obj::Dict(es) => bracket(123u8, join_entries(es), 125u8),
        Obj::Code(_) => Some(Seq::empty()),
        Obj::Function(_, _) => Some(Seq::empty()),
        Obj::Native(_) => Some(Seq::empty()),
    }
}

pub open spec fn bracket(open: u8, inner: Option<Seq<u8>>, close: u8) -> Option<Seq<u8>> {
    match inner {
        Some(b) => Some(seq![open] + b + seq![close]),
        None => None,
    }
}

/// Print forms of `s` joined by `", "`.
pub open spec fn join_displays(s: Seq<Obj>) -> Option<Seq<u8>>
    decreases s,
{
    if s.len() == 0 {
        Some(Seq::empty())
    } else {
        let last = s[s.len() - 1];
        match (join_displays(s.subrange(0, s.len() - 1)), display_of(last)) {
            (Some(a), Some(b)) => Some(if s.len() == 1 { b } else { a + sep() + b }),
            _ => None,
        }
    }
}

/// Print forms of `k: v` pairs joined by `", "`.
pub open spec fn join_entries(es: Seq<(Obj, Obj)>) -> Option<Seq<u8>>
    decreases es,
{
    if es.len() == 0 {
        Some(Seq::empty())
    } else {
        let n = es.len() - 1;
        match (join_entries(es.subrange(0, n)), display_of(es[n].0), display_of(es[n].1)) {
            (Some(a), Some(k), Some(v)) => {
                let pair = k + seq![58u8, 32] + v;
                Some(if es.len() == 1 { pair } else { a + sep() + pair })
            },
            _ => None,
        }
    }
}

proof fn lemma_join_none(s: Seq<Obj>, i: int)
    requires
        0 <= i < s.len(),
        display_of(s[i]) is None,
    ensures
        join_displays(s) is None,
    decreases s.len(),
{
    if i < s.len() - 1 {
        let p = s.subrange(0, s.len() - 1);
        assert(p[i] == s[i]);
        lemma_join_none(p, i);
    }
}

proof fn lemma_entries_none(s: Seq<(Obj, Obj)>, i: int)
    requires
        0 <= i < s.len(),
        display_of(s[i].0) is None || display_of(s[i].1) is None,
    ensures
        join_entries(s) is None,
    decreases s.len(),
{
    if i < s.len() - 1 {
        let p = s.subrange(0, s.len() - 1);
        assert(p[i] == s[i]);
        lemma_entries_none(p, i);
    }
}

/// Print forms of the values of `v` joined by `", "`.
fn display_values(v: &Vec<PyObject>) -> (r: Option<Vec<u8>>)
    ensures
        r is Some <==> join_displays(views(v@)) is Some,
        r is Some ==> r->0@ == join_displays(views(v@))->0,
    decreases v,
{
    let ghost s = views(v@);
    let mut out: Vec<u8> = Vec::new();
    let mut i: usize = 0;
    proof {
        assert(s.subrange(0, 0) =~= Seq::<Obj>::empty());
    }
    while i < v.len()
        invariant
            s == views(v@),
            i <= v@.len(),
            join_displays(s.subrange(0, i as int)) == Some(out@),
        decreases v@.len() - i,
    {
        proof {
            vstd::std_specs::vec::axiom_vec_index_decreases(*v, i as int);
            assert(decreases_to!(*v => v@));
            assert(decreases_to!(v@ => v@[i as int]));
            let t = s.subrange(0, i + 1);
            assert(t.subrange(0, t.len() - 1) =~= s.subrange(0, i as int));
            assert(t[t.len() - 1] == v@[i as int]@);
        }
        let d = match v[i].display() {
            Some(d) => d,
            None => {
                proof {
                    lemma_join_none(s, i as int);
                }
                return None;
            },
        };
        if i > 0 {
            out.push(44u8);
            out.push(32u8);
            push_all(&mut out, &d);
        } else {
            out = d;
        }
        proof {
            let t = s.subrange(0, i + 1);
            if i > 0 {
                assert(out@ =~= join_displays(s.subrange(0, i as int))->0 + sep() + d@);
            }
        }
        i += 1;
    }
    assert(s.subrange(0, v@.len() as int) =~= s);
    Some(out)
}

/// Print forms of `key: value` pairs joined by `", "`.
fn display_entries(v: &Vec<DictEntry>) -> (r: Option<Vec<u8>>)
    ensures
        r is Some <==> join_entries(entry_views(v@)) is Some,
        r is Some ==> r->0@ == join_entries(entry_views(v@))->0,
    decreases v,
{
    let ghost s = entry_views(v@);
    let mut out: Vec<u8> = Vec::new();
    let mut i: usize = 0;
    proof {
        assert(s.subrange(0, 0) =~= Seq::<(Obj, Obj)>::empty());
    }
    while i < v.len()
        invariant
            s == entry_views(v@),
            i <= v@.len(),
            join_entries(s.subrange(0, i as int)) == Some(out@),
        decreases v@.len() - i,
    {
        proof {
            vstd::std_specs::vec::axiom_vec_index_decreases(*v, i as int);
            assert(decreases_to!(*v => v@));
            assert(decreases_to!(v@ => v@[i as int]));
            assert(decreases_to!(v@[i as int] => v@[i as int].key));
            assert(decreases_to!(v@[i as int] => v@[i as int].value));
            let t = s.subrange(0, i + 1);
            assert(t.subrange(0, t.len() - 1) =~= s.subrange(0, i as int));
            assert(t[t.len() - 1] == (v@[i as int].key@, v@[i as int].value@));
        }
        let k = match v[i].key.display() {
            Some(d) => d,
            None => {
                proof {
                    lemma_entries_none(s, i as int);
                }
                return None;
            },
        };
        let val = match v[i].value.display() {
            Some(d) => d,
            None => {
                proof {
                    lemma_entries_none(s, i as int);
                }
                return None;
            },
        };
        let ghost before = out@;
        if i > 0 {
            out.push(44u8);
            out.push(32u8);
        } else {
            out = Vec::new();
        }
        push_all(&mut out, &k);
        out.push(58u8);
        out.push(32u8);
        push_all(&mut out, &val);
        proof {
            let pair = k@ + seq![58u8, 32] + val@;
            if i > 0 {
                assert(out@ =~= before + sep() + pair);
            } else {
                assert(out@ =~= pair);
            }
        }
        i += 1;
    }
    assert(s.subrange(0, v@.len() as int) =~= s);
    Some(out)
}

fn bracketed(open: u8, inner: Option<Vec<u8>>, close: u8) -> (r: Option<Vec<u8>>)
    ensures
        r is Some <==> inner is Some,
        r is Some ==> r->0@ == seq![open] + inner->0@ + seq![close],
{
    match inner {
        Some(b) => {
            let mut out: Vec<u8> = Vec::new();
            out.push(open);
            push_all(&mut out, &b);
            out.push(close);
            assert(out@ =~= seq![open] + b@ + seq![close]);
            Some(out)
        },
        None => None,
    }
}

impl PyObject {
    /// The print form of this value; `None` for the null sentinel, alone or inside a container.
    pub fn display(&self) -> (r: Option<Vec<u8>>)
        ensures
            r is Some <==> display_of(self@) is Some,
            r is Some ==> r->0@ == display_of(self@)->0,
        decreases self,
    {
        match self {
            PyObject::Null(_) => None,
            PyObject::NoneValue(_) => {
                let r: Vec<u8> = vec![78u8, 111, 110, 101];
                assert(r@ =~= seq![78u8, 111, 110, 101]);
                Some(r)
            },
            PyObject::True(_) => {
                let r: Vec<u8> = vec![84u8, 114, 117, 101];
                assert(r@ =~= seq![84u8, 114, 117, 101]);
                Some(r)
            },
            PyObject::False(_) => {
                let r: Vec<u8> = vec![70u8, 97, 108, 115, 101];
                assert(r@ =~= seq![70u8, 97, 108, 115, 101]);
                Some(r)
            },
            PyObject::Int(x) => {
                let mut r: Vec<u8> = Vec::new();
                push_decimal(x.value as i64, &mut r);
                assert(r@ =~= decimal(x.value as int));
                Some(r)
            },
            PyObject::Long(x) => {
                let mut r: Vec<u8> = Vec::new();
                push_decimal(x.value, &mut r);
                assert(r@ =~= decimal(x.value as int));
                Some(r)
            },
            PyObject::Str(s) => {
                if s.is_text() {
                    let r = s.data.clone();
                    assert(r@ =~= s.data@);
                    Some(r)
                } else {
                    let r: Vec<u8> = Vec::new();
                    assert(r@ =~= Seq::<u8>::empty());
                    Some(r)
                }
            },
            PyObject::Tuple(x) => {
                proof {
                    assert(decreases_to!(*self => self->Tuple_0));
                    assert(decreases_to!(self->Tuple_0 => self->Tuple_0.values));
                }
                bracketed(40u8, display_values(&x.values), 41u8)
            },
            PyObject::Iter(x) => {
                proof {
                    assert(decreases_to!(*self => self->Iter_0));
                    assert(decreases_to!(self->Iter_0 => self->Iter_0.values));
                }
                bracketed(40u8, display_values(&x.values), 41u8)
            },
            PyObject::List(x) => {
                proof {
                    assert(decreases_to!(*self => self->List_0));
                    assert(decreases_to!(self->List_0 => self->List_0.values));
                }
                bracketed(91u8, display_values(&x.values), 93u8)
            },
            PyObject::SetValue(x) => {
                proof {
                    assert(decreases_to!(*self => self->SetValue_0));
                    assert(decreases_to!(self->SetValue_0 => self->SetValue_0.values));
                }
                bracketed(123u8, display_values(&x.values), 125u8)
            },
            PyObject::Dict(x) => {
                proof {
                    assert(decreases_to!(*self => self->Dict_0));
                    assert(decreases_to!(self->Dict_0 => self->Dict_0.entries));
                }
                bracketed(123u8, display_entries(&x.entries), 125u8)
            },
            _ => {
                let r: Vec<u8> = Vec::new();
                assert(r@ =~= Seq::<u8>::empty());
                Some(r)
            },
        }
    }
}

} // verus!

verus! {

/// Lookup keys never collide across kinds: an integer, a wide integer and a string get
/// different keys even when their text is the same.
pub proof fn law_keys_separate_kinds(a: Obj, b: Obj)
    requires
        key_of(a) is Some,
        key_of(b) is Some,
        key_of(a) == key_of(b),
    ensures
        (a is Int && b is Int) || (a is Long && b is Long) || (a is Str && b is Str),
{
    let ka = key_of(a)->0;
    let kb = key_of(b)->0;
    assert(ka[1] == kb[1]);
    if a is Int || a is Long {
        assert(ka[1] == 73u8);
        if a is Int {
            assert(ka[4] == 95u8);
        } else {
            assert(ka[4] == 76u8);
        }
        assert(ka[4] == kb[4]);
    } else {
        assert(ka[1] == 83u8);
    }
}

} // verus!
