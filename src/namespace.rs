use vstd::prelude::*;

use crate::object::{Obj, PyObject};
use crate::object::bytes_equal;

verus! {

/// A name bound to a value; the name is a lookup key.
pub struct Binding {
    pub key: Vec<u8>,
    pub value: PyObject,
}

/// The value bound to `k`: the latest binding of `k`, searching from the end.
pub open spec fn ns_get(s: Seq<(Seq<u8>, Obj)>, k: Seq<u8>) -> Option<Obj>
    decreases s.len(),
{
    if s.len() == 0 {
        None
    } else if s.last().0 == k {
        Some(s.last().1)
    } else {
        ns_get(s.drop_last(), k)
    }
}

/// Index of the latest binding of `k`.
pub open spec fn ns_index(s: Seq<(Seq<u8>, Obj)>, k: Seq<u8>) -> Option<int>
    decreases s.len(),
{
    if s.len() == 0 {
        None
    } else if s.last().0 == k {
        Some(s.len() - 1)
    } else {
        ns_index(s.drop_last(), k)
    }
}

/// `s` with `k` bound to `v`: the latest binding of `k` is replaced, or a binding added.
pub open spec fn ns_set(s: Seq<(Seq<u8>, Obj)>, k: Seq<u8>, v: Obj) -> Seq<(Seq<u8>, Obj)> {
    match ns_index(s, k) {
        Some(j) => s.update(j, (k, v)),
        None => s.push((k, v)),
    }
}

proof fn lemma_ns_index(s: Seq<(Seq<u8>, Obj)>, k: Seq<u8>)
    ensures
        ns_index(s, k) is Some <==> ns_get(s, k) is Some,
        ns_index(s, k) is Some ==> {
            let j = ns_index(s, k)->0;
            &&& 0 <= j < s.len()
            &&& s[j].0 == k
            &&& ns_get(s, k) == Some(s[j].1)
            &&& forall|i: int| j < i < s.len() ==> s[i].0 != k
        },
        ns_index(s, k) is None ==> forall|i: int| 0 <= i < s.len() ==> s[i].0 != k,
    decreases s.len(),
{
    if s.len() > 0 {
        let p = s.drop_last();
        lemma_ns_index(p, k);
        assert forall|i: int| 0 <= i < p.len() implies p[i] == s[i] by {}
        if s.last().0 != k {
            assert forall|i: int| 0 <= i < s.len() && ns_index(s, k) is None implies s[i].0 != k by {
                if i < p.len() {
                    assert(p[i] == s[i]);
                }
            }
            if ns_index(s, k) is Some {
                let j = ns_index(s, k)->0;
                assert forall|i: int| j < i < s.len() implies s[i].0 != k by {
                    if i < p.len() {
                        assert(p[i] == s[i]);
                    }
                }
            }
        }
    }
}

proof fn lemma_ns_get_prefix(s: Seq<(Seq<u8>, Obj)>, k: Seq<u8>, j: int)
    requires
        0 <= j <= s.len(),
        forall|i: int| j <= i < s.len() ==> s[i].0 != k,
    ensures
        ns_get(s, k) == ns_get(s.subrange(0, j), k),
    decreases s.len(),
{
    if s.len() > j {
        assert(s.drop_last().subrange(0, j) =~= s.subrange(0, j));
        lemma_ns_get_prefix(s.drop_last(), k, j);
    } else {
        assert(s.subrange(0, j) =~= s);
    }
}

/// After binding `k` to `v`, `k` yields `v` and every other name yields what it did before.
pub proof fn lemma_ns_set_get(s: Seq<(Seq<u8>, Obj)>, k: Seq<u8>, v: Obj, k2: Seq<u8>)
    ensures
        ns_get(ns_set(s, k, v), k2) == if k2 == k {
            Some(v)
        } else {
            ns_get(s, k2)
        },
    decreases s.len(),
{
    lemma_ns_index(s, k);
    let t = ns_set(s, k, v);
    match ns_index(s, k) {
        Some(j) => {
            if k2 == k {
                assert forall|i: int| j < i < t.len() implies t[i].0 != k by {}
                lemma_ns_get_prefix(t, k, j + 1);
                assert(t.subrange(0, j + 1).last() == (k, v));
            } else {
                lemma_ns_set_other(s, j, k, v, k2);
            }
        },
        None => {
            assert(t.drop_last() =~= s);
        },
    }
}

proof fn lemma_ns_set_other(s: Seq<(Seq<u8>, Obj)>, j: int, k: Seq<u8>, v: Obj, k2: Seq<u8>)
    requires
        0 <= j < s.len(),
        s[j].0 == k,
        k2 != k,
    ensures
        ns_get(s.update(j, (k, v)), k2) == ns_get(s, k2),
    decreases s.len(),
{
    let t = s.update(j, (k, v));
    if j < s.len() - 1 {
        assert(t.drop_last() =~= s.drop_last().update(j, (k, v)));
        lemma_ns_set_other(s.drop_last(), j, k, v, k2);
    } else {
        assert(t.drop_last() =~= s.drop_last());
    }
}

/// Name bindings: locals, globals or builtins.
pub struct Namespace {
    entries: Vec<Binding>,
}

impl Namespace {
    pub closed spec fn view(&self) -> Seq<(Seq<u8>, Obj)> {
        Seq::new(self.entries@.len(), |i: int| (self.entries@[i].key@, self.entries@[i].value@))
    }

    /// No bindings.
    pub fn new() -> (r: Namespace)
        ensures
            r@ == Seq::<(Seq<u8>, Obj)>::empty(),
    {
        let r = Namespace { entries: Vec::new() };
        assert(r@ =~= Seq::<(Seq<u8>, Obj)>::empty());
        r
    }

    /// A copy of the value bound to `key`.
    pub fn get(&self, key: &Vec<u8>) -> (r: Option<PyObject>)
        ensures
            r is Some <==> ns_get(self@, key@) is Some,
            r is Some ==> r->0@ == ns_get(self@, key@)->0,
    {
        let mut i: usize = self.entries.len();
        assert(self@.subrange(0, i as int) =~= self@);
        while i > 0
            invariant
                i <= self.entries@.len(),
                ns_get(self@, key@) == ns_get(self@.subrange(0, i as int), key@),
            decreases i,
        {
            let ghost p = self@.subrange(0, i as int);
            assert(p.last() == (self.entries@[i - 1].key@, self.entries@[i - 1].value@));
            if bytes_equal(&self.entries[i - 1].key, key) {
                return Some(self.entries[i - 1].value.copy());
            }
            assert(p.drop_last() =~= self@.subrange(0, i - 1));
            i -= 1;
        }
        None
    }

    /// Binds `key` to `value`.
    pub fn set(&mut self, key: Vec<u8>, value: PyObject)
        ensures
            final(self)@ == ns_set(old(self)@, key@, value@),
    {
        let ghost s = self@;
        let mut i: usize = self.entries.len();
        assert(s.subrange(0, i as int) =~= s);
        while i > 0
            invariant
                i <= self.entries@.len(),
                s == self@,
                self.entries@ == old(self).entries@,
                ns_index(s, key@) == ns_index(s.subrange(0, i as int), key@),
            decreases i,
        {
            let ghost p = s.subrange(0, i as int);
            if bytes_equal(&self.entries[i - 1].key, &key) {
                let ghost kv = key@;
                let ghost vv = value@;
                self.entries.set(i - 1, Binding { key, value });
                proof {
                    assert(self@ =~= s.update(i - 1, (kv, vv)));
                }
                return;
            }
            assert(p.drop_last() =~= s.subrange(0, i - 1));
            i -= 1;
        }
        let ghost kv = key@;
        let ghost vv = value@;
        self.entries.push(Binding { key, value });
        assert(self@ =~= s.push((kv, vv)));
    }
}

} // verus!
