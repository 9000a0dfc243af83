use vstd::prelude::*;

use crate::error::VmError;
use crate::object::{NullObject, Obj, PyObject, views};

verus! {

/// Little-endian value of the bytes `b`, least significant first.
pub open spec fn le_value(b: Seq<u8>) -> nat
    decreases b.len(),
{
    if b.len() == 0 {
        0
    } else {
        b[0] as nat + 256 * le_value(b.subrange(1, b.len() as int))
    }
}

pub open spec fn pow256(n: nat) -> nat
    decreases n,
{
    if n == 0 {
        1
    } else {
        256 * pow256((n - 1) as nat)
    }
}

proof fn lemma_le_value_bound(b: Seq<u8>)
    ensures
        le_value(b) < pow256(b.len()),
    decreases b.len(),
{
    if b.len() > 0 {
        let rest = b.subrange(1, b.len() as int);
        lemma_le_value_bound(rest);
        assert(rest.len() == b.len() - 1);
        let v = le_value(rest);
        let p = pow256(rest.len());
        assert(b[0] as nat + 256 * v < 256 * p) by (nonlinear_arith)
            requires
                v < p,
                b[0] < 256,
        ;
    }
}

/// A seekable reader over an in-memory byte buffer, with the table of values that
/// later back-references of a serialized stream point to.
pub struct InputStream {
    data: Vec<u8>,
    pos: usize,
    refs: Vec<PyObject>,
    depths: u8,
}

impl InputStream {
    /// The bytes being read.
    pub closed spec fn bytes(&self) -> Seq<u8> {
        self.data@
    }

    /// The offset of the next byte to read.
    pub closed spec fn position(&self) -> int {
        self.pos as int
    }

    /// The back-reference table, in insertion order.
    pub closed spec fn table(&self) -> Seq<Obj> {
        views(self.refs@)
    }

    /// The nesting counter.
    pub closed spec fn depth_count(&self) -> u8 {
        self.depths
    }

    /// The position never passes the end of the buffer.
    pub open spec fn wf(&self) -> bool {
        0 <= self.position() <= self.bytes().len()
    }

    /// Whether `n` more bytes can be read.
    pub open spec fn has(&self, n: int) -> bool {
        self.position() + n <= self.bytes().len()
    }

    /// The `n` bytes that the next read of that width consumes.
    pub open spec fn next_bytes(&self, n: int) -> Seq<u8> {
        self.bytes().subrange(self.position(), self.position() + n)
    }

    /// A reader at the start of `contents`, with an empty table.
    pub fn new(contents: Vec<u8>) -> (r: InputStream)
        ensures
            r.wf(),
            r.bytes() == contents@,
            r.position() == 0,
            r.table() == Seq::<Obj>::empty(),
            r.depth_count() == 0,
    {
        let r = InputStream { data: contents, pos: 0, refs: Vec::new(), depths: 0 };
        assert(r.table() =~= Seq::<Obj>::empty());
        r
    }

    /// Reads `n` bytes as a little-endian unsigned number.
    fn read_le(&mut self, n: usize) -> (r: Result<u64, VmError>)
        requires
            old(self).wf(),
            1 <= n <= 8,
        ensures
            final(self).wf(),
            final(self).bytes() == old(self).bytes(),
            final(self).table() == old(self).table(),
            final(self).depth_count() == old(self).depth_count(),
            old(self).has(n as int) ==> r == Ok::<u64, VmError>(le_value(old(self).next_bytes(n as int)) as u64)
                && final(self).position() == old(self).position() + n,
            !old(self).has(n as int) ==> r == Err::<u64, VmError>(VmError::UnexpectedEof)
                && final(self).position() == old(self).position(),
    {
        if n > self.data.len() - self.pos {
            return Err(VmError::UnexpectedEof);
        }
        let ghost whole = self.data@.subrange(self.pos as int, self.pos + n);
        let mut acc: u64 = 0;
        let mut k: usize = n;
        proof {
            assert(whole.subrange(n as int, n as int) =~= Seq::<u8>::empty());
        }
        while k > 0
            invariant
                self.pos + n <= self.data@.len(),
                self.data@.len() <= usize::MAX,
                whole == self.data@.subrange(self.pos as int, self.pos + n),
                k <= n <= 8,
                acc as nat == le_value(whole.subrange(k as int, n as int)),
            decreases k,
        {
            let ghost tail = whole.subrange(k as int, n as int);
            k -= 1;
            let b = self.data[self.pos + k];
            let ghost next = whole.subrange(k as int, n as int);
            proof {
                assert(next[0] == b);
                assert(next.subrange(1, next.len() as int) =~= tail);
                lemma_le_value_bound(next);
                lemma_pow256_le8(next.len());
            }
            acc = b as u64 + 256 * acc;
        }
        proof {
            assert(whole.subrange(0, n as int) =~= whole);
        }
        self.pos = self.pos + n;
        Ok(acc)
    }

    /// Reads one byte.
    pub fn read(&mut self) -> (r: Result<u8, VmError>)
        requires
            old(self).wf(),
        ensures
            final(self).wf(),
            final(self).bytes() == old(self).bytes(),
            final(self).table() == old(self).table(),
            final(self).depth_count() == old(self).depth_count(),
            old(self).has(1) ==> r == Ok::<u8, VmError>(old(self).bytes()[old(self).position()])
                && final(self).position() == old(self).position() + 1,
            !old(self).has(1) ==> r == Err::<u8, VmError>(VmError::UnexpectedEof)
                && final(self).position() == old(self).position(),
    {
        if self.pos >= self.data.len() {
            return Err(VmError::UnexpectedEof);
        }
        let b = self.data[self.pos];
        self.pos = self.pos + 1;
        Ok(b)
    }

    /// Reads a little-endian `u16`.
    pub fn read_u16(&mut self) -> (r: Result<u16, VmError>)
        requires
            old(self).wf(),
        ensures
            final(self).wf(),
            final(self).bytes() == old(self).bytes(),
            final(self).table() == old(self).table(),
            final(self).depth_count() == old(self).depth_count(),
            old(self).has(2) ==> r == Ok::<u16, VmError>(le_value(old(self).next_bytes(2)) as u16)
                && final(self).position() == old(self).position() + 2,
            !old(self).has(2) ==> r == Err::<u16, VmError>(VmError::UnexpectedEof)
                && final(self).position() == old(self).position(),
    {
        let ghost g = self.next_bytes(2);
        match self.read_le(2) {
            Ok(v) => {
                proof {
                    lemma_le_value_bound(g);
                    reveal_with_fuel(pow256, 3);
                    assert(pow256(2) == 65536);
                }
                Ok(v as u16)
            },
            Err(e) => Err(e),
        }
    }

    /// Reads a little-endian `u32`.
    pub fn read_u32(&mut self) -> (r: Result<u32, VmError>)
        requires
            old(self).wf(),
        ensures
            final(self).wf(),
            final(self).bytes() == old(self).bytes(),
            final(self).table() == old(self).table(),
            final(self).depth_count() == old(self).depth_count(),
            old(self).has(4) ==> r == Ok::<u32, VmError>(le_value(old(self).next_bytes(4)) as u32)
                && final(self).position() == old(self).position() + 4,
            !old(self).has(4) ==> r == Err::<u32, VmError>(VmError::UnexpectedEof)
                && final(self).position() == old(self).position(),
    {
        let ghost g = self.next_bytes(4);
        match self.read_le(4) {
            Ok(v) => {
                proof {
                    lemma_le_value_bound(g);
                    reveal_with_fuel(pow256, 5);
                    assert(pow256(4) == 4294967296);
                }
                Ok(v as u32)
            },
            Err(e) => Err(e),
        }
    }

    /// Reads a little-endian two's-complement `i32`.
    pub fn read_i32(&mut self) -> (r: Result<i32, VmError>)
        requires
            old(self).wf(),
        ensures
            final(self).wf(),
            final(self).bytes() == old(self).bytes(),
            final(self).table() == old(self).table(),
            final(self).depth_count() == old(self).depth_count(),
            old(self).has(4) ==> r == Ok::<i32, VmError>((le_value(old(self).next_bytes(4)) as u32) as i32)
                && final(self).position() == old(self).position() + 4,
            !old(self).has(4) ==> r == Err::<i32, VmError>(VmError::UnexpectedEof)
                && final(self).position() == old(self).position(),
    {
        match self.read_u32() {
            Ok(v) => Ok(v as i32),
            Err(e) => Err(e),
        }
    }

    /// Reads a little-endian `u64`.
    pub fn read_long(&mut self) -> (r: Result<u64, VmError>)
        requires
            old(self).wf(),
        ensures
            final(self).wf(),
            final(self).bytes() == old(self).bytes(),
            final(self).table() == old(self).table(),
            final(self).depth_count() == old(self).depth_count(),
            old(self).has(8) ==> r == Ok::<u64, VmError>(le_value(old(self).next_bytes(8)) as u64)
                && final(self).position() == old(self).position() + 8,
            !old(self).has(8) ==> r == Err::<u64, VmError>(VmError::UnexpectedEof)
                && final(self).position() == old(self).position(),
    {
        self.read_le(8)
    }

    /// Reads a little-endian two's-complement `i64`.
    pub fn read_i64(&mut self) -> (r: Result<i64, VmError>)
        requires
            old(self).wf(),
        ensures
            final(self).wf(),
            final(self).bytes() == old(self).bytes(),
            final(self).table() == old(self).table(),
            final(self).depth_count() == old(self).depth_count(),
            old(self).has(8) ==> r == Ok::<i64, VmError>((le_value(old(self).next_bytes(8)) as u64) as i64)
                && final(self).position() == old(self).position() + 8,
            !old(self).has(8) ==> r == Err::<i64, VmError>(VmError::UnexpectedEof)
                && final(self).position() == old(self).position(),
    {
        match self.read_le(8) {
            Ok(v) => Ok(v as i64),
            Err(e) => Err(e),
        }
    }

    /// Reads the next `n` bytes.
    pub fn read_bytes(&mut self, n: u32) -> (r: Result<Vec<u8>, VmError>)
        requires
            old(self).wf(),
        ensures
            final(self).wf(),
            final(self).bytes() == old(self).bytes(),
            final(self).table() == old(self).table(),
            final(self).depth_count() == old(self).depth_count(),
            old(self).has(n as int) ==> r is Ok && r->Ok_0@ == old(self).next_bytes(n as int)
                && final(self).position() == old(self).position() + n,
            !old(self).has(n as int) ==> r == Err::<Vec<u8>, VmError>(VmError::UnexpectedEof)
                && final(self).position() == old(self).position(),
    {
        if n as usize > self.data.len() - self.pos {
            return Err(VmError::UnexpectedEof);
        }
        let mut out: Vec<u8> = Vec::new();
        let mut i: usize = 0;
        while i < n as usize
            invariant
                self.pos + n <= self.data@.len(),
                self.data@.len() <= usize::MAX,
                i <= n,
                out@ == self.data@.subrange(self.pos as int, self.pos + i),
            decreases n - i,
        {
            out.push(self.data[self.pos + i]);
            i += 1;
            assert(out@ =~= self.data@.subrange(self.pos as int, self.pos + i));
        }
        self.pos = self.pos + n as usize;
        Ok(out)
    }

    /// Moves the position by `n` bytes, forward or backward; fails, leaving the
    /// position as it was, when the target lies outside the buffer.
    pub fn jump_offset(&mut self, n: i64) -> (r: Result<(), VmError>)
        requires
            old(self).wf(),
        ensures
            final(self).wf(),
            final(self).bytes() == old(self).bytes(),
            final(self).table() == old(self).table(),
            final(self).depth_count() == old(self).depth_count(),
            0 <= old(self).position() + n <= old(self).bytes().len() ==> r == Ok::<(), VmError>(())
                && final(self).position() == old(self).position() + n,
            !(0 <= old(self).position() + n <= old(self).bytes().len()) ==> r == Err::<(), VmError>(
                VmError::SeekOutOfRange,
            ) && final(self).position() == old(self).position(),
    {
        let len = self.data.len();
        if n < 0 {
            let back: u64 = if n == i64::MIN {
                9223372036854775808u64
            } else {
                (-n) as u64
            };
            if back > self.pos as u64 {
                return Err(VmError::SeekOutOfRange);
            }
            self.pos = self.pos - back as usize;
        } else {
            if n as u64 > (len - self.pos) as u64 {
                return Err(VmError::SeekOutOfRange);
            }
            self.pos = self.pos + n as usize;
        }
        Ok(())
    }

    /// Moves the position back by `n` bytes.
    pub fn unread(&mut self, n: usize) -> (r: Result<(), VmError>)
        requires
            old(self).wf(),
        ensures
            final(self).wf(),
            final(self).bytes() == old(self).bytes(),
            final(self).table() == old(self).table(),
            n <= old(self).position() ==> r == Ok::<(), VmError>(()) && final(self).position()
                == old(self).position() - n,
            n > old(self).position() ==> r == Err::<(), VmError>(VmError::SeekOutOfRange)
                && final(self).position() == old(self).position(),
    {
        if n > self.pos {
            return Err(VmError::SeekOutOfRange);
        }
        self.pos = self.pos - n;
        Ok(())
    }

    /// Moves the position forward by `n` bytes.
    pub fn forward(&mut self, n: usize) -> (r: Result<(), VmError>)
        requires
            old(self).wf(),
        ensures
            final(self).wf(),
            final(self).bytes() == old(self).bytes(),
            final(self).table() == old(self).table(),
            old(self).has(n as int) ==> r == Ok::<(), VmError>(()) && final(self).position()
                == old(self).position() + n,
            !old(self).has(n as int) ==> r == Err::<(), VmError>(VmError::SeekOutOfRange)
                && final(self).position() == old(self).position(),
    {
        if n > self.data.len() - self.pos {
            return Err(VmError::SeekOutOfRange);
        }
        self.pos = self.pos + n;
        Ok(())
    }

    /// Whether every byte has been read.
    pub fn finish(&self) -> (r: bool)
        requires
            self.wf(),
        ensures
            r == (self.position() == self.bytes().len()),
    {
        self.pos == self.data.len()
    }

    /// Raises the nesting counter, which must be below its largest value.
    pub fn inc_depth(&mut self)
        requires
            old(self).depth_count() < 255,
        ensures
            final(self).wf() == old(self).wf(),
            final(self).bytes() == old(self).bytes(),
            final(self).position() == old(self).position(),
            final(self).table() == old(self).table(),
            final(self).depth_count() == old(self).depth_count() + 1,
    {
        self.depths = self.depths + 1;
    }

    /// Lowers the nesting counter, which must be above zero.
    pub fn dec_depth(&mut self)
        requires
            old(self).depth_count() > 0,
        ensures
            final(self).wf() == old(self).wf(),
            final(self).bytes() == old(self).bytes(),
            final(self).position() == old(self).position(),
            final(self).table() == old(self).table(),
            final(self).depth_count() == old(self).depth_count() - 1,
    {
        self.depths = self.depths - 1;
    }

    /// The nesting counter.
    pub fn depth(&self) -> (r: u8)
        ensures
            r == self.depth_count(),
    {
        self.depths
    }

    /// Appends `r` to the back-reference table.
    pub fn push_ref(&mut self, r: PyObject)
        ensures
            final(self).bytes() == old(self).bytes(),
            final(self).position() == old(self).position(),
            final(self).depth_count() == old(self).depth_count(),
            final(self).table() == old(self).table().push(r@),
    {
        self.refs.push(r);
        assert(views(self.refs@) =~= views(old(self).refs@).push(r@));
    }

    /// Appends a placeholder to the back-reference table and returns its index.
    pub fn reserve_ref(&mut self) -> (r: usize)
        ensures
            final(self).bytes() == old(self).bytes(),
            final(self).position() == old(self).position(),
            final(self).depth_count() == old(self).depth_count(),
            r == old(self).table().len(),
            final(self).table() == old(self).table().push(Obj::Null),
    {
        let res = self.refs.len();
        self.push_ref(NullObject::new());
        res
    }

    /// Replaces the table entry at `index`.
    pub fn set_ref(&mut self, index: usize, object: PyObject)
        requires
            index < old(self).table().len(),
        ensures
            final(self).bytes() == old(self).bytes(),
            final(self).position() == old(self).position(),
            final(self).depth_count() == old(self).depth_count(),
            final(self).table() == old(self).table().update(index as int, object@),
    {
        self.refs.set(index, object);
        assert(views(self.refs@) =~= views(old(self).refs@).update(index as int, object@));
    }

    /// Number of entries in the back-reference table.
    pub fn ref_count(&self) -> (r: usize)
        ensures
            r == self.table().len(),
    {
        self.refs.len()
    }

    /// A copy of the table entry at `index`, which must exist.
    pub fn get_ref(&self, index: usize) -> (r: PyObject)
        requires
            index < self.table().len(),
        ensures
            r@ == self.table()[index as int],
    {
        self.refs[index].copy()
    }
}

/// A number read from four bytes fits in `u32`; one read from one byte is that byte.
pub proof fn lemma_le_small(b: Seq<u8>)
    ensures
        b.len() == 4 ==> le_value(b) < 4294967296,
        b.len() == 1 ==> le_value(b) == b[0] as nat,
{
    lemma_le_value_bound(b);
    reveal_with_fuel(pow256, 5);
    reveal_with_fuel(le_value, 2);
    if b.len() == 1 {
        assert(b.subrange(1, 1).len() == 0);
    }
}

proof fn lemma_pow256_le8(n: nat)
    requires
        n <= 8,
    ensures
        pow256(n) <= pow256(8),
        pow256(8) == 18446744073709551616,
    decreases n,
{
    reveal_with_fuel(pow256, 9);
    assert(pow256(8) == 18446744073709551616);
    if n < 8 {
        lemma_pow256_mono(n, 8);
    }
}

proof fn lemma_pow256_mono(a: nat, b: nat)
    requires
        a <= b,
    ensures
        pow256(a) <= pow256(b),
    decreases b,
{
    if a < b {
        lemma_pow256_mono(a, (b - 1) as nat);
    }
}

} // verus!
