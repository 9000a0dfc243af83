use vstd::prelude::*;

use crate::decimal::{decimal, push_decimal};
use crate::error::VmError;
use crate::frame::tuple_items;
use crate::object::{copy_values, opt_view, views, CodeObject, CodeView, PyObject};
use crate::opcode::{cache_num, cache_slots, have_arg, opcode_name, opcode_name_spec, takes_arg, CACHE};
use crate::render::push_all;

verus! {

/// The instruction bytes without cache opcodes: each other opcode is kept with its
/// argument byte, if it takes one and one is there.
pub open spec fn strip_spec(c: Seq<u8>) -> Seq<u8>
    decreases c.len(),
{
    if c.len() == 0 {
        Seq::empty()
    } else {
        let op = c[0];
        let head: Seq<u8> = if op != CACHE { seq![op] } else { Seq::empty() };
        if takes_arg(op) {
            if c.len() >= 2 {
                head.push(c[1]) + strip_spec(c.subrange(2, c.len() as int))
            } else {
                head
            }
        } else {
            head + strip_spec(c.subrange(1, c.len() as int))
        }
    }
}

/// Stripping is idempotent: a stripped instruction stream holds no cache opcode, so
/// stripping it again leaves it as it is.
pub proof fn law_strip_idempotent(c: Seq<u8>)
    ensures
        strip_spec(strip_spec(c)) == strip_spec(c),
    decreases c.len(),
{
    if c.len() > 0 {
        let op = c[0];
        if takes_arg(op) {
            if c.len() >= 2 {
                let rest = c.subrange(2, c.len() as int);
                law_strip_idempotent(rest);
                let t = seq![op, c[1]] + strip_spec(rest);
                assert(strip_spec(c) =~= t);
                assert(t.subrange(2, t.len() as int) =~= strip_spec(rest));
            } else {
                assert(strip_spec(c) =~= seq![op]);
                assert(strip_spec(seq![op]) =~= seq![op]);
            }
        } else {
            let rest = c.subrange(1, c.len() as int);
            law_strip_idempotent(rest);
            if op != CACHE {
                let t = seq![op] + strip_spec(rest);
                assert(strip_spec(c) =~= t);
                assert(t.subrange(1, t.len() as int) =~= strip_spec(rest));
                assert(strip_spec(t) =~= seq![op] + strip_spec(strip_spec(rest)));
            } else {
                assert(strip_spec(c) =~= Seq::<u8>::empty() + strip_spec(rest));
            }
        }
    }
}

/// `"  arg="`
pub open spec fn arg_label() -> Seq<u8> {
    seq![32u8, 32, 97, 114, 103, 61]
}

/// `"  cache_num="`
pub open spec fn cache_label() -> Seq<u8> {
    seq![32u8, 32, 99, 97, 99, 104, 101, 95, 110, 117, 109, 61]
}

/// The listing of the instructions from offset `pc` on: one line per instruction,
/// `offset: NAME`, then `  arg=A` when it takes an argument, then `  cache_num=N` when
/// it has cache slots, which are skipped. Bare cache opcodes print nothing.
pub open spec fn disasm_from(c: Seq<u8>, pc: int) -> Result<Seq<u8>, VmError>
    decreases c.len() - pc,
{
    if pc < 0 || pc >= c.len() {
        Ok(Seq::empty())
    } else {
        let op = c[pc];
        if op == CACHE {
            disasm_from(c, pc + 1)
        } else {
            match opcode_name_spec(op) {
                None => Err(VmError::UnsupportedOpcode(op)),
                Some(name) => if takes_arg(op) && pc + 1 >= c.len() {
                    Err(VmError::UnexpectedEof)
                } else {
                    let arg_text: Seq<u8> = if takes_arg(op) {
                        arg_label() + decimal(c[pc + 1] as int)
                    } else {
                        Seq::empty()
                    };
                    let after_arg = if takes_arg(op) { pc + 2 } else { pc + 1 };
                    let n = cache_slots(op) as int;
                    let cache_text: Seq<u8> = if n > 0 { cache_label() + decimal(n) } else { Seq::empty() };
                    let after_caches = after_arg + 2 * n;
                    if after_caches > c.len() {
                        Err(VmError::UnexpectedEof)
                    } else {
                        let line = decimal(pc) + seq![58u8, 32] + name + arg_text + cache_text + seq![10u8];
                        match disasm_from(c, after_caches) {
                            Ok(rest) => Ok(line + rest),
                            Err(e) => Err(e),
                        }
                    }
                },
            }
        }
    }
}

pub open spec fn prepend_text(done: Seq<u8>, r: Result<Seq<u8>, VmError>) -> Result<Seq<u8>, VmError> {
    match r {
        Ok(rest) => Ok(done + rest),
        Err(e) => Err(e),
    }
}

impl CodeObject {
    /// Copies of the constants; they must form a tuple.
    pub fn consts(&self) -> (r: Result<Vec<PyObject>, VmError>)
        ensures
            tuple_items(opt_view(self.constants)) is Some ==> r is Ok && views(r->Ok_0@) == tuple_items(
                opt_view(self.constants),
            )->0,
            tuple_items(opt_view(self.constants)) is None ==> r is Err && r->Err_0 == VmError::WrongRecordKind,
    {
        match &self.constants {
            Some(PyObject::Tuple(t)) => Ok(copy_values(&t.values)),
            _ => Err(VmError::WrongRecordKind),
        }
    }

    /// Copies of the names; they must form a tuple.
    pub fn names(&self) -> (r: Result<Vec<PyObject>, VmError>)
        ensures
            tuple_items(opt_view(self.names)) is Some ==> r is Ok && views(r->Ok_0@) == tuple_items(
                opt_view(self.names),
            )->0,
            tuple_items(opt_view(self.names)) is None ==> r is Err && r->Err_0 == VmError::WrongRecordKind,
    {
        match &self.names {
            Some(PyObject::Tuple(t)) => Ok(copy_values(&t.values)),
            _ => Err(VmError::WrongRecordKind),
        }
    }

    /// A copy of the instruction bytes.
    pub fn code(&self) -> (r: Vec<u8>)
        ensures
            r@ == self.code@,
    {
        let r = self.code.clone();
        assert(r@ =~= self.code@);
        r
    }

    pub fn num_stack(&self) -> (r: Option<u32>)
        ensures
            r == self.num_stack,
    {
        self.num_stack
    }

    pub fn num_args(&self) -> (r: Option<u32>)
        ensures
            r == self.num_args,
    {
        self.num_args
    }

    /// Removes the cache opcodes from the instruction bytes.
    pub fn strip_cache(&mut self)
        ensures
            final(self).view() == (CodeView { code: strip_spec(old(self).code@), ..old(self).view() }),
    {
        let ghost c = self.code@;
        let mut out: Vec<u8> = Vec::new();
        let mut i: usize = 0;
        assert(c.subrange(0, c.len() as int) =~= c);
        assert(out@ + strip_spec(c) =~= strip_spec(c));
        while i < self.code.len()
            invariant
                c == self.code@,
                i <= c.len(),
                strip_spec(c) == out@ + strip_spec(c.subrange(i as int, c.len() as int)),
            decreases c.len() - i,
        {
            let ghost t = c.subrange(i as int, c.len() as int);
            let ghost before = out@;
            let op = self.code[i];
            if op != CACHE {
                out.push(op);
            }
            if have_arg(op) {
                if i + 1 < self.code.len() {
                    out.push(self.code[i + 1]);
                    assert(t.subrange(2, t.len() as int) =~= c.subrange(i + 2, c.len() as int));
                    i += 2;
                } else {
                    assert(c.subrange(c.len() as int, c.len() as int) =~= Seq::<u8>::empty());
                    assert(strip_spec(Seq::<u8>::empty()) == Seq::<u8>::empty());
                    i = self.code.len();
                }
            } else {
                assert(t.subrange(1, t.len() as int) =~= c.subrange(i + 1, c.len() as int));
                i += 1;
            }
            proof {
                let rest = strip_spec(c.subrange(i as int, c.len() as int));
                assert(before + strip_spec(t) =~= out@ + rest);
            }
        }
        assert(c.subrange(c.len() as int, c.len() as int) =~= Seq::<u8>::empty());
        assert(out@ + Seq::<u8>::empty() =~= out@);
        self.code = out;
    }

    /// A listing of the instructions; see `disasm_from`.
    pub fn dump_code(&self) -> (r: Result<Vec<u8>, VmError>)
        requires
            self.code@.len() <= i64::MAX,
        ensures
            match disasm_from(self.code@, 0) {
                Ok(t) => r is Ok && r->Ok_0@ == t,
                Err(e) => r is Err && r->Err_0 == e,
            },
    {
        let ghost c = self.code@;
        let mut res: Vec<u8> = Vec::new();
        let mut pc: usize = 0;
        assert(prepend_text(res@, disasm_from(c, 0)) == disasm_from(c, 0)) by {
            match disasm_from(c, 0) {
                Ok(t) => {
                    assert(res@ + t =~= t);
                },
                Err(e) => {},
            }
        }
        while pc < self.code.len()
            invariant
                c == self.code@,
                c.len() <= i64::MAX,
                pc <= c.len(),
                disasm_from(c, 0) == prepend_text(res@, disasm_from(c, pc as int)),
            decreases c.len() - pc,
        {
            let op = self.code[pc];
            if op == CACHE {
                pc += 1;
                continue;
            }
            let name = match opcode_name(op) {
                Some(n) => n,
                None => {
                    return Err(VmError::UnsupportedOpcode(op));
                },
            };
            let ghost before = res@;
            let mut line: Vec<u8> = Vec::new();
            push_decimal(pc as i64, &mut line);
            line.push(58u8);
            line.push(32u8);
            push_all(&mut line, &name);
            let mut next: usize = pc + 1;
            if have_arg(op) {
                if pc + 1 >= self.code.len() {
                    return Err(VmError::UnexpectedEof);
                }
                let mut label: Vec<u8> = vec![32u8, 32, 97, 114, 103, 61];
                assert(label@ =~= arg_label());
                push_decimal(self.code[pc + 1] as i64, &mut label);
                push_all(&mut line, &label);
                next = pc + 2;
            }
            let n = cache_num(op);
            if n > 0 {
                let mut label: Vec<u8> = vec![32u8, 32, 99, 97, 99, 104, 101, 95, 110, 117, 109, 61];
                assert(label@ =~= cache_label());
                push_decimal(n as i64, &mut label);
                push_all(&mut line, &label);
            }
            if 2 * (n as usize) > self.code.len() - next {
                return Err(VmError::UnexpectedEof);
            }
            line.push(10u8);
            proof {
                let arg_text: Seq<u8> = if takes_arg(op) {
                    arg_label() + decimal(c[pc + 1] as int)
                } else {
                    Seq::empty()
                };
                let cache_text: Seq<u8> = if n > 0 { cache_label() + decimal(n as int) } else { Seq::empty() };
                assert(line@ =~= decimal(pc as int) + seq![58u8, 32] + opcode_name_spec(op)->0 + arg_text + cache_text + seq![10u8]);
            }
            push_all(&mut res, &line);
            pc = next + 2 * (n as usize);
            proof {
                match disasm_from(c, pc as int) {
                    Ok(rest) => {
                        assert(before + (line@ + rest) =~= res@ + rest);
                    },
                    Err(e) => {},
                }
            }
        }
        assert(res@ + Seq::<u8>::empty() =~= res@);
        Ok(res)
    }
}

} // verus!
