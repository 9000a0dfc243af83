use vstd::prelude::*;

use std::collections::HashMap;

use crate::error::VmError;
use crate::namespace::{ns_get, ns_set, Namespace};
use crate::object::{copy_values, views, CallableObject, CodeObject, Obj, PyObject};
use crate::render::key_of;
use crate::stream::InputStream;

verus! {

broadcast use vstd::std_specs::hash::group_hash_axioms;

/// Number of fast-local slots: a slot index is one byte.
pub const FAST_SLOTS: usize = 256;

/// Mathematical model of one activation record.
pub ghost struct FrameView {
    pub stack: Seq<Obj>,
    pub code: Seq<u8>,
    pub pc: int,
    pub locals: Seq<(Seq<u8>, Obj)>,
    pub globals: Seq<(Seq<u8>, Obj)>,
    pub fast: Seq<Option<Obj>>,
    pub names: Seq<Obj>,
    pub consts: Seq<Obj>,
}

/// The fast-local slots held by a map from slot index to value.
pub open spec fn slot_views(m: Map<u8, PyObject>) -> Seq<Option<Obj>> {
    Seq::new(
        FAST_SLOTS as nat,
        |j: int|
            if m.contains_key(j as u8) {
                Some(m[j as u8]@)
            } else {
                None
            },
    )
}

/// The fast-local slots of a call: positional arguments from slot 0, and default values
/// filling the last `defaults.len()` of the `nargs` parameters that no argument reached.
pub open spec fn fast_slots(nargs: int, defaults: Seq<Obj>, args: Seq<Obj>) -> Seq<Option<Obj>> {
    Seq::new(
        FAST_SLOTS as nat,
        |j: int|
            if j < args.len() {
                Some(args[j])
            } else if nargs - defaults.len() <= j < nargs {
                Some(defaults[j - (nargs - defaults.len())])
            } else {
                None
            },
    )
}

/// The elements of a tuple model, if it is one.
pub open spec fn tuple_items(o: Option<Obj>) -> Option<Seq<Obj>> {
    match o {
        Some(Obj::Tuple(vs)) => Some(vs),
        _ => None,
    }
}

/// One activation record: operand stack, instruction cursor, namespaces and the caller.
pub struct Frame {
    stack: Vec<PyObject>,
    code: InputStream,
    locals: Namespace,
    fast_locals: HashMap<u8, PyObject>,
    globals: Namespace,
    names: Vec<PyObject>,
    consts: Vec<PyObject>,
    parent: Option<Box<Frame>>,
}

/// Models of a chain of frames, outermost first and the given frame last.
pub closed spec fn chain(f: Option<Box<Frame>>) -> Seq<FrameView>
    decreases f,
{
    match f {
        None => Seq::empty(),
        Some(b) => chain(b.parent).push(b.view()),
    }
}

impl Frame {
    pub closed spec fn view(&self) -> FrameView {
        FrameView {
            stack: views(self.stack@),
            code: self.code.bytes(),
            pc: self.code.position(),
            locals: self.locals@,
            globals: self.globals@,
            fast: slot_views(self.fast_locals@),
            names: views(self.names@),
            consts: views(self.consts@),
        }
    }

    pub closed spec fn wf(&self) -> bool {
        self.code.wf() && self.code.table().len() == 0
    }

    /// Models of the callers of this frame, outermost first.
    pub closed spec fn callers(&self) -> Seq<FrameView> {
        chain(self.parent)
    }

    /// Whether this frame has a caller.
    pub closed spec fn has_parent(&self) -> bool {
        self.parent is Some
    }

    /// Every frame of a chain is well formed.
    pub closed spec fn chain_wf(f: Option<Box<Frame>>) -> bool
        decreases f,
    {
        match f {
            None => true,
            Some(b) => b.wf() && Frame::chain_wf(b.parent),
        }
    }

    /// Every caller of this frame is well formed.
    pub closed spec fn callers_wf(&self) -> bool {
        Frame::chain_wf(self.parent)
    }

    /// What well-formedness and the lack of a caller tell about the model.
    pub proof fn lemma_frame_facts(f: &Frame)
        ensures
            f.wf() ==> 0 <= f.view().pc <= f.view().code.len() && f.view().fast.len() == FAST_SLOTS,
            !f.has_parent() ==> f.callers() == Seq::<FrameView>::empty() && f.callers_wf(),
    {
    }

    pub proof fn lemma_chain_none()
        ensures
            chain(None) == Seq::<FrameView>::empty(),
            Frame::chain_wf(None),
    {
    }

    pub proof fn lemma_chain(f: Box<Frame>)
        ensures
            chain(Some(f)) == f.callers().push(f.view()),
            Frame::chain_wf(Some(f)) == (f.wf() && f.callers_wf()),
    {
    }

    fn build(code: &CodeObject, fast_locals: HashMap<u8, PyObject>) -> (r: Result<Frame, VmError>)
        ensures
            tuple_items(crate::object::opt_view(code.constants)) is Some && tuple_items(
                crate::object::opt_view(code.names),
            ) is Some ==> r is Ok && r->Ok_0.wf() && !r->Ok_0.has_parent() && r->Ok_0.view() == (FrameView {
                stack: Seq::empty(),
                code: code.code@,
                pc: 0,
                locals: Seq::empty(),
                globals: Seq::empty(),
                fast: slot_views(fast_locals@),
                names: tuple_items(crate::object::opt_view(code.names))->0,
                consts: tuple_items(crate::object::opt_view(code.constants))->0,
            }),
            !(tuple_items(crate::object::opt_view(code.constants)) is Some && tuple_items(
                crate::object::opt_view(code.names),
            ) is Some) ==> r == Err::<Frame, VmError>(VmError::WrongRecordKind),
    {
        let consts = match &code.constants {
            Some(PyObject::Tuple(t)) => copy_values(&t.values),
            _ => {
                return Err(VmError::WrongRecordKind);
            },
        };
        let names = match &code.names {
            Some(PyObject::Tuple(t)) => copy_values(&t.values),
            _ => {
                return Err(VmError::WrongRecordKind);
            },
        };
        let bytes = code.code.clone();
        assert(bytes@ =~= code.code@);
        let f = Frame {
            stack: Vec::new(),
            code: InputStream::new(bytes),
            locals: Namespace::new(),
            fast_locals,
            globals: Namespace::new(),
            names,
            consts,
            parent: None,
        };
        assert(views(f.stack@) =~= Seq::<Obj>::empty());
        Ok(f)
    }

    /// The root frame of a code object; its constants and names must be tuples.
    pub fn new_from_code(code: &CodeObject) -> (r: Result<Frame, VmError>)
        ensures
            tuple_items(crate::object::opt_view(code.constants)) is Some && tuple_items(
                crate::object::opt_view(code.names),
            ) is Some ==> r is Ok && r->Ok_0.wf() && !r->Ok_0.has_parent() && r->Ok_0.view() == (FrameView {
                stack: Seq::empty(),
                code: code.code@,
                pc: 0,
                locals: Seq::empty(),
                globals: Seq::empty(),
                fast: Seq::new(FAST_SLOTS as nat, |j: int| None),
                names: tuple_items(crate::object::opt_view(code.names))->0,
                consts: tuple_items(crate::object::opt_view(code.constants))->0,
            }),
            !(tuple_items(crate::object::opt_view(code.constants)) is Some && tuple_items(
                crate::object::opt_view(code.names),
            ) is Some) ==> r == Err::<Frame, VmError>(VmError::WrongRecordKind),
    {
        let fast: HashMap<u8, PyObject> = HashMap::new();
        assert(slot_views(fast@) =~= Seq::new(FAST_SLOTS as nat, |j: int| None::<Obj>));
        Frame::build(code, fast)
    }

    /// The frame of a call of a bytecode function with positional arguments `args`:
    /// slot `j` holds `args[j]`, and the last parameters that no argument reached hold
    /// the function's default values.
    pub fn new_from_callable(callable: &CallableObject, args: Vec<PyObject>) -> (r: Result<Frame, VmError>)
        requires
            !callable.is_native_spec(),
            callable.callee->Bytecode_0.num_args is Some,
            callable.callee->Bytecode_0.num_args->0 <= FAST_SLOTS,
            callable.callee->Bytecode_1@.len() <= callable.callee->Bytecode_0.num_args->0,
            args@.len() <= FAST_SLOTS,
        ensures
            ({
                let code = callable.callee->Bytecode_0;
                let ok = tuple_items(crate::object::opt_view(code.constants)) is Some && tuple_items(
                    crate::object::opt_view(code.names),
                ) is Some;
                &&& ok ==> r is Ok && r->Ok_0.wf() && !r->Ok_0.has_parent() && r->Ok_0.view() == (FrameView {
                    stack: Seq::empty(),
                    code: code.code@,
                    pc: 0,
                    locals: Seq::empty(),
                    globals: Seq::empty(),
                    fast: fast_slots(
                        code.num_args->0 as int,
                        views(callable.callee->Bytecode_1@),
                        views(args@),
                    ),
                    names: tuple_items(crate::object::opt_view(code.names))->0,
                    consts: tuple_items(crate::object::opt_view(code.constants))->0,
                })
                &&& !ok ==> r == Err::<Frame, VmError>(VmError::WrongRecordKind)
            }),
    {
        let code = callable.code();
        let defaults = callable.defaults();
        let nargs = match code.num_args {
            Some(n) => n as usize,
            None => 0,
        };
        let nd = defaults.len();
        let first = nargs - nd;
        let ghost want = fast_slots(nargs as int, views(defaults@), views(args@));
        let mut fast: HashMap<u8, PyObject> = HashMap::new();
        let mut j: usize = 0;
        while j < FAST_SLOTS
            invariant
                j <= FAST_SLOTS,
                nargs <= FAST_SLOTS,
                first == nargs - nd,
                nd == defaults@.len(),
                want == fast_slots(nargs as int, views(defaults@), views(args@)),
                forall|i: int| 0 <= i < j ==> #[trigger] slot_views(fast@)[i] == want[i],
                forall|i: int| j <= i < FAST_SLOTS ==> !fast@.contains_key(#[trigger] (i as u8)),
            decreases FAST_SLOTS - j,
        {
            let ghost before = fast@;
            if j < args.len() {
                fast.insert(j as u8, args[j].copy());
            } else if first <= j && j < nargs {
                fast.insert(j as u8, defaults[j - first].copy());
            }
            proof {
                assert forall|i: int| 0 <= i < j implies #[trigger] slot_views(fast@)[i] == want[i] by {
                    assert(slot_views(before)[i] == want[i]);
                    assert(i as u8 != j as u8);
                }
                assert forall|i: int| j + 1 <= i < FAST_SLOTS implies !fast@.contains_key(#[trigger] (i as u8)) by {
                    assert(i as u8 != j as u8);
                    assert(!before.contains_key(i as u8));
                }
                assert(slot_views(fast@)[j as int] == want[j as int]);
            }
            j += 1;
        }
        assert(slot_views(fast@) =~= want);
        Frame::build(code, fast)
    }

    /// Whether the instruction cursor is at the end of the code.
    pub fn finish(&self) -> (r: bool)
        requires
            self.wf(),
        ensures
            r == (self.view().pc == self.view().code.len()),
    {
        self.code.finish()
    }

    /// Reads the next opcode byte.
    pub fn get_byte_code(&mut self) -> (r: Result<u8, VmError>)
        requires
            old(self).wf(),
        ensures
            final(self).wf(),
            final(self).callers() == old(self).callers(),
            final(self).has_parent() == old(self).has_parent(),
            chain_wf_kept(*old(self), *final(self)),
            old(self).view().pc < old(self).view().code.len() ==> r == Ok::<u8, VmError>(
                old(self).view().code[old(self).view().pc],
            ) && final(self).view() == (FrameView { pc: old(self).view().pc + 1, ..old(self).view() }),
            old(self).view().pc >= old(self).view().code.len() ==> r == Err::<u8, VmError>(VmError::UnexpectedEof),
    {
        self.code.read()
    }

    /// Reads the next argument byte.
    pub fn get_arg(&mut self) -> (r: Result<u8, VmError>)
        requires
            old(self).wf(),
        ensures
            final(self).wf(),
            final(self).callers() == old(self).callers(),
            final(self).has_parent() == old(self).has_parent(),
            chain_wf_kept(*old(self), *final(self)),
            old(self).view().pc < old(self).view().code.len() ==> r == Ok::<u8, VmError>(
                old(self).view().code[old(self).view().pc],
            ) && final(self).view() == (FrameView { pc: old(self).view().pc + 1, ..old(self).view() }),
            old(self).view().pc >= old(self).view().code.len() ==> r == Err::<u8, VmError>(VmError::UnexpectedEof),
    {
        self.code.read()
    }

    /// Moves the cursor by `n` bytes, backward for negative `n`; fails outside the code.
    pub fn jump_offset(&mut self, n: i64) -> (r: Result<(), VmError>)
        requires
            old(self).wf(),
        ensures
            final(self).wf(),
            final(self).callers() == old(self).callers(),
            final(self).has_parent() == old(self).has_parent(),
            chain_wf_kept(*old(self), *final(self)),
            0 <= old(self).view().pc + n <= old(self).view().code.len() ==> r == Ok::<(), VmError>(())
                && final(self).view() == (FrameView { pc: old(self).view().pc + n, ..old(self).view() }),
            !(0 <= old(self).view().pc + n <= old(self).view().code.len()) ==> r == Err::<(), VmError>(
                VmError::SeekOutOfRange,
            ),
    {
        self.code.jump_offset(n)
    }

    /// Skips `n` inline cache slots of two bytes each.
    pub fn skip_codes_of(&mut self, n: usize) -> (r: Result<(), VmError>)
        requires
            old(self).wf(),
            n <= usize::MAX / 2,
        ensures
            final(self).wf(),
            final(self).callers() == old(self).callers(),
            final(self).has_parent() == old(self).has_parent(),
            chain_wf_kept(*old(self), *final(self)),
            old(self).view().pc + 2 * n <= old(self).view().code.len() ==> r == Ok::<(), VmError>(())
                && final(self).view() == (FrameView { pc: old(self).view().pc + 2 * n, ..old(self).view() }),
            old(self).view().pc + 2 * n > old(self).view().code.len() ==> r == Err::<(), VmError>(
                VmError::SeekOutOfRange,
            ),
    {
        self.code.forward(2 * n)
    }

    /// Moves the cursor `n` bytes forward.
    pub fn forward_code(&mut self, n: usize) -> (r: Result<(), VmError>)
        requires
            old(self).wf(),
        ensures
            final(self).wf(),
            final(self).callers() == old(self).callers(),
            final(self).has_parent() == old(self).has_parent(),
            chain_wf_kept(*old(self), *final(self)),
            old(self).view().pc + n <= old(self).view().code.len() ==> r == Ok::<(), VmError>(())
                && final(self).view() == (FrameView { pc: old(self).view().pc + n, ..old(self).view() }),
            old(self).view().pc + n > old(self).view().code.len() ==> r == Err::<(), VmError>(
                VmError::SeekOutOfRange,
            ),
    {
        self.code.forward(n)
    }

    /// Moves the cursor `n` bytes backward.
    pub fn backward_code(&mut self, n: usize) -> (r: Result<(), VmError>)
        requires
            old(self).wf(),
        ensures
            final(self).wf(),
            final(self).callers() == old(self).callers(),
            final(self).has_parent() == old(self).has_parent(),
            chain_wf_kept(*old(self), *final(self)),
            n <= old(self).view().pc ==> r == Ok::<(), VmError>(()) && final(self).view() == (FrameView {
                pc: old(self).view().pc - n,
                ..old(self).view()
            }),
            n > old(self).view().pc ==> r == Err::<(), VmError>(VmError::SeekOutOfRange),
    {
        self.code.unread(n)
    }

    /// Takes the caller out of this frame.
    pub fn parent(&mut self) -> (r: Option<Box<Frame>>)
        ensures
            final(self).view() == old(self).view(),
            final(self).wf() == old(self).wf(),
            !final(self).has_parent(),
            chain(r) == old(self).callers(),
            Frame::chain_wf(r) == old(self).callers_wf(),
    {
        self.parent.take()
    }

    /// Makes `parent` the caller of this frame.
    pub fn set_parent(&mut self, parent: Option<Box<Frame>>)
        ensures
            final(self).view() == old(self).view(),
            final(self).wf() == old(self).wf(),
            final(self).has_parent() == parent is Some,
            final(self).callers() == chain(parent),
            final(self).callers_wf() == Frame::chain_wf(parent),
    {
        self.parent = parent;
    }

    /// Pops the top of the operand stack, which must not be empty.
    pub fn pop(&mut self) -> (r: PyObject)
        requires
            old(self).wf(),
            old(self).view().stack.len() > 0,
        ensures
            final(self).wf(),
            final(self).callers() == old(self).callers(),
            final(self).has_parent() == old(self).has_parent(),
            chain_wf_kept(*old(self), *final(self)),
            r@ == old(self).view().stack.last(),
            final(self).view() == (FrameView { stack: old(self).view().stack.drop_last(), ..old(self).view() }),
    {
        let v = self.stack.pop().unwrap();
        assert(views(self.stack@) =~= views(old(self).stack@).drop_last());
        v
    }

    /// Number of values on the operand stack.
    pub fn stack_len(&self) -> (r: usize)
        ensures
            r == self.view().stack.len(),
    {
        self.stack.len()
    }

    /// Number of constants.
    pub fn consts_len(&self) -> (r: usize)
        ensures
            r == self.view().consts.len(),
    {
        self.consts.len()
    }

    /// Number of names.
    pub fn names_len(&self) -> (r: usize)
        ensures
            r == self.view().names.len(),
    {
        self.names.len()
    }

    /// Whether fast-local slot `key` holds a value.
    pub fn has_fast(&self, key: u8) -> (r: bool)
        requires
            self.wf(),
        ensures
            r == self.view().fast[key as int] is Some,
    {
        self.fast_locals.contains_key(&key)
    }

    /// Pops the top `n` values, returned in the order they were pushed.
    pub fn pop_n(&mut self, n: usize) -> (r: Result<Vec<PyObject>, VmError>)
        requires
            old(self).wf(),
        ensures
            final(self).wf(),
            final(self).callers() == old(self).callers(),
            final(self).has_parent() == old(self).has_parent(),
            chain_wf_kept(*old(self), *final(self)),
            ({
                let s = old(self).view().stack;
                &&& n <= s.len() ==> r is Ok && views(r->Ok_0@) == s.subrange(s.len() - n, s.len() as int)
                    && final(self).view() == (FrameView { stack: s.subrange(0, s.len() - n), ..old(self).view() })
                &&& n > s.len() ==> r == Err::<Vec<PyObject>, VmError>(VmError::StackUnderflow)
            }),
    {
        if n > self.stack.len() {
            return Err(VmError::StackUnderflow);
        }
        let at = self.stack.len() - n;
        let out = self.stack.split_off(at);
        assert(views(out@) =~= views(old(self).stack@).subrange(at as int, old(self).stack@.len() as int));
        assert(views(self.stack@) =~= views(old(self).stack@).subrange(0, at as int));
        Ok(out)
    }

    /// Copies of the operand stack, bottom first.
    pub fn stack_values(&self) -> (r: Vec<PyObject>)
        ensures
            views(r@) == self.view().stack,
    {
        copy_values(&self.stack)
    }

    /// A copy of the top of the operand stack, which must not be empty.
    pub fn top(&self) -> (r: PyObject)
        requires
            self.view().stack.len() > 0,
        ensures
            r@ == self.view().stack.last(),
    {
        self.stack[self.stack.len() - 1].copy()
    }

    /// Pushes onto the operand stack.
    pub fn push(&mut self, obj: PyObject)
        requires
            old(self).wf(),
        ensures
            final(self).wf(),
            final(self).callers() == old(self).callers(),
            final(self).has_parent() == old(self).has_parent(),
            chain_wf_kept(*old(self), *final(self)),
            final(self).view() == (FrameView { stack: old(self).view().stack.push(obj@), ..old(self).view() }),
    {
        let ghost o = obj@;
        self.stack.push(obj);
        assert(views(self.stack@) =~= views(old(self).stack@).push(o));
    }

    /// A copy of constant `index`, which must exist.
    pub fn get_const(&self, index: usize) -> (r: PyObject)
        requires
            index < self.view().consts.len(),
        ensures
            r@ == self.view().consts[index as int],
    {
        self.consts[index].copy()
    }

    /// A copy of name `index`, which must exist.
    pub fn get_name(&self, index: usize) -> (r: PyObject)
        requires
            index < self.view().names.len(),
        ensures
            r@ == self.view().names[index as int],
    {
        self.names[index].copy()
    }

    /// A copy of fast-local slot `key`, which must be set.
    pub fn load_fast(&self, key: u8) -> (r: PyObject)
        requires
            self.wf(),
            self.view().fast[key as int] is Some,
        ensures
            r@ == self.view().fast[key as int]->0,
    {
        match self.fast_locals.get(&key) {
            Some(v) => v.copy(),
            None => {
                assert(false);
                unreached()
            },
        }
    }

    /// Binds the name `key` (a value with a lookup key) to `value` among the locals.
    pub fn set_local(&mut self, key: &PyObject, value: PyObject) -> (r: Result<(), VmError>)
        requires
            old(self).wf(),
        ensures
            final(self).wf(),
            final(self).callers() == old(self).callers(),
            final(self).has_parent() == old(self).has_parent(),
            chain_wf_kept(*old(self), *final(self)),
            key_of(key@) is Some ==> r is Ok && final(self).view() == (FrameView {
                locals: ns_set(old(self).view().locals, key_of(key@)->0, value@),
                ..old(self).view()
            }),
            key_of(key@) is None ==> r == Err::<(), VmError>(VmError::TypeMismatch),
    {
        match key.hash_key() {
            Some(k) => {
                self.locals.set(k, value);
                Ok(())
            },
            None => Err(VmError::TypeMismatch),
        }
    }

    /// The value of a name among the locals, then the globals.
    pub fn look_up_name(&self, name: &PyObject) -> (r: Option<PyObject>)
        ensures
            match key_of(name@) {
                Some(k) => match ns_get(self.view().locals, k) {
                    Some(v) => r is Some && r->0@ == v,
                    None => match ns_get(self.view().globals, k) {
                        Some(v) => r is Some && r->0@ == v,
                        None => r is None,
                    },
                },
                None => r is None,
            },
    {
        match name.hash_key() {
            Some(k) => {
                match self.locals.get(&k) {
                    Some(v) => Some(v),
                    None => self.globals.get(&k),
                }
            },
            None => None,
        }
    }

    /// The value of a name among the globals.
    pub fn look_up_global(&self, name: &PyObject) -> (r: Option<PyObject>)
        ensures
            match key_of(name@) {
                Some(k) => match ns_get(self.view().globals, k) {
                    Some(v) => r is Some && r->0@ == v,
                    None => r is None,
                },
                None => r is None,
            },
    {
        match name.hash_key() {
            Some(k) => self.globals.get(&k),
            None => None,
        }
    }
}

/// A change to a frame that leaves its callers' chain well formed as it was.
pub open spec fn chain_wf_kept(a: Frame, b: Frame) -> bool {
    b.callers_wf() == a.callers_wf()
}

} // verus!

verus! {

/// When the positional arguments and the default values together reach every parameter,
/// each of the `nargs` parameter slots of the new frame holds a value.
pub proof fn law_defaults_fill_parameters(nargs: int, defaults: Seq<Obj>, args: Seq<Obj>)
    requires
        0 <= nargs <= FAST_SLOTS,
        defaults.len() <= nargs,
        args.len() + defaults.len() >= nargs,
    ensures
        forall|j: int| 0 <= j < nargs ==> (#[trigger] fast_slots(nargs, defaults, args)[j]) is Some,
{
}

} // verus!
