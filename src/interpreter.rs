use vstd::prelude::*;

use crate::error::VmError;
use crate::frame::{chain, fast_slots, tuple_items, Frame, FrameView, FAST_SLOTS};
use crate::namespace::{ns_get, ns_index, ns_set, Namespace};
use crate::object::{
    iter_next, opt_view, views, CallableObject, Callee, CodeObject, CodeView, FalseObject,
    NativeFn, NoneObject, NullObject, Obj, PyObject, TrueObject,
};
use crate::opcode::{
    cache_num, cache_slots, have_arg, jump_offset_of, takes_arg, BINARY_OP, CACHE, CALL, COMPARE_OP,
    JUMP_BACKWARD, JUMP_BACKWARD_NO_INTERRUPT, JUMP_FORWARD, KW_NAMES, LOAD_CONST, LOAD_FAST,
    LOAD_GLOBAL, LOAD_NAME, MAKE_FUNCTION, POP_JUMP_BACKWARD_IF_FALSE, POP_JUMP_BACKWARD_IF_NONE,
    POP_JUMP_BACKWARD_IF_NOT_NONE, POP_JUMP_BACKWARD_IF_TRUE, POP_JUMP_FORWARD_IF_FALSE,
    POP_JUMP_FORWARD_IF_NONE, POP_JUMP_FORWARD_IF_NOT_NONE, POP_JUMP_FORWARD_IF_TRUE, POP_TOP,
    PRECALL, PUSH_NULL, RESUME, RETURN_VALUE, STORE_NAME, backward_jump,
};
use crate::ops::{binary_op_of, cmp_op_of, BinaryOp, CmpOP};
use crate::render::{display_of, key_of, push_all};

verus! {

/// Mathematical model of the interpreter: the call stack (outermost frame first), the
/// last value returned, and the builtins table.
pub ghost struct MachineView {
    pub frames: Seq<FrameView>,
    pub ret: Option<Obj>,
    pub builtins: Seq<(Seq<u8>, Obj)>,
}

/// What one instruction does to the control flow.
pub ghost enum Effect {
    /// Execution goes on in the same frame, now as given.
    Stay(FrameView),
    /// As `Stay`, and a line is printed.
    Print(FrameView, Seq<u8>),
    /// The frame, now as given, calls a new frame.
    Call(FrameView, FrameView),
    /// The frame returns the value.
    Return(Obj),
}

/// What a step reports.
pub enum StepOutcome {
    Continue,
    Output(Vec<u8>),
    Finished,
}

pub ghost enum OutcomeView {
    Continue,
    Output(Seq<u8>),
    Finished,
}

impl StepOutcome {
    pub open spec fn view(&self) -> OutcomeView {
        match self {
            StepOutcome::Continue => OutcomeView::Continue,
            StepOutcome::Output(b) => OutcomeView::Output(b@),
            StepOutcome::Finished => OutcomeView::Finished,
        }
    }
}

pub open spec fn push_val(f: FrameView, v: Obj) -> FrameView {
    FrameView { stack: f.stack.push(v), ..f }
}

pub open spec fn pop_val(f: FrameView) -> Result<(Obj, FrameView), VmError> {
    if f.stack.len() == 0 {
        Err(VmError::StackUnderflow)
    } else {
        Ok((f.stack.last(), FrameView { stack: f.stack.drop_last(), ..f }))
    }
}

/// The top `n` values in the order they were pushed, and the frame without them.
pub open spec fn pop_vals(f: FrameView, n: nat) -> Result<(Seq<Obj>, FrameView), VmError> {
    let s = f.stack;
    if n > s.len() {
        Err(VmError::StackUnderflow)
    } else {
        Ok((s.subrange(s.len() - n, s.len() as int), FrameView { stack: s.subrange(0, s.len() - n), ..f }))
    }
}

pub open spec fn bool_obj(b: bool) -> Obj {
    if b {
        Obj::True
    } else {
        Obj::False
    }
}

/// A name's value: among the locals (when `with_locals`), then the globals, then the builtins.
pub open spec fn resolve(k: Seq<u8>, f: FrameView, builtins: Seq<(Seq<u8>, Obj)>, with_locals: bool) -> Option<Obj> {
    if with_locals && ns_get(f.locals, k) is Some {
        ns_get(f.locals, k)
    } else if ns_get(f.globals, k) is Some {
        ns_get(f.globals, k)
    } else {
        ns_get(builtins, k)
    }
}

/// Fetch: the opcode, its argument (zero when it takes none), and the frame with the
/// cursor past the opcode, the argument and the opcode's two-byte cache slots.
pub open spec fn decode(f: FrameView) -> Result<(u8, u8, FrameView), VmError> {
    if f.pc < 0 || f.pc >= f.code.len() {
        Err(VmError::UnexpectedEof)
    } else {
        let op = f.code[f.pc];
        if takes_arg(op) && f.pc + 1 >= f.code.len() {
            Err(VmError::UnexpectedEof)
        } else {
            let arg: u8 = if takes_arg(op) { f.code[f.pc + 1] } else { 0 };
            let p = if takes_arg(op) { f.pc + 2 } else { f.pc + 1 };
            let q = p + 2 * (cache_slots(op) as int);
            if q > f.code.len() {
                Err(VmError::SeekOutOfRange)
            } else {
                Ok((op, arg, FrameView { pc: q, ..f }))
            }
        }
    }
}

/// The frame with its cursor moved by the jump of `op` with argument `arg`.
pub open spec fn jump(f: FrameView, op: u8, arg: u8) -> Result<FrameView, VmError> {
    let target = f.pc + jump_offset_of(op, arg);
    if 0 <= target <= f.code.len() {
        Ok(FrameView { pc: target, ..f })
    } else {
        Err(VmError::SeekOutOfRange)
    }
}

/// Whether a popping conditional jump is taken on the popped value.
pub open spec fn jump_taken(op: u8, v: Obj) -> bool {
    if op == POP_JUMP_FORWARD_IF_NOT_NONE || op == POP_JUMP_BACKWARD_IF_NOT_NONE {
        v != Obj::NoneValue
    } else if op == POP_JUMP_FORWARD_IF_NONE || op == POP_JUMP_BACKWARD_IF_NONE {
        v == Obj::NoneValue
    } else if op == POP_JUMP_FORWARD_IF_TRUE || op == POP_JUMP_BACKWARD_IF_TRUE {
        v == Obj::True
    } else {
        v == Obj::False
    }
}

pub open spec fn is_pop_jump(op: u8) -> bool {
    op == POP_JUMP_FORWARD_IF_NOT_NONE || op == POP_JUMP_BACKWARD_IF_NOT_NONE || op
        == POP_JUMP_FORWARD_IF_NONE || op == POP_JUMP_BACKWARD_IF_NONE || op
        == POP_JUMP_FORWARD_IF_TRUE || op == POP_JUMP_BACKWARD_IF_TRUE || op
        == POP_JUMP_FORWARD_IF_FALSE || op == POP_JUMP_BACKWARD_IF_FALSE
}

pub open spec fn is_plain_jump(op: u8) -> bool {
    op == JUMP_FORWARD || op == JUMP_BACKWARD || op == JUMP_BACKWARD_NO_INTERRUPT
}

pub open spec fn is_nop(op: u8) -> bool {
    op == RESUME || op == PRECALL || op == CACHE || op == KW_NAMES
}

/// Print forms of `s` concatenated.
pub open spec fn concat_displays(s: Seq<Obj>) -> Option<Seq<u8>>
    decreases s.len(),
{
    if s.len() == 0 {
        Some(Seq::empty())
    } else {
        match (concat_displays(s.drop_last()), display_of(s.last())) {
            (Some(a), Some(b)) => Some(a + b),
            _ => None,
        }
    }
}

/// The line that `print` writes for `args`: their print forms, then a newline.
pub open spec fn print_line(args: Seq<Obj>) -> Option<Seq<u8>> {
    match concat_displays(args) {
        Some(b) => Some(b.push(10u8)),
        None => None,
    }
}

/// The frame of a call of a function with code `cv` and default values `defaults`.
pub open spec fn callee_frame(cv: CodeView, defaults: Seq<Obj>, args: Seq<Obj>) -> Result<FrameView, VmError> {
    match cv.num_args {
        None => Err(VmError::TypeMismatch),
        Some(n) => if n > FAST_SLOTS || defaults.len() > n || args.len() > FAST_SLOTS {
            Err(VmError::TypeMismatch)
        } else {
            match (tuple_items(cv.constants), tuple_items(cv.names)) {
                (Some(cs), Some(ns)) => Ok(FrameView {
                    stack: Seq::empty(),
                    code: cv.code,
                    pc: 0,
                    locals: Seq::empty(),
                    globals: Seq::empty(),
                    fast: fast_slots(n as int, defaults, args),
                    names: ns,
                    consts: cs,
                }),
                _ => Err(VmError::WrongRecordKind),
            }
        },
    }
}

pub open spec fn spec_load_name(f: FrameView, arg: u8, b: Seq<(Seq<u8>, Obj)>, global: bool) -> Result<Effect, VmError> {
    let f0 = if global && arg % 2 == 1 { push_val(f, Obj::Null) } else { f };
    let idx: int = if global { (arg / 2) as int } else { arg as int };
    if idx >= f0.names.len() {
        Err(VmError::BadIndex)
    } else {
        match key_of(f0.names[idx]) {
            None => Err(VmError::TypeMismatch),
            Some(k) => match resolve(k, f0, b, !global) {
                Some(v) => Ok(Effect::Stay(push_val(f0, v))),
                None => Err(VmError::UndefinedName),
            },
        }
    }
}

pub open spec fn spec_store_name(f: FrameView, arg: u8) -> Result<Effect, VmError> {
    if arg >= f.names.len() {
        Err(VmError::BadIndex)
    } else {
        match pop_val(f) {
            Err(e) => Err(e),
            Ok((v, f1)) => match key_of(f.names[arg as int]) {
                None => Err(VmError::TypeMismatch),
                Some(k) => Ok(Effect::Stay(FrameView { locals: ns_set(f1.locals, k, v), ..f1 })),
            },
        }
    }
}

pub open spec fn spec_compare(f: FrameView, arg: u8) -> Result<Effect, VmError> {
    match pop_val(f) {
        Err(e) => Err(e),
        Ok((rhs, f1)) => match pop_val(f1) {
            Err(e) => Err(e),
            Ok((lhs, f2)) => match (lhs, rhs) {
                (Obj::Int(a), Obj::Int(b)) => match cmp_op_of(arg) {
                    Some(op) => Ok(Effect::Stay(push_val(f2, bool_obj(op.holds(a as int, b as int))))),
                    None => Err(VmError::UnsupportedOperator(arg)),
                },
                _ => Err(VmError::TypeMismatch),
            },
        },
    }
}

pub open spec fn spec_binary(f: FrameView, arg: u8) -> Result<Effect, VmError> {
    match binary_op_of(arg) {
        None => Err(VmError::UnsupportedOperator(arg)),
        Some(op) => match pop_val(f) {
            Err(e) => Err(e),
            Ok((rhs, f1)) => match pop_val(f1) {
                Err(e) => Err(e),
                Ok((lhs, f2)) => match (lhs, rhs) {
                    (Obj::Int(a), Obj::Int(b)) => match op.int_result(a, b) {
                        Ok(v) => Ok(Effect::Stay(push_val(f2, Obj::Int(v)))),
                        Err(e) => Err(e),
                    },
                    _ => Err(VmError::TypeMismatch),
                },
            },
        },
    }
}

pub open spec fn spec_pop_jump(f: FrameView, op: u8, arg: u8) -> Result<Effect, VmError> {
    match pop_val(f) {
        Err(e) => Err(e),
        Ok((v, f1)) => if jump_taken(op, v) {
            match jump(f1, op, arg) {
                Ok(f2) => Ok(Effect::Stay(f2)),
                Err(e) => Err(e),
            }
        } else {
            Ok(Effect::Stay(f1))
        },
    }
}

pub open spec fn spec_make_function(f: FrameView, arg: u8) -> Result<Effect, VmError> {
    match pop_val(f) {
        Err(e) => Err(e),
        Ok((c, f1)) => match c {
            Obj::Code(cv) => match pop_vals(f1, arg as nat) {
                Err(e) => Err(e),
                Ok((ds, f2)) => Ok(Effect::Stay(push_val(f2, Obj::Function(cv, ds)))),
            },
            _ => Err(VmError::TypeMismatch),
        },
    }
}

/// What a host function returns for `args`, with the line it prints, if any.
pub open spec fn native_spec(f: NativeFn, args: Seq<Obj>) -> Result<(Obj, Option<Seq<u8>>), VmError> {
    match f {
        NativeFn::Print => match print_line(args) {
            Some(out) => Ok((Obj::NoneValue, Some(out))),
            None => Err(VmError::TypeMismatch),
        },
        NativeFn::IterNext => if args.len() == 0 {
            Err(VmError::TypeMismatch)
        } else {
            match args[0] {
                Obj::Iter(vs, i) => Ok((if i < vs.len() { vs[i as int] } else { Obj::Null }, None)),
                _ => Err(VmError::TypeMismatch),
            }
        },
    }
}

pub open spec fn spec_call(f: FrameView, arg: u8) -> Result<Effect, VmError> {
    match pop_vals(f, arg as nat) {
        Err(e) => Err(e),
        Ok((args, f1)) => match pop_val(f1) {
            Err(e) => Err(e),
            Ok((callee, f2)) => match pop_val(f2) {
                Err(e) => Err(e),
                Ok((sentinel, f3)) => if sentinel != Obj::Null {
                    Err(VmError::MethodCall)
                } else {
                    match callee {
                        Obj::Native(nf) => match native_spec(nf, args) {
                            Ok((v, Some(out))) => Ok(Effect::Print(push_val(f3, v), out)),
                            Ok((v, None)) => Ok(Effect::Stay(push_val(f3, v))),
                            Err(e) => Err(e),
                        },
                        Obj::Function(cv, ds) => match callee_frame(*cv, ds, args) {
                            Ok(c) => Ok(Effect::Call(f3, c)),
                            Err(e) => Err(e),
                        },
                        _ => Err(VmError::TypeMismatch),
                    }
                },
            },
        },
    }
}

/// What the instruction `op` with argument `arg` does in frame `f` (cursor already past it).
pub open spec fn exec_spec(op: u8, arg: u8, f: FrameView, b: Seq<(Seq<u8>, Obj)>) -> Result<Effect, VmError> {
    if op == CALL {
        spec_call(f, arg)
    } else if op == MAKE_FUNCTION {
        spec_make_function(f, arg)
    } else if op == PUSH_NULL {
        Ok(Effect::Stay(push_val(f, Obj::Null)))
    } else if op == RETURN_VALUE {
        match pop_val(f) {
            Ok((v, _)) => Ok(Effect::Return(v)),
            Err(e) => Err(e),
        }
    } else if op == LOAD_CONST {
        if arg < f.consts.len() {
            Ok(Effect::Stay(push_val(f, f.consts[arg as int])))
        } else {
            Err(VmError::BadIndex)
        }
    } else if op == LOAD_NAME {
        spec_load_name(f, arg, b, false)
    } else if op == LOAD_GLOBAL {
        spec_load_name(f, arg, b, true)
    } else if op == LOAD_FAST {
        match f.fast[arg as int] {
            Some(v) => Ok(Effect::Stay(push_val(f, v))),
            None => Err(VmError::UndefinedName),
        }
    } else if op == POP_TOP {
        match pop_val(f) {
            Ok((_, f1)) => Ok(Effect::Stay(f1)),
            Err(e) => Err(e),
        }
    } else if op == STORE_NAME {
        spec_store_name(f, arg)
    } else if op == COMPARE_OP {
        spec_compare(f, arg)
    } else if is_pop_jump(op) {
        spec_pop_jump(f, op, arg)
    } else if is_plain_jump(op) {
        match jump(f, op, arg) {
            Ok(f2) => Ok(Effect::Stay(f2)),
            Err(e) => Err(e),
        }
    } else if op == BINARY_OP {
        spec_binary(f, arg)
    } else if is_nop(op) {
        Ok(Effect::Stay(f))
    } else {
        Err(VmError::UnsupportedOpcode(op))
    }
}

/// One step of the machine: the innermost frame runs one instruction. A machine with no
/// frame, or whose innermost frame has run off the end of its code, is finished.
pub open spec fn step_spec(m: MachineView) -> Result<(MachineView, OutcomeView), VmError> {
    if m.frames.len() == 0 {
        Ok((m, OutcomeView::Finished))
    } else {
        let f = m.frames.last();
        let rest = m.frames.drop_last();
        if f.pc >= f.code.len() {
            Ok((MachineView { frames: Seq::empty(), ..m }, OutcomeView::Finished))
        } else {
            match decode(f) {
                Err(e) => Err(e),
                Ok((op, arg, f1)) => match exec_spec(op, arg, f1, m.builtins) {
                    Err(e) => Err(e),
                    Ok(Effect::Stay(f2)) => Ok((MachineView { frames: rest.push(f2), ..m }, OutcomeView::Continue)),
                    Ok(Effect::Print(f2, out)) => Ok((MachineView { frames: rest.push(f2), ..m }, OutcomeView::Output(out))),
                    Ok(Effect::Call(f2, c)) => Ok((MachineView { frames: rest.push(f2).push(c), ..m }, OutcomeView::Continue)),
                    Ok(Effect::Return(v)) => Ok((
                        MachineView {
                            frames: if rest.len() > 0 {
                                rest.drop_last().push(push_val(rest.last(), v))
                            } else {
                                rest
                            },
                            ret: Some(v),
                            ..m
                        },
                        OutcomeView::Continue,
                    )),
                },
            }
        }
    }
}

/// At most `fuel` steps from `m` up to a finished machine, with the lines printed on the way.
pub open spec fn run_spec(m: MachineView, fuel: nat) -> Result<(MachineView, Seq<Seq<u8>>), VmError>
    decreases fuel,
{
    if fuel == 0 {
        Err(VmError::StepLimit)
    } else {
        match step_spec(m) {
            Err(e) => Err(e),
            Ok((m2, OutcomeView::Finished)) => Ok((m2, Seq::empty())),
            Ok((m2, OutcomeView::Continue)) => run_spec(m2, (fuel - 1) as nat),
            Ok((m2, OutcomeView::Output(o))) => match run_spec(m2, (fuel - 1) as nat) {
                Ok((m3, outs)) => Ok((m3, seq![o] + outs)),
                Err(e) => Err(e),
            },
        }
    }
}

/// `$String_True`, `$String_False`, `$String_None`, `$String_print`: the builtins.
pub open spec fn builtin_table() -> Seq<(Seq<u8>, Obj)> {
    seq![
        (seq![36u8, 83, 116, 114, 105, 110, 103, 95, 84, 114, 117, 101], Obj::True),
        (seq![36u8, 83, 116, 114, 105, 110, 103, 95, 70, 97, 108, 115, 101], Obj::False),
        (seq![36u8, 83, 116, 114, 105, 110, 103, 95, 78, 111, 110, 101], Obj::NoneValue),
        (seq![36u8, 83, 116, 114, 105, 110, 103, 95, 112, 114, 105, 110, 116], Obj::Native(NativeFn::Print)),
    ]
}

} // verus!

verus! {

/// What one instruction asks of the interpreter loop.
pub enum Transfer {
    Stay,
    Print(Vec<u8>),
    Call(Box<Frame>),
    Return(PyObject),
}

/// The frame after an instruction is well formed and has the same callers.
pub open spec fn kept(a: Frame, b: Frame) -> bool {
    b.wf() && b.callers() == a.callers() && b.has_parent() == a.has_parent() && b.callers_wf()
        == a.callers_wf()
}

pub open spec fn stay_outcome(spec: Result<Effect, VmError>, r: Result<(), VmError>, f: Frame) -> bool {
    match spec {
        Ok(Effect::Stay(f2)) => r is Ok && f.view() == f2,
        Ok(_) => false,
        Err(e) => r is Err && r->Err_0 == e,
    }
}

pub open spec fn transfer_outcome(spec: Result<Effect, VmError>, r: Result<Transfer, VmError>, f: Frame) -> bool {
    match spec {
        Ok(Effect::Stay(f2)) => r is Ok && r->Ok_0 is Stay && f.view() == f2,
        Ok(Effect::Print(f2, out)) => r is Ok && r->Ok_0 is Print && r->Ok_0->Print_0@ == out && f.view() == f2,
        Ok(Effect::Call(f2, c)) => r is Ok && r->Ok_0 is Call && r->Ok_0->Call_0.view() == c
            && r->Ok_0->Call_0.wf() && !r->Ok_0->Call_0.has_parent() && f.view() == f2,
        Ok(Effect::Return(v)) => r is Ok && r->Ok_0 is Return && r->Ok_0->Return_0@ == v,
        Err(e) => r is Err && r->Err_0 == e,
    }
}

proof fn lemma_concat_none(s: Seq<Obj>, i: int)
    requires
        0 <= i < s.len(),
        display_of(s[i]) is None,
    ensures
        concat_displays(s) is None,
    decreases s.len(),
{
    if i < s.len() - 1 {
        assert(s.drop_last()[i] == s[i]);
        lemma_concat_none(s.drop_last(), i);
    }
}

/// The line that `print` writes for `args`.
pub fn print_line_of(args: &Vec<PyObject>) -> (r: Option<Vec<u8>>)
    ensures
        r is Some <==> print_line(views(args@)) is Some,
        r is Some ==> r->0@ == print_line(views(args@))->0,
{
    let ghost s = views(args@);
    let mut out: Vec<u8> = Vec::new();
    let mut i: usize = 0;
    assert(s.subrange(0, 0) =~= Seq::<Obj>::empty());
    while i < args.len()
        invariant
            s == views(args@),
            i <= args@.len(),
            concat_displays(s.subrange(0, i as int)) == Some(out@),
        decreases args@.len() - i,
    {
        let d = match args[i].display() {
            Some(d) => d,
            None => {
                proof {
                    lemma_concat_none(s, i as int);
                }
                return None;
            },
        };
        proof {
            let t = s.subrange(0, i + 1);
            assert(t.drop_last() =~= s.subrange(0, i as int));
        }
        push_all(&mut out, &d);
        i += 1;
    }
    assert(s.subrange(0, args@.len() as int) =~= s);
    out.push(10u8);
    Some(out)
}

/// Pops the top of the stack, or reports `StackUnderflow` on an empty stack.
fn pop_value(frame: &mut Frame) -> (r: Result<PyObject, VmError>)
    requires
        old(frame).wf(),
    ensures
        kept(*old(frame), *final(frame)),
        old(frame).view().stack.len() > 0 ==> r is Ok && r->Ok_0@ == old(frame).view().stack.last()
            && final(frame).view() == (FrameView { stack: old(frame).view().stack.drop_last(), ..old(frame).view() }),
        old(frame).view().stack.len() == 0 ==> r is Err && r->Err_0 == VmError::StackUnderflow,
{
    if frame.stack_len() == 0 {
        return Err(VmError::StackUnderflow);
    }
    Ok(frame.pop())
}

/// Constant `index`, or `BadIndex` past the table.
fn const_value(frame: &Frame, index: usize) -> (r: Result<PyObject, VmError>)
    ensures
        index < frame.view().consts.len() ==> r is Ok && r->Ok_0@ == frame.view().consts[index as int],
        index >= frame.view().consts.len() ==> r is Err && r->Err_0 == VmError::BadIndex,
{
    if index >= frame.consts_len() {
        return Err(VmError::BadIndex);
    }
    Ok(frame.get_const(index))
}

/// Name `index`, or `BadIndex` past the table.
fn name_value(frame: &Frame, index: usize) -> (r: Result<PyObject, VmError>)
    ensures
        index < frame.view().names.len() ==> r is Ok && r->Ok_0@ == frame.view().names[index as int],
        index >= frame.view().names.len() ==> r is Err && r->Err_0 == VmError::BadIndex,
{
    if index >= frame.names_len() {
        return Err(VmError::BadIndex);
    }
    Ok(frame.get_name(index))
}

/// Fast-local slot `key`, or `UndefinedName` when it is unset.
fn fast_value(frame: &Frame, key: u8) -> (r: Result<PyObject, VmError>)
    requires
        frame.wf(),
    ensures
        frame.view().fast[key as int] is Some ==> r is Ok && r->Ok_0@ == frame.view().fast[key as int]->0,
        frame.view().fast[key as int] is None ==> r is Err && r->Err_0 == VmError::UndefinedName,
{
    if !frame.has_fast(key) {
        return Err(VmError::UndefinedName);
    }
    Ok(frame.load_fast(key))
}

/// What a host function hands back: its value, and the line it printed, if any.
pub struct NativeReturn {
    pub value: PyObject,
    pub output: Option<Vec<u8>>,
}

impl CallableObject {
    /// Calls the host function that this callable stands for.
    pub fn call_native(&self, args: &mut Vec<PyObject>) -> (r: Result<NativeReturn, VmError>)
        requires
            self.is_native_spec(),
        ensures
            match native_spec(self.callee->Native_0, views(old(args)@)) {
                Ok((v, out)) => r is Ok && r->Ok_0.value@ == v && (match out {
                    Some(o) => r->Ok_0.output is Some && r->Ok_0.output->0@ == o,
                    None => r->Ok_0.output is None,
                }),
                Err(e) => r is Err && r->Err_0 == e,
            },
    {
        match &self.callee {
            Callee::Native(NativeFn::Print) => match print_line_of(args) {
                Some(out) => Ok(NativeReturn { value: NoneObject::new(), output: Some(out) }),
                None => Err(VmError::TypeMismatch),
            },
            Callee::Native(NativeFn::IterNext) => {
                proof {
                    if old(args)@.len() > 0 {
                        assert(views(old(args)@)[0] == old(args)@[0]@);
                    }
                }
                match iter_next(args) {
                    Ok(v) => Ok(NativeReturn { value: v, output: None }),
                    Err(e) => Err(e),
                }
            },
            Callee::Bytecode(_, _) => {
                assert(false);
                unreached()
            },
        }
    }
}

pub struct Interpreter {
    cur_frame: Option<Box<Frame>>,
    return_value: Option<PyObject>,
    builtins: Namespace,
}

impl Interpreter {
    pub closed spec fn view(&self) -> MachineView {
        MachineView { frames: chain(self.cur_frame), ret: opt_view(self.return_value), builtins: self.builtins@ }
    }

    pub closed spec fn wf(&self) -> bool {
        Frame::chain_wf(self.cur_frame)
    }

    fn setup_builtins() -> (r: Namespace)
        ensures
            r@ == builtin_table(),
    {
        let mut b = Namespace::new();
        let k1: Vec<u8> = vec![36u8, 83, 116, 114, 105, 110, 103, 95, 84, 114, 117, 101];
        let k2: Vec<u8> = vec![36u8, 83, 116, 114, 105, 110, 103, 95, 70, 97, 108, 115, 101];
        let k3: Vec<u8> = vec![36u8, 83, 116, 114, 105, 110, 103, 95, 78, 111, 110, 101];
        let k4: Vec<u8> = vec![36u8, 83, 116, 114, 105, 110, 103, 95, 112, 114, 105, 110, 116];
        let ghost (g1, g2, g3, g4) = (k1@, k2@, k3@, k4@);
        assert(g1 =~= builtin_table()[0].0);
        assert(g2 =~= builtin_table()[1].0);
        assert(g3 =~= builtin_table()[2].0);
        assert(g4 =~= builtin_table()[3].0);
        b.set(k1, TrueObject::new());
        b.set(k2, FalseObject::new());
        b.set(k3, NoneObject::new());
        b.set(k4, CallableObject::new_native(NativeFn::Print));
        proof {
            reveal_with_fuel(ns_index, 5);
            assert(g1 != g2 && g1 != g3 && g1 != g4 && g2 != g3 && g2 != g4 && g3 != g4) by {
                assert(g1.len() != g2.len());
                assert(g1[8] != g3[8]);
                assert(g1.len() != g4.len());
                assert(g2.len() != g3.len());
                assert(g2[8] != g4[8]);
                assert(g3.len() != g4.len());
            }
        }
        assert(b@ =~= builtin_table());
        b
    }

    /// An interpreter whose root frame runs `code`, with the builtins in place.
    pub fn new(code: &CodeObject) -> (r: Result<Interpreter, VmError>)
        ensures
            tuple_items(opt_view(code.constants)) is Some && tuple_items(opt_view(code.names)) is Some ==> r is Ok
                && r->Ok_0.wf() && r->Ok_0.view() == (MachineView {
                frames: seq![
                    FrameView {
                        stack: Seq::empty(),
                        code: code.code@,
                        pc: 0,
                        locals: Seq::empty(),
                        globals: Seq::empty(),
                        fast: Seq::new(FAST_SLOTS as nat, |j: int| None),
                        names: tuple_items(opt_view(code.names))->0,
                        consts: tuple_items(opt_view(code.constants))->0,
                    },
                ],
                ret: None,
                builtins: builtin_table(),
            }),
            !(tuple_items(opt_view(code.constants)) is Some && tuple_items(opt_view(code.names)) is Some) ==> r
                is Err && r->Err_0 == VmError::WrongRecordKind,
    {
        let builtins = Interpreter::setup_builtins();
        match Frame::new_from_code(code) {
            Ok(f) => {
                let b = Box::new(f);
                proof {
                    Frame::lemma_frame_facts(&*b);
                    Frame::lemma_chain(b);
                    Frame::lemma_chain_none();
                }
                let r = Interpreter { cur_frame: Some(b), return_value: None, builtins };
                assert(r.view().frames =~= seq![b.view()]);
                Ok(r)
            },
            Err(e) => Err(e),
        }
    }

    /// The boolean value for `val`.
    pub fn new_bool_object(val: bool) -> (r: PyObject)
        ensures
            r@ == bool_obj(val),
    {
        if val {
            TrueObject::new()
        } else {
            FalseObject::new()
        }
    }

    /// The relative byte offset of a jump: two bytes per cache slot of the opcode, plus
    /// two bytes per unit of the argument, negated for backward jumps.
    pub fn get_jump_offset(bytecode: u8, arg: u8) -> (r: i64)
        ensures
            r as int == jump_offset_of(bytecode, arg),
    {
        let caches: i64 = cache_num(bytecode) as i64;
        let mut a: i64 = arg as i64;
        if backward_jump(bytecode) {
            a = -a;
        }
        2 * caches + a * 2
    }

    /// A copy of the value most recently returned by a frame.
    pub fn return_value(&self) -> (r: Option<PyObject>)
        ensures
            opt_view(r) == self.view().ret,
    {
        match &self.return_value {
            Some(v) => Some(v.copy()),
            None => None,
        }
    }

    fn load_name(&self, frame: &mut Frame, arg: u8, global: bool) -> (r: Result<(), VmError>)
        requires
            old(frame).wf(),
        ensures
            kept(*old(frame), *final(frame)),
            stay_outcome(spec_load_name(old(frame).view(), arg, self.builtins@, global), r, *final(frame)),
    {
        let idx: u8 = if global {
            if arg % 2 == 1 {
                frame.push(NullObject::new());
            }
            arg / 2
        } else {
            arg
        };
        let name = match name_value(frame, idx as usize) {
            Ok(n) => n,
            Err(e) => {
                return Err(e);
            },
        };
        let found = if global {
            frame.look_up_global(&name)
        } else {
            frame.look_up_name(&name)
        };
        match found {
            Some(v) => {
                frame.push(v);
                Ok(())
            },
            None => {
                match name.hash_key() {
                    None => Err(VmError::TypeMismatch),
                    Some(k) => match self.builtins.get(&k) {
                        Some(v) => {
                            frame.push(v);
                            Ok(())
                        },
                        None => Err(VmError::UndefinedName),
                    },
                }
            },
        }
    }

    fn store_name(frame: &mut Frame, arg: u8) -> (r: Result<(), VmError>)
        requires
            old(frame).wf(),
        ensures
            kept(*old(frame), *final(frame)),
            stay_outcome(spec_store_name(old(frame).view(), arg), r, *final(frame)),
    {
        let name = match name_value(frame, arg as usize) {
            Ok(n) => n,
            Err(e) => {
                return Err(e);
            },
        };
        let v = match pop_value(frame) {
            Ok(v) => v,
            Err(e) => {
                return Err(e);
            },
        };
        frame.set_local(&name, v)
    }

    fn compare(frame: &mut Frame, arg: u8) -> (r: Result<(), VmError>)
        requires
            old(frame).wf(),
        ensures
            kept(*old(frame), *final(frame)),
            stay_outcome(spec_compare(old(frame).view(), arg), r, *final(frame)),
    {
        let rhs = match pop_value(frame) {
            Ok(v) => v,
            Err(e) => {
                return Err(e);
            },
        };
        let lhs = match pop_value(frame) {
            Ok(v) => v,
            Err(e) => {
                return Err(e);
            },
        };
        match (lhs, rhs) {
            (PyObject::Int(a), PyObject::Int(b)) => match CmpOP::from_arg(arg) {
                Some(op) => {
                    frame.push(Interpreter::new_bool_object(op.apply(a.value, b.value)));
                    Ok(())
                },
                None => Err(VmError::UnsupportedOperator(arg)),
            },
            _ => Err(VmError::TypeMismatch),
        }
    }

    fn binary(frame: &mut Frame, arg: u8) -> (r: Result<(), VmError>)
        requires
            old(frame).wf(),
        ensures
            kept(*old(frame), *final(frame)),
            stay_outcome(spec_binary(old(frame).view(), arg), r, *final(frame)),
    {
        let op = match BinaryOp::from_arg(arg) {
            Some(op) => op,
            None => {
                return Err(VmError::UnsupportedOperator(arg));
            },
        };
        let rhs = match pop_value(frame) {
            Ok(v) => v,
            Err(e) => {
                return Err(e);
            },
        };
        let lhs = match pop_value(frame) {
            Ok(v) => v,
            Err(e) => {
                return Err(e);
            },
        };
        match op.handle(&lhs, &rhs) {
            Ok(v) => {
                frame.push(v);
                Ok(())
            },
            Err(e) => Err(e),
        }
    }

    fn pop_jump(frame: &mut Frame, op: u8, arg: u8) -> (r: Result<(), VmError>)
        requires
            old(frame).wf(),
        ensures
            kept(*old(frame), *final(frame)),
            stay_outcome(spec_pop_jump(old(frame).view(), op, arg), r, *final(frame)),
    {
        let v = match pop_value(frame) {
            Ok(v) => v,
            Err(e) => {
                return Err(e);
            },
        };
        let taken = if op == POP_JUMP_FORWARD_IF_NOT_NONE || op == POP_JUMP_BACKWARD_IF_NOT_NONE {
            !matches!(v, PyObject::NoneValue(_))
        } else if op == POP_JUMP_FORWARD_IF_NONE || op == POP_JUMP_BACKWARD_IF_NONE {
            matches!(v, PyObject::NoneValue(_))
        } else if op == POP_JUMP_FORWARD_IF_TRUE || op == POP_JUMP_BACKWARD_IF_TRUE {
            matches!(v, PyObject::True(_))
        } else {
            matches!(v, PyObject::False(_))
        };
        if taken {
            frame.jump_offset(Interpreter::get_jump_offset(op, arg))
        } else {
            Ok(())
        }
    }

    fn make_function(frame: &mut Frame, arg: u8) -> (r: Result<(), VmError>)
        requires
            old(frame).wf(),
        ensures
            kept(*old(frame), *final(frame)),
            stay_outcome(spec_make_function(old(frame).view(), arg), r, *final(frame)),
    {
        let c = match pop_value(frame) {
            Ok(v) => v,
            Err(e) => {
                return Err(e);
            },
        };
        match c {
            PyObject::Code(code) => {
                let defaults = match frame.pop_n(arg as usize) {
                    Ok(d) => d,
                    Err(e) => {
                        return Err(e);
                    },
                };
                frame.push(CallableObject::new(&code, defaults));
                Ok(())
            },
            _ => Err(VmError::TypeMismatch),
        }
    }

    fn call(frame: &mut Frame, arg: u8) -> (r: Result<Transfer, VmError>)
        requires
            old(frame).wf(),
        ensures
            kept(*old(frame), *final(frame)),
            transfer_outcome(spec_call(old(frame).view(), arg), r, *final(frame)),
    {
        let mut args = match frame.pop_n(arg as usize) {
            Ok(a) => a,
            Err(e) => {
                return Err(e);
            },
        };
        let callee = match pop_value(frame) {
            Ok(v) => v,
            Err(e) => {
                return Err(e);
            },
        };
        let sentinel = match pop_value(frame) {
            Ok(v) => v,
            Err(e) => {
                return Err(e);
            },
        };
        if !sentinel.is_null() {
            return Err(VmError::MethodCall);
        }
        match callee {
            PyObject::Callable(c) => {
                match &c.callee {
                    Callee::Native(_) => match c.call_native(&mut args) {
                        Ok(ret) => {
                            frame.push(ret.value);
                            match ret.output {
                                Some(out) => Ok(Transfer::Print(out)),
                                None => Ok(Transfer::Stay),
                            }
                        },
                        Err(e) => Err(e),
                    },
                    Callee::Bytecode(code, defaults) => {
                        let n = match code.num_args {
                            Some(n) => n,
                            None => {
                                return Err(VmError::TypeMismatch);
                            },
                        };
                        if n as usize > FAST_SLOTS || defaults.len() > n as usize || args.len() > FAST_SLOTS {
                            return Err(VmError::TypeMismatch);
                        }
                        match Frame::new_from_callable(&c, args) {
                            Ok(child) => Ok(Transfer::Call(Box::new(child))),
                            Err(e) => Err(e),
                        }
                    },
                }
            },
            _ => Err(VmError::TypeMismatch),
        }
    }

    fn execute(&self, frame: &mut Frame, op: u8, arg: u8) -> (r: Result<Transfer, VmError>)
        requires
            old(frame).wf(),
        ensures
            kept(*old(frame), *final(frame)),
            transfer_outcome(exec_spec(op, arg, old(frame).view(), self.builtins@), r, *final(frame)),
    {
        if op == CALL {
            Interpreter::call(frame, arg)
        } else if op == MAKE_FUNCTION {
            match Interpreter::make_function(frame, arg) {
                Ok(()) => Ok(Transfer::Stay),
                Err(e) => Err(e),
            }
        } else if op == PUSH_NULL {
            frame.push(NullObject::new());
            Ok(Transfer::Stay)
        } else if op == RETURN_VALUE {
            match pop_value(frame) {
                Ok(v) => Ok(Transfer::Return(v)),
                Err(e) => Err(e),
            }
        } else if op == LOAD_CONST {
            match const_value(frame, arg as usize) {
                Ok(v) => {
                    frame.push(v);
                    Ok(Transfer::Stay)
                },
                Err(e) => Err(e),
            }
        } else if op == LOAD_NAME || op == LOAD_GLOBAL {
            match self.load_name(frame, arg, op == LOAD_GLOBAL) {
                Ok(()) => Ok(Transfer::Stay),
                Err(e) => Err(e),
            }
        } else if op == LOAD_FAST {
            match fast_value(frame, arg) {
                Ok(v) => {
                    frame.push(v);
                    Ok(Transfer::Stay)
                },
                Err(e) => Err(e),
            }
        } else if op == POP_TOP {
            match pop_value(frame) {
                Ok(_) => Ok(Transfer::Stay),
                Err(e) => Err(e),
            }
        } else if op == STORE_NAME {
            match Interpreter::store_name(frame, arg) {
                Ok(()) => Ok(Transfer::Stay),
                Err(e) => Err(e),
            }
        } else if op == COMPARE_OP {
            match Interpreter::compare(frame, arg) {
                Ok(()) => Ok(Transfer::Stay),
                Err(e) => Err(e),
            }
        } else if op == POP_JUMP_FORWARD_IF_NOT_NONE || op == POP_JUMP_BACKWARD_IF_NOT_NONE || op
            == POP_JUMP_FORWARD_IF_NONE || op == POP_JUMP_BACKWARD_IF_NONE || op
            == POP_JUMP_FORWARD_IF_TRUE || op == POP_JUMP_BACKWARD_IF_TRUE || op
            == POP_JUMP_FORWARD_IF_FALSE || op == POP_JUMP_BACKWARD_IF_FALSE {
            match Interpreter::pop_jump(frame, op, arg) {
                Ok(()) => Ok(Transfer::Stay),
                Err(e) => Err(e),
            }
        } else if op == JUMP_FORWARD || op == JUMP_BACKWARD || op == JUMP_BACKWARD_NO_INTERRUPT {
            match frame.jump_offset(Interpreter::get_jump_offset(op, arg)) {
                Ok(()) => Ok(Transfer::Stay),
                Err(e) => Err(e),
            }
        } else if op == BINARY_OP {
            match Interpreter::binary(frame, arg) {
                Ok(()) => Ok(Transfer::Stay),
                Err(e) => Err(e),
            }
        } else if op == RESUME || op == PRECALL || op == CACHE || op == KW_NAMES {
            Ok(Transfer::Stay)
        } else {
            Err(VmError::UnsupportedOpcode(op))
        }
    }

    /// Runs one instruction of the innermost frame; see `step_spec`.
    pub fn step(&mut self) -> (r: Result<StepOutcome, VmError>)
        requires
            old(self).wf(),
        ensures
            final(self).wf(),
            match step_spec(old(self).view()) {
                Ok((m, o)) => r is Ok && r->Ok_0.view() == o && final(self).view() == m,
                Err(e) => r is Err && r->Err_0 == e,
            },
    {
        proof {
            Frame::lemma_chain_none();
        }
        let mut frame = match self.cur_frame.take() {
            None => {
                return Ok(StepOutcome::Finished);
            },
            Some(f) => f,
        };
        proof {
            Frame::lemma_chain(frame);
        }
        proof {
            Frame::lemma_frame_facts(&*frame);
        }
        if frame.finish() {
            return Ok(StepOutcome::Finished);
        }
        let ghost f0 = frame.view();
        let ghost rest = frame.callers();
        assert(old(self).view().frames.drop_last() =~= rest);
        let op = match frame.get_byte_code() {
            Ok(o) => o,
            Err(e) => {
                return Err(e);
            },
        };
        let arg: u8 = if have_arg(op) {
            match frame.get_arg() {
                Ok(a) => a,
                Err(e) => {
                    return Err(e);
                },
            }
        } else {
            0
        };
        match frame.skip_codes_of(cache_num(op) as usize) {
            Ok(()) => {},
            Err(e) => {
                return Err(e);
            },
        }
        let ghost fs = frame.view();
        assert(decode(f0) == Ok::<(u8, u8, FrameView), VmError>((op, arg, fs)));
        let t = self.execute(&mut frame, op, arg);
        match t {
            Err(e) => Err(e),
            Ok(Transfer::Stay) => {
                self.cur_frame = Some(frame);
                proof {
                    Frame::lemma_chain(frame);
                }
                Ok(StepOutcome::Continue)
            },
            Ok(Transfer::Print(out)) => {
                self.cur_frame = Some(frame);
                proof {
                    Frame::lemma_chain(frame);
                }
                Ok(StepOutcome::Output(out))
            },
            Ok(Transfer::Call(mut child)) => {
                let ghost fb = frame;
                child.set_parent(Some(frame));
                proof {
                    Frame::lemma_chain(fb);
                    Frame::lemma_chain(child);
                }
                self.cur_frame = Some(child);
                assert(self.view().frames =~= rest.push(fb.view()).push(child.view()));
                Ok(StepOutcome::Continue)
            },
            Ok(Transfer::Return(v)) => {
                let parent = frame.parent();
                self.return_value = Some(v.copy());
                match parent {
                    Some(mut p) => {
                        proof {
                            Frame::lemma_chain(p);
                            assert(rest.drop_last() =~= p.callers());
                        }
                        p.push(v);
                        proof {
                            Frame::lemma_chain(p);
                        }
                        self.cur_frame = Some(p);
                    },
                    None => {},
                }
                Ok(StepOutcome::Continue)
            },
        }
    }

    /// Copies of the innermost frame's operand stack, bottom first; empty when no frame runs.
    pub fn current_stack(&self) -> (r: Vec<PyObject>)
        requires
            self.wf(),
        ensures
            self.view().frames.len() > 0 ==> views(r@) == self.view().frames.last().stack,
            self.view().frames.len() == 0 ==> r@.len() == 0,
    {
        proof {
            Frame::lemma_chain_none();
        }
        match &self.cur_frame {
            Some(f) => {
                proof {
                    Frame::lemma_chain(*f);
                }
                f.stack_values()
            },
            None => Vec::new(),
        }
    }

    /// Whether no frame is left to run.
    pub fn is_finished(&self) -> (r: bool)
        ensures
            r == (self.view().frames.len() == 0),
    {
        proof {
            Frame::lemma_chain_none();
        }
        match &self.cur_frame {
            Some(f) => {
                proof {
                    Frame::lemma_chain(*f);
                }
                false
            },
            None => true,
        }
    }

    /// Steps until the machine is finished, collecting the printed lines; see `run_spec`.
    pub fn run(&mut self) -> (r: Result<Vec<Vec<u8>>, VmError>)
        requires
            old(self).wf(),
        ensures
            final(self).wf(),
            match run_spec(old(self).view(), RUN_BUDGET as nat) {
                Ok((m, outs)) => r is Ok && lines_view(r->Ok_0@) == outs && final(self).view() == m,
                Err(e) => r is Err && r->Err_0 == e,
            },
    {
        let ghost m0 = self.view();
        let mut outs: Vec<Vec<u8>> = Vec::new();
        let mut fuel: u64 = RUN_BUDGET;
        proof {
            assert(lines_view(outs@) =~= Seq::<Seq<u8>>::empty());
            match run_spec(m0, RUN_BUDGET as nat) {
                Ok((m, o)) => {
                    assert(Seq::<Seq<u8>>::empty() + o =~= o);
                },
                Err(e) => {},
            }
        }
        loop
            invariant
                self.wf(),
                m0 == old(self).view(),
                run_spec(m0, RUN_BUDGET as nat) == prepend_lines(lines_view(outs@), run_spec(self.view(), fuel as nat)),
            decreases fuel,
        {
            if fuel == 0 {
                return Err(VmError::StepLimit);
            }
            let ghost before = lines_view(outs@);
            match self.step() {
                Err(e) => {
                    return Err(e);
                },
                Ok(StepOutcome::Finished) => {
                    assert(before + Seq::<Seq<u8>>::empty() =~= before);
                    return Ok(outs);
                },
                Ok(StepOutcome::Continue) => {},
                Ok(StepOutcome::Output(o)) => {
                    proof {
                        match run_spec(self.view(), (fuel - 1) as nat) {
                            Ok((m, rest)) => {
                                assert(before + (seq![o@] + rest) =~= before.push(o@) + rest);
                            },
                            Err(e) => {},
                        }
                    }
                    outs.push(o);
                    assert(lines_view(outs@) =~= before.push(outs@.last()@));
                },
            }
            fuel = fuel - 1;
        }
    }
}

/// Largest number of steps that `run` takes.
pub const RUN_BUDGET: u64 = 0xFFFF_FFFF_FFFF_FFFF;

pub open spec fn lines_view(v: Seq<Vec<u8>>) -> Seq<Seq<u8>> {
    Seq::new(v.len(), |i: int| v[i]@)
}

pub open spec fn prepend_lines(
    done: Seq<Seq<u8>>,
    r: Result<(MachineView, Seq<Seq<u8>>), VmError>,
) -> Result<(MachineView, Seq<Seq<u8>>), VmError> {
    match r {
        Ok((m, outs)) => Ok((m, done + outs)),
        Err(e) => Err(e),
    }
}

} // verus!

verus! {

/// A name bound among the frame's locals loads that binding, whatever the globals and
/// the builtins hold for the same name.
pub proof fn law_locals_shadow_builtins(
    f: FrameView,
    arg: u8,
    builtins: Seq<(Seq<u8>, Obj)>,
    k: Seq<u8>,
    v: Obj,
)
    requires
        arg < f.names.len(),
        key_of(f.names[arg as int]) == Some(k),
        ns_get(f.locals, k) == Some(v),
    ensures
        exec_spec(LOAD_NAME, arg, f, builtins) == Ok::<Effect, VmError>(Effect::Stay(push_val(f, v))),
{
}

} // verus!
