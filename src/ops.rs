use vstd::prelude::*;
use vstd::arithmetic::div_mod::{lemma_div_denominator, lemma_fundamental_div_mod_converse};

use crate::error::VmError;
use crate::object::{IntObject, Obj, PyObject};

verus! {

/// Comparison operators, in the order of their argument values.
#[derive(Clone, Copy, PartialEq, Eq, Structural, Debug)]
pub enum CmpOP {
    LT,
    LE,
    EQ,
    NEQ,
    GT,
    GE,
}

/// The comparison named by an argument value.
pub open spec fn cmp_op_of(arg: u8) -> Option<CmpOP> {
    match arg {
        0u8 => Some(CmpOP::LT),
        1u8 => Some(CmpOP::LE),
        2u8 => Some(CmpOP::EQ),
        3u8 => Some(CmpOP::NEQ),
        4u8 => Some(CmpOP::GT),
        5u8 => Some(CmpOP::GE),
        _ => None,
    }
}

impl CmpOP {
    /// What the comparison yields on two integers.
    pub open spec fn holds(self, a: int, b: int) -> bool {
        match self {
            CmpOP::LT => a < b,
            CmpOP::LE => a <= b,
            CmpOP::EQ => a == b,
            CmpOP::NEQ => a != b,
            CmpOP::GT => a > b,
            CmpOP::GE => a >= b,
        }
    }

    /// The comparison named by an argument value.
    pub fn from_arg(arg: u8) -> (r: Option<CmpOP>)
        ensures
            r == cmp_op_of(arg),
    {
        match arg {
            0u8 => Some(CmpOP::LT),
            1u8 => Some(CmpOP::LE),
            2u8 => Some(CmpOP::EQ),
            3u8 => Some(CmpOP::NEQ),
            4u8 => Some(CmpOP::GT),
            5u8 => Some(CmpOP::GE),
            _ => None,
        }
    }

    /// The symbol of this comparison, as text.
    pub open spec fn symbol_text(self) -> Seq<char> {
        match self {
            CmpOP::LT => "<"@,
            CmpOP::LE => "<="@,
            CmpOP::EQ => "=="@,
            CmpOP::NEQ => "!="@,
            CmpOP::GT => ">"@,
            CmpOP::GE => ">="@,
        }
    }

    /// The comparison's symbol.
    pub fn symbol(&self) -> (r: &'static str)
        ensures
            r@ == self.symbol_text(),
    {
        match self {
            CmpOP::LT => "<",
            CmpOP::LE => "<=",
            CmpOP::EQ => "==",
            CmpOP::NEQ => "!=",
            CmpOP::GT => ">",
            CmpOP::GE => ">=",
        }
    }

    /// Applies the comparison.
    pub fn apply(&self, a: i32, b: i32) -> (r: bool)
        ensures
            r == self.holds(a as int, b as int),
    {
        match self {
            CmpOP::LT => a < b,
            CmpOP::LE => a <= b,
            CmpOP::EQ => a == b,
            CmpOP::NEQ => a != b,
            CmpOP::GT => a > b,
            CmpOP::GE => a >= b,
        }
    }
}

/// Binary operators; the flag marks the augmented-assignment form (`+=`).
#[derive(Clone, Copy, PartialEq, Eq, Structural, Debug)]
pub enum BinaryOp {
    Add(bool),
    And(bool),
    FloorDivide(bool),
    ShiftLeft(bool),
    MatrixMultiply(bool),
    Multiply(bool),
    Modulo(bool),
    OR(bool),
    POWER(bool),
    ShiftRight(bool),
    Minus(bool),
    Divide(bool),
    XOR(bool),
}

/// The operator with table position `k` (below 13) and the given form.
pub open spec fn op_at(k: u8, augmented: bool) -> BinaryOp {
    match k {
        0u8 => BinaryOp::Add(augmented),
        1u8 => BinaryOp::And(augmented),
        2u8 => BinaryOp::FloorDivide(augmented),
        3u8 => BinaryOp::ShiftLeft(augmented),
        4u8 => BinaryOp::MatrixMultiply(augmented),
        5u8 => BinaryOp::Multiply(augmented),
        6u8 => BinaryOp::Modulo(augmented),
        7u8 => BinaryOp::OR(augmented),
        8u8 => BinaryOp::POWER(augmented),
        9u8 => BinaryOp::ShiftRight(augmented),
        10u8 => BinaryOp::Minus(augmented),
        11u8 => BinaryOp::Divide(augmented),
        _ => BinaryOp::XOR(augmented),
    }
}

/// The operator named by an argument value: plain forms at 0..13, augmented at 13..26.
pub open spec fn binary_op_of(arg: u8) -> Option<BinaryOp> {
    if arg < 13 {
        Some(op_at(arg, false))
    } else if arg < 26 {
        Some(op_at((arg - 13) as u8, true))
    } else {
        None
    }
}

pub open spec fn fits_i32(x: int) -> bool {
    i32::MIN <= x <= i32::MAX
}

/// Division rounding toward negative infinity (`b` nonzero).
pub open spec fn floor_div(a: int, b: int) -> int {
    if b > 0 {
        a / b
    } else {
        (-a) / (-b)
    }
}

/// Remainder with the sign of the divisor, matching `floor_div`.
pub open spec fn floor_mod(a: int, b: int) -> int {
    a - b * floor_div(a, b)
}

pub open spec fn ipow(a: int, n: nat) -> int
    decreases n,
{
    if n == 0 {
        1
    } else {
        a * ipow(a, (n - 1) as nat)
    }
}

pub open spec fn checked(x: int) -> Result<i32, VmError> {
    if fits_i32(x) {
        Ok(x as i32)
    } else {
        Err(VmError::ArithmeticError)
    }
}

impl BinaryOp {
    /// The argument value of the plain form of this operator.
    pub open spec fn code(self) -> u8 {
        match self {
            BinaryOp::Add(_) => 0,
            BinaryOp::And(_) => 1,
            BinaryOp::FloorDivide(_) => 2,
            BinaryOp::ShiftLeft(_) => 3,
            BinaryOp::MatrixMultiply(_) => 4,
            BinaryOp::Multiply(_) => 5,
            BinaryOp::Modulo(_) => 6,
            BinaryOp::OR(_) => 7,
            BinaryOp::POWER(_) => 8,
            BinaryOp::ShiftRight(_) => 9,
            BinaryOp::Minus(_) => 10,
            BinaryOp::Divide(_) => 11,
            BinaryOp::XOR(_) => 12,
        }
    }

    /// What the operator yields on two integers; both forms compute the same value.
    pub open spec fn int_result(self, a: i32, b: i32) -> Result<i32, VmError> {
        let x = a as int;
        let y = b as int;
        match self {
            BinaryOp::Add(_) => checked(x + y),
            BinaryOp::And(_) => Ok(a & b),
            BinaryOp::FloorDivide(_) => if y == 0 {
                Err(VmError::ArithmeticError)
            } else {
                checked(floor_div(x, y))
            },
            BinaryOp::ShiftLeft(_) => if y < 0 {
                Err(VmError::ArithmeticError)
            } else {
                checked(x * ipow(2, y as nat))
            },
            BinaryOp::MatrixMultiply(_) => Err(VmError::UnsupportedOperator(4)),
            BinaryOp::Multiply(_) => checked(x * y),
            BinaryOp::Modulo(_) => if y == 0 {
                Err(VmError::ArithmeticError)
            } else {
                checked(floor_mod(x, y))
            },
            BinaryOp::OR(_) => Ok(a | b),
            BinaryOp::POWER(_) => if y < 0 {
                Err(VmError::ArithmeticError)
            } else {
                checked(ipow(x, y as nat))
            },
            BinaryOp::ShiftRight(_) => if y < 0 {
                Err(VmError::ArithmeticError)
            } else {
                checked(floor_div(x, ipow(2, y as nat)))
            },
            BinaryOp::Minus(_) => checked(x - y),
            BinaryOp::Divide(_) => Err(VmError::UnsupportedOperator(11)),
            BinaryOp::XOR(_) => Ok(a ^ b),
        }
    }

    /// The operator named by an argument value.
    pub fn from_arg(arg: u8) -> (r: Option<BinaryOp>)
        ensures
            r == binary_op_of(arg),
    {
        if arg >= 26 {
            return None;
        }
        let augmented = arg >= 13;
        let k: u8 = if augmented { arg - 13 } else { arg };
        let op = match k {
            0u8 => BinaryOp::Add(augmented),
            1u8 => BinaryOp::And(augmented),
            2u8 => BinaryOp::FloorDivide(augmented),
            3u8 => BinaryOp::ShiftLeft(augmented),
            4u8 => BinaryOp::MatrixMultiply(augmented),
            5u8 => BinaryOp::Multiply(augmented),
            6u8 => BinaryOp::Modulo(augmented),
            7u8 => BinaryOp::OR(augmented),
            8u8 => BinaryOp::POWER(augmented),
            9u8 => BinaryOp::ShiftRight(augmented),
            10u8 => BinaryOp::Minus(augmented),
            11u8 => BinaryOp::Divide(augmented),
            _ => BinaryOp::XOR(augmented),
        };
        Some(op)
    }

    /// Applies the operator to two values; only integers are supported.
    pub fn handle(&self, lhs: &PyObject, rhs: &PyObject) -> (r: Result<PyObject, VmError>)
        ensures
            match (lhs@, rhs@) {
                (Obj::Int(a), Obj::Int(b)) => match self.int_result(a, b) {
                    Ok(v) => r is Ok && r->Ok_0@ == Obj::Int(v),
                    Err(e) => r is Err && r->Err_0 == e,
                },
                _ => r is Err && r->Err_0 == VmError::TypeMismatch,
            },
    {
        match (lhs, rhs) {
            (PyObject::Int(a), PyObject::Int(b)) => match self.handle_int(a.value, b.value) {
                Ok(v) => Ok(IntObject::new_from_i32(v)),
                Err(e) => Err(e),
            },
            _ => Err(VmError::TypeMismatch),
        }
    }

    /// The symbol of this operator, as text.
    pub open spec fn symbol_text(self) -> Seq<char> {
        match self {
            BinaryOp::Add(false) => "+"@,
            BinaryOp::And(false) => "&"@,
            BinaryOp::FloorDivide(false) => "//"@,
            BinaryOp::ShiftLeft(false) => "<<"@,
            BinaryOp::MatrixMultiply(false) => "@"@,
            BinaryOp::Multiply(false) => "*"@,
            BinaryOp::Modulo(false) => "%"@,
            BinaryOp::OR(false) => "|"@,
            BinaryOp::POWER(false) => "**"@,
            BinaryOp::ShiftRight(false) => ">>"@,
            BinaryOp::Minus(false) => "-"@,
            BinaryOp::Divide(false) => "/"@,
            BinaryOp::XOR(false) => "^"@,
            BinaryOp::Add(true) => "+="@,
            BinaryOp::And(true) => "&="@,
            BinaryOp::FloorDivide(true) => "//="@,
            BinaryOp::ShiftLeft(true) => "<<="@,
            BinaryOp::MatrixMultiply(true) => "@="@,
            BinaryOp::Multiply(true) => "*="@,
            BinaryOp::Modulo(true) => "%="@,
            BinaryOp::OR(true) => "|="@,
            BinaryOp::POWER(true) => "**="@,
            BinaryOp::ShiftRight(true) => ">>="@,
            BinaryOp::Minus(true) => "-="@,
            BinaryOp::Divide(true) => "/="@,
            BinaryOp::XOR(true) => "^="@,
        }
    }

    /// The operator's symbol, with `=` appended for the augmented form.
    pub fn symbol(&self) -> (r: &'static str)
        ensures
            r@ == self.symbol_text(),
    {
        match self {
            BinaryOp::Add(false) => "+",
            BinaryOp::And(false) => "&",
            BinaryOp::FloorDivide(false) => "//",
            BinaryOp::ShiftLeft(false) => "<<",
            BinaryOp::MatrixMultiply(false) => "@",
            BinaryOp::Multiply(false) => "*",
            BinaryOp::Modulo(false) => "%",
            BinaryOp::OR(false) => "|",
            BinaryOp::POWER(false) => "**",
            BinaryOp::ShiftRight(false) => ">>",
            BinaryOp::Minus(false) => "-",
            BinaryOp::Divide(false) => "/",
            BinaryOp::XOR(false) => "^",
            BinaryOp::Add(true) => "+=",
            BinaryOp::And(true) => "&=",
            BinaryOp::FloorDivide(true) => "//=",
            BinaryOp::ShiftLeft(true) => "<<=",
            BinaryOp::MatrixMultiply(true) => "@=",
            BinaryOp::Multiply(true) => "*=",
            BinaryOp::Modulo(true) => "%=",
            BinaryOp::OR(true) => "|=",
            BinaryOp::POWER(true) => "**=",
            BinaryOp::ShiftRight(true) => ">>=",
            BinaryOp::Minus(true) => "-=",
            BinaryOp::Divide(true) => "/=",
            BinaryOp::XOR(true) => "^=",
        }
    }

    /// Applies the operator to two integers.
    pub fn handle_int(&self, a: i32, b: i32) -> (r: Result<i32, VmError>)
        ensures
            r == self.int_result(a, b),
    {
        let x = a as i64;
        let y = b as i64;
        match self {
            BinaryOp::Add(_) => check_i32(x + y),
            BinaryOp::And(_) => Ok(a & b),
            BinaryOp::FloorDivide(_) => {
                if y == 0 {
                    Err(VmError::ArithmeticError)
                } else {
                    check_i32(floor_div_i64(x, y))
                }
            },
            BinaryOp::ShiftLeft(_) => shift_left(a, b),
            BinaryOp::MatrixMultiply(_) => Err(VmError::UnsupportedOperator(4)),
            BinaryOp::Multiply(_) => {
                proof {
                    lemma_i32_product(x as int, y as int);
                }
                check_i32(x * y)
            },
            BinaryOp::Modulo(_) => {
                if y == 0 {
                    Err(VmError::ArithmeticError)
                } else {
                    let q = floor_div_i64(x, y);
                    proof {
                        lemma_floor_div_bound(x as int, y as int);
                    }
                    check_i32(x - y * q)
                }
            },
            BinaryOp::OR(_) => Ok(a | b),
            BinaryOp::POWER(_) => power(a, b),
            BinaryOp::ShiftRight(_) => shift_right(a, b),
            BinaryOp::Minus(_) => check_i32(x - y),
            BinaryOp::Divide(_) => Err(VmError::UnsupportedOperator(11)),
            BinaryOp::XOR(_) => Ok(a ^ b),
        }
    }
}

fn check_i32(x: i64) -> (r: Result<i32, VmError>)
    ensures
        r == checked(x as int),
{
    if x < i32::MIN as i64 || x > i32::MAX as i64 {
        Err(VmError::ArithmeticError)
    } else {
        Ok(x as i32)
    }
}

proof fn lemma_floor_div_bound(a: int, b: int)
    requires
        b != 0,
        fits_i32(a),
        fits_i32(b),
    ensures
        -2147483648 <= floor_div(a, b) <= 2147483648,
        b * floor_div(a, b) <= 4611686018427387904,
        b * floor_div(a, b) >= -4611686018427387904,
{
    let q = floor_div(a, b);
    if b > 0 {
        assert(q == a / b);
        vstd::arithmetic::div_mod::lemma_fundamental_div_mod(a, b);
        vstd::arithmetic::div_mod::lemma_mod_bound(a, b);
        assert(a == b * q + a % b);
        assert(-2147483648 <= q <= 2147483647) by (nonlinear_arith)
            requires
                a == b * q + a % b,
                0 <= a % b < b,
                b >= 1,
                -2147483648 <= a <= 2147483647,
        ;
    } else {
        let na = -a;
        let nb = -b;
        assert(q == na / nb);
        vstd::arithmetic::div_mod::lemma_fundamental_div_mod(na, nb);
        vstd::arithmetic::div_mod::lemma_mod_bound(na, nb);
        assert(-2147483648 <= q <= 2147483648) by (nonlinear_arith)
            requires
                na == nb * q + na % nb,
                0 <= na % nb < nb,
                nb >= 1,
                -2147483647 <= na <= 2147483648,
        ;
    }
    assert(-4611686018427387904 <= b * q <= 4611686018427387904) by (nonlinear_arith)
        requires
            -2147483648 <= q <= 2147483648,
            -2147483648 <= b <= 2147483647,
    ;
}

/// Floor division of two values in `i32` range.
fn floor_div_i64(a: i64, b: i64) -> (r: i64)
    requires
        b != 0,
        fits_i32(a as int),
        fits_i32(b as int),
    ensures
        r as int == floor_div(a as int, b as int),
{
    proof {
        lemma_floor_div_bound(a as int, b as int);
    }
    let (na, nb) = if b > 0 {
        (a, b)
    } else {
        (-a, -b)
    };
    assert(floor_div(a as int, b as int) == (na as int) / (nb as int));
    if na >= 0 {
        na / nb
    } else {
        let m = -na;
        let q = m / nb;
        let rem = m % nb;
        proof {
            vstd::arithmetic::div_mod::lemma_fundamental_div_mod(m as int, nb as int);
            vstd::arithmetic::div_mod::lemma_mod_bound(m as int, nb as int);
        }
        if rem == 0 {
            proof {
                assert(na as int == (-q as int) * (nb as int) + 0) by (nonlinear_arith)
                    requires
                        m as int == (nb as int) * (q as int) + rem as int,
                        rem == 0,
                        na == -m,
                ;
                lemma_fundamental_div_mod_converse(na as int, nb as int, -q as int, 0);
            }
            -q
        } else {
            proof {
                assert(na as int == (-q - 1) as int * (nb as int) + (nb - rem) as int) by (nonlinear_arith)
                    requires
                        m as int == (nb as int) * (q as int) + rem as int,
                        na == -m,
                ;
                lemma_fundamental_div_mod_converse(na as int, nb as int, -q - 1, (nb - rem) as int);
            }
            -q - 1
        }
    }
}

proof fn lemma_ipow_positive(a: int, n: nat)
    requires
        a >= 1,
    ensures
        ipow(a, n) >= 1,
    decreases n,
{
    if n > 0 {
        lemma_ipow_positive(a, (n - 1) as nat);
        let p = ipow(a, (n - 1) as nat);
        assert(a * p >= 1) by (nonlinear_arith)
            requires
                a >= 1,
                p >= 1,
        ;
    }
}

/// `|a^n|` does not shrink as `n` grows once `|a| >= 1`.
proof fn lemma_ipow_abs_mono(a: int, k: nat, n: nat)
    requires
        a >= 1 || a <= -1,
        k <= n,
    ensures
        abs(ipow(a, k)) <= abs(ipow(a, n)),
    decreases n,
{
    if k < n {
        lemma_ipow_abs_mono(a, k, (n - 1) as nat);
        let p = ipow(a, (n - 1) as nat);
        assert(abs(a * p) >= abs(p)) by (nonlinear_arith)
            requires
                a >= 1 || a <= -1,
        ;
    }
}

pub open spec fn abs(x: int) -> int {
    if x < 0 {
        -x
    } else {
        x
    }
}

proof fn lemma_ipow_small(a: int, n: nat)
    requires
        -1 <= a <= 1,
    ensures
        a == 1 ==> ipow(a, n) == 1,
        a == 0 && n > 0 ==> ipow(a, n) == 0,
        a == -1 ==> ipow(a, n) == if n % 2 == 0 {
            1int
        } else {
            -1int
        },
    decreases n,
{
    if n > 0 {
        lemma_ipow_small(a, (n - 1) as nat);
    }
}

/// `a` raised to a nonnegative power `b`, or an error when it leaves `i32`.
fn power(a: i32, b: i32) -> (r: Result<i32, VmError>)
    ensures
        r == BinaryOp::POWER(false).int_result(a, b),
{
    if b < 0 {
        return Err(VmError::ArithmeticError);
    }
    proof {
        if -1 <= a <= 1 {
            lemma_ipow_small(a as int, b as nat);
        }
    }
    if a == 1 {
        return Ok(1);
    }
    if a == 0 {
        return if b == 0 {
            Ok(1)
        } else {
            Ok(0)
        };
    }
    if a == -1 {
        return if b % 2 == 0 {
            Ok(1)
        } else {
            Ok(-1)
        };
    }
    let mut acc: i64 = 1;
    let mut k: i32 = 0;
    while k < b
        invariant
            0 <= k <= b,
            a >= 2 || a <= -2,
            acc as int == ipow(a as int, k as nat),
            fits_i32(acc as int),
        decreases b - k,
    {
        proof {
            lemma_i32_product(acc as int, a as int);
        }
        let next = acc * (a as i64);
        proof {
            assert(next as int == ipow(a as int, (k + 1) as nat)) by (nonlinear_arith)
                requires
                    next == acc * (a as i64),
                    acc as int == ipow(a as int, k as nat),
                    ipow(a as int, (k + 1) as nat) == (a as int) * ipow(a as int, k as nat),
            ;
        }
        if next < i32::MIN as i64 || next > i32::MAX as i64 {
            proof {
                if k + 1 < b {
                    lemma_ipow_grow(a as int, (k + 1) as nat, b as nat);
                }
            }
            return Err(VmError::ArithmeticError);
        }
        acc = next;
        k += 1;
    }
    Ok(acc as i32)
}

/// `a * 2^b` for nonnegative `b`, or an error when it leaves `i32`.
fn shift_left(a: i32, b: i32) -> (r: Result<i32, VmError>)
    ensures
        r == BinaryOp::ShiftLeft(false).int_result(a, b),
{
    if b < 0 {
        return Err(VmError::ArithmeticError);
    }
    if a == 0 {
        proof {
            assert(0 * ipow(2, b as nat) == 0);
        }
        return Ok(0);
    }
    let mut acc: i64 = a as i64;
    let mut k: i32 = 0;
    while k < b
        invariant
            0 <= k <= b,
            a != 0,
            acc as int == (a as int) * ipow(2, k as nat),
            fits_i32(acc as int),
        decreases b - k,
    {
        let next = acc * 2;
        proof {
            assert(next as int == (a as int) * ipow(2, (k + 1) as nat)) by (nonlinear_arith)
                requires
                    acc as int == (a as int) * ipow(2, k as nat),
                    next == acc * 2,
                    ipow(2, (k + 1) as nat) == 2 * ipow(2, k as nat),
            ;
        }
        if next < i32::MIN as i64 || next > i32::MAX as i64 {
            proof {
                if k + 1 < b {
                    lemma_ipow_grow(2, (k + 1) as nat, b as nat);
                    lemma_ipow_positive(2, (k + 1) as nat);
                    lemma_ipow_positive(2, b as nat);
                    let pk = ipow(2, (k + 1) as nat);
                    let pn = ipow(2, b as nat);
                    assert(abs((a as int) * pn) >= 2 * abs((a as int) * pk)) by (nonlinear_arith)
                        requires
                            pn >= 2 * pk,
                            pk >= 1,
                    ;
                }
            }
            return Err(VmError::ArithmeticError);
        }
        acc = next;
        k += 1;
    }
    Ok(acc as i32)
}

/// `floor(a / 2^b)` for nonnegative `b`.
fn shift_right(a: i32, b: i32) -> (r: Result<i32, VmError>)
    ensures
        r == BinaryOp::ShiftRight(false).int_result(a, b),
{
    if b < 0 {
        return Err(VmError::ArithmeticError);
    }
    // For negative `a`, floor(a / d) == -((-a - 1) / d) - 1.
    let neg = a < 0;
    let m0: i64 = if neg {
        -(a as i64) - 1
    } else {
        a as i64
    };
    let mut m: i64 = m0;
    let mut k: i32 = 0;
    while k < b && m > 0
        invariant
            0 <= k <= b,
            0 <= m <= m0,
            m0 >= 0,
            m as int == (m0 as int) / ipow(2, k as nat),
        decreases b - k,
    {
        proof {
            lemma_ipow_positive(2, k as nat);
            lemma_div_denominator(m0 as int, ipow(2, k as nat), 2);
            assert(ipow(2, k as nat) * 2 == ipow(2, (k + 1) as nat));
        }
        m = m / 2;
        k += 1;
    }
    let ghost d = ipow(2, b as nat);
    proof {
        lemma_ipow_positive(2, b as nat);
        lemma_ipow_positive(2, k as nat);
        if k < b {
            // The quotient reached zero; further halving keeps it there.
            let dk = ipow(2, k as nat);
            let rest = ipow(2, (b - k) as nat);
            lemma_ipow_positive(2, (b - k) as nat);
            lemma_ipow_add(2, k as nat, (b - k) as nat);
            lemma_div_denominator(m0 as int, dk, rest);
        }
        assert(m as int == (m0 as int) / d);
    }
    if neg {
        proof {
            vstd::arithmetic::div_mod::lemma_fundamental_div_mod(m0 as int, d);
            vstd::arithmetic::div_mod::lemma_mod_bound(m0 as int, d);
            let rem = (m0 as int) % d;
            assert(a as int == (-m - 1) * d + (d - rem - 1)) by (nonlinear_arith)
                requires
                    m0 as int == d * (m as int) + rem,
                    m0 == -(a as int) - 1,
            ;
            lemma_fundamental_div_mod_converse(a as int, d, -m - 1, d - rem - 1);
        }
        Ok((-m - 1) as i32)
    } else {
        Ok(m as i32)
    }
}

proof fn lemma_i32_product(x: int, y: int)
    requires
        fits_i32(x),
        fits_i32(y),
    ensures
        -4611686018427387904 <= x * y <= 4611686018427387904,
{
    assert(-4611686018427387904 <= x * y <= 4611686018427387904) by (nonlinear_arith)
        requires
            -2147483648 <= x <= 2147483647,
            -2147483648 <= y <= 2147483647,
    ;
}

/// For `|a| >= 2`, each further power at least doubles in magnitude.
proof fn lemma_ipow_grow(a: int, k: nat, n: nat)
    requires
        a >= 2 || a <= -2,
        k < n,
    ensures
        abs(ipow(a, n)) >= 2 * abs(ipow(a, k)),
    decreases n,
{
    let p = ipow(a, (n - 1) as nat);
    assert(abs(a * p) >= 2 * abs(p)) by (nonlinear_arith)
        requires
            a >= 2 || a <= -2,
    ;
    if k + 1 < n {
        lemma_ipow_grow(a, k, (n - 1) as nat);
    }
}

proof fn lemma_ipow_add(a: int, k: nat, j: nat)
    ensures
        ipow(a, k) * ipow(a, j) == ipow(a, k + j),
    decreases j,
{
    if j > 0 {
        lemma_ipow_add(a, k, (j - 1) as nat);
        let pk = ipow(a, k);
        let pj = ipow(a, (j - 1) as nat);
        assert(pk * (a * pj) == a * (pk * pj)) by (nonlinear_arith);
    }
}

} // verus!
