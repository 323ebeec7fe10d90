//! The constraint systems (AIRs) and their execution traces.

use vstd::prelude::*;
use crate::common::errors::{Result, ZKMTDError};
use crate::utils::constants::GOLDILOCKS_ORDER;
use crate::utils::hash::{field_add, field_add_exec, FieldElement};

verus! {

/// Whether `n` is a power of two.
pub open spec fn is_pow2(n: nat) -> bool
    decreases n,
{
    if n == 0 {
        false
    } else if n == 1 {
        true
    } else {
        n % 2 == 0 && is_pow2(n / 2)
    }
}

/// `n.is_power_of_two()`.
pub fn is_power_of_two(n: usize) -> (r: bool)
    ensures
        r == is_pow2(n as nat),
{
    if n == 0 {
        return false;
    }
    let mut m: usize = n;
    while m > 1 && m % 2 == 0
        invariant
            m >= 1,
            is_pow2(m as nat) == is_pow2(n as nat),
        decreases m,
    {
        m = m / 2;
    }
    m == 1
}

/// `F(n)` in the Goldilocks field: `F(0) = 0`, `F(1) = 1`.
pub open spec fn fib_mod(n: nat) -> u64
    decreases n,
{
    if n == 0 {
        0
    } else if n == 1 {
        1
    } else {
        field_add(fib_mod((n - 2) as nat), fib_mod((n - 1) as nat))
    }
}

/// `a - b` in the Goldilocks field (inputs read modulo the order).
pub open spec fn field_sub(a: u64, b: u64) -> u64 {
    let p = GOLDILOCKS_ORDER as int;
    (((a as int % p) + p - (b as int % p)) % p) as u64
}

/// `a · b` in the Goldilocks field.
pub open spec fn field_mul(a: u64, b: u64) -> u64 {
    ((a as nat * b as nat) % GOLDILOCKS_ORDER as nat) as u64
}

/// `a + b` in the Goldilocks field, for any `u64` inputs.
pub fn gl_add(a: u64, b: u64) -> (r: u64)
    ensures
        r == field_add(a, b),
        r < GOLDILOCKS_ORDER,
{
    ((a as u128 + b as u128) % (GOLDILOCKS_ORDER as u128)) as u64
}

/// `a - b` in the Goldilocks field, for any `u64` inputs.
pub fn gl_sub(a: u64, b: u64) -> (r: u64)
    ensures
        r == field_sub(a, b),
        r < GOLDILOCKS_ORDER,
{
    let a1 = a % GOLDILOCKS_ORDER;
    let b1 = b % GOLDILOCKS_ORDER;
    ((a1 as u128 + GOLDILOCKS_ORDER as u128 - b1 as u128) % (GOLDILOCKS_ORDER as u128)) as u64
}

/// `a · b` in the Goldilocks field, for any `u64` inputs.
pub fn gl_mul(a: u64, b: u64) -> (r: u64)
    ensures
        r == field_mul(a, b),
        r < GOLDILOCKS_ORDER,
{
    assert(a as nat * b as nat <= 0xFFFF_FFFF_FFFF_FFFF * 0xFFFF_FFFF_FFFF_FFFF) by (nonlinear_arith)
        requires
            a <= 0xFFFF_FFFF_FFFF_FFFF,
            b <= 0xFFFF_FFFF_FFFF_FFFF,
    ;
    ((a as u128 * b as u128) % (GOLDILOCKS_ORDER as u128)) as u64
}

/// The kinds of statement the system proves.
#[derive(Debug, Clone, Copy, PartialEq, Eq, Structural)]
pub enum AirType {
    Fibonacci,
    Sum,
    Multiplication,
    Range,
}

impl AirType {
    pub open spec fn tag(&self) -> u8 {
        match self {
            AirType::Fibonacci => 0,
            AirType::Sum => 1,
            AirType::Multiplication => 2,
            AirType::Range => 3,
        }
    }

    /// The one-byte tag that opens the binding hash.
    pub fn as_u8(&self) -> (r: u8)
        ensures
            r == self.tag(),
    {
        match self {
            AirType::Fibonacci => 0,
            AirType::Sum => 1,
            AirType::Multiplication => 2,
            AirType::Range => 3,
        }
    }
}

/// One of the column-based constraint systems.
#[derive(Debug, Clone)]
pub struct SimpleAir {
    num_columns: usize,
    air_type: AirType,
}

impl SimpleAir {
    pub closed spec fn spec_columns(&self) -> usize {
        self.num_columns
    }

    pub closed spec fn spec_type(&self) -> AirType {
        self.air_type
    }

    /// Two columns: `a_{i+1} = b_i`, `b_{i+1} = a_i + b_i`.
    pub fn fibonacci() -> (r: Self)
        ensures
            r.spec_columns() == 2,
            r.spec_type() == AirType::Fibonacci,
    {
        SimpleAir { num_columns: 2, air_type: AirType::Fibonacci }
    }

    /// Three columns: `c = a + b` on every row.
    pub fn sum() -> (r: Self)
        ensures
            r.spec_columns() == 3,
            r.spec_type() == AirType::Sum,
    {
        SimpleAir { num_columns: 3, air_type: AirType::Sum }
    }

    /// Three columns: `c = a · b` on every row.
    pub fn multiplication() -> (r: Self)
        ensures
            r.spec_columns() == 3,
            r.spec_type() == AirType::Multiplication,
    {
        SimpleAir { num_columns: 3, air_type: AirType::Multiplication }
    }

    pub fn air_type(&self) -> (r: AirType)
        ensures
            r == self.spec_type(),
    {
        self.air_type
    }

    pub fn num_columns(&self) -> (r: usize)
        ensures
            r == self.spec_columns(),
    {
        self.num_columns
    }

    pub fn num_constraints(&self) -> (r: usize)
        ensures
            r == 1,
    {
        1
    }

    /// 2 for multiplication, 1 otherwise.
    pub fn constraint_degree(&self) -> (r: usize)
        ensures
            r == if self.spec_type() == AirType::Multiplication {
                2usize
            } else {
                1usize
            },
    {
        match self.air_type {
            AirType::Multiplication => 2,
            _ => 1,
        }
    }

    /// The constraint residues at `row` of a column-major trace (Goldilocks
    /// arithmetic; zero means satisfied). Empty when the row has no constraint.
    pub fn evaluate_constraints(&self, trace: &[Vec<FieldElement>], row: usize) -> (r: Vec<
        FieldElement,
    >)
        requires
            self.spec_type() == AirType::Fibonacci ==> trace@.len() >= 1,
            forall|i: int| 0 <= i < trace@.len() ==> (#[trigger] trace@[i])@.len() == trace@[0]@.len(),
        ensures
            self.spec_type() == AirType::Fibonacci ==> if row + 2 < trace@[0]@.len() {
                r@ == seq![
                    field_sub(
                        trace@[0]@[row + 2],
                        field_add(trace@[0]@[row as int], trace@[0]@[row + 1]),
                    ),
                ]
            } else {
                r@.len() == 0
            },
            self.spec_type() == AirType::Sum ==> if trace@.len() >= 3 && row < trace@[0]@.len() {
                r@ == seq![
                    field_sub(
                        trace@[2]@[row as int],
                        field_add(trace@[0]@[row as int], trace@[1]@[row as int]),
                    ),
                ]
            } else {
                r@.len() == 0
            },
            self.spec_type() == AirType::Multiplication ==> if trace@.len() >= 3 && row
                < trace@[0]@.len() {
                r@ == seq![
                    field_sub(
                        trace@[2]@[row as int],
                        field_mul(trace@[0]@[row as int], trace@[1]@[row as int]),
                    ),
                ]
            } else {
                r@.len() == 0
            },
            self.spec_type() == AirType::Range ==> r@.len() == 0,
    {
        let mut constraints: Vec<u64> = Vec::new();
        match self.air_type {
            AirType::Fibonacci => {
                if row < trace[0].len() && trace[0].len() - row > 2 {
                    let expected = gl_add(trace[0][row], trace[0][row + 1]);
                    constraints.push(gl_sub(trace[0][row + 2], expected));
                }
            },
            AirType::Sum => {
                if trace.len() >= 3 && row < trace[0].len() {
                    let expected = gl_add(trace[0][row], trace[1][row]);
                    constraints.push(gl_sub(trace[2][row], expected));
                }
            },
            AirType::Multiplication => {
                if trace.len() >= 3 && row < trace[0].len() {
                    let expected = gl_mul(trace[0][row], trace[1][row]);
                    constraints.push(gl_sub(trace[2][row], expected));
                }
            },
            AirType::Range => {},
        }
        assert(constraints@.len() <= 1);
        constraints
    }
}

/// A single-column trace `t` with `t[0], t[1]` given and
/// `t[i] = t[i-2] + t[i-1]` in the field; the length must be a power of two, at least 2.
pub fn build_fibonacci_trace(length: usize, initial: [u64; 2]) -> (r: Result<Vec<Vec<FieldElement>>>)
    ensures
        (is_pow2(length as nat) && length >= 2) <==> r is Ok,
        r is Err ==> r->Err_0 is InvalidWitness,
        r is Ok ==> {
            let t = r->Ok_0@;
            &&& t.len() == 1
            &&& t[0]@.len() == length
            &&& t[0]@[0] == initial[0]
            &&& t[0]@[1] == initial[1]
            &&& forall|i: int| 2 <= i < length ==> #[trigger] t[0]@[i] == field_add(t[0]@[i - 2], t[0]@[i - 1])
        },
{
    if !is_power_of_two(length) {
        return Err(ZKMTDError::InvalidWitness { reason: "Trace length must be a power of 2".to_owned() });
    }
    if length < 2 {
        return Err(ZKMTDError::InvalidWitness { reason: "Trace length must be at least 2".to_owned() });
    }
    let mut col: Vec<u64> = Vec::new();
    col.push(initial[0]);
    col.push(initial[1]);
    let mut i: usize = 2;
    while i < length
        invariant
            2 <= i <= length,
            col@.len() == i,
            col@[0] == initial[0],
            col@[1] == initial[1],
            forall|k: int| 2 <= k < i ==> #[trigger] col@[k] == field_add(col@[k - 2], col@[k - 1]),
        decreases length - i,
    {
        let next = gl_add(col[i - 2], col[i - 1]);
        col.push(next);
        i = i + 1;
    }
    let mut trace: Vec<Vec<u64>> = Vec::new();
    trace.push(col);
    Ok(trace)
}

/// `(F(n-1), F(n))` in the Goldilocks field, for `n >= 1`.
pub fn fibonacci_pair(n: usize) -> (r: (u64, u64))
    requires
        n >= 1,
    ensures
        r.0 == fib_mod((n - 1) as nat),
        r.1 == fib_mod(n as nat),
        r.0 < GOLDILOCKS_ORDER,
        r.1 < GOLDILOCKS_ORDER,
{
    let mut a: u64 = 0;
    let mut b: u64 = 1;
    let mut i: usize = 1;
    while i < n
        invariant
            1 <= i <= n,
            a == fib_mod((i - 1) as nat),
            b == fib_mod(i as nat),
            a < GOLDILOCKS_ORDER,
            b < GOLDILOCKS_ORDER,
        decreases n - i,
    {
        let c = field_add_exec(a, b);
        a = b;
        b = c;
        i = i + 1;
    }
    (a, b)
}

/// The two-column Goldilocks Fibonacci trace, row-major: row `i` is
/// `(F(i), F(i+1))`. The number of rows must be a power of two, at least 2.
pub fn build_fibonacci_rows(num_rows: usize) -> (r: Result<Vec<FieldElement>>)
    ensures
        (is_pow2(num_rows as nat) && num_rows >= 2) <==> r is Ok,
        r is Err ==> r->Err_0 is InvalidWitness,
        r is Ok ==> {
            &&& r->Ok_0@.len() == 2 * num_rows
            &&& forall|i: int| 0 <= i < num_rows ==> r->Ok_0@[2 * i] == #[trigger] fib_mod(i as nat) && r->Ok_0@[2 * i + 1] == fib_mod((i + 1) as nat)
        },
{
    if !is_power_of_two(num_rows) {
        return Err(ZKMTDError::InvalidWitness { reason: "Row count must be a power of two".to_owned() });
    }
    if num_rows < 2 {
        return Err(ZKMTDError::InvalidWitness { reason: "Minimum 2 rows required".to_owned() });
    }
    let mut values: Vec<u64> = Vec::new();
    let mut a: u64 = 0;
    let mut b: u64 = 1;
    let mut i: usize = 0;
    while i < num_rows
        invariant
            i <= num_rows,
            values@.len() == 2 * i,
            a == fib_mod(i as nat),
            b == fib_mod((i + 1) as nat),
            a < GOLDILOCKS_ORDER,
            b < GOLDILOCKS_ORDER,
            forall|k: int| 0 <= k < i ==> values@[2 * k] == #[trigger] fib_mod(k as nat) && values@[2 * k + 1] == fib_mod((k + 1) as nat),
        decreases num_rows - i,
    {
        let ghost prev = values@;
        values.push(a);
        values.push(b);
        proof {
            assert forall|k: int| 0 <= k < i + 1 implies values@[2 * k] == #[trigger] fib_mod(
                k as nat,
            ) && values@[2 * k + 1] == fib_mod((k + 1) as nat) by {
                if k < i {
                    assert(values@[2 * k] == prev[2 * k]);
                    assert(values@[2 * k + 1] == prev[2 * k + 1]);
                }
            }
        }
        let c = field_add_exec(a, b);
        assert(c == fib_mod((i + 2) as nat));
        a = b;
        b = c;
        i = i + 1;
    }
    Ok(values)
}

fn field_column(a: &Vec<u64>, b: &Vec<u64>, multiply: bool) -> (r: Vec<u64>)
    requires
        a@.len() == b@.len(),
    ensures
        r@.len() == a@.len(),
        forall|i: int| 0 <= i < a@.len() ==> #[trigger] r@[i] == if multiply {
            field_mul(a@[i], b@[i])
        } else {
            field_add(a@[i], b@[i])
        },
{
    let mut out: Vec<u64> = Vec::new();
    let mut i: usize = 0;
    while i < a.len()
        invariant
            a@.len() == b@.len(),
            i <= a@.len(),
            out@.len() == i,
            forall|k: int| 0 <= k < i ==> #[trigger] out@[k] == if multiply {
                field_mul(a@[k], b@[k])
            } else {
                field_add(a@[k], b@[k])
            },
        decreases a@.len() - i,
    {
        let v = if multiply {
            gl_mul(a[i], b[i])
        } else {
            gl_add(a[i], b[i])
        };
        out.push(v);
        i = i + 1;
    }
    out
}

/// Columns `[a, b, a + b]` (field addition); fails when `a` and `b` differ in length.
pub fn build_sum_trace(a_values: Vec<u64>, b_values: Vec<u64>) -> (r: Result<Vec<Vec<FieldElement>>>)
    ensures
        a_values@.len() == b_values@.len() <==> r is Ok,
        r is Err ==> r->Err_0 is InvalidWitness,
        r is Ok ==> {
            let t = r->Ok_0@;
            &&& t.len() == 3
            &&& t[0]@ == a_values@
            &&& t[1]@ == b_values@
            &&& t[2]@.len() == a_values@.len()
            &&& forall|i: int| 0 <= i < a_values@.len() ==> #[trigger] t[2]@[i] == field_add(a_values@[i], b_values@[i])
        },
{
    if a_values.len() != b_values.len() {
        return Err(ZKMTDError::InvalidWitness { reason: "Array lengths do not match".to_owned() });
    }
    let c = field_column(&a_values, &b_values, false);
    let mut t: Vec<Vec<u64>> = Vec::new();
    t.push(a_values);
    t.push(b_values);
    t.push(c);
    Ok(t)
}

/// Columns `[a, b, a · b]` (field multiplication); fails when `a` and `b` differ in length.
pub fn build_multiplication_trace(a_values: Vec<u64>, b_values: Vec<u64>) -> (r: Result<Vec<Vec<FieldElement>>>)
    ensures
        a_values@.len() == b_values@.len() <==> r is Ok,
        r is Err ==> r->Err_0 is InvalidWitness,
        r is Ok ==> {
            let t = r->Ok_0@;
            &&& t.len() == 3
            &&& t[0]@ == a_values@
            &&& t[1]@ == b_values@
            &&& t[2]@.len() == a_values@.len()
            &&& forall|i: int| 0 <= i < a_values@.len() ==> #[trigger] t[2]@[i] == field_mul(a_values@[i], b_values@[i])
        },
{
    if a_values.len() != b_values.len() {
        return Err(ZKMTDError::InvalidWitness { reason: "Array lengths do not match".to_owned() });
    }
    let c = field_column(&a_values, &b_values, true);
    let mut t: Vec<Vec<u64>> = Vec::new();
    t.push(a_values);
    t.push(b_values);
    t.push(c);
    Ok(t)
}

} // verus!
