//! The tagged runtime value and the bounded execution stack.

use vstd::prelude::*;
use vstd::string::*;
use crate::RuntimeError;
use crate::AbsErr;

verus! {

/// A tagged runtime value flowing through the operand stack.
#[derive(Debug, Clone, PartialEq)]
pub enum StackValue {
    Integer(i64),
    String(String),
    Bool(bool),
    Unit,
    /// Reference to a heap cell of the memory arena.
    Ref(u32),
}

/// The mathematical model of a stack value.
pub ghost enum AbsValue {
    Integer(i64),
    Str(Seq<char>),
    Bool(bool),
    Unit,
    Ref(u32),
}

impl View for StackValue {
    type V = AbsValue;

    open spec fn view(&self) -> AbsValue {
        match self {
            StackValue::Integer(i) => AbsValue::Integer(*i),
            StackValue::String(s) => AbsValue::Str(s@),
            StackValue::Bool(b) => AbsValue::Bool(*b),
            StackValue::Unit => AbsValue::Unit,
            StackValue::Ref(r) => AbsValue::Ref(*r),
        }
    }
}

/// The name of a value's kind, used in type-mismatch reports.
pub open spec fn kind_name(v: AbsValue) -> Seq<char> {
    match v {
        AbsValue::Integer(_) => "integer"@,
        AbsValue::Str(_) => "string"@,
        AbsValue::Bool(_) => "bool"@,
        AbsValue::Unit => "unit"@,
        AbsValue::Ref(_) => "ref"@,
    }
}

/// The model of a value operation's result.
pub type AbsValueResult = Result<AbsValue, AbsErr>;

/// The model of a `Result` over stack values.
pub open spec fn res_view(r: Result<StackValue, RuntimeError>) -> AbsValueResult {
    match r {
        Ok(v) => Ok(v@),
        Err(e) => Err(e@),
    }
}

/// A type-mismatch failure naming the expected and the found kind.
pub open spec fn mismatch(expected: Seq<char>, found: Seq<char>) -> AbsErr {
    AbsErr::TypeMismatch { expected, found }
}

/// What `add` returns: integer addition wraps at 64 bits, string addition
/// concatenates, and every other pairing is a type mismatch.
pub open spec fn spec_add(a: AbsValue, b: AbsValue) -> AbsValueResult {
    match (a, b) {
        (AbsValue::Integer(x), AbsValue::Integer(y)) => Ok(
            AbsValue::Integer(vstd::wrapping::i64_specs::wrapping_add(x, y)),
        ),
        (AbsValue::Str(x), AbsValue::Str(y)) => Ok(AbsValue::Str(x + y)),
        _ => Err(mismatch("compatible types"@, "incompatible types"@)),
    }
}

/// What `sub` returns: integer subtraction wraps at 64 bits; anything else
/// is a type mismatch.
pub open spec fn spec_sub(a: AbsValue, b: AbsValue) -> AbsValueResult {
    match (a, b) {
        (AbsValue::Integer(x), AbsValue::Integer(y)) => Ok(
            AbsValue::Integer(vstd::wrapping::i64_specs::wrapping_sub(x, y)),
        ),
        _ => Err(mismatch("numeric"@, "non-numeric"@)),
    }
}

/// What `mul` returns: integer multiplication wraps at 64 bits; anything
/// else is a type mismatch.
pub open spec fn spec_mul(a: AbsValue, b: AbsValue) -> AbsValueResult {
    match (a, b) {
        (AbsValue::Integer(x), AbsValue::Integer(y)) => Ok(
            AbsValue::Integer(vstd::wrapping::i64_specs::wrapping_mul(x, y)),
        ),
        _ => Err(mismatch("numeric"@, "non-numeric"@)),
    }
}

/// Truncating 64-bit integer division, as an unbounded integer.
pub open spec fn trunc_div_i64(a: i64, b: i64) -> int
    recommends
        b != 0,
{
    let x = a as int;
    let d = b as int;
    if x == 0 {
        0
    } else if x > 0 && d > 0 {
        x / d
    } else if x < 0 && d < 0 {
        (x * -1) / (d * -1)
    } else if x < 0 {
        ((x * -1) / d) * -1
    } else {
        (x / (d * -1)) * -1
    }
}

/// The truncating quotient fits in 64 bits except for `i64::MIN / -1`.
pub proof fn lemma_trunc_div_range(a: i64, b: i64)
    requires
        b != 0,
    ensures
        (i64::MIN <= trunc_div_i64(a, b) <= i64::MAX) <==> !(a == i64::MIN && b == -1),
{
    let x = a as int;
    let d = b as int;
    if x != 0 {
        let xa = if x < 0 { x * -1 } else { x };
        let xd = if d < 0 { d * -1 } else { d };
        vstd::arithmetic::div_mod::lemma_div_pos_is_pos(xa, xd);
        vstd::arithmetic::div_mod::lemma_div_nonincreasing(xa, xd);
        vstd::arithmetic::div_mod::lemma_div_basics(xa);
        if xd > 1 {
            vstd::arithmetic::div_mod::lemma_div_decreases(xa, xd);
        }
    }
}

/// What `div` returns: division by a zero integer fails with
/// `DivisionByZero`; otherwise the truncating quotient, which wraps to
/// `i64::MIN` in the one unrepresentable case `i64::MIN / -1`; any
/// non-integer pairing is a type mismatch.
pub open spec fn spec_div(a: AbsValue, b: AbsValue) -> AbsValueResult {
    match (a, b) {
        (AbsValue::Integer(x), AbsValue::Integer(y)) => if y == 0 {
            Err(AbsErr::DivisionByZero)
        } else if x == i64::MIN && y == -1 {
            Ok(AbsValue::Integer(i64::MIN))
        } else {
            Ok(AbsValue::Integer(trunc_div_i64(x, y) as i64))
        },
        _ => Err(mismatch("numeric"@, "non-numeric"@)),
    }
}

/// The display form of a value, as printed by the engine: integers in
/// decimal, strings quoted, booleans as `true`/`false`, unit as `()` and
/// references as `ref(address)`.
pub open spec fn display_chars(v: AbsValue) -> Seq<char> {
    match v {
        AbsValue::Integer(i) => crate::text::dec_chars_int(i as int),
        AbsValue::Str(s) => seq!['"'] + s + seq!['"'],
        AbsValue::Bool(b) => if b { "true"@ } else { "false"@ },
        AbsValue::Unit => "()"@,
        AbsValue::Ref(r) => "ref("@ + crate::text::dec_chars(r as nat) + ")"@,
    }
}

impl StackValue {
    /// Renders the value in its display form.
    pub fn display_string(&self) -> (r: String)
        ensures
            r@ == display_chars(self@),
    {
        let mut s = String::new();
        match self {
            StackValue::Integer(i) => {
                crate::text::push_dec_i64(&mut s, *i);
            },
            StackValue::String(v) => {
                crate::text::push_char(&mut s, '"');
                s.append(v.as_str());
                crate::text::push_char(&mut s, '"');
            },
            StackValue::Bool(b) => {
                if *b {
                    s.append("true");
                } else {
                    s.append("false");
                }
            },
            StackValue::Unit => {
                s.append("()");
            },
            StackValue::Ref(r) => {
                s.append("ref(");
                crate::text::push_dec_u64(&mut s, *r as u64);
                s.append(")");
            },
        }
        assert(s@ =~= display_chars(self@));
        s
    }

    /// A copy of the value whose model is the same.
    pub fn duplicate(&self) -> (r: StackValue)
        ensures
            r@ == self@,
    {
        match self {
            StackValue::Integer(i) => StackValue::Integer(*i),
            StackValue::String(s) => StackValue::String(s.clone()),
            StackValue::Bool(b) => StackValue::Bool(*b),
            StackValue::Unit => StackValue::Unit,
            StackValue::Ref(r) => StackValue::Ref(*r),
        }
    }

    /// The integer carried by the value, or a type mismatch naming the kinds.
    pub fn as_integer(&self) -> (r: Result<i64, RuntimeError>)
        ensures
            match r {
                Ok(i) => self@ == AbsValue::Integer(i),
                Err(e) => !(self@ is Integer) && e@ == mismatch("integer"@, kind_name(self@)),
            },
    {
        match self {
            StackValue::Integer(i) => Ok(*i),
            _ => Err(
                RuntimeError::TypeMismatch {
                    expected: self.str_to_string("integer"),
                    found: self.kind_string(),
                },
            ),
        }
    }

    /// The boolean carried by the value, or a type mismatch naming the kinds.
    pub fn as_bool(&self) -> (r: Result<bool, RuntimeError>)
        ensures
            match r {
                Ok(b) => self@ == AbsValue::Bool(b),
                Err(e) => !(self@ is Bool) && e@ == mismatch("bool"@, kind_name(self@)),
            },
    {
        match self {
            StackValue::Bool(b) => Ok(*b),
            _ => Err(
                RuntimeError::TypeMismatch {
                    expected: self.str_to_string("bool"),
                    found: self.kind_string(),
                },
            ),
        }
    }

    /// The string carried by the value, or a type mismatch naming the kinds.
    pub fn as_string(&self) -> (r: Result<String, RuntimeError>)
        ensures
            match r {
                Ok(s) => self@ == AbsValue::Str(s@),
                Err(e) => !(self@ is Str) && e@ == mismatch("string"@, kind_name(self@)),
            },
    {
        match self {
            StackValue::String(s) => Ok(s.clone()),
            _ => Err(
                RuntimeError::TypeMismatch {
                    expected: self.str_to_string("string"),
                    found: self.kind_string(),
                },
            ),
        }
    }

    fn str_to_string(&self, s: &str) -> (r: String)
        ensures
            r@ == s@,
    {
        String::from_str(s)
    }

    /// The name of the value's kind.
    pub fn kind_string(&self) -> (r: String)
        ensures
            r@ == kind_name(self@),
    {
        match self {
            StackValue::Integer(_) => String::from_str("integer"),
            StackValue::String(_) => String::from_str("string"),
            StackValue::Bool(_) => String::from_str("bool"),
            StackValue::Unit => String::from_str("unit"),
            StackValue::Ref(_) => String::from_str("ref"),
        }
    }

    fn mismatch_err(expected: &str, found: &str) -> (r: RuntimeError)
        ensures
            r@ == mismatch(expected@, found@),
    {
        RuntimeError::TypeMismatch {
            expected: String::from_str(expected),
            found: String::from_str(found),
        }
    }

    /// Adds two values: integers wrap at 64 bits, strings concatenate, and
    /// every other pairing fails with a type mismatch.
    pub fn add(self, other: StackValue) -> (r: Result<StackValue, RuntimeError>)
        ensures
            res_view(r) == spec_add(self@, other@),
    {
        match (self, other) {
            (StackValue::Integer(a), StackValue::Integer(b)) => Ok(
                StackValue::Integer(a.wrapping_add(b)),
            ),
            (StackValue::String(a), StackValue::String(b)) => Ok(
                StackValue::String(a.concat(b.as_str())),
            ),
            _ => Err(StackValue::mismatch_err("compatible types", "incompatible types")),
        }
    }

    /// Subtracts two values: integers wrap at 64 bits; anything else fails
    /// with a type mismatch.
    pub fn sub(self, other: StackValue) -> (r: Result<StackValue, RuntimeError>)
        ensures
            res_view(r) == spec_sub(self@, other@),
    {
        match (self, other) {
            (StackValue::Integer(a), StackValue::Integer(b)) => Ok(
                StackValue::Integer(a.wrapping_sub(b)),
            ),
            _ => Err(StackValue::mismatch_err("numeric", "non-numeric")),
        }
    }

    /// Multiplies two values: integers wrap at 64 bits; anything else fails
    /// with a type mismatch.
    pub fn mul(self, other: StackValue) -> (r: Result<StackValue, RuntimeError>)
        ensures
            res_view(r) == spec_mul(self@, other@),
    {
        match (self, other) {
            (StackValue::Integer(a), StackValue::Integer(b)) => Ok(
                StackValue::Integer(a.wrapping_mul(b)),
            ),
            _ => Err(StackValue::mismatch_err("numeric", "non-numeric")),
        }
    }

    /// Divides two values. Division by a zero integer fails with
    /// `DivisionByZero`; otherwise the result is the truncating quotient
    /// (`i64::MIN / -1` wraps to `i64::MIN`); any non-integer pairing fails
    /// with a type mismatch.
    pub fn div(self, other: StackValue) -> (r: Result<StackValue, RuntimeError>)
        ensures
            res_view(r) == spec_div(self@, other@),
    {
        match (self, other) {
            (StackValue::Integer(a), StackValue::Integer(b)) => {
                if b == 0 {
                    Err(RuntimeError::DivisionByZero)
                } else {
                    proof {
                        lemma_trunc_div_range(a, b);
                    }
                    match a.checked_div(b) {
                        Some(q) => Ok(StackValue::Integer(q)),
                        None => Ok(StackValue::Integer(i64::MIN)),
                    }
                }
            },
            _ => Err(StackValue::mismatch_err("numeric", "non-numeric")),
        }
    }
}

/// What `push` returns: on success the value goes on top; once the length
/// has reached the capacity, a `StackOverflow` failure and the stack is
/// unchanged.
pub open spec fn spec_push(stack: Seq<AbsValue>, cap: nat, v: AbsValue) -> (Seq<AbsValue>, Result<
    (),
    AbsErr,
>) {
    if stack.len() < cap {
        (stack.push(v), Ok(()))
    } else {
        (stack, Err(AbsErr::StackOverflow))
    }
}

/// What `pop` returns: the top value, consumed; on an empty stack a
/// `StackUnderflow` failure.
pub open spec fn spec_pop(stack: Seq<AbsValue>) -> (Seq<AbsValue>, Result<AbsValue, AbsErr>) {
    if stack.len() > 0 {
        (stack.drop_last(), Ok(stack.last()))
    } else {
        (stack, Err(AbsErr::StackUnderflow))
    }
}

/// The bounded execution stack: a last-in-first-out sequence of values whose
/// length never exceeds its fixed capacity.
pub struct Stack {
    values: Vec<StackValue>,
    max_size: usize,
}

impl View for Stack {
    type V = Seq<AbsValue>;

    closed spec fn view(&self) -> Seq<AbsValue> {
        self.values@.map_values(|v: StackValue| v@)
    }
}

impl Stack {
    /// The configured capacity.
    pub closed spec fn capacity(&self) -> nat {
        self.max_size as nat
    }

    /// A fresh, empty stack of the given capacity.
    pub fn new(max_size: usize) -> (s: Stack)
        ensures
            s@ =~= Seq::<AbsValue>::empty(),
            s.capacity() == max_size,
    {
        Stack { values: Vec::new(), max_size }
    }

    /// Pushes a value; fails with `StackOverflow` once the length has
    /// reached the capacity, leaving the stack unchanged.
    pub fn push(&mut self, value: StackValue) -> (r: Result<(), RuntimeError>)
        ensures
            final(self).capacity() == old(self).capacity(),
            ({
                let (s, sr) = spec_push(old(self)@, old(self).capacity(), value@);
                &&& final(self)@ =~= s
                &&& match r {
                    Ok(_) => sr is Ok,
                    Err(e) => sr == Err::<(), AbsErr>(e@) && e is StackOverflow,
                }
            }),
    {
        if self.values.len() >= self.max_size {
            return Err(RuntimeError::StackOverflow);
        }
        self.values.push(value);
        proof {
            assert(self@ =~= old(self)@.push(value@));
        }
        Ok(())
    }

    /// Pops the top value; fails with `StackUnderflow` on an empty stack.
    pub fn pop(&mut self) -> (r: Result<StackValue, RuntimeError>)
        ensures
            final(self).capacity() == old(self).capacity(),
            ({
                let (s, sr) = spec_pop(old(self)@);
                &&& final(self)@ =~= s
                &&& res_view(r) == sr
            }),
    {
        match self.values.pop() {
            Some(v) => {
                proof {
                    assert(self@ =~= old(self)@.drop_last());
                }
                Ok(v)
            },
            None => Err(RuntimeError::StackUnderflow),
        }
    }

    /// Looks at the value `offset` places below the top without consuming
    /// it; fails with `StackUnderflow` when that would index before the
    /// start.
    pub fn peek(&self, offset: usize) -> (r: Result<&StackValue, RuntimeError>)
        ensures
            match r {
                Ok(v) => offset < self@.len() && v@ == self@[self@.len() - 1 - offset],
                Err(e) => offset >= self@.len() && e is StackUnderflow,
            },
    {
        if offset < self.values.len() {
            Ok(&self.values[self.values.len() - 1 - offset])
        } else {
            Err(RuntimeError::StackUnderflow)
        }
    }

    /// The number of values on the stack.
    pub fn len(&self) -> (n: usize)
        ensures
            n == self@.len(),
    {
        self.values.len()
    }

    /// Whether the stack holds no values.
    pub fn is_empty(&self) -> (r: bool)
        ensures
            r == (self@.len() == 0),
    {
        self.values.len() == 0
    }

    /// Removes every value.
    pub fn clear(&mut self)
        ensures
            final(self)@ =~= Seq::<AbsValue>::empty(),
            final(self).capacity() == old(self).capacity(),
    {
        self.values.clear();
    }
}

/// The results of a sequence of pushes, performed in order.
pub open spec fn spec_push_all(stack: Seq<AbsValue>, cap: nat, vs: Seq<AbsValue>) -> (Seq<
    AbsValue,
>, Seq<Result<(), AbsErr>>)
    decreases vs.len(),
{
    if vs.len() == 0 {
        (stack, Seq::empty())
    } else {
        let (s1, r1) = spec_push(stack, cap, vs[0]);
        let (s2, rs) = spec_push_all(s1, cap, vs.drop_first());
        (s2, seq![r1] + rs)
    }
}

/// Law: onto a fresh stack of capacity `n`, the first `n` pushes all
/// succeed and the `(n + 1)`th fails with `StackOverflow`; popping from an
/// empty stack fails with `StackUnderflow`.
pub proof fn lemma_stack_capacity(n: nat, vs: Seq<AbsValue>)
    requires
        vs.len() == n + 1,
    ensures
        ({
            let (s, rs) = spec_push_all(Seq::empty(), n, vs);
            &&& rs.len() == n + 1
            &&& forall|i: int| 0 <= i < n ==> rs[i] == Ok::<(), AbsErr>(())
            &&& rs[n as int] == Err::<(), AbsErr>(AbsErr::StackOverflow)
        }),
        spec_pop(Seq::empty()).1 == Err::<AbsValue, AbsErr>(AbsErr::StackUnderflow),
{
    lemma_stack_fill(Seq::empty(), n, vs);
}

/// Generalisation of the capacity law to a stack already holding values.
proof fn lemma_stack_fill(stack: Seq<AbsValue>, cap: nat, vs: Seq<AbsValue>)
    requires
        stack.len() + vs.len() == cap + 1,
    ensures
        ({
            let (s, rs) = spec_push_all(stack, cap, vs);
            &&& rs.len() == vs.len()
            &&& forall|i: int| 0 <= i < vs.len() - 1 ==> rs[i] == Ok::<(), AbsErr>(())
            &&& vs.len() >= 1 ==> rs[vs.len() - 1] == Err::<(), AbsErr>(AbsErr::StackOverflow)
        }),
    decreases vs.len(),
{
    if vs.len() == 0 {
        return;
    }
    let (s1, r1) = spec_push(stack, cap, vs[0]);
    let (s2, rs2) = spec_push_all(s1, cap, vs.drop_first());
    let rs = seq![r1] + rs2;
    assert(spec_push_all(stack, cap, vs).1 == rs);
    if vs.len() == 1 {
        assert(stack.len() == cap);
        assert(rs[0] == r1);
    } else {
        assert(stack.len() < cap);
        lemma_stack_fill(s1, cap, vs.drop_first());
        assert(rs[0] == r1);
        assert(forall|i: int| 1 <= i < vs.len() ==> #[trigger] rs[i] == rs2[i - 1]);
        assert(forall|i: int|
            1 <= i < vs.len() - 1 ==> #[trigger] rs2[i - 1] == Ok::<(), AbsErr>(()));
    }
}

} // verus!
