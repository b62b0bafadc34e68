//! The execution engine: the fetch-decode-execute loop over a bytecode
//! container, driven by a program counter and a cooperative step budget.
//!
//! The loop is verified against a small-step interpreter written as spec
//! functions: `spec_step` gives the meaning of one dispatched instruction,
//! and `spec_run` iterates it under a fuel bound.

use vstd::prelude::*;
use vstd::string::*;
use crate::{AbsErr, AbsResult, ExecutionResult, RuntimeConfig, RuntimeError, err_message};
use crate::bytecode::{AbsConst, Bytecode, Instruction, OpKind};
use crate::stack::{
    AbsValue, Stack, StackValue, display_chars, mismatch, res_view, spec_add, spec_div, spec_mul,
    spec_sub,
};
use crate::stdlib::StdLib;
use crate::text::{dec_chars, push_dec_u64};

verus! {

/// The machine-readable code of a runtime failure: the fixed mapping of the
/// Debug State Object protocol.
pub open spec fn error_code_chars(e: AbsErr) -> Seq<char> {
    match e {
        AbsErr::DivisionByZero => "DIVISION_BY_ZERO"@,
        AbsErr::IndexOutOfBounds { .. } => "INDEX_OUT_OF_BOUNDS"@,
        AbsErr::StackOverflow => "STACK_OVERFLOW"@,
        AbsErr::StackUnderflow => "STACK_UNDERFLOW"@,
        AbsErr::MaxStepsExceeded => "MAX_STEPS_EXCEEDED"@,
        AbsErr::ConstraintViolation(_) => "CONSTRAINT_VIOLATION"@,
        _ => "RUNTIME_ERROR"@,
    }
}

/// Maps a runtime failure to its stable machine-readable code.
pub fn error_code(e: &RuntimeError) -> (r: String)
    ensures
        r@ == error_code_chars(e@),
{
    match e {
        RuntimeError::DivisionByZero => String::from_str("DIVISION_BY_ZERO"),
        RuntimeError::IndexOutOfBounds { .. } => String::from_str("INDEX_OUT_OF_BOUNDS"),
        RuntimeError::StackOverflow => String::from_str("STACK_OVERFLOW"),
        RuntimeError::StackUnderflow => String::from_str("STACK_UNDERFLOW"),
        RuntimeError::MaxStepsExceeded => String::from_str("MAX_STEPS_EXCEEDED"),
        RuntimeError::ConstraintViolation(_) => String::from_str("CONSTRAINT_VIOLATION"),
        _ => String::from_str("RUNTIME_ERROR"),
    }
}

/// The state of a run between two dispatched instructions.
pub ghost struct AbsState {
    pub pc: nat,
    pub stack: Seq<AbsValue>,
    pub output: Seq<Seq<char>>,
}

/// What one dispatched instruction does: continue in a new state, halt with
/// a value, or fail.
pub ghost enum StepResult {
    Next(AbsState),
    Halt(AbsValue),
    Fail(AbsErr),
}

/// The value a constant denotes.
pub open spec fn const_value(c: AbsConst) -> AbsValue {
    match c {
        AbsConst::Integer(i) => AbsValue::Integer(i),
        AbsConst::Str(s) => AbsValue::Str(s),
        AbsConst::Bool(b) => AbsValue::Bool(b),
        AbsConst::Unit => AbsValue::Unit,
    }
}

/// Whether an operation is a binary operation the engine dispatches through
/// the value model.
pub open spec fn is_binop(op: OpKind) -> bool {
    match op {
        OpKind::Add | OpKind::Sub | OpKind::Mul | OpKind::Div | OpKind::Eq | OpKind::NotEq
            | OpKind::Less | OpKind::LessEq | OpKind::Greater | OpKind::GreaterEq | OpKind::And
            | OpKind::Or => true,
        _ => false,
    }
}

/// Equality between two values: defined only within a kind; a cross-kind
/// comparison is a type mismatch.
pub open spec fn spec_eq_values(a: AbsValue, b: AbsValue) -> Result<bool, AbsErr> {
    match (a, b) {
        (AbsValue::Integer(x), AbsValue::Integer(y)) => Ok(x == y),
        (AbsValue::Str(x), AbsValue::Str(y)) => Ok(x == y),
        (AbsValue::Bool(x), AbsValue::Bool(y)) => Ok(x == y),
        (AbsValue::Unit, AbsValue::Unit) => Ok(true),
        (AbsValue::Ref(x), AbsValue::Ref(y)) => Ok(x == y),
        _ => Err(mismatch("compatible types"@, "incompatible types"@)),
    }
}

/// What a binary operation returns on two popped operands.
pub open spec fn bin_result(op: OpKind, a: AbsValue, b: AbsValue) -> Result<AbsValue, AbsErr> {
    match op {
        OpKind::Add => spec_add(a, b),
        OpKind::Sub => spec_sub(a, b),
        OpKind::Mul => spec_mul(a, b),
        OpKind::Div => spec_div(a, b),
        OpKind::Eq => match spec_eq_values(a, b) {
            Ok(r) => Ok(AbsValue::Bool(r)),
            Err(e) => Err(e),
        },
        OpKind::NotEq => match spec_eq_values(a, b) {
            Ok(r) => Ok(AbsValue::Bool(!r)),
            Err(e) => Err(e),
        },
        OpKind::Less | OpKind::LessEq | OpKind::Greater | OpKind::GreaterEq => match (a, b) {
            (AbsValue::Integer(x), AbsValue::Integer(y)) => Ok(
                AbsValue::Bool(
                    match op {
                        OpKind::Less => x < y,
                        OpKind::LessEq => x <= y,
                        OpKind::Greater => x > y,
                        _ => x >= y,
                    },
                ),
            ),
            _ => Err(mismatch("numeric"@, "non-numeric"@)),
        },
        OpKind::And | OpKind::Or => match (a, b) {
            (AbsValue::Bool(x), AbsValue::Bool(y)) => Ok(
                AbsValue::Bool(if op is And { x && y } else { x || y }),
            ),
            _ => Err(mismatch("bool"@, "non-bool"@)),
        },
        _ => Err(AbsErr::InvalidOperation("unsupported opcode"@)),
    }
}

/// The meaning of one dispatched instruction in state `st`: the closed,
/// exhaustive dispatch table of the engine. Operations the engine does not
/// yet give a meaning fail with `InvalidOperation` rather than silently
/// doing nothing.
pub open spec fn spec_step(
    prog: Seq<Instruction>,
    consts: Seq<AbsConst>,
    cap: nat,
    st: AbsState,
) -> StepResult
    recommends
        st.pc < prog.len(),
{
    let op = prog[st.pc as int].op;
    let len = st.stack.len();
    match op {
        OpKind::Nop => StepResult::Next(AbsState { pc: st.pc + 1, ..st }),
        OpKind::Const(idx) => if idx < consts.len() {
            if len < cap {
                StepResult::Next(
                    AbsState {
                        pc: st.pc + 1,
                        stack: st.stack.push(const_value(consts[idx as int])),
                        ..st
                    },
                )
            } else {
                StepResult::Fail(AbsErr::StackOverflow)
            }
        } else {
            StepResult::Fail(AbsErr::InvalidOperation("constant index out of bounds"@))
        },
        OpKind::Drop => if len >= 1 {
            StepResult::Next(AbsState { pc: st.pc + 1, stack: st.stack.drop_last(), ..st })
        } else {
            StepResult::Fail(AbsErr::StackUnderflow)
        },
        OpKind::Dup => if len >= 1 {
            if len < cap {
                StepResult::Next(
                    AbsState { pc: st.pc + 1, stack: st.stack.push(st.stack.last()), ..st },
                )
            } else {
                StepResult::Fail(AbsErr::StackOverflow)
            }
        } else {
            StepResult::Fail(AbsErr::StackUnderflow)
        },
        OpKind::Swap => if len >= 2 {
            StepResult::Next(
                AbsState {
                    pc: st.pc + 1,
                    stack: st.stack.take(len - 2).push(st.stack[len - 1]).push(
                        st.stack[len - 2],
                    ),
                    ..st
                },
            )
        } else {
            StepResult::Fail(AbsErr::StackUnderflow)
        },
        OpKind::Rot => if len >= 3 {
            StepResult::Next(
                AbsState {
                    pc: st.pc + 1,
                    stack: st.stack.take(len - 3).push(st.stack[len - 2]).push(
                        st.stack[len - 1],
                    ).push(st.stack[len - 3]),
                    ..st
                },
            )
        } else {
            StepResult::Fail(AbsErr::StackUnderflow)
        },
        OpKind::Add | OpKind::Sub | OpKind::Mul | OpKind::Div | OpKind::Eq | OpKind::NotEq
            | OpKind::Less | OpKind::LessEq | OpKind::Greater | OpKind::GreaterEq | OpKind::And
            | OpKind::Or => if len >= 2 {
            match bin_result(op, st.stack[len - 2], st.stack[len - 1]) {
                Ok(v) => StepResult::Next(
                    AbsState { pc: st.pc + 1, stack: st.stack.take(len - 2).push(v), ..st },
                ),
                Err(e) => StepResult::Fail(e),
            }
        } else {
            StepResult::Fail(AbsErr::StackUnderflow)
        },
        OpKind::Not => if len >= 1 {
            match st.stack[len - 1] {
                AbsValue::Bool(b) => StepResult::Next(
                    AbsState {
                        pc: st.pc + 1,
                        stack: st.stack.drop_last().push(AbsValue::Bool(!b)),
                        ..st
                    },
                ),
                _ => StepResult::Fail(mismatch("bool"@, "non-bool"@)),
            }
        } else {
            StepResult::Fail(AbsErr::StackUnderflow)
        },
        OpKind::Jump(t) => if t < prog.len() {
            StepResult::Next(AbsState { pc: t as nat, ..st })
        } else {
            StepResult::Fail(AbsErr::InvalidOperation("jump target out of bounds"@))
        },
        OpKind::Loop(t) => if t < prog.len() {
            StepResult::Next(AbsState { pc: t as nat, ..st })
        } else {
            StepResult::Fail(AbsErr::InvalidOperation("jump target out of bounds"@))
        },
        OpKind::Return => if len >= 1 {
            StepResult::Halt(st.stack.last())
        } else {
            StepResult::Halt(AbsValue::Unit)
        },
        OpKind::Print => if len >= 1 {
            StepResult::Next(
                AbsState {
                    pc: st.pc + 1,
                    stack: st.stack.drop_last(),
                    output: st.output.push(display_chars(st.stack.last())),
                },
            )
        } else {
            StepResult::Next(
                AbsState { pc: st.pc + 1, output: st.output.push(display_chars(AbsValue::Unit)), ..st },
            )
        },
        OpKind::Panic => if len >= 1 {
            match st.stack.last() {
                AbsValue::Str(m) => StepResult::Fail(AbsErr::Panic(m)),
                _ => StepResult::Fail(AbsErr::Panic("panic"@)),
            }
        } else {
            StepResult::Fail(AbsErr::Panic("panic"@))
        },
        _ => StepResult::Fail(AbsErr::InvalidOperation("unsupported opcode"@)),
    }
}

/// The location tag of a failure: `pc=` and the program counter.
pub open spec fn pc_location(pc: nat) -> Seq<char> {
    "pc="@ + dec_chars(pc)
}

/// The outcome of a failure at program counter `pc`.
pub open spec fn fail_result(e: AbsErr, pc: nat) -> AbsResult {
    AbsResult::Error {
        code: error_code_chars(e),
        message: err_message(e),
        location: Some(pc_location(pc)),
    }
}

/// The outcome of running from a state under a fuel bound.
pub ghost enum RunOutcome {
    /// The run halted by itself, with its result and everything it printed.
    Finished { result: AbsResult, output: Seq<Seq<char>> },
    /// The fuel ran out in the given state.
    OutOfFuel(AbsState),
}

/// Runs the machine from `st` for at most `fuel` dispatched instructions.
pub open spec fn spec_run(
    prog: Seq<Instruction>,
    consts: Seq<AbsConst>,
    cap: nat,
    st: AbsState,
    fuel: nat,
) -> RunOutcome
    decreases fuel,
{
    if st.pc >= prog.len() {
        RunOutcome::Finished { result: AbsResult::Unit, output: st.output }
    } else if fuel == 0 {
        RunOutcome::OutOfFuel(st)
    } else {
        match spec_step(prog, consts, cap, st) {
            StepResult::Next(st2) => spec_run(prog, consts, cap, st2, (fuel - 1) as nat),
            StepResult::Halt(v) => RunOutcome::Finished {
                result: AbsResult::Success(v),
                output: st.output,
            },
            StepResult::Fail(e) => RunOutcome::Finished {
                result: fail_result(e, st.pc),
                output: st.output,
            },
        }
    }
}

/// The initial state of a run: the caller's inputs pushed in reverse order,
/// so that the first input ends on top.
pub open spec fn init_state(inputs: Seq<AbsValue>) -> AbsState {
    AbsState { pc: 0, stack: inputs.reverse(), output: Seq::empty() }
}

/// The outcome of a run that exhausted its step budget `m`.
pub open spec fn budget_result(m: nat) -> AbsResult {
    AbsResult::Error {
        code: "MAX_STEPS_EXCEEDED"@,
        message: "exceeded maximum steps: "@ + dec_chars(m),
        location: None,
    }
}

/// The number of instructions a run may dispatch: the configured budget, or
/// the machine limit of `usize::MAX` when none is configured.
pub open spec fn effective_fuel(max_steps: Option<usize>) -> nat {
    match max_steps {
        Some(m) => m as nat,
        None => usize::MAX as nat,
    }
}

/// The result and printed output of one whole run: inputs that do not fit
/// on the stack fail at once with `StackOverflow`; otherwise the small-step
/// interpreter decides, and an exhausted budget reports
/// `MAX_STEPS_EXCEEDED`.
pub open spec fn spec_exec(
    prog: Seq<Instruction>,
    consts: Seq<AbsConst>,
    cap: nat,
    max_steps: Option<usize>,
    ivs: Seq<AbsValue>,
) -> (AbsResult, Seq<Seq<char>>) {
    if ivs.len() > cap {
        (
            AbsResult::Error {
                code: "STACK_OVERFLOW"@,
                message: err_message(AbsErr::StackOverflow),
                location: None,
            },
            Seq::empty(),
        )
    } else {
        let fuel = effective_fuel(max_steps);
        match spec_run(prog, consts, cap, init_state(ivs), fuel) {
            RunOutcome::Finished { result, output } => (result, output),
            RunOutcome::OutOfFuel(st) => (budget_result(fuel), st.output),
        }
    }
}

enum ControlFlow {
    Continue,
    Halt(StackValue),
}

/// The execution engine: a value stack, a step budget and the output it
/// printed. An execution context is created per `run` call: the stack and
/// the output start empty on every run.
pub struct Engine {
    stack: Stack,
    max_steps: Option<usize>,
    output: Vec<String>,
}

impl Engine {
    /// The capacity of the operand stack.
    pub closed spec fn stack_capacity(&self) -> nat {
        self.stack.capacity()
    }

    /// The configured step budget.
    pub closed spec fn spec_max_steps(&self) -> Option<usize> {
        self.max_steps
    }

    /// Everything the most recent run printed, in order.
    pub closed spec fn spec_output(&self) -> Seq<Seq<char>> {
        self.output@.map_values(|l: String| l@)
    }

    /// An engine configured by `config`, with the default stack capacity of
    /// 1024 values.
    pub fn new(config: RuntimeConfig) -> (e: Engine)
        ensures
            e.stack_capacity() == 1024,
            e.spec_max_steps() == config.max_steps,
            e.spec_output() =~= Seq::<Seq<char>>::empty(),
    {
        let e = Engine { stack: Stack::new(1024), max_steps: config.max_steps, output: Vec::new() };
        proof {
            assert(e.spec_output() =~= Seq::<Seq<char>>::empty());
        }
        e
    }

    /// Everything the most recent run printed, in order.
    pub fn output(&self) -> (r: &Vec<String>)
        ensures
            r@.map_values(|l: String| l@) == self.spec_output(),
    {
        &self.output
    }

    /// Runs a program with no inputs; see [`Engine::run_with_inputs`].
    pub fn run(&mut self, bytecode: &Bytecode, stdlib: &StdLib) -> (r: ExecutionResult)
        ensures
            final(self).stack_capacity() == old(self).stack_capacity(),
            final(self).spec_max_steps() == old(self).spec_max_steps(),
            ({
                let (res, out) = spec_exec(
                    bytecode.spec_instructions(),
                    bytecode.spec_constants(),
                    old(self).stack_capacity(),
                    old(self).spec_max_steps(),
                    Seq::empty(),
                );
                r@ == res && final(self).spec_output() == out
            }),
    {
        let inputs: Vec<StackValue> = Vec::new();
        let r = self.run_with_inputs(bytecode, inputs.as_slice(), stdlib);
        proof {
            assert(inputs@.map_values(|v: StackValue| v@) =~= Seq::<AbsValue>::empty());
        }
        r
    }

    /// Runs a program: pushes the inputs (in reverse order, so the first
    /// ends on top), then drives the fetch-decode-execute loop from
    /// program counter zero until it halts, fails, or exhausts the step
    /// budget. The result and everything printed are exactly what the
    /// small-step interpreter `spec_run` gives. The registry travels with
    /// the run interface; while no call instruction has a meaning, the
    /// engine does not yet consult it.
    pub fn run_with_inputs(
        &mut self,
        bytecode: &Bytecode,
        inputs: &[StackValue],
        stdlib: &StdLib,
    ) -> (r: ExecutionResult)
        ensures
            final(self).stack_capacity() == old(self).stack_capacity(),
            final(self).spec_max_steps() == old(self).spec_max_steps(),
            ({
                let (res, out) = spec_exec(
                    bytecode.spec_instructions(),
                    bytecode.spec_constants(),
                    old(self).stack_capacity(),
                    old(self).spec_max_steps(),
                    inputs@.map_values(|v: StackValue| v@),
                );
                r@ == res && final(self).spec_output() == out
            }),
    {
        let _ = stdlib;
        let ghost prog = bytecode.spec_instructions();
        let ghost consts = bytecode.spec_constants();
        let ghost cap = self.stack.capacity();
        let ghost ivs = inputs@.map_values(|v: StackValue| v@);

        self.stack.clear();
        self.output.clear();
        proof {
            assert(self.spec_output() =~= Seq::<Seq<char>>::empty());
        }

        // Push inputs in reverse order, so the first input ends on top.
        let mut i = inputs.len();
        while i > 0
            invariant
                i <= inputs.len(),
                ivs == inputs@.map_values(|v: StackValue| v@),
                self.stack.capacity() == cap,
                cap == old(self).stack_capacity(),
                self.max_steps == old(self).max_steps,
                self.spec_output() == Seq::<Seq<char>>::empty(),
                self.stack@ =~= ivs.skip(i as int).reverse(),
                self.stack@.len() == inputs.len() - i,
                self.stack@.len() <= cap,
            decreases i,
        {
            i = i - 1;
            let v = inputs[i].duplicate();
            let ghost before = self.stack@;
            match self.stack.push(v) {
                Ok(_) => {
                    proof {
                        assert(self.stack@ =~= before.push(ivs[i as int]));
                        assert(self.stack@ =~= ivs.skip(i as int).reverse());
                    }
                },
                Err(_) => {
                    proof {
                        assert(ivs.len() > cap);
                    }
                    return ExecutionResult::Error {
                        code: String::from_str("STACK_OVERFLOW"),
                        message: RuntimeError::StackOverflow.message(),
                        location: None,
                    };
                },
            }
        }
        proof {
            assert(ivs.skip(0) =~= ivs);
            assert(self.stack@ =~= ivs.reverse());
            assert(ivs.len() <= cap);
        }

        let ghost init = init_state(ivs);
        let budget: usize = match self.max_steps {
            Some(m) => m,
            None => usize::MAX,
        };
        let ghost fuel = effective_fuel(self.max_steps);
        let mut pc: usize = 0;
        let mut steps: usize = 0;
        let n = bytecode.instructions().len();
        proof {
            assert(n == prog.len());
            assert(budget as nat == fuel);
        }

        while pc < n
            invariant
                n == prog.len(),
                prog == bytecode.spec_instructions(),
                consts == bytecode.spec_constants(),
                cap == self.stack.capacity(),
                cap == old(self).stack_capacity(),
                self.max_steps == old(self).max_steps,
                budget as nat == fuel,
                fuel == effective_fuel(old(self).spec_max_steps()),
                steps <= budget,
                self.stack@.len() <= cap,
                ivs == inputs@.map_values(|v: StackValue| v@),
                ivs.len() <= cap,
                init == init_state(ivs),
                forall|g: nat|
                    g >= steps ==> #[trigger] spec_run(prog, consts, cap, init, g) == spec_run(
                        prog,
                        consts,
                        cap,
                        (AbsState {
                            pc: pc as nat,
                            stack: self.stack@,
                            output: self.spec_output(),
                        }),
                        (g - steps) as nat,
                    ),
            decreases budget - steps,
        {
            let ghost cur = AbsState { pc: pc as nat, stack: self.stack@, output: self.spec_output() };
            if steps >= budget {
                proof {
                    assert(spec_run(prog, consts, cap, init, fuel) == spec_run(
                        prog,
                        consts,
                        cap,
                        cur,
                        0,
                    ));
                    assert(spec_run(prog, consts, cap, cur, 0) == RunOutcome::OutOfFuel(cur));
                }
                let mut message = String::from_str("exceeded maximum steps: ");
                push_dec_u64(&mut message, budget as u64);
                return ExecutionResult::Error {
                    code: String::from_str("MAX_STEPS_EXCEEDED"),
                    message,
                    location: None,
                };
            }
            steps = steps + 1;

            let op = bytecode.instructions()[pc].op;
            let ghost step = spec_step(prog, consts, cap, cur);
            match self.execute_one(op, bytecode, &mut pc) {
                Ok(ControlFlow::Continue) => {
                    proof {
                        let st2 = step->Next_0;
                        assert forall|g: nat| g >= steps implies #[trigger] spec_run(
                            prog,
                            consts,
                            cap,
                            init,
                            g,
                        ) == spec_run(
                            prog,
                            consts,
                            cap,
                            (AbsState {
                                pc: pc as nat,
                                stack: self.stack@,
                                output: self.spec_output(),
                            }),
                            (g - steps) as nat,
                        ) by {
                            assert(spec_run(prog, consts, cap, init, g) == spec_run(
                                prog,
                                consts,
                                cap,
                                cur,
                                (g - (steps - 1)) as nat,
                            ));
                            assert(spec_run(prog, consts, cap, cur, (g - (steps - 1)) as nat)
                                == spec_run(prog, consts, cap, st2, (g - steps) as nat));
                        }
                    }
                },
                Ok(ControlFlow::Halt(value)) => {
                    proof {
                        assert(spec_run(prog, consts, cap, init, fuel) == spec_run(
                            prog,
                            consts,
                            cap,
                            cur,
                            (fuel - (steps - 1)) as nat,
                        ));
                    }
                    return ExecutionResult::Success(value);
                },
                Err(e) => {
                    proof {
                        assert(spec_run(prog, consts, cap, init, fuel) == spec_run(
                            prog,
                            consts,
                            cap,
                            cur,
                            (fuel - (steps - 1)) as nat,
                        ));
                    }
                    let code = error_code(&e);
                    let message = e.message();
                    let mut location = String::from_str("pc=");
                    push_dec_u64(&mut location, pc as u64);
                    return ExecutionResult::Error { code, message, location: Some(location) };
                },
            }
        }
        proof {
            assert(spec_run(prog, consts, cap, init, fuel) == spec_run(
                prog,
                consts,
                cap,
                (AbsState { pc: pc as nat, stack: self.stack@, output: self.spec_output() }),
                (fuel - steps) as nat,
            ));
        }
        ExecutionResult::Unit
    }

    /// Dispatches one instruction, as `spec_step` describes: on `Next` the
    /// state advances, on `Halt` the run ends with a value, and on `Fail`
    /// the failure is handed back for reporting; the printed output only
    /// ever grows by what the step printed.
    fn execute_one(&mut self, op: OpKind, bytecode: &Bytecode, pc: &mut usize) -> (r: Result<
        ControlFlow,
        RuntimeError,
    >)
        requires
            *old(pc) < bytecode.spec_instructions().len(),
            op == bytecode.spec_instructions()[*old(pc) as int].op,
            old(self).stack@.len() <= old(self).stack.capacity(),
        ensures
            final(self).stack.capacity() == old(self).stack.capacity(),
            final(self).max_steps == old(self).max_steps,
            final(self).stack@.len() <= old(self).stack.capacity(),
            ({
                let st = AbsState {
                    pc: *old(pc) as nat,
                    stack: old(self).stack@,
                    output: old(self).spec_output(),
                };
                match spec_step(
                    bytecode.spec_instructions(),
                    bytecode.spec_constants(),
                    old(self).stack.capacity(),
                    st,
                ) {
                    StepResult::Next(st2) => {
                        &&& r is Ok
                        &&& r->Ok_0 is Continue
                        &&& *final(pc) == st2.pc
                        &&& final(self).stack@ == st2.stack
                        &&& final(self).spec_output() == st2.output
                    },
                    StepResult::Halt(v) => {
                        &&& r is Ok
                        &&& r->Ok_0 is Halt
                        &&& r->Ok_0->Halt_0@ == v
                        &&& final(self).spec_output() == old(self).spec_output()
                    },
                    StepResult::Fail(e) => {
                        &&& r is Err
                        &&& r->Err_0@ == e
                        &&& *final(pc) == *old(pc)
                        &&& final(self).spec_output() == old(self).spec_output()
                    },
                }
            }),
    {
        let ghost st = AbsState {
            pc: *pc as nat,
            stack: self.stack@,
            output: self.spec_output(),
        };
        let ghost prog = bytecode.spec_instructions();
        let ghost consts = bytecode.spec_constants();
        let ghost cap = self.stack.capacity();
        let icount = bytecode.instructions().len();
        proof {
            assert(icount == prog.len());
        }
        match op {
            OpKind::Nop => {
                *pc = *pc + 1;
                Ok(ControlFlow::Continue)
            },
            OpKind::Const(idx) => {
                match bytecode.get_constant(idx) {
                    Some(c) => {
                        let v = constant_to_value(c);
                        match self.stack.push(v) {
                            Ok(_) => {
                                *pc = *pc + 1;
                                Ok(ControlFlow::Continue)
                            },
                            Err(e) => Err(e),
                        }
                    },
                    None => Err(
                        RuntimeError::InvalidOperation(
                            String::from_str("constant index out of bounds"),
                        ),
                    ),
                }
            },
            OpKind::Drop => {
                match self.stack.pop() {
                    Ok(_) => {
                        *pc = *pc + 1;
                        Ok(ControlFlow::Continue)
                    },
                    Err(e) => Err(e),
                }
            },
            OpKind::Dup => {
                let top = match self.stack.peek(0) {
                    Ok(v) => v.duplicate(),
                    Err(e) => {
                        return Err(e);
                    },
                };
                match self.stack.push(top) {
                    Ok(_) => {
                        proof {
                            assert(self.stack@ =~= st.stack.push(st.stack.last()));
                        }
                        *pc = *pc + 1;
                        Ok(ControlFlow::Continue)
                    },
                    Err(e) => Err(e),
                }
            },
            OpKind::Swap => {
                let b = match self.stack.pop() {
                    Ok(v) => v,
                    Err(e) => {
                        return Err(e);
                    },
                };
                let a = match self.stack.pop() {
                    Ok(v) => v,
                    Err(e) => {
                        return Err(e);
                    },
                };
                let r1 = self.stack.push(b);
                let r2 = self.stack.push(a);
                proof {
                    assert(r1 is Ok && r2 is Ok);
                    let len = st.stack.len() as int;
                    assert(st.stack.drop_last().drop_last() =~= st.stack.take(len - 2));
                    assert(self.stack@ =~= st.stack.take(len - 2).push(st.stack[len - 1]).push(
                        st.stack[len - 2],
                    ));
                }
                *pc = *pc + 1;
                Ok(ControlFlow::Continue)
            },
            OpKind::Rot => {
                let c = match self.stack.pop() {
                    Ok(v) => v,
                    Err(e) => {
                        return Err(e);
                    },
                };
                let b = match self.stack.pop() {
                    Ok(v) => v,
                    Err(e) => {
                        return Err(e);
                    },
                };
                let a = match self.stack.pop() {
                    Ok(v) => v,
                    Err(e) => {
                        return Err(e);
                    },
                };
                let r1 = self.stack.push(b);
                let r2 = self.stack.push(c);
                let r3 = self.stack.push(a);
                proof {
                    assert(r1 is Ok && r2 is Ok && r3 is Ok);
                    let len = st.stack.len() as int;
                    assert(st.stack.drop_last().drop_last().drop_last() =~= st.stack.take(len - 3));
                    assert(self.stack@ =~= st.stack.take(len - 3).push(st.stack[len - 2]).push(
                        st.stack[len - 1],
                    ).push(st.stack[len - 3]));
                }
                *pc = *pc + 1;
                Ok(ControlFlow::Continue)
            },
            OpKind::Add | OpKind::Sub | OpKind::Mul | OpKind::Div | OpKind::Eq | OpKind::NotEq
                | OpKind::Less | OpKind::LessEq | OpKind::Greater | OpKind::GreaterEq
                | OpKind::And | OpKind::Or => {
                let b = match self.stack.pop() {
                    Ok(v) => v,
                    Err(e) => {
                        return Err(e);
                    },
                };
                let a = match self.stack.pop() {
                    Ok(v) => v,
                    Err(e) => {
                        return Err(e);
                    },
                };
                let v = match apply_binop(op, a, b) {
                    Ok(v) => v,
                    Err(e) => {
                        return Err(e);
                    },
                };
                let rp = self.stack.push(v);
                proof {
                    assert(rp is Ok);
                    let len = st.stack.len() as int;
                    assert(st.stack.drop_last().drop_last() =~= st.stack.take(len - 2));
                    assert(self.stack@ =~= st.stack.take(len - 2).push(v@));
                }
                *pc = *pc + 1;
                Ok(ControlFlow::Continue)
            },
            OpKind::Not => {
                let a = match self.stack.pop() {
                    Ok(v) => v,
                    Err(e) => {
                        return Err(e);
                    },
                };
                match a {
                    StackValue::Bool(b) => {
                        let rp = self.stack.push(StackValue::Bool(!b));
                        proof {
                            assert(rp is Ok);
                            assert(self.stack@ =~= st.stack.drop_last().push(
                                AbsValue::Bool(!b),
                            ));
                        }
                        *pc = *pc + 1;
                        Ok(ControlFlow::Continue)
                    },
                    _ => Err(
                        RuntimeError::TypeMismatch {
                            expected: String::from_str("bool"),
                            found: String::from_str("non-bool"),
                        },
                    ),
                }
            },
            OpKind::Jump(t) => {
                if (t as usize) < bytecode.instructions().len() {
                    *pc = t as usize;
                    Ok(ControlFlow::Continue)
                } else {
                    Err(
                        RuntimeError::InvalidOperation(
                            String::from_str("jump target out of bounds"),
                        ),
                    )
                }
            },
            OpKind::Loop(t) => {
                if (t as usize) < bytecode.instructions().len() {
                    *pc = t as usize;
                    Ok(ControlFlow::Continue)
                } else {
                    Err(
                        RuntimeError::InvalidOperation(
                            String::from_str("jump target out of bounds"),
                        ),
                    )
                }
            },
            OpKind::Return => {
                match self.stack.pop() {
                    Ok(v) => Ok(ControlFlow::Halt(v)),
                    Err(_) => Ok(ControlFlow::Halt(StackValue::Unit)),
                }
            },
            OpKind::Print => {
                let v = match self.stack.pop() {
                    Ok(v) => v,
                    Err(_) => StackValue::Unit,
                };
                let line = v.display_string();
                self.output.push(line);
                proof {
                    assert(self.spec_output() =~= st.output.push(display_chars(v@)));
                }
                *pc = *pc + 1;
                Ok(ControlFlow::Continue)
            },
            OpKind::Panic => {
                let msg = match self.stack.pop() {
                    Ok(StackValue::String(s)) => s,
                    Ok(_) => String::from_str("panic"),
                    Err(_) => String::from_str("panic"),
                };
                Err(RuntimeError::Panic(msg))
            },
            _ => Err(RuntimeError::InvalidOperation(String::from_str("unsupported opcode"))),
        }
    }
}

/// Applies a binary operation to two popped operands, as `bin_result`
/// describes.
fn apply_binop(op: OpKind, a: StackValue, b: StackValue) -> (r: Result<StackValue, RuntimeError>)
    requires
        is_binop(op),
    ensures
        res_view(r) == bin_result(op, a@, b@),
{
    match op {
        OpKind::Add => a.add(b),
        OpKind::Sub => a.sub(b),
        OpKind::Mul => a.mul(b),
        OpKind::Div => a.div(b),
        OpKind::Eq => match values_equal(&a, &b) {
            Ok(r) => Ok(StackValue::Bool(r)),
            Err(e) => Err(e),
        },
        OpKind::NotEq => match values_equal(&a, &b) {
            Ok(r) => Ok(StackValue::Bool(!r)),
            Err(e) => Err(e),
        },
        OpKind::Less | OpKind::LessEq | OpKind::Greater | OpKind::GreaterEq => match (&a, &b) {
            (StackValue::Integer(x), StackValue::Integer(y)) => Ok(
                StackValue::Bool(
                    match op {
                        OpKind::Less => *x < *y,
                        OpKind::LessEq => *x <= *y,
                        OpKind::Greater => *x > *y,
                        _ => *x >= *y,
                    },
                ),
            ),
            _ => Err(
                RuntimeError::TypeMismatch {
                    expected: String::from_str("numeric"),
                    found: String::from_str("non-numeric"),
                },
            ),
        },
        OpKind::And => match (&a, &b) {
            (StackValue::Bool(x), StackValue::Bool(y)) => Ok(StackValue::Bool(*x && *y)),
            _ => Err(
                RuntimeError::TypeMismatch {
                    expected: String::from_str("bool"),
                    found: String::from_str("non-bool"),
                },
            ),
        },
        _ => match (&a, &b) {
            (StackValue::Bool(x), StackValue::Bool(y)) => Ok(StackValue::Bool(*x || *y)),
            _ => Err(
                RuntimeError::TypeMismatch {
                    expected: String::from_str("bool"),
                    found: String::from_str("non-bool"),
                },
            ),
        },
    }
}

/// Whether two values of one kind are equal; a cross-kind comparison is a
/// type mismatch.
fn values_equal(a: &StackValue, b: &StackValue) -> (r: Result<bool, RuntimeError>)
    ensures
        match r {
            Ok(v) => spec_eq_values(a@, b@) == Ok::<bool, AbsErr>(v),
            Err(e) => spec_eq_values(a@, b@) == Err::<bool, AbsErr>(e@),
        },
{
    match (a, b) {
        (StackValue::Integer(x), StackValue::Integer(y)) => Ok(*x == *y),
        (StackValue::String(x), StackValue::String(y)) => Ok(*x == *y),
        (StackValue::Bool(x), StackValue::Bool(y)) => Ok(*x == *y),
        (StackValue::Unit, StackValue::Unit) => Ok(true),
        (StackValue::Ref(x), StackValue::Ref(y)) => Ok(*x == *y),
        _ => Err(
            RuntimeError::TypeMismatch {
                expected: String::from_str("compatible types"),
                found: String::from_str("incompatible types"),
            },
        ),
    }
}

/// The runtime value a pool constant denotes.
fn constant_to_value(c: &crate::bytecode::Constant) -> (v: StackValue)
    ensures
        v@ == const_value(c@),
{
    match c {
        crate::bytecode::Constant::Integer(i) => StackValue::Integer(*i),
        crate::bytecode::Constant::String(s) => StackValue::String(s.clone()),
        crate::bytecode::Constant::Bool(b) => StackValue::Bool(*b),
        crate::bytecode::Constant::Unit => StackValue::Unit,
    }
}

} // verus!
