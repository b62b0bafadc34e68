//! Core of a small expression-oriented language toolchain: the bytecode
//! execution engine, its bounded value stack and memory arena, the standard
//! library registry, the contract verifier with its solver abstraction, and
//! the Debug State Object protocol for structured, machine-readable error
//! reports.

use vstd::prelude::*;
use vstd::string::*;

pub mod ast_builder;
pub mod astdata;
pub mod bytecode;
pub mod codegen;
pub mod decompiler;
pub mod contract;
pub mod dso;
pub mod engine;
pub mod ids;
pub mod memory;
pub mod ops;
pub mod parser;
pub mod solver;
pub mod span;
pub mod stdlib;
pub mod stack;
pub mod text;
pub mod token;
pub mod typeck;
pub mod types;

use crate::memory::MemoryError;
use crate::stack::StackValue;
use crate::stack::AbsValue;
use crate::text::dec_chars;

verus! {

/// Runtime configuration for an engine run.
#[derive(Debug, Clone, Copy)]
pub struct RuntimeConfig {
    /// Maximum memory in cells for the arena.
    pub max_memory: usize,
    /// Enable JIT compilation (accepted in the configuration; the engine
    /// does not use it).
    pub jit_enabled: bool,
    /// Maximum execution steps (cooperative cancellation budget).
    pub max_steps: Option<usize>,
}

impl RuntimeConfig {
    /// The default configuration: 16 MiB worth of cells, no JIT, a step budget
    /// of one million.
    pub fn standard() -> (c: RuntimeConfig)
        ensures
            c.max_memory == 16 * 1024 * 1024,
            !c.jit_enabled,
            c.max_steps == Some(1_000_000usize),
    {
        RuntimeConfig { max_memory: 16 * 1024 * 1024, jit_enabled: false, max_steps: Some(1_000_000) }
    }
}

impl Default for RuntimeConfig {
    fn default() -> (c: RuntimeConfig)
        ensures
            c.max_memory == 16 * 1024 * 1024,
            !c.jit_enabled,
            c.max_steps == Some(1_000_000usize),
    {
        RuntimeConfig::standard()
    }
}

/// A failure raised while executing a program; every variant maps to a
/// stable machine-readable code.
#[derive(Debug)]
pub enum RuntimeError {
    DivisionByZero,
    IndexOutOfBounds { index: usize, len: usize },
    StackOverflow,
    StackUnderflow,
    Memory(MemoryError),
    MaxStepsExceeded,
    InvalidOperation(String),
    TypeMismatch { expected: String, found: String },
    UndefinedFunction(String),
    ConstraintViolation(String),
    Panic(String),
}

/// The mathematical model of a runtime failure: strings become character
/// sequences.
pub ghost enum AbsErr {
    DivisionByZero,
    IndexOutOfBounds { index: usize, len: usize },
    StackOverflow,
    StackUnderflow,
    Memory(MemoryError),
    MaxStepsExceeded,
    InvalidOperation(Seq<char>),
    TypeMismatch { expected: Seq<char>, found: Seq<char> },
    UndefinedFunction(Seq<char>),
    ConstraintViolation(Seq<char>),
    Panic(Seq<char>),
}

impl View for RuntimeError {
    type V = AbsErr;

    open spec fn view(&self) -> AbsErr {
        match self {
            RuntimeError::DivisionByZero => AbsErr::DivisionByZero,
            RuntimeError::IndexOutOfBounds { index, len } => AbsErr::IndexOutOfBounds {
                index: *index,
                len: *len,
            },
            RuntimeError::StackOverflow => AbsErr::StackOverflow,
            RuntimeError::StackUnderflow => AbsErr::StackUnderflow,
            RuntimeError::Memory(e) => AbsErr::Memory(*e),
            RuntimeError::MaxStepsExceeded => AbsErr::MaxStepsExceeded,
            RuntimeError::InvalidOperation(s) => AbsErr::InvalidOperation(s@),
            RuntimeError::TypeMismatch { expected, found } => AbsErr::TypeMismatch {
                expected: expected@,
                found: found@,
            },
            RuntimeError::UndefinedFunction(s) => AbsErr::UndefinedFunction(s@),
            RuntimeError::ConstraintViolation(s) => AbsErr::ConstraintViolation(s@),
            RuntimeError::Panic(s) => AbsErr::Panic(s@),
        }
    }
}

/// The human-readable message of a memory failure.
pub open spec fn mem_err_message(e: MemoryError) -> Seq<char> {
    match e {
        MemoryError::OutOfMemory { requested, available } => "out of memory: requested "@
            + dec_chars(requested as nat) + ", available "@ + dec_chars(available as nat),
        MemoryError::InvalidAddress(a) => "invalid address: "@ + dec_chars(a as nat),
        MemoryError::AccessViolation { address, size } => "access violation: address "@
            + dec_chars(address as nat) + ", size "@ + dec_chars(size as nat),
    }
}

/// The human-readable message of a runtime failure.
pub open spec fn err_message(e: AbsErr) -> Seq<char> {
    match e {
        AbsErr::DivisionByZero => "division by zero"@,
        AbsErr::IndexOutOfBounds { index, len } => "index out of bounds: "@
            + dec_chars(index as nat) + " >= "@ + dec_chars(len as nat),
        AbsErr::StackOverflow => "stack overflow"@,
        AbsErr::StackUnderflow => "stack underflow"@,
        AbsErr::Memory(m) => "memory error: "@ + mem_err_message(m),
        AbsErr::MaxStepsExceeded => "maximum steps exceeded"@,
        AbsErr::InvalidOperation(s) => "invalid operation: "@ + s,
        AbsErr::TypeMismatch { expected, found } => "type mismatch: expected "@ + expected
            + ", found "@ + found,
        AbsErr::UndefinedFunction(s) => "undefined function: "@ + s,
        AbsErr::ConstraintViolation(s) => "constraint violation: "@ + s,
        AbsErr::Panic(s) => "panic: "@ + s,
    }
}

impl RuntimeError {
    /// Renders the failure as its human-readable message.
    pub fn message(&self) -> (r: String)
        ensures
            r@ == err_message(self@),
    {
        let mut s = String::new();
        match self {
            RuntimeError::DivisionByZero => {
                s.append("division by zero");
            },
            RuntimeError::IndexOutOfBounds { index, len } => {
                s.append("index out of bounds: ");
                crate::text::push_dec_u64(&mut s, *index as u64);
                s.append(" >= ");
                crate::text::push_dec_u64(&mut s, *len as u64);
            },
            RuntimeError::StackOverflow => {
                s.append("stack overflow");
            },
            RuntimeError::StackUnderflow => {
                s.append("stack underflow");
            },
            RuntimeError::Memory(e) => {
                s.append("memory error: ");
                match e {
                    MemoryError::OutOfMemory { requested, available } => {
                        s.append("out of memory: requested ");
                        crate::text::push_dec_u64(&mut s, *requested as u64);
                        s.append(", available ");
                        crate::text::push_dec_u64(&mut s, *available as u64);
                    },
                    MemoryError::InvalidAddress(a) => {
                        s.append("invalid address: ");
                        crate::text::push_dec_u64(&mut s, *a as u64);
                    },
                    MemoryError::AccessViolation { address, size } => {
                        s.append("access violation: address ");
                        crate::text::push_dec_u64(&mut s, *address as u64);
                        s.append(", size ");
                        crate::text::push_dec_u64(&mut s, *size as u64);
                    },
                }
            },
            RuntimeError::MaxStepsExceeded => {
                s.append("maximum steps exceeded");
            },
            RuntimeError::InvalidOperation(m) => {
                s.append("invalid operation: ");
                s.append(m.as_str());
            },
            RuntimeError::TypeMismatch { expected, found } => {
                s.append("type mismatch: expected ");
                s.append(expected.as_str());
                s.append(", found ");
                s.append(found.as_str());
            },
            RuntimeError::UndefinedFunction(m) => {
                s.append("undefined function: ");
                s.append(m.as_str());
            },
            RuntimeError::ConstraintViolation(m) => {
                s.append("constraint violation: ");
                s.append(m.as_str());
            },
            RuntimeError::Panic(m) => {
                s.append("panic: ");
                s.append(m.as_str());
            },
        }
        assert(s@ =~= err_message(self@));
        s
    }
}

/// The main runtime: an engine, a standard library registry and the
/// configuration they were built from.
pub struct Runtime {
    config: RuntimeConfig,
    engine: crate::engine::Engine,
    stdlib: crate::stdlib::StdLib,
}

impl Runtime {
    /// The capacity of the engine's operand stack.
    pub closed spec fn stack_capacity(&self) -> nat {
        self.engine.stack_capacity()
    }

    /// The configured step budget.
    pub closed spec fn spec_max_steps(&self) -> Option<usize> {
        self.engine.spec_max_steps()
    }

    /// Everything the most recent run printed, in order.
    pub closed spec fn spec_output(&self) -> Seq<Seq<char>> {
        self.engine.spec_output()
    }

    /// The configuration the runtime was built from.
    pub closed spec fn spec_config(&self) -> RuntimeConfig {
        self.config
    }

    /// A runtime with the default configuration.
    pub fn new() -> (r: Runtime)
        ensures
            r.stack_capacity() == 1024,
            r.spec_max_steps() == Some(1_000_000usize),
            r.spec_config().max_memory == 16 * 1024 * 1024,
    {
        Runtime::with_config(RuntimeConfig::standard())
    }

    /// A runtime with the given configuration.
    pub fn with_config(config: RuntimeConfig) -> (r: Runtime)
        ensures
            r.stack_capacity() == 1024,
            r.spec_max_steps() == config.max_steps,
            r.spec_config() == config,
    {
        let engine = crate::engine::Engine::new(config);
        Runtime { engine, stdlib: crate::stdlib::StdLib::new(), config }
    }

    /// Executes a program with no inputs; the result and the printed output
    /// are exactly what the engine's interpreter gives.
    pub fn execute(&mut self, bytecode: &crate::bytecode::Bytecode) -> (r: ExecutionResult)
        ensures
            final(self).stack_capacity() == old(self).stack_capacity(),
            final(self).spec_max_steps() == old(self).spec_max_steps(),
            final(self).spec_config() == old(self).spec_config(),
            ({
                let (res, out) = crate::engine::spec_exec(
                    bytecode.spec_instructions(),
                    bytecode.spec_constants(),
                    old(self).stack_capacity(),
                    old(self).spec_max_steps(),
                    Seq::empty(),
                );
                r@ == res && final(self).spec_output() == out
            }),
    {
        self.engine.run(bytecode, &self.stdlib)
    }

    /// Executes a program with input values; the result and the printed
    /// output are exactly what the engine's interpreter gives.
    pub fn execute_with_inputs(
        &mut self,
        bytecode: &crate::bytecode::Bytecode,
        inputs: &[StackValue],
    ) -> (r: ExecutionResult)
        ensures
            final(self).stack_capacity() == old(self).stack_capacity(),
            final(self).spec_max_steps() == old(self).spec_max_steps(),
            final(self).spec_config() == old(self).spec_config(),
            ({
                let (res, out) = crate::engine::spec_exec(
                    bytecode.spec_instructions(),
                    bytecode.spec_constants(),
                    old(self).stack_capacity(),
                    old(self).spec_max_steps(),
                    inputs@.map_values(|v: StackValue| v@),
                );
                r@ == res && final(self).spec_output() == out
            }),
    {
        self.engine.run_with_inputs(bytecode, inputs, &self.stdlib)
    }

    /// The current configuration.
    pub fn config(&self) -> (c: &RuntimeConfig)
        ensures
            *c == self.spec_config(),
    {
        &self.config
    }

    /// Everything the most recent run printed, in order.
    pub fn output(&self) -> (r: &Vec<String>)
        ensures
            r@.map_values(|l: String| l@) == self.spec_output(),
    {
        self.engine.output()
    }
}

impl Default for Runtime {
    fn default() -> (r: Runtime)
        ensures
            r.stack_capacity() == 1024,
            r.spec_max_steps() == Some(1_000_000usize),
    {
        Runtime::new()
    }
}

/// The outcome of running a program.
#[derive(Debug, Clone, PartialEq)]
pub enum ExecutionResult {
    /// Successful execution with a return value.
    Success(StackValue),
    /// Execution completed without producing a value.
    Unit,
    /// The run failed; the code is machine-readable (see the Debug State
    /// Object protocol), the message human-readable.
    Error { code: String, message: String, location: Option<String> },
}

/// The mathematical model of an execution outcome.
pub ghost enum AbsResult {
    Success(AbsValue),
    Unit,
    Error { code: Seq<char>, message: Seq<char>, location: Option<Seq<char>> },
}

impl View for ExecutionResult {
    type V = AbsResult;

    open spec fn view(&self) -> AbsResult {
        match self {
            ExecutionResult::Success(v) => AbsResult::Success(v@),
            ExecutionResult::Unit => AbsResult::Unit,
            ExecutionResult::Error { code, message, location } => AbsResult::Error {
                code: code@,
                message: message@,
                location: match location {
                    Some(l) => Some(l@),
                    None => None,
                },
            },
        }
    }
}

impl ExecutionResult {
    /// Whether the run completed without a failure.
    pub fn is_success(&self) -> (r: bool)
        ensures
            r == (self@ is Success || self@ is Unit),
    {
        match self {
            ExecutionResult::Success(_) => true,
            ExecutionResult::Unit => true,
            ExecutionResult::Error { .. } => false,
        }
    }

    /// Whether the run failed.
    pub fn is_error(&self) -> (r: bool)
        ensures
            r == (self@ is Error),
    {
        match self {
            ExecutionResult::Error { .. } => true,
            _ => false,
        }
    }

    /// The returned value, if the run produced one.
    pub fn unwrap_value(self) -> (r: Option<StackValue>)
        ensures
            match r {
                Some(v) => self@ is Success && self@->Success_0 == v@,
                None => !(self@ is Success),
            },
    {
        match self {
            ExecutionResult::Success(v) => Some(v),
            _ => None,
        }
    }
}

} // verus!
