//! The bytecode container: an immutable program of instructions, a constant
//! pool with stable indices, and metadata.

use vstd::prelude::*;
use vstd::string::*;

verus! {

/// Operation kinds of the instruction set.
#[derive(Debug, Clone, Copy, PartialEq, Eq, Hash, Structural)]
pub enum OpKind {
    // No-op
    Nop,
    // Constants
    Const(u32),
    // Stack operations
    Drop,
    Dup,
    Swap,
    Rot,
    // Local variables
    LoadLocal(u32),
    StoreLocal(u32),
    // Binary operations
    Add,
    Sub,
    Mul,
    Div,
    Mod,
    Pow,
    BitAnd,
    BitOr,
    BitXor,
    Shl,
    Shr,
    // Comparison
    Eq,
    NotEq,
    Less,
    LessEq,
    Greater,
    GreaterEq,
    // Logical
    And,
    Or,
    Not,
    // Control flow
    Branch,
    BranchIf,
    Jump(u32),
    Loop(u32),
    Return,
    // Function calls
    Call(u32),
    CallIndirect,
    TailCall(u32),
    // Memory
    Load,
    Store,
    Alloc,
    // Arrays
    ArrayNew,
    ArrayGet,
    ArraySet,
    ArrayLen,
    // Contract checks
    CheckPre,
    CheckPost,
    Assert,
    // Builtins
    Print,
    Panic,
}

/// An instruction: an operation tag and a source span for diagnostics.
#[derive(Debug, Clone, Copy, PartialEq, Eq)]
pub struct Instruction {
    pub op: OpKind,
    pub span: (u32, u32),
}

impl Instruction {
    /// An instruction with an empty span.
    pub fn new(op: OpKind) -> (i: Instruction)
        ensures
            i.op == op,
            i.span == (0u32, 0u32),
    {
        Instruction { op, span: (0, 0) }
    }

    /// The same instruction carrying the given source span.
    pub fn with_span(self, start: u32, end: u32) -> (i: Instruction)
        ensures
            i.op == self.op,
            i.span == (start, end),
    {
        Instruction { op: self.op, span: (start, end) }
    }
}

/// A constant of the pool.
#[derive(Debug, Clone)]
pub enum Constant {
    Integer(i64),
    String(String),
    Bool(bool),
    Unit,
}

/// The mathematical model of a constant.
pub ghost enum AbsConst {
    Integer(i64),
    Str(Seq<char>),
    Bool(bool),
    Unit,
}

impl View for Constant {
    type V = AbsConst;

    open spec fn view(&self) -> AbsConst {
        match self {
            Constant::Integer(i) => AbsConst::Integer(*i),
            Constant::String(s) => AbsConst::Str(s@),
            Constant::Bool(b) => AbsConst::Bool(*b),
            Constant::Unit => AbsConst::Unit,
        }
    }
}

/// Debug information attached to a program.
#[derive(Debug, Clone)]
pub struct DebugInfo {
    /// `(instruction offset, line, column)` entries.
    pub source_map: Vec<(u32, u32, u32)>,
    pub local_names: Vec<(u32, String)>,
    pub function_names: Vec<(u32, String)>,
}

impl DebugInfo {
    /// Empty debug information.
    pub fn empty() -> (d: DebugInfo)
        ensures
            d.source_map@ =~= Seq::<(u32, u32, u32)>::empty(),
            d.local_names@ =~= Seq::<(u32, String)>::empty(),
            d.function_names@ =~= Seq::<(u32, String)>::empty(),
    {
        DebugInfo { source_map: Vec::new(), local_names: Vec::new(), function_names: Vec::new() }
    }
}

impl Default for DebugInfo {
    fn default() -> (d: DebugInfo)
        ensures
            d.source_map@ =~= Seq::<(u32, u32, u32)>::empty(),
            d.local_names@ =~= Seq::<(u32, String)>::empty(),
            d.function_names@ =~= Seq::<(u32, String)>::empty(),
    {
        DebugInfo::empty()
    }
}

/// Metadata of a program.
#[derive(Debug, Clone)]
pub struct Metadata {
    pub module_name: Option<String>,
    pub source_hash: Option<String>,
    pub debug_info: DebugInfo,
}

impl Metadata {
    /// Empty metadata.
    pub fn empty() -> (m: Metadata)
        ensures
            m.module_name is None,
            m.source_hash is None,
            m.debug_info.source_map@ =~= Seq::<(u32, u32, u32)>::empty(),
            m.debug_info.local_names@ =~= Seq::<(u32, String)>::empty(),
            m.debug_info.function_names@ =~= Seq::<(u32, String)>::empty(),
    {
        Metadata { module_name: None, source_hash: None, debug_info: DebugInfo::empty() }
    }
}

impl Default for Metadata {
    fn default() -> (m: Metadata)
        ensures
            m.module_name is None,
            m.source_hash is None,
    {
        Metadata::empty()
    }
}

/// A compiled program: instructions, a constant pool and metadata.
/// Append-only while it is built, read-only while it runs.
#[derive(Debug, Clone)]
pub struct Bytecode {
    instructions: Vec<Instruction>,
    constants: Vec<Constant>,
    metadata: Metadata,
}

impl Bytecode {
    /// The metadata, as a mathematical value.
    pub closed spec fn spec_metadata(&self) -> Metadata {
        self.metadata
    }

    /// The instruction sequence, as a mathematical value.
    pub closed spec fn spec_instructions(&self) -> Seq<Instruction> {
        self.instructions@
    }

    /// The constant pool, as a mathematical value.
    pub closed spec fn spec_constants(&self) -> Seq<AbsConst> {
        self.constants@.map_values(|c: Constant| c@)
    }

    /// An empty program.
    pub fn new() -> (b: Bytecode)
        ensures
            b.spec_instructions() =~= Seq::<Instruction>::empty(),
            b.spec_constants() =~= Seq::<AbsConst>::empty(),
    {
        Bytecode { instructions: Vec::new(), constants: Vec::new(), metadata: Metadata::empty() }
    }

    /// An empty program, with room reserved for `capacity` instructions.
    pub fn with_capacity(capacity: usize) -> (b: Bytecode)
        ensures
            b.spec_instructions() =~= Seq::<Instruction>::empty(),
            b.spec_constants() =~= Seq::<AbsConst>::empty(),
    {
        let _ = capacity;
        Bytecode::new()
    }

    /// Appends an instruction.
    pub fn push(&mut self, instr: Instruction)
        ensures
            final(self).spec_instructions() =~= old(self).spec_instructions().push(instr),
            final(self).spec_constants() == old(self).spec_constants(),
            final(self).spec_metadata() == old(self).spec_metadata(),
    {
        self.instructions.push(instr);
    }

    /// The instructions of the program.
    pub fn instructions(&self) -> (r: &[Instruction])
        ensures
            r@ == self.spec_instructions(),
    {
        self.instructions.as_slice()
    }

    /// Adds a constant to the pool and returns its index, which stays stable
    /// for the life of the program.
    pub fn add_constant(&mut self, c: Constant) -> (idx: u32)
        requires
            old(self).spec_constants().len() < u32::MAX,
        ensures
            idx == old(self).spec_constants().len(),
            final(self).spec_constants() =~= old(self).spec_constants().push(c@),
            final(self).spec_instructions() == old(self).spec_instructions(),
            final(self).spec_metadata() == old(self).spec_metadata(),
    {
        let idx = self.constants.len() as u32;
        self.constants.push(c);
        proof {
            assert(self.spec_constants() =~= old(self).spec_constants().push(c@));
        }
        idx
    }

    /// The constant at `idx`, or a miss for an index outside the pool.
    pub fn get_constant(&self, idx: u32) -> (r: Option<&Constant>)
        ensures
            match r {
                Some(c) => idx < self.spec_constants().len()
                    && c@ == self.spec_constants()[idx as int],
                None => idx >= self.spec_constants().len(),
            },
    {
        if (idx as usize) < self.constants.len() {
            Some(&self.constants[idx as usize])
        } else {
            None
        }
    }

    /// The program's metadata.
    pub fn metadata(&self) -> (m: &Metadata)
        ensures
            *m == self.spec_metadata(),
    {
        &self.metadata
    }

    /// Replaces the program's metadata.
    pub fn set_metadata(&mut self, m: Metadata)
        ensures
            final(self).spec_metadata() == m,
            final(self).spec_instructions() == old(self).spec_instructions(),
            final(self).spec_constants() == old(self).spec_constants(),
    {
        self.metadata = m;
    }
}

impl Default for Bytecode {
    fn default() -> (b: Bytecode)
        ensures
            b.spec_instructions() =~= Seq::<Instruction>::empty(),
            b.spec_constants() =~= Seq::<AbsConst>::empty(),
    {
        Bytecode::new()
    }
}

} // verus!
