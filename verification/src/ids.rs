//! Unique identifiers for syntax-tree nodes, variables, functions and
//! modules, used for position-independent references in error reports.

use vstd::prelude::*;
use vstd::string::*;
use crate::text::{hex_chars, push_hex_u64};

verus! {

/// Unique identifier for a syntax-tree node.
#[derive(Debug, Clone, Copy, PartialEq, Eq, Hash, Structural)]
pub struct NodeId(pub u32);

impl NodeId {
    pub fn new(id: u32) -> (r: NodeId)
        ensures
            r.0 == id,
    {
        NodeId(id)
    }

    /// The raw identifier value.
    pub fn as_u32(self) -> (r: u32)
        ensures
            r == self.0,
    {
        self.0
    }

    /// The identifier in lowercase hexadecimal, without leading zeros.
    pub fn to_hex(self) -> (r: String)
        ensures
            r@ == hex_chars(self.0 as nat),
    {
        let mut s = String::new();
        push_hex_u64(&mut s, self.0 as u64);
        proof {
            assert(s@ =~= hex_chars(self.0 as nat));
        }
        s
    }
}

/// Unique identifier for a variable.
#[derive(Debug, Clone, Copy, PartialEq, Eq, Hash, Structural)]
pub struct VarId(pub u32);

impl VarId {
    pub fn new(id: u32) -> (r: VarId)
        ensures
            r.0 == id,
    {
        VarId(id)
    }
}

/// Unique identifier for a function.
#[derive(Debug, Clone, Copy, PartialEq, Eq, Hash, Structural)]
pub struct FnId(pub u32);

impl FnId {
    pub fn new(id: u32) -> (r: FnId)
        ensures
            r.0 == id,
    {
        FnId(id)
    }
}

/// A content-addressed module identifier.
#[derive(Debug, Clone, PartialEq, Eq, Hash)]
pub struct ModuleId(pub String);

impl ModuleId {
    pub fn new(hash: String) -> (r: ModuleId)
        ensures
            r.0@ == hash@,
    {
        ModuleId(hash)
    }

    /// The identifier as a string slice.
    pub fn as_str(&self) -> (r: &str)
        ensures
            r@ == self.0@,
    {
        self.0.as_str()
    }
}

} // verus!
