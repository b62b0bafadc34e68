//! Builder utilities for syntax-tree construction: line offsets, byte
//! positions and fresh node identifiers.

use vstd::prelude::*;
use vstd::string::*;
use crate::ids::NodeId;
use crate::text::{utf8_len, utf8_len_exec};
use crate::span::{Position, Span};

verus! {

/// Addition clamped to the machine limit.
pub open spec fn sat_add_usize(a: nat, b: nat) -> nat {
    if a + b <= usize::MAX {
        a + b
    } else {
        usize::MAX as nat
    }
}

/// A value clamped into 32 bits.
pub open spec fn sat_u32(x: nat) -> u32 {
    if x <= u32::MAX {
        x as u32
    } else {
        u32::MAX
    }
}

/// The byte offsets of the line starts after position `k`, with `off` the
/// byte offset of position `k`.
pub open spec fn line_offsets_from(s: Seq<char>, k: int, off: nat) -> Seq<usize>
    decreases s.len() - k,
{
    if k < 0 || k >= s.len() {
        Seq::empty()
    } else {
        let off2 = sat_add_usize(off, utf8_len(s[k]));
        if s[k] == '\n' {
            seq![off2 as usize] + line_offsets_from(s, k + 1, off2)
        } else {
            line_offsets_from(s, k + 1, off2)
        }
    }
}

/// The byte offsets of the line starts of a source text: offset zero, then
/// the offset just after each newline.
pub open spec fn line_offsets_of(s: Seq<char>) -> Seq<usize> {
    seq![0usize] + line_offsets_from(s, 0, 0)
}

/// How many entries of a list are at most `x`.
pub open spec fn count_le(offs: Seq<usize>, x: usize) -> nat
    decreases offs.len(),
{
    if offs.len() == 0 {
        0
    } else {
        count_le(offs.drop_last(), x) + if offs.last() <= x { 1nat } else { 0nat }
    }
}

/// The position a byte offset denotes, against a line-offset table: the
/// line holding the offset (1-based), the column within it (1-based), and
/// the offset itself, each clamped into 32 bits.
pub open spec fn spec_position(offs: Seq<usize>, offset: usize) -> Position {
    let cnt = count_le(offs, offset);
    let line = if cnt > 0 { (cnt - 1) as nat } else { 0nat };
    let start = if line < offs.len() { offs[line as int] as nat } else { 0nat };
    let col = if offset >= start { (offset - start) as nat } else { 0nat };
    Position { line: sat_u32(line + 1), column: sat_u32(col + 1), offset: sat_u32(offset as nat) }
}

fn u32_clamped(x: usize) -> (r: u32)
    ensures
        r == sat_u32(x as nat),
{
    if x >= u32::MAX as usize {
        u32::MAX
    } else {
        x as u32
    }
}

/// Builder for syntax-tree nodes with proper spans: it keeps the source, a
/// line-offset table and a counter for fresh node identifiers.
#[derive(Debug)]
pub struct AstBuilder {
    source: String,
    line_offsets: Vec<usize>,
    node_counter: u32,
}

impl AstBuilder {
    /// The source text.
    pub closed spec fn spec_source(&self) -> Seq<char> {
        self.source@
    }

    /// The line-offset table.
    pub closed spec fn spec_offsets(&self) -> Seq<usize> {
        self.line_offsets@
    }

    /// The next node identifier to hand out.
    pub closed spec fn spec_counter(&self) -> u32 {
        self.node_counter
    }

    /// A builder over the given source, with its line-offset table
    /// computed.
    pub fn new(source: String) -> (b: AstBuilder)
        ensures
            b.spec_source() == source@,
            b.spec_offsets() == line_offsets_of(source@),
            b.spec_counter() == 0,
    {
        let line_offsets = AstBuilder::compute_line_offsets(source.as_str());
        AstBuilder { source, line_offsets, node_counter: 0 }
    }

    fn compute_line_offsets(source: &str) -> (r: Vec<usize>)
        ensures
            r@ == line_offsets_of(source@),
    {
        let n = source.unicode_len();
        let mut offsets: Vec<usize> = Vec::new();
        offsets.push(0);
        let mut offset: usize = 0;
        let mut k: usize = 0;
        proof {
            assert(offsets@ =~= seq![0usize]);
            assert(offsets@ + line_offsets_from(source@, 0, 0) =~= line_offsets_of(source@));
        }
        while k < n
            invariant
                n == source@.len(),
                0 <= k <= n,
                offsets@ + line_offsets_from(source@, k as int, offset as nat) =~= line_offsets_of(
                    source@,
                ),
            decreases n - k,
        {
            let c = source.get_char(k);
            let cl = utf8_len_exec(c);
            let ghost off0 = offset as nat;
            offset = match offset.checked_add(cl) {
                Some(o) => o,
                None => usize::MAX,
            };
            proof {
                assert(offset as nat == sat_add_usize(off0, utf8_len(source@[k as int])));
            }
            let ghost before = offsets@;
            if c == '\n' {
                offsets.push(offset);
                proof {
                    assert(offsets@ =~= before + seq![offset]);
                    assert(line_offsets_from(source@, k as int, off0) == seq![offset]
                        + line_offsets_from(source@, k + 1, offset as nat));
                    assert(offsets@ + line_offsets_from(source@, k + 1, offset as nat)
                        =~= before + line_offsets_from(source@, k as int, off0));
                }
            } else {
                proof {
                    assert(line_offsets_from(source@, k as int, off0) == line_offsets_from(
                        source@,
                        k + 1,
                        offset as nat,
                    ));
                }
            }
            k += 1;
        }
        proof {
            assert(line_offsets_from(source@, n as int, offset as nat)
                =~= Seq::<usize>::empty());
            assert(offsets@ =~= line_offsets_of(source@));
        }
        offsets
    }

    /// Converts a byte offset to a line/column position.
    pub fn position(&self, offset: usize) -> (p: Position)
        ensures
            p == spec_position(self.spec_offsets(), offset),
    {
        let n = self.line_offsets.len();
        let mut cnt: usize = 0;
        let mut i: usize = 0;
        proof {
            assert(self.line_offsets@.subrange(0, 0) =~= Seq::<usize>::empty());
        }
        while i < n
            invariant
                n == self.line_offsets@.len(),
                0 <= i <= n,
                cnt <= i,
                cnt as nat == count_le(self.line_offsets@.subrange(0, i as int), offset),
            decreases n - i,
        {
            proof {
                assert(self.line_offsets@.subrange(0, i + 1).drop_last()
                    =~= self.line_offsets@.subrange(0, i as int));
                assert(self.line_offsets@.subrange(0, i + 1).last()
                    == self.line_offsets@[i as int]);
            }
            if self.line_offsets[i] <= offset {
                cnt += 1;
            }
            i += 1;
        }
        proof {
            assert(self.line_offsets@.subrange(0, n as int) =~= self.line_offsets@);
        }
        let line: usize = if cnt > 0 {
            cnt - 1
        } else {
            0
        };
        let start: usize = if line < n {
            self.line_offsets[line]
        } else {
            0
        };
        let column: usize = if offset >= start {
            offset - start
        } else {
            0
        };
        let lplus = match line.checked_add(1) {
            Some(v) => u32_clamped(v),
            None => u32::MAX,
        };
        let cplus = match column.checked_add(1) {
            Some(v) => u32_clamped(v),
            None => u32::MAX,
        };
        Position::new(lplus, cplus, u32_clamped(offset))
    }

    /// The span between two byte offsets.
    pub fn span(&self, start: usize, end: usize) -> (s: Span)
        ensures
            s.start == spec_position(self.spec_offsets(), start),
            s.end == spec_position(self.spec_offsets(), end),
    {
        Span::new(self.position(start), self.position(end))
    }

    /// The span of a single byte offset.
    pub fn span_at(&self, offset: usize) -> (s: Span)
        ensures
            s.start == spec_position(self.spec_offsets(), offset),
            s.end == spec_position(self.spec_offsets(), offset),
    {
        let pos = self.position(offset);
        Span::single(pos)
    }

    /// A fresh node identifier; the counter wraps at the 32-bit limit.
    pub fn fresh_node_id(&mut self) -> (id: NodeId)
        ensures
            id.0 == old(self).spec_counter(),
            final(self).spec_counter() == vstd::wrapping::u32_specs::wrapping_add(
                old(self).spec_counter(),
                1u32,
            ),
            final(self).spec_source() == old(self).spec_source(),
            final(self).spec_offsets() == old(self).spec_offsets(),
    {
        let id = NodeId(self.node_counter);
        self.node_counter = self.node_counter.wrapping_add(1);
        id
    }
}

} // verus!
