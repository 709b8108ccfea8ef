//! The decoded instruction stream.
//!
//! Holds the instruction sequence together with the byte offset of each
//! instruction, and a program counter expressed as a decoded index. Branches
//! reposition the stream through `goto`, which accepts only byte offsets
//! that fall on an instruction boundary.

use vstd::prelude::*;
use crate::instructions::Instruction;
use crate::instructions::instr_size;
use crate::instructions::total_size;
use crate::instructions::spec_read_all;
use crate::instructions::lemma_spec_read_all_total_size;
use crate::class_file::Method;
use crate::class_file::spec_first_code;

verus! {

/// The byte offset at which instruction `i` starts: the total size of the
/// instructions before it.
pub open spec fn offset_at(instrs: Seq<Instruction>, i: int) -> int {
    total_size(instrs.take(i))
}

/// Splitting off the last instruction splits the total size.
pub proof fn lemma_total_size_push(s: Seq<Instruction>, x: Instruction)
    ensures
        total_size(s.push(x)) == total_size(s) + instr_size(x),
    decreases s.len(),
{
    if s.len() == 0 {
        assert(s.push(x)[0] == x);
        assert(s.push(x).skip(1) =~= Seq::<Instruction>::empty());
        assert(total_size(Seq::<Instruction>::empty()) == 0);
    } else {
        assert(s.push(x)[0] == s[0]);
        assert(s.push(x).skip(1) =~= s.skip(1).push(x));
        lemma_total_size_push(s.skip(1), x);
    }
}

/// Offsets step by the instruction's size from one index to the next.
pub proof fn lemma_offset_at_step(instrs: Seq<Instruction>, i: int)
    requires
        0 <= i < instrs.len(),
    ensures
        offset_at(instrs, i + 1) == offset_at(instrs, i) + instr_size(instrs[i]),
{
    assert(instrs.take(i + 1) =~= instrs.take(i).push(instrs[i]));
    lemma_total_size_push(instrs.take(i), instrs[i]);
}

/// Every offset lies between zero and the total size.
pub proof fn lemma_offset_at_bounds(instrs: Seq<Instruction>, i: int)
    requires
        0 <= i <= instrs.len(),
    ensures
        0 <= offset_at(instrs, i) <= total_size(instrs),
        i < instrs.len() ==> offset_at(instrs, i) + instr_size(instrs[i]) <= total_size(instrs),
    decreases instrs.len() - i,
{
    crate::instructions::lemma_instr_size_at_least_one(
        if i < instrs.len() {
            instrs[i]
        } else {
            Instruction::NOOP
        },
    );
    if i == instrs.len() {
        assert(instrs.take(i) =~= instrs);
        lemma_offset_at_nonneg(instrs, i);
    } else {
        lemma_offset_at_step(instrs, i);
        lemma_offset_at_bounds(instrs, i + 1);
        lemma_offset_at_nonneg(instrs, i);
    }
}

proof fn lemma_offset_at_nonneg(instrs: Seq<Instruction>, i: int)
    requires
        0 <= i <= instrs.len(),
    ensures
        0 <= offset_at(instrs, i),
    decreases i,
{
    if i > 0 {
        lemma_offset_at_nonneg(instrs, i - 1);
        lemma_offset_at_step(instrs, i - 1);
        crate::instructions::lemma_instr_size_at_least_one(instrs[i - 1]);
    } else {
        assert(instrs.take(0) =~= Seq::<Instruction>::empty());
    }
}

/// Offsets are strictly increasing in the index.
pub proof fn lemma_offset_at_strict(instrs: Seq<Instruction>, i: int, j: int)
    requires
        0 <= i < j <= instrs.len(),
    ensures
        offset_at(instrs, i) < offset_at(instrs, j),
    decreases j - i,
{
    lemma_offset_at_step(instrs, i);
    crate::instructions::lemma_instr_size_at_least_one(instrs[i]);
    if i + 1 < j {
        lemma_offset_at_strict(instrs, i + 1, j);
    }
}

/// Two boundary indices with the same byte offset are the same index.
pub proof fn lemma_offset_at_unique(instrs: Seq<Instruction>, i: int, j: int)
    requires
        0 <= i <= instrs.len(),
        0 <= j <= instrs.len(),
        offset_at(instrs, i) == offset_at(instrs, j),
    ensures
        i == j,
{
    if i < j {
        lemma_offset_at_strict(instrs, i, j);
    } else if j < i {
        lemma_offset_at_strict(instrs, j, i);
    }
}

/// The decoded instruction sequence with a program counter over decoded
/// indices and the byte offset of every instruction.
pub struct Instructions {
    instructions: Vec<Instruction>,
    offsets: Vec<usize>,
    current: usize,
}

impl Instructions {
    /// The instruction sequence this stream walks.
    pub closed spec fn instrs(self) -> Seq<Instruction> {
        self.instructions@
    }

    /// The current position, as an index into the decoded sequence.
    pub closed spec fn cur(self) -> int {
        self.current as int
    }

    /// The offset table matches the instruction sequence.
    pub closed spec fn wf(self) -> bool {
        &&& self.offsets.len() == self.instructions.len()
        &&& forall|i: int|
            0 <= i < self.offsets@.len() ==> #[trigger] self.offsets@[i] == offset_at(
                self.instructions@,
                i,
            )
    }

    /// Builds a stream over `instructions`, positioned at the start.
    pub fn create(instructions: Vec<Instruction>) -> (r: Instructions)
        requires
            total_size(instructions@) <= usize::MAX,
        ensures
            r.wf(),
            r.instrs() == instructions@,
            r.cur() == 0,
    {
        let mut offsets: Vec<usize> = Vec::new();
        let mut off: usize = 0;
        let mut i: usize = 0;
        while i < instructions.len()
            invariant
                total_size(instructions@) <= usize::MAX,
                0 <= i <= instructions.len(),
                offsets.len() == i,
                off == offset_at(instructions@, i as int),
                forall|j: int|
                    0 <= j < i ==> #[trigger] offsets@[j] == offset_at(instructions@, j),
            decreases instructions.len() - i,
        {
            proof {
                lemma_offset_at_bounds(instructions@, i as int);
                lemma_offset_at_step(instructions@, i as int);
            }
            offsets.push(off);
            off = off + instructions[i].get_size();
            i = i + 1;
        }
        proof {
            assert(Seq::<Instruction>::empty() =~= instructions@.take(0));
        }
        Instructions { instructions, offsets, current: 0 }
    }

    /// The byte offset of the instruction at decoded index `i`.
    pub fn offset_of(&self, i: usize) -> (r: usize)
        requires
            self.wf(),
            i < self.instrs().len(),
        ensures
            r == offset_at(self.instrs(), i as int),
    {
        self.offsets[i]
    }

    /// The decoded index the byte offset `offset` falls on, or none when it
    /// is not at an instruction boundary.
    fn offset_to_index(&self, offset: usize) -> (r: Option<usize>)
        requires
            self.wf(),
        ensures
            (r matches Some(i) ==> 0 <= i < self.instrs().len() && offset_at(
                self.instrs(),
                i as int,
            ) == offset),
            (r is None ==> forall|i: int|
                0 <= i < self.instrs().len() ==> offset_at(self.instrs(), i) != offset),
    {
        let mut i: usize = 0;
        while i < self.offsets.len()
            invariant
                self.wf(),
                0 <= i <= self.offsets.len(),
                forall|j: int| 0 <= j < i ==> offset_at(self.instrs(), j) != offset,
            decreases self.offsets.len() - i,
        {
            if self.offsets[i] == offset {
                return Some(i);
            }
            i = i + 1;
        }
        None
    }

    /// Repositions the stream to the instruction starting at byte offset
    /// `offset`; reports whether that offset is an instruction boundary.
    pub fn goto(&mut self, offset: usize) -> (r: bool)
        requires
            old(self).wf(),
        ensures
            final(self).wf(),
            final(self).instrs() == old(self).instrs(),
            r == exists|i: int|
                0 <= i < old(self).instrs().len() && #[trigger] offset_at(old(self).instrs(), i)
                    == offset,
            r ==> 0 <= final(self).cur() < final(self).instrs().len() && offset_at(
                final(self).instrs(),
                final(self).cur(),
            ) == offset,
            !r ==> final(self).cur() == old(self).cur(),
    {
        let index = self.offset_to_index(offset);
        if let Some(index) = index {
            self.current = index;
            true
        } else {
            false
        }
    }

    /// Every boundary offset of a well-formed stream fits in `usize`.
    pub proof fn offsets_bounded(self)
        requires
            self.wf(),
        ensures
            forall|j: int|
                0 <= j < self.instrs().len() ==> 0 <= #[trigger] offset_at(self.instrs(), j)
                    <= usize::MAX,
    {
        assert forall|j: int|
            0 <= j < self.instrs().len() implies 0 <= #[trigger] offset_at(self.instrs(), j)
            <= usize::MAX by {
            assert(self.offsets@[j] == offset_at(self.instructions@, j));
        }
    }

    /// The current position as a decoded index.
    pub fn position(&self) -> (r: usize)
        ensures
            r == self.cur(),
    {
        self.current
    }

    /// The instruction at the current position, advancing past it; none when
    /// the stream is exhausted.
    pub fn next(&mut self) -> (r: Option<Instruction>)
        requires
            old(self).wf(),
        ensures
            final(self).wf(),
            final(self).instrs() == old(self).instrs(),
            (old(self).cur() < old(self).instrs().len() ==> r == Some(
                old(self).instrs()[old(self).cur()],
            ) && final(self).cur() == old(self).cur() + 1),
            (old(self).cur() >= old(self).instrs().len() ==> r is None && final(self).cur() == old(
                self,
            ).cur()),
    {
        if self.current < self.instructions.len() {
            let item = self.instructions[self.current];
            self.current = self.current + 1;
            Some(item)
        } else {
            None
        }
    }
}

impl Method {
    /// The decoded instruction stream of this method's code.
    pub fn instructions(&self) -> (r: Instructions)
        requires
            spec_first_code(self.attributes@) matches Some(code) && spec_read_all(code.code@, 0)
                is Ok,
        ensures
            r.wf(),
            r.cur() == 0,
            r.instrs() == spec_read_all(
                spec_first_code(self.attributes@)->0.code@,
                0,
            )->Ok_0,
    {
        let code = match self.get_code() {
            Some(c) => c,
            None => unreached(),
        };
        let decoded = match code.instructions() {
            Ok(d) => d,
            Err(_) => unreached(),
        };
        let code_len = code.code.len();
        proof {
            lemma_spec_read_all_total_size(code.code@, 0);
            assert(total_size(decoded@) == code_len);
        }
        Instructions::create(decoded)
    }
}

} // verus!
