use std::collections::HashMap;
use vstd::prelude::*;

use crate::instruction::{sentinel, Instruction};
use crate::op_code::OpCode;

verus! {

broadcast use vstd::std_specs::hash::group_hash_axioms;

/// A decoded program: the length of its byte buffer and the instructions
/// that decoding found, keyed by the offset of their first byte.
pub struct Program {
    bytes_len: usize,
    instructions: HashMap<usize, Instruction>,
    end_of_program: Instruction,
    invalid_address: Instruction,
}

/// Instruction `a` ends at or before the start of instruction `b`.
pub open spec fn ends_before(a: Instruction, b: Instruction) -> bool {
    a.start_byte + a.length <= b.start_byte
}

impl Program {
    /// Length of the byte buffer.
    pub closed spec fn len_spec(&self) -> nat {
        self.bytes_len as nat
    }

    /// The recorded instructions, keyed by start offset.
    pub closed spec fn instruction_map(&self) -> Map<usize, Instruction> {
        self.instructions@
    }

    pub closed spec fn sentinels_wf(&self) -> bool {
        &&& self.end_of_program == sentinel(OpCode::EndOfProgram)
        &&& self.invalid_address == sentinel(OpCode::InvalidAddress)
    }

    /// Every recorded instruction is keyed by its start, lies inside the
    /// buffer, and no recorded instruction starts inside another one.
    pub open spec fn wf(&self) -> bool {
        &&& self.sentinels_wf()
        &&& forall|k: usize| #[trigger]
            self.instruction_map().contains_key(k) ==> {
                let i = self.instruction_map()[k];
                &&& i.start_byte == k
                &&& i.length >= 1
                &&& k + i.length <= self.len_spec()
            }
        &&& forall|k1: usize, k2: usize|
            #![trigger self.instruction_map().contains_key(k1), self.instruction_map().contains_key(k2)]
            self.instruction_map().contains_key(k1) && self.instruction_map().contains_key(k2) && k1
                < k2 ==> ends_before(self.instruction_map()[k1], self.instruction_map()[k2])
    }

    /// An empty program over a buffer of `bytes_len` bytes.
    pub fn new(bytes_len: usize) -> (r: Self)
        ensures
            r.wf(),
            r.len_spec() == bytes_len,
            r.instruction_map() == Map::<usize, Instruction>::empty(),
    {
        Self {
            bytes_len,
            instructions: HashMap::new(),
            end_of_program: Instruction::end_of_program(),
            invalid_address: Instruction::invalid_address(),
        }
    }

    /// Length of the byte buffer.
    pub fn bytes_len(&self) -> (r: usize)
        ensures
            r == self.len_spec(),
    {
        self.bytes_len
    }

    /// Records `instruction` under its start offset. It must lie inside the
    /// buffer and overlap no recorded instruction.
    pub fn insert_instruction(&mut self, instruction: Instruction)
        requires
            old(self).wf(),
            instruction.length >= 1,
            instruction.start_byte + instruction.length <= old(self).len_spec(),
            forall|k: usize| #[trigger]
                old(self).instruction_map().contains_key(k) ==> ends_before(
                    old(self).instruction_map()[k],
                    instruction,
                ) || ends_before(instruction, old(self).instruction_map()[k]),
        ensures
            final(self).wf(),
            final(self).len_spec() == old(self).len_spec(),
            final(self).instruction_map() == old(self).instruction_map().insert(
                instruction.start_byte,
                instruction,
            ),
    {
        let ghost old_map = self.instructions@;
        self.instructions.insert(instruction.start_byte, instruction);
        assert forall|k: usize| #[trigger]
            self.instruction_map().contains_key(k) implies {
                let i = self.instruction_map()[k];
                &&& i.start_byte == k
                &&& i.length >= 1
                &&& k + i.length <= self.len_spec()
            } by {
            if k != instruction.start_byte {
                assert(old_map.contains_key(k));
            }
        }
        assert forall|k1: usize, k2: usize|
            self.instruction_map().contains_key(k1) && self.instruction_map().contains_key(k2) && k1
                < k2 implies ends_before(
                self.instruction_map()[k1],
                self.instruction_map()[k2],
            ) by {
            if k1 != instruction.start_byte && k2 != instruction.start_byte {
                assert(old_map.contains_key(k1) && old_map.contains_key(k2));
            } else if k1 == instruction.start_byte {
                assert(old_map.contains_key(k2));
                assert(old_map[k2].start_byte == k2);
            } else {
                assert(old_map.contains_key(k1));
                assert(old_map[k1].start_byte == k1);
            }
        }
    }

    /// The instruction that starts at `byte`: `EndOfProgram` at or past the
    /// end of the buffer, `InvalidAddress` where no recorded instruction
    /// starts.
    pub fn get_instruction_at_byte(&self, byte: usize) -> (r: Option<&Instruction>)
        requires
            self.wf(),
        ensures
            r == Some(&lookup(*self, byte as int)),
    {
        if byte >= self.bytes_len {
            Some(&self.end_of_program)
        } else if self.instructions.contains_key(&byte) {
            self.instructions.get(&byte)
        } else {
            Some(&self.invalid_address)
        }
    }
}

/// What a lookup at `byte` returns.
pub open spec fn lookup(p: Program, byte: int) -> Instruction {
    if byte >= p.len_spec() {
        sentinel(OpCode::EndOfProgram)
    } else if 0 <= byte && p.instruction_map().contains_key(byte as usize) {
        p.instruction_map()[byte as usize]
    } else {
        sentinel(OpCode::InvalidAddress)
    }
}

/// A lookup at an offset strictly inside a recorded instruction yields the
/// `InvalidAddress` sentinel, never the instruction that holds the byte.
pub proof fn lemma_lookup_inside_instruction(p: Program, start: usize, byte: usize)
    requires
        p.wf(),
        p.instruction_map().contains_key(start),
        start < byte < start + p.instruction_map()[start].length,
    ensures
        lookup(p, byte as int) == sentinel(OpCode::InvalidAddress),
{
    if p.instruction_map().contains_key(byte) {
        assert(ends_before(p.instruction_map()[start], p.instruction_map()[byte]));
    }
}

} // verus!
