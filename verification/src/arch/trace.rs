//! The trace of a run: how often each instruction was retired.

use crate::isa::codec::{encode, InstructionBytes};
use crate::isa::instruction::Instruction;
use crate::isa::laws::{lemma_decode_encode, lemma_encoding_is_prefix_free};
use crate::isa::Byte;
use std::collections::HashMap;
use vstd::multiset::Multiset;
use vstd::prelude::*;

verus! {

broadcast use vstd::multiset::group_multiset_axioms;

/// The number that stands for a sequence of one to four bytes: its length
/// above the bytes, the first byte lowest.
pub open spec fn pack_spec(bytes: Seq<Byte>) -> u64 {
    let second: int = if bytes.len() > 1 {
        bytes[1] as int
    } else {
        0
    };
    let third: int = if bytes.len() > 2 {
        bytes[2] as int
    } else {
        0
    };
    let fourth: int = if bytes.len() > 3 {
        bytes[3] as int
    } else {
        0
    };
    (bytes.len() * 0x1_0000_0000 + fourth * 0x100_0000 + third * 0x1_0000 + second * 0x100
        + bytes[0]) as u64
}

/// The number under which the trace counts an instruction: the one that
/// stands for its encoding.
pub open spec fn key_spec(inst: Instruction) -> u64 {
    pack_spec(inst.encoding())
}

/// No two sequences of one to four bytes are packed into the same number.
proof fn lemma_pack_is_one_to_one(first: Seq<Byte>, second: Seq<Byte>)
    requires
        1 <= first.len() <= 4,
        1 <= second.len() <= 4,
        pack_spec(first) == pack_spec(second),
    ensures
        first == second,
{
    let low = |bytes: Seq<Byte>| -> int
        {
            (if bytes.len() > 3 {
                bytes[3] as int
            } else {
                0
            }) * 0x100_0000 + (if bytes.len() > 2 {
                bytes[2] as int
            } else {
                0
            }) * 0x1_0000 + (if bytes.len() > 1 {
                bytes[1] as int
            } else {
                0
            }) * 0x100 + bytes[0]
        };
    assert(0 <= low(first) < 0x1_0000_0000);
    assert(0 <= low(second) < 0x1_0000_0000);
    assert(pack_spec(first) == first.len() * 0x1_0000_0000 + low(first));
    assert(pack_spec(second) == second.len() * 0x1_0000_0000 + low(second));
    assert(first.len() == second.len());
    assert(low(first) == low(second));
    assert(first =~= second);
}

/// No two instructions are counted under the same number.
pub proof fn lemma_key_is_one_to_one(first: Instruction, second: Instruction)
    requires
        key_spec(first) == key_spec(second),
    ensures
        first == second,
{
    lemma_decode_encode(first, Seq::empty());
    lemma_decode_encode(second, Seq::empty());
    lemma_pack_is_one_to_one(first.encoding(), second.encoding());
    lemma_encoding_is_prefix_free(first, second);
}

/// The number under which the trace counts an instruction.
fn key(inst: &Instruction) -> (number: u64)
    ensures
        number == key_spec(*inst),
{
    let bytes = encode(*inst);
    match bytes {
        InstructionBytes::One(a) => 0x1_0000_0000 + a as u64,
        InstructionBytes::Two(a, b) => 0x2_0000_0000 + b as u64 * 0x100 + a as u64,
        InstructionBytes::Three(a, b, c) => 0x3_0000_0000 + c as u64 * 0x1_0000 + b as u64 * 0x100
            + a as u64,
        InstructionBytes::Four(a, b, c, d) => 0x4_0000_0000 + d as u64 * 0x100_0000 + c as u64
            * 0x1_0000 + b as u64 * 0x100 + a as u64,
    }
}

/// A histogram of the instructions that a run retired.
pub struct Trace {
    executed: HashMap<u64, usize>,
    seen: Vec<Instruction>,
    total: usize,
    retired: Ghost<Multiset<Instruction>>,
}

impl View for Trace {
    type V = Multiset<Instruction>;

    /// The instructions that were retired, each as often as it was.
    closed spec fn view(&self) -> Multiset<Instruction> {
        self.retired@
    }
}

impl Trace {
    /// The counts that the trace keeps agree with the retirements it was
    /// told of. Every trace that this module hands out is well formed.
    pub closed spec fn wf(&self) -> bool {
        &&& self.total == self.retired@.len()
        &&& forall|inst: Instruction|
            self.retired@.count(inst) > 0 ==> #[trigger] self.executed@.contains_key(
                key_spec(inst),
            ) && self.executed@[key_spec(inst)] == self.retired@.count(inst)
        &&& forall|inst: Instruction|
            self.retired@.count(inst) == 0 ==> !#[trigger] self.executed@.contains_key(
                key_spec(inst),
            )
        &&& forall|inst: Instruction|
            self.retired@.count(inst) > 0 <==> #[trigger] self.seen@.contains(inst)
        &&& self.seen@.no_duplicates()
    }

    /// The empty trace.
    pub fn new() -> (trace: Trace)
        ensures
            trace.wf(),
            trace@ == Multiset::<Instruction>::empty(),
    {
        Trace {
            executed: HashMap::new(),
            seen: Vec::new(),
            total: 0,
            retired: Ghost(Multiset::empty()),
        }
    }

    /// Counts one more retirement of an instruction. The trace holds fewer
    /// than `usize::MAX` retirements.
    pub fn add(&mut self, inst: &Instruction)
        requires
            old(self).wf(),
            old(self)@.len() < usize::MAX,
        ensures
            final(self).wf(),
            final(self)@ == old(self)@.insert(*inst),
    {
        let number = key(inst);
        let count = match self.executed.get(&number) {
            Some(count) => *count,
            None => 0,
        };
        let ghost before = self.retired@;
        let ghost counts = self.executed@;
        let ghost known = self.seen@;
        proof {
            assert(count == before.count(*inst));
            assert(before.count(*inst) <= before.len());
        }
        if count == 0 {
            self.seen.push(*inst);
        }
        self.executed.insert(number, count + 1);
        self.total = self.total + 1;
        self.retired = Ghost(before.insert(*inst));
        proof {
            let after = before.insert(*inst);
            assert(self.executed@ == counts.insert(number, (count + 1) as usize));
            assert forall|other: Instruction| other != *inst implies key_spec(other) != number
                && after.count(other) == before.count(other) by {
                if key_spec(other) == number {
                    lemma_key_is_one_to_one(other, *inst);
                }
            }
            assert(after.count(*inst) == count + 1);
            assert forall|other: Instruction| after.count(other) > 0 implies #[trigger] self
                .executed@.contains_key(key_spec(other)) && self.executed@[key_spec(other)]
                == after.count(other) by {
                if other != *inst {
                    assert(counts.contains_key(key_spec(other)));
                }
            }
            assert forall|other: Instruction| after.count(other) == 0 implies !#[trigger] self
                .executed@.contains_key(key_spec(other)) by {
                if other != *inst {
                    assert(!counts.contains_key(key_spec(other)));
                }
            }
            if count == 0 {
                assert(!known.contains(*inst));
                assert(self.seen@ == known.push(*inst));
                assert(self.seen@.last() == *inst);
                assert forall|other: Instruction|
                    after.count(other) > 0 <==> #[trigger] self.seen@.contains(other) by {
                    if other != *inst {
                        if known.contains(other) {
                            let at = choose|at: int| 0 <= at < known.len() && known[at] == other;
                            assert(self.seen@[at] == other);
                        }
                        if self.seen@.contains(other) {
                            let at = choose|at: int|
                                0 <= at < self.seen@.len() && self.seen@[at] == other;
                            assert(known[at] == other);
                        }
                    } else {
                        assert(self.seen@[known.len() as int] == other);
                    }
                }
            } else {
                assert(known.contains(*inst));
                assert forall|other: Instruction|
                    after.count(other) > 0 <==> #[trigger] self.seen@.contains(other) by {}
            }
        }
    }

    /// How many instructions were retired in all.
    pub fn total_execution_count(&self) -> (count: usize)
        requires
            self.wf(),
        ensures
            count == self@.len(),
    {
        self.total
    }

    /// The instructions that were retired, each once, with the number of its
    /// retirements.
    pub fn entries(&self) -> (entries: Vec<(Instruction, usize)>)
        requires
            self.wf(),
        ensures
            forall|at: int|
                0 <= at < entries.len() ==> 0 < (#[trigger] entries[at]).1 == self@.count(
                    entries[at].0,
                ),
            forall|first: int, second: int|
                0 <= first < second < entries.len() ==> (#[trigger] entries[first]).0
                    != (#[trigger] entries[second]).0,
            forall|inst: Instruction|
                self@.count(inst) > 0 ==> exists|at: int|
                    0 <= at < entries.len() && (#[trigger] entries[at]).0 == inst,
    {
        let mut entries: Vec<(Instruction, usize)> = Vec::new();
        let mut at: usize = 0;
        while at < self.seen.len()
            invariant
                self.wf(),
                at <= self.seen.len(),
                entries.len() == at,
                forall|i: int|
                    0 <= i < at ==> (#[trigger] entries[i]).0 == self.seen[i] && entries[i].1
                        == self@.count(self.seen[i]),
            decreases self.seen.len() - at,
        {
            let inst = self.seen[at];
            let count = self.count(&inst);
            entries.push((inst, count));
            at = at + 1;
        }
        proof {
            assert forall|i: int| 0 <= i < entries.len() implies 0 < (#[trigger] entries[i]).1 by {
                assert(self.seen@.contains(self.seen[i]));
            }
            assert forall|inst: Instruction| self@.count(inst) > 0 implies exists|i: int|
                0 <= i < entries.len() && (#[trigger] entries[i]).0 == inst by {
                assert(self.seen@.contains(inst));
                let i = choose|i: int| 0 <= i < self.seen.len() && self.seen[i] == inst;
                assert(entries[i].0 == inst);
            }
        }
        entries
    }

    /// How often an instruction was retired.
    pub fn count(&self, inst: &Instruction) -> (count: usize)
        requires
            self.wf(),
        ensures
            count == self@.count(*inst),
    {
        match self.executed.get(&key(inst)) {
            Some(count) => *count,
            None => 0,
        }
    }
}

} // verus!
