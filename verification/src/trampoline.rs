//! The forwarding trampolines of a shim: for each forwarded export one jump
//! through the export's slot, which passes arguments, return value and stack
//! on as they are.
//!
//! A trampoline checks nothing. If its slot still holds the trap, the trap
//! fails. And it passes on whatever it is called with: that a caller hands a
//! forwarded export the arguments which the export expects is the caller's
//! business, here as with the real library. Only a function that replaces an
//! export is held to a shape, by its marker type.

use vstd::prelude::*;
use vstd::string::*;
use crate::symbols::{slot_ident, spec_slot_ident};
use crate::target::{Encoding, TargetDescriptor};
use crate::text::join;

verus! {

/// The jump through the slot named `operand`, in AT&T syntax. With absolute
/// addressing the slot's address stands in the instruction; in the wider
/// address space the slot is reached relative to the instruction pointer.
/// Either way the instruction touches no register and no stack.
pub open spec fn spec_instruction(encoding: Encoding, operand: Seq<char>) -> Seq<char> {
    match encoding {
        Encoding::Absolute => "jmpl *("@ + operand + ")"@,
        Encoding::IpRelative => "jmpq *"@ + operand + "(%rip)"@,
    }
}

/// The name that stands for the slot in the template of an instruction.
pub open spec fn spec_placeholder() -> Seq<char> {
    "{proc}"@
}

/// The jump through the slot named `operand`.
pub fn instruction(encoding: Encoding, operand: &str) -> (r: String)
    ensures
        r@ == spec_instruction(encoding, operand@),
{
    match encoding {
        Encoding::Absolute => {
            let mut r = join("jmpl *(", operand);
            r.append(")");
            r
        },
        Encoding::IpRelative => {
            let mut r = join("jmpq *", operand);
            r.append("(%rip)");
            r
        },
    }
}

/// The jump of an encoding with a placeholder for the slot, as an assembler
/// template takes it.
pub fn template(encoding: Encoding) -> (r: String)
    ensures
        r@ == spec_instruction(encoding, spec_placeholder()),
{
    instruction(encoding, "{proc}")
}

/// The trampoline of one forwarded export.
#[derive(Debug)]
pub struct Trampoline {
    /// The name under which the trampoline is exported: that of the export.
    pub export: String,
    /// The name of the slot that it jumps through.
    pub slot: String,
    /// How it reaches the slot.
    pub encoding: Encoding,
}

/// The mathematical value of a [`Trampoline`].
pub struct TrampolineView {
    pub export: Seq<char>,
    pub slot: Seq<char>,
    pub encoding: Encoding,
}

impl View for Trampoline {
    type V = TrampolineView;

    open spec fn view(&self) -> TrampolineView {
        TrampolineView { export: self.export@, slot: self.slot@, encoding: self.encoding }
    }
}

/// The trampoline of an export: it bears the export's name and jumps through
/// the export's slot.
pub open spec fn spec_trampoline(encoding: Encoding, export: Seq<char>) -> TrampolineView {
    TrampolineView { export, slot: spec_slot_ident(export), encoding }
}

/// The trampolines of the forwarded exports, one for each and in their
/// order.
pub open spec fn spec_trampolines(encoding: Encoding, forwarded: Seq<Seq<char>>) -> Seq<
    TrampolineView,
> {
    Seq::new(forwarded.len(), |i: int| spec_trampoline(encoding, forwarded[i]))
}

pub open spec fn trampolines_view(trampolines: Seq<Trampoline>) -> Seq<TrampolineView> {
    Seq::new(trampolines.len(), |i: int| trampolines[i]@)
}

impl Trampoline {
    /// The trampoline of an export for an encoding.
    pub fn emit(encoding: Encoding, export: &str) -> (t: Trampoline)
        ensures
            t@ == spec_trampoline(encoding, export@),
    {
        Trampoline { export: String::from_str(export), slot: slot_ident(export), encoding }
    }

    /// The instruction that the trampoline consists of.
    pub fn instruction(&self) -> (r: String)
        ensures
            r@ == spec_instruction(self@.encoding, self@.slot),
    {
        instruction(self.encoding, self.slot.as_str())
    }
}

/// The trampolines of the forwarded exports for a target, whose pointer
/// width decides the encoding.
pub fn emit_trampolines(target: TargetDescriptor, forwarded: &Vec<String>) -> (r: Vec<Trampoline>)
    ensures
        trampolines_view(r@) == spec_trampolines(target.spec_encoding(), forwarded.deep_view()),
{
    let encoding = target.encoding();
    let mut r: Vec<Trampoline> = Vec::new();
    let mut i: usize = 0;
    while i < forwarded.len()
        invariant
            0 <= i <= forwarded.len(),
            encoding == target.spec_encoding(),
            r.len() == i,
            forall|j: int|
                0 <= j < i ==> (#[trigger] r[j])@ == spec_trampoline(
                    encoding,
                    forwarded.deep_view()[j],
                ),
        decreases forwarded.len() - i,
    {
        assert(forwarded.deep_view()[i as int] == forwarded[i as int]@);
        r.push(Trampoline::emit(encoding, forwarded[i].as_str()));
        i += 1;
    }
    assert(trampolines_view(r@) =~= spec_trampolines(encoding, forwarded.deep_view()));
    r
}

/// The two encodings never give the same instruction, and an instruction
/// names one slot only.
pub proof fn lemma_instruction_distinct(a: Encoding, b: Encoding, x: Seq<char>, y: Seq<char>)
    ensures
        spec_instruction(a, x) == spec_instruction(b, y) <==> a == b && x == y,
{
    reveal_strlit("jmpl *(");
    reveal_strlit(")");
    reveal_strlit("jmpq *");
    reveal_strlit("(%rip)");
    let p = spec_instruction(a, x);
    let q = spec_instruction(b, y);
    if p == q {
        assert(p[3] == q[3]);
        assert(a == b);
        match a {
            Encoding::Absolute => {
                assert(p.len() == x.len() + 8);
                assert(q.len() == y.len() + 8);
                assert(p.subrange(7, 7 + x.len() as int) =~= x);
                assert(q.subrange(7, 7 + y.len() as int) =~= y);
            },
            Encoding::IpRelative => {
                assert(p.len() == x.len() + 12);
                assert(q.len() == y.len() + 12);
                assert(p.subrange(6, 6 + x.len() as int) =~= x);
                assert(q.subrange(6, 6 + y.len() as int) =~= y);
            },
        }
    }
}

} // verus!
