//! Properties of the checker, stated over the models and proved.
use vstd::prelude::*;
use crate::error::{ErrorKind, ProofError};
use crate::instruction::{is_supported, spec_decode, Instruction};
use crate::machine::{apply, entry_term, run_from, spec_implies, spec_verify, succeed, SpecMachine};
use crate::term::{spec_instantiate, SpecEntry, SpecPattern, SpecTerm};

verus! {

/// Whether `p` is built from implications and meta-variables alone, the shapes
/// that substitution handles.
pub open spec fn substitutable(p: SpecPattern) -> bool
    decreases p,
{
    match p {
        SpecPattern::Implication(l, r) => substitutable(*l) && substitutable(*r),
        SpecPattern::MetaVar { .. } => true,
        _ => false,
    }
}

/// Whether the meta-variable `id` occurs anywhere in `p`.
pub open spec fn mentions_metavar(p: SpecPattern, id: u64) -> bool
    decreases p,
{
    match p {
        SpecPattern::Implication(l, r) => mentions_metavar(*l, id) || mentions_metavar(*r, id),
        SpecPattern::Application(l, r) => mentions_metavar(*l, id) || mentions_metavar(*r, id),
        SpecPattern::Exists(_, b) => mentions_metavar(*b, id),
        SpecPattern::Mu(_, b) => mentions_metavar(*b, id),
        SpecPattern::MetaVar { id: i, .. } => i == id,
        _ => false,
    }
}

/// A run is a function of the machine it starts on and of the stream: two runs
/// of equal streams end on equal machines with equal outcomes.
pub proof fn lemma_run_deterministic(m: SpecMachine, a: Seq<u64>, b: Seq<u64>)
    requires
        a == b,
    ensures
        run_from(m, a, 0) == run_from(m, b, 0),
        spec_verify(a) == spec_verify(b),
{
}

/// Modus ponens compares patterns by value: it succeeds whenever the proved
/// antecedent equals the implication's left side as a tree, however either was
/// built, and leaves the right side proved in place of the two.
pub proof fn lemma_modus_ponens_structural(
    m: SpecMachine,
    left: SpecPattern,
    right: SpecPattern,
    antecedent: SpecPattern,
    operand: Option<u64>,
)
    requires
        m.stack.len() >= 2,
        m.stack.last() == SpecTerm::Proved(spec_implies(left, right)),
        m.stack[m.stack.len() - 2] == SpecTerm::Proved(antecedent),
        antecedent == left,
    ensures
        apply(m, Instruction::ModusPonens, operand) == succeed(
            m,
            m.stack.subrange(0, m.stack.len() - 2).push(SpecTerm::Proved(right)),
        ),
{
    assert(m.stack.drop_last().drop_last() =~= m.stack.subrange(0, m.stack.len() - 2));
}

/// Substituting for a meta-variable that does not occur leaves a pattern of
/// implications and meta-variables as it was.
pub proof fn lemma_instantiate_absent(p: SpecPattern, id: u64, plug: SpecPattern)
    requires
        substitutable(p),
        !mentions_metavar(p, id),
    ensures
        spec_instantiate(p, id, plug) == Some(p),
    decreases p,
{
    if let SpecPattern::Implication(l, r) = p {
        lemma_instantiate_absent(*l, id, plug);
        lemma_instantiate_absent(*r, id, plug);
    }
}

/// Substitution succeeds exactly on patterns built from implications and
/// meta-variables.
pub proof fn lemma_instantiate_defined(p: SpecPattern, id: u64, plug: SpecPattern)
    ensures
        spec_instantiate(p, id, plug) is Some <==> substitutable(p),
    decreases p,
{
    if let SpecPattern::Implication(l, r) = p {
        lemma_instantiate_defined(*l, id, plug);
        lemma_instantiate_defined(*r, id, plug);
    }
}

/// Substituting for a meta-variable in that meta-variable gives the plug.
pub proof fn lemma_instantiate_metavar(
    id: u64,
    e_fresh: Seq<u64>,
    s_fresh: Seq<u64>,
    positive: Seq<u64>,
    negative: Seq<u64>,
    application_context: Seq<u64>,
    plug: SpecPattern,
)
    ensures
        spec_instantiate(
            SpecPattern::MetaVar { id, e_fresh, s_fresh, positive, negative, application_context },
            id,
            plug,
        ) == Some(plug),
{
}

/// No instruction removes or changes a memory entry: what was stored at an
/// index stays there.
pub proof fn lemma_apply_memory_grows(m: SpecMachine, instr: Instruction, operand: Option<u64>)
    ensures
        m.memory.len() <= apply(m, instr, operand).0.memory.len(),
        apply(m, instr, operand).0.memory.subrange(0, m.memory.len() as int) == m.memory,
{
    assert(m.memory.subrange(0, m.memory.len() as int) =~= m.memory);
    assert forall|e: SpecEntry| #[trigger] m.memory.push(e).subrange(0, m.memory.len() as int) == m.memory by {
        assert(m.memory.push(e).subrange(0, m.memory.len() as int) =~= m.memory);
    }
}

/// Over a whole run, successful or not, memory only grows at its end: indices
/// are never renumbered.
pub proof fn lemma_run_memory_grows(m: SpecMachine, proof: Seq<u64>, pos: nat)
    ensures
        m.memory.len() <= run_from(m, proof, pos).0.memory.len(),
        run_from(m, proof, pos).0.memory.subrange(0, m.memory.len() as int) == m.memory,
    decreases proof.len() - pos,
{
    if pos >= proof.len() {
        assert(m.memory.subrange(0, m.memory.len() as int) =~= m.memory);
    } else {
        match spec_decode(proof[pos as int]) {
            None => {
                assert(m.memory.subrange(0, m.memory.len() as int) =~= m.memory);
            },
            Some(instr) => {
                let operand = if pos + 1 < proof.len() {
                    Some(proof[pos + 1int])
                } else {
                    None
                };
                lemma_apply_memory_grows(m, instr, operand);
                let m1 = apply(m, instr, operand).0;
                if apply(m, instr, operand).1 is None {
                    let next = crate::machine::next_position(proof, pos);
                    lemma_run_memory_grows(m1, proof, next);
                    let m2 = run_from(m1, proof, next).0;
                    assert(m2.memory.subrange(0, m.memory.len() as int) =~= m2.memory.subrange(
                        0,
                        m1.memory.len() as int,
                    ).subrange(0, m.memory.len() as int));
                }
            },
        }
    }
}

/// `Save` appends the top of the stack to memory, at the index equal to the
/// memory's former length, and leaves the stack as it was.
pub proof fn lemma_save_appends(m: SpecMachine, operand: Option<u64>)
    requires
        m.stack.len() > 0,
        !(m.stack.last() is List),
    ensures
        apply(m, Instruction::Save, operand).1 is None,
        apply(m, Instruction::Save, operand).0.stack == m.stack,
        apply(m, Instruction::Save, operand).0.memory.len() == m.memory.len() + 1,
        entry_term(apply(m, Instruction::Save, operand).0.memory[m.memory.len() as int])
            == m.stack.last(),
{
}

/// `Load i` pushes the entry at insertion position `i`, and fails with
/// `OutOfRange` when no entry has that index.
pub proof fn lemma_load(m: SpecMachine, index: u64)
    ensures
        index < m.memory.len() ==> apply(m, Instruction::Load, Some(index)) == succeed(
            m,
            m.stack.push(entry_term(m.memory[index as int])),
        ),
        index >= m.memory.len() ==> apply(m, Instruction::Load, Some(index)) == (
            m,
            Some(ErrorKind::OutOfRange),
        ),
{
}

/// An instruction without fixed semantics fails with `NotImplemented` and
/// leaves stack, memory and journal untouched, whatever the machine holds.
pub proof fn lemma_reserved_rejected(m: SpecMachine, instr: Instruction, operand: Option<u64>)
    requires
        !is_supported(instr),
    ensures
        apply(m, instr, operand) == (m, Some(ErrorKind::NotImplemented)),
{
}

/// In a stream, a reserved opcode ends the run at its position, on the machine
/// as the instructions before it left it.
pub proof fn lemma_reserved_stops_run(m: SpecMachine, proof: Seq<u64>, pos: nat, instr: Instruction)
    requires
        pos < proof.len(),
        spec_decode(proof[pos as int]) == Some(instr),
        !is_supported(instr),
    ensures
        run_from(m, proof, pos) == (
            m,
            Some(ProofError { kind: ErrorKind::NotImplemented, position: pos as usize }),
        ),
{
}

} // verus!
