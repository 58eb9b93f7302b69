//! The stack machine that replays a proof stream: its state, the meaning of
//! each rule, and the dispatch loop.
use std::rc::Rc;
use vstd::prelude::*;
use crate::error::{ErrorKind, ProofError};
use crate::instruction::{has_operand, spec_decode, Instruction};
use crate::term::{
    entries_view, instantiate, metavar_unconstrained, patterns_equal, spec_instantiate,
    spec_metavar, terms_view, Entry, Pattern, SpecEntry, SpecPattern, SpecTerm, Term,
};

verus! {

/// Working values; the top is the last element.
pub type Stack = Vec<Term>;

/// Append-only store of saved entries, indexed by insertion order.
pub type Memory = Vec<Entry>;

/// Append-only log of published entries.
pub type Journal = Vec<Entry>;

/// The model of a machine: stack, memory and journal.
pub struct SpecMachine {
    pub stack: Seq<SpecTerm>,
    pub memory: Seq<SpecEntry>,
    pub journal: Seq<SpecEntry>,
}

/// The machine at the start of a run: everything empty.
pub open spec fn initial_machine() -> SpecMachine {
    SpecMachine { stack: seq![], memory: seq![], journal: seq![] }
}

/// The model of the three executable parts of a machine.
pub open spec fn machine_view(stack: Seq<Term>, memory: Seq<Entry>, journal: Seq<Entry>) -> SpecMachine {
    SpecMachine { stack: terms_view(stack), memory: entries_view(memory), journal: entries_view(journal) }
}

/// `m` with its stack replaced.
pub open spec fn with_stack(m: SpecMachine, stack: Seq<SpecTerm>) -> SpecMachine {
    SpecMachine { stack, ..m }
}

/// `m` with its stack replaced, after a failure of kind `e`.
pub open spec fn fail(m: SpecMachine, stack: Seq<SpecTerm>, e: ErrorKind) -> (SpecMachine, Option<ErrorKind>) {
    (with_stack(m, stack), Some(e))
}

/// `m` with its stack replaced, after a success.
pub open spec fn succeed(m: SpecMachine, stack: Seq<SpecTerm>) -> (SpecMachine, Option<ErrorKind>) {
    (with_stack(m, stack), None)
}

/// `a -> b` in the model.
pub open spec fn spec_implies(a: SpecPattern, b: SpecPattern) -> SpecPattern {
    SpecPattern::Implication(Box::new(a), Box::new(b))
}

/// The meta-variable `id` with every side-condition set empty.
pub open spec fn phi(id: u64) -> SpecPattern {
    spec_metavar(id, seq![])
}

/// The first propositional axiom: `phi0 -> (phi1 -> phi0)`.
pub open spec fn spec_prop1() -> SpecPattern {
    spec_implies(phi(0), spec_implies(phi(1), phi(0)))
}

/// The second propositional axiom:
/// `(phi0 -> (phi1 -> phi2)) -> ((phi0 -> phi1) -> (phi0 -> phi2))`.
pub open spec fn spec_prop2() -> SpecPattern {
    spec_implies(
        spec_implies(phi(0), spec_implies(phi(1), phi(2))),
        spec_implies(spec_implies(phi(0), phi(1)), spec_implies(phi(0), phi(2))),
    )
}

/// Removes the top of the stack; on failure, the error and the stack left behind.
pub open spec fn pop_term(st: Seq<SpecTerm>) -> Result<(SpecTerm, Seq<SpecTerm>), (ErrorKind, Seq<SpecTerm>)> {
    if st.len() == 0 {
        Err((ErrorKind::StackUnderflow, st))
    } else {
        Ok((st.last(), st.drop_last()))
    }
}

/// Removes the top of the stack, which must be a list.
pub open spec fn pop_list(st: Seq<SpecTerm>) -> Result<(Seq<u64>, Seq<SpecTerm>), (ErrorKind, Seq<SpecTerm>)> {
    match pop_term(st) {
        Ok((SpecTerm::List(l), rest)) => Ok((l, rest)),
        Ok((_, rest)) => Err((ErrorKind::TypeMismatch, rest)),
        Err(e) => Err(e),
    }
}

/// Removes the top of the stack, which must be an unproved pattern.
pub open spec fn pop_pattern(st: Seq<SpecTerm>) -> Result<(SpecPattern, Seq<SpecTerm>), (ErrorKind, Seq<SpecTerm>)> {
    match pop_term(st) {
        Ok((SpecTerm::Pattern(p), rest)) => Ok((p, rest)),
        Ok((_, rest)) => Err((ErrorKind::TypeMismatch, rest)),
        Err(e) => Err(e),
    }
}

/// Removes the top of the stack, which must be a proved pattern.
pub open spec fn pop_proved(st: Seq<SpecTerm>) -> Result<(SpecPattern, Seq<SpecTerm>), (ErrorKind, Seq<SpecTerm>)> {
    match pop_term(st) {
        Ok((SpecTerm::Proved(p), rest)) => Ok((p, rest)),
        Ok((_, rest)) => Err((ErrorKind::TypeMismatch, rest)),
        Err(e) => Err(e),
    }
}

/// The stack value that a memory entry is loaded as.
pub open spec fn entry_term(e: SpecEntry) -> SpecTerm {
    match e {
        SpecEntry::Pattern(p) => SpecTerm::Pattern(p),
        SpecEntry::Proved(p) => SpecTerm::Proved(p),
    }
}

/// `MetaVar id`: pops the application-context, negative, positive, s-fresh and
/// e-fresh lists, in that order, and pushes the meta-variable.
pub open spec fn apply_metavar(m: SpecMachine, id: u64) -> (SpecMachine, Option<ErrorKind>) {
    match pop_list(m.stack) {
        Err((e, st)) => fail(m, st, e),
        Ok((application_context, st1)) => match pop_list(st1) {
            Err((e, st)) => fail(m, st, e),
            Ok((negative, st2)) => match pop_list(st2) {
                Err((e, st)) => fail(m, st, e),
                Ok((positive, st3)) => match pop_list(st3) {
                    Err((e, st)) => fail(m, st, e),
                    Ok((s_fresh, st4)) => match pop_list(st4) {
                        Err((e, st)) => fail(m, st, e),
                        Ok((e_fresh, st5)) => succeed(
                            m,
                            st5.push(
                                SpecTerm::Pattern(
                                    SpecPattern::MetaVar {
                                        id,
                                        e_fresh,
                                        s_fresh,
                                        positive,
                                        negative,
                                        application_context,
                                    },
                                ),
                            ),
                        ),
                    },
                },
            },
        },
    }
}

/// `ModusPonens`: pops `Proved(a -> b)`, then `Proved(a')`; pushes `Proved(b)`
/// when `a'` equals `a`.
pub open spec fn apply_modus_ponens(m: SpecMachine) -> (SpecMachine, Option<ErrorKind>) {
    match pop_proved(m.stack) {
        Err((e, st)) => fail(m, st, e),
        Ok((cond, st1)) => match cond {
            SpecPattern::Implication(left, right) => match pop_proved(st1) {
                Err((e, st)) => fail(m, st, e),
                Ok((antecedent, st2)) => if antecedent == *left {
                    succeed(m, st2.push(SpecTerm::Proved(*right)))
                } else {
                    fail(m, st2, ErrorKind::AntecedentMismatch)
                },
            },
            _ => fail(m, st1, ErrorKind::ExpectedImplication),
        },
    }
}

/// `InstantiateSchema`: pops the plug, then a meta-variable, then a theorem;
/// pushes the theorem with the plug substituted for the meta-variable.
pub open spec fn apply_instantiate_schema(m: SpecMachine) -> (SpecMachine, Option<ErrorKind>) {
    match pop_pattern(m.stack) {
        Err((e, st)) => fail(m, st, e),
        Ok((plug, st1)) => match pop_pattern(st1) {
            Err((e, st)) => fail(m, st, e),
            Ok((metavar, st2)) => match metavar {
                SpecPattern::MetaVar { id, .. } => match pop_proved(st2) {
                    Err((e, st)) => fail(m, st, e),
                    Ok((theorem, st3)) => match spec_instantiate(theorem, id, plug) {
                        Some(q) => succeed(m, st3.push(SpecTerm::Proved(q))),
                        None => fail(m, st3, ErrorKind::UnsupportedSubstitution),
                    },
                },
                _ => fail(m, st2, ErrorKind::ExpectedMetaVar),
            },
        },
    }
}

/// The effect of one instruction, given its immediate operand word if the
/// stream holds one: the machine afterwards, and the failure if any. Pops made
/// before a failure stay made.
pub open spec fn apply(m: SpecMachine, instr: Instruction, operand: Option<u64>) -> (SpecMachine, Option<ErrorKind>) {
    match instr {
        Instruction::List => match operand {
            None => (m, Some(ErrorKind::UnexpectedEndOfStream)),
            Some(len) => if len != 0 {
                (m, Some(ErrorKind::UnsupportedListLength))
            } else {
                succeed(m, m.stack.push(SpecTerm::List(seq![])))
            },
        },
        Instruction::Implication => match pop_pattern(m.stack) {
            Err((e, st)) => fail(m, st, e),
            Ok((right, st1)) => match pop_pattern(st1) {
                Err((e, st)) => fail(m, st, e),
                Ok((left, st2)) => succeed(m, st2.push(SpecTerm::Pattern(spec_implies(left, right)))),
            },
        },
        Instruction::MetaVar => match operand {
            None => (m, Some(ErrorKind::UnexpectedEndOfStream)),
            Some(id) => apply_metavar(m, id),
        },
        Instruction::Prop1 => succeed(m, m.stack.push(SpecTerm::Proved(spec_prop1()))),
        Instruction::Prop2 => succeed(m, m.stack.push(SpecTerm::Proved(spec_prop2()))),
        Instruction::ModusPonens => apply_modus_ponens(m),
        Instruction::InstantiateSchema => apply_instantiate_schema(m),
        Instruction::Save => if m.stack.len() == 0 {
            (m, Some(ErrorKind::StackUnderflow))
        } else {
            match m.stack.last() {
                SpecTerm::Pattern(p) => (SpecMachine { memory: m.memory.push(SpecEntry::Pattern(p)), ..m }, None),
                SpecTerm::Proved(p) => (SpecMachine { memory: m.memory.push(SpecEntry::Proved(p)), ..m }, None),
                SpecTerm::List(_) => (m, Some(ErrorKind::CannotPersistList)),
            }
        },
        Instruction::Load => match operand {
            None => (m, Some(ErrorKind::UnexpectedEndOfStream)),
            Some(index) => if index < m.memory.len() {
                succeed(m, m.stack.push(entry_term(m.memory[index as int])))
            } else {
                (m, Some(ErrorKind::OutOfRange))
            },
        },
        _ => (m, Some(ErrorKind::NotImplemented)),
    }
}

/// The word after position `pos`, if the stream holds one.
pub open spec fn operand_at(proof: Seq<u64>, pos: nat) -> Option<u64> {
    if pos + 1 < proof.len() {
        Some(proof[pos + 1int])
    } else {
        None
    }
}

/// Where the instruction after the one at `pos` starts.
pub open spec fn next_position(proof: Seq<u64>, pos: nat) -> nat {
    match spec_decode(proof[pos as int]) {
        Some(i) => if has_operand(i) {
            pos + 2
        } else {
            pos + 1
        },
        None => pos + 1,
    }
}

/// Replays `proof` from position `pos` on machine `m`: the machine at the end,
/// and the first failure with the position of its opcode, if any.
pub open spec fn run_from(m: SpecMachine, proof: Seq<u64>, pos: nat) -> (SpecMachine, Option<ProofError>)
    decreases proof.len() - pos,
{
    if pos >= proof.len() {
        (m, None)
    } else {
        match spec_decode(proof[pos as int]) {
            None => (m, Some(ProofError { kind: ErrorKind::BadOpcode, position: pos as usize })),
            Some(instr) => {
                let (m1, err) = apply(m, instr, operand_at(proof, pos));
                match err {
                    Some(kind) => (m1, Some(ProofError { kind, position: pos as usize })),
                    None => run_from(m1, proof, next_position(proof, pos)),
                }
            },
        }
    }
}

/// Replays `proof` on a fresh machine.
pub open spec fn spec_verify(proof: Seq<u64>) -> (SpecMachine, Option<ProofError>) {
    run_from(initial_machine(), proof, 0)
}

proof fn lemma_terms_pop(s: Seq<Term>)
    requires
        s.len() > 0,
    ensures
        terms_view(s.drop_last()) == terms_view(s).drop_last(),
        terms_view(s).last() == s.last()@,
{
    assert(terms_view(s.drop_last()) =~= terms_view(s).drop_last());
}

proof fn lemma_terms_push(s: Seq<Term>, t: Term)
    ensures
        terms_view(s.push(t)) == terms_view(s).push(t@),
{
    assert(terms_view(s.push(t)) =~= terms_view(s).push(t@));
}

proof fn lemma_entries_push(s: Seq<Entry>, e: Entry)
    ensures
        entries_view(s.push(e)) == entries_view(s).push(e@),
{
    assert(entries_view(s.push(e)) =~= entries_view(s).push(e@));
}

/// Pops the top of the stack.
pub fn pop_stack(stack: &mut Stack) -> (r: Result<Term, ErrorKind>)
    ensures
        match pop_term(terms_view(old(stack)@)) {
            Ok((t, rest)) => r matches Ok(x) && x@ == t && terms_view(final(stack)@) == rest,
            Err((e, rest)) => r == Err::<Term, ErrorKind>(e) && terms_view(final(stack)@) == rest,
        },
{
    proof {
        if stack@.len() > 0 {
            lemma_terms_pop(stack@);
        }
    }
    match stack.pop() {
        Some(t) => Ok(t),
        None => Err(ErrorKind::StackUnderflow),
    }
}

/// Pops the top of the stack, which must be a list.
pub fn pop_stack_list(stack: &mut Stack) -> (r: Result<Vec<u64>, ErrorKind>)
    ensures
        match pop_list(terms_view(old(stack)@)) {
            Ok((l, rest)) => r matches Ok(x) && x@ == l && terms_view(final(stack)@) == rest,
            Err((e, rest)) => r == Err::<Vec<u64>, ErrorKind>(e) && terms_view(final(stack)@) == rest,
        },
{
    match pop_stack(stack)? {
        Term::List(l) => Ok(l),
        _ => Err(ErrorKind::TypeMismatch),
    }
}

/// Pops the top of the stack, which must be an unproved pattern.
pub fn pop_stack_pattern(stack: &mut Stack) -> (r: Result<Rc<Pattern>, ErrorKind>)
    ensures
        match pop_pattern(terms_view(old(stack)@)) {
            Ok((p, rest)) => r matches Ok(x) && x@ == p && terms_view(final(stack)@) == rest,
            Err((e, rest)) => r == Err::<Rc<Pattern>, ErrorKind>(e) && terms_view(final(stack)@) == rest,
        },
{
    match pop_stack(stack)? {
        Term::Pattern(p) => Ok(p),
        _ => Err(ErrorKind::TypeMismatch),
    }
}

/// Pops the top of the stack, which must be a proved pattern.
pub fn pop_stack_proved(stack: &mut Stack) -> (r: Result<Rc<Pattern>, ErrorKind>)
    ensures
        match pop_proved(terms_view(old(stack)@)) {
            Ok((p, rest)) => r matches Ok(x) && x@ == p && terms_view(final(stack)@) == rest,
            Err((e, rest)) => r == Err::<Rc<Pattern>, ErrorKind>(e) && terms_view(final(stack)@) == rest,
        },
{
    match pop_stack(stack)? {
        Term::Proved(p) => Ok(p),
        _ => Err(ErrorKind::TypeMismatch),
    }
}

/// The failure that a result reports, if any.
pub open spec fn failure_of<E>(r: Result<(), E>) -> Option<E> {
    match r {
        Ok(()) => None,
        Err(e) => Some(e),
    }
}

/// Carries out one instruction, given the word after its opcode if the stream
/// holds one, and the two propositional axioms built for this run.
pub fn execute_instruction(
    instr: Instruction,
    operand: Option<u64>,
    prop1: &Rc<Pattern>,
    prop2: &Rc<Pattern>,
    stack: &mut Stack,
    memory: &mut Memory,
    journal: &Journal,
) -> (r: Result<(), ErrorKind>)
    requires
        prop1@ == spec_prop1(),
        prop2@ == spec_prop2(),
    ensures
        (machine_view(final(stack)@, final(memory)@, journal@), failure_of(r)) == apply(
            machine_view(old(stack)@, old(memory)@, journal@),
            instr,
            operand,
        ),
{
    proof {
        lemma_memory_unchanged(old(memory)@);
    }
    match instr {
        Instruction::List => {
            let len = match operand {
                Some(n) => n,
                None => return Err(ErrorKind::UnexpectedEndOfStream),
            };
            if len != 0 {
                return Err(ErrorKind::UnsupportedListLength);
            }
            let t = Term::List(Vec::new());
            proof {
                lemma_terms_push(stack@, t);
            }
            stack.push(t);
            Ok(())
        },
        Instruction::Implication => {
            let right = pop_stack_pattern(stack)?;
            let left = pop_stack_pattern(stack)?;
            let t = Term::Pattern(crate::term::implies(left, right));
            proof {
                lemma_terms_push(stack@, t);
            }
            stack.push(t);
            Ok(())
        },
        Instruction::MetaVar => {
            let id = match operand {
                Some(n) => n,
                None => return Err(ErrorKind::UnexpectedEndOfStream),
            };
            let application_context = pop_stack_list(stack)?;
            let negative = pop_stack_list(stack)?;
            let positive = pop_stack_list(stack)?;
            let s_fresh = pop_stack_list(stack)?;
            let e_fresh = pop_stack_list(stack)?;
            let t = Term::Pattern(
                Rc::new(
                    Pattern::MetaVar { id, e_fresh, s_fresh, positive, negative, application_context },
                ),
            );
            proof {
                lemma_terms_push(stack@, t);
            }
            stack.push(t);
            Ok(())
        },
        Instruction::Prop1 => {
            let t = Term::Proved(Rc::clone(prop1));
            proof {
                lemma_terms_push(stack@, t);
            }
            stack.push(t);
            Ok(())
        },
        Instruction::Prop2 => {
            let t = Term::Proved(Rc::clone(prop2));
            proof {
                lemma_terms_push(stack@, t);
            }
            stack.push(t);
            Ok(())
        },
        Instruction::ModusPonens => {
            let cond = pop_stack_proved(stack)?;
            match &*cond {
                Pattern::Implication { left, right } => {
                    let antecedent = pop_stack_proved(stack)?;
                    if !patterns_equal(&antecedent, left) {
                        return Err(ErrorKind::AntecedentMismatch);
                    }
                    let t = Term::Proved(Rc::clone(right));
                    proof {
                        lemma_terms_push(stack@, t);
                    }
                    stack.push(t);
                    Ok(())
                },
                _ => Err(ErrorKind::ExpectedImplication),
            }
        },
        Instruction::InstantiateSchema => {
            let plug = pop_stack_pattern(stack)?;
            let metavar = pop_stack_pattern(stack)?;
            match &*metavar {
                Pattern::MetaVar { id, .. } => {
                    let theorem = pop_stack_proved(stack)?;
                    let q = instantiate(theorem, *id, plug)?;
                    let t = Term::Proved(q);
                    proof {
                        lemma_terms_push(stack@, t);
                    }
                    stack.push(t);
                    Ok(())
                },
                _ => Err(ErrorKind::ExpectedMetaVar),
            }
        },
        Instruction::Save => {
            if stack.len() == 0 {
                return Err(ErrorKind::StackUnderflow);
            }
            proof {
                lemma_terms_pop(stack@);
            }
            let e = match &stack[stack.len() - 1] {
                Term::Pattern(p) => Entry::Pattern(Rc::clone(p)),
                Term::Proved(p) => Entry::Proved(Rc::clone(p)),
                Term::List(_) => return Err(ErrorKind::CannotPersistList),
            };
            proof {
                lemma_entries_push(memory@, e);
            }
            memory.push(e);
            Ok(())
        },
        Instruction::Load => {
            let index = match operand {
                Some(n) => n,
                None => return Err(ErrorKind::UnexpectedEndOfStream),
            };
            if index >= memory.len() as u64 {
                return Err(ErrorKind::OutOfRange);
            }
            let t = match &memory[index as usize] {
                Entry::Pattern(p) => Term::Pattern(Rc::clone(p)),
                Entry::Proved(p) => Term::Proved(Rc::clone(p)),
            };
            proof {
                lemma_terms_push(stack@, t);
            }
            stack.push(t);
            Ok(())
        },
        _ => Err(ErrorKind::NotImplemented),
    }
}

proof fn lemma_memory_unchanged(s: Seq<Entry>)
    ensures
        forall|i: int| 0 <= i < s.len() ==> #[trigger] entries_view(s)[i] == s[i]@,
{
}

/// Builds the two propositional axioms over the meta-variables 0, 1 and 2.
fn axioms() -> (r: (Rc<Pattern>, Rc<Pattern>))
    ensures
        r.0@ == spec_prop1(),
        r.1@ == spec_prop2(),
{
    let phi0 = metavar_unconstrained(0);
    let phi1 = metavar_unconstrained(1);
    let phi2 = metavar_unconstrained(2);
    let prop1 = crate::term::implies(
        Rc::clone(&phi0),
        crate::term::implies(Rc::clone(&phi1), Rc::clone(&phi0)),
    );
    let prop2 = crate::term::implies(
        crate::term::implies(
            Rc::clone(&phi0),
            crate::term::implies(Rc::clone(&phi1), Rc::clone(&phi2)),
        ),
        crate::term::implies(
            crate::term::implies(Rc::clone(&phi0), Rc::clone(&phi1)),
            crate::term::implies(Rc::clone(&phi0), phi2),
        ),
    );
    (prop1, prop2)
}

/// Replays the proof stream on the given machine, instruction by instruction,
/// and stops at the first failure.
pub fn execute_instructions(
    proof: &[u64],
    stack: &mut Stack,
    memory: &mut Memory,
    journal: &mut Journal,
) -> (r: Result<(), ProofError>)
    ensures
        (machine_view(final(stack)@, final(memory)@, final(journal)@), failure_of(r)) == run_from(
            machine_view(old(stack)@, old(memory)@, old(journal)@),
            proof@,
            0,
        ),
{
    let (prop1, prop2) = axioms();
    let mut pos: usize = 0;
    while pos < proof.len()
        invariant
            pos <= proof.len(),
            prop1@ == spec_prop1(),
            prop2@ == spec_prop2(),
            journal@ == old(journal)@,
            run_from(machine_view(stack@, memory@, journal@), proof@, pos as nat) == run_from(
                machine_view(old(stack)@, old(memory)@, old(journal)@),
                proof@,
                0,
            ),
        decreases proof.len() - pos,
    {
        let instr = match Instruction::from(proof[pos]) {
            Some(i) => i,
            None => return Err(ProofError { kind: ErrorKind::BadOpcode, position: pos }),
        };
        let operand = if pos + 1 < proof.len() {
            Some(proof[pos + 1])
        } else {
            None
        };
        match execute_instruction(instr, operand, &prop1, &prop2, stack, memory, journal) {
            Ok(()) => {},
            Err(kind) => return Err(ProofError { kind, position: pos }),
        }
        if instr.takes_operand() {
            pos = pos + 2;
        } else {
            pos = pos + 1;
        }
    }
    Ok(())
}

/// Replays the proof stream on a fresh machine; on success, the final stack,
/// journal and memory.
pub fn verify(proof: &[u64]) -> (r: Result<(Stack, Journal, Memory), ProofError>)
    ensures
        match spec_verify(proof@) {
            (m, None) => r matches Ok((stack, journal, memory)) && machine_view(stack@, memory@, journal@) == m,
            (_, Some(e)) => r == Err::<(Stack, Journal, Memory), ProofError>(e),
        },
{
    let mut stack: Stack = Vec::new();
    let mut journal: Journal = Vec::new();
    let mut memory: Memory = Vec::new();
    proof {
        assert(terms_view(stack@) =~= seq![]);
        assert(entries_view(memory@) =~= seq![]);
        assert(entries_view(journal@) =~= seq![]);
    }
    execute_instructions(proof, &mut stack, &mut memory, &mut journal)?;
    Ok((stack, journal, memory))
}

} // verus!
