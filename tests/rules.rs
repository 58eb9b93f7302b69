use std::rc::Rc;

use checker::error::{ErrorKind, ProofError};
use checker::instruction::Instruction;
use checker::machine::{execute_instructions, verify, Journal, Memory, Stack};
use checker::term::{
    instantiate, metavar_s_fresh, metavar_unconstrained, patterns_equal, svar, Entry,
    Pattern, Term,
};

fn op(i: Instruction) -> u64 {
    i.code()
}

fn fails(proof: &[u64], kind: ErrorKind, position: usize) {
    assert_eq!(verify(proof), Err(ProofError { kind, position }));
}

const RESERVED: [Instruction; 22] = [
    Instruction::EVar,
    Instruction::SVar,
    Instruction::Symbol,
    Instruction::Application,
    Instruction::Mu,
    Instruction::Exists,
    Instruction::ESubst,
    Instruction::SSubst,
    Instruction::Prop3,
    Instruction::Quantifier,
    Instruction::PropagationOr,
    Instruction::PropagationExists,
    Instruction::PreFixpoint,
    Instruction::Existance,
    Instruction::Singleton,
    Instruction::Generalization,
    Instruction::Frame,
    Instruction::Substitution,
    Instruction::KnasterTarski,
    Instruction::InstantiateNotation,
    Instruction::Pop,
    Instruction::Publish,
];

#[test]
fn opcode_codes_round_trip() {
    for value in 1..=31u64 {
        let i = Instruction::from(value).unwrap();
        assert_eq!(i.code(), value);
    }
    assert_eq!(Instruction::from(1), Some(Instruction::List));
    assert_eq!(Instruction::from(5), Some(Instruction::Implication));
    assert_eq!(Instruction::from(9), Some(Instruction::MetaVar));
    assert_eq!(Instruction::from(21), Some(Instruction::ModusPonens));
    assert_eq!(Instruction::from(27), Some(Instruction::InstantiateSchema));
    assert_eq!(Instruction::from(31), Some(Instruction::Publish));
    assert_eq!(Instruction::from(0), None);
    assert_eq!(Instruction::from(32), None);
}

#[test]
fn bad_opcodes_are_rejected() {
    fails(&[0], ErrorKind::BadOpcode, 0);
    fails(&[op(Instruction::Prop1), 32], ErrorKind::BadOpcode, 1);
    fails(&[u64::MAX], ErrorKind::BadOpcode, 0);
}

#[test]
fn reserved_opcodes_leave_state_untouched() {
    for i in RESERVED {
        let mut stack: Stack = vec![Term::List(vec![]), Term::Proved(metavar_unconstrained(0))];
        let mut memory: Memory = vec![Entry::Pattern(svar(3))];
        let mut journal: Journal = vec![Entry::Proved(svar(4))];
        let r = execute_instructions(&[op(i), 0, 0], &mut stack, &mut memory, &mut journal);
        assert_eq!(r, Err(ProofError { kind: ErrorKind::NotImplemented, position: 0 }));
        assert_eq!(stack, vec![Term::List(vec![]), Term::Proved(metavar_unconstrained(0))]);
        assert_eq!(memory, vec![Entry::Pattern(svar(3))]);
        assert_eq!(journal, vec![Entry::Proved(svar(4))]);
    }
}

#[test]
fn missing_operands_end_the_stream() {
    fails(&[op(Instruction::List)], ErrorKind::UnexpectedEndOfStream, 0);
    fails(&[op(Instruction::Prop1), op(Instruction::MetaVar)], ErrorKind::UnexpectedEndOfStream, 1);
    fails(&[op(Instruction::Load)], ErrorKind::UnexpectedEndOfStream, 0);
}

#[test]
fn empty_stream_gives_empty_machine() {
    let (stack, journal, memory) = verify(&[]).unwrap();
    assert!(stack.is_empty());
    assert!(journal.is_empty());
    assert!(memory.is_empty());
}

#[test]
fn underflow_and_type_mismatch() {
    fails(&[op(Instruction::Implication)], ErrorKind::StackUnderflow, 0);
    fails(&[op(Instruction::Save)], ErrorKind::StackUnderflow, 0);
    fails(&[op(Instruction::ModusPonens)], ErrorKind::StackUnderflow, 0);
    fails(&[op(Instruction::List), 0, op(Instruction::Implication)], ErrorKind::TypeMismatch, 2);
    fails(&[op(Instruction::Prop1), op(Instruction::Implication)], ErrorKind::TypeMismatch, 1);
    fails(&[op(Instruction::Prop1), op(Instruction::MetaVar), 0], ErrorKind::TypeMismatch, 1);
    fails(&[op(Instruction::List), 0, op(Instruction::ModusPonens)], ErrorKind::TypeMismatch, 2);
    // Four lists where five are needed.
    let mut four = vec![];
    for _ in 0..4 {
        four.push(op(Instruction::List));
        four.push(0);
    }
    four.push(op(Instruction::MetaVar));
    four.push(0);
    fails(&four, ErrorKind::StackUnderflow, 8);
}

#[test]
fn failed_pops_stay_consumed() {
    let mut stack: Stack = vec![Term::Pattern(svar(1)), Term::Proved(svar(2))];
    let mut memory: Memory = vec![];
    let mut journal: Journal = vec![];
    let r = execute_instructions(&[op(Instruction::Implication)], &mut stack, &mut memory, &mut journal);
    assert_eq!(r, Err(ProofError { kind: ErrorKind::TypeMismatch, position: 0 }));
    assert_eq!(stack, vec![Term::Pattern(svar(1))]);
}

#[test]
fn save_rejects_lists() {
    fails(&[op(Instruction::List), 0, op(Instruction::Save)], ErrorKind::CannotPersistList, 2);
}

#[test]
fn instantiate_schema_needs_a_metavar() {
    let mut stack: Stack = vec![
        Term::Proved(metavar_unconstrained(0)),
        Term::Pattern(svar(1)),
        Term::Pattern(svar(2)),
    ];
    let mut memory: Memory = vec![];
    let mut journal: Journal = vec![];
    let r = execute_instructions(&[op(Instruction::InstantiateSchema)], &mut stack, &mut memory, &mut journal);
    assert_eq!(r, Err(ProofError { kind: ErrorKind::ExpectedMetaVar, position: 0 }));
    assert_eq!(stack, vec![Term::Proved(metavar_unconstrained(0))]);
}

#[test]
fn instantiate_schema_rejects_unsupported_shapes() {
    let mut stack: Stack = vec![
        Term::Proved(checker::term::implies(svar(1), metavar_unconstrained(0))),
        Term::Pattern(metavar_unconstrained(0)),
        Term::Pattern(metavar_unconstrained(1)),
    ];
    let mut memory: Memory = vec![];
    let mut journal: Journal = vec![];
    let r = execute_instructions(&[op(Instruction::InstantiateSchema)], &mut stack, &mut memory, &mut journal);
    assert_eq!(r, Err(ProofError { kind: ErrorKind::UnsupportedSubstitution, position: 0 }));
    assert!(stack.is_empty());
}

#[test]
fn instantiate_schema_substitutes() {
    let phi0 = metavar_unconstrained(0);
    let phi1 = metavar_unconstrained(1);
    let proof: Vec<u64> = vec![
        op(Instruction::Prop1),
        op(Instruction::List), 0,
        op(Instruction::List), 0,
        op(Instruction::List), 0,
        op(Instruction::List), 0,
        op(Instruction::List), 0,
        op(Instruction::MetaVar), 0,
        op(Instruction::Save),
        op(Instruction::Load), 0,
        op(Instruction::Load), 0,
        op(Instruction::Implication),
        op(Instruction::InstantiateSchema),
    ];
    let (stack, _journal, memory) = verify(&proof).unwrap();
    let pp = checker::term::implies(phi0.clone(), phi0.clone());
    assert_eq!(
        stack,
        vec![Term::Proved(checker::term::implies(pp.clone(), checker::term::implies(phi1, pp)))]
    );
    assert_eq!(memory, vec![Entry::Pattern(phi0)]);
}

#[test]
fn prop2_is_pushed_proved() {
    let phi0 = metavar_unconstrained(0);
    let phi1 = metavar_unconstrained(1);
    let phi2 = metavar_unconstrained(2);
    let expected = checker::term::implies(
        checker::term::implies(phi0.clone(), checker::term::implies(phi1.clone(), phi2.clone())),
        checker::term::implies(checker::term::implies(phi0.clone(), phi1), checker::term::implies(phi0, phi2)),
    );
    let (stack, _journal, _memory) = verify(&[op(Instruction::Prop2)]).unwrap();
    assert_eq!(stack, vec![Term::Proved(expected)]);
}

#[test]
fn saves_keep_their_indices() {
    let proof: Vec<u64> = vec![
        op(Instruction::Prop1),
        op(Instruction::Save), // @ 0
        op(Instruction::Prop2),
        op(Instruction::Save), // @ 1
        op(Instruction::Load), 0,
        op(Instruction::Load), 1,
    ];
    let (stack, _journal, memory) = verify(&proof).unwrap();
    assert_eq!(memory.len(), 2);
    assert_eq!(stack.len(), 4);
    assert_eq!(stack[2], stack[0]);
    assert_eq!(stack[3], stack[1]);
    assert_ne!(stack[2], stack[3]);
}

#[test]
fn instantiate_replaces_the_matching_metavar() {
    let plug = svar(7);
    let r = instantiate(metavar_unconstrained(3), 3, plug.clone()).unwrap();
    assert_eq!(*r, Pattern::SVar(7));
    let r = instantiate(metavar_s_fresh(0, 0), 0, svar(0)).unwrap();
    assert_eq!(r, svar(0));
}

#[test]
fn instantiate_keeps_other_metavars() {
    let p = checker::term::implies(metavar_unconstrained(1), checker::term::implies(metavar_unconstrained(2), metavar_unconstrained(1)));
    let r = instantiate(p.clone(), 9, svar(0)).unwrap();
    assert_eq!(r, p);
    let r = instantiate(p, 2, svar(0)).unwrap();
    assert_eq!(
        r,
        checker::term::implies(metavar_unconstrained(1), checker::term::implies(svar(0), metavar_unconstrained(1)))
    );
}

#[test]
fn instantiate_rejects_other_shapes() {
    assert_eq!(instantiate(svar(0), 0, svar(1)), Err(ErrorKind::UnsupportedSubstitution));
    let p = checker::term::implies(metavar_unconstrained(0), svar(2));
    assert_eq!(instantiate(p, 0, svar(1)), Err(ErrorKind::UnsupportedSubstitution));
}

#[test]
fn equality_is_structural() {
    let a = checker::term::implies(metavar_unconstrained(0), metavar_s_fresh(1, 5));
    let b = checker::term::implies(metavar_unconstrained(0), metavar_s_fresh(1, 5));
    assert!(!Rc::ptr_eq(&a, &b));
    assert!(patterns_equal(&a, &b));
    assert_eq!(a, b);
    assert!(!patterns_equal(&metavar_s_fresh(1, 5), &metavar_s_fresh(1, 6)));
    assert!(!patterns_equal(&metavar_s_fresh(1, 5), &metavar_unconstrained(1)));
    assert!(!patterns_equal(&metavar_unconstrained(1), &metavar_unconstrained(2)));
    assert!(!patterns_equal(&svar(1), &metavar_unconstrained(1)));
}
