//! Patterns, terms and memory entries, with their mathematical models.
use std::rc::Rc;
use vstd::prelude::*;
use crate::error::ErrorKind;

verus! {

/// The mathematical model of a pattern: a finite tree.
pub enum SpecPattern {
    EVar(u64),
    SVar(u64),
    Symbol(u64),
    Implication(Box<SpecPattern>, Box<SpecPattern>),
    Application(Box<SpecPattern>, Box<SpecPattern>),
    Exists(u64, Box<SpecPattern>),
    Mu(u64, Box<SpecPattern>),
    MetaVar {
        id: u64,
        e_fresh: Seq<u64>,
        s_fresh: Seq<u64>,
        positive: Seq<u64>,
        negative: Seq<u64>,
        application_context: Seq<u64>,
    },
}

/// A matching-logic pattern whose subtrees are shared and never mutated.
#[derive(Debug)]
pub enum Pattern {
    EVar(u64),
    SVar(u64),
    Symbol(u64),
    Implication { left: Rc<Pattern>, right: Rc<Pattern> },
    Application { left: Rc<Pattern>, right: Rc<Pattern> },
    Exists { var: u64, subpattern: Rc<Pattern> },
    Mu { var: u64, subpattern: Rc<Pattern> },
    MetaVar {
        id: u64,
        e_fresh: Vec<u64>,
        s_fresh: Vec<u64>,
        positive: Vec<u64>,
        negative: Vec<u64>,
        application_context: Vec<u64>,
    },
}

impl View for Pattern {
    type V = SpecPattern;

    open spec fn view(&self) -> SpecPattern
        decreases self,
    {
        match self {
            Pattern::EVar(x) => SpecPattern::EVar(*x),
            Pattern::SVar(x) => SpecPattern::SVar(*x),
            Pattern::Symbol(x) => SpecPattern::Symbol(*x),
            Pattern::Implication { left, right } => SpecPattern::Implication(
                Box::new((**left).view()),
                Box::new((**right).view()),
            ),
            Pattern::Application { left, right } => SpecPattern::Application(
                Box::new((**left).view()),
                Box::new((**right).view()),
            ),
            Pattern::Exists { var, subpattern } => SpecPattern::Exists(
                *var,
                Box::new((**subpattern).view()),
            ),
            Pattern::Mu { var, subpattern } => SpecPattern::Mu(
                *var,
                Box::new((**subpattern).view()),
            ),
            Pattern::MetaVar { id, e_fresh, s_fresh, positive, negative, application_context } =>
                SpecPattern::MetaVar {
                id: *id,
                e_fresh: e_fresh@,
                s_fresh: s_fresh@,
                positive: positive@,
                negative: negative@,
                application_context: application_context@,
            },
        }
    }
}

/// Builds `left -> right`.
pub fn implies(left: Rc<Pattern>, right: Rc<Pattern>) -> (r: Rc<Pattern>)
    ensures
        r@ == SpecPattern::Implication(Box::new(left@), Box::new(right@)),
{
    Rc::new(Pattern::Implication { left, right })
}

/// An unconstrained meta-variable: every side-condition set is empty.
pub fn metavar_unconstrained(var_id: u64) -> (r: Rc<Pattern>)
    ensures
        r@ == spec_metavar(var_id, seq![]),
{
    Rc::new(
        Pattern::MetaVar {
            id: var_id,
            e_fresh: Vec::new(),
            s_fresh: Vec::new(),
            positive: Vec::new(),
            negative: Vec::new(),
            application_context: Vec::new(),
        },
    )
}

/// A meta-variable that must be fresh for the one set variable `fresh`.
pub fn metavar_s_fresh(var_id: u64, fresh: u64) -> (r: Rc<Pattern>)
    ensures
        r@ == spec_metavar(var_id, seq![fresh]),
{
    let mut s_fresh: Vec<u64> = Vec::new();
    s_fresh.push(fresh);
    proof {
        assert(s_fresh@ =~= seq![fresh]);
    }
    Rc::new(
        Pattern::MetaVar {
            id: var_id,
            e_fresh: Vec::new(),
            s_fresh,
            positive: Vec::new(),
            negative: Vec::new(),
            application_context: Vec::new(),
        },
    )
}

/// The set variable `id`.
pub fn svar(id: u64) -> (r: Rc<Pattern>)
    ensures
        r@ == SpecPattern::SVar(id),
{
    Rc::new(Pattern::SVar(id))
}

/// The meta-variable `id` with the given set-variable freshness condition and no other.
pub open spec fn spec_metavar(id: u64, s_fresh: Seq<u64>) -> SpecPattern {
    SpecPattern::MetaVar {
        id,
        e_fresh: seq![],
        s_fresh,
        positive: seq![],
        negative: seq![],
        application_context: seq![],
    }
}

/// `p` with every meta-variable `id` replaced by `plug`; `None` where the
/// substitution reaches a shape other than an implication or a meta-variable.
pub open spec fn spec_instantiate(p: SpecPattern, id: u64, plug: SpecPattern) -> Option<SpecPattern>
    decreases p,
{
    match p {
        SpecPattern::Implication(l, r) => match (
            spec_instantiate(*l, id, plug),
            spec_instantiate(*r, id, plug),
        ) {
            (Some(a), Some(b)) => Some(SpecPattern::Implication(Box::new(a), Box::new(b))),
            _ => None,
        },
        SpecPattern::MetaVar { id: i, .. } => if i == id {
            Some(plug)
        } else {
            Some(p)
        },
        _ => None,
    }
}

/// Substitutes `plug` for the meta-variable `var_id` throughout `p`, sharing
/// every subtree that it leaves alone.
pub fn instantiate(p: Rc<Pattern>, var_id: u64, plug: Rc<Pattern>) -> (r: Result<Rc<Pattern>, ErrorKind>)
    ensures
        match spec_instantiate(p@, var_id, plug@) {
            Some(q) => r matches Ok(x) && x@ == q,
            None => r == Err::<Rc<Pattern>, ErrorKind>(ErrorKind::UnsupportedSubstitution),
        },
    decreases p,
{
    match &*p {
        Pattern::Implication { left, right } => {
            let l = instantiate(Rc::clone(left), var_id, Rc::clone(&plug))?;
            let r = instantiate(Rc::clone(right), var_id, plug)?;
            Ok(implies(l, r))
        },
        Pattern::MetaVar { id, .. } => {
            if *id == var_id {
                Ok(plug)
            } else {
                Ok(p)
            }
        },
        _ => Err(ErrorKind::UnsupportedSubstitution),
    }
}

fn ids_equal(a: &Vec<u64>, b: &Vec<u64>) -> (r: bool)
    ensures
        r == (a@ == b@),
{
    if a.len() != b.len() {
        return false;
    }
    let mut i: usize = 0;
    while i < a.len()
        invariant
            a.len() == b.len(),
            i <= a.len(),
            forall|k: int| 0 <= k < i ==> a@[k] == b@[k],
        decreases a.len() - i,
    {
        if a[i] != b[i] {
            return false;
        }
        i = i + 1;
    }
    proof {
        assert(a@ =~= b@);
    }
    true
}

/// Deep comparison of two patterns, by value and never by address.
pub fn patterns_equal(a: &Pattern, b: &Pattern) -> (r: bool)
    ensures
        r == (a@ == b@),
    decreases a,
{
    match (a, b) {
        (Pattern::EVar(x), Pattern::EVar(y)) => *x == *y,
        (Pattern::SVar(x), Pattern::SVar(y)) => *x == *y,
        (Pattern::Symbol(x), Pattern::Symbol(y)) => *x == *y,
        (
            Pattern::Implication { left: l1, right: r1 },
            Pattern::Implication { left: l2, right: r2 },
        ) => patterns_equal(l1, l2) && patterns_equal(r1, r2),
        (
            Pattern::Application { left: l1, right: r1 },
            Pattern::Application { left: l2, right: r2 },
        ) => patterns_equal(l1, l2) && patterns_equal(r1, r2),
        (Pattern::Exists { var: v1, subpattern: s1 }, Pattern::Exists { var: v2, subpattern: s2 }) =>
            *v1 == *v2 && patterns_equal(s1, s2),
        (Pattern::Mu { var: v1, subpattern: s1 }, Pattern::Mu { var: v2, subpattern: s2 }) => *v1
            == *v2 && patterns_equal(s1, s2),
        (
            Pattern::MetaVar {
                id: i1,
                e_fresh: e1,
                s_fresh: s1,
                positive: p1,
                negative: n1,
                application_context: c1,
            },
            Pattern::MetaVar {
                id: i2,
                e_fresh: e2,
                s_fresh: s2,
                positive: p2,
                negative: n2,
                application_context: c2,
            },
        ) => *i1 == *i2 && ids_equal(e1, e2) && ids_equal(s1, s2) && ids_equal(p1, p2)
            && ids_equal(n1, n2) && ids_equal(c1, c2),
        _ => false,
    }
}

impl PartialEq for Pattern {
    fn eq(&self, other: &Pattern) -> (r: bool) {
        patterns_equal(self, other)
    }
}

impl vstd::std_specs::cmp::PartialEqSpecImpl for Pattern {
    open spec fn obeys_eq_spec() -> bool {
        true
    }

    open spec fn eq_spec(&self, other: &Pattern) -> bool {
        self@ == other@
    }
}

impl Eq for Pattern {

}

} // verus!

verus! {

/// The model of a stack value.
pub enum SpecTerm {
    Pattern(SpecPattern),
    Proved(SpecPattern),
    List(Seq<u64>),
}

/// The model of a memory or journal entry.
pub enum SpecEntry {
    Pattern(SpecPattern),
    Proved(SpecPattern),
}

/// A stack value: a candidate pattern, a proved theorem, or a list of identifiers.
#[derive(Debug, Clone, PartialEq, Eq)]
pub enum Term {
    Pattern(Rc<Pattern>),
    Proved(Rc<Pattern>),
    List(Vec<u64>),
}

/// A value that can be kept in memory or published: a pattern or a theorem.
#[derive(Debug, Clone, PartialEq, Eq)]
pub enum Entry {
    Pattern(Rc<Pattern>),
    Proved(Rc<Pattern>),
}

impl View for Term {
    type V = SpecTerm;

    open spec fn view(&self) -> SpecTerm {
        match self {
            Term::Pattern(p) => SpecTerm::Pattern((**p)@),
            Term::Proved(p) => SpecTerm::Proved((**p)@),
            Term::List(l) => SpecTerm::List(l@),
        }
    }
}

impl View for Entry {
    type V = SpecEntry;

    open spec fn view(&self) -> SpecEntry {
        match self {
            Entry::Pattern(p) => SpecEntry::Pattern((**p)@),
            Entry::Proved(p) => SpecEntry::Proved((**p)@),
        }
    }
}

/// The model of a sequence of stack values.
pub open spec fn terms_view(s: Seq<Term>) -> Seq<SpecTerm> {
    s.map_values(|t: Term| t@)
}

/// The model of a sequence of entries.
pub open spec fn entries_view(s: Seq<Entry>) -> Seq<SpecEntry> {
    s.map_values(|e: Entry| e@)
}

} // verus!
