//! The instruction set and its wire codes.
use vstd::prelude::*;

verus! {

/// Every instruction named by the proof format; only some have fixed semantics.
#[derive(Debug, Clone, Copy, PartialEq, Eq, Structural)]
pub enum Instruction {
    List,
    // Patterns
    EVar,
    SVar,
    Symbol,
    Implication,
    Application,
    Mu,
    Exists,
    // Meta-patterns
    MetaVar,
    ESubst,
    SSubst,
    // Axiom schemas
    Prop1,
    Prop2,
    Prop3,
    Quantifier,
    PropagationOr,
    PropagationExists,
    PreFixpoint,
    Existance,
    Singleton,
    // Inference rules
    ModusPonens,
    Generalization,
    Frame,
    Substitution,
    KnasterTarski,
    // Meta inference rules
    InstantiateNotation,
    InstantiateSchema,
    // Stack manipulation
    Pop,
    // Memory manipulation
    Save,
    Load,
    // Journal manipulation
    Publish,
}

/// The instruction whose wire code is `value`, if any: codes run from 1 to 31
/// in the order of declaration.
pub open spec fn spec_decode(value: u64) -> Option<Instruction> {
    match value {
        1 => Some(Instruction::List),
        2 => Some(Instruction::EVar),
        3 => Some(Instruction::SVar),
        4 => Some(Instruction::Symbol),
        5 => Some(Instruction::Implication),
        6 => Some(Instruction::Application),
        7 => Some(Instruction::Mu),
        8 => Some(Instruction::Exists),
        9 => Some(Instruction::MetaVar),
        10 => Some(Instruction::ESubst),
        11 => Some(Instruction::SSubst),
        12 => Some(Instruction::Prop1),
        13 => Some(Instruction::Prop2),
        14 => Some(Instruction::Prop3),
        15 => Some(Instruction::Quantifier),
        16 => Some(Instruction::PropagationOr),
        17 => Some(Instruction::PropagationExists),
        18 => Some(Instruction::PreFixpoint),
        19 => Some(Instruction::Existance),
        20 => Some(Instruction::Singleton),
        21 => Some(Instruction::ModusPonens),
        22 => Some(Instruction::Generalization),
        23 => Some(Instruction::Frame),
        24 => Some(Instruction::Substitution),
        25 => Some(Instruction::KnasterTarski),
        26 => Some(Instruction::InstantiateNotation),
        27 => Some(Instruction::InstantiateSchema),
        28 => Some(Instruction::Pop),
        29 => Some(Instruction::Save),
        30 => Some(Instruction::Load),
        31 => Some(Instruction::Publish),
        _ => None,
    }
}

/// The wire code of an instruction.
pub open spec fn spec_code(i: Instruction) -> u64 {
    match i {
        Instruction::List => 1,
        Instruction::EVar => 2,
        Instruction::SVar => 3,
        Instruction::Symbol => 4,
        Instruction::Implication => 5,
        Instruction::Application => 6,
        Instruction::Mu => 7,
        Instruction::Exists => 8,
        Instruction::MetaVar => 9,
        Instruction::ESubst => 10,
        Instruction::SSubst => 11,
        Instruction::Prop1 => 12,
        Instruction::Prop2 => 13,
        Instruction::Prop3 => 14,
        Instruction::Quantifier => 15,
        Instruction::PropagationOr => 16,
        Instruction::PropagationExists => 17,
        Instruction::PreFixpoint => 18,
        Instruction::Existance => 19,
        Instruction::Singleton => 20,
        Instruction::ModusPonens => 21,
        Instruction::Generalization => 22,
        Instruction::Frame => 23,
        Instruction::Substitution => 24,
        Instruction::KnasterTarski => 25,
        Instruction::InstantiateNotation => 26,
        Instruction::InstantiateSchema => 27,
        Instruction::Pop => 28,
        Instruction::Save => 29,
        Instruction::Load => 30,
        Instruction::Publish => 31,
    }
}

/// Whether the instruction reads one immediate operand word after its opcode.
pub open spec fn has_operand(i: Instruction) -> bool {
    i is List || i is MetaVar || i is Load
}

/// Whether the instruction has fixed semantics in this checker.
pub open spec fn is_supported(i: Instruction) -> bool {
    ||| i is List
    ||| i is Implication
    ||| i is MetaVar
    ||| i is Prop1
    ||| i is Prop2
    ||| i is ModusPonens
    ||| i is InstantiateSchema
    ||| i is Save
    ||| i is Load
}

impl Instruction {
    /// Decodes one opcode word.
    pub fn from(value: u64) -> (r: Option<Instruction>)
        ensures
            r == spec_decode(value),
            r matches Some(i) ==> spec_code(i) == value,
    {
        match value {
            1 => Some(Instruction::List),
            2 => Some(Instruction::EVar),
            3 => Some(Instruction::SVar),
            4 => Some(Instruction::Symbol),
            5 => Some(Instruction::Implication),
            6 => Some(Instruction::Application),
            7 => Some(Instruction::Mu),
            8 => Some(Instruction::Exists),
            9 => Some(Instruction::MetaVar),
            10 => Some(Instruction::ESubst),
            11 => Some(Instruction::SSubst),
            12 => Some(Instruction::Prop1),
            13 => Some(Instruction::Prop2),
            14 => Some(Instruction::Prop3),
            15 => Some(Instruction::Quantifier),
            16 => Some(Instruction::PropagationOr),
            17 => Some(Instruction::PropagationExists),
            18 => Some(Instruction::PreFixpoint),
            19 => Some(Instruction::Existance),
            20 => Some(Instruction::Singleton),
            21 => Some(Instruction::ModusPonens),
            22 => Some(Instruction::Generalization),
            23 => Some(Instruction::Frame),
            24 => Some(Instruction::Substitution),
            25 => Some(Instruction::KnasterTarski),
            26 => Some(Instruction::InstantiateNotation),
            27 => Some(Instruction::InstantiateSchema),
            28 => Some(Instruction::Pop),
            29 => Some(Instruction::Save),
            30 => Some(Instruction::Load),
            31 => Some(Instruction::Publish),
            _ => None,
        }
    }

    /// The opcode word of this instruction.
    pub fn code(self) -> (r: u64)
        ensures
            r == spec_code(self),
            spec_decode(r) == Some(self),
    {
        match self {
            Instruction::List => 1,
            Instruction::EVar => 2,
            Instruction::SVar => 3,
            Instruction::Symbol => 4,
            Instruction::Implication => 5,
            Instruction::Application => 6,
            Instruction::Mu => 7,
            Instruction::Exists => 8,
            Instruction::MetaVar => 9,
            Instruction::ESubst => 10,
            Instruction::SSubst => 11,
            Instruction::Prop1 => 12,
            Instruction::Prop2 => 13,
            Instruction::Prop3 => 14,
            Instruction::Quantifier => 15,
            Instruction::PropagationOr => 16,
            Instruction::PropagationExists => 17,
            Instruction::PreFixpoint => 18,
            Instruction::Existance => 19,
            Instruction::Singleton => 20,
            Instruction::ModusPonens => 21,
            Instruction::Generalization => 22,
            Instruction::Frame => 23,
            Instruction::Substitution => 24,
            Instruction::KnasterTarski => 25,
            Instruction::InstantiateNotation => 26,
            Instruction::InstantiateSchema => 27,
            Instruction::Pop => 28,
            Instruction::Save => 29,
            Instruction::Load => 30,
            Instruction::Publish => 31,
        }
    }

    /// Whether this instruction reads an immediate operand.
    pub fn takes_operand(self) -> (r: bool)
        ensures
            r == has_operand(self),
    {
        match self {
            Instruction::List | Instruction::MetaVar | Instruction::Load => true,
            _ => false,
        }
    }
}

} // verus!
