//! Why a proof stream is rejected.
use vstd::prelude::*;

verus! {

/// The rule that a proof stream broke.
#[derive(Debug, Clone, Copy, PartialEq, Eq, Structural)]
pub enum ErrorKind {
    /// The word is not the code of any instruction.
    BadOpcode,
    /// The instruction is named but has no fixed semantics.
    NotImplemented,
    /// An instruction needs an immediate operand past the end of the stream.
    UnexpectedEndOfStream,
    /// A pop or an inspection of the top found the stack empty.
    StackUnderflow,
    /// A popped term has the wrong tag for the rule.
    TypeMismatch,
    /// A `List` instruction was given a non-zero length.
    UnsupportedListLength,
    /// Modus ponens was given a proved pattern that is no implication.
    ExpectedImplication,
    /// Modus ponens was given an antecedent unlike the implication's left side.
    AntecedentMismatch,
    /// Schema instantiation was given a pattern that is no meta-variable.
    ExpectedMetaVar,
    /// Substitution reached a shape other than an implication or a meta-variable.
    UnsupportedSubstitution,
    /// `Save` found a list on top of the stack.
    CannotPersistList,
    /// `Load` was given an index that no `Save` assigned.
    OutOfRange,
}

/// A rejection: the rule broken and the stream position of the failing opcode.
#[derive(Debug, Clone, Copy, PartialEq, Eq, Structural)]
pub struct ProofError {
    pub kind: ErrorKind,
    pub position: usize,
}

} // verus!
