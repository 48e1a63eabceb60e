//! Fatal diagnostics. Every error here ends the pipeline: the library
//! reports it to the caller, which prints a single-line diagnostic and
//! exits with non-zero status.

use vstd::prelude::*;
use crate::ir::IrType;

verus! {

/// A failure detected while parsing.
#[derive(Debug, Clone)]
pub enum ParseError {
    /// Parsing stalled: the unparsed remainder of the input.
    Syntax { rest: String },
    /// A function lacks the mandatory `->` return type.
    MissingReturnType { func: String },
    /// A function declares a pointer return type, which the language
    /// rejects as undefined behaviour.
    PointerReturn,
}

/// Mathematical view of `ParseError`.
#[verifier::ext_equal]
pub enum ParseErrV {
    Syntax { rest: Seq<char> },
    MissingReturnType { func: Seq<char> },
    PointerReturn,
}

pub open spec fn parse_err_view(e: ParseError) -> ParseErrV {
    match e {
        ParseError::Syntax { rest } => ParseErrV::Syntax { rest: rest@ },
        ParseError::MissingReturnType { func } => ParseErrV::MissingReturnType { func: func@ },
        ParseError::PointerReturn => ParseErrV::PointerReturn,
    }
}

/// A failure detected while allocating storage or translating to IR.
#[derive(Debug, Clone)]
pub enum TransError {
    /// A local is declared twice in one function.
    DuplicateBinding(String),
    /// A name is used that no binding in scope carries.
    UnknownBinding(String),
    /// Reassignment of a binding that was not declared `mut`.
    ImmutableAssign(String),
    /// An expression's IR type differs from the declared type's IR width.
    TypeMismatch { expected: IrType, actual: IrType },
    /// A call's argument types do not match the callee's signature.
    SignatureMismatch { func: String },
    /// A `&`/`&mut` operand whose mutability does not fit the pointer type
    /// it is bound to or passed as.
    PointerMutabilityMismatch { name: String, expected_mutable: bool },
    /// Dereference of a non-pointer, or of a register variable.
    BadDeref(String),
    /// Address-of a register variable, which has no address.
    AddressOfRegister(String),
    /// Assignment into a register variable, which the translator does not
    /// support.
    RegisterAssign(String),
    /// A call to a name that is neither a builtin nor a declared function.
    UnknownCallee(String),
    /// A numeric lexeme that cannot be converted to the required constant.
    BadLiteral(String),
    /// The IR module refuses the declaration or definition: the name is
    /// already bound with another signature, or already has a body.
    DeclConflict(String),
}

/// Mathematical view of `TransError`.
#[verifier::ext_equal]
pub enum ErrV {
    DuplicateBinding(Seq<char>),
    UnknownBinding(Seq<char>),
    ImmutableAssign(Seq<char>),
    TypeMismatch { expected: IrType, actual: IrType },
    SignatureMismatch { func: Seq<char> },
    PointerMutabilityMismatch { name: Seq<char>, expected_mutable: bool },
    BadDeref(Seq<char>),
    AddressOfRegister(Seq<char>),
    RegisterAssign(Seq<char>),
    UnknownCallee(Seq<char>),
    BadLiteral(Seq<char>),
    DeclConflict(Seq<char>),
}

pub open spec fn err_view(e: TransError) -> ErrV {
    match e {
        TransError::DuplicateBinding(s) => ErrV::DuplicateBinding(s@),
        TransError::UnknownBinding(s) => ErrV::UnknownBinding(s@),
        TransError::ImmutableAssign(s) => ErrV::ImmutableAssign(s@),
        TransError::TypeMismatch { expected, actual } => ErrV::TypeMismatch { expected, actual },
        TransError::SignatureMismatch { func } => ErrV::SignatureMismatch { func: func@ },
        TransError::PointerMutabilityMismatch { name, expected_mutable } => {
            ErrV::PointerMutabilityMismatch { name: name@, expected_mutable }
        },
        TransError::BadDeref(s) => ErrV::BadDeref(s@),
        TransError::AddressOfRegister(s) => ErrV::AddressOfRegister(s@),
        TransError::RegisterAssign(s) => ErrV::RegisterAssign(s@),
        TransError::UnknownCallee(s) => ErrV::UnknownCallee(s@),
        TransError::BadLiteral(s) => ErrV::BadLiteral(s@),
        TransError::DeclConflict(s) => ErrV::DeclConflict(s@),
    }
}

} // verus!
