//! Base vocabulary of the IR: entity handles, identifiers, opcodes and types.

use vstd::prelude::*;

verus! {

/// Relies on `miden_diagnostics::SourceSpan`: an opaque, copyable marker for a
/// range of bytes in a source file. The IR stores spans purely as diagnostic
/// metadata; no function of this crate reads one, and structural equality of
/// IR nodes deliberately ignores them.
#[verifier::external_type_specification]
#[verifier::external_body]
pub struct ExSourceSpan(miden_diagnostics::SourceSpan);

/// An interned symbol: an index into a string interner owned by the
/// enclosing compilation session. Two symbols denote the same string
/// exactly when their indices are equal.
#[derive(Clone, Copy, PartialEq, Eq, Structural, Hash, Debug)]
pub struct Symbol(pub u32);

/// An identifier: an interned symbol together with the source position it was
/// written at. Equality compares the symbol alone; the position is metadata.
#[derive(Clone, Copy, Debug)]
pub struct Ident {
    pub span: miden_diagnostics::SourceSpan,
    pub name: Symbol,
}

impl PartialEq for Ident {
    fn eq(&self, other: &Self) -> bool {
        self.name == other.name
    }
}

impl vstd::std_specs::cmp::PartialEqSpecImpl for Ident {
    open spec fn obeys_eq_spec() -> bool {
        true
    }

    open spec fn eq_spec(&self, other: &Ident) -> bool {
        self.name == other.name
    }
}

impl Eq for Ident {}

/// A fully qualified function name: the module that defines the function and
/// the function's own name. Equality compares the two symbols.
#[derive(Clone, Copy, Debug)]
pub struct FunctionIdent {
    pub module: Ident,
    pub function: Ident,
}

impl PartialEq for FunctionIdent {
    fn eq(&self, other: &Self) -> bool {
        self.module == other.module && self.function == other.function
    }
}

impl vstd::std_specs::cmp::PartialEqSpecImpl for FunctionIdent {
    open spec fn obeys_eq_spec() -> bool {
        true
    }

    open spec fn eq_spec(&self, other: &FunctionIdent) -> bool {
        self.module.name == other.module.name && self.function.name == other.function.name
    }
}

impl Eq for FunctionIdent {}

/// A handle to an SSA value: a definition site within a function's graph.
/// A value has exactly one producer (an instruction or a block parameter).
#[derive(Clone, Copy, PartialEq, Eq, Structural, Hash, Debug)]
pub struct Value(pub u32);

/// A handle to a control-flow block within a function.
#[derive(Clone, Copy, PartialEq, Eq, Structural, Hash, Debug)]
pub struct Block(pub u32);

/// The operation an instruction performs. This is a closed set: every
/// consumer of the IR matches on it exhaustively, so adding an opcode forces
/// every consumer to handle it.
#[derive(Clone, Copy, PartialEq, Eq, Structural, Hash, Debug)]
pub enum Opcode {
    Add,
    Sub,
    Mul,
    Div,
    Neg,
    Band,
    Bor,
    Bxor,
    Shl,
    Shr,
    CmpEq,
    CmpNeq,
    CmpLt,
    CmpLte,
    CmpGt,
    CmpGte,
    Select,
    MemLoad,
    MemStore,
    Br,
    CondBr,
    Switch,
    Ret,
    Call,
    CallIndirect,
    GlobalValue,
}

/// How an arithmetic instruction handles overflow. The policy is attached per
/// instruction rather than globally: the same opcode may need different
/// behavior at different sites.
#[derive(Clone, Copy, PartialEq, Eq, Structural, Hash, Debug)]
pub enum Overflow {
    /// Overflow is undefined; the front end has proved it cannot happen.
    Unchecked,
    /// Overflow traps.
    Checked,
    /// Overflow wraps around modulo the type's width.
    Wrapping,
    /// The instruction produces an extra flag output that reports overflow.
    Overflowing,
}

/// The type of an IR value.
#[derive(Clone, Copy, PartialEq, Eq, Structural, Hash, Debug)]
pub enum Type {
    I1,
    I8,
    U8,
    I16,
    U16,
    I32,
    U32,
    I64,
    U64,
    I128,
    U128,
    U256,
    Felt,
}

} // verus!
