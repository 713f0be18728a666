//! The instruction and value model: every computation and control transfer in
//! a function body, as one exhaustive, closed set of instruction kinds.
//!
//! Equality of instructions is structural and deliberately ignores source
//! positions: an instruction may be moved or cloned across positions without
//! losing its semantic identity, which is what lets deduplication and
//! canonicalization passes compare instructions on content alone.

use crate::ir::{Block, FunctionIdent, Ident, Opcode, Overflow, Type, Value};
use vstd::prelude::*;

verus! {

/// Relies on `num_bigint::BigInt`: an arbitrary-precision signed integer,
/// kept in canonical form by every constructor of its crate (no leading zero
/// digit in the magnitude, and a zero magnitude exactly for the value zero).
/// It carries large integer literals through the IR.
#[verifier::external_type_specification]
#[verifier::external_body]
pub struct ExBigInt(num_bigint::BigInt);

/// The digits a big integer's magnitude holds, least significant first and
/// without leading zeros.
pub uninterp spec fn big_int_digits(x: num_bigint::BigInt) -> Seq<u64>;

/// Whether a big integer is negative.
pub uninterp spec fn big_int_negative(x: num_bigint::BigInt) -> bool;

/// Numeric equality of big integers: the same sign and the same canonical
/// magnitude. Two equal values may still differ in how the crate stores the
/// digits, so this is deliberately not equality of the values themselves.
pub open spec fn big_int_eq_spec(a: num_bigint::BigInt, b: num_bigint::BigInt) -> bool {
    big_int_digits(a) == big_int_digits(b) && big_int_negative(a) == big_int_negative(b)
}

/// Relies on `<num_bigint::BigInt as PartialEq>::eq`: it compares the signs
/// and, for non-zero values, the canonical digit sequences of the two
/// magnitudes.
pub assume_specification[ <num_bigint::BigInt as PartialEq>::eq ](
    a: &num_bigint::BigInt,
    b: &num_bigint::BigInt,
) -> (r: bool)
    ensures
        r == (big_int_digits(*a) == big_int_digits(*b) && big_int_negative(*a)
            == big_int_negative(*b)),
;

/// An instruction input: a reference to an existing value, a small-width
/// integer literal, or an arbitrary-precision integer literal. Literals carry
/// no type annotation; their type is inferred from the instruction context.
#[derive(Debug)]
pub enum Operand {
    Value(Value),
    /// A small integer, e.g. one that fits a machine word.
    Int(isize),
    /// A large integer, e.g. a 128-bit or 256-bit literal.
    BigInt(num_bigint::BigInt),
}

/// Structural equality of operands; big-integer literals compare by value.
pub open spec fn operand_eq_spec(a: Operand, b: Operand) -> bool {
    match (a, b) {
        (Operand::Value(x), Operand::Value(y)) => x == y,
        (Operand::Int(x), Operand::Int(y)) => x == y,
        (Operand::BigInt(x), Operand::BigInt(y)) => big_int_eq_spec(x, y),
        _ => false,
    }
}

/// Pointwise structural equality of operand sequences.
pub open spec fn operands_eq_spec(a: Seq<Operand>, b: Seq<Operand>) -> bool {
    a.len() == b.len() && (forall|i: int| 0 <= i < a.len() ==> operand_eq_spec(a[i], b[i]))
}

impl PartialEq for Operand {
    fn eq(&self, other: &Self) -> bool {
        match (self, other) {
            (Operand::Value(a), Operand::Value(b)) => a == b,
            (Operand::Int(a), Operand::Int(b)) => a == b,
            (Operand::BigInt(a), Operand::BigInt(b)) => a.eq(b),
            _ => false,
        }
    }
}

impl vstd::std_specs::cmp::PartialEqSpecImpl for Operand {
    open spec fn obeys_eq_spec() -> bool {
        true
    }

    open spec fn eq_spec(&self, other: &Operand) -> bool {
        operand_eq_spec(*self, *other)
    }
}

impl Eq for Operand {}

/// A value/type pair: one typed output of an instruction.
#[derive(PartialEq, Eq, Structural, Debug)]
pub struct TypedValue {
    pub id: Value,
    pub ty: Type,
}

impl TypedValue {
    pub fn new(id: Value, ty: Type) -> (r: Self)
        ensures
            r.id == id,
            r.ty == ty,
    {
        Self { id, ty }
    }
}

/// A branch destination: the target block together with the ordered argument
/// values passed to the target's block parameters at the transfer point.
/// Equality compares the target and the argument sequence; the span is
/// excluded.
#[derive(Debug)]
pub struct Successor {
    pub span: miden_diagnostics::SourceSpan,
    pub id: Block,
    pub args: Vec<Value>,
}

/// Structural equality of successors: same target block, same arguments,
/// whatever their source positions.
pub open spec fn successor_eq_spec(a: Successor, b: Successor) -> bool {
    a.id == b.id && a.args@ == b.args@
}

impl PartialEq for Successor {
    fn eq(&self, other: &Self) -> bool {
        self.id == other.id && values_eq(&self.args, &other.args)
    }
}

impl vstd::std_specs::cmp::PartialEqSpecImpl for Successor {
    open spec fn obeys_eq_spec() -> bool {
        true
    }

    open spec fn eq_spec(&self, other: &Successor) -> bool {
        successor_eq_spec(*self, *other)
    }
}

impl Eq for Successor {}

/// Any two successors with the same target block and the same argument
/// sequence are equal, regardless of their source spans.
pub proof fn lemma_successor_eq_ignores_span(a: Successor, b: Successor)
    requires
        a.id == b.id,
        a.args@ == b.args@,
    ensures
        successor_eq_spec(a, b),
{
}

/// One case of a `Switch`: an unsigned 32-bit tag and the destination taken
/// when the switch input matches it exactly. Equality ignores the span.
#[derive(Debug)]
pub struct SwitchCase {
    pub span: miden_diagnostics::SourceSpan,
    pub value: u32,
    pub successor: Successor,
}

pub open spec fn switch_case_eq_spec(a: SwitchCase, b: SwitchCase) -> bool {
    a.value == b.value && successor_eq_spec(a.successor, b.successor)
}

impl PartialEq for SwitchCase {
    fn eq(&self, other: &Self) -> bool {
        self.value == other.value && self.successor == other.successor
    }
}

impl vstd::std_specs::cmp::PartialEqSpecImpl for SwitchCase {
    open spec fn obeys_eq_spec() -> bool {
        true
    }

    open spec fn eq_spec(&self, other: &SwitchCase) -> bool {
        switch_case_eq_spec(*self, *other)
    }
}

impl Eq for SwitchCase {}

/// A recursive expression describing a memory address resolved relative to a
/// linker-provided symbol, evaluable without a live value graph (for example
/// during linking).
///
/// - `Symbol` is the untyped base case: its type is determined by use.
/// - `Load` dereferences a nested expression and may declare the loaded type,
///   or leave it open for the consumer to determine.
/// - `IAddImm` offsets a nested expression and always inherits the base's
///   type; arithmetic never changes the pointee type.
///
/// The tree is finite and non-cyclic by construction: a node owns its base
/// and cannot reference an ancestor.
#[derive(Debug)]
#[allow(inconsistent_fields)]
pub enum GlobalValueExpr {
    Symbol { symbol: Ident, offset: i32 },
    Load { base: Box<GlobalValueExpr>, offset: i32, ty: Option<Type> },
    IAddImm { base: Box<GlobalValueExpr>, offset: i32, ty: Type },
}

/// The type a global-value expression evaluates to: `None` for a bare symbol
/// (undetermined until loaded), the declared type of a `Load` (or `None` if
/// the load leaves it open), and recursively the base's type for `IAddImm`.
pub open spec fn type_of(e: GlobalValueExpr) -> Option<Type>
    decreases e,
{
    match e {
        GlobalValueExpr::Symbol { .. } => None,
        GlobalValueExpr::Load { ty, .. } => ty,
        GlobalValueExpr::IAddImm { base, .. } => type_of(*base),
    }
}

/// Structural equality of global-value expressions, ignoring the source spans
/// of the symbols they mention.
pub open spec fn gve_eq_spec(a: GlobalValueExpr, b: GlobalValueExpr) -> bool
    decreases a,
{
    match (a, b) {
        (
            GlobalValueExpr::Symbol { symbol: s1, offset: o1 },
            GlobalValueExpr::Symbol { symbol: s2, offset: o2 },
        ) => s1.name == s2.name && o1 == o2,
        (
            GlobalValueExpr::Load { base: b1, offset: o1, ty: t1 },
            GlobalValueExpr::Load { base: b2, offset: o2, ty: t2 },
        ) => gve_eq_spec(*b1, *b2) && o1 == o2 && t1 == t2,
        (
            GlobalValueExpr::IAddImm { base: b1, offset: o1, ty: t1 },
            GlobalValueExpr::IAddImm { base: b2, offset: o2, ty: t2 },
        ) => gve_eq_spec(*b1, *b2) && o1 == o2 && t1 == t2,
        _ => false,
    }
}

impl GlobalValueExpr {
    /// The type this expression evaluates to, if it declares one.
    pub fn ty(&self) -> (r: Option<Type>)
        ensures
            r == type_of(*self),
        decreases *self,
    {
        match self {
            Self::Symbol { .. } => None,
            Self::Load { ty, .. } => *ty,
            Self::IAddImm { base, .. } => base.ty(),
        }
    }
}

impl PartialEq for GlobalValueExpr {
    fn eq(&self, other: &Self) -> bool {
        gve_eq(self, other)
    }
}

impl vstd::std_specs::cmp::PartialEqSpecImpl for GlobalValueExpr {
    open spec fn obeys_eq_spec() -> bool {
        true
    }

    open spec fn eq_spec(&self, other: &GlobalValueExpr) -> bool {
        gve_eq_spec(*self, *other)
    }
}

impl Eq for GlobalValueExpr {}

fn gve_eq(a: &GlobalValueExpr, b: &GlobalValueExpr) -> (r: bool)
    ensures
        r == gve_eq_spec(*a, *b),
    decreases *a,
{
    match (a, b) {
        (
            GlobalValueExpr::Symbol { symbol: s1, offset: o1 },
            GlobalValueExpr::Symbol { symbol: s2, offset: o2 },
        ) => s1 == s2 && o1 == o2,
        (
            GlobalValueExpr::Load { base: b1, offset: o1, ty: t1 },
            GlobalValueExpr::Load { base: b2, offset: o2, ty: t2 },
        ) => gve_eq(b1, b2) && o1 == o2 && t1 == t2,
        (
            GlobalValueExpr::IAddImm { base: b1, offset: o1, ty: t1 },
            GlobalValueExpr::IAddImm { base: b2, offset: o2, ty: t2 },
        ) => gve_eq(b1, b2) && o1 == o2 && t1 == t2,
        _ => false,
    }
}

/// The innermost non-`IAddImm` node of an expression: offset arithmetic
/// stripped away.
pub open spec fn strip_offsets(e: GlobalValueExpr) -> GlobalValueExpr
    decreases e,
{
    match e {
        GlobalValueExpr::IAddImm { base, .. } => strip_offsets(*base),
        _ => e,
    }
}

/// An arbitrarily nested chain of `IAddImm` nodes resolves to the type of the
/// innermost non-`IAddImm` node: offset arithmetic never changes the type.
pub proof fn lemma_type_of_strips_offsets(e: GlobalValueExpr)
    ensures
        type_of(e) == type_of(strip_offsets(e)),
        !(strip_offsets(e) is IAddImm),
    decreases e,
{
    match e {
        GlobalValueExpr::IAddImm { base, .. } => {
            lemma_type_of_strips_offsets(*base);
        },
        _ => {},
    }
}

/// The various kinds of instruction, as a closed, exhaustive set: every
/// consumer pattern-matches completely, so no instruction kind can be
/// silently ignored.
#[derive(Debug)]
#[allow(inconsistent_fields)]
pub enum InstType {
    /// An arithmetic or logical operation over exactly two operands, with an
    /// optional per-instruction overflow policy.
    BinaryOp { opcode: Opcode, overflow: Option<Overflow>, operands: [Operand; 2] },
    /// The single-operand analogue of `BinaryOp`.
    UnaryOp { opcode: Opcode, overflow: Option<Overflow>, operand: Operand },
    /// An unconditional transfer.
    Br { opcode: Opcode, successor: Successor },
    /// A two-way transfer: `cond` is evaluated once and selects exactly one
    /// successor; there is no fallthrough.
    CondBr { opcode: Opcode, cond: Operand, then_dest: Successor, else_dest: Successor },
    /// A multi-way transfer: the input is matched for exact equality against
    /// the ordered case list; the first match wins, and `fallback` is taken
    /// when no case matches.
    Switch { opcode: Opcode, input: Operand, successors: Vec<SwitchCase>, fallback: Successor },
    /// Terminates the function, returning the operand values to the caller.
    Ret { opcode: Opcode, operands: Vec<Operand> },
    /// A direct call: the callee is known, so the arguments must already be
    /// realized values, not literals.
    Call { opcode: Opcode, callee: FunctionIdent, operands: Vec<Value> },
    /// A call through a computed target; by convention the first operand is
    /// the callee selector, the rest are arguments.
    CallIndirect { opcode: Opcode, operands: Vec<Operand> },
    /// A primitive or intrinsic operation not covered by the binary or unary
    /// shapes, e.g. one of variable arity.
    PrimOp { opcode: Opcode, operands: Vec<Operand> },
    /// Materializes the address or value computed by a global-value
    /// expression.
    GlobalValue { opcode: Opcode, expr: GlobalValueExpr },
}

/// Structural equality of ordered switch-case lists, pointwise and ignoring
/// spans.
pub open spec fn cases_eq_spec(a: Seq<SwitchCase>, b: Seq<SwitchCase>) -> bool {
    a.len() == b.len() && (forall|i: int| 0 <= i < a.len() ==> switch_case_eq_spec(a[i], b[i]))
}

/// Structural equality of instruction kinds: the same variant with equal
/// components, where successors and symbols are compared ignoring spans.
pub open spec fn inst_type_eq_spec(a: InstType, b: InstType) -> bool {
    match (a, b) {
        (
            InstType::BinaryOp { opcode: op1, overflow: of1, operands: args1 },
            InstType::BinaryOp { opcode: op2, overflow: of2, operands: args2 },
        ) => op1 == op2 && of1 == of2 && operand_eq_spec(args1@[0], args2@[0]) && operand_eq_spec(
            args1@[1],
            args2@[1],
        ),
        (
            InstType::UnaryOp { opcode: op1, overflow: of1, operand: arg1 },
            InstType::UnaryOp { opcode: op2, overflow: of2, operand: arg2 },
        ) => op1 == op2 && of1 == of2 && operand_eq_spec(arg1, arg2),
        (
            InstType::Br { opcode: op1, successor: s1 },
            InstType::Br { opcode: op2, successor: s2 },
        ) => op1 == op2 && successor_eq_spec(s1, s2),
        (
            InstType::CondBr { opcode: op1, cond: c1, then_dest: t1, else_dest: e1 },
            InstType::CondBr { opcode: op2, cond: c2, then_dest: t2, else_dest: e2 },
        ) => op1 == op2 && operand_eq_spec(c1, c2) && successor_eq_spec(t1, t2)
            && successor_eq_spec(e1, e2),
        (
            InstType::Switch { opcode: op1, input: i1, successors: s1, fallback: f1 },
            InstType::Switch { opcode: op2, input: i2, successors: s2, fallback: f2 },
        ) => op1 == op2 && operand_eq_spec(i1, i2) && cases_eq_spec(s1@, s2@) && successor_eq_spec(
            f1,
            f2,
        ),
        (
            InstType::Ret { opcode: op1, operands: args1 },
            InstType::Ret { opcode: op2, operands: args2 },
        ) => op1 == op2 && operands_eq_spec(args1@, args2@),
        (
            InstType::Call { opcode: op1, callee: c1, operands: args1 },
            InstType::Call { opcode: op2, callee: c2, operands: args2 },
        ) => op1 == op2 && c1.module.name == c2.module.name && c1.function.name
            == c2.function.name && args1@ == args2@,
        (
            InstType::CallIndirect { opcode: op1, operands: args1 },
            InstType::CallIndirect { opcode: op2, operands: args2 },
        ) => op1 == op2 && operands_eq_spec(args1@, args2@),
        (
            InstType::PrimOp { opcode: op1, operands: args1 },
            InstType::PrimOp { opcode: op2, operands: args2 },
        ) => op1 == op2 && operands_eq_spec(args1@, args2@),
        (
            InstType::GlobalValue { opcode: op1, expr: e1 },
            InstType::GlobalValue { opcode: op2, expr: e2 },
        ) => op1 == op2 && gve_eq_spec(e1, e2),
        _ => false,
    }
}

impl PartialEq for InstType {
    fn eq(&self, other: &Self) -> bool {
        inst_type_eq(self, other)
    }
}

impl vstd::std_specs::cmp::PartialEqSpecImpl for InstType {
    open spec fn obeys_eq_spec() -> bool {
        true
    }

    open spec fn eq_spec(&self, other: &InstType) -> bool {
        inst_type_eq_spec(*self, *other)
    }
}

impl Eq for InstType {}

/// A single instruction: its kind, the typed values it produces, and the
/// source position it came from. Outputs are supplied up front by the
/// builder; the model does not infer them from the kind, and performs no
/// validation — it is a structural container. Equality compares kind and
/// outputs and ignores the span.
#[derive(Debug)]
pub struct Inst {
    pub span: miden_diagnostics::SourceSpan,
    /// The specific kind of instruction and its data.
    pub ty: InstType,
    /// The outputs the instruction produces; empty if it produces none.
    pub outputs: Vec<TypedValue>,
}

/// Structural equality of instructions: equal kind and equal outputs; the
/// source span is excluded by design.
pub open spec fn inst_eq_spec(a: Inst, b: Inst) -> bool {
    inst_type_eq_spec(a.ty, b.ty) && a.outputs@ == b.outputs@
}

impl Inst {
    pub fn new(span: miden_diagnostics::SourceSpan, ty: InstType, outputs: Vec<TypedValue>) -> (r:
        Self)
        ensures
            r.span == span,
            r.ty == ty,
            r.outputs == outputs,
    {
        Self { span, ty, outputs }
    }
}

impl PartialEq for Inst {
    fn eq(&self, other: &Self) -> bool {
        self.ty == other.ty && outputs_eq(&self.outputs, &other.outputs)
    }
}

impl vstd::std_specs::cmp::PartialEqSpecImpl for Inst {
    open spec fn obeys_eq_spec() -> bool {
        true
    }

    open spec fn eq_spec(&self, other: &Inst) -> bool {
        inst_eq_spec(*self, *other)
    }
}

impl Eq for Inst {}

fn values_eq(a: &Vec<Value>, b: &Vec<Value>) -> (r: bool)
    ensures
        r == (a@ == b@),
{
    if a.len() != b.len() {
        proof {
            assert(a@ != b@);
        }
        return false;
    }
    let n = a.len();
    let mut i: usize = 0;
    while i < n
        invariant
            i <= n,
            n == a@.len(),
            n == b@.len(),
            forall|j: int| 0 <= j < i ==> a@[j] == b@[j],
        decreases n - i,
    {
        if a[i] != b[i] {
            proof {
                assert(a@ != b@);
            }
            return false;
        }
        i += 1;
    }
    proof {
        assert(a@ =~= b@);
    }
    true
}

fn outputs_eq(a: &Vec<TypedValue>, b: &Vec<TypedValue>) -> (r: bool)
    ensures
        r == (a@ == b@),
{
    if a.len() != b.len() {
        proof {
            assert(a@ != b@);
        }
        return false;
    }
    let n = a.len();
    let mut i: usize = 0;
    while i < n
        invariant
            i <= n,
            n == a@.len(),
            n == b@.len(),
            forall|j: int| 0 <= j < i ==> a@[j] == b@[j],
        decreases n - i,
    {
        if a[i] != b[i] {
            proof {
                assert(a@ != b@);
            }
            return false;
        }
        i += 1;
    }
    proof {
        assert(a@ =~= b@);
    }
    true
}

fn operands_eq(a: &Vec<Operand>, b: &Vec<Operand>) -> (r: bool)
    ensures
        r == operands_eq_spec(a@, b@),
{
    if a.len() != b.len() {
        return false;
    }
    let n = a.len();
    let mut i: usize = 0;
    while i < n
        invariant
            i <= n,
            n == a@.len(),
            n == b@.len(),
            forall|j: int| 0 <= j < i ==> operand_eq_spec(a@[j], b@[j]),
        decreases n - i,
    {
        if !(a[i] == b[i]) {
            return false;
        }
        i += 1;
    }
    true
}

fn cases_eq(a: &Vec<SwitchCase>, b: &Vec<SwitchCase>) -> (r: bool)
    ensures
        r == cases_eq_spec(a@, b@),
{
    if a.len() != b.len() {
        return false;
    }
    let n = a.len();
    let mut i: usize = 0;
    while i < n
        invariant
            i <= n,
            n == a@.len(),
            n == b@.len(),
            forall|j: int| 0 <= j < i ==> switch_case_eq_spec(a@[j], b@[j]),
        decreases n - i,
    {
        if !(a[i] == b[i]) {
            return false;
        }
        i += 1;
    }
    true
}

fn inst_type_eq(a: &InstType, b: &InstType) -> (r: bool)
    ensures
        r == inst_type_eq_spec(*a, *b),
{
    match (a, b) {
        (
            InstType::BinaryOp { opcode: op1, overflow: of1, operands: args1 },
            InstType::BinaryOp { opcode: op2, overflow: of2, operands: args2 },
        ) => op1 == op2 && of1 == of2 && args1[0] == args2[0] && args1[1] == args2[1],
        (
            InstType::UnaryOp { opcode: op1, overflow: of1, operand: arg1 },
            InstType::UnaryOp { opcode: op2, overflow: of2, operand: arg2 },
        ) => op1 == op2 && of1 == of2 && arg1 == arg2,
        (
            InstType::Br { opcode: op1, successor: s1 },
            InstType::Br { opcode: op2, successor: s2 },
        ) => op1 == op2 && s1 == s2,
        (
            InstType::CondBr { opcode: op1, cond: c1, then_dest: t1, else_dest: e1 },
            InstType::CondBr { opcode: op2, cond: c2, then_dest: t2, else_dest: e2 },
        ) => op1 == op2 && c1 == c2 && t1 == t2 && e1 == e2,
        (
            InstType::Switch { opcode: op1, input: i1, successors: s1, fallback: f1 },
            InstType::Switch { opcode: op2, input: i2, successors: s2, fallback: f2 },
        ) => op1 == op2 && i1 == i2 && cases_eq(s1, s2) && f1 == f2,
        (
            InstType::Ret { opcode: op1, operands: args1 },
            InstType::Ret { opcode: op2, operands: args2 },
        ) => op1 == op2 && operands_eq(args1, args2),
        (
            InstType::Call { opcode: op1, callee: c1, operands: args1 },
            InstType::Call { opcode: op2, callee: c2, operands: args2 },
        ) => op1 == op2 && c1 == c2 && values_eq(args1, args2),
        (
            InstType::CallIndirect { opcode: op1, operands: args1 },
            InstType::CallIndirect { opcode: op2, operands: args2 },
        ) => op1 == op2 && operands_eq(args1, args2),
        (
            InstType::PrimOp { opcode: op1, operands: args1 },
            InstType::PrimOp { opcode: op2, operands: args2 },
        ) => op1 == op2 && operands_eq(args1, args2),
        (
            InstType::GlobalValue { opcode: op1, expr: e1 },
            InstType::GlobalValue { opcode: op2, expr: e2 },
        ) => op1 == op2 && gve_eq(e1, e2),
        _ => false,
    }
}

/// Structural equality of global-value expressions is reflexive.
pub proof fn lemma_gve_eq_spec_refl(e: GlobalValueExpr)
    ensures
        gve_eq_spec(e, e),
    decreases e,
{
    match e {
        GlobalValueExpr::Symbol { .. } => {},
        GlobalValueExpr::Load { base, .. } => {
            lemma_gve_eq_spec_refl(*base);
        },
        GlobalValueExpr::IAddImm { base, .. } => {
            lemma_gve_eq_spec_refl(*base);
        },
    }
}

/// Structural equality of instruction kinds is reflexive.
pub proof fn lemma_inst_type_eq_spec_refl(t: InstType)
    ensures
        inst_type_eq_spec(t, t),
{
    match t {
        InstType::GlobalValue { expr, .. } => {
            lemma_gve_eq_spec_refl(expr);
        },
        _ => {},
    }
}

/// Any two instructions built with the same kind and the same outputs are
/// equal, whatever source spans they carry.
pub proof fn lemma_inst_eq_ignores_span(a: Inst, b: Inst)
    requires
        a.ty == b.ty,
        a.outputs@ == b.outputs@,
    ensures
        inst_eq_spec(a, b),
{
    lemma_inst_type_eq_spec_refl(a.ty);
}

/// The successor a `Switch` transfers control to for a given input tag: the
/// destination of the first case in the ordered list whose value matches
/// exactly, or `fallback` when none does.
pub open spec fn spec_selected_successor(
    cases: Seq<SwitchCase>,
    fallback: Successor,
    selector: u32,
) -> Successor
    decreases cases.len(),
{
    if cases.len() == 0 {
        fallback
    } else if cases[0].value == selector {
        cases[0].successor
    } else {
        spec_selected_successor(cases.skip(1), fallback, selector)
    }
}

/// Evaluates switch dispatch: scans the ordered case list and returns the
/// destination of the first case whose value equals `selector`, or
/// `fallback` when no case matches. Repeated evaluation on the same list is
/// stable: the scan order is the list order.
pub fn select_successor<'a>(
    cases: &'a Vec<SwitchCase>,
    fallback: &'a Successor,
    selector: u32,
) -> (r: &'a Successor)
    ensures
        *r == spec_selected_successor(cases@, *fallback, selector),
{
    let n = cases.len();
    let mut i: usize = 0;
    proof {
        assert(cases@.skip(0) =~= cases@);
    }
    while i < n
        invariant
            i <= n,
            n == cases@.len(),
            spec_selected_successor(cases@, *fallback, selector) == spec_selected_successor(
                cases@.skip(i as int),
                *fallback,
                selector,
            ),
        decreases n - i,
    {
        proof {
            assert(cases@.skip(i as int)[0] == cases@[i as int]);
        }
        if cases[i].value == selector {
            return &cases[i].successor;
        }
        proof {
            assert(cases@.skip(i as int).skip(1) =~= cases@.skip(i as int + 1));
        }
        i += 1;
    }
    fallback
}

/// First match wins: when case `i` matches the selector and no earlier case
/// does, dispatch selects case `i`'s destination — even if a later case
/// carries the same tag.
pub proof fn lemma_first_match_wins(
    cases: Seq<SwitchCase>,
    fallback: Successor,
    selector: u32,
    i: int,
)
    requires
        0 <= i < cases.len(),
        cases[i].value == selector,
        forall|j: int| 0 <= j < i ==> cases[j].value != selector,
    ensures
        spec_selected_successor(cases, fallback, selector) == cases[i].successor,
    decreases i,
{
    if i > 0 {
        assert(forall|j: int| 0 <= j < i - 1 ==> cases.skip(1)[j] == cases[j + 1]);
        lemma_first_match_wins(cases.skip(1), fallback, selector, i - 1);
    }
}

/// When no case matches the selector, dispatch falls through to `fallback`.
pub proof fn lemma_no_match_takes_fallback(cases: Seq<SwitchCase>, fallback: Successor, selector: u32)
    requires
        forall|j: int| 0 <= j < cases.len() ==> cases[j].value != selector,
    ensures
        spec_selected_successor(cases, fallback, selector) == fallback,
    decreases cases.len(),
{
    if cases.len() > 0 {
        assert(forall|j: int| 0 <= j < cases.len() - 1 ==> cases.skip(1)[j] == cases[j + 1]);
        lemma_no_match_takes_fallback(cases.skip(1), fallback, selector);
    }
}

} // verus!
