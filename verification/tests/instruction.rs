use miden_diagnostics::{ByteIndex, SourceId, SourceIndex, SourceSpan};
use midenc_core::instruction::{
    select_successor, GlobalValueExpr, Inst, InstType, Operand, Successor, SwitchCase, TypedValue,
};
use midenc_core::ir::{Block, FunctionIdent, Ident, Opcode, Overflow, Symbol, Type, Value};
use num_bigint::BigInt;

fn span_at(start: u32, end: u32) -> SourceSpan {
    SourceSpan::new(
        SourceIndex::new(SourceId::UNKNOWN, ByteIndex(start)),
        SourceIndex::new(SourceId::UNKNOWN, ByteIndex(end)),
    )
}

fn ident_at(span: SourceSpan, sym: u32) -> Ident {
    Ident { span, name: Symbol(sym) }
}

fn successor_at(span: SourceSpan, block: u32, args: Vec<Value>) -> Successor {
    Successor { span, id: Block(block), args }
}

#[test]
fn inst_equality_ignores_position() {
    let a = Inst::new(
        SourceSpan::UNKNOWN,
        InstType::BinaryOp {
            opcode: Opcode::Add,
            overflow: Some(Overflow::Wrapping),
            operands: [Operand::Value(Value(1)), Operand::Int(2)],
        },
        vec![TypedValue::new(Value(3), Type::I32)],
    );
    let b = Inst::new(
        span_at(10, 20),
        InstType::BinaryOp {
            opcode: Opcode::Add,
            overflow: Some(Overflow::Wrapping),
            operands: [Operand::Value(Value(1)), Operand::Int(2)],
        },
        vec![TypedValue::new(Value(3), Type::I32)],
    );
    assert!(a == b);
}

#[test]
fn inst_equality_discriminates_content() {
    let a = Inst::new(
        SourceSpan::UNKNOWN,
        InstType::UnaryOp {
            opcode: Opcode::Neg,
            overflow: None,
            operand: Operand::Value(Value(1)),
        },
        vec![TypedValue::new(Value(2), Type::I64)],
    );
    let different_outputs = Inst::new(
        SourceSpan::UNKNOWN,
        InstType::UnaryOp {
            opcode: Opcode::Neg,
            overflow: None,
            operand: Operand::Value(Value(1)),
        },
        vec![TypedValue::new(Value(9), Type::I64)],
    );
    let different_opcode = Inst::new(
        SourceSpan::UNKNOWN,
        InstType::UnaryOp {
            opcode: Opcode::Band,
            overflow: None,
            operand: Operand::Value(Value(1)),
        },
        vec![TypedValue::new(Value(2), Type::I64)],
    );
    assert!(a != different_outputs);
    assert!(a != different_opcode);
}

#[test]
fn successor_equality_ignores_position() {
    let a = successor_at(span_at(1, 4), 7, vec![Value(1), Value(2)]);
    let b = successor_at(span_at(30, 44), 7, vec![Value(1), Value(2)]);
    assert!(a == b);
    let different_args = successor_at(span_at(1, 4), 7, vec![Value(1), Value(9)]);
    assert!(a != different_args);
    let different_block = successor_at(span_at(1, 4), 8, vec![Value(1), Value(2)]);
    assert!(a != different_block);
}

#[test]
fn switch_case_equality_ignores_position() {
    let a = SwitchCase {
        span: span_at(2, 3),
        value: 11,
        successor: successor_at(span_at(2, 3), 4, vec![]),
    };
    let b = SwitchCase {
        span: span_at(7, 9),
        value: 11,
        successor: successor_at(span_at(8, 9), 4, vec![]),
    };
    assert!(a == b);
}

#[test]
fn big_integer_operands_compare_by_value() {
    // The same number reached through different constructors.
    let a = Operand::BigInt(BigInt::from(1234567890123456789u64));
    let b = Operand::BigInt(BigInt::from(1234567890123456789i64));
    assert!(a == b);
    let c = Operand::BigInt(BigInt::from(-7i32));
    let d = Operand::BigInt(BigInt::from(7i32));
    assert!(c != d);
    assert!(a != Operand::Int(5));
}

#[test]
fn ret_inst_equality_with_big_integers() {
    let a = Inst::new(
        SourceSpan::UNKNOWN,
        InstType::Ret {
            opcode: Opcode::Ret,
            operands: vec![Operand::BigInt(BigInt::from(1u8) << 100u32)],
        },
        vec![],
    );
    let b = Inst::new(
        span_at(3, 5),
        InstType::Ret {
            opcode: Opcode::Ret,
            operands: vec![Operand::BigInt(BigInt::from(2u8) << 99u32)],
        },
        vec![],
    );
    assert!(a == b);
}

#[test]
fn call_equality_ignores_identifier_positions() {
    let callee_a = FunctionIdent {
        module: ident_at(span_at(1, 2), 10),
        function: ident_at(span_at(3, 4), 11),
    };
    let callee_b = FunctionIdent {
        module: ident_at(span_at(5, 6), 10),
        function: ident_at(span_at(7, 8), 11),
    };
    let a = Inst::new(
        SourceSpan::UNKNOWN,
        InstType::Call { opcode: Opcode::Call, callee: callee_a, operands: vec![Value(1)] },
        vec![],
    );
    let b = Inst::new(
        SourceSpan::UNKNOWN,
        InstType::Call { opcode: Opcode::Call, callee: callee_b, operands: vec![Value(1)] },
        vec![],
    );
    assert!(a == b);
}

#[test]
fn switch_first_match_wins() {
    let cases = vec![
        SwitchCase {
            span: SourceSpan::UNKNOWN,
            value: 1,
            successor: successor_at(SourceSpan::UNKNOWN, 10, vec![]),
        },
        SwitchCase {
            span: SourceSpan::UNKNOWN,
            value: 2,
            successor: successor_at(SourceSpan::UNKNOWN, 20, vec![]),
        },
        SwitchCase {
            span: SourceSpan::UNKNOWN,
            value: 1,
            successor: successor_at(SourceSpan::UNKNOWN, 30, vec![]),
        },
    ];
    let fallback = successor_at(SourceSpan::UNKNOWN, 99, vec![]);
    let chosen = select_successor(&cases, &fallback, 1);
    assert_eq!(chosen.id, Block(10));
    // Repeated evaluation is stable.
    let again = select_successor(&cases, &fallback, 1);
    assert_eq!(again.id, Block(10));
    let second = select_successor(&cases, &fallback, 2);
    assert_eq!(second.id, Block(20));
}

#[test]
fn switch_without_match_takes_fallback() {
    let cases = vec![SwitchCase {
        span: SourceSpan::UNKNOWN,
        value: 5,
        successor: successor_at(SourceSpan::UNKNOWN, 10, vec![]),
    }];
    let fallback = successor_at(SourceSpan::UNKNOWN, 99, vec![Value(4)]);
    let chosen = select_successor(&cases, &fallback, 6);
    assert_eq!(chosen.id, Block(99));
    assert!(*chosen == fallback);
}

#[test]
fn switch_with_no_cases_takes_fallback() {
    let cases: Vec<SwitchCase> = vec![];
    let fallback = successor_at(SourceSpan::UNKNOWN, 42, vec![]);
    let chosen = select_successor(&cases, &fallback, 0);
    assert_eq!(chosen.id, Block(42));
}

#[test]
fn global_value_expr_typing() {
    let symbol = GlobalValueExpr::Symbol { symbol: ident_at(SourceSpan::UNKNOWN, 1), offset: 8 };
    assert_eq!(symbol.ty(), None);

    let typed_load = GlobalValueExpr::Load {
        base: Box::new(GlobalValueExpr::Symbol {
            symbol: ident_at(SourceSpan::UNKNOWN, 1),
            offset: 0,
        }),
        offset: 4,
        ty: Some(Type::U32),
    };
    assert_eq!(typed_load.ty(), Some(Type::U32));

    let untyped_load = GlobalValueExpr::Load {
        base: Box::new(GlobalValueExpr::Symbol {
            symbol: ident_at(SourceSpan::UNKNOWN, 1),
            offset: 0,
        }),
        offset: 4,
        ty: None,
    };
    assert_eq!(untyped_load.ty(), None);
}

#[test]
fn global_value_expr_offset_chain_inherits_innermost_type() {
    let innermost = GlobalValueExpr::Load {
        base: Box::new(GlobalValueExpr::Symbol {
            symbol: ident_at(SourceSpan::UNKNOWN, 2),
            offset: 0,
        }),
        offset: 0,
        ty: Some(Type::Felt),
    };
    let chain = GlobalValueExpr::IAddImm {
        base: Box::new(GlobalValueExpr::IAddImm {
            base: Box::new(GlobalValueExpr::IAddImm {
                base: Box::new(innermost),
                offset: 1,
                ty: Type::U64,
            }),
            offset: 2,
            ty: Type::U64,
        }),
        offset: 3,
        ty: Type::U64,
    };
    assert_eq!(chain.ty(), Some(Type::Felt));

    let untyped_chain = GlobalValueExpr::IAddImm {
        base: Box::new(GlobalValueExpr::IAddImm {
            base: Box::new(GlobalValueExpr::Symbol {
                symbol: ident_at(SourceSpan::UNKNOWN, 3),
                offset: 0,
            }),
            offset: 4,
            ty: Type::U32,
        }),
        offset: 8,
        ty: Type::U32,
    };
    assert_eq!(untyped_chain.ty(), None);
}

#[test]
fn global_value_expr_equality_ignores_symbol_position() {
    let a = GlobalValueExpr::Symbol { symbol: ident_at(span_at(1, 2), 5), offset: 16 };
    let b = GlobalValueExpr::Symbol { symbol: ident_at(span_at(9, 12), 5), offset: 16 };
    assert!(a == b);
    let c = GlobalValueExpr::Symbol { symbol: ident_at(span_at(1, 2), 6), offset: 16 };
    assert!(a != c);
}

#[test]
fn typed_value_new_populates_fields() {
    let tv = TypedValue::new(Value(4), Type::U8);
    assert_eq!(tv.id, Value(4));
    assert_eq!(tv.ty, Type::U8);
}

#[test]
fn inst_new_populates_fields() {
    let inst = Inst::new(
        span_at(2, 6),
        InstType::Br {
            opcode: Opcode::Br,
            successor: successor_at(SourceSpan::UNKNOWN, 1, vec![]),
        },
        vec![TypedValue::new(Value(1), Type::I1)],
    );
    assert_eq!(inst.span, span_at(2, 6));
    assert_eq!(inst.outputs.len(), 1);
    assert!(matches!(inst.ty, InstType::Br { .. }));
}
