use cilly::assembly::Assembly;
use cilly::cilnode::{BinOp, CILNode, Const, ExtendKind, MethodKind, PtrCastRes, UnOp};
use cilly::class_ref::{FieldDesc, MethodRef, StaticFieldDesc};
use cilly::handles::{NodeIdx, SigIdx};
use cilly::tpe::{Float, FnSig, Int, Type};
use cilly::typing::{NodeKind, TypingError};

fn constant(assembly: &mut Assembly, c: Const) -> NodeIdx {
    assembly.alloc_node(CILNode::Const(Box::new(c)))
}

/// A node whose type is a pointer to bytes.
fn byte_pointer(assembly: &mut Assembly) -> (NodeIdx, Type) {
    let byte = assembly.alloc_type(Type::Int(Int::U8));
    let arg = assembly.alloc_node(CILNode::LdArg(0));
    let node = assembly.alloc_node(CILNode::PtrCast(arg, Box::new(PtrCastRes::Ptr(byte))));
    (node, Type::Ptr(byte))
}

fn type_of(assembly: &Assembly, node: &CILNode) -> Result<Type, TypingError> {
    node.get_type(SigIdx(0), &[], assembly)
}

#[test]
fn a_constant_has_the_type_of_its_kind() {
    let mut assembly = Assembly::new();
    let s = assembly.alloc_string("text");
    let cases = [
        (Const::I8(-1), Type::Int(Int::I8)),
        (Const::I16(-1), Type::Int(Int::I16)),
        (Const::I32(-1), Type::Int(Int::I32)),
        (Const::I64(-1), Type::Int(Int::I64)),
        (Const::I128(-1), Type::Int(Int::I128)),
        (Const::ISize(-1), Type::Int(Int::ISize)),
        (Const::U8(1), Type::Int(Int::U8)),
        (Const::U16(1), Type::Int(Int::U16)),
        (Const::U32(1), Type::Int(Int::U32)),
        (Const::U64(1), Type::Int(Int::U64)),
        (Const::U128(1), Type::Int(Int::U128)),
        (Const::USize(1), Type::Int(Int::USize)),
        (Const::PlatformString(s), Type::PlatformString),
        (Const::Bool(false), Type::Bool),
        (Const::F32(0x3F80_0000), Type::Float(Float::F32)),
        (Const::F64(0x3FF0_0000_0000_0000), Type::Float(Float::F64)),
    ];
    for (c, t) in cases {
        assert_eq!(c.get_type(), t);
        assert_eq!(type_of(&assembly, &CILNode::Const(Box::new(c))), Ok(t));
    }
}

#[test]
fn arithmetic_on_equal_types_has_that_type() {
    let mut assembly = Assembly::new();
    let a = constant(&mut assembly, Const::I32(2));
    let b = constant(&mut assembly, Const::I32(3));
    let x = constant(&mut assembly, Const::U64(2));
    for op in [BinOp::Add, BinOp::Sub, BinOp::Mul] {
        assert_eq!(type_of(&assembly, &CILNode::BinOp(a, b, op)), Ok(Type::Int(Int::I32)));
        assert_eq!(type_of(&assembly, &CILNode::BinOp(a, a, op)), Ok(Type::Int(Int::I32)));
        assert_eq!(type_of(&assembly, &CILNode::BinOp(x, x, op)), Ok(Type::Int(Int::U64)));
    }
    let sum = assembly.alloc_node(CILNode::BinOp(a, b, BinOp::Add));
    assert_eq!(type_of(&assembly, &CILNode::BinOp(sum, a, BinOp::Mul)), Ok(Type::Int(Int::I32)));
}

#[test]
fn a_pointer_and_a_pointer_wide_integer_give_the_pointer() {
    let mut assembly = Assembly::new();
    let (p, pointer) = byte_pointer(&mut assembly);
    let u = constant(&mut assembly, Const::USize(8));
    let i = constant(&mut assembly, Const::ISize(-8));
    for op in [BinOp::Add, BinOp::Sub, BinOp::Mul] {
        assert_eq!(type_of(&assembly, &CILNode::BinOp(p, u, op)), Ok(pointer));
        assert_eq!(type_of(&assembly, &CILNode::BinOp(p, i, op)), Ok(pointer));
        assert_eq!(type_of(&assembly, &CILNode::BinOp(u, p, op)), Ok(pointer));
        assert_eq!(type_of(&assembly, &CILNode::BinOp(i, p, op)), Ok(pointer));
        assert_eq!(type_of(&assembly, &CILNode::BinOp(p, p, op)), Ok(pointer));
    }
}

#[test]
fn mismatched_operands_fail_with_both_types() {
    let mut assembly = Assembly::new();
    let (p, pointer) = byte_pointer(&mut assembly);
    let a = constant(&mut assembly, Const::I32(1));
    let b = constant(&mut assembly, Const::I64(1));
    let u = constant(&mut assembly, Const::USize(1));
    let i = constant(&mut assembly, Const::ISize(1));
    assert_eq!(
        type_of(&assembly, &CILNode::BinOp(a, b, BinOp::Add)),
        Err(TypingError::Mismatch { lhs: Type::Int(Int::I32), rhs: Type::Int(Int::I64) })
    );
    assert_eq!(
        type_of(&assembly, &CILNode::BinOp(b, a, BinOp::Sub)),
        Err(TypingError::Mismatch { lhs: Type::Int(Int::I64), rhs: Type::Int(Int::I32) })
    );
    assert_eq!(
        type_of(&assembly, &CILNode::BinOp(p, a, BinOp::Add)),
        Err(TypingError::Mismatch { lhs: pointer, rhs: Type::Int(Int::I32) })
    );
    assert_eq!(
        type_of(&assembly, &CILNode::BinOp(a, p, BinOp::Mul)),
        Err(TypingError::Mismatch { lhs: Type::Int(Int::I32), rhs: pointer })
    );
    assert_eq!(
        type_of(&assembly, &CILNode::BinOp(u, i, BinOp::Add)),
        Err(TypingError::Mismatch { lhs: Type::Int(Int::USize), rhs: Type::Int(Int::ISize) })
    );
}

#[test]
fn pointers_to_different_types_do_not_mix() {
    let mut assembly = Assembly::new();
    let (p, pointer) = byte_pointer(&mut assembly);
    let word = assembly.alloc_type(Type::Int(Int::U32));
    let arg = assembly.alloc_node(CILNode::LdArg(1));
    let q = assembly.alloc_node(CILNode::PtrCast(arg, Box::new(PtrCastRes::Ptr(word))));
    assert_eq!(
        type_of(&assembly, &CILNode::BinOp(p, q, BinOp::Sub)),
        Err(TypingError::Mismatch { lhs: pointer, rhs: Type::Ptr(word) })
    );
}

#[test]
fn comparisons_are_boolean_and_shifts_keep_the_left_type() {
    let mut assembly = Assembly::new();
    let a = constant(&mut assembly, Const::I16(1));
    let b = constant(&mut assembly, Const::U64(1));
    for op in [BinOp::Eq, BinOp::LtUn, BinOp::Lt, BinOp::GtUn, BinOp::Gt] {
        assert_eq!(type_of(&assembly, &CILNode::BinOp(a, b, op)), Ok(Type::Bool));
    }
    for op in [BinOp::Shl, BinOp::Shr, BinOp::ShrUn] {
        assert_eq!(type_of(&assembly, &CILNode::BinOp(a, b, op)), Ok(Type::Int(Int::I16)));
        assert_eq!(type_of(&assembly, &CILNode::BinOp(b, a, op)), Ok(Type::Int(Int::U64)));
    }
}

#[test]
fn operations_without_a_rule_fail_and_name_themselves() {
    let mut assembly = Assembly::new();
    let a = constant(&mut assembly, Const::I32(1));
    for op in [
        BinOp::Or,
        BinOp::XOr,
        BinOp::And,
        BinOp::Rem,
        BinOp::RemUn,
        BinOp::DivUn,
        BinOp::Div,
    ] {
        assert_eq!(
            type_of(&assembly, &CILNode::BinOp(a, a, op)),
            Err(TypingError::Unimplemented(NodeKind::BinOp(op)))
        );
    }
    let tpe = assembly.alloc_type(Type::Bool);
    let cases = [
        (CILNode::UnOp(a, UnOp::Not), NodeKind::UnOp),
        (CILNode::LdLoc(0), NodeKind::LdLoc),
        (CILNode::LdLocA(0), NodeKind::LdLocA),
        (CILNode::LdArg(0), NodeKind::LdArg),
        (CILNode::LdArgA(0), NodeKind::LdArgA),
        (CILNode::RefToPtr(a), NodeKind::RefToPtr),
        (CILNode::SizeOf(tpe), NodeKind::SizeOf),
        (CILNode::GetException, NodeKind::GetException),
        (CILNode::IsInst(a, tpe), NodeKind::IsInst),
        (CILNode::LocAlloc { size: a }, NodeKind::LocAlloc),
        (CILNode::LdTypeToken(tpe), NodeKind::LdTypeToken),
        (CILNode::LdLen(a), NodeKind::LdLen),
        (CILNode::LocAllocAlgined { tpe, align: 8 }, NodeKind::LocAllocAlgined),
        (CILNode::LdElelemRef { array: a, index: a }, NodeKind::LdElelemRef),
        (CILNode::UnboxAny { object: a, tpe }, NodeKind::UnboxAny),
    ];
    for (node, kind) in cases {
        assert_eq!(node.kind(), kind);
        assert_eq!(type_of(&assembly, &node), Err(TypingError::Unimplemented(kind)));
    }
}

#[test]
fn the_first_failing_operand_decides_the_error() {
    let mut assembly = Assembly::new();
    let a = constant(&mut assembly, Const::I32(1));
    let not = assembly.alloc_node(CILNode::UnOp(a, UnOp::Not));
    let len = assembly.alloc_node(CILNode::LdLen(a));
    assert_eq!(
        type_of(&assembly, &CILNode::BinOp(not, a, BinOp::Add)),
        Err(TypingError::Unimplemented(NodeKind::UnOp))
    );
    assert_eq!(
        type_of(&assembly, &CILNode::BinOp(a, len, BinOp::Add)),
        Err(TypingError::Unimplemented(NodeKind::LdLen))
    );
    assert_eq!(
        type_of(&assembly, &CILNode::BinOp(not, len, BinOp::Eq)),
        Err(TypingError::Unimplemented(NodeKind::UnOp))
    );
    assert_eq!(
        type_of(&assembly, &CILNode::BinOp(len, not, BinOp::Shl)),
        Err(TypingError::Unimplemented(NodeKind::LdLen))
    );
    // An operation without a rule does not look at its operands.
    assert_eq!(
        type_of(&assembly, &CILNode::BinOp(not, len, BinOp::Or)),
        Err(TypingError::Unimplemented(NodeKind::BinOp(BinOp::Or)))
    );
    let b = constant(&mut assembly, Const::I64(1));
    let bad = assembly.alloc_node(CILNode::BinOp(a, b, BinOp::Add));
    assert_eq!(
        type_of(&assembly, &CILNode::BinOp(bad, a, BinOp::Mul)),
        Err(TypingError::Mismatch { lhs: Type::Int(Int::I32), rhs: Type::Int(Int::I64) })
    );
}

#[test]
fn calls_have_the_result_type_of_the_signature() {
    let mut assembly = Assembly::new();
    let owner = assembly.main_module().as_class_ref();
    let name = assembly.alloc_string("area");
    let sig = assembly.alloc_sig(FnSig::new(vec![Type::Int(Int::I32)], Type::Float(Float::F64)));
    let void = assembly.alloc_sig(FnSig::new(vec![], Type::Void));
    let mref =
        assembly.alloc_methodref(MethodRef::new(owner, name, sig, MethodKind::Static, vec![]));
    let a = constant(&mut assembly, Const::I32(1));
    assert_eq!(
        type_of(&assembly, &CILNode::Call(Box::new((mref, vec![a])))),
        Ok(Type::Float(Float::F64))
    );
    assert_eq!(
        type_of(&assembly, &CILNode::CallI(Box::new((a, sig, vec![a])))),
        Ok(Type::Float(Float::F64))
    );
    assert_eq!(type_of(&assembly, &CILNode::CallI(Box::new((a, void, vec![])))), Ok(Type::Void));
}

#[test]
fn casts_have_their_target_type() {
    let mut assembly = Assembly::new();
    let a = constant(&mut assembly, Const::I32(1));
    let byte = assembly.alloc_type(Type::Int(Int::U8));
    let object = assembly.alloc_type(Type::PlatformObject);
    let sig = assembly.alloc_sig(FnSig::new(vec![], Type::Void));
    assert_eq!(
        type_of(
            &assembly,
            &CILNode::IntCast { input: a, target: Int::U64, extend: ExtendKind::SignExtend }
        ),
        Ok(Type::Int(Int::U64))
    );
    assert_eq!(
        type_of(&assembly, &CILNode::FloatCast { input: a, target: Float::F32, is_signed: true }),
        Ok(Type::Float(Float::F32))
    );
    let cases = [
        (PtrCastRes::Ptr(byte), Type::Ptr(byte)),
        (PtrCastRes::Ref(byte), Type::Ref(byte)),
        (PtrCastRes::FnPtr(sig), Type::FnPtr(sig)),
        (PtrCastRes::USize, Type::Int(Int::USize)),
        (PtrCastRes::ISize, Type::Int(Int::ISize)),
    ];
    for (cast, t) in cases {
        assert_eq!(cast.as_type(), t);
        assert_eq!(type_of(&assembly, &CILNode::PtrCast(a, Box::new(cast))), Ok(t));
    }
    assert_eq!(type_of(&assembly, &CILNode::CheckedCast(a, object)), Ok(Type::PlatformObject));
}

#[test]
fn loads_have_the_declared_type() {
    let mut assembly = Assembly::new();
    let owner = assembly.main_module().as_class_ref();
    let name = assembly.alloc_string("len");
    let field = assembly.alloc_field(FieldDesc::new(owner, name, Type::Int(Int::U32)));
    let sfld = assembly.alloc_sfld(StaticFieldDesc::new(owner, name, Type::PlatformString));
    let chr = assembly.alloc_type(Type::PlatformChar);
    let a = constant(&mut assembly, Const::I32(1));
    assert_eq!(type_of(&assembly, &CILNode::LdField { addr: a, field }), Ok(Type::Int(Int::U32)));
    assert_eq!(type_of(&assembly, &CILNode::LdStaticField(sfld)), Ok(Type::PlatformString));
    assert_eq!(
        type_of(&assembly, &CILNode::LdInd { addr: a, tpe: chr, volitale: false }),
        Ok(Type::PlatformChar)
    );
    assert_eq!(
        type_of(&assembly, &CILNode::LdFieldAdress { addr: a, field }),
        Err(TypingError::Unimplemented(NodeKind::LdFieldAdress))
    );
}

#[test]
fn operation_classes_do_not_overlap() {
    let all = [
        BinOp::Add,
        BinOp::Eq,
        BinOp::Sub,
        BinOp::Mul,
        BinOp::LtUn,
        BinOp::Lt,
        BinOp::GtUn,
        BinOp::Gt,
        BinOp::Or,
        BinOp::XOr,
        BinOp::And,
        BinOp::Rem,
        BinOp::RemUn,
        BinOp::Shl,
        BinOp::Shr,
        BinOp::ShrUn,
        BinOp::DivUn,
        BinOp::Div,
    ];
    let mut counts = (0, 0, 0);
    for op in all {
        let classes = [op.is_arithmetic(), op.is_comparison(), op.is_shift()];
        assert!(classes.iter().filter(|c| **c).count() <= 1);
        counts.0 += op.is_arithmetic() as u32;
        counts.1 += op.is_comparison() as u32;
        counts.2 += op.is_shift() as u32;
    }
    assert_eq!(counts, (3, 5, 3));
}
