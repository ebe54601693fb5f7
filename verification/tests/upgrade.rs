use cilly::assembly::Assembly;
use cilly::cilnode::{BinOp, CILNode, Const, ExtendKind, MethodKind, PtrCastRes, UnOp};
use cilly::class_ref::{ClassRef, FieldDesc, MethodRef, StaticFieldDesc};
use cilly::handles::{ClassRefIdx, NodeIdx, TypeIdx};
use cilly::tpe::{Float, FnSig, GenericKind, Int, Type};
use cilly::v1::{
    UpgradeError, V1CallArgs, V1CallSite, V1ClassRef, V1FieldDesc, V1FnSig, V1Node, V1Opcode,
    V1StaticFieldDesc, V1Type, Violation,
};

fn arg(n: u32) -> Box<V1Node> {
    Box::new(V1Node::LDArg(n))
}

fn class(name: &str) -> V1ClassRef {
    V1ClassRef {
        assembly: Some(String::from("System.Runtime")),
        name_path: String::from(name),
        generics: vec![],
        is_valuetype: false,
    }
}

fn sig() -> V1FnSig {
    V1FnSig { inputs: vec![V1Type::I32, V1Type::Bool], output: V1Type::Void }
}

fn site(owner: Option<V1ClassRef>, is_static: bool) -> V1CallSite {
    V1CallSite {
        class: owner,
        name: String::from("frob"),
        signature: sig(),
        is_static,
        generics: vec![V1Type::U8],
    }
}

fn call(owner: Option<V1ClassRef>, is_static: bool, args: Vec<V1Node>) -> Box<V1CallArgs> {
    Box::new(V1CallArgs { args, site: site(owner, is_static) })
}

fn upgrade(v1: V1Node) -> (Assembly, Result<CILNode, UpgradeError>) {
    let mut assembly = Assembly::new();
    let r = CILNode::from_v1(&v1, &mut assembly);
    (assembly, r)
}

fn unsupported() -> V1Node {
    V1Node::GetStackTop
}

#[test]
fn variable_accesses_keep_their_index() {
    assert_eq!(upgrade(V1Node::LDArg(3)).1, Ok(CILNode::LdArg(3)));
    assert_eq!(upgrade(V1Node::LDLoc(4)).1, Ok(CILNode::LdLoc(4)));
    assert_eq!(upgrade(V1Node::LDArgA(5)).1, Ok(CILNode::LdArgA(5)));
    assert_eq!(upgrade(V1Node::LDLocA(u32::MAX)).1, Ok(CILNode::LdLocA(u32::MAX)));
}

#[test]
fn each_load_opcode_names_its_type() {
    let cases: Vec<(V1Node, Type)> = vec![
        (V1Node::LDIndBool { ptr: arg(0) }, Type::Bool),
        (V1Node::LDIndU8 { ptr: arg(0) }, Type::Int(Int::U8)),
        (V1Node::LDIndU16 { ptr: arg(0) }, Type::Int(Int::U16)),
        (V1Node::LDIndU32 { ptr: arg(0) }, Type::Int(Int::U32)),
        (V1Node::LDIndU64 { ptr: arg(0) }, Type::Int(Int::U64)),
        (V1Node::LDIndUSize { ptr: arg(0) }, Type::Int(Int::USize)),
        (V1Node::LDIndI8 { ptr: arg(0) }, Type::Int(Int::I8)),
        (V1Node::LDIndI16 { ptr: arg(0) }, Type::Int(Int::I16)),
        (V1Node::LDIndI32 { ptr: arg(0) }, Type::Int(Int::I32)),
        (V1Node::LDIndI64 { ptr: arg(0) }, Type::Int(Int::I64)),
        (V1Node::LDIndISize { ptr: arg(0) }, Type::Int(Int::ISize)),
        (V1Node::LDIndF32 { ptr: arg(0) }, Type::Float(Float::F32)),
        (V1Node::LDIndF64 { ptr: arg(0) }, Type::Float(Float::F64)),
        (V1Node::LdObj { ptr: arg(0), obj: Box::new(V1Type::DotnetChar) }, Type::PlatformChar),
        (
            V1Node::LDIndPtr { ptr: arg(0), loaded_ptr: Box::new(V1Type::F16) },
            Type::Float(Float::F16),
        ),
    ];
    for (v1, tpe) in cases {
        let (assembly, r) = upgrade(v1);
        match r {
            Ok(CILNode::LdInd { addr, tpe: t, volitale }) => {
                assert!(!volitale);
                assert_eq!(*assembly.get_node(addr), CILNode::LdArg(0));
                assert_eq!(*assembly.get_type(t), tpe);
            }
            other => panic!("not a load: {:?}", other),
        }
    }
}

#[test]
fn a_loaded_pointer_type_is_interned() {
    let (assembly, r) = upgrade(V1Node::LDIndPtr {
        ptr: arg(1),
        loaded_ptr: Box::new(V1Type::Ptr(Box::new(V1Type::U8))),
    });
    assert_eq!(r, Ok(CILNode::LdInd { addr: NodeIdx(0), tpe: TypeIdx(1), volitale: false }));
    assert_eq!(*assembly.get_type(TypeIdx(1)), Type::Ptr(TypeIdx(0)));
    assert_eq!(*assembly.get_type(TypeIdx(0)), Type::Int(Int::U8));
}

#[test]
fn each_integer_cast_names_target_and_extension() {
    let z = ExtendKind::ZeroExtend;
    let s = ExtendKind::SignExtend;
    let cases: Vec<(V1Node, Int, ExtendKind)> = vec![
        (V1Node::ZeroExtendToU64(arg(0)), Int::U64, z),
        (V1Node::SignExtendToU64(arg(0)), Int::U64, s),
        (V1Node::ZeroExtendToUSize(arg(0)), Int::USize, z),
        (V1Node::SignExtendToUSize(arg(0)), Int::USize, s),
        (V1Node::ConvU8(arg(0)), Int::U8, z),
        (V1Node::ConvU16(arg(0)), Int::U16, z),
        (V1Node::ConvU32(arg(0)), Int::U32, z),
        (V1Node::SignExtendToI64(arg(0)), Int::I64, s),
        (V1Node::ZeroExtendToISize(arg(0)), Int::ISize, z),
        (V1Node::SignExtendToISize(arg(0)), Int::ISize, s),
        (V1Node::ConvI8(arg(0)), Int::I8, s),
        (V1Node::ConvI16(arg(0)), Int::I16, s),
        (V1Node::ConvI32(arg(0)), Int::I32, s),
    ];
    for (v1, target, extend) in cases {
        let (assembly, r) = upgrade(v1);
        assert_eq!(r, Ok(CILNode::IntCast { input: NodeIdx(0), target, extend }));
        assert_eq!(*assembly.get_node(NodeIdx(0)), CILNode::LdArg(0));
    }
}

#[test]
fn each_float_cast_names_target_and_signedness() {
    let cases: Vec<(V1Node, Float, bool)> = vec![
        (V1Node::ConvF32(arg(0)), Float::F32, true),
        (V1Node::ConvF64(arg(0)), Float::F64, true),
        (V1Node::ConvF64Un(arg(0)), Float::F64, false),
    ];
    for (v1, target, is_signed) in cases {
        let (_, r) = upgrade(v1);
        assert_eq!(r, Ok(CILNode::FloatCast { input: NodeIdx(0), target, is_signed }));
    }
    assert_eq!(upgrade(V1Node::MRefToRawPtr(arg(0))).1, Ok(CILNode::RefToPtr(NodeIdx(0))));
}

#[test]
fn a_pointer_cast_goes_to_pointer_like_types_only() {
    let cast = |t: V1Type| upgrade(V1Node::CastPtr { val: arg(0), new_ptr: Box::new(t) });
    assert_eq!(cast(V1Type::USize).1, Ok(CILNode::PtrCast(NodeIdx(0), Box::new(PtrCastRes::USize))));
    assert_eq!(cast(V1Type::ISize).1, Ok(CILNode::PtrCast(NodeIdx(0), Box::new(PtrCastRes::ISize))));
    let (assembly, r) = cast(V1Type::Ptr(Box::new(V1Type::Bool)));
    assert_eq!(r, Ok(CILNode::PtrCast(NodeIdx(0), Box::new(PtrCastRes::Ptr(TypeIdx(0))))));
    assert_eq!(*assembly.get_type(TypeIdx(0)), Type::Bool);
    let (assembly, r) = cast(V1Type::ManagedReference(Box::new(V1Type::I64)));
    assert_eq!(r, Ok(CILNode::PtrCast(NodeIdx(0), Box::new(PtrCastRes::Ref(TypeIdx(0))))));
    assert_eq!(*assembly.get_type(TypeIdx(0)), Type::Int(Int::I64));
    let (assembly, r) = cast(V1Type::DelegatePtr(Box::new(sig())));
    match r {
        Ok(CILNode::PtrCast(_, res)) => match *res {
            PtrCastRes::FnPtr(s) => {
                assert_eq!(
                    *assembly.get_sig(s),
                    FnSig::new(vec![Type::Int(Int::I32), Type::Bool], Type::Void)
                );
            }
            other => panic!("not a function pointer: {:?}", other),
        },
        other => panic!("not a pointer cast: {:?}", other),
    }
    for t in [V1Type::Bool, V1Type::I32, V1Type::Void, V1Type::DotnetString, V1Type::F64] {
        assert_eq!(cast(t).1, Err(UpgradeError::Violation(Violation::NotAPointer)));
    }
    assert_eq!(
        cast(V1Type::DotnetType(Box::new(class("Object")))).1,
        Err(UpgradeError::Violation(Violation::NotAPointer))
    );
}

#[test]
fn each_binary_opcode_names_its_operation() {
    let cases: Vec<(V1Node, BinOp)> = vec![
        (V1Node::Add(arg(0), arg(1)), BinOp::Add),
        (V1Node::Sub(arg(0), arg(1)), BinOp::Sub),
        (V1Node::Mul(arg(0), arg(1)), BinOp::Mul),
        (V1Node::Eq(arg(0), arg(1)), BinOp::Eq),
        (V1Node::Or(arg(0), arg(1)), BinOp::Or),
        (V1Node::XOr(arg(0), arg(1)), BinOp::XOr),
        (V1Node::And(arg(0), arg(1)), BinOp::And),
        (V1Node::LtUn(arg(0), arg(1)), BinOp::LtUn),
        (V1Node::Lt(arg(0), arg(1)), BinOp::Lt),
        (V1Node::GtUn(arg(0), arg(1)), BinOp::GtUn),
        (V1Node::Gt(arg(0), arg(1)), BinOp::Gt),
        (V1Node::Rem(arg(0), arg(1)), BinOp::Rem),
        (V1Node::RemUn(arg(0), arg(1)), BinOp::RemUn),
        (V1Node::Shl(arg(0), arg(1)), BinOp::Shl),
        (V1Node::Shr(arg(0), arg(1)), BinOp::Shr),
        (V1Node::ShrUn(arg(0), arg(1)), BinOp::ShrUn),
        (V1Node::Div(arg(0), arg(1)), BinOp::Div),
        (V1Node::DivUn(arg(0), arg(1)), BinOp::DivUn),
    ];
    for (v1, op) in cases {
        let (assembly, r) = upgrade(v1);
        assert_eq!(r, Ok(CILNode::BinOp(NodeIdx(0), NodeIdx(1), op)));
        assert_eq!(*assembly.get_node(NodeIdx(0)), CILNode::LdArg(0));
        assert_eq!(*assembly.get_node(NodeIdx(1)), CILNode::LdArg(1));
    }
    assert_eq!(upgrade(V1Node::Not(arg(0))).1, Ok(CILNode::UnOp(NodeIdx(0), UnOp::Not)));
    assert_eq!(upgrade(V1Node::Neg(arg(0))).1, Ok(CILNode::UnOp(NodeIdx(0), UnOp::Neg)));
}

#[test]
fn equal_operands_are_interned_once() {
    let (assembly, r) = upgrade(V1Node::Add(
        Box::new(V1Node::Mul(arg(0), arg(1))),
        Box::new(V1Node::Mul(arg(0), arg(1))),
    ));
    assert_eq!(r, Ok(CILNode::BinOp(NodeIdx(2), NodeIdx(2), BinOp::Add)));
    assert_eq!(assembly.node_count(), 3);
    assert_eq!(*assembly.get_node(NodeIdx(2)), CILNode::BinOp(NodeIdx(0), NodeIdx(1), BinOp::Mul));
}

#[test]
fn field_accesses_intern_their_descriptor() {
    let field = || {
        Box::new(V1FieldDesc { owner: class("Point"), tpe: V1Type::F32, name: String::from("x") })
    };
    for address in [false, true] {
        let v1 = if address {
            V1Node::LDFieldAdress { addr: arg(0), field: field() }
        } else {
            V1Node::LDField { addr: arg(0), field: field() }
        };
        let (assembly, r) = upgrade(v1);
        let (addr, f) = match r {
            Ok(CILNode::LdFieldAdress { addr, field }) if address => (addr, field),
            Ok(CILNode::LdField { addr, field }) if !address => (addr, field),
            other => panic!("not the field access: {:?}", other),
        };
        assert_eq!(*assembly.get_node(addr), CILNode::LdArg(0));
        let desc: FieldDesc = *assembly.get_field(f);
        assert_eq!(assembly.get_string(desc.name()), "x");
        assert_eq!(desc.tpe(), Type::Float(Float::F32));
        let owner = assembly.class_ref(desc.owner());
        assert_eq!(assembly.get_string(owner.name()), "Point");
        assert_eq!(assembly.get_string(owner.module().unwrap()), "System.Runtime");
    }
}

fn method_of(assembly: &Assembly, node: &CILNode) -> (MethodRef, Vec<NodeIdx>) {
    match node {
        CILNode::Call(call) => {
            let m = assembly.get_mref(call.0);
            (
                MethodRef::new(m.class(), m.name(), m.sig(), m.kind(), m.generics().clone()),
                call.1.clone(),
            )
        }
        other => panic!("not a call: {:?}", other),
    }
}

#[test]
fn a_call_is_static_or_instance_as_its_site_says() {
    for is_static in [true, false] {
        let (assembly, r) = upgrade(V1Node::Call(call(
            Some(class("Tool")),
            is_static,
            vec![V1Node::LDArg(0), V1Node::LdTrue],
        )));
        let (m, args) = method_of(&assembly, &r.unwrap());
        assert_eq!(m.kind(), if is_static { MethodKind::Static } else { MethodKind::Instance });
        assert_eq!(assembly.get_string(m.name()), "frob");
        assert_eq!(m.generics(), &vec![Type::Int(Int::U8)]);
        assert_eq!(
            *assembly.get_sig(m.sig()),
            FnSig::new(vec![Type::Int(Int::I32), Type::Bool], Type::Void)
        );
        assert_eq!(assembly.get_string(assembly.class_ref(m.class()).name()), "Tool");
        assert_eq!(args.len(), 2);
        assert_eq!(*assembly.get_node(args[0]), CILNode::LdArg(0));
        assert_eq!(*assembly.get_node(args[1]), CILNode::Const(Box::new(Const::Bool(true))));
    }
}

#[test]
fn a_site_without_a_class_belongs_to_the_main_module() {
    let (assembly, r) = upgrade(V1Node::Call(call(None, true, vec![])));
    let (m, args) = method_of(&assembly, &r.unwrap());
    assert_eq!(m.class(), assembly.main_module().as_class_ref());
    assert_eq!(m.class(), ClassRefIdx(0));
    assert!(args.is_empty());
    let (assembly, r) = upgrade(V1Node::LDFtn(Box::new(site(None, false))));
    match r {
        Ok(CILNode::LdFtn(m)) => {
            let m = assembly.get_mref(m);
            assert_eq!(m.class(), ClassRefIdx(0));
            assert_eq!(m.kind(), MethodKind::Instance);
        }
        other => panic!("not a function load: {:?}", other),
    }
    let (assembly, r) = upgrade(V1Node::LDStaticField(Box::new(V1StaticFieldDesc {
        owner: None,
        tpe: V1Type::U64,
        name: String::from("COUNTER"),
    })));
    match r {
        Ok(CILNode::LdStaticField(s)) => {
            let s: StaticFieldDesc = *assembly.get_static_field(s);
            assert_eq!(s.owner(), ClassRefIdx(0));
            assert_eq!(assembly.get_string(s.name()), "COUNTER");
            assert_eq!(s.tpe(), Type::Int(Int::U64));
        }
        other => panic!("not a static load: {:?}", other),
    }
}

#[test]
fn virtual_calls_and_constructions_refuse_static_sites() {
    let (assembly, r) =
        upgrade(V1Node::CallVirt(call(Some(class("Shape")), false, vec![V1Node::LDArg(0)])));
    assert_eq!(method_of(&assembly, &r.unwrap()).0.kind(), MethodKind::Virtual);
    let (assembly, r) = upgrade(V1Node::NewObj(call(Some(class("Shape")), false, vec![])));
    assert_eq!(method_of(&assembly, &r.unwrap()).0.kind(), MethodKind::Constructor);
    assert_eq!(
        upgrade(V1Node::CallVirt(call(Some(class("Shape")), true, vec![]))).1,
        Err(UpgradeError::Violation(Violation::StaticVirtualCall))
    );
    assert_eq!(
        upgrade(V1Node::NewObj(call(Some(class("Shape")), true, vec![]))).1,
        Err(UpgradeError::Violation(Violation::StaticConstructor))
    );
    // An argument that cannot be upgraded is found before the site is looked at.
    assert_eq!(
        upgrade(V1Node::CallVirt(call(Some(class("Shape")), true, vec![unsupported()]))).1,
        Err(UpgradeError::Unimplemented(V1Opcode::GetStackTop))
    );
}

#[test]
fn static_sites_load_as_static_functions() {
    let (assembly, r) = upgrade(V1Node::LDFtn(Box::new(site(Some(class("Tool")), true))));
    match r {
        Ok(CILNode::LdFtn(m)) => {
            let m = assembly.get_mref(m);
            assert_eq!(m.kind(), MethodKind::Static);
            assert_eq!(assembly.get_string(m.name()), "frob");
        }
        other => panic!("not a function load: {:?}", other),
    }
}

#[test]
fn an_indirect_call_keeps_signature_pointer_and_arguments() {
    let (assembly, r) = upgrade(V1Node::CallI(Box::new((
        sig(),
        V1Node::LDLoc(2),
        vec![V1Node::LDArg(0), V1Node::LDArg(1), V1Node::LDArg(0)],
    ))));
    match r {
        Ok(CILNode::CallI(call)) => {
            let (fnptr, s, args) = *call;
            assert_eq!(*assembly.get_node(fnptr), CILNode::LdLoc(2));
            assert_eq!(
                *assembly.get_sig(s),
                FnSig::new(vec![Type::Int(Int::I32), Type::Bool], Type::Void)
            );
            assert_eq!(args.len(), 3);
            assert_eq!(args[0], args[2]);
            assert_ne!(args[0], args[1]);
            assert_eq!(*assembly.get_node(args[1]), CILNode::LdArg(1));
        }
        other => panic!("not an indirect call: {:?}", other),
    }
}

#[test]
fn constants_keep_their_value_and_width() {
    let cases: Vec<(V1Node, Const)> = vec![
        (V1Node::LdcU64(u64::MAX), Const::U64(u64::MAX)),
        (V1Node::LdcU32(7), Const::U32(7)),
        (V1Node::LdcU16(8), Const::U16(8)),
        (V1Node::LdcU8(9), Const::U8(9)),
        (V1Node::LdcI64(i64::MIN), Const::I64(i64::MIN)),
        (V1Node::LdcI32(-7), Const::I32(-7)),
        (V1Node::LdcI16(-8), Const::I16(-8)),
        (V1Node::LdcI8(-9), Const::I8(-9)),
        (V1Node::LdcF64(0x4000_0000_0000_0000), Const::F64(0x4000_0000_0000_0000)),
        (V1Node::LdcF32(0x4000_0000), Const::F32(0x4000_0000)),
        (V1Node::LdFalse, Const::Bool(false)),
        (V1Node::LdTrue, Const::Bool(true)),
    ];
    for (v1, c) in cases {
        assert_eq!(upgrade(v1).1, Ok(CILNode::Const(Box::new(c))));
    }
    let (assembly, r) = upgrade(V1Node::LdStr(String::from("text")));
    match r {
        Ok(CILNode::Const(c)) => match *c {
            Const::PlatformString(s) => assert_eq!(assembly.get_string(s), "text"),
            other => panic!("not a string: {:?}", other),
        },
        other => panic!("not a constant: {:?}", other),
    }
}

#[test]
fn queries_on_types_intern_the_type() {
    let (assembly, r) = upgrade(V1Node::SizeOf(Box::new(V1Type::U128)));
    assert_eq!(r, Ok(CILNode::SizeOf(TypeIdx(0))));
    assert_eq!(*assembly.get_type(TypeIdx(0)), Type::Int(Int::U128));
    let (assembly, r) = upgrade(V1Node::LDTypeToken(Box::new(V1Type::DotnetObject)));
    assert_eq!(r, Ok(CILNode::LdTypeToken(TypeIdx(0))));
    assert_eq!(*assembly.get_type(TypeIdx(0)), Type::PlatformObject);
    let (assembly, r) = upgrade(V1Node::UnboxAny(arg(0), Box::new(V1Type::I128)));
    assert_eq!(r, Ok(CILNode::UnboxAny { object: NodeIdx(0), tpe: TypeIdx(0) }));
    assert_eq!(*assembly.get_type(TypeIdx(0)), Type::Int(Int::I128));
    assert_eq!(upgrade(V1Node::GetException).1, Ok(CILNode::GetException));
}

#[test]
fn instance_checks_name_the_class_as_a_type() {
    for checked in [false, true] {
        let combined = Box::new((V1Node::LDArg(0), class("Animal")));
        let v1 = if checked { V1Node::CheckedCast(combined) } else { V1Node::IsInst(combined) };
        let (assembly, r) = upgrade(v1);
        let (val, tpe) = match r {
            Ok(CILNode::CheckedCast(val, tpe)) if checked => (val, tpe),
            Ok(CILNode::IsInst(val, tpe)) if !checked => (val, tpe),
            other => panic!("not the check: {:?}", other),
        };
        assert_eq!(*assembly.get_node(val), CILNode::LdArg(0));
        match *assembly.get_type(tpe) {
            Type::ClassRef(c) => {
                let c: &ClassRef = assembly.class_ref(c);
                assert_eq!(assembly.get_string(c.name()), "Animal");
            }
            other => panic!("not a class: {:?}", other),
        }
    }
}

#[test]
fn memory_operations_keep_their_operands() {
    assert_eq!(
        upgrade(V1Node::LocAlloc { size: arg(0) }).1,
        Ok(CILNode::LocAlloc { size: NodeIdx(0) })
    );
    let (assembly, r) =
        upgrade(V1Node::LocAllocAligned { tpe: Box::new(V1Type::F128), align: 32 });
    assert_eq!(r, Ok(CILNode::LocAllocAlgined { tpe: TypeIdx(0), align: 32 }));
    assert_eq!(*assembly.get_type(TypeIdx(0)), Type::Float(Float::F128));
    assert_eq!(upgrade(V1Node::LDLen { arr: arg(0) }).1, Ok(CILNode::LdLen(NodeIdx(0))));
    assert_eq!(
        upgrade(V1Node::LDElelemRef { arr: arg(0), idx: arg(1) }).1,
        Ok(CILNode::LdElelemRef { array: NodeIdx(0), index: NodeIdx(1) })
    );
    assert_eq!(
        upgrade(V1Node::LDElelemRef { arr: arg(0), idx: arg(0) }).1,
        Ok(CILNode::LdElelemRef { array: NodeIdx(0), index: NodeIdx(0) })
    );
}

#[test]
fn a_volatile_marker_marks_the_load_inside() {
    let (assembly, r) = upgrade(V1Node::Volatile(Box::new(V1Node::LDIndI32 { ptr: arg(0) })));
    assert_eq!(r, Ok(CILNode::LdInd { addr: NodeIdx(0), tpe: TypeIdx(0), volitale: true }));
    assert_eq!(*assembly.get_type(TypeIdx(0)), Type::Int(Int::I32));
    let (_, r) = upgrade(V1Node::Volatile(Box::new(V1Node::Volatile(Box::new(
        V1Node::LdObj { ptr: arg(0), obj: Box::new(V1Type::Bool) },
    )))));
    assert_eq!(r, Ok(CILNode::LdInd { addr: NodeIdx(0), tpe: TypeIdx(0), volitale: true }));
    for inner in [V1Node::LDArg(0), V1Node::LdTrue, V1Node::Add(arg(0), arg(1))] {
        assert_eq!(
            upgrade(V1Node::Volatile(Box::new(inner))).1,
            Err(UpgradeError::Violation(Violation::VolatileNotALoad))
        );
    }
    assert_eq!(
        upgrade(V1Node::Volatile(Box::new(unsupported()))).1,
        Err(UpgradeError::Unimplemented(V1Opcode::GetStackTop))
    );
}

#[test]
fn opcodes_without_a_counterpart_fail_and_name_themselves() {
    let cases: Vec<(V1Node, V1Opcode)> = vec![
        (V1Node::BlackBox(arg(0)), V1Opcode::BlackBox),
        (V1Node::LoadGlobalAllocPtr { alloc_id: 1 }, V1Opcode::LoadGlobalAllocPtr),
        (V1Node::PointerToConstValue(2), V1Opcode::PointerToConstValue),
        (V1Node::GetStackTop, V1Opcode::GetStackTop),
        (V1Node::InspectValue(arg(0)), V1Opcode::InspectValue),
        (
            V1Node::TransmutePtr { val: arg(0), new_ptr: Box::new(V1Type::USize) },
            V1Opcode::TransmutePtr,
        ),
        (V1Node::LoadAddresOfTMPLocal, V1Opcode::LoadAddresOfTMPLocal),
        (V1Node::LoadTMPLocal, V1Opcode::LoadTMPLocal),
        (
            V1Node::AddressOfStaticField(Box::new(V1StaticFieldDesc {
                owner: None,
                tpe: V1Type::Bool,
                name: String::from("FLAG"),
            })),
            V1Opcode::AddressOfStaticField,
        ),
    ];
    for (v1, op) in cases {
        let (assembly, r) = upgrade(v1);
        assert_eq!(r, Err(UpgradeError::Unimplemented(op)));
        assert_eq!(assembly.node_count(), 0);
    }
}

#[test]
fn the_first_failing_legacy_operand_decides_the_error() {
    let bad_cast = || V1Node::CastPtr { val: arg(0), new_ptr: Box::new(V1Type::Bool) };
    let not_a_pointer = Err(UpgradeError::Violation(Violation::NotAPointer));
    let no_counterpart = Err(UpgradeError::Unimplemented(V1Opcode::GetStackTop));
    assert_eq!(
        upgrade(V1Node::Add(Box::new(bad_cast()), Box::new(unsupported()))).1,
        not_a_pointer
    );
    assert_eq!(
        upgrade(V1Node::Add(Box::new(unsupported()), Box::new(bad_cast()))).1,
        no_counterpart
    );
    assert_eq!(upgrade(V1Node::Add(arg(0), Box::new(bad_cast()))).1, not_a_pointer);
    assert_eq!(
        upgrade(V1Node::Call(call(None, true, vec![V1Node::LDArg(0), bad_cast(), unsupported()])))
            .1,
        not_a_pointer
    );
    assert_eq!(
        upgrade(V1Node::CallI(Box::new((sig(), unsupported(), vec![bad_cast()])))).1,
        no_counterpart
    );
    assert_eq!(
        upgrade(V1Node::LDElelemRef { arr: Box::new(bad_cast()), idx: Box::new(unsupported()) })
            .1,
        not_a_pointer
    );
    assert_eq!(
        upgrade(V1Node::Neg(Box::new(V1Node::ConvI32(Box::new(V1Node::LDLen {
            arr: Box::new(unsupported())
        })))))
        .1,
        no_counterpart
    );
    assert_eq!(
        upgrade(V1Node::CastPtr { val: Box::new(unsupported()), new_ptr: Box::new(V1Type::Bool) })
            .1,
        no_counterpart
    );
}

#[test]
fn each_legacy_type_has_its_counterpart() {
    let cases: Vec<(V1Type, Type)> = vec![
        (V1Type::Void, Type::Void),
        (V1Type::Bool, Type::Bool),
        (V1Type::F16, Type::Float(Float::F16)),
        (V1Type::F32, Type::Float(Float::F32)),
        (V1Type::F64, Type::Float(Float::F64)),
        (V1Type::F128, Type::Float(Float::F128)),
        (V1Type::U8, Type::Int(Int::U8)),
        (V1Type::U16, Type::Int(Int::U16)),
        (V1Type::U32, Type::Int(Int::U32)),
        (V1Type::U64, Type::Int(Int::U64)),
        (V1Type::U128, Type::Int(Int::U128)),
        (V1Type::USize, Type::Int(Int::USize)),
        (V1Type::I8, Type::Int(Int::I8)),
        (V1Type::I16, Type::Int(Int::I16)),
        (V1Type::I32, Type::Int(Int::I32)),
        (V1Type::I64, Type::Int(Int::I64)),
        (V1Type::I128, Type::Int(Int::I128)),
        (V1Type::ISize, Type::Int(Int::ISize)),
        (V1Type::GenericArg(2), Type::PlatformGeneric(2, GenericKind::TypeGeneric)),
        (V1Type::CallGenericArg(3), Type::PlatformGeneric(3, GenericKind::CallGeneric)),
        (V1Type::DotnetChar, Type::PlatformChar),
        (V1Type::DotnetString, Type::PlatformString),
        (V1Type::DotnetObject, Type::PlatformObject),
    ];
    let mut assembly = Assembly::new();
    for (v1, t) in cases {
        assert_eq!(Type::from_v1(&v1, &mut assembly), t);
    }
    assert_eq!(assembly.type_count(), 0);
    let nested = V1Type::ManagedArray {
        element: Box::new(V1Type::ManagedReference(Box::new(V1Type::DotnetType(Box::new(
            V1ClassRef {
                assembly: None,
                name_path: String::from("Map"),
                generics: vec![V1Type::DotnetString, V1Type::Ptr(Box::new(V1Type::Void))],
                is_valuetype: true,
            },
        ))))),
        dims: 3,
    };
    let t = Type::from_v1(&nested, &mut assembly);
    let elem = match t {
        Type::PlatformArray { elem, dims: 3 } => *assembly.get_type(elem),
        other => panic!("not an array: {:?}", other),
    };
    let target = match elem {
        Type::Ref(inner) => *assembly.get_type(inner),
        other => panic!("not a reference: {:?}", other),
    };
    let map = match target {
        Type::ClassRef(c) => assembly.class_ref(c),
        other => panic!("not a class: {:?}", other),
    };
    assert_eq!(assembly.get_string(map.name()), "Map");
    assert_eq!(map.module(), None);
    assert!(map.is_valuetype());
    assert_eq!(map.generics()[0], Type::PlatformString);
    match map.generics()[1] {
        Type::Ptr(v) => assert_eq!(*assembly.get_type(v), Type::Void),
        other => panic!("not a pointer: {:?}", other),
    }
    let again = Type::from_v1(&nested, &mut assembly);
    assert_eq!(again, t);
}

#[test]
fn an_upgrade_only_adds_to_the_assembly() {
    let mut assembly = Assembly::new();
    let kept = assembly.alloc_node(CILNode::LdArg(0));
    let name = assembly.alloc_string("kept");
    let r = CILNode::from_v1(&V1Node::Add(arg(0), Box::new(unsupported())), &mut assembly);
    assert_eq!(r, Err(UpgradeError::Unimplemented(V1Opcode::GetStackTop)));
    assert_eq!(*assembly.get_node(kept), CILNode::LdArg(0));
    assert_eq!(assembly.get_string(name), "kept");
    let r = CILNode::from_v1(&V1Node::Sub(arg(1), arg(0)), &mut assembly);
    assert_eq!(r, Ok(CILNode::BinOp(NodeIdx(1), kept, BinOp::Sub)));
    let h = CILNode::intern_v1(&V1Node::Sub(arg(1), arg(0)), &mut assembly);
    assert_eq!(h, Ok(NodeIdx(2)));
    assert_eq!(CILNode::intern_v1(&V1Node::Sub(arg(1), arg(0)), &mut assembly), h);
}
