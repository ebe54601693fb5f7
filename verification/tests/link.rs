use cilly::assembly::Assembly;
use cilly::cilnode::{BinOp, CILNode, Const, ExtendKind, MethodKind, PtrCastRes, UnOp};
use cilly::cilroot::{BranchCond, CILRoot, CmpKind};
use cilly::class_ref::{ClassRef, FieldDesc, MethodRef, StaticFieldDesc};
use cilly::handles::{NodeIdx, StringIdx, TypeIdx};
use cilly::method::{Access, BasicBlock, ClassDef, MethodDef, MethodImpl};
use cilly::tpe::{Float, FnSig, GenericKind, Int, Type};

/// A destination that already holds a few unrelated values, so that the
/// handles of a copy differ from the handles of what was copied.
fn busy_destination() -> Assembly {
    let mut dest = Assembly::new();
    dest.alloc_string("unrelated");
    dest.alloc_type(Type::PlatformObject);
    dest.alloc_type(Type::PlatformChar);
    let pad = dest.alloc_node(CILNode::GetException);
    dest.alloc_node(CILNode::LdLen(pad));
    dest.alloc_root(CILRoot::Nop);
    dest
}

/// The string that a type spells when every handle in it is followed.
fn show_type(assembly: &Assembly, tpe: Type) -> String {
    match tpe {
        Type::Ptr(inner) => format!("*{}", show_type(assembly, *assembly.get_type(inner))),
        Type::Ref(inner) => format!("&{}", show_type(assembly, *assembly.get_type(inner))),
        Type::ClassRef(c) => {
            let cref = assembly.class_ref(c);
            let generics: Vec<String> =
                cref.generics().iter().map(|t| show_type(assembly, *t)).collect();
            let module = match cref.module() {
                Some(m) => format!("[{}]", assembly.get_string(m)),
                None => String::new(),
            };
            format!("{}{}<{}>", module, assembly.get_string(cref.name()), generics.join(","))
        }
        Type::PlatformArray { elem, dims } => {
            format!("{}[{}]", show_type(assembly, *assembly.get_type(elem)), dims)
        }
        Type::FnPtr(sig) => {
            let sig = assembly.get_sig(sig);
            let inputs: Vec<String> =
                sig.inputs().iter().map(|t| show_type(assembly, *t)).collect();
            format!("fn({})->{}", inputs.join(","), show_type(assembly, *sig.output()))
        }
        other => format!("{:?}", other),
    }
}

/// The string that a node spells when every handle in it is followed.
fn show_node(assembly: &Assembly, node: &CILNode) -> String {
    let at = |h: NodeIdx| show_node(assembly, assembly.get_node(h));
    match node {
        CILNode::Const(c) => match **c {
            Const::PlatformString(s) => format!("{:?}", assembly.get_string(s)),
            other => format!("{:?}", other),
        },
        CILNode::BinOp(a, b, op) => format!("({} {:?} {})", at(*a), op, at(*b)),
        CILNode::UnOp(a, op) => format!("({:?} {})", op, at(*a)),
        CILNode::LdInd { addr, tpe, volitale } => format!(
            "load{}({}: {})",
            if *volitale { "!" } else { "" },
            at(*addr),
            show_type(assembly, *assembly.get_type(*tpe))
        ),
        CILNode::Call(call) => {
            let mref = assembly.get_mref(call.0);
            let args: Vec<String> = call.1.iter().map(|a| at(*a)).collect();
            format!(
                "{}::{}({})",
                show_type(assembly, Type::ClassRef(mref.class())),
                assembly.get_string(mref.name()),
                args.join(",")
            )
        }
        CILNode::LdField { addr, field } => {
            let f = assembly.get_field(*field);
            format!("{}.{}", at(*addr), assembly.get_string(f.name()))
        }
        other => format!("{:?}", other),
    }
}

/// The shape of a block: labels, the kinds of the roots in order, and the
/// nesting of the handlers.
fn show_block(assembly: &Assembly, block: &BasicBlock) -> String {
    let roots: Vec<String> = block
        .roots()
        .iter()
        .map(|r| {
            let text = format!("{:?}", assembly.get_root(*r));
            text.split('(').next().unwrap().to_string()
        })
        .collect();
    let handlers = match block.handler() {
        Some(blocks) => {
            let inner: Vec<String> = blocks.iter().map(|b| show_block(assembly, b)).collect();
            format!("{{{}}}", inner.join(""))
        }
        None => String::new(),
    };
    format!("{}[{}]{}", block.block_id(), roots.join(";"), handlers)
}

#[test]
fn types_without_handles_are_copied_unchanged() {
    let source = Assembly::new();
    let mut dest = busy_destination();
    let before = dest.type_count();
    for tpe in [
        Type::Int(Int::I32),
        Type::Int(Int::USize),
        Type::Float(Float::F64),
        Type::PlatformString,
        Type::PlatformChar,
        Type::Bool,
        Type::Void,
        Type::PlatformObject,
        Type::PlatformGeneric(3, GenericKind::CallGeneric),
    ] {
        assert_eq!(dest.translate_type(&source, tpe), tpe);
    }
    assert_eq!(dest.type_count(), before);
}

#[test]
fn a_pointer_type_is_copied_with_its_target() {
    let mut source = Assembly::new();
    let byte_ptr = source.nptr(Type::Int(Int::U8));
    let ptr_ptr = source.nptr(byte_ptr);
    let mut dest = busy_destination();
    let copy = dest.translate_type(&source, ptr_ptr);
    assert_eq!(copy, Type::Ptr(TypeIdx(3)));
    assert_eq!(*dest.get_type(TypeIdx(3)), Type::Ptr(TypeIdx(2)));
    assert_eq!(*dest.get_type(TypeIdx(2)), Type::Int(Int::U8));
    assert_eq!(show_type(&dest, copy), show_type(&source, ptr_ptr));
}

#[test]
fn a_reference_type_stays_a_reference() {
    let mut source = Assembly::new();
    let r = source.nref(Type::Bool);
    let mut dest = busy_destination();
    let copy = dest.translate_type(&source, r);
    assert!(matches!(copy, Type::Ref(_)));
    assert_eq!(show_type(&dest, copy), "&Bool");
    let p = source.nptr(Type::Bool);
    let copy = dest.translate_type(&source, p);
    assert!(matches!(copy, Type::Ptr(_)));
    assert_eq!(show_type(&dest, copy), "*Bool");
}

#[test]
fn arrays_and_function_pointers_are_copied_deeply() {
    let mut source = Assembly::new();
    let elem = source.alloc_type(Type::Float(Float::F32));
    let array = Type::PlatformArray { elem, dims: 2 };
    let sig = source.alloc_sig(FnSig::new(vec![array, Type::Bool], Type::Void));
    let fnptr = Type::FnPtr(sig);
    let mut dest = busy_destination();
    let copy = dest.translate_type(&source, fnptr);
    assert_eq!(show_type(&dest, copy), "fn(Float(F32)[2],Bool)->Void");
    assert_eq!(show_type(&dest, copy), show_type(&source, fnptr));
}

#[test]
fn a_class_reference_is_copied_with_names_and_generics() {
    let mut source = Assembly::new();
    let name = source.alloc_string("List");
    let module = source.alloc_string("System.Collections");
    let inner_name = source.alloc_string("Item");
    let inner = source.alloc_class_ref(ClassRef::new(inner_name, None, true, vec![]));
    let list = source.alloc_class_ref(ClassRef::new(
        name,
        Some(module),
        false,
        vec![Type::ClassRef(inner), Type::Int(Int::I64)],
    ));
    let mut dest = busy_destination();
    let copy = dest.translate_class_ref(&source, list);
    let cref = dest.class_ref(copy);
    assert_eq!(dest.get_string(cref.name()), "List");
    assert_eq!(dest.get_string(cref.module().unwrap()), "System.Collections");
    assert!(!cref.is_valuetype());
    assert_eq!(cref.generics().len(), 2);
    assert_eq!(cref.generics()[1], Type::Int(Int::I64));
    assert_eq!(
        show_type(&dest, Type::ClassRef(copy)),
        "[System.Collections]List<Item<>,Int(I64)>"
    );
    match cref.generics()[0] {
        Type::ClassRef(item) => assert!(dest.class_ref(item).is_valuetype()),
        other => panic!("not a class: {:?}", other),
    }
}

#[test]
fn a_class_reference_interns_its_names_before_its_generics() {
    let mut source = Assembly::new();
    let name = source.alloc_string("Outer");
    let module = source.alloc_string("Lib");
    let inner_name = source.alloc_string("Inner");
    let inner = source.alloc_class_ref(ClassRef::new(inner_name, None, false, vec![]));
    let outer =
        source.alloc_class_ref(ClassRef::new(name, Some(module), false, vec![Type::ClassRef(inner)]));
    let mut dest = Assembly::new();
    dest.translate_class_ref(&source, outer);
    assert_eq!(dest.get_string(StringIdx(1)), "Outer");
    assert_eq!(dest.get_string(StringIdx(2)), "Lib");
    assert_eq!(dest.get_string(StringIdx(3)), "Inner");
}

#[test]
fn a_signature_keeps_the_order_of_its_inputs() {
    let mut source = Assembly::new();
    let p = source.nptr(Type::Void);
    let sig = FnSig::new(vec![Type::Bool, p, Type::Int(Int::I8)], Type::Float(Float::F64));
    let mut dest = busy_destination();
    let copy = dest.translate_sig(&source, sig);
    assert_eq!(copy.inputs().len(), 3);
    assert_eq!(copy.inputs()[0], Type::Bool);
    assert_eq!(show_type(&dest, copy.inputs()[1]), "*Void");
    assert_eq!(copy.inputs()[2], Type::Int(Int::I8));
    assert_eq!(*copy.output(), Type::Float(Float::F64));
    let empty = dest.translate_sig(&source, FnSig::new(vec![], Type::Void));
    assert_eq!(empty, FnSig::new(vec![], Type::Void));
}

#[test]
fn field_descriptors_are_copied_with_their_owner() {
    let mut source = Assembly::new();
    let class = source.alloc_string("Point");
    let owner = source.alloc_class_ref(ClassRef::new(class, None, true, vec![]));
    let x = source.alloc_string("x");
    let field = FieldDesc::new(owner, x, Type::Int(Int::I32));
    let sfield = StaticFieldDesc::new(owner, x, Type::Int(Int::I32));
    let mut dest = busy_destination();
    let copy = dest.translate_field(&source, field);
    assert_eq!(dest.get_string(copy.name()), "x");
    assert_eq!(copy.tpe(), Type::Int(Int::I32));
    let copied_owner = dest.class_ref(copy.owner());
    assert_eq!(dest.get_string(copied_owner.name()), "Point");
    assert!(copied_owner.is_valuetype());
    let scopy = dest.translate_static_field(&source, sfield);
    assert_eq!(scopy.owner(), copy.owner());
    assert_eq!(scopy.name(), copy.name());
    assert_eq!(scopy.tpe(), copy.tpe());
}

#[test]
fn a_method_reference_is_copied_with_class_name_and_signature() {
    let mut source = Assembly::new();
    let class = source.alloc_string("Console");
    let module = source.alloc_string("System.Console");
    let owner = source.alloc_class_ref(ClassRef::new(class, Some(module), false, vec![]));
    let name = source.alloc_string("WriteLine");
    let sig = source.alloc_sig(FnSig::new(vec![Type::PlatformString], Type::Void));
    let mref = MethodRef::new(owner, name, sig, MethodKind::Static, vec![Type::Bool]);
    let mut dest = busy_destination();
    let copy = dest.translate_method_ref(&source, mref);
    assert_eq!(dest.get_string(copy.name()), "WriteLine");
    assert_eq!(copy.kind(), MethodKind::Static);
    assert_eq!(copy.generics(), &vec![Type::Bool]);
    assert_eq!(show_type(&dest, Type::ClassRef(copy.class())), "[System.Console]Console<>");
    assert_eq!(show_type(&dest, Type::FnPtr(copy.sig())), "fn(PlatformString)->Void");
}

#[test]
fn leaf_nodes_are_copied_unchanged() {
    let source = Assembly::new();
    let mut dest = busy_destination();
    let before = dest.node_count();
    for node in [
        CILNode::LdLoc(1),
        CILNode::LdLocA(2),
        CILNode::LdArg(3),
        CILNode::LdArgA(4),
        CILNode::GetException,
        CILNode::Const(Box::new(Const::I64(-5))),
        CILNode::Const(Box::new(Const::F64(0x4009_21FB_5444_2D18))),
        CILNode::Const(Box::new(Const::Bool(true))),
    ] {
        let copy = dest.translate_node(&source, node.clone());
        assert_eq!(copy, node);
    }
    assert_eq!(dest.node_count(), before);
}

#[test]
fn a_string_constant_is_interned_in_the_destination() {
    let mut source = Assembly::new();
    source.alloc_string("padding");
    source.alloc_string("more padding");
    let text = source.alloc_string("hello");
    let node = CILNode::Const(Box::new(Const::PlatformString(text)));
    let mut dest = busy_destination();
    let copy = dest.translate_node(&source, node);
    match copy {
        CILNode::Const(c) => match *c {
            Const::PlatformString(s) => {
                assert_ne!(s, text);
                assert_eq!(dest.get_string(s), "hello");
            }
            other => panic!("not a string: {:?}", other),
        },
        other => panic!("not a constant: {:?}", other),
    }
}

#[test]
fn an_expression_is_copied_operand_by_operand() {
    let mut source = Assembly::new();
    let a = source.alloc_node(CILNode::LdArg(0));
    let five = source.alloc_node(CILNode::Const(Box::new(Const::I32(5))));
    let sum = source.alloc_node(CILNode::BinOp(a, five, BinOp::Add));
    let neg = source.alloc_node(CILNode::UnOp(sum, UnOp::Neg));
    let int = source.alloc_type(Type::Int(Int::I32));
    let load = CILNode::LdInd { addr: neg, tpe: int, volitale: true };
    let mut dest = busy_destination();
    let copy = dest.translate_node(&source, load.clone());
    assert_eq!(show_node(&dest, &copy), "load!((Neg (LdArg(0) Add I32(5))): Int(I32))");
    assert_eq!(show_node(&dest, &copy), show_node(&source, &load));
    match copy {
        CILNode::LdInd { addr, tpe, volitale } => {
            assert!(volitale);
            assert_eq!(*dest.get_type(tpe), Type::Int(Int::I32));
            assert_eq!(*dest.get_node(addr), CILNode::UnOp(NodeIdx(4), UnOp::Neg));
        }
        other => panic!("not a load: {:?}", other),
    }
}

#[test]
fn every_kind_of_node_is_copied_with_what_it_names() {
    let mut source = Assembly::new();
    let class = source.alloc_string("Box");
    let owner = source.alloc_class_ref(ClassRef::new(class, None, false, vec![]));
    let fname = source.alloc_string("value");
    let field = source.alloc_field(FieldDesc::new(owner, fname, Type::Int(Int::U16)));
    let sfld = source.alloc_sfld(StaticFieldDesc::new(owner, fname, Type::Bool));
    let sig = source.alloc_sig(FnSig::new(vec![Type::Int(Int::U16)], Type::Bool));
    let mref = source.alloc_methodref(MethodRef::new(owner, fname, sig, MethodKind::Instance, vec![]));
    let tpe = source.alloc_type(Type::ClassRef(owner));
    let x = source.alloc_node(CILNode::LdArg(0));
    let y = source.alloc_node(CILNode::LdLoc(1));
    let nodes = vec![
        CILNode::Call(Box::new((mref, vec![x, y]))),
        CILNode::Call(Box::new((mref, vec![]))),
        CILNode::CallI(Box::new((x, sig, vec![y, x]))),
        CILNode::IntCast { input: x, target: Int::U64, extend: ExtendKind::ZeroExtend },
        CILNode::FloatCast { input: x, target: Float::F32, is_signed: false },
        CILNode::RefToPtr(x),
        CILNode::PtrCast(x, Box::new(PtrCastRes::Ptr(tpe))),
        CILNode::PtrCast(x, Box::new(PtrCastRes::Ref(tpe))),
        CILNode::PtrCast(x, Box::new(PtrCastRes::FnPtr(sig))),
        CILNode::PtrCast(x, Box::new(PtrCastRes::USize)),
        CILNode::PtrCast(x, Box::new(PtrCastRes::ISize)),
        CILNode::LdFieldAdress { addr: x, field },
        CILNode::LdField { addr: y, field },
        CILNode::LdInd { addr: x, tpe, volitale: false },
        CILNode::SizeOf(tpe),
        CILNode::IsInst(x, tpe),
        CILNode::CheckedCast(y, tpe),
        CILNode::LocAlloc { size: x },
        CILNode::LdStaticField(sfld),
        CILNode::LdFtn(mref),
        CILNode::LdTypeToken(tpe),
        CILNode::LdLen(y),
        CILNode::LocAllocAlgined { tpe, align: 16 },
        CILNode::LdElelemRef { array: x, index: y },
        CILNode::UnboxAny { object: y, tpe },
    ];
    // Into an assembly with the same contents every copy equals what was copied.
    let mut twin = Assembly::new();
    for node in nodes.iter() {
        let copy = twin.translate_node(&source, node.clone());
        assert_eq!(&copy, node);
    }
    assert_eq!(twin.node_count(), source.node_count());
    assert_eq!(twin.type_count(), source.type_count());
    assert_eq!(twin.string_count(), source.string_count());
    // Into a busy assembly the copies differ in their handles only.
    let mut dest = busy_destination();
    for node in nodes.iter() {
        let copy = dest.translate_node(&source, node.clone());
        assert_eq!(std::mem::discriminant(&copy), std::mem::discriminant(node));
        let back = twin.translate_node(&dest, copy);
        assert_eq!(&back, node);
    }
}

#[test]
fn translating_into_the_same_contents_gives_the_value_back() {
    let build = || {
        let mut a = Assembly::new();
        let name = a.alloc_string("T");
        let cref = a.alloc_class_ref(ClassRef::new(name, None, false, vec![Type::Bool]));
        let t = a.alloc_type(Type::ClassRef(cref));
        let x = a.alloc_node(CILNode::LdArg(0));
        let n = a.alloc_node(CILNode::IsInst(x, t));
        let r = a.alloc_root(CILRoot::Pop(n));
        (a, cref, t, x, n, r)
    };
    let (source, cref, t, x, n, r) = build();
    let (mut dest, ..) = build();
    assert_eq!(dest.translate_type(&source, Type::Ptr(t)), Type::Ptr(t));
    assert_eq!(dest.translate_class_ref(&source, cref), cref);
    assert_eq!(dest.translate_node(&source, CILNode::UnOp(n, UnOp::Not)), CILNode::UnOp(n, UnOp::Not));
    assert_eq!(dest.translate_root(&source, CILRoot::Throw(x)), CILRoot::Throw(x));
    let block = BasicBlock::new(vec![r], 0, None);
    assert_eq!(dest.translate_block(&source, &block), block);
    assert_eq!(dest.node_count(), source.node_count());
    assert_eq!(dest.root_count(), source.root_count());
    assert_eq!(dest.type_count(), source.type_count());
    assert_eq!(dest.class_ref_count(), source.class_ref_count());
    assert_eq!(dest.string_count(), source.string_count());
}

#[test]
fn translating_twice_gives_the_same_handle() {
    let mut source = Assembly::new();
    let a = source.alloc_node(CILNode::LdArg(0));
    let b = source.alloc_node(CILNode::Const(Box::new(Const::U8(9))));
    let node = CILNode::BinOp(a, b, BinOp::Mul);
    let mut dest = busy_destination();
    let first = dest.translate_node(&source, node.clone());
    let h1 = dest.alloc_node(first.clone());
    let count = dest.node_count();
    let second = dest.translate_node(&source, node);
    let h2 = dest.alloc_node(second.clone());
    assert_eq!(first, second);
    assert_eq!(h1, h2);
    assert_eq!(dest.node_count(), count);
    let t = source.nptr(Type::Bool);
    let t1 = dest.translate_type(&source, t);
    let t2 = dest.translate_type(&source, t);
    assert_eq!(t1, t2);
}

#[test]
fn equal_strings_of_two_sources_collapse() {
    let mut first = Assembly::new();
    let a = first.alloc_string("shared");
    let mut second = Assembly::new();
    second.alloc_string("one");
    second.alloc_string("two");
    let b = second.alloc_string("shared");
    assert_ne!(a, b);
    let mut dest = busy_destination();
    let na = CILNode::Const(Box::new(Const::PlatformString(a)));
    let nb = CILNode::Const(Box::new(Const::PlatformString(b)));
    let ca = dest.translate_node(&first, na);
    let count = dest.string_count();
    let cb = dest.translate_node(&second, nb);
    assert_eq!(ca, cb);
    assert_eq!(dest.string_count(), count);
    let ra = dest.translate_root(
        &first,
        CILRoot::SourceFileInfo { line_start: 1, line_len: 1, col_start: 0, col_len: 3, file: a },
    );
    let rb = dest.translate_root(
        &second,
        CILRoot::SourceFileInfo { line_start: 1, line_len: 1, col_start: 0, col_len: 3, file: b },
    );
    assert_eq!(ra, rb);
}

#[test]
fn a_shared_operand_stays_shared() {
    let mut source = Assembly::new();
    let shared = source.alloc_node(CILNode::LdLoc(7));
    let other = source.alloc_node(CILNode::LdArg(1));
    let n1 = CILNode::BinOp(shared, other, BinOp::Add);
    let n2 = CILNode::UnOp(shared, UnOp::Not);
    let n3 = CILNode::BinOp(shared, shared, BinOp::Mul);
    let mut dest = busy_destination();
    let c1 = dest.translate_node(&source, n1);
    let c2 = dest.translate_node(&source, n2);
    let c3 = dest.translate_node(&source, n3);
    let (l1, r1) = match c1 {
        CILNode::BinOp(l, r, BinOp::Add) => (l, r),
        other => panic!("not an addition: {:?}", other),
    };
    let a2 = match c2 {
        CILNode::UnOp(a, UnOp::Not) => a,
        other => panic!("not a negation: {:?}", other),
    };
    let (l3, r3) = match c3 {
        CILNode::BinOp(l, r, BinOp::Mul) => (l, r),
        other => panic!("not a product: {:?}", other),
    };
    assert_eq!(l1, a2);
    assert_eq!(l3, r3);
    assert_eq!(l1, l3);
    assert_ne!(l1, r1);
    assert_ne!(l1, shared);
    assert_eq!(*dest.get_node(l1), CILNode::LdLoc(7));
}

#[test]
fn every_kind_of_root_is_copied_with_what_it_names() {
    let mut source = Assembly::new();
    let class = source.alloc_string("Cell");
    let owner = source.alloc_class_ref(ClassRef::new(class, None, false, vec![]));
    let fname = source.alloc_string("slot");
    let field = source.alloc_field(FieldDesc::new(owner, fname, Type::Int(Int::I32)));
    let sfld = source.alloc_sfld(StaticFieldDesc::new(owner, fname, Type::Bool));
    let sig = source.alloc_sig(FnSig::new(vec![], Type::Void));
    let mref = source.alloc_methodref(MethodRef::new(owner, fname, sig, MethodKind::Static, vec![]));
    let file = source.alloc_string("main.rs");
    let ptr = source.nptr(Type::Int(Int::I32));
    let x = source.alloc_node(CILNode::LdArg(0));
    let y = source.alloc_node(CILNode::LdLoc(1));
    let z = source.alloc_node(CILNode::Const(Box::new(Const::USize(4))));
    let roots = vec![
        CILRoot::StLoc(2, x),
        CILRoot::StArg(0, y),
        CILRoot::Ret(x),
        CILRoot::Pop(y),
        CILRoot::Throw(x),
        CILRoot::VoidRet,
        CILRoot::Break,
        CILRoot::Nop,
        CILRoot::ReThrow,
        CILRoot::Branch(Box::new((1, 0, None))),
        CILRoot::Branch(Box::new((1, 2, Some(BranchCond::True(x))))),
        CILRoot::Branch(Box::new((3, 0, Some(BranchCond::False(y))))),
        CILRoot::Branch(Box::new((4, 0, Some(BranchCond::Eq(x, y))))),
        CILRoot::Branch(Box::new((5, 0, Some(BranchCond::Ne(y, x))))),
        CILRoot::Branch(Box::new((6, 0, Some(BranchCond::Lt(x, y, CmpKind::Unsigned))))),
        CILRoot::Branch(Box::new((7, 0, Some(BranchCond::Gt(x, z, CmpKind::Ordered))))),
        CILRoot::SetField(Box::new((field, x, y))),
        CILRoot::Call(Box::new((mref, vec![x, y, z]))),
        CILRoot::StInd(Box::new((x, y, ptr, true))),
        CILRoot::InitBlk(Box::new((x, y, z))),
        CILRoot::CpBlk(Box::new((y, x, z))),
        CILRoot::CallI(Box::new((x, sig, vec![z]))),
        CILRoot::ExitSpecialRegion { target: 2, source: 1 },
        CILRoot::SetStaticField { field: sfld, val: y },
        CILRoot::SourceFileInfo { line_start: 10, line_len: 2, col_start: 4, col_len: 8, file },
    ];
    let mut twin = Assembly::new();
    for root in roots.iter() {
        let copy = twin.translate_root(&source, root.clone());
        assert_eq!(&copy, root);
    }
    let mut dest = busy_destination();
    for root in roots.iter() {
        let copy = dest.translate_root(&source, root.clone());
        assert_eq!(std::mem::discriminant(&copy), std::mem::discriminant(root));
        let back = twin.translate_root(&dest, copy);
        assert_eq!(&back, root);
    }
    assert_eq!(twin.node_count(), source.node_count());
    assert_eq!(twin.string_count(), source.string_count());
}

#[test]
fn nested_handlers_keep_their_shape_and_order() {
    let mut source = Assembly::new();
    let x = source.alloc_node(CILNode::LdArg(0));
    let r0 = source.alloc_root(CILRoot::Pop(x));
    let r1 = source.alloc_root(CILRoot::Throw(x));
    let r2 = source.alloc_root(CILRoot::ReThrow);
    let r3 = source.alloc_root(CILRoot::VoidRet);
    let innermost_a = BasicBlock::new(vec![r2], 5, None);
    let innermost_b = BasicBlock::new(vec![r3, r2], 6, None);
    let inner_a = BasicBlock::new(vec![r1, r0], 3, Some(vec![innermost_a, innermost_b]));
    let inner_b = BasicBlock::new(vec![], 4, Some(vec![]));
    let outer = BasicBlock::new(vec![r0, r1, r3], 1, Some(vec![inner_a, inner_b]));
    let mut dest = busy_destination();
    let copy = dest.translate_block(&source, &outer);

    assert_eq!(copy.block_id(), 1);
    assert_eq!(copy.roots().len(), 3);
    assert!(matches!(dest.get_root(copy.roots()[0]), CILRoot::Pop(_)));
    assert!(matches!(dest.get_root(copy.roots()[1]), CILRoot::Throw(_)));
    assert!(matches!(dest.get_root(copy.roots()[2]), CILRoot::VoidRet));
    let handlers = copy.handler().unwrap();
    assert_eq!(handlers.len(), 2);
    assert_eq!(handlers[0].block_id(), 3);
    assert_eq!(handlers[1].block_id(), 4);
    assert!(matches!(dest.get_root(handlers[0].roots()[0]), CILRoot::Throw(_)));
    assert!(matches!(dest.get_root(handlers[0].roots()[1]), CILRoot::Pop(_)));
    assert!(handlers[1].roots().is_empty());
    assert_eq!(handlers[1].handler().unwrap().len(), 0);
    let innermost = handlers[0].handler().unwrap();
    assert_eq!(innermost.len(), 2);
    assert_eq!(innermost[0].block_id(), 5);
    assert_eq!(innermost[1].block_id(), 6);
    assert!(innermost[0].handler().is_none());
    assert!(innermost[1].handler().is_none());
    assert!(matches!(dest.get_root(innermost[0].roots()[0]), CILRoot::ReThrow));
    assert!(matches!(dest.get_root(innermost[1].roots()[0]), CILRoot::VoidRet));
    assert!(matches!(dest.get_root(innermost[1].roots()[1]), CILRoot::ReThrow));
    // The rethrow of both innermost handlers is one root.
    assert_eq!(innermost[0].roots()[0], innermost[1].roots()[1]);

    assert_eq!(show_block(&dest, &copy), show_block(&source, &outer));
    assert_eq!(
        show_block(&dest, &copy),
        "1[Pop;Throw;VoidRet]{3[Throw;Pop]{5[ReThrow]6[VoidRet;ReThrow]}4[]{}}"
    );
    let mut twin = Assembly::new();
    let back = twin.translate_block(&dest, &copy);
    assert_eq!(show_block(&twin, &back), show_block(&source, &outer));
    let again = twin.translate_block(&source, &outer);
    assert!(again.same(&back));
    assert_eq!(again, back);
}

#[test]
fn a_method_definition_attaches_to_the_class_defined_in_the_destination() {
    let mut source = Assembly::new();
    let cname = source.alloc_string("Worker");
    let class = source.class_def(ClassDef::new(
        cname,
        false,
        0,
        None,
        vec![],
        vec![],
        vec![],
        Access::Public,
        None,
    ));
    let mname = source.alloc_string("run");
    let arg = source.alloc_string("count");
    let local = source.alloc_string("i");
    let int = source.alloc_type(Type::Int(Int::I32));
    let sig = source.alloc_sig(FnSig::new(vec![Type::Int(Int::I32)], Type::Void));
    let x = source.alloc_node(CILNode::LdArg(0));
    let st = source.alloc_root(CILRoot::StLoc(0, x));
    let ret = source.alloc_root(CILRoot::VoidRet);
    let body = MethodImpl::MethodBody {
        blocks: vec![BasicBlock::new(vec![st, ret], 0, None)],
        locals: vec![(Some(local), int), (None, int)],
    };
    let def = MethodDef::new(
        Access::Public,
        class,
        mname,
        sig,
        MethodKind::Instance,
        body,
        vec![Some(arg), None],
    );

    let mut dest = busy_destination();
    let dname = dest.alloc_string("Worker");
    let dclass = dest.class_def(ClassDef::new(
        dname,
        false,
        0,
        None,
        vec![],
        vec![],
        vec![],
        Access::Public,
        None,
    ));
    let copy = dest.translate_method_def(&source, &def);
    assert_eq!(*copy.class(), dclass);
    assert_eq!(*copy.access(), Access::Public);
    assert_eq!(copy.kind(), MethodKind::Instance);
    assert_eq!(dest.get_string(copy.name()), "run");
    assert_eq!(show_type(&dest, Type::FnPtr(copy.sig())), "fn(Int(I32))->Void");
    assert_eq!(copy.arg_names().len(), 2);
    assert_eq!(dest.get_string(copy.arg_names()[0].unwrap()), "count");
    assert_eq!(copy.arg_names()[1], None);
    match copy.implementation() {
        MethodImpl::MethodBody { blocks, locals } => {
            assert_eq!(blocks.len(), 1);
            assert_eq!(blocks[0].roots().len(), 2);
            assert!(matches!(dest.get_root(blocks[0].roots()[0]), CILRoot::StLoc(0, _)));
            assert!(matches!(dest.get_root(blocks[0].roots()[1]), CILRoot::VoidRet));
            assert_eq!(locals.len(), 2);
            assert_eq!(dest.get_string(locals[0].0.unwrap()), "i");
            assert_eq!(locals[1].0, None);
            assert_eq!(*dest.get_type(locals[0].1), Type::Int(Int::I32));
            assert_eq!(locals[0].1, locals[1].1);
        }
        other => panic!("not a body: {:?}", other),
    }
    let h1 = dest.new_method(copy);
    let again = dest.translate_method_def(&source, &def);
    let h2 = dest.new_method(again);
    assert_eq!(h1, h2);
}

#[test]
fn every_kind_of_implementation_is_copied() {
    let mut source = Assembly::new();
    let main = source.main_module();
    let name = source.alloc_string("puts");
    let lib = source.alloc_string("libc.so.6");
    let sig = source.alloc_sig(FnSig::new(vec![], Type::Int(Int::I32)));
    let target =
        source.alloc_methodref(MethodRef::new(main.as_class_ref(), name, sig, MethodKind::Static, vec![]));
    let mut dest = busy_destination();
    let make = |implementation: MethodImpl| {
        MethodDef::new(Access::Extern, main, name, sig, MethodKind::Static, implementation, vec![])
    };
    let ext = dest.translate_method_def(
        &source,
        &make(MethodImpl::Extern { lib, preserve_errno: true }),
    );
    match ext.implementation() {
        MethodImpl::Extern { lib, preserve_errno } => {
            assert_eq!(dest.get_string(*lib), "libc.so.6");
            assert!(*preserve_errno);
        }
        other => panic!("not external: {:?}", other),
    }
    assert_eq!(*ext.class(), dest.main_module());
    let alias = dest.translate_method_def(&source, &make(MethodImpl::AliasFor(target)));
    match alias.implementation() {
        MethodImpl::AliasFor(m) => {
            assert_eq!(dest.get_string(dest.get_mref(*m).name()), "puts");
        }
        other => panic!("not an alias: {:?}", other),
    }
    let missing = dest.translate_method_def(&source, &make(MethodImpl::Missing));
    assert_eq!(*missing.implementation(), MethodImpl::Missing);
}

#[test]
fn a_class_definition_keeps_the_name_of_each_field() {
    let mut source = Assembly::new();
    let cname = source.alloc_string("Vec3");
    let base_name = source.alloc_string("ValueType");
    let base_module = source.alloc_string("System.Runtime");
    let base = source.alloc_class_ref(ClassRef::new(base_name, Some(base_module), false, vec![]));
    let x = source.alloc_string("x");
    let y = source.alloc_string("y");
    let z = source.alloc_string("z");
    let count = source.alloc_string("COUNT");
    let cache = source.alloc_string("CACHE");
    let float = Type::Float(Float::F32);
    let stub = source.class_def(ClassDef::new(
        cname,
        true,
        0,
        None,
        vec![],
        vec![],
        vec![],
        Access::Public,
        None,
    ));
    let mname = source.alloc_string("len");
    let sig = source.alloc_sig(FnSig::new(vec![], float));
    let method = source.new_method(MethodDef::new(
        Access::Public,
        stub,
        mname,
        sig,
        MethodKind::Instance,
        MethodImpl::Missing,
        vec![],
    ));
    let def = ClassDef::new(
        cname,
        true,
        0,
        Some(base),
        vec![(float, x, Some(0)), (float, y, Some(4)), (float, z, None)],
        vec![(Type::Int(Int::U32), count, false), (Type::Bool, cache, true)],
        vec![method],
        Access::Public,
        Some(12),
    );

    let mut dest = busy_destination();
    let dname = dest.alloc_string("Vec3");
    let dstub = dest.class_def(ClassDef::new(
        dname,
        true,
        0,
        None,
        vec![],
        vec![],
        vec![],
        Access::Public,
        None,
    ));
    let copy = dest.translate_class_def(&source, &def);
    assert_eq!(dest.get_string(copy.name()), "Vec3");
    assert!(copy.is_valuetype());
    assert_eq!(copy.generics(), 0);
    assert_eq!(*copy.access(), Access::Public);
    assert_eq!(copy.explict_size(), Some(12));
    assert_eq!(
        show_type(&dest, Type::ClassRef(copy.extends().unwrap())),
        "[System.Runtime]ValueType<>"
    );
    let names: Vec<&str> =
        copy.fields().iter().map(|f| dest.get_string(f.1).as_str()).collect();
    assert_eq!(names, vec!["x", "y", "z"]);
    let offsets: Vec<Option<u32>> = copy.fields().iter().map(|f| f.2).collect();
    assert_eq!(offsets, vec![Some(0), Some(4), None]);
    assert!(copy.fields().iter().all(|f| f.0 == float));
    let statics: Vec<(&str, Type, bool)> = copy
        .static_fields()
        .iter()
        .map(|f| (dest.get_string(f.1).as_str(), f.0, f.2))
        .collect();
    assert_eq!(
        statics,
        vec![("COUNT", Type::Int(Int::U32), false), ("CACHE", Type::Bool, true)]
    );
    assert_eq!(copy.methods().len(), 1);
    let m = dest.method_def(copy.methods()[0]);
    assert_eq!(dest.get_string(m.name()), "len");
    assert_eq!(*m.class(), dstub);
    let registered = dest.class_def(copy);
    assert_eq!(registered, dstub);
    assert_eq!(dest.get_class_def(dstub).fields().len(), 3);
}
