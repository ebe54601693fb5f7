use cilly::assembly::Assembly;
use cilly::cilnode::{BinOp, CILNode, Const, MethodKind, PtrCastRes};
use cilly::cilroot::{BranchCond, CILRoot};
use cilly::class_ref::{ClassRef, FieldDesc, MethodRef, StaticFieldDesc};
use cilly::handles::{
    ClassDefIdx, ClassRefIdx, FieldIdx, MethodDefIdx, MethodRefIdx, NodeIdx, RootIdx, SigIdx,
    StaticFieldIdx, StringIdx, TypeIdx,
};
use cilly::method::{Access, BasicBlock, ClassDef, MethodDef, MethodImpl};
use cilly::tpe::{FnSig, Int, Type};

/// An assembly with one value in each arena.
fn one_of_each() -> Assembly {
    let mut assembly = Assembly::new();
    let name = assembly.alloc_string("n");
    let owner = assembly.main_module().as_class_ref();
    assembly.alloc_type(Type::Bool);
    let sig = assembly.alloc_sig(FnSig::new(vec![], Type::Void));
    assembly.alloc_field(FieldDesc::new(owner, name, Type::Bool));
    assembly.alloc_sfld(StaticFieldDesc::new(owner, name, Type::Bool));
    assembly.alloc_methodref(MethodRef::new(owner, name, sig, MethodKind::Static, vec![]));
    let node = assembly.alloc_node(CILNode::LdArg(0));
    assembly.alloc_root(CILRoot::Ret(node));
    assembly.new_method(MethodDef::new(
        Access::Public,
        assembly.main_module(),
        name,
        sig,
        MethodKind::Static,
        MethodImpl::Missing,
        vec![],
    ));
    assembly
}

#[test]
fn a_handle_is_owned_below_the_count_of_its_arena() {
    let assembly = one_of_each();
    assert_eq!(assembly.string_count(), 2);
    assert!(assembly.has_string(StringIdx(1)) && !assembly.has_string(StringIdx(2)));
    assert_eq!(assembly.type_count(), 1);
    assert!(assembly.has_type(TypeIdx(0)) && !assembly.has_type(TypeIdx(1)));
    assert_eq!(assembly.class_ref_count(), 1);
    assert!(assembly.has_class_ref(ClassRefIdx(0)) && !assembly.has_class_ref(ClassRefIdx(1)));
    assert_eq!(assembly.sig_count(), 1);
    assert!(assembly.has_sig(SigIdx(0)) && !assembly.has_sig(SigIdx(1)));
    assert_eq!(assembly.field_count(), 1);
    assert!(assembly.has_field(FieldIdx(0)) && !assembly.has_field(FieldIdx(1)));
    assert_eq!(assembly.static_field_count(), 1);
    assert!(
        assembly.has_static_field(StaticFieldIdx(0))
            && !assembly.has_static_field(StaticFieldIdx(1))
    );
    assert_eq!(assembly.method_ref_count(), 1);
    assert!(assembly.has_method_ref(MethodRefIdx(0)) && !assembly.has_method_ref(MethodRefIdx(1)));
    assert_eq!(assembly.node_count(), 1);
    assert!(assembly.has_node(NodeIdx(0)) && !assembly.has_node(NodeIdx(1)));
    assert_eq!(assembly.root_count(), 1);
    assert!(assembly.has_root(RootIdx(0)) && !assembly.has_root(RootIdx(1)));
    assert_eq!(assembly.method_def_count(), 1);
    assert!(assembly.has_method_def(MethodDefIdx(0)) && !assembly.has_method_def(MethodDefIdx(1)));
    assert!(!Assembly::new().has_type(TypeIdx(0)));
    assert!(!assembly.has_node(NodeIdx(usize::MAX)));
}

#[test]
fn a_value_is_owned_when_all_its_handles_are() {
    let assembly = one_of_each();
    let s = StringIdx(0);
    let c = ClassRefIdx(0);
    let bad_s = StringIdx(9);
    let bad_t = TypeIdx(9);
    assert!(assembly.owns_type(Type::Int(Int::I8)));
    assert!(assembly.owns_type(Type::Ptr(TypeIdx(0))));
    assert!(!assembly.owns_type(Type::Ptr(bad_t)));
    assert!(!assembly.owns_type(Type::Ref(bad_t)));
    assert!(!assembly.owns_type(Type::ClassRef(ClassRefIdx(1))));
    assert!(!assembly.owns_type(Type::FnPtr(SigIdx(1))));
    assert!(!assembly.owns_type(Type::PlatformArray { elem: bad_t, dims: 1 }));
    assert!(assembly.owns_types(&vec![]));
    assert!(assembly.owns_types(&vec![Type::Bool, Type::Ptr(TypeIdx(0))]));
    assert!(!assembly.owns_types(&vec![Type::Bool, Type::Ptr(bad_t), Type::Void]));

    assert!(assembly.owns_class_ref(&ClassRef::new(s, Some(s), true, vec![Type::Bool])));
    assert!(!assembly.owns_class_ref(&ClassRef::new(bad_s, None, true, vec![])));
    assert!(!assembly.owns_class_ref(&ClassRef::new(s, Some(bad_s), true, vec![])));
    assert!(!assembly.owns_class_ref(&ClassRef::new(s, None, true, vec![Type::Ptr(bad_t)])));
    assert!(assembly.owns_sig(&FnSig::new(vec![Type::Bool], Type::Ptr(TypeIdx(0)))));
    assert!(!assembly.owns_sig(&FnSig::new(vec![Type::Bool], Type::Ptr(bad_t))));
    assert!(!assembly.owns_sig(&FnSig::new(vec![Type::Ptr(bad_t)], Type::Bool)));
    assert!(assembly.owns_field(&FieldDesc::new(c, s, Type::Bool)));
    assert!(!assembly.owns_field(&FieldDesc::new(ClassRefIdx(1), s, Type::Bool)));
    assert!(!assembly.owns_field(&FieldDesc::new(c, bad_s, Type::Bool)));
    assert!(!assembly.owns_field(&FieldDesc::new(c, s, Type::Ptr(bad_t))));
    assert!(assembly.owns_static_field(&StaticFieldDesc::new(c, s, Type::Bool)));
    assert!(!assembly.owns_static_field(&StaticFieldDesc::new(c, bad_s, Type::Bool)));
    let mref = |class, name, sig, generics| MethodRef::new(class, name, sig, MethodKind::Virtual, generics);
    assert!(assembly.owns_method_ref(&mref(c, s, SigIdx(0), vec![Type::Void])));
    assert!(!assembly.owns_method_ref(&mref(ClassRefIdx(1), s, SigIdx(0), vec![])));
    assert!(!assembly.owns_method_ref(&mref(c, bad_s, SigIdx(0), vec![])));
    assert!(!assembly.owns_method_ref(&mref(c, s, SigIdx(1), vec![])));
    assert!(!assembly.owns_method_ref(&mref(c, s, SigIdx(0), vec![Type::Ptr(bad_t)])));
}

#[test]
fn a_node_or_root_is_owned_when_all_its_handles_are() {
    let assembly = one_of_each();
    let n = NodeIdx(0);
    let bad = NodeIdx(1);
    assert!(assembly.owns_const(Const::I32(0)));
    assert!(assembly.owns_const(Const::PlatformString(StringIdx(1))));
    assert!(!assembly.owns_const(Const::PlatformString(StringIdx(2))));
    assert!(assembly.owns_ptr_cast(PtrCastRes::USize));
    assert!(!assembly.owns_ptr_cast(PtrCastRes::Ptr(TypeIdx(1))));
    assert!(!assembly.owns_ptr_cast(PtrCastRes::FnPtr(SigIdx(1))));
    assert!(assembly.owns_nodes(&vec![n, n]));
    assert!(!assembly.owns_nodes(&vec![n, bad]));
    assert!(assembly.owns_node(&CILNode::LdLoc(0)));
    assert!(assembly.owns_node(&CILNode::BinOp(n, n, BinOp::Add)));
    assert!(!assembly.owns_node(&CILNode::BinOp(n, bad, BinOp::Add)));
    assert!(!assembly.owns_node(&CILNode::BinOp(bad, n, BinOp::Add)));
    assert!(assembly.owns_node(&CILNode::Call(Box::new((MethodRefIdx(0), vec![n])))));
    assert!(!assembly.owns_node(&CILNode::Call(Box::new((MethodRefIdx(1), vec![n])))));
    assert!(!assembly.owns_node(&CILNode::Call(Box::new((MethodRefIdx(0), vec![n, bad])))));
    assert!(!assembly.owns_node(&CILNode::CallI(Box::new((n, SigIdx(1), vec![])))));
    assert!(!assembly.owns_node(&CILNode::LdField { addr: n, field: FieldIdx(1) }));
    assert!(!assembly.owns_node(&CILNode::LdStaticField(StaticFieldIdx(1))));
    assert!(!assembly.owns_node(&CILNode::SizeOf(TypeIdx(1))));
    assert!(!assembly.owns_node(&CILNode::Const(Box::new(Const::PlatformString(StringIdx(2))))));
    assert!(assembly.owns_cond(None));
    assert!(assembly.owns_cond(Some(BranchCond::Eq(n, n))));
    assert!(!assembly.owns_cond(Some(BranchCond::Eq(n, bad))));
    assert!(!assembly.owns_cond(Some(BranchCond::True(bad))));
    assert!(assembly.owns_root(&CILRoot::Nop));
    assert!(assembly.owns_root(&CILRoot::Ret(n)));
    assert!(!assembly.owns_root(&CILRoot::Ret(bad)));
    assert!(!assembly.owns_root(&CILRoot::Branch(Box::new((0, 0, Some(BranchCond::False(bad)))))));
    assert!(!assembly.owns_root(&CILRoot::StInd(Box::new((n, n, Type::Ptr(TypeIdx(1)), false)))));
    assert!(assembly.owns_root(&CILRoot::StInd(Box::new((n, n, Type::Ptr(TypeIdx(0)), false)))));
    assert!(!assembly.owns_root(&CILRoot::SourceFileInfo {
        line_start: 0,
        line_len: 0,
        col_start: 0,
        col_len: 0,
        file: StringIdx(2)
    }));
    assert!(!assembly.owns_root(&CILRoot::SetStaticField { field: StaticFieldIdx(1), val: n }));
}

#[test]
fn blocks_and_definitions_are_owned_when_all_their_handles_are() {
    let assembly = one_of_each();
    let r = RootIdx(0);
    let bad = RootIdx(1);
    assert!(assembly.owns_roots(&vec![r, r]));
    assert!(!assembly.owns_roots(&vec![bad]));
    let good = BasicBlock::new(vec![r], 0, Some(vec![BasicBlock::new(vec![r], 1, None)]));
    let deep = BasicBlock::new(
        vec![r],
        0,
        Some(vec![BasicBlock::new(vec![], 1, Some(vec![BasicBlock::new(vec![bad], 2, None)]))]),
    );
    assert!(assembly.owns_block(&good));
    assert!(!assembly.owns_block(&deep));
    assert!(!assembly.owns_block(&BasicBlock::new(vec![bad], 0, None)));
    assert!(assembly.owns_blocks(&vec![]));
    assert!(!assembly.owns_blocks(&vec![good, deep]));
    assert!(assembly.owns_locals(&vec![(None, TypeIdx(0)), (Some(StringIdx(1)), TypeIdx(0))]));
    assert!(!assembly.owns_locals(&vec![(None, TypeIdx(1))]));
    assert!(!assembly.owns_locals(&vec![(Some(StringIdx(2)), TypeIdx(0))]));
    assert!(assembly.owns_names(&vec![None, Some(StringIdx(0))]));
    assert!(!assembly.owns_names(&vec![None, Some(StringIdx(2))]));
    assert!(assembly.owns_method_impl(&MethodImpl::Missing));
    assert!(!assembly.owns_method_impl(&MethodImpl::AliasFor(MethodRefIdx(1))));
    assert!(!assembly.owns_method_impl(&MethodImpl::Extern { lib: StringIdx(2), preserve_errno: false }));
    assert!(!assembly.owns_method_impl(&MethodImpl::MethodBody {
        blocks: vec![],
        locals: vec![(None, TypeIdx(1))]
    }));
    let method = |class, name, sig| {
        MethodDef::new(
            Access::Private,
            ClassDefIdx(class),
            name,
            sig,
            MethodKind::Instance,
            MethodImpl::Missing,
            vec![],
        )
    };
    assert!(assembly.owns_method_def(&method(ClassRefIdx(0), StringIdx(0), SigIdx(0))));
    assert!(!assembly.owns_method_def(&method(ClassRefIdx(1), StringIdx(0), SigIdx(0))));
    assert!(!assembly.owns_method_def(&method(ClassRefIdx(0), StringIdx(2), SigIdx(0))));
    assert!(!assembly.owns_method_def(&method(ClassRefIdx(0), StringIdx(0), SigIdx(1))));
    let class = |extends, fields, statics, methods| {
        ClassDef::new(StringIdx(1), false, 0, extends, fields, statics, methods, Access::Public, None)
    };
    assert!(assembly.owns_class_def(&class(None, vec![], vec![], vec![])));
    assert!(assembly.owns_class_def(&class(
        Some(ClassRefIdx(0)),
        vec![(Type::Bool, StringIdx(1), None)],
        vec![(Type::Bool, StringIdx(0), true)],
        vec![MethodDefIdx(0)]
    )));
    assert!(!assembly.owns_class_def(&class(Some(ClassRefIdx(1)), vec![], vec![], vec![])));
    assert!(!assembly.owns_class_def(&class(
        None,
        vec![(Type::Ptr(TypeIdx(1)), StringIdx(1), None)],
        vec![],
        vec![]
    )));
    assert!(!assembly.owns_class_def(&class(
        None,
        vec![],
        vec![(Type::Bool, StringIdx(2), false)],
        vec![]
    )));
    assert!(!assembly.owns_class_def(&class(None, vec![], vec![], vec![MethodDefIdx(1)])));
}

#[test]
fn a_method_needs_its_class_to_be_defined() {
    let mut assembly = Assembly::new();
    let name = assembly.alloc_string("Later");
    let sig = assembly.alloc_sig(FnSig::new(vec![], Type::Void));
    let cref = assembly.alloc_class_ref(ClassRef::new(name, None, false, vec![]));
    let def = || {
        MethodDef::new(
            Access::Public,
            ClassDefIdx(cref),
            name,
            sig,
            MethodKind::Static,
            MethodImpl::Missing,
            vec![],
        )
    };
    assert!(!assembly.owns_method_def(&def()));
    let class = assembly.class_def(ClassDef::new(
        name,
        false,
        0,
        None,
        vec![],
        vec![],
        vec![],
        Access::Public,
        None,
    ));
    assert_eq!(class, ClassDefIdx(cref));
    assert!(assembly.owns_method_def(&def()));
}
