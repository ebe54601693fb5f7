use cilly::assembly::Assembly;
use cilly::cilnode::{BinOp, CILNode, Const, MethodKind};
use cilly::cilroot::CILRoot;
use cilly::class_ref::{ClassRef, FieldDesc, MethodRef, StaticFieldDesc};
use cilly::handles::{ClassDefIdx, ClassRefIdx, NodeIdx, StringIdx, TypeIdx, IntoBiMapIndex};
use cilly::journal::Category;
use cilly::method::{Access, ClassDef, MethodDef, MethodImpl};
use cilly::tpe::{FnSig, Int, Type};

#[test]
fn a_new_assembly_holds_its_main_module() {
    let assembly = Assembly::new();
    let main = assembly.main_module();
    assert_eq!(main, ClassDefIdx(ClassRefIdx(0)));
    assert_eq!(assembly.class_ref_to_def(main.as_class_ref()), Some(main));
    let cref = assembly.class_ref(main.as_class_ref());
    assert_eq!(assembly.get_string(cref.name()), "RustModule");
    assert_eq!(cref.module(), None);
    assert!(!cref.is_valuetype());
    assert!(cref.generics().is_empty());
    let def = assembly.get_class_def(main);
    assert_eq!(def.name(), cref.name());
    assert!(def.methods().is_empty());
}

#[test]
fn strings_are_interned_by_content() {
    let mut assembly = Assembly::new();
    let a = assembly.alloc_string("alpha");
    let b = assembly.alloc_string("beta");
    let c = assembly.alloc_string("alpha");
    assert_eq!(a, c);
    assert_ne!(a, b);
    assert_eq!(assembly.get_string(a), "alpha");
    assert_eq!(assembly.get_string(b), "beta");
    assert_eq!(assembly.alloc_string("RustModule"), StringIdx(0));
    assert_eq!(assembly.alloc_string(""), StringIdx(3));
    assert_eq!(assembly.get_string(StringIdx(3)), "");
}

#[test]
fn every_category_interns_and_gives_back() {
    let mut assembly = Assembly::new();
    let name = assembly.alloc_string("f");
    let owner = assembly.main_module().as_class_ref();
    let int = assembly.alloc_type(Type::Int(Int::I32));
    assert_eq!(assembly.alloc_type(Type::Int(Int::I32)), int);
    assert_eq!(*assembly.get_type(int), Type::Int(Int::I32));

    let sig = assembly.alloc_sig(FnSig::new(vec![Type::Int(Int::I32)], Type::Bool));
    assert_eq!(assembly.alloc_sig(FnSig::new(vec![Type::Int(Int::I32)], Type::Bool)), sig);
    assert_eq!(assembly.get_sig(sig).inputs(), &vec![Type::Int(Int::I32)]);
    assert_eq!(*assembly.get_sig(sig).output(), Type::Bool);

    let field = assembly.alloc_field(FieldDesc::new(owner, name, Type::Bool));
    assert_eq!(assembly.alloc_field(FieldDesc::new(owner, name, Type::Bool)), field);
    assert_eq!(assembly.get_field(field).tpe(), Type::Bool);

    let sfld = assembly.alloc_sfld(StaticFieldDesc::new(owner, name, Type::Void));
    assert_eq!(assembly.alloc_sfld(StaticFieldDesc::new(owner, name, Type::Void)), sfld);
    assert_eq!(assembly.get_static_field(sfld).owner(), owner);

    let mref = assembly.alloc_methodref(MethodRef::new(owner, name, sig, MethodKind::Static, vec![]));
    assert_eq!(
        assembly.alloc_methodref(MethodRef::new(owner, name, sig, MethodKind::Static, vec![])),
        mref
    );
    assert_ne!(
        assembly.alloc_methodref(MethodRef::new(owner, name, sig, MethodKind::Virtual, vec![])),
        mref
    );
    assert_eq!(assembly.get_mref(mref).kind(), MethodKind::Static);

    let one = assembly.alloc_node(CILNode::Const(Box::new(Const::I32(1))));
    let two = assembly.alloc_node(CILNode::Const(Box::new(Const::I32(2))));
    let sum = assembly.alloc_node(CILNode::BinOp(one, two, BinOp::Add));
    assert_eq!(assembly.alloc_node(CILNode::BinOp(one, two, BinOp::Add)), sum);
    assert_ne!(assembly.alloc_node(CILNode::BinOp(two, one, BinOp::Add)), sum);
    assert_eq!(*assembly.get_node(sum), CILNode::BinOp(one, two, BinOp::Add));
    let call = assembly.alloc_node(CILNode::Call(Box::new((mref, vec![one, two]))));
    assert_eq!(assembly.alloc_node(CILNode::Call(Box::new((mref, vec![one, two])))), call);
    assert_ne!(assembly.alloc_node(CILNode::Call(Box::new((mref, vec![one])))), call);

    let ret = assembly.alloc_root(CILRoot::Ret(sum));
    assert_eq!(assembly.alloc_root(CILRoot::Ret(sum)), ret);
    assert_eq!(*assembly.get_root(ret), CILRoot::Ret(sum));
}

#[test]
fn pointer_and_reference_types_intern_their_target() {
    let mut assembly = Assembly::new();
    let p = assembly.nptr(Type::Int(Int::U8));
    let q = assembly.nptr(Type::Int(Int::U8));
    let r = assembly.nref(Type::Int(Int::U8));
    assert_eq!(p, q);
    assert_eq!(p, Type::Ptr(TypeIdx(0)));
    assert_eq!(r, Type::Ref(TypeIdx(0)));
    assert_eq!(*assembly.get_type(TypeIdx(0)), Type::Int(Int::U8));
    let pp = assembly.nptr(p);
    assert_eq!(pp, Type::Ptr(TypeIdx(1)));
}

#[test]
fn a_class_is_defined_under_its_own_reference() {
    let mut assembly = Assembly::new();
    let name = assembly.alloc_string("Point");
    let x = assembly.alloc_string("x");
    let y = assembly.alloc_string("y");
    assert_eq!(assembly.class_ref_to_def(ClassRefIdx(1)), None);
    let def = ClassDef::new(
        name,
        true,
        0,
        None,
        vec![(Type::Int(Int::I32), x, Some(0)), (Type::Int(Int::I32), y, Some(4))],
        vec![],
        vec![],
        Access::Public,
        Some(8),
    );
    let idx = assembly.class_def(def.clone());
    let cref = assembly.class_ref(idx.as_class_ref());
    assert_eq!(cref.name(), name);
    assert!(cref.is_valuetype());
    assert_eq!(assembly.class_ref_to_def(idx.as_class_ref()), Some(idx));
    assert_eq!(*assembly.get_class_def(idx), def);
    assert_eq!(assembly.get_class_def(idx).explict_size(), Some(8));
    // The main module is still defined.
    assert_eq!(assembly.class_ref_to_def(ClassRefIdx(0)), Some(ClassDefIdx(ClassRefIdx(0))));
}

#[test]
fn defining_a_class_again_replaces_its_definition() {
    let mut assembly = Assembly::new();
    let name = assembly.alloc_string("Pair");
    let first = ClassDef::new(name, false, 0, None, vec![], vec![], vec![], Access::Private, None);
    let second = ClassDef::new(name, false, 2, None, vec![], vec![], vec![], Access::Public, None);
    let a = assembly.class_def(first);
    let b = assembly.class_def(second);
    assert_eq!(a, b);
    assert_eq!(assembly.get_class_def(a).generics(), 2);
    assert_eq!(*assembly.get_class_def(a).access(), Access::Public);
}

#[test]
fn a_class_defined_late_leaves_earlier_references_undefined() {
    let mut assembly = Assembly::new();
    let a = assembly.alloc_string("A");
    let b = assembly.alloc_string("B");
    let aref = assembly.alloc_class_ref(ClassRef::new(a, None, false, vec![]));
    let bdef = assembly.class_def(ClassDef::new(
        b,
        false,
        0,
        Some(aref),
        vec![],
        vec![],
        vec![],
        Access::Public,
        None,
    ));
    assert_eq!(assembly.class_ref_to_def(aref), None);
    assert_eq!(assembly.class_ref_to_def(bdef.as_class_ref()), Some(bdef));
    assert_eq!(assembly.get_class_def(bdef).extends(), Some(aref));
}

#[test]
fn method_definitions_are_interned() {
    let mut assembly = Assembly::new();
    let main = assembly.main_module();
    let name = assembly.alloc_string("entry");
    let sig = assembly.alloc_sig(FnSig::new(vec![], Type::Void));
    let def = || {
        MethodDef::new(Access::Public, main, name, sig, MethodKind::Static, MethodImpl::Missing, vec![])
    };
    let a = assembly.new_method(def());
    let b = assembly.new_method(def());
    assert_eq!(a, b);
    assert_eq!(*assembly.method_def(a), def());
    let other = MethodDef::new(
        Access::Private,
        main,
        name,
        sig,
        MethodKind::Static,
        MethodImpl::Missing,
        vec![],
    );
    assert_ne!(assembly.new_method(other), a);
}

#[test]
fn handles_convert_to_positions_and_back() {
    let h = NodeIdx::from_index(7);
    assert_eq!(h.as_bimap_index(), 7);
    assert_eq!(h, NodeIdx(7));
    assert_eq!(TypeIdx::from_index(0).as_bimap_index(), 0);
    assert_eq!(ClassDefIdx(ClassRefIdx(3)).as_class_ref(), ClassRefIdx(3));
}

#[test]
fn the_journal_lists_each_value_once_in_the_order_of_interning() {
    let mut assembly = Assembly::new();
    assert_eq!(assembly.journal(), vec![Category::Strings, Category::ClassRefs]);
    let name = assembly.alloc_string("n");
    assembly.alloc_string("n");
    let t = assembly.nptr(Type::Bool);
    assembly.alloc_type(t);
    assembly.alloc_type(Type::Bool);
    let node = assembly.alloc_node(CILNode::LdArg(0));
    assembly.alloc_root(CILRoot::Ret(node));
    assembly.alloc_node(CILNode::LdArg(0));
    let class = assembly.class_def(ClassDef::new(
        name,
        false,
        0,
        None,
        vec![],
        vec![],
        vec![],
        Access::Public,
        None,
    ));
    assembly.class_def(ClassDef::new(
        name,
        false,
        1,
        None,
        vec![],
        vec![],
        vec![],
        Access::Public,
        None,
    ));
    assert_eq!(class.as_class_ref(), ClassRefIdx(1));
    assert_eq!(
        assembly.journal(),
        vec![
            Category::Strings,
            Category::ClassRefs,
            Category::Strings,
            Category::Types,
            Category::Types,
            Category::Nodes,
            Category::Roots,
            Category::ClassRefs,
        ]
    );
}
