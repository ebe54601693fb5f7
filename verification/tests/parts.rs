use cilly::assembly::Assembly;
use cilly::cilnode::{BinOp, CILNode, Const, MethodKind};
use cilly::cilroot::CILRoot;
use cilly::class_ref::{ClassRef, FieldDesc, MethodRef, StaticFieldDesc};
use cilly::handles::{ClassDefIdx, ClassRefIdx, MethodDefIdx, NodeIdx, StringIdx, TypeIdx};
use cilly::method::{Access, BasicBlock, ClassDef, MethodDef, MethodImpl};
use cilly::journal::Category;
use cilly::parts::RebuildError;
use cilly::tpe::{FnSig, Int, Type};

/// An assembly with values in every arena, classes with and without
/// methods, and references across the arenas in both directions.
fn sample() -> Assembly {
    let mut a = Assembly::new();
    let point = a.alloc_string("Point");
    let x = a.alloc_string("x");
    let norm = a.alloc_string("norm");
    let cref = a.alloc_class_ref(ClassRef::new(point, None, true, vec![]));
    let list_name = a.alloc_string("List");
    let lib = a.alloc_string("System.Collections");
    // A type that names a class reference that names a type.
    let ptr = a.nptr(Type::ClassRef(cref));
    let list = a.alloc_class_ref(ClassRef::new(list_name, Some(lib), false, vec![ptr]));
    let list_type = a.alloc_type(Type::ClassRef(list));
    let sig = a.alloc_sig(FnSig::new(vec![Type::ClassRef(list), ptr], Type::Int(Int::I32)));
    let fnptr = a.alloc_type(Type::FnPtr(sig));
    let field = a.alloc_field(FieldDesc::new(cref, x, Type::Int(Int::I32)));
    let sfld = a.alloc_sfld(StaticFieldDesc::new(cref, x, Type::Ptr(fnptr)));
    let mref = a.alloc_methodref(MethodRef::new(cref, norm, sig, MethodKind::Instance, vec![]));
    let this = a.alloc_node(CILNode::LdArg(0));
    let load = a.alloc_node(CILNode::LdField { addr: this, field });
    let one = a.alloc_node(CILNode::Const(Box::new(Const::I32(1))));
    let sum = a.alloc_node(CILNode::BinOp(load, one, BinOp::Add));
    let call = a.alloc_node(CILNode::Call(Box::new((mref, vec![this, sum]))));
    let size = a.alloc_node(CILNode::SizeOf(list_type));
    let st = a.alloc_root(CILRoot::SetStaticField { field: sfld, val: size });
    let ret = a.alloc_root(CILRoot::Ret(call));
    let stub = a.class_def(ClassDef::new(
        point,
        true,
        0,
        None,
        vec![],
        vec![],
        vec![],
        Access::Public,
        None,
    ));
    assert_eq!(stub.as_class_ref(), cref);
    let method = a.new_method(MethodDef::new(
        Access::Public,
        stub,
        norm,
        sig,
        MethodKind::Instance,
        MethodImpl::MethodBody {
            blocks: vec![BasicBlock::new(
                vec![st],
                0,
                Some(vec![BasicBlock::new(vec![ret], 1, None)]),
            )],
            locals: vec![(Some(x), list_type)],
        },
        vec![None, Some(x)],
    ));
    a.class_def(ClassDef::new(
        point,
        true,
        0,
        Some(list),
        vec![(Type::Int(Int::I32), x, Some(0))],
        vec![(Type::Ptr(fnptr), norm, true)],
        vec![method],
        Access::Public,
        Some(4),
    ));
    a
}

#[test]
fn a_snapshot_lists_every_value_at_its_handle() {
    let a = sample();
    let parts = a.snapshot();
    assert_eq!(parts.strings.len(), a.string_count());
    assert_eq!(parts.types.len(), a.type_count());
    assert_eq!(parts.class_refs.len(), a.class_ref_count());
    assert_eq!(parts.sigs.len(), a.sig_count());
    assert_eq!(parts.fields.len(), a.field_count());
    assert_eq!(parts.statics.len(), a.static_field_count());
    assert_eq!(parts.method_refs.len(), a.method_ref_count());
    assert_eq!(parts.nodes.len(), a.node_count());
    assert_eq!(parts.roots.len(), a.root_count());
    assert_eq!(parts.method_defs.len(), a.method_def_count());
    assert_eq!(parts.class_defs.len(), a.class_ref_count());
    assert_eq!(parts.order, a.journal());
    assert_eq!(
        parts.order.len(),
        a.string_count()
            + a.type_count()
            + a.class_ref_count()
            + a.sig_count()
            + a.field_count()
            + a.static_field_count()
            + a.method_ref_count()
            + a.node_count()
            + a.root_count()
            + a.method_def_count()
    );
    assert_eq!(&parts.order[..4], &[
        Category::Strings,
        Category::ClassRefs,
        Category::Strings,
        Category::Strings,
    ]);
    assert_eq!(parts.strings[0], "RustModule");
    assert_eq!(parts.strings[1], "Point");
    for (i, node) in parts.nodes.iter().enumerate() {
        assert_eq!(node, a.get_node(NodeIdx(i)));
    }
    for (i, tpe) in parts.types.iter().enumerate() {
        assert_eq!(tpe, a.get_type(TypeIdx(i)));
    }
    for (i, def) in parts.method_defs.iter().enumerate() {
        assert_eq!(def, a.method_def(MethodDefIdx(i)));
    }
    for (i, def) in parts.class_defs.iter().enumerate() {
        match a.class_ref_to_def(ClassRefIdx(i)) {
            Some(d) => assert_eq!(def.as_ref(), Some(a.get_class_def(d))),
            None => assert_eq!(def, &None),
        }
    }
    assert!(parts.class_defs[0].is_some());
    assert!(parts.class_defs[1].is_some());
    assert!(parts.class_defs[2].is_none());
}

#[test]
fn an_assembly_is_built_again_from_its_snapshot() {
    let a = sample();
    let parts = a.snapshot();
    let b = Assembly::rebuild(&parts).expect("the parts of an assembly build it again");
    assert_eq!(b.snapshot(), parts);
    assert_eq!(b.main_module(), a.main_module());
    assert_eq!(b.node_count(), a.node_count());
    assert_eq!(b.get_class_def(ClassDefIdx(ClassRefIdx(1))).explict_size(), Some(4));
    assert_eq!(b.get_class_def(ClassDefIdx(ClassRefIdx(1))).methods(), &vec![MethodDefIdx(0)]);
    // The rebuilt assembly interns as the first one does.
    let mut a = a;
    let mut b = b;
    assert_eq!(a.alloc_string("x"), b.alloc_string("x"));
    assert_eq!(a.alloc_string("new"), b.alloc_string("new"));
    assert_eq!(a.alloc_node(CILNode::LdArg(0)), b.alloc_node(CILNode::LdArg(0)));
    assert_eq!(a.alloc_node(CILNode::LdArg(9)), b.alloc_node(CILNode::LdArg(9)));
    assert_eq!(a.nptr(Type::Bool), b.nptr(Type::Bool));
}

#[test]
fn a_new_assembly_is_built_again_from_its_snapshot() {
    let parts = Assembly::new().snapshot();
    assert_eq!(parts.strings, vec![String::from("RustModule")]);
    assert_eq!(parts.order, vec![Category::Strings, Category::ClassRefs]);
    assert_eq!(parts.class_refs.len(), 1);
    assert!(parts.types.is_empty() && parts.nodes.is_empty() && parts.roots.is_empty());
    let b = Assembly::rebuild(&parts).unwrap();
    assert_eq!(b.snapshot(), parts);
}

#[test]
fn parts_without_the_main_module_build_nothing() {
    let good = || Assembly::new().snapshot();
    let mut p = good();
    p.strings.clear();
    assert_eq!(Assembly::rebuild(&p).err(), Some(RebuildError::NoMainModule));
    let mut p = good();
    p.strings[0] = String::from("Other");
    assert_eq!(Assembly::rebuild(&p).err(), Some(RebuildError::NoMainModule));
    let mut p = good();
    p.class_refs.clear();
    assert_eq!(Assembly::rebuild(&p).err(), Some(RebuildError::NoMainModule));
    let mut p = good();
    p.class_refs[0] = ClassRef::new(StringIdx(0), None, true, vec![]);
    assert_eq!(Assembly::rebuild(&p).err(), Some(RebuildError::NoMainModule));
    let mut p = good();
    p.class_defs[0] = None;
    assert_eq!(Assembly::rebuild(&p).err(), Some(RebuildError::NoMainModule));
    let mut p = good();
    p.class_defs.clear();
    assert_eq!(Assembly::rebuild(&p).err(), Some(RebuildError::NoMainModule));
    let mut p = good();
    p.order.clear();
    assert_eq!(Assembly::rebuild(&p).err(), Some(RebuildError::NoMainModule));
    let mut p = good();
    p.order.swap(0, 1);
    assert_eq!(Assembly::rebuild(&p).err(), Some(RebuildError::NoMainModule));
    let mut p = good();
    p.order.pop();
    assert_eq!(Assembly::rebuild(&p).err(), Some(RebuildError::NoMainModule));
}

#[test]
fn a_repeated_value_builds_nothing() {
    let mut p = sample().snapshot();
    p.strings.push(String::from("Point"));
    p.order.push(Category::Strings);
    let position = p.strings.len() - 1;
    assert_eq!(
        Assembly::rebuild(&p).err(),
        Some(RebuildError::Repeated { category: Category::Strings, position })
    );
    let mut p = sample().snapshot();
    p.nodes.push(CILNode::LdArg(0));
    p.order.push(Category::Nodes);
    let position = p.nodes.len() - 1;
    assert_eq!(
        Assembly::rebuild(&p).err(),
        Some(RebuildError::Repeated { category: Category::Nodes, position })
    );
    let mut p = Assembly::new().snapshot();
    p.types.push(Type::Bool);
    p.types.push(Type::Void);
    p.types.push(Type::Bool);
    p.order.extend([Category::Types, Category::Types, Category::Types]);
    assert_eq!(
        Assembly::rebuild(&p).err(),
        Some(RebuildError::Repeated { category: Category::Types, position: 2 })
    );
}

#[test]
fn a_value_that_names_a_handle_not_yet_issued_builds_nothing() {
    let mut p = sample().snapshot();
    p.nodes.push(CILNode::LdLen(NodeIdx(1000)));
    p.order.push(Category::Nodes);
    let position = p.nodes.len() - 1;
    assert_eq!(
        Assembly::rebuild(&p).err(),
        Some(RebuildError::Dangling { category: Category::Nodes, position })
    );
    // A node that names the node after it cannot get its handle first.
    let mut p = Assembly::new().snapshot();
    p.nodes.push(CILNode::LdLen(NodeIdx(1)));
    p.nodes.push(CILNode::LdArg(0));
    p.order.extend([Category::Nodes, Category::Nodes]);
    assert_eq!(
        Assembly::rebuild(&p).err(),
        Some(RebuildError::Dangling { category: Category::Nodes, position: 0 })
    );
    // A type that the order reaches before the class reference that it names.
    let mut p = Assembly::new().snapshot();
    p.strings.push(String::from("C"));
    p.class_refs.push(ClassRef::new(StringIdx(1), None, false, vec![]));
    p.class_defs.push(None);
    p.types.push(Type::ClassRef(ClassRefIdx(1)));
    p.order.extend([Category::Strings, Category::Types, Category::ClassRefs]);
    assert_eq!(
        Assembly::rebuild(&p).err(),
        Some(RebuildError::Dangling { category: Category::Types, position: 0 })
    );
    let n = p.order.len();
    p.order.swap(n - 1, n - 2);
    assert!(Assembly::rebuild(&p).is_ok());
    let mut p = sample().snapshot();
    if let Some(Some(def)) = p.class_defs.get_mut(1) {
        def.methods.push(MethodDefIdx(50));
    }
    assert_eq!(
        Assembly::rebuild(&p).err(),
        Some(RebuildError::Dangling { category: Category::ClassDefs, position: 1 })
    );
}

#[test]
fn an_order_that_does_not_fit_the_lists_builds_nothing() {
    let mut p = sample().snapshot();
    p.order.push(Category::Roots);
    let step = p.order.len() - 1;
    assert_eq!(Assembly::rebuild(&p).err(), Some(RebuildError::Misordered { step }));
    let mut p = sample().snapshot();
    p.order.insert(2, Category::ClassDefs);
    assert_eq!(Assembly::rebuild(&p).err(), Some(RebuildError::Misordered { step: 2 }));
    let mut p = sample().snapshot();
    p.roots.push(CILRoot::Nop);
    let position = p.roots.len() - 1;
    assert_eq!(
        Assembly::rebuild(&p).err(),
        Some(RebuildError::Unlisted { category: Category::Roots, position })
    );
    let mut p = sample().snapshot();
    p.order.pop();
    assert!(matches!(Assembly::rebuild(&p).err(), Some(RebuildError::Unlisted { .. })));
}

#[test]
fn a_definition_out_of_place_builds_nothing() {
    let mut p = sample().snapshot();
    p.class_defs.pop();
    let position = p.class_defs.len();
    assert_eq!(Assembly::rebuild(&p).err(), Some(RebuildError::Misdefined { position }));
    // The definition of one class under the reference of another.
    let mut a = Assembly::new();
    let first = a.alloc_string("First");
    let second = a.alloc_string("Second");
    a.class_def(ClassDef::new(
        first,
        false,
        0,
        None,
        vec![],
        vec![],
        vec![],
        Access::Public,
        None,
    ));
    a.alloc_class_ref(ClassRef::new(second, None, false, vec![]));
    let mut p = a.snapshot();
    let moved = p.class_defs[1].take();
    p.class_defs[2] = moved;
    assert_eq!(Assembly::rebuild(&p).err(), Some(RebuildError::Misdefined { position: 2 }));
    // A class that a method names has to be defined.
    let mut p = sample().snapshot();
    p.class_defs[1] = None;
    assert_eq!(Assembly::rebuild(&p).err(), Some(RebuildError::Misdefined { position: 1 }));
    // A method cannot belong to a class with generic arguments or a module.
    let mut p = sample().snapshot();
    p.method_defs[0] = MethodDef::new(
        Access::Public,
        ClassDefIdx(ClassRefIdx(2)),
        StringIdx(3),
        p.method_defs[0].sig(),
        MethodKind::Instance,
        MethodImpl::Missing,
        vec![],
    );
    assert_eq!(
        Assembly::rebuild(&p).err(),
        Some(RebuildError::Dangling { category: Category::MethodDefs, position: 0 })
    );
}

#[test]
fn values_are_built_in_whatever_order_their_handles_allow() {
    // The first type names the second class reference, which names the
    // second type: no list can be interned in one go.
    let mut a = Assembly::new();
    let n = a.alloc_string("Cell");
    let inner = a.alloc_type(Type::Int(Int::U8));
    let cell = a.alloc_class_ref(ClassRef::new(n, None, false, vec![Type::Ptr(inner)]));
    let t = a.alloc_type(Type::ClassRef(cell));
    let wrapper = a.alloc_class_ref(ClassRef::new(n, None, true, vec![Type::Ref(t)]));
    a.alloc_type(Type::ClassRef(wrapper));
    let parts = a.snapshot();
    let b = Assembly::rebuild(&parts).unwrap();
    assert_eq!(b.snapshot(), parts);
    assert_eq!(*b.get_type(TypeIdx(2)), Type::ClassRef(wrapper));
}
