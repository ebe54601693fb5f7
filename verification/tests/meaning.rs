use cilly::assembly::Assembly;
use cilly::class_ref::ClassRef;
use cilly::handles::ClassRefIdx;
use cilly::method::{Access, ClassDef};
use cilly::tpe::{Float, FnSig, Int, Type};

fn list_of(assembly: &mut Assembly, module: Option<&str>, elem: Type) -> ClassRefIdx {
    let name = assembly.alloc_string("List");
    let module = module.map(|m| assembly.alloc_string(m));
    assembly.alloc_class_ref(ClassRef::new(name, module, false, vec![elem]))
}

#[test]
fn strings_compare_by_content_across_assemblies() {
    let mut a = Assembly::new();
    let mut b = Assembly::new();
    b.alloc_string("pad");
    let x = a.alloc_string("same");
    let y = b.alloc_string("same");
    let z = b.alloc_string("other");
    assert_ne!(x, y);
    assert!(a.same_string(x, &b, y));
    assert!(!a.same_string(x, &b, z));
    assert!(a.same_string_opt(Some(x), &b, Some(y)));
    assert!(a.same_string_opt(None, &b, None));
    assert!(!a.same_string_opt(Some(x), &b, None));
    assert!(!a.same_string_opt(None, &b, Some(y)));
}

#[test]
fn types_compare_by_what_they_mean() {
    let mut a = Assembly::new();
    let mut b = Assembly::new();
    b.alloc_type(Type::Void);
    b.alloc_type(Type::PlatformChar);
    let pa = a.nptr(Type::Int(Int::U8));
    let pb = b.nptr(Type::Int(Int::U8));
    let qb = b.nptr(Type::Int(Int::I8));
    let rb = b.nref(Type::Int(Int::U8));
    assert_ne!(pa, pb);
    assert!(a.same_type_meaning(pa, &b, pb));
    assert!(!a.same_type_meaning(pa, &b, qb));
    assert!(!a.same_type_meaning(pa, &b, rb));
    assert!(a.same_type_meaning(Type::Bool, &b, Type::Bool));
    assert!(!a.same_type_meaning(Type::Bool, &b, Type::Void));
    assert!(!a.same_type_meaning(pa, &b, Type::Bool));
    assert!(!a.same_type_meaning(Type::Bool, &b, pb));
    let ea = a.alloc_type(Type::Float(Float::F32));
    let eb = b.alloc_type(Type::Float(Float::F32));
    assert!(a.same_type_tree(ea, &b, eb));
    assert!(a.same_type_meaning(
        Type::PlatformArray { elem: ea, dims: 2 },
        &b,
        Type::PlatformArray { elem: eb, dims: 2 }
    ));
    assert!(!a.same_type_meaning(
        Type::PlatformArray { elem: ea, dims: 2 },
        &b,
        Type::PlatformArray { elem: eb, dims: 3 }
    ));
    assert!(a.same_types_meaning(&vec![pa, Type::Bool], &b, &vec![pb, Type::Bool]));
    assert!(!a.same_types_meaning(&vec![pa, Type::Bool], &b, &vec![Type::Bool, pb]));
    assert!(!a.same_types_meaning(&vec![pa], &b, &vec![pb, Type::Bool]));
    assert!(a.same_types_meaning(&vec![], &b, &vec![]));
}

#[test]
fn classes_and_signatures_compare_by_what_they_mean() {
    let mut a = Assembly::new();
    let mut b = Assembly::new();
    b.alloc_string("pad");
    let pa = a.nptr(Type::Bool);
    let la = list_of(&mut a, Some("Lib"), pa);
    let pb = b.nptr(Type::Bool);
    let lb = list_of(&mut b, Some("Lib"), pb);
    let other_module = list_of(&mut b, Some("Other"), pb);
    let no_module = list_of(&mut b, None, pb);
    let other_elem = list_of(&mut b, Some("Lib"), Type::Bool);
    assert!(a.same_class_tree(la, &b, lb));
    assert!(!a.same_class_tree(la, &b, other_module));
    assert!(!a.same_class_tree(la, &b, no_module));
    assert!(!a.same_class_tree(la, &b, other_elem));
    assert!(a.same_class_tree(ClassRefIdx(0), &b, ClassRefIdx(0)));
    assert!(!a.same_class_tree(ClassRefIdx(0), &b, lb));
    assert!(a.same_type_meaning(Type::ClassRef(la), &b, Type::ClassRef(lb)));
    let sa = a.alloc_sig(FnSig::new(vec![Type::ClassRef(la), pa], Type::Void));
    let sb = b.alloc_sig(FnSig::new(vec![Type::ClassRef(lb), pb], Type::Void));
    let tb = b.alloc_sig(FnSig::new(vec![Type::ClassRef(lb), pb], Type::Bool));
    let ub = b.alloc_sig(FnSig::new(vec![pb, Type::ClassRef(lb)], Type::Void));
    assert!(a.same_sig_tree(sa, &b, sb));
    assert!(!a.same_sig_tree(sa, &b, tb));
    assert!(!a.same_sig_tree(sa, &b, ub));
    assert!(a.same_type_meaning(Type::FnPtr(sa), &b, Type::FnPtr(sb)));
    assert!(!a.same_type_meaning(Type::FnPtr(sa), &b, Type::FnPtr(tb)));
}

#[test]
fn the_defined_class_of_a_foreign_class_is_found_by_meaning() {
    let mut source = Assembly::new();
    let name = source.alloc_string("Widget");
    let cref = source.alloc_class_ref(ClassRef::new(name, None, true, vec![]));
    let mut dest = Assembly::new();
    dest.alloc_string("pad");
    assert_eq!(dest.defined_class_of(&source, cref), None);
    let dname = dest.alloc_string("Widget");
    // A reference alone is no definition.
    let dref = dest.alloc_class_ref(ClassRef::new(dname, None, true, vec![]));
    assert_eq!(dest.defined_class_of(&source, cref), None);
    // A class of the same name but another kind is another class.
    dest.class_def(ClassDef::new(
        dname,
        false,
        0,
        None,
        vec![],
        vec![],
        vec![],
        Access::Public,
        None,
    ));
    assert_eq!(dest.defined_class_of(&source, cref), None);
    let d = dest.class_def(ClassDef::new(
        dname,
        true,
        0,
        None,
        vec![],
        vec![],
        vec![],
        Access::Public,
        None,
    ));
    assert_eq!(d.as_class_ref(), dref);
    assert_eq!(dest.defined_class_of(&source, cref), Some(d));
    assert_eq!(dest.defined_class_of(&source, ClassRefIdx(0)), Some(dest.main_module()));
}
