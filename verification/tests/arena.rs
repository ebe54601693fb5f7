use cilly::arena::Arena;
use cilly::class_ref::ClassRef;
use cilly::handles::StringIdx;
use cilly::tpe::{Int, Type};

#[test]
fn insert_twice_returns_the_same_handle() {
    let mut arena: Arena<Type> = Arena::new();
    let a = arena.insert(Type::Int(Int::I32));
    let b = arena.insert(Type::Bool);
    let c = arena.insert(Type::Int(Int::I32));
    assert_eq!(a, 0);
    assert_eq!(b, 1);
    assert_eq!(c, a);
    assert_eq!(arena.len(), 2);
}

#[test]
fn get_returns_what_was_inserted() {
    let mut arena: Arena<String> = Arena::new();
    let h = arena.insert(String::from("hello"));
    let k = arena.insert(String::from("world"));
    assert_eq!(arena.get(h), "hello");
    assert_eq!(arena.get(k), "world");
    assert_eq!(arena.insert(String::from("hello")), h);
    assert_eq!(arena.get(h), "hello");
}

#[test]
fn handles_are_stable_while_the_arena_grows() {
    let mut arena: Arena<Type> = Arena::new();
    let first = arena.insert(Type::Void);
    for n in 0..100u32 {
        arena.insert(Type::PlatformGeneric(n, cilly::tpe::GenericKind::TypeGeneric));
    }
    assert_eq!(first, 0);
    assert_eq!(*arena.get(first), Type::Void);
    assert_eq!(arena.insert(Type::Void), first);
    assert_eq!(arena.len(), 101);
}

#[test]
fn equality_is_structural_for_values_with_lists() {
    let mut arena: Arena<ClassRef> = Arena::new();
    let a = arena.insert(ClassRef::new(StringIdx(0), None, false, vec![Type::Bool, Type::Void]));
    let b = arena.insert(ClassRef::new(StringIdx(0), None, false, vec![Type::Bool, Type::Void]));
    let c = arena.insert(ClassRef::new(StringIdx(0), None, false, vec![Type::Void, Type::Bool]));
    let d = arena.insert(ClassRef::new(StringIdx(0), None, true, vec![Type::Bool, Type::Void]));
    assert_eq!(a, b);
    assert_ne!(a, c);
    assert_ne!(a, d);
    assert_ne!(c, d);
    assert_eq!(arena.len(), 3);
}

#[test]
fn find_tells_held_values_from_others() {
    let mut arena: Arena<Type> = Arena::new();
    assert_eq!(arena.find(&Type::Bool), None);
    let h = arena.insert(Type::Bool);
    assert_eq!(arena.find(&Type::Bool), Some(h));
    assert_eq!(arena.find(&Type::Void), None);
}

#[test]
fn values_with_one_digest_are_told_apart() {
    // Integer types share a digest, and so do the two pointer types below
    // with their targets swapped between arenas.
    let mut arena: Arena<Type> = Arena::new();
    let kinds = [
        Int::U8,
        Int::U16,
        Int::U32,
        Int::U64,
        Int::U128,
        Int::USize,
        Int::I8,
        Int::I16,
        Int::I32,
        Int::I64,
        Int::I128,
        Int::ISize,
    ];
    for (position, kind) in kinds.iter().enumerate() {
        assert_eq!(arena.insert(Type::Int(*kind)), position);
    }
    for (position, kind) in kinds.iter().enumerate() {
        assert_eq!(arena.insert(Type::Int(*kind)), position);
        assert_eq!(arena.find(&Type::Int(*kind)), Some(position));
    }
    assert_eq!(arena.len(), 12);
}

#[test]
fn many_values_are_found_again() {
    let mut arena: Arena<String> = Arena::new();
    for n in 0..2000usize {
        assert_eq!(arena.insert(format!("name{n}")), n);
    }
    for n in (0..2000usize).rev() {
        assert_eq!(arena.insert(format!("name{n}")), n);
        assert_eq!(arena.get(n), &format!("name{n}"));
    }
    assert_eq!(arena.find(&String::from("name2000")), None);
    assert_eq!(arena.len(), 2000);
}
