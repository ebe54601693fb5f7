//! The parts of an assembly: the values of its arenas and its class
//! definitions as plain lists, outside any assembly, with the order in
//! which the values were interned. An assembly gives its parts as a
//! snapshot and is built again from them with every value under the handle
//! that it had, which is what writing an assembly out and reading it back
//! comes to.

use crate::arena::{duplicate_list, holds, lemma_distinct_alike, Interned};
use crate::assembly::Assembly;
use crate::cilnode::CILNode;
use crate::cilroot::CILRoot;
use crate::class_ref::{ClassRef, FieldDesc, MethodRef, StaticFieldDesc};
use crate::contents::{own_main, own_ref, sized, Contents};
use crate::frame::{
    lemma_class_def_fits, lemma_class_ref_fits, lemma_field_fits, lemma_method_def_fits,
    lemma_method_ref_fits, lemma_node_fits, lemma_root_fits, lemma_sig_fits, lemma_static_fits,
    lemma_type_fits,
};
use crate::handles::{
    ClassDefIdx, ClassRefIdx, FieldIdx, MethodDefIdx, MethodRefIdx, NodeIdx, RootIdx, SigIdx,
    StaticFieldIdx, StringIdx, TypeIdx,
};
use crate::journal::{count, lemma_count_take, sizes_after, Category, Sizes};
use crate::method::{Access, ClassDef, MethodDef};
use crate::stability::lemma_method_def_congruent;
use crate::tpe::{FnSig, Type};
use vstd::prelude::*;

verus! {

/// The values of the arenas of an assembly, each list in the order of the
/// handles; its class definitions, each at the position of its class
/// reference; and the order in which the values were interned, as the
/// list of the arenas that they went to.
#[derive(PartialEq, Eq, Debug)]
pub struct Parts {
    pub strings: Vec<String>,
    pub types: Vec<Type>,
    pub class_refs: Vec<ClassRef>,
    pub sigs: Vec<FnSig>,
    pub fields: Vec<FieldDesc>,
    pub statics: Vec<StaticFieldDesc>,
    pub method_refs: Vec<MethodRef>,
    pub nodes: Vec<CILNode>,
    pub roots: Vec<CILRoot>,
    pub method_defs: Vec<MethodDef>,
    pub class_defs: Vec<Option<ClassDef>>,
    pub order: Vec<Category>,
}

/// Why no assembly was built from the parts.
#[derive(Clone, Copy, PartialEq, Eq, Hash, Debug, Structural)]
pub enum RebuildError {
    /// The parts do not begin with the main module: its name, its class
    /// reference, its definition, and the two first entries of the order.
    NoMainModule,
    /// The step of the order names a list that has no further value, or
    /// names the class definitions, which have no place in the order.
    Misordered { step: usize },
    /// The value at the position refers to a handle that is not issued
    /// when the order reaches the value; or, for a class definition, to
    /// one that is never issued.
    Dangling { category: Category, position: usize },
    /// The value at the position is structurally equal to one before it in
    /// the same list.
    Repeated { category: Category, position: usize },
    /// The order ends before it reaches the value at the position.
    Unlisted { category: Category, position: usize },
    /// The class definitions are not one for each class reference; or the
    /// one at the position stands under a class reference that is not its
    /// own; or there is none at the position though a method definition
    /// names the class.
    Misdefined { position: usize },
}

/// The outcome of a step: the fault, or none.
pub open spec fn outcome(fault: Option<RebuildError>) -> Result<(), RebuildError> {
    match fault {
        Some(e) => Err(e),
        None => Ok(()),
    }
}

/// An assembly of the given sizes in which every class reference is
/// defined.
pub open spec fn full_frame(n: Sizes) -> Contents {
    sized(n, Seq::new(n.class_refs, |i: int| Some(arbitrary())), ClassRefIdx(0))
}

/// The class reference can be the own reference of a definition: it has no
/// owning module and no generic arguments.
pub open spec fn ownable(c: &ClassRef) -> bool {
    c.module is None && c.generics@.len() == 0
}

/// The value at the position of the list of the category is structurally
/// equal to one before it.
pub open spec fn repeats(p: &Parts, category: Category, position: int) -> bool {
    match category {
        Category::Strings => 0 <= position < p.strings@.len() && exists|h: int|
            0 <= h < position && (#[trigger] p.strings@[h])@ == p.strings@[position]@,
        Category::Types => 0 <= position < p.types@.len() && exists|h: int|
            0 <= h < position && (#[trigger] p.types@[h]).alike(&p.types@[position]),
        Category::ClassRefs => 0 <= position < p.class_refs@.len() && exists|h: int|
            0 <= h < position && (#[trigger] p.class_refs@[h]).alike(&p.class_refs@[position]),
        Category::Sigs => 0 <= position < p.sigs@.len() && exists|h: int|
            0 <= h < position && (#[trigger] p.sigs@[h]).alike(&p.sigs@[position]),
        Category::Fields => 0 <= position < p.fields@.len() && exists|h: int|
            0 <= h < position && (#[trigger] p.fields@[h]).alike(&p.fields@[position]),
        Category::StaticFields => 0 <= position < p.statics@.len() && exists|h: int|
            0 <= h < position && (#[trigger] p.statics@[h]).alike(&p.statics@[position]),
        Category::MethodRefs => 0 <= position < p.method_refs@.len() && exists|h: int|
            0 <= h < position && (#[trigger] p.method_refs@[h]).alike(&p.method_refs@[position]),
        Category::Nodes => 0 <= position < p.nodes@.len() && exists|h: int|
            0 <= h < position && (#[trigger] p.nodes@[h]).alike(&p.nodes@[position]),
        Category::Roots => 0 <= position < p.roots@.len() && exists|h: int|
            0 <= h < position && (#[trigger] p.roots@[h]).alike(&p.roots@[position]),
        Category::MethodDefs => 0 <= position < p.method_defs@.len() && exists|h: int|
            0 <= h < position && (#[trigger] p.method_defs@[h]).alike(&p.method_defs@[position]),
        Category::ClassDefs => false,
    }
}

/// The parts begin with the main module: its name, its class reference, a
/// definition of it, and the two first entries of the order.
pub open spec fn begins_with_main_module(p: &Parts) -> bool {
    &&& p.strings@.len() > 0
    &&& p.strings@[0]@ == "RustModule"@
    &&& p.class_refs@.len() > 0
    &&& own_main(&p.class_refs@[0])
    &&& p.class_defs@.len() > 0
    &&& p.class_defs@[0] is Some
    &&& p.order@.len() >= 2
    &&& p.order@[0] == Category::Strings
    &&& p.order@[1] == Category::ClassRefs
}

/// The class of the method definition at the position is named by a class
/// reference of the parts that can carry its definition.
pub open spec fn owner_ownable(p: &Parts, position: int) -> bool {
    let class = p.method_defs@[position].class.0.0;
    class < p.class_refs@.len() && ownable(&p.class_refs@[class as int])
}

/// What is wrong with the step `k` of the order, if anything: the next
/// value of the list that the step names is missing, or refers to a handle
/// that the steps before have not issued, or repeats a value before it. A
/// method definition needs, besides, a class reference that can carry the
/// definition of its class.
pub open spec fn step_fault(p: &Parts, k: int) -> Option<RebuildError> {
    let n = sizes_after(p.order@.take(k));
    let frame = full_frame(n);
    match p.order@[k] {
        Category::Strings => if n.strings >= p.strings@.len() {
            Some(RebuildError::Misordered { step: k as usize })
        } else if repeats(p, Category::Strings, n.strings as int) {
            Some(RebuildError::Repeated { category: Category::Strings, position: n.strings as usize })
        } else {
            None
        },
        Category::Types => if n.types >= p.types@.len() {
            Some(RebuildError::Misordered { step: k as usize })
        } else if !frame.type_ok(p.types@[n.types as int]) {
            Some(RebuildError::Dangling { category: Category::Types, position: n.types as usize })
        } else if repeats(p, Category::Types, n.types as int) {
            Some(RebuildError::Repeated { category: Category::Types, position: n.types as usize })
        } else {
            None
        },
        Category::ClassRefs => if n.class_refs >= p.class_refs@.len() {
            Some(RebuildError::Misordered { step: k as usize })
        } else if !frame.class_ref_ok(&p.class_refs@[n.class_refs as int]) {
            Some(RebuildError::Dangling { category: Category::ClassRefs, position: n.class_refs as usize })
        } else if repeats(p, Category::ClassRefs, n.class_refs as int) {
            Some(RebuildError::Repeated { category: Category::ClassRefs, position: n.class_refs as usize })
        } else {
            None
        },
        Category::Sigs => if n.sigs >= p.sigs@.len() {
            Some(RebuildError::Misordered { step: k as usize })
        } else if !frame.sig_ok(&p.sigs@[n.sigs as int]) {
            Some(RebuildError::Dangling { category: Category::Sigs, position: n.sigs as usize })
        } else if repeats(p, Category::Sigs, n.sigs as int) {
            Some(RebuildError::Repeated { category: Category::Sigs, position: n.sigs as usize })
        } else {
            None
        },
        Category::Fields => if n.fields >= p.fields@.len() {
            Some(RebuildError::Misordered { step: k as usize })
        } else if !frame.field_ok(&p.fields@[n.fields as int]) {
            Some(RebuildError::Dangling { category: Category::Fields, position: n.fields as usize })
        } else if repeats(p, Category::Fields, n.fields as int) {
            Some(RebuildError::Repeated { category: Category::Fields, position: n.fields as usize })
        } else {
            None
        },
        Category::StaticFields => if n.statics >= p.statics@.len() {
            Some(RebuildError::Misordered { step: k as usize })
        } else if !frame.static_ok(&p.statics@[n.statics as int]) {
            Some(RebuildError::Dangling { category: Category::StaticFields, position: n.statics as usize })
        } else if repeats(p, Category::StaticFields, n.statics as int) {
            Some(RebuildError::Repeated { category: Category::StaticFields, position: n.statics as usize })
        } else {
            None
        },
        Category::MethodRefs => if n.method_refs >= p.method_refs@.len() {
            Some(RebuildError::Misordered { step: k as usize })
        } else if !frame.method_ref_ok(&p.method_refs@[n.method_refs as int]) {
            Some(RebuildError::Dangling { category: Category::MethodRefs, position: n.method_refs as usize })
        } else if repeats(p, Category::MethodRefs, n.method_refs as int) {
            Some(RebuildError::Repeated { category: Category::MethodRefs, position: n.method_refs as usize })
        } else {
            None
        },
        Category::Nodes => if n.nodes >= p.nodes@.len() {
            Some(RebuildError::Misordered { step: k as usize })
        } else if !frame.node_ok(&p.nodes@[n.nodes as int]) {
            Some(RebuildError::Dangling { category: Category::Nodes, position: n.nodes as usize })
        } else if repeats(p, Category::Nodes, n.nodes as int) {
            Some(RebuildError::Repeated { category: Category::Nodes, position: n.nodes as usize })
        } else {
            None
        },
        Category::Roots => if n.roots >= p.roots@.len() {
            Some(RebuildError::Misordered { step: k as usize })
        } else if !frame.root_ok(&p.roots@[n.roots as int]) {
            Some(RebuildError::Dangling { category: Category::Roots, position: n.roots as usize })
        } else if repeats(p, Category::Roots, n.roots as int) {
            Some(RebuildError::Repeated { category: Category::Roots, position: n.roots as usize })
        } else {
            None
        },
        Category::MethodDefs => if n.method_defs >= p.method_defs@.len() {
            Some(RebuildError::Misordered { step: k as usize })
        } else if !frame.method_def_ok(&p.method_defs@[n.method_defs as int]) || !owner_ownable(
            p,
            n.method_defs as int,
        ) {
            Some(RebuildError::Dangling { category: Category::MethodDefs, position: n.method_defs as usize })
        } else if repeats(p, Category::MethodDefs, n.method_defs as int) {
            Some(RebuildError::Repeated { category: Category::MethodDefs, position: n.method_defs as usize })
        } else {
            None
        },
        Category::ClassDefs => Some(RebuildError::Misordered { step: k as usize }),
    }
}

/// The first fault of the steps from `k` on.
pub open spec fn step_faults(p: &Parts, k: int) -> Option<RebuildError>
    decreases p.order@.len() - k,
{
    if k < 0 || k >= p.order@.len() {
        None
    } else {
        match step_fault(p, k) {
            Some(e) => Some(e),
            None => step_faults(p, k + 1),
        }
    }
}

/// The order lists fewer values of the category than the parts hold.
pub open spec fn short(p: &Parts, c: Category) -> bool {
    count(p.order@, c) < p.sizes().of(c)
}

/// The fault of the first value of the category that the order does not
/// reach.
pub open spec fn left(p: &Parts, c: Category) -> RebuildError {
    RebuildError::Unlisted { category: c, position: count(p.order@, c) as usize }
}

/// The first value, list by list, that the order does not reach.
pub open spec fn unlisted(p: &Parts) -> Option<RebuildError> {
    if short(p, Category::Strings) {
        Some(left(p, Category::Strings))
    } else     if short(p, Category::Types) {
        Some(left(p, Category::Types))
    } else     if short(p, Category::ClassRefs) {
        Some(left(p, Category::ClassRefs))
    } else     if short(p, Category::Sigs) {
        Some(left(p, Category::Sigs))
    } else     if short(p, Category::Fields) {
        Some(left(p, Category::Fields))
    } else     if short(p, Category::StaticFields) {
        Some(left(p, Category::StaticFields))
    } else     if short(p, Category::MethodRefs) {
        Some(left(p, Category::MethodRefs))
    } else     if short(p, Category::Nodes) {
        Some(left(p, Category::Nodes))
    } else     if short(p, Category::Roots) {
        Some(left(p, Category::Roots))
    } else     if short(p, Category::MethodDefs) {
        Some(left(p, Category::MethodDefs))
    } else {
        None
    }
}

/// Some of the first `m` method definitions names the class at position
/// `i`, or the class is the main module: the class is defined when those
/// method definitions are held.
pub open spec fn stubbed_by(p: &Parts, m: int, i: int) -> bool {
    i == 0 || exists|j: int|
        0 <= j < m && j < p.method_defs@.len() && (#[trigger] p.method_defs@[j]).class.0.0 == i
}

impl Parts {
    /// How many values each list holds.
    pub open spec fn sizes(&self) -> Sizes {
        Sizes {
            strings: self.strings@.len(),
            types: self.types@.len(),
            class_refs: self.class_refs@.len(),
            sigs: self.sigs@.len(),
            fields: self.fields@.len(),
            statics: self.statics@.len(),
            method_refs: self.method_refs@.len(),
            nodes: self.nodes@.len(),
            roots: self.roots@.len(),
            method_defs: self.method_defs@.len(),
        }
    }
}

/// What is wrong with the class definition at position `i`, or with its
/// absence, if anything.
pub open spec fn def_fault(p: &Parts, i: int) -> Option<RebuildError> {
    match p.class_defs@[i] {
        Some(d) => if !full_frame(p.sizes()).class_def_ok(&d) {
            Some(RebuildError::Dangling { category: Category::ClassDefs, position: i as usize })
        } else if !own_ref(&p.class_refs@[i], &d) {
            Some(RebuildError::Misdefined { position: i as usize })
        } else {
            None
        },
        None => if stubbed_by(p, p.method_defs@.len() as int, i) {
            Some(RebuildError::Misdefined { position: i as usize })
        } else {
            None
        },
    }
}

/// The first fault of the class definitions from position `i` on.
pub open spec fn def_faults(p: &Parts, i: int) -> Option<RebuildError>
    decreases p.class_defs@.len() - i,
{
    if i < 0 || i >= p.class_defs@.len() {
        None
    } else {
        match def_fault(p, i) {
            Some(e) => Some(e),
            None => def_faults(p, i + 1),
        }
    }
}

/// The first fault of the parts, in the order in which an assembly is
/// built from them: the main module, then the values step by step as the
/// order names them, then the values that the order does not reach, then
/// the class definitions position by position. Parts without a fault are
/// the parts of an assembly.
pub open spec fn first_fault(p: &Parts) -> Option<RebuildError> {
    if !begins_with_main_module(p) {
        Some(RebuildError::NoMainModule)
    } else if p.class_defs@.len() != p.class_refs@.len() {
        Some(RebuildError::Misdefined { position: p.class_defs@.len() as usize })
    } else if step_faults(p, 2) is Some {
        step_faults(p, 2)
    } else if unlisted(p) is Some {
        unlisted(p)
    } else {
        def_faults(p, 0)
    }
}

impl Contents {
    /// The assembly holds the first values of each list of `p`, under the
    /// handles of their positions.
    pub open spec fn begins(&self, p: &Parts) -> bool {
        &&& self.strings.len() <= p.strings@.len()
        &&& forall|i: int| 0 <= i < self.strings.len()
            ==> (#[trigger] self.strings[i])@ == p.strings@[i]@
        &&& self.types.len() <= p.types@.len()
        &&& forall|i: int| 0 <= i < self.types.len()
            ==> (#[trigger] self.types[i]).alike(&p.types@[i])
        &&& self.class_refs.len() <= p.class_refs@.len()
        &&& forall|i: int| 0 <= i < self.class_refs.len()
            ==> (#[trigger] self.class_refs[i]).alike(&p.class_refs@[i])
        &&& self.sigs.len() <= p.sigs@.len()
        &&& forall|i: int| 0 <= i < self.sigs.len() ==> (#[trigger] self.sigs[i]).alike(&p.sigs@[i])
        &&& self.fields.len() <= p.fields@.len()
        &&& forall|i: int| 0 <= i < self.fields.len()
            ==> (#[trigger] self.fields[i]).alike(&p.fields@[i])
        &&& self.statics.len() <= p.statics@.len()
        &&& forall|i: int| 0 <= i < self.statics.len()
            ==> (#[trigger] self.statics[i]).alike(&p.statics@[i])
        &&& self.method_refs.len() <= p.method_refs@.len()
        &&& forall|i: int| 0 <= i < self.method_refs.len()
            ==> (#[trigger] self.method_refs[i]).alike(&p.method_refs@[i])
        &&& self.nodes.len() <= p.nodes@.len()
        &&& forall|i: int| 0 <= i < self.nodes.len()
            ==> (#[trigger] self.nodes[i]).alike(&p.nodes@[i])
        &&& self.roots.len() <= p.roots@.len()
        &&& forall|i: int| 0 <= i < self.roots.len()
            ==> (#[trigger] self.roots[i]).alike(&p.roots@[i])
        &&& self.method_defs.len() <= p.method_defs@.len()
        &&& forall|i: int| 0 <= i < self.method_defs.len()
            ==> (#[trigger] self.method_defs[i]).alike(&p.method_defs@[i])
    }

    /// The class definition at position `i` of `p`, or its absence, is what
    /// the assembly holds for the class reference at that position.
    pub open spec fn defines_as(&self, p: &Parts, i: int) -> bool {
        match p.class_defs@[i] {
            Some(d) => self.has_class_def(ClassDefIdx(ClassRefIdx(i as usize)))
                && self.class_def_of(ClassDefIdx(ClassRefIdx(i as usize))).alike(&d),
            None => !self.has_class_def(ClassDefIdx(ClassRefIdx(i as usize))),
        }
    }

    /// The assembly holds exactly the values of `p`, each under the handle
    /// of its position, defines exactly the classes that `p` defines, each
    /// as `p` defines it, and interned its values in the order of `p`.
    pub open spec fn matches(&self, p: &Parts) -> bool {
        &&& self.begins(p)
        &&& self.sizes() == p.sizes()
        &&& p.class_defs@.len() == p.class_refs@.len()
        &&& forall|i: int| 0 <= i < p.class_defs@.len() ==> #[trigger] self.defines_as(p, i)
        &&& self.journal == p.order@
    }

    /// The assembly is what the first `k` steps of the order of `p` build:
    /// it holds the values that they name, and defines the main module and
    /// the classes of the method definitions that it holds.
    pub open spec fn replayed(&self, p: &Parts, k: int) -> bool {
        &&& 2 <= k <= p.order@.len()
        &&& begins_with_main_module(p)
        &&& p.class_defs@.len() == p.class_refs@.len()
        &&& self.begins(p)
        &&& self.journal == p.order@.take(k)
        &&& forall|i: int|
            0 <= i < self.class_refs.len() ==> (self.defined_at(i) <==> #[trigger] stubbed_by(
                p,
                self.method_defs.len() as int,
                i,
            ))
    }

    /// The assembly defines the class at the position.
    pub open spec fn defined_at(&self, i: int) -> bool {
        0 <= i < self.class_defs.len() && self.class_defs[i] is Some
    }
}

/// Structurally equal values are owned by the same assemblies.
pub proof fn lemma_types_ok_alike(c: &Contents, a: Type, b: Type)
    requires
        a.alike(&b),
    ensures
        c.type_ok(a) == c.type_ok(b),
{
}

/// The next value of the list repeats an earlier one exactly when the
/// assembly that holds the values before it holds a value equal to it.
pub proof fn lemma_repeats_types(c: &Contents, p: &Parts, v: Type)
    requires
        c.begins(p),
        c.types.len() < p.types@.len(),
        v.alike(&p.types@[c.types.len() as int]),
    ensures
        repeats(p, Category::Types, c.types.len() as int) == holds(c.types, &v),
{
    let i = c.types.len() as int;
    let z = p.types@[i];
    if repeats(p, Category::Types, i) {
        let h = choose|h: int| 0 <= h < i && (#[trigger] p.types@[h]).alike(&p.types@[i]);
        Type::alike_is_equivalence(&c.types[h], &p.types@[h], &z);
        Type::alike_is_equivalence(&v, &z, &z);
        Type::alike_is_equivalence(&c.types[h], &z, &v);
        assert(c.types[h].alike(&v));
    }
    if holds(c.types, &v) {
        let h = choose|h: int| 0 <= h < c.types.len() && (#[trigger] c.types[h]).alike(&v);
        Type::alike_is_equivalence(&c.types[h], &p.types@[h], &p.types@[h]);
        Type::alike_is_equivalence(&p.types@[h], &c.types[h], &v);
        Type::alike_is_equivalence(&p.types@[h], &v, &z);
        assert(p.types@[h].alike(&z));
    }
}

/// Structurally equal values are owned by the same assemblies.
pub proof fn lemma_class_refs_ok_alike(c: &Contents, a: &ClassRef, b: &ClassRef)
    requires
        a.alike(b),
    ensures
        c.class_ref_ok(a) == c.class_ref_ok(b),
{
}

/// The next value of the list repeats an earlier one exactly when the
/// assembly that holds the values before it holds a value equal to it.
pub proof fn lemma_repeats_class_refs(c: &Contents, p: &Parts, v: &ClassRef)
    requires
        c.begins(p),
        c.class_refs.len() < p.class_refs@.len(),
        v.alike(&p.class_refs@[c.class_refs.len() as int]),
    ensures
        repeats(p, Category::ClassRefs, c.class_refs.len() as int) == holds(c.class_refs, v),
{
    let i = c.class_refs.len() as int;
    let z = p.class_refs@[i];
    if repeats(p, Category::ClassRefs, i) {
        let h = choose|h: int| 0 <= h < i && (#[trigger] p.class_refs@[h]).alike(&p.class_refs@[i]);
        ClassRef::alike_is_equivalence(&c.class_refs[h], &p.class_refs@[h], &z);
        ClassRef::alike_is_equivalence(v, &z, &z);
        ClassRef::alike_is_equivalence(&c.class_refs[h], &z, v);
        assert(c.class_refs[h].alike(v));
    }
    if holds(c.class_refs, v) {
        let h = choose|h: int| 0 <= h < c.class_refs.len() && (#[trigger] c.class_refs[h]).alike(v);
        ClassRef::alike_is_equivalence(&c.class_refs[h], &p.class_refs@[h], &p.class_refs@[h]);
        ClassRef::alike_is_equivalence(&p.class_refs@[h], &c.class_refs[h], v);
        ClassRef::alike_is_equivalence(&p.class_refs@[h], v, &z);
        assert(p.class_refs@[h].alike(&z));
    }
}

/// Structurally equal values are owned by the same assemblies.
pub proof fn lemma_sigs_ok_alike(c: &Contents, a: &FnSig, b: &FnSig)
    requires
        a.alike(b),
    ensures
        c.sig_ok(a) == c.sig_ok(b),
{
}

/// The next value of the list repeats an earlier one exactly when the
/// assembly that holds the values before it holds a value equal to it.
pub proof fn lemma_repeats_sigs(c: &Contents, p: &Parts, v: &FnSig)
    requires
        c.begins(p),
        c.sigs.len() < p.sigs@.len(),
        v.alike(&p.sigs@[c.sigs.len() as int]),
    ensures
        repeats(p, Category::Sigs, c.sigs.len() as int) == holds(c.sigs, v),
{
    let i = c.sigs.len() as int;
    let z = p.sigs@[i];
    if repeats(p, Category::Sigs, i) {
        let h = choose|h: int| 0 <= h < i && (#[trigger] p.sigs@[h]).alike(&p.sigs@[i]);
        FnSig::alike_is_equivalence(&c.sigs[h], &p.sigs@[h], &z);
        FnSig::alike_is_equivalence(v, &z, &z);
        FnSig::alike_is_equivalence(&c.sigs[h], &z, v);
        assert(c.sigs[h].alike(v));
    }
    if holds(c.sigs, v) {
        let h = choose|h: int| 0 <= h < c.sigs.len() && (#[trigger] c.sigs[h]).alike(v);
        FnSig::alike_is_equivalence(&c.sigs[h], &p.sigs@[h], &p.sigs@[h]);
        FnSig::alike_is_equivalence(&p.sigs@[h], &c.sigs[h], v);
        FnSig::alike_is_equivalence(&p.sigs@[h], v, &z);
        assert(p.sigs@[h].alike(&z));
    }
}

/// Structurally equal values are owned by the same assemblies.
pub proof fn lemma_fields_ok_alike(c: &Contents, a: &FieldDesc, b: &FieldDesc)
    requires
        a.alike(b),
    ensures
        c.field_ok(a) == c.field_ok(b),
{
}

/// The next value of the list repeats an earlier one exactly when the
/// assembly that holds the values before it holds a value equal to it.
pub proof fn lemma_repeats_fields(c: &Contents, p: &Parts, v: &FieldDesc)
    requires
        c.begins(p),
        c.fields.len() < p.fields@.len(),
        v.alike(&p.fields@[c.fields.len() as int]),
    ensures
        repeats(p, Category::Fields, c.fields.len() as int) == holds(c.fields, v),
{
    let i = c.fields.len() as int;
    let z = p.fields@[i];
    if repeats(p, Category::Fields, i) {
        let h = choose|h: int| 0 <= h < i && (#[trigger] p.fields@[h]).alike(&p.fields@[i]);
        FieldDesc::alike_is_equivalence(&c.fields[h], &p.fields@[h], &z);
        FieldDesc::alike_is_equivalence(v, &z, &z);
        FieldDesc::alike_is_equivalence(&c.fields[h], &z, v);
        assert(c.fields[h].alike(v));
    }
    if holds(c.fields, v) {
        let h = choose|h: int| 0 <= h < c.fields.len() && (#[trigger] c.fields[h]).alike(v);
        FieldDesc::alike_is_equivalence(&c.fields[h], &p.fields@[h], &p.fields@[h]);
        FieldDesc::alike_is_equivalence(&p.fields@[h], &c.fields[h], v);
        FieldDesc::alike_is_equivalence(&p.fields@[h], v, &z);
        assert(p.fields@[h].alike(&z));
    }
}

/// Structurally equal values are owned by the same assemblies.
pub proof fn lemma_statics_ok_alike(c: &Contents, a: &StaticFieldDesc, b: &StaticFieldDesc)
    requires
        a.alike(b),
    ensures
        c.static_ok(a) == c.static_ok(b),
{
}

/// The next value of the list repeats an earlier one exactly when the
/// assembly that holds the values before it holds a value equal to it.
pub proof fn lemma_repeats_statics(c: &Contents, p: &Parts, v: &StaticFieldDesc)
    requires
        c.begins(p),
        c.statics.len() < p.statics@.len(),
        v.alike(&p.statics@[c.statics.len() as int]),
    ensures
        repeats(p, Category::StaticFields, c.statics.len() as int) == holds(c.statics, v),
{
    let i = c.statics.len() as int;
    let z = p.statics@[i];
    if repeats(p, Category::StaticFields, i) {
        let h = choose|h: int| 0 <= h < i && (#[trigger] p.statics@[h]).alike(&p.statics@[i]);
        StaticFieldDesc::alike_is_equivalence(&c.statics[h], &p.statics@[h], &z);
        StaticFieldDesc::alike_is_equivalence(v, &z, &z);
        StaticFieldDesc::alike_is_equivalence(&c.statics[h], &z, v);
        assert(c.statics[h].alike(v));
    }
    if holds(c.statics, v) {
        let h = choose|h: int| 0 <= h < c.statics.len() && (#[trigger] c.statics[h]).alike(v);
        StaticFieldDesc::alike_is_equivalence(&c.statics[h], &p.statics@[h], &p.statics@[h]);
        StaticFieldDesc::alike_is_equivalence(&p.statics@[h], &c.statics[h], v);
        StaticFieldDesc::alike_is_equivalence(&p.statics@[h], v, &z);
        assert(p.statics@[h].alike(&z));
    }
}

/// Structurally equal values are owned by the same assemblies.
pub proof fn lemma_method_refs_ok_alike(c: &Contents, a: &MethodRef, b: &MethodRef)
    requires
        a.alike(b),
    ensures
        c.method_ref_ok(a) == c.method_ref_ok(b),
{
}

/// The next value of the list repeats an earlier one exactly when the
/// assembly that holds the values before it holds a value equal to it.
pub proof fn lemma_repeats_method_refs(c: &Contents, p: &Parts, v: &MethodRef)
    requires
        c.begins(p),
        c.method_refs.len() < p.method_refs@.len(),
        v.alike(&p.method_refs@[c.method_refs.len() as int]),
    ensures
        repeats(p, Category::MethodRefs, c.method_refs.len() as int) == holds(c.method_refs, v),
{
    let i = c.method_refs.len() as int;
    let z = p.method_refs@[i];
    if repeats(p, Category::MethodRefs, i) {
        let h = choose|h: int| 0 <= h < i && (#[trigger] p.method_refs@[h]).alike(&p.method_refs@[i]);
        MethodRef::alike_is_equivalence(&c.method_refs[h], &p.method_refs@[h], &z);
        MethodRef::alike_is_equivalence(v, &z, &z);
        MethodRef::alike_is_equivalence(&c.method_refs[h], &z, v);
        assert(c.method_refs[h].alike(v));
    }
    if holds(c.method_refs, v) {
        let h = choose|h: int| 0 <= h < c.method_refs.len() && (#[trigger] c.method_refs[h]).alike(v);
        MethodRef::alike_is_equivalence(&c.method_refs[h], &p.method_refs@[h], &p.method_refs@[h]);
        MethodRef::alike_is_equivalence(&p.method_refs@[h], &c.method_refs[h], v);
        MethodRef::alike_is_equivalence(&p.method_refs@[h], v, &z);
        assert(p.method_refs@[h].alike(&z));
    }
}

/// Structurally equal values are owned by the same assemblies.
pub proof fn lemma_nodes_ok_alike(c: &Contents, a: &CILNode, b: &CILNode)
    requires
        a.alike(b),
    ensures
        c.node_ok(a) == c.node_ok(b),
{
}

/// The next value of the list repeats an earlier one exactly when the
/// assembly that holds the values before it holds a value equal to it.
pub proof fn lemma_repeats_nodes(c: &Contents, p: &Parts, v: &CILNode)
    requires
        c.begins(p),
        c.nodes.len() < p.nodes@.len(),
        v.alike(&p.nodes@[c.nodes.len() as int]),
    ensures
        repeats(p, Category::Nodes, c.nodes.len() as int) == holds(c.nodes, v),
{
    let i = c.nodes.len() as int;
    let z = p.nodes@[i];
    if repeats(p, Category::Nodes, i) {
        let h = choose|h: int| 0 <= h < i && (#[trigger] p.nodes@[h]).alike(&p.nodes@[i]);
        CILNode::alike_is_equivalence(&c.nodes[h], &p.nodes@[h], &z);
        CILNode::alike_is_equivalence(v, &z, &z);
        CILNode::alike_is_equivalence(&c.nodes[h], &z, v);
        assert(c.nodes[h].alike(v));
    }
    if holds(c.nodes, v) {
        let h = choose|h: int| 0 <= h < c.nodes.len() && (#[trigger] c.nodes[h]).alike(v);
        CILNode::alike_is_equivalence(&c.nodes[h], &p.nodes@[h], &p.nodes@[h]);
        CILNode::alike_is_equivalence(&p.nodes@[h], &c.nodes[h], v);
        CILNode::alike_is_equivalence(&p.nodes@[h], v, &z);
        assert(p.nodes@[h].alike(&z));
    }
}

/// Structurally equal values are owned by the same assemblies.
pub proof fn lemma_roots_ok_alike(c: &Contents, a: &CILRoot, b: &CILRoot)
    requires
        a.alike(b),
    ensures
        c.root_ok(a) == c.root_ok(b),
{
}

/// The next value of the list repeats an earlier one exactly when the
/// assembly that holds the values before it holds a value equal to it.
pub proof fn lemma_repeats_roots(c: &Contents, p: &Parts, v: &CILRoot)
    requires
        c.begins(p),
        c.roots.len() < p.roots@.len(),
        v.alike(&p.roots@[c.roots.len() as int]),
    ensures
        repeats(p, Category::Roots, c.roots.len() as int) == holds(c.roots, v),
{
    let i = c.roots.len() as int;
    let z = p.roots@[i];
    if repeats(p, Category::Roots, i) {
        let h = choose|h: int| 0 <= h < i && (#[trigger] p.roots@[h]).alike(&p.roots@[i]);
        CILRoot::alike_is_equivalence(&c.roots[h], &p.roots@[h], &z);
        CILRoot::alike_is_equivalence(v, &z, &z);
        CILRoot::alike_is_equivalence(&c.roots[h], &z, v);
        assert(c.roots[h].alike(v));
    }
    if holds(c.roots, v) {
        let h = choose|h: int| 0 <= h < c.roots.len() && (#[trigger] c.roots[h]).alike(v);
        CILRoot::alike_is_equivalence(&c.roots[h], &p.roots@[h], &p.roots@[h]);
        CILRoot::alike_is_equivalence(&p.roots@[h], &c.roots[h], v);
        CILRoot::alike_is_equivalence(&p.roots@[h], v, &z);
        assert(p.roots@[h].alike(&z));
    }
}

/// Structurally equal values are owned by the same assemblies.
pub proof fn lemma_method_defs_ok_alike(c: &Contents, a: &MethodDef, b: &MethodDef)
    requires
        a.alike(b),
    ensures
        c.method_def_ok(a) == c.method_def_ok(b),
{
    lemma_method_def_congruent(c, a, b);
}

/// The next value of the list repeats an earlier one exactly when the
/// assembly that holds the values before it holds a value equal to it.
pub proof fn lemma_repeats_method_defs(c: &Contents, p: &Parts, v: &MethodDef)
    requires
        c.begins(p),
        c.method_defs.len() < p.method_defs@.len(),
        v.alike(&p.method_defs@[c.method_defs.len() as int]),
    ensures
        repeats(p, Category::MethodDefs, c.method_defs.len() as int) == holds(c.method_defs, v),
{
    let i = c.method_defs.len() as int;
    let z = p.method_defs@[i];
    if repeats(p, Category::MethodDefs, i) {
        let h = choose|h: int| 0 <= h < i && (#[trigger] p.method_defs@[h]).alike(&p.method_defs@[i]);
        MethodDef::alike_is_equivalence(&c.method_defs[h], &p.method_defs@[h], &z);
        MethodDef::alike_is_equivalence(v, &z, &z);
        MethodDef::alike_is_equivalence(&c.method_defs[h], &z, v);
        assert(c.method_defs[h].alike(v));
    }
    if holds(c.method_defs, v) {
        let h = choose|h: int| 0 <= h < c.method_defs.len() && (#[trigger] c.method_defs[h]).alike(v);
        MethodDef::alike_is_equivalence(&c.method_defs[h], &p.method_defs@[h], &p.method_defs@[h]);
        MethodDef::alike_is_equivalence(&p.method_defs@[h], &c.method_defs[h], v);
        MethodDef::alike_is_equivalence(&p.method_defs@[h], v, &z);
        assert(p.method_defs@[h].alike(&z));
    }
}

impl ClassDef {
    /// An independent copy of the definition.
    pub fn duplicate(&self) -> (r: Self)
        ensures
            r.alike(self),
            self.alike(&r),
    {
        ClassDef {
            name: self.name,
            is_valuetype: self.is_valuetype,
            generics: self.generics,
            extends: self.extends,
            fields: duplicate_list(&self.fields),
            static_fields: duplicate_list(&self.static_fields),
            methods: duplicate_list(&self.methods),
            access: self.access,
            explict_size: self.explict_size,
        }
    }
}

impl Assembly {
    /// The parts of the assembly.
    pub fn snapshot(&self) -> (r: Parts)
        ensures
            self@.matches(&r),
    {
        let mut strings: Vec<String> = Vec::new();
        let mut i: usize = 0;
        while i < self.string_count()
            invariant
                i <= self@.strings.len(),
                strings@.len() == i,
                forall|k: int| 0 <= k < i ==> (#[trigger] self@.strings[k])@ == strings@[k]@,
            decreases self@.strings.len() - i,
        {
            strings.push(self.get_string(StringIdx(i)).clone());
            i += 1;
        }
        let mut types: Vec<Type> = Vec::new();
        let mut i: usize = 0;
        while i < self.type_count()
            invariant
                i <= self@.types.len(),
                types@.len() == i,
                forall|k: int| 0 <= k < i ==> (#[trigger] self@.types[k]).alike(&types@[k]),
            decreases self@.types.len() - i,
        {
            let v = *self.get_type(TypeIdx(i));
            proof {
                Type::alike_is_equivalence(&v, &self@.types[i as int], &v);
            }
            types.push(v);
            i += 1;
        }
        let mut class_refs: Vec<ClassRef> = Vec::new();
        let mut i: usize = 0;
        while i < self.class_ref_count()
            invariant
                i <= self@.class_refs.len(),
                class_refs@.len() == i,
                forall|k: int| 0 <= k < i
                    ==> (#[trigger] self@.class_refs[k]).alike(&class_refs@[k]),
            decreases self@.class_refs.len() - i,
        {
            let v = self.class_ref(ClassRefIdx(i)).duplicate();
            proof {
                ClassRef::alike_is_equivalence(&v, &self@.class_refs[i as int], &v);
            }
            class_refs.push(v);
            i += 1;
        }
        let mut sigs: Vec<FnSig> = Vec::new();
        let mut i: usize = 0;
        while i < self.sig_count()
            invariant
                i <= self@.sigs.len(),
                sigs@.len() == i,
                forall|k: int| 0 <= k < i ==> (#[trigger] self@.sigs[k]).alike(&sigs@[k]),
            decreases self@.sigs.len() - i,
        {
            let v = self.get_sig(SigIdx(i)).duplicate();
            proof {
                FnSig::alike_is_equivalence(&v, &self@.sigs[i as int], &v);
            }
            sigs.push(v);
            i += 1;
        }
        let mut fields: Vec<FieldDesc> = Vec::new();
        let mut i: usize = 0;
        while i < self.field_count()
            invariant
                i <= self@.fields.len(),
                fields@.len() == i,
                forall|k: int| 0 <= k < i ==> (#[trigger] self@.fields[k]).alike(&fields@[k]),
            decreases self@.fields.len() - i,
        {
            let v = *self.get_field(FieldIdx(i));
            proof {
                FieldDesc::alike_is_equivalence(&v, &self@.fields[i as int], &v);
            }
            fields.push(v);
            i += 1;
        }
        let mut statics: Vec<StaticFieldDesc> = Vec::new();
        let mut i: usize = 0;
        while i < self.static_field_count()
            invariant
                i <= self@.statics.len(),
                statics@.len() == i,
                forall|k: int| 0 <= k < i ==> (#[trigger] self@.statics[k]).alike(&statics@[k]),
            decreases self@.statics.len() - i,
        {
            let v = *self.get_static_field(StaticFieldIdx(i));
            proof {
                StaticFieldDesc::alike_is_equivalence(&v, &self@.statics[i as int], &v);
            }
            statics.push(v);
            i += 1;
        }
        let mut method_refs: Vec<MethodRef> = Vec::new();
        let mut i: usize = 0;
        while i < self.method_ref_count()
            invariant
                i <= self@.method_refs.len(),
                method_refs@.len() == i,
                forall|k: int| 0 <= k < i
                    ==> (#[trigger] self@.method_refs[k]).alike(&method_refs@[k]),
            decreases self@.method_refs.len() - i,
        {
            let v = self.get_mref(MethodRefIdx(i)).duplicate();
            proof {
                MethodRef::alike_is_equivalence(&v, &self@.method_refs[i as int], &v);
            }
            method_refs.push(v);
            i += 1;
        }
        let mut nodes: Vec<CILNode> = Vec::new();
        let mut i: usize = 0;
        while i < self.node_count()
            invariant
                i <= self@.nodes.len(),
                nodes@.len() == i,
                forall|k: int| 0 <= k < i ==> (#[trigger] self@.nodes[k]).alike(&nodes@[k]),
            decreases self@.nodes.len() - i,
        {
            let v = self.get_node(NodeIdx(i)).duplicate();
            proof {
                CILNode::alike_is_equivalence(&v, &self@.nodes[i as int], &v);
            }
            nodes.push(v);
            i += 1;
        }
        let mut roots: Vec<CILRoot> = Vec::new();
        let mut i: usize = 0;
        while i < self.root_count()
            invariant
                i <= self@.roots.len(),
                roots@.len() == i,
                forall|k: int| 0 <= k < i ==> (#[trigger] self@.roots[k]).alike(&roots@[k]),
            decreases self@.roots.len() - i,
        {
            let v = self.get_root(RootIdx(i)).duplicate();
            proof {
                CILRoot::alike_is_equivalence(&v, &self@.roots[i as int], &v);
            }
            roots.push(v);
            i += 1;
        }
        let mut method_defs: Vec<MethodDef> = Vec::new();
        let mut i: usize = 0;
        while i < self.method_def_count()
            invariant
                i <= self@.method_defs.len(),
                method_defs@.len() == i,
                forall|k: int| 0 <= k < i
                    ==> (#[trigger] self@.method_defs[k]).alike(&method_defs@[k]),
            decreases self@.method_defs.len() - i,
        {
            let v = self.method_def(MethodDefIdx(i)).duplicate();
            proof {
                MethodDef::alike_is_equivalence(&v, &self@.method_defs[i as int], &v);
            }
            method_defs.push(v);
            i += 1;
        }
        let mut class_defs: Vec<Option<ClassDef>> = Vec::new();
        let mut i: usize = 0;
        while i < self.class_ref_count()
            invariant
                i <= self@.class_refs.len(),
                class_defs@.len() == i,
                forall|k: int|
                    0 <= k < i ==> match #[trigger] class_defs@[k] {
                        Some(d) => self@.has_class_def(ClassDefIdx(ClassRefIdx(k as usize)))
                            && self@.class_def_of(ClassDefIdx(ClassRefIdx(k as usize))).alike(&d),
                        None => !self@.has_class_def(ClassDefIdx(ClassRefIdx(k as usize))),
                    },
            decreases self@.class_refs.len() - i,
        {
            let def = match self.class_ref_to_def(ClassRefIdx(i)) {
                Some(d) => Some(self.get_class_def(d).duplicate()),
                None => None,
            };
            class_defs.push(def);
            i += 1;
        }
        let order = self.journal();
        let r = Parts {
            strings,
            types,
            class_refs,
            sigs,
            fields,
            statics,
            method_refs,
            nodes,
            roots,
            method_defs,
            class_defs,
            order,
        };
        proof {
            assert forall|i: int| 0 <= i < r.class_defs@.len() implies #[trigger] self@.defines_as(
                &r,
                i,
            ) by {
                assert(match r.class_defs@[i] {
                    Some(d) => self@.has_class_def(ClassDefIdx(ClassRefIdx(i as usize)))
                        && self@.class_def_of(ClassDefIdx(ClassRefIdx(i as usize))).alike(&d),
                    None => !self@.has_class_def(ClassDefIdx(ClassRefIdx(i as usize))),
                });
            }
        }
        r
    }

    /// Whether the class reference at a position is the own reference of a
    /// class definition.
    pub fn is_own_ref(&self, position: usize, def: &ClassDef) -> (r: bool)
        requires
            position < self@.class_refs.len(),
        ensures
            r == own_ref(&self@.class_refs[position as int], def),
    {
        let c = self.class_ref(ClassRefIdx(position));
        c.name() == def.name() && c.is_valuetype() == def.is_valuetype() && c.module().is_none()
            && c.generics().len() == 0
    }

    /// Takes the step of the order that interns the next type.
    fn step_types(&mut self, parts: &Parts, k: usize) -> (r: Result<(), RebuildError>)
        requires
            old(self).wf(),
            old(self)@.replayed(parts, k as int),
            k < parts.order@.len(),
            parts.order@[k as int] == Category::Types,
        ensures
            r is Ok ==> final(self).wf() && final(self)@.replayed(parts, k + 1),
            r == outcome(step_fault(parts, k as int)),
    {
        let ghost pre = self@;
        let ghost n = sizes_after(parts.order@.take(k as int));
        let ghost frame = full_frame(n);
        let i = self.type_count();
        if i >= parts.types.len() {
            return Err(RebuildError::Misordered { step: k });
        }
        let v = parts.types[i];
        let ghost w = v;
        let ghost z = parts.types@[i as int];
        proof {
            Type::alike_is_equivalence(&w, &z, &w);
            lemma_types_ok_alike(&frame, w, z);
            if pre.type_ok(w) {
                lemma_type_fits(&pre, &frame, w);
            }
            if frame.type_ok(w) {
                lemma_type_fits(&frame, &pre, w);
            }
            lemma_repeats_types(&pre, parts, w);
        }
        if !self.owns_type(v) {
            return Err(RebuildError::Dangling { category: Category::Types, position: i });
        }
        let h = self.alloc_type(v);
        if h.0 != i {
            return Err(RebuildError::Repeated { category: Category::Types, position: i });
        }
        proof {
            assert(self@.journal =~= parts.order@.take(k + 1));
        }
        Ok(())
    }

    /// Takes the step of the order that interns the next class reference.
    fn step_class_refs(&mut self, parts: &Parts, k: usize) -> (r: Result<(), RebuildError>)
        requires
            old(self).wf(),
            old(self)@.replayed(parts, k as int),
            k < parts.order@.len(),
            parts.order@[k as int] == Category::ClassRefs,
        ensures
            r is Ok ==> final(self).wf() && final(self)@.replayed(parts, k + 1),
            r == outcome(step_fault(parts, k as int)),
    {
        let ghost pre = self@;
        let ghost n = sizes_after(parts.order@.take(k as int));
        let ghost frame = full_frame(n);
        let i = self.class_ref_count();
        if i >= parts.class_refs.len() {
            return Err(RebuildError::Misordered { step: k });
        }
        let v = parts.class_refs[i].duplicate();
        let ghost w = v;
        let ghost z = parts.class_refs@[i as int];
        proof {
            ClassRef::alike_is_equivalence(&w, &z, &w);
            lemma_class_refs_ok_alike(&frame, &w, &z);
            if pre.class_ref_ok(&w) {
                lemma_class_ref_fits(&pre, &frame, &w);
            }
            if frame.class_ref_ok(&w) {
                lemma_class_ref_fits(&frame, &pre, &w);
            }
            lemma_repeats_class_refs(&pre, parts, &w);
        }
        if !self.owns_class_ref(&v) {
            return Err(RebuildError::Dangling { category: Category::ClassRefs, position: i });
        }
        let h = self.alloc_class_ref(v);
        if h.0 != i {
            return Err(RebuildError::Repeated { category: Category::ClassRefs, position: i });
        }
        proof {
            assert(self@.journal =~= parts.order@.take(k + 1));
            assert forall|j: int| 0 <= j < pre.method_defs.len() implies (
            #[trigger] parts.method_defs@[j]).class.0.0 < pre.class_refs.len() by {
                assert(pre.method_defs[j].alike(&parts.method_defs@[j]));
                assert(pre.method_def_ok(&pre.method_defs[j]));
            }
            assert(!stubbed_by(parts, pre.method_defs.len() as int, i as int));
        }
        Ok(())
    }

    /// Takes the step of the order that interns the next signature.
    fn step_sigs(&mut self, parts: &Parts, k: usize) -> (r: Result<(), RebuildError>)
        requires
            old(self).wf(),
            old(self)@.replayed(parts, k as int),
            k < parts.order@.len(),
            parts.order@[k as int] == Category::Sigs,
        ensures
            r is Ok ==> final(self).wf() && final(self)@.replayed(parts, k + 1),
            r == outcome(step_fault(parts, k as int)),
    {
        let ghost pre = self@;
        let ghost n = sizes_after(parts.order@.take(k as int));
        let ghost frame = full_frame(n);
        let i = self.sig_count();
        if i >= parts.sigs.len() {
            return Err(RebuildError::Misordered { step: k });
        }
        let v = parts.sigs[i].duplicate();
        let ghost w = v;
        let ghost z = parts.sigs@[i as int];
        proof {
            FnSig::alike_is_equivalence(&w, &z, &w);
            lemma_sigs_ok_alike(&frame, &w, &z);
            if pre.sig_ok(&w) {
                lemma_sig_fits(&pre, &frame, &w);
            }
            if frame.sig_ok(&w) {
                lemma_sig_fits(&frame, &pre, &w);
            }
            lemma_repeats_sigs(&pre, parts, &w);
        }
        if !self.owns_sig(&v) {
            return Err(RebuildError::Dangling { category: Category::Sigs, position: i });
        }
        let h = self.alloc_sig(v);
        if h.0 != i {
            return Err(RebuildError::Repeated { category: Category::Sigs, position: i });
        }
        proof {
            assert(self@.journal =~= parts.order@.take(k + 1));
        }
        Ok(())
    }

    /// Takes the step of the order that interns the next field descriptor.
    fn step_fields(&mut self, parts: &Parts, k: usize) -> (r: Result<(), RebuildError>)
        requires
            old(self).wf(),
            old(self)@.replayed(parts, k as int),
            k < parts.order@.len(),
            parts.order@[k as int] == Category::Fields,
        ensures
            r is Ok ==> final(self).wf() && final(self)@.replayed(parts, k + 1),
            r == outcome(step_fault(parts, k as int)),
    {
        let ghost pre = self@;
        let ghost n = sizes_after(parts.order@.take(k as int));
        let ghost frame = full_frame(n);
        let i = self.field_count();
        if i >= parts.fields.len() {
            return Err(RebuildError::Misordered { step: k });
        }
        let v = parts.fields[i];
        let ghost w = v;
        let ghost z = parts.fields@[i as int];
        proof {
            FieldDesc::alike_is_equivalence(&w, &z, &w);
            lemma_fields_ok_alike(&frame, &w, &z);
            if pre.field_ok(&w) {
                lemma_field_fits(&pre, &frame, &w);
            }
            if frame.field_ok(&w) {
                lemma_field_fits(&frame, &pre, &w);
            }
            lemma_repeats_fields(&pre, parts, &w);
        }
        if !self.owns_field(&v) {
            return Err(RebuildError::Dangling { category: Category::Fields, position: i });
        }
        let h = self.alloc_field(v);
        if h.0 != i {
            return Err(RebuildError::Repeated { category: Category::Fields, position: i });
        }
        proof {
            assert(self@.journal =~= parts.order@.take(k + 1));
        }
        Ok(())
    }

    /// Takes the step of the order that interns the next static-field descriptor.
    fn step_statics(&mut self, parts: &Parts, k: usize) -> (r: Result<(), RebuildError>)
        requires
            old(self).wf(),
            old(self)@.replayed(parts, k as int),
            k < parts.order@.len(),
            parts.order@[k as int] == Category::StaticFields,
        ensures
            r is Ok ==> final(self).wf() && final(self)@.replayed(parts, k + 1),
            r == outcome(step_fault(parts, k as int)),
    {
        let ghost pre = self@;
        let ghost n = sizes_after(parts.order@.take(k as int));
        let ghost frame = full_frame(n);
        let i = self.static_field_count();
        if i >= parts.statics.len() {
            return Err(RebuildError::Misordered { step: k });
        }
        let v = parts.statics[i];
        let ghost w = v;
        let ghost z = parts.statics@[i as int];
        proof {
            StaticFieldDesc::alike_is_equivalence(&w, &z, &w);
            lemma_statics_ok_alike(&frame, &w, &z);
            if pre.static_ok(&w) {
                lemma_static_fits(&pre, &frame, &w);
            }
            if frame.static_ok(&w) {
                lemma_static_fits(&frame, &pre, &w);
            }
            lemma_repeats_statics(&pre, parts, &w);
        }
        if !self.owns_static_field(&v) {
            return Err(RebuildError::Dangling { category: Category::StaticFields, position: i });
        }
        let h = self.alloc_sfld(v);
        if h.0 != i {
            return Err(RebuildError::Repeated { category: Category::StaticFields, position: i });
        }
        proof {
            assert(self@.journal =~= parts.order@.take(k + 1));
        }
        Ok(())
    }

    /// Takes the step of the order that interns the next method reference.
    fn step_method_refs(&mut self, parts: &Parts, k: usize) -> (r: Result<(), RebuildError>)
        requires
            old(self).wf(),
            old(self)@.replayed(parts, k as int),
            k < parts.order@.len(),
            parts.order@[k as int] == Category::MethodRefs,
        ensures
            r is Ok ==> final(self).wf() && final(self)@.replayed(parts, k + 1),
            r == outcome(step_fault(parts, k as int)),
    {
        let ghost pre = self@;
        let ghost n = sizes_after(parts.order@.take(k as int));
        let ghost frame = full_frame(n);
        let i = self.method_ref_count();
        if i >= parts.method_refs.len() {
            return Err(RebuildError::Misordered { step: k });
        }
        let v = parts.method_refs[i].duplicate();
        let ghost w = v;
        let ghost z = parts.method_refs@[i as int];
        proof {
            MethodRef::alike_is_equivalence(&w, &z, &w);
            lemma_method_refs_ok_alike(&frame, &w, &z);
            if pre.method_ref_ok(&w) {
                lemma_method_ref_fits(&pre, &frame, &w);
            }
            if frame.method_ref_ok(&w) {
                lemma_method_ref_fits(&frame, &pre, &w);
            }
            lemma_repeats_method_refs(&pre, parts, &w);
        }
        if !self.owns_method_ref(&v) {
            return Err(RebuildError::Dangling { category: Category::MethodRefs, position: i });
        }
        let h = self.alloc_methodref(v);
        if h.0 != i {
            return Err(RebuildError::Repeated { category: Category::MethodRefs, position: i });
        }
        proof {
            assert(self@.journal =~= parts.order@.take(k + 1));
        }
        Ok(())
    }

    /// Takes the step of the order that interns the next node.
    fn step_nodes(&mut self, parts: &Parts, k: usize) -> (r: Result<(), RebuildError>)
        requires
            old(self).wf(),
            old(self)@.replayed(parts, k as int),
            k < parts.order@.len(),
            parts.order@[k as int] == Category::Nodes,
        ensures
            r is Ok ==> final(self).wf() && final(self)@.replayed(parts, k + 1),
            r == outcome(step_fault(parts, k as int)),
    {
        let ghost pre = self@;
        let ghost n = sizes_after(parts.order@.take(k as int));
        let ghost frame = full_frame(n);
        let i = self.node_count();
        if i >= parts.nodes.len() {
            return Err(RebuildError::Misordered { step: k });
        }
        let v = parts.nodes[i].duplicate();
        let ghost w = v;
        let ghost z = parts.nodes@[i as int];
        proof {
            CILNode::alike_is_equivalence(&w, &z, &w);
            lemma_nodes_ok_alike(&frame, &w, &z);
            if pre.node_ok(&w) {
                lemma_node_fits(&pre, &frame, &w);
            }
            if frame.node_ok(&w) {
                lemma_node_fits(&frame, &pre, &w);
            }
            lemma_repeats_nodes(&pre, parts, &w);
        }
        if !self.owns_node(&v) {
            return Err(RebuildError::Dangling { category: Category::Nodes, position: i });
        }
        let h = self.alloc_node(v);
        if h.0 != i {
            return Err(RebuildError::Repeated { category: Category::Nodes, position: i });
        }
        proof {
            assert(self@.journal =~= parts.order@.take(k + 1));
        }
        Ok(())
    }

    /// Takes the step of the order that interns the next root.
    fn step_roots(&mut self, parts: &Parts, k: usize) -> (r: Result<(), RebuildError>)
        requires
            old(self).wf(),
            old(self)@.replayed(parts, k as int),
            k < parts.order@.len(),
            parts.order@[k as int] == Category::Roots,
        ensures
            r is Ok ==> final(self).wf() && final(self)@.replayed(parts, k + 1),
            r == outcome(step_fault(parts, k as int)),
    {
        let ghost pre = self@;
        let ghost n = sizes_after(parts.order@.take(k as int));
        let ghost frame = full_frame(n);
        let i = self.root_count();
        if i >= parts.roots.len() {
            return Err(RebuildError::Misordered { step: k });
        }
        let v = parts.roots[i].duplicate();
        let ghost w = v;
        let ghost z = parts.roots@[i as int];
        proof {
            CILRoot::alike_is_equivalence(&w, &z, &w);
            lemma_roots_ok_alike(&frame, &w, &z);
            if pre.root_ok(&w) {
                lemma_root_fits(&pre, &frame, &w);
            }
            if frame.root_ok(&w) {
                lemma_root_fits(&frame, &pre, &w);
            }
            lemma_repeats_roots(&pre, parts, &w);
        }
        if !self.owns_root(&v) {
            return Err(RebuildError::Dangling { category: Category::Roots, position: i });
        }
        let h = self.alloc_root(v);
        if h.0 != i {
            return Err(RebuildError::Repeated { category: Category::Roots, position: i });
        }
        proof {
            assert(self@.journal =~= parts.order@.take(k + 1));
        }
        Ok(())
    }

    /// Takes the step of the order that interns the next string.
    fn step_strings(&mut self, parts: &Parts, k: usize) -> (r: Result<(), RebuildError>)
        requires
            old(self).wf(),
            old(self)@.replayed(parts, k as int),
            k < parts.order@.len(),
            parts.order@[k as int] == Category::Strings,
        ensures
            r is Ok ==> final(self).wf() && final(self)@.replayed(parts, k + 1),
            r == outcome(step_fault(parts, k as int)),
    {
        let ghost pre = self@;
        let i = self.string_count();
        if i >= parts.strings.len() {
            return Err(RebuildError::Misordered { step: k });
        }
        proof {
            let s = parts.strings@[i as int]@;
            if repeats(parts, Category::Strings, i as int) {
                let h = choose|h: int|
                    0 <= h < i && (#[trigger] parts.strings@[h])@ == parts.strings@[i as int]@;
                assert(pre.strings[h]@ == s);
            }
            if pre.holds_string(s) {
                let h = choose|h: int| 0 <= h < pre.strings.len() && (#[trigger] pre.strings[h])@ == s;
                assert(parts.strings@[h]@ == s);
            }
        }
        let h = self.alloc_string(parts.strings[i].as_str());
        if h.0 != i {
            return Err(RebuildError::Repeated { category: Category::Strings, position: i });
        }
        proof {
            assert(self@.journal =~= parts.order@.take(k + 1));
        }
        Ok(())
    }

    /// Takes the step of the order that interns the next method definition.
    /// The class of the method has to be defined for that: where it is
    /// not, it is defined as an empty class, which the class definitions of
    /// the parts replace at the end.
    fn step_method_defs(&mut self, parts: &Parts, k: usize) -> (r: Result<(), RebuildError>)
        requires
            old(self).wf(),
            old(self)@.replayed(parts, k as int),
            k < parts.order@.len(),
            parts.order@[k as int] == Category::MethodDefs,
        ensures
            r is Ok ==> final(self).wf() && final(self)@.replayed(parts, k + 1),
            r == outcome(step_fault(parts, k as int)),
    {
        let ghost pre = self@;
        let ghost n = sizes_after(parts.order@.take(k as int));
        let ghost frame = full_frame(n);
        let i = self.method_def_count();
        if i >= parts.method_defs.len() {
            return Err(RebuildError::Misordered { step: k });
        }
        let v = parts.method_defs[i].duplicate();
        let ghost w = v;
        let ghost z = parts.method_defs@[i as int];
        let class = v.class().as_class_ref();
        proof {
            MethodDef::alike_is_equivalence(&w, &z, &w);
            lemma_method_defs_ok_alike(&frame, &w, &z);
            lemma_repeats_method_defs(&pre, parts, &w);
        }
        if !self.has_class_ref(class) {
            return Err(RebuildError::Dangling { category: Category::MethodDefs, position: i });
        }
        proof {
            let c = pre.class_refs[class.0 as int];
            let d = parts.class_refs@[class.0 as int];
            assert(c.alike(&d));
            assert(ownable(&c) == ownable(&d));
        }
        if self.class_ref_to_def(class).is_none() {
            let c = self.class_ref(class);
            if !(c.module().is_none() && c.generics().len() == 0) {
                return Err(RebuildError::Dangling { category: Category::MethodDefs, position: i });
            }
            let stub = ClassDef::new(
                c.name(),
                c.is_valuetype(),
                0,
                None,
                Vec::new(),
                Vec::new(),
                Vec::new(),
                Access::Public,
                None,
            );
            let ghost copy = stub;
            proof {
                assert(pre.class_ref_ok(&pre.class_refs[class.0 as int]));
                assert(own_ref(&pre.class_refs[class.0 as int], &copy));
                assert(pre.holds_own_ref(&copy));
            }
            let at = self.class_def(stub);
            proof {
                assert(self@.class_refs[at.0.0 as int].generics@
                    =~= self@.class_refs[class.0 as int].generics@);
                lemma_distinct_alike(self@.class_refs, at.0.0 as int, class.0 as int);
            }
        } else {
            proof {
                assert(pre.slot_ok(class.0 as int));
            }
        }
        let ghost mid = self@;
        proof {
            assert(mid.has_class_def(ClassDefIdx(class)));
            assert(frame.has_class_def(ClassDefIdx(class)));
            if mid.method_def_ok(&w) {
                lemma_method_def_fits(&mid, &frame, &w);
            }
            if frame.method_def_ok(&w) {
                lemma_method_def_fits(&frame, &mid, &w);
            }
            lemma_repeats_method_defs(&mid, parts, &w);
        }
        if !self.owns_method_def(&v) {
            return Err(RebuildError::Dangling { category: Category::MethodDefs, position: i });
        }
        let h = self.new_method(v);
        if h.0 != i {
            return Err(RebuildError::Repeated { category: Category::MethodDefs, position: i });
        }
        proof {
            assert(self@.journal =~= parts.order@.take(k + 1));
            assert forall|x: int| 0 <= x < self@.class_refs.len() implies (self@.defined_at(x)
                <==> #[trigger] stubbed_by(parts, self@.method_defs.len() as int, x)) by {
                if x == class.0 as int {
                    assert(parts.method_defs@[i as int].class.0.0 == x);
                } else {
                    assert(pre.defined_at(x) <==> stubbed_by(parts, pre.method_defs.len() as int, x));
                    if stubbed_by(parts, self@.method_defs.len() as int, x) && x != 0 {
                        let j = choose|j: int|
                            0 <= j < self@.method_defs.len() && j < parts.method_defs@.len() && (
                            #[trigger] parts.method_defs@[j]).class.0.0 == x;
                        assert(j < pre.method_defs.len());
                    }
                }
            }
        }
        Ok(())
    }

    /// Takes the step `k` of the order.
    fn step(&mut self, parts: &Parts, k: usize) -> (r: Result<(), RebuildError>)
        requires
            old(self).wf(),
            old(self)@.replayed(parts, k as int),
            k < parts.order@.len(),
        ensures
            r is Ok ==> final(self).wf() && final(self)@.replayed(parts, k + 1),
            r == outcome(step_fault(parts, k as int)),
    {
        match parts.order[k] {
            Category::Strings => self.step_strings(parts, k),
            Category::Types => self.step_types(parts, k),
            Category::ClassRefs => self.step_class_refs(parts, k),
            Category::Sigs => self.step_sigs(parts, k),
            Category::Fields => self.step_fields(parts, k),
            Category::StaticFields => self.step_statics(parts, k),
            Category::MethodRefs => self.step_method_refs(parts, k),
            Category::Nodes => self.step_nodes(parts, k),
            Category::Roots => self.step_roots(parts, k),
            Category::MethodDefs => self.step_method_defs(parts, k),
            Category::ClassDefs => Err(RebuildError::Misordered { step: k }),
        }
    }

    /// Defines the classes as the parts define them, position by position.
    fn define_all(&mut self, parts: &Parts) -> (r: Result<(), RebuildError>)
        requires
            old(self).wf(),
            old(self)@.replayed(parts, parts.order@.len() as int),
            old(self)@.sizes() == parts.sizes(),
        ensures
            r is Ok ==> final(self).wf() && final(self)@.matches(parts),
            r == outcome(def_faults(parts, 0)),
    {
        let ghost start = self@;
        let ghost frame = full_frame(parts.sizes());
        let mut position: usize = 0;
        proof {
            assert(parts.order@.take(parts.order@.len() as int) =~= parts.order@);
        }
        while position < parts.class_defs.len()
            invariant
                self.wf(),
                self@.begins(parts),
                self@.sizes() == parts.sizes(),
                self@.journal == parts.order@,
                parts.class_defs@.len() == parts.class_refs@.len(),
                position <= parts.class_defs@.len(),
                frame == full_frame(parts.sizes()),
                def_faults(parts, 0) == def_faults(parts, position as int),
                forall|i: int| 0 <= i < position ==> #[trigger] self@.defines_as(parts, i),
                forall|i: int|
                    position <= i < self@.class_refs.len() ==> (self@.defined_at(i)
                        <==> #[trigger] stubbed_by(parts, parts.method_defs@.len() as int, i)),
            decreases parts.class_defs.len() - position,
        {
            let ghost pre = self@;
            match &parts.class_defs[position] {
                Some(def) => {
                    let d = def.duplicate();
                    let ghost copy = d;
                    proof {
                        assert(pre.class_def_ok(&copy) == pre.class_def_ok(def));
                        if pre.class_def_ok(def) {
                            lemma_class_def_fits(&pre, &frame, def);
                        }
                        if frame.class_def_ok(def) {
                            lemma_class_def_fits(&frame, &pre, def);
                        }
                        assert(pre.class_refs[position as int].alike(
                            &parts.class_refs@[position as int],
                        ));
                    }
                    if !self.owns_class_def(&d) {
                        return Err(
                            RebuildError::Dangling { category: Category::ClassDefs, position },
                        );
                    }
                    if !self.is_own_ref(position, &d) {
                        return Err(RebuildError::Misdefined { position });
                    }
                    proof {
                        assert(pre.holds_own_ref(&copy));
                    }
                    let at = self.class_def(d);
                    proof {
                        assert(self@.class_refs[at.0.0 as int].generics@
                            =~= self@.class_refs[position as int].generics@);
                        lemma_distinct_alike(self@.class_refs, at.0.0 as int, position as int);
                    }
                },
                None => {
                    proof {
                        assert(pre.defined_at(position as int) <==> stubbed_by(
                            parts,
                            parts.method_defs@.len() as int,
                            position as int,
                        ));
                    }
                    if self.class_ref_to_def(ClassRefIdx(position)).is_some() {
                        return Err(RebuildError::Misdefined { position });
                    }
                },
            }
            proof {
                assert forall|i: int| 0 <= i < position + 1 implies #[trigger] self@.defines_as(
                    parts,
                    i,
                ) by {
                    if i < position {
                        assert(pre.defines_as(parts, i));
                    }
                }
                assert forall|i: int| position + 1 <= i < self@.class_refs.len() implies (
                self@.defined_at(i) <==> #[trigger] stubbed_by(
                    parts,
                    parts.method_defs@.len() as int,
                    i,
                )) by {
                    assert(pre.defined_at(i) <==> stubbed_by(
                        parts,
                        parts.method_defs@.len() as int,
                        i,
                    ));
                }
            }
            position += 1;
        }
        Ok(())
    }

    /// Builds the assembly that has the given parts: interns the values in
    /// the order of the parts, so that every value gets the handle of its
    /// position, and defines the classes as the parts define them. Fails on
    /// the first fault of the parts, and only on parts that have one.
    pub fn rebuild(parts: &Parts) -> (r: Result<Assembly, RebuildError>)
        ensures
            match r {
                Ok(a) => first_fault(parts) is None && a.wf() && a@.matches(parts),
                Err(e) => first_fault(parts) == Some(e),
            },
    {
        let mut a = Assembly::new();
        if parts.strings.len() == 0 || parts.class_refs.len() == 0 || parts.class_defs.len() == 0
            || parts.order.len() < 2 {
            return Err(RebuildError::NoMainModule);
        }
        proof {
            if own_main(&parts.class_refs@[0]) {
                assert(parts.class_refs@[0].generics@ =~= a@.class_refs[0].generics@);
            }
            if parts.class_refs@[0].alike(&a@.class_refs[0]) {
                assert(own_main(&parts.class_refs@[0]));
            }
        }
        if !(parts.strings[0] == *a.get_string(StringIdx(0)) && parts.class_refs[0].same(
            a.class_ref(ClassRefIdx(0)),
        )) {
            return Err(RebuildError::NoMainModule);
        }
        if parts.class_defs[0].is_none() {
            return Err(RebuildError::NoMainModule);
        }
        match (parts.order[0], parts.order[1]) {
            (Category::Strings, Category::ClassRefs) => {},
            _ => {
                return Err(RebuildError::NoMainModule);
            },
        }
        if parts.class_defs.len() != parts.class_refs.len() {
            return Err(RebuildError::Misdefined { position: parts.class_defs.len() });
        }
        proof {
            ClassRef::alike_is_equivalence(&parts.class_refs@[0], &a@.class_refs[0], &a@.class_refs[0]);
            assert(a@.journal =~= parts.order@.take(2));
            assert forall|i: int| 0 <= i < a@.class_refs.len() implies (a@.defined_at(i)
                <==> #[trigger] stubbed_by(parts, a@.method_defs.len() as int, i)) by {}
        }
        let mut k: usize = 2;
        while k < parts.order.len()
            invariant
                a.wf(),
                a@.replayed(parts, k as int),
                step_faults(parts, 2) == step_faults(parts, k as int),
            decreases parts.order.len() - k,
        {
            a.step(parts, k)?;
            k += 1;
        }
        proof {
            assert(parts.order@.take(k as int) =~= parts.order@);
        }
        if a.string_count() < parts.strings.len() {
            return Err(
                RebuildError::Unlisted { category: Category::Strings, position: a.string_count() },
            );
        }
        if a.type_count() < parts.types.len() {
            return Err(
                RebuildError::Unlisted { category: Category::Types, position: a.type_count() },
            );
        }
        if a.class_ref_count() < parts.class_refs.len() {
            return Err(
                RebuildError::Unlisted { category: Category::ClassRefs, position: a.class_ref_count() },
            );
        }
        if a.sig_count() < parts.sigs.len() {
            return Err(
                RebuildError::Unlisted { category: Category::Sigs, position: a.sig_count() },
            );
        }
        if a.field_count() < parts.fields.len() {
            return Err(
                RebuildError::Unlisted { category: Category::Fields, position: a.field_count() },
            );
        }
        if a.static_field_count() < parts.statics.len() {
            return Err(
                RebuildError::Unlisted { category: Category::StaticFields, position: a.static_field_count() },
            );
        }
        if a.method_ref_count() < parts.method_refs.len() {
            return Err(
                RebuildError::Unlisted { category: Category::MethodRefs, position: a.method_ref_count() },
            );
        }
        if a.node_count() < parts.nodes.len() {
            return Err(
                RebuildError::Unlisted { category: Category::Nodes, position: a.node_count() },
            );
        }
        if a.root_count() < parts.roots.len() {
            return Err(
                RebuildError::Unlisted { category: Category::Roots, position: a.root_count() },
            );
        }
        if a.method_def_count() < parts.method_defs.len() {
            return Err(
                RebuildError::Unlisted { category: Category::MethodDefs, position: a.method_def_count() },
            );
        }
        a.define_all(parts)?;
        Ok(a)
    }
}

/// The parts of a consistent assembly have no fault: the assembly is built
/// again from its snapshot.
pub proof fn law_snapshot_rebuilds(c: &Contents, p: &Parts)
    requires
        c.wf(),
        c.matches(p),
    ensures
        first_fault(p) is None,
{
    lemma_steps_sound(c, p, 2);
    lemma_defs_sound(c, p, 0);
}

/// No step of the order of the parts of a consistent assembly has a fault.
pub proof fn lemma_steps_sound(c: &Contents, p: &Parts, k: int)
    requires
        c.wf(),
        c.matches(p),
        0 <= k,
    ensures
        step_faults(p, k) is None,
    decreases p.order@.len() - k,
{
    if k < p.order@.len() {
        lemma_step_sound(c, p, k);
        lemma_steps_sound(c, p, k + 1);
    }
}

/// The step of the order of the parts of a consistent assembly has no
/// fault.
pub proof fn lemma_step_sound(c: &Contents, p: &Parts, k: int)
    requires
        c.wf(),
        c.matches(p),
        0 <= k < p.order@.len(),
    ensures
        step_fault(p, k) is None,
{
    let n = sizes_after(c.journal.take(k));
    let own = sized(n, c.class_defs, c.main_module);
    let frame = full_frame(n);
    assert(c.step_ok(k));
    lemma_count_take(c.journal, k, c.journal[k]);
    match c.journal[k] {
        Category::Strings => {
            let i = n.strings as int;
            if repeats(p, Category::Strings, i) {
                let h = choose|h: int| 0 <= h < i && (#[trigger] p.strings@[h])@ == p.strings@[i]@;
                lemma_distinct_alike(c.strings, h, i);
            }
        },
        Category::Types => {
            let i = n.types as int;
            lemma_type_fits(&own, &frame, c.types[i]);
            lemma_types_ok_alike(&frame, c.types[i], p.types@[i]);
            if repeats(p, Category::Types, i) {
                let h = choose|h: int| 0 <= h < i && (#[trigger] p.types@[h]).alike(&p.types@[i]);
                Type::alike_is_equivalence(&c.types[h], &p.types@[h], &p.types@[i]);
                Type::alike_is_equivalence(&c.types[i], &p.types@[i], &c.types[i]);
                Type::alike_is_equivalence(&c.types[h], &p.types@[i], &c.types[i]);
                lemma_distinct_alike(c.types, h, i);
            }
        },
        Category::ClassRefs => {
            let i = n.class_refs as int;
            lemma_class_ref_fits(&own, &frame, &c.class_refs[i]);
            lemma_class_refs_ok_alike(&frame, &c.class_refs[i], &p.class_refs@[i]);
            if repeats(p, Category::ClassRefs, i) {
                let h = choose|h: int| 0 <= h < i && (#[trigger] p.class_refs@[h]).alike(&p.class_refs@[i]);
                ClassRef::alike_is_equivalence(&c.class_refs[h], &p.class_refs@[h], &p.class_refs@[i]);
                ClassRef::alike_is_equivalence(&c.class_refs[i], &p.class_refs@[i], &c.class_refs[i]);
                ClassRef::alike_is_equivalence(&c.class_refs[h], &p.class_refs@[i], &c.class_refs[i]);
                lemma_distinct_alike(c.class_refs, h, i);
            }
        },
        Category::Sigs => {
            let i = n.sigs as int;
            lemma_sig_fits(&own, &frame, &c.sigs[i]);
            lemma_sigs_ok_alike(&frame, &c.sigs[i], &p.sigs@[i]);
            if repeats(p, Category::Sigs, i) {
                let h = choose|h: int| 0 <= h < i && (#[trigger] p.sigs@[h]).alike(&p.sigs@[i]);
                FnSig::alike_is_equivalence(&c.sigs[h], &p.sigs@[h], &p.sigs@[i]);
                FnSig::alike_is_equivalence(&c.sigs[i], &p.sigs@[i], &c.sigs[i]);
                FnSig::alike_is_equivalence(&c.sigs[h], &p.sigs@[i], &c.sigs[i]);
                lemma_distinct_alike(c.sigs, h, i);
            }
        },
        Category::Fields => {
            let i = n.fields as int;
            lemma_field_fits(&own, &frame, &c.fields[i]);
            lemma_fields_ok_alike(&frame, &c.fields[i], &p.fields@[i]);
            if repeats(p, Category::Fields, i) {
                let h = choose|h: int| 0 <= h < i && (#[trigger] p.fields@[h]).alike(&p.fields@[i]);
                FieldDesc::alike_is_equivalence(&c.fields[h], &p.fields@[h], &p.fields@[i]);
                FieldDesc::alike_is_equivalence(&c.fields[i], &p.fields@[i], &c.fields[i]);
                FieldDesc::alike_is_equivalence(&c.fields[h], &p.fields@[i], &c.fields[i]);
                lemma_distinct_alike(c.fields, h, i);
            }
        },
        Category::StaticFields => {
            let i = n.statics as int;
            lemma_static_fits(&own, &frame, &c.statics[i]);
            lemma_statics_ok_alike(&frame, &c.statics[i], &p.statics@[i]);
            if repeats(p, Category::StaticFields, i) {
                let h = choose|h: int| 0 <= h < i && (#[trigger] p.statics@[h]).alike(&p.statics@[i]);
                StaticFieldDesc::alike_is_equivalence(&c.statics[h], &p.statics@[h], &p.statics@[i]);
                StaticFieldDesc::alike_is_equivalence(&c.statics[i], &p.statics@[i], &c.statics[i]);
                StaticFieldDesc::alike_is_equivalence(&c.statics[h], &p.statics@[i], &c.statics[i]);
                lemma_distinct_alike(c.statics, h, i);
            }
        },
        Category::MethodRefs => {
            let i = n.method_refs as int;
            lemma_method_ref_fits(&own, &frame, &c.method_refs[i]);
            lemma_method_refs_ok_alike(&frame, &c.method_refs[i], &p.method_refs@[i]);
            if repeats(p, Category::MethodRefs, i) {
                let h = choose|h: int| 0 <= h < i && (#[trigger] p.method_refs@[h]).alike(&p.method_refs@[i]);
                MethodRef::alike_is_equivalence(&c.method_refs[h], &p.method_refs@[h], &p.method_refs@[i]);
                MethodRef::alike_is_equivalence(&c.method_refs[i], &p.method_refs@[i], &c.method_refs[i]);
                MethodRef::alike_is_equivalence(&c.method_refs[h], &p.method_refs@[i], &c.method_refs[i]);
                lemma_distinct_alike(c.method_refs, h, i);
            }
        },
        Category::Nodes => {
            let i = n.nodes as int;
            lemma_node_fits(&own, &frame, &c.nodes[i]);
            lemma_nodes_ok_alike(&frame, &c.nodes[i], &p.nodes@[i]);
            if repeats(p, Category::Nodes, i) {
                let h = choose|h: int| 0 <= h < i && (#[trigger] p.nodes@[h]).alike(&p.nodes@[i]);
                CILNode::alike_is_equivalence(&c.nodes[h], &p.nodes@[h], &p.nodes@[i]);
                CILNode::alike_is_equivalence(&c.nodes[i], &p.nodes@[i], &c.nodes[i]);
                CILNode::alike_is_equivalence(&c.nodes[h], &p.nodes@[i], &c.nodes[i]);
                lemma_distinct_alike(c.nodes, h, i);
            }
        },
        Category::Roots => {
            let i = n.roots as int;
            lemma_root_fits(&own, &frame, &c.roots[i]);
            lemma_roots_ok_alike(&frame, &c.roots[i], &p.roots@[i]);
            if repeats(p, Category::Roots, i) {
                let h = choose|h: int| 0 <= h < i && (#[trigger] p.roots@[h]).alike(&p.roots@[i]);
                CILRoot::alike_is_equivalence(&c.roots[h], &p.roots@[h], &p.roots@[i]);
                CILRoot::alike_is_equivalence(&c.roots[i], &p.roots@[i], &c.roots[i]);
                CILRoot::alike_is_equivalence(&c.roots[h], &p.roots@[i], &c.roots[i]);
                lemma_distinct_alike(c.roots, h, i);
            }
        },
        Category::MethodDefs => {
            let i = n.method_defs as int;
            let class = c.method_defs[i].class;
            assert(own.has_class_def(class));
            assert(frame.has_class_def(class));
            assert(c.has_class_def(class));
            assert(c.slot_ok(class.0.0 as int));
            assert(c.class_refs[class.0.0 as int].alike(&p.class_refs@[class.0.0 as int]));
            lemma_method_def_fits(&own, &frame, &c.method_defs[i]);
            lemma_method_defs_ok_alike(&frame, &c.method_defs[i], &p.method_defs@[i]);
            if repeats(p, Category::MethodDefs, i) {
                let h = choose|h: int| 0 <= h < i && (#[trigger] p.method_defs@[h]).alike(&p.method_defs@[i]);
                MethodDef::alike_is_equivalence(&c.method_defs[h], &p.method_defs@[h], &p.method_defs@[i]);
                MethodDef::alike_is_equivalence(&c.method_defs[i], &p.method_defs@[i], &c.method_defs[i]);
                MethodDef::alike_is_equivalence(&c.method_defs[h], &p.method_defs@[i], &c.method_defs[i]);
                lemma_distinct_alike(c.method_defs, h, i);
            }
        },
        Category::ClassDefs => {},
    }
}

/// No class definition of the parts of a consistent assembly, and no
/// absence of one, has a fault.
pub proof fn lemma_defs_sound(c: &Contents, p: &Parts, i: int)
    requires
        c.wf(),
        c.matches(p),
        0 <= i,
    ensures
        def_faults(p, i) is None,
    decreases p.class_defs@.len() - i,
{
    if i < p.class_defs@.len() {
        let frame = full_frame(p.sizes());
        assert(p.class_defs@.len() == p.class_defs.len());
        assert(c.defines_as(p, i));
        match p.class_defs@[i] {
            Some(d) => {
                let e = c.class_def_of(ClassDefIdx(ClassRefIdx(i as usize)));
                assert(c.class_defs[i] is Some);
                assert(c.slot_ok(i));
                assert(c.class_def_ok(&d) == c.class_def_ok(&e));
                lemma_class_def_fits(c, &frame, &d);
                assert(c.class_refs[i].alike(&p.class_refs@[i]));
            },
            None => {
                if stubbed_by(p, p.method_defs@.len() as int, i) && i != 0 {
                    let j = choose|j: int|
                        0 <= j < p.method_defs@.len() && (#[trigger] p.method_defs@[j]).class.0.0
                            == i;
                    assert(c.method_defs[j].alike(&p.method_defs@[j]));
                    assert(c.method_def_ok(&c.method_defs[j]));
                }
            },
        }
        lemma_defs_sound(c, p, i + 1);
    }
}

impl Contents {
    /// The two assemblies hold structurally equal values under the same
    /// handles, define the same classes in structurally equal ways, and
    /// interned their values in the same order.
    pub open spec fn same_contents(&self, other: &Contents) -> bool {
        &&& self.sizes() == other.sizes()
        &&& self.journal == other.journal
        &&& forall|i: int| 0 <= i < self.strings.len()
            ==> (#[trigger] self.strings[i])@ == other.strings[i]@
        &&& forall|i: int| 0 <= i < self.types.len()
            ==> (#[trigger] self.types[i]).alike(&other.types[i])
        &&& forall|i: int| 0 <= i < self.class_refs.len()
            ==> (#[trigger] self.class_refs[i]).alike(&other.class_refs[i])
        &&& forall|i: int| 0 <= i < self.sigs.len()
            ==> (#[trigger] self.sigs[i]).alike(&other.sigs[i])
        &&& forall|i: int| 0 <= i < self.fields.len()
            ==> (#[trigger] self.fields[i]).alike(&other.fields[i])
        &&& forall|i: int| 0 <= i < self.statics.len()
            ==> (#[trigger] self.statics[i]).alike(&other.statics[i])
        &&& forall|i: int| 0 <= i < self.method_refs.len()
            ==> (#[trigger] self.method_refs[i]).alike(&other.method_refs[i])
        &&& forall|i: int| 0 <= i < self.nodes.len()
            ==> (#[trigger] self.nodes[i]).alike(&other.nodes[i])
        &&& forall|i: int| 0 <= i < self.roots.len()
            ==> (#[trigger] self.roots[i]).alike(&other.roots[i])
        &&& forall|i: int| 0 <= i < self.method_defs.len()
            ==> (#[trigger] self.method_defs[i]).alike(&other.method_defs[i])
        &&& forall|h: ClassDefIdx| #[trigger] self.has_class_def(h) <==> other.has_class_def(h)
        &&& forall|h: ClassDefIdx| #[trigger]
            self.has_class_def(h) && h.0.0 < self.class_refs.len() ==> self.class_def_of(h).alike(
                &other.class_def_of(h),
            )
    }
}

/// Writing out and reading back is faithful: an assembly that is built
/// from the parts of another holds the same values under the same handles,
/// defines the same classes, and has the same journal.
pub proof fn law_round_trip(a: &Contents, p: &Parts, b: &Contents)
    requires
        a.wf(),
        a.matches(p),
        b.wf(),
        b.matches(p),
    ensures
        b.same_contents(a),
{
    assert forall|i: int| 0 <= i < b.types.len() implies
        (#[trigger] b.types[i]).alike(&a.types[i]) by {
        Type::alike_is_equivalence(&a.types[i], &p.types@[i], &p.types@[i]);
        Type::alike_is_equivalence(&b.types[i], &p.types@[i], &a.types[i]);
    }
    assert forall|i: int| 0 <= i < b.class_refs.len() implies
        (#[trigger] b.class_refs[i]).alike(&a.class_refs[i]) by {
        ClassRef::alike_is_equivalence(&a.class_refs[i], &p.class_refs@[i], &p.class_refs@[i]);
        ClassRef::alike_is_equivalence(&b.class_refs[i], &p.class_refs@[i], &a.class_refs[i]);
    }
    assert forall|i: int| 0 <= i < b.sigs.len() implies
        (#[trigger] b.sigs[i]).alike(&a.sigs[i]) by {
        FnSig::alike_is_equivalence(&a.sigs[i], &p.sigs@[i], &p.sigs@[i]);
        FnSig::alike_is_equivalence(&b.sigs[i], &p.sigs@[i], &a.sigs[i]);
    }
    assert forall|i: int| 0 <= i < b.fields.len() implies
        (#[trigger] b.fields[i]).alike(&a.fields[i]) by {
        FieldDesc::alike_is_equivalence(&a.fields[i], &p.fields@[i], &p.fields@[i]);
        FieldDesc::alike_is_equivalence(&b.fields[i], &p.fields@[i], &a.fields[i]);
    }
    assert forall|i: int| 0 <= i < b.statics.len() implies
        (#[trigger] b.statics[i]).alike(&a.statics[i]) by {
        StaticFieldDesc::alike_is_equivalence(&a.statics[i], &p.statics@[i], &p.statics@[i]);
        StaticFieldDesc::alike_is_equivalence(&b.statics[i], &p.statics@[i], &a.statics[i]);
    }
    assert forall|i: int| 0 <= i < b.method_refs.len() implies
        (#[trigger] b.method_refs[i]).alike(&a.method_refs[i]) by {
        MethodRef::alike_is_equivalence(&a.method_refs[i], &p.method_refs@[i], &p.method_refs@[i]);
        MethodRef::alike_is_equivalence(&b.method_refs[i], &p.method_refs@[i], &a.method_refs[i]);
    }
    assert forall|i: int| 0 <= i < b.nodes.len() implies
        (#[trigger] b.nodes[i]).alike(&a.nodes[i]) by {
        CILNode::alike_is_equivalence(&a.nodes[i], &p.nodes@[i], &p.nodes@[i]);
        CILNode::alike_is_equivalence(&b.nodes[i], &p.nodes@[i], &a.nodes[i]);
    }
    assert forall|i: int| 0 <= i < b.roots.len() implies
        (#[trigger] b.roots[i]).alike(&a.roots[i]) by {
        CILRoot::alike_is_equivalence(&a.roots[i], &p.roots@[i], &p.roots@[i]);
        CILRoot::alike_is_equivalence(&b.roots[i], &p.roots@[i], &a.roots[i]);
    }
    assert forall|i: int| 0 <= i < b.method_defs.len() implies
        (#[trigger] b.method_defs[i]).alike(&a.method_defs[i]) by {
        MethodDef::alike_is_equivalence(&a.method_defs[i], &p.method_defs@[i], &p.method_defs@[i]);
        MethodDef::alike_is_equivalence(&b.method_defs[i], &p.method_defs@[i], &a.method_defs[i]);
    }
    assert(p.class_defs@.len() == p.class_defs.len());
    assert forall|h: ClassDefIdx| #[trigger] b.has_class_def(h) <==> a.has_class_def(h) by {
        if h.0.0 < p.class_defs@.len() {
            assert(a.defines_as(p, h.0.0 as int));
            assert(b.defines_as(p, h.0.0 as int));
        }
    }
    assert forall|h: ClassDefIdx| #[trigger]
        b.has_class_def(h) && h.0.0 < b.class_refs.len() implies b.class_def_of(h).alike(
        &a.class_def_of(h),
    ) by {
        assert(a.defines_as(p, h.0.0 as int));
        assert(b.defines_as(p, h.0.0 as int));
    }
}

} // verus!
