//! The assembly: one module's interned strings, types, references,
//! instructions and definitions, each category in an arena of its own.

use crate::arena::{duplicate_list, holds, Arena, Interned};
use crate::cilnode::CILNode;
use crate::cilroot::CILRoot;
use crate::class_ref::{ClassRef, FieldDesc, MethodRef, StaticFieldDesc};
use crate::contents::{own_ref, sized, Contents};
use crate::frame::{
    lemma_class_ref_fits, lemma_field_fits, lemma_journal_push, lemma_journal_redefine,
    lemma_method_def_fits, lemma_method_ref_fits, lemma_node_fits, lemma_root_fits,
    lemma_sig_fits, lemma_static_fits, lemma_type_fits, lemma_within_own_frame,
};
use crate::handles::{
    ClassDefIdx, ClassRefIdx, FieldIdx, MethodDefIdx, MethodRefIdx, NodeIdx, RootIdx, SigIdx,
    StaticFieldIdx, StringIdx, TypeIdx,
};
use crate::journal::{lemma_sizes_push, Category};
use crate::method::{Access, ClassDef, MethodDef};
use crate::resolved::{Resolved, ResolvedClassRef};
use crate::stability::{
    lemma_class_def_stable, lemma_class_ref_stable, lemma_field_stable, lemma_grounded,
    lemma_growth, lemma_method_def_congruent, lemma_method_def_stable, lemma_method_ref_stable,
    lemma_node_stable, lemma_root_stable, lemma_sig_stable, lemma_static_stable,
    lemma_type_stable,
};
use crate::tpe::{FnSig, Type};
use vstd::prelude::*;

verus! {

/// The container that owns every value of the representation. Values refer
/// to one another by handle only, and a handle is meaningful only in the
/// assembly that issued it. An assembly only grows: nothing is removed from
/// it and no handle changes its meaning.
pub struct Assembly {
    strings: Arena<String>,
    types: Arena<Type>,
    class_refs: Arena<ClassRef>,
    sigs: Arena<FnSig>,
    fields: Arena<FieldDesc>,
    statics: Arena<StaticFieldDesc>,
    method_refs: Arena<MethodRef>,
    nodes: Arena<CILNode>,
    roots: Arena<CILRoot>,
    method_defs: Arena<MethodDef>,
    class_defs: Vec<Option<ClassDef>>,
    main_module: ClassRefIdx,
    journal: Vec<Category>,
    resolved: Ghost<Resolved>,
}

impl View for Assembly {
    type V = Contents;

    closed spec fn view(&self) -> Contents {
        Contents {
            strings: self.strings@,
            types: self.types@,
            class_refs: self.class_refs@,
            sigs: self.sigs@,
            fields: self.fields@,
            statics: self.statics@,
            method_refs: self.method_refs@,
            nodes: self.nodes@,
            roots: self.roots@,
            method_defs: self.method_defs@,
            class_defs: self.class_defs@,
            main_module: self.main_module,
            resolved: self.resolved@,
            journal: self.journal@,
        }
    }
}

impl Assembly {
    /// The index of every arena is complete.
    pub closed spec fn indexed(&self) -> bool {
        &&& self.strings.indexed()
        &&& self.types.indexed()
        &&& self.class_refs.indexed()
        &&& self.sigs.indexed()
        &&& self.fields.indexed()
        &&& self.statics.indexed()
        &&& self.method_refs.indexed()
        &&& self.nodes.indexed()
        &&& self.roots.indexed()
        &&& self.method_defs.indexed()
    }

    /// The assembly is consistent: its contents are, and every arena finds
    /// again what it holds.
    pub open spec fn wf(&self) -> bool {
        self@.wf() && self.indexed()
    }

    /// An assembly that holds nothing but its main module: the class that
    /// owns the routines that belong to no other class.
    pub fn new() -> (r: Self)
        ensures
            r.wf(),
            r@.strings.len() == 1,
            r@.class_refs.len() == 1,
            r@.types.len() == 0,
            r@.sigs.len() == 0,
            r@.fields.len() == 0,
            r@.statics.len() == 0,
            r@.method_refs.len() == 0,
            r@.nodes.len() == 0,
            r@.roots.len() == 0,
            r@.method_defs.len() == 0,
            r@.main_module == ClassRefIdx(0),
            r@.string_of(StringIdx(0)) == "RustModule"@,
            r@.class_defs.len() == 1,
            r@.journal == seq![Category::Strings, Category::ClassRefs],
            own_ref(&r@.class_refs[0], &r@.class_def_of(ClassDefIdx(ClassRefIdx(0)))),
            ({
                let d = r@.class_def_of(ClassDefIdx(ClassRefIdx(0)));
                &&& d.name == StringIdx(0)
                &&& !d.is_valuetype
                &&& d.generics == 0
                &&& d.extends is None
                &&& d.fields@.len() == 0
                &&& d.static_fields@.len() == 0
                &&& d.methods@.len() == 0
                &&& d.access == Access::Public
                &&& d.explict_size is None
            }),
    {
        let mut strings: Arena<String> = Arena::new();
        let name = StringIdx(strings.insert("RustModule".to_owned()));
        let mut class_refs: Arena<ClassRef> = Arena::new();
        let main_module = ClassRefIdx(
            class_refs.insert(ClassRef::new(name, None, false, Vec::new())),
        );
        let mut class_defs: Vec<Option<ClassDef>> = Vec::new();
        class_defs.push(
            Some(
                ClassDef::new(
                    name,
                    false,
                    0,
                    None,
                    Vec::new(),
                    Vec::new(),
                    Vec::new(),
                    Access::Public,
                    None,
                ),
            ),
        );
        let mut journal: Vec<Category> = Vec::new();
        journal.push(Category::Strings);
        journal.push(Category::ClassRefs);
        let ghost tree = ResolvedClassRef {
            name: "RustModule"@,
            module: None,
            is_valuetype: false,
            generics: Seq::empty(),
        };
        let r = Assembly {
            strings,
            types: Arena::new(),
            class_refs,
            sigs: Arena::new(),
            fields: Arena::new(),
            statics: Arena::new(),
            method_refs: Arena::new(),
            nodes: Arena::new(),
            roots: Arena::new(),
            method_defs: Arena::new(),
            class_defs,
            main_module,
            journal,
            resolved: Ghost(
                Resolved {
                    types: Seq::empty(),
                    class_refs: seq![tree],
                    sigs: Seq::empty(),
                    fields: Seq::empty(),
                    statics: Seq::empty(),
                    method_refs: Seq::empty(),
                    nodes: Seq::empty(),
                    roots: Seq::empty(),
                    method_defs: Seq::empty(),
                },
            ),
        };
        proof {
            let c = r@;
            assert(c.resolve_class_ref(&c.class_refs[0]).generics =~= tree.generics);
            assert(c.slot_ok(0)) by {
                let d = c.class_defs[0]->0;
                assert(c.resolve_class_fields(d.fields@) =~= Seq::empty());
            }
            let none = Seq::<Category>::empty();
            let one = none.push(Category::Strings);
            lemma_sizes_push(none, Category::Strings);
            lemma_sizes_push(one, Category::ClassRefs);
            assert(c.journal =~= one.push(Category::ClassRefs));
            assert(c.journal.take(0) =~= none);
            assert(c.journal.take(1) =~= one);
            assert(c.step_ok(0));
            assert(c.step_ok(1));
        }
        r
    }

    /// Interns a string: returns the handle of the equal string already
    /// held, or stores a copy and returns its new handle.
    pub fn alloc_string(&mut self, s: &str) -> (r: StringIdx)
        requires
            old(self).wf(),
        ensures
            final(self).wf(),
            final(self)@.extends(&old(self)@),
            final(self)@ == (Contents {
                strings: final(self)@.strings,
                journal: final(self)@.journal,
                ..old(self)@
            }),
            old(self)@.holds_string(s@) ==> final(self)@.journal == old(self)@.journal,
            !old(self)@.holds_string(s@) ==> final(self)@.journal == old(self)@.journal.push(
                Category::Strings,
            ),
            final(self)@.has_string(r),
            final(self)@.string_of(r) == s@,
            old(self)@.holds_string(s@) ==> final(self)@.strings == old(self)@.strings,
            !old(self)@.holds_string(s@) ==> final(self)@.strings.len() == old(
                self,
            )@.strings.len() + 1 && r.0 == old(self)@.strings.len(),
    {
        let ghost pre = self@;
        let v = s.to_owned();
        proof {
            if pre.holds_string(s@) {
                let i = choose|i: int|
                    0 <= i < pre.strings.len() && (#[trigger] pre.strings[i])@ == s@;
                assert(pre.strings[i].alike(&v));
            }
        }
        let n = self.strings.len();
        let h = self.strings.insert(v);
        if self.strings.len() > n {
            self.journal.push(Category::Strings);
            proof {
                assert(self@.journal.take(pre.journal.len() as int) =~= pre.journal);
                lemma_journal_push(&pre, &self@, Category::Strings);
            }
        }
        proof {
            lemma_growth(&pre, &self@);
        }
        StringIdx(h)
    }

    /// The string behind a handle.
    pub fn get_string(&self, h: StringIdx) -> (r: &String)
        requires
            self@.has_string(h),
        ensures
            r@ == self@.string_of(h),
    {
        self.strings.get(h.0)
    }

    /// Interns a type: returns the handle of the equal value already held, or
    /// stores the value and returns its new handle.
    pub fn alloc_type(&mut self, v: Type) -> (r: TypeIdx)
        requires
            old(self).wf(),
            old(self)@.type_ok(v),
        ensures
            final(self).wf(),
            final(self)@.extends(&old(self)@),
            final(self)@ == old(self)@.with_type(v),
            final(self)@.has_type(r),
            final(self)@.types[r.0 as int].alike(&v),
            final(self)@.type_tree(r) == old(self)@.resolve_type(v),
            holds(old(self)@.types, &v) || r.0 == old(self)@.types.len(),
    {
        let ghost pre = self@;
        let ghost tree = pre.resolve_type(v);
        let ghost fresh = !holds(pre.types, &v);
        let ghost w = v;
        let n = self.types.len();
        let h = self.types.insert(v);
        if self.types.len() > n {
            self.journal.push(Category::Types);
        }
        proof {
            if fresh {
                self.resolved = Ghost(
                    Resolved { types: pre.resolved.types.push(tree), ..pre.resolved },
                );
                lemma_within_own_frame(&pre);
                lemma_type_fits(
                    &pre,
                    &sized(pre.sizes(), pre.class_defs, pre.main_module),
                    w,
                );
                assert(self@.journal.take(pre.journal.len() as int) =~= pre.journal);
                lemma_journal_push(&pre, &self@, Category::Types);
                lemma_type_stable(&pre, &self@, w);
                lemma_growth(&pre, &self@);
            }
        }
        TypeIdx(h)
    }

    /// The value behind a handle.
    pub fn get_type(&self, h: TypeIdx) -> (r: &Type)
        requires
            self@.has_type(h),
        ensures
            *r == self@.types[h.0 as int],
    {
        self.types.get(h.0)
    }

    /// Interns a class reference: returns the handle of the equal value already held, or
    /// stores the value and returns its new handle.
    pub fn alloc_class_ref(&mut self, v: ClassRef) -> (r: ClassRefIdx)
        requires
            old(self).wf(),
            old(self)@.class_ref_ok(&v),
        ensures
            final(self).wf(),
            final(self)@.extends(&old(self)@),
            final(self)@ == old(self)@.with_class_ref(v),
            final(self)@.has_class_ref(r),
            final(self)@.class_refs[r.0 as int].alike(&v),
            final(self)@.class_tree(r) == old(self)@.resolve_class_ref(&v),
            holds(old(self)@.class_refs, &v) || r.0 == old(self)@.class_refs.len(),
    {
        let ghost pre = self@;
        let ghost tree = pre.resolve_class_ref(&v);
        let ghost fresh = !holds(pre.class_refs, &v);
        let ghost w = v;
        let n = self.class_refs.len();
        let h = self.class_refs.insert(v);
        if self.class_refs.len() > n {
            self.journal.push(Category::ClassRefs);
        }
        proof {
            if fresh {
                self.resolved = Ghost(
                    Resolved { class_refs: pre.resolved.class_refs.push(tree), ..pre.resolved },
                );
                lemma_within_own_frame(&pre);
                lemma_class_ref_fits(
                    &pre,
                    &sized(pre.sizes(), pre.class_defs, pre.main_module),
                    &w,
                );
                assert(self@.journal.take(pre.journal.len() as int) =~= pre.journal);
                lemma_journal_push(&pre, &self@, Category::ClassRefs);
                lemma_class_ref_stable(&pre, &self@, &w);
                lemma_growth(&pre, &self@);
            }
        }
        ClassRefIdx(h)
    }

    /// The value behind a handle.
    pub fn class_ref(&self, h: ClassRefIdx) -> (r: &ClassRef)
        requires
            self@.has_class_ref(h),
        ensures
            *r == self@.class_refs[h.0 as int],
    {
        self.class_refs.get(h.0)
    }

    /// Interns a signature: returns the handle of the equal value already held, or
    /// stores the value and returns its new handle.
    pub fn alloc_sig(&mut self, v: FnSig) -> (r: SigIdx)
        requires
            old(self).wf(),
            old(self)@.sig_ok(&v),
        ensures
            final(self).wf(),
            final(self)@.extends(&old(self)@),
            final(self)@ == old(self)@.with_sig(v),
            final(self)@.has_sig(r),
            final(self)@.sigs[r.0 as int].alike(&v),
            final(self)@.sig_tree(r) == old(self)@.resolve_sig(&v),
            holds(old(self)@.sigs, &v) || r.0 == old(self)@.sigs.len(),
    {
        let ghost pre = self@;
        let ghost tree = pre.resolve_sig(&v);
        let ghost fresh = !holds(pre.sigs, &v);
        let ghost w = v;
        let n = self.sigs.len();
        let h = self.sigs.insert(v);
        if self.sigs.len() > n {
            self.journal.push(Category::Sigs);
        }
        proof {
            if fresh {
                self.resolved = Ghost(
                    Resolved { sigs: pre.resolved.sigs.push(tree), ..pre.resolved },
                );
                lemma_within_own_frame(&pre);
                lemma_sig_fits(
                    &pre,
                    &sized(pre.sizes(), pre.class_defs, pre.main_module),
                    &w,
                );
                assert(self@.journal.take(pre.journal.len() as int) =~= pre.journal);
                lemma_journal_push(&pre, &self@, Category::Sigs);
                lemma_sig_stable(&pre, &self@, &w);
                lemma_growth(&pre, &self@);
            }
        }
        SigIdx(h)
    }

    /// The value behind a handle.
    pub fn get_sig(&self, h: SigIdx) -> (r: &FnSig)
        requires
            self@.has_sig(h),
        ensures
            *r == self@.sigs[h.0 as int],
    {
        self.sigs.get(h.0)
    }

    /// Interns a field descriptor: returns the handle of the equal value already held, or
    /// stores the value and returns its new handle.
    pub fn alloc_field(&mut self, v: FieldDesc) -> (r: FieldIdx)
        requires
            old(self).wf(),
            old(self)@.field_ok(&v),
        ensures
            final(self).wf(),
            final(self)@.extends(&old(self)@),
            final(self)@ == old(self)@.with_field(v),
            final(self)@.has_field(r),
            final(self)@.fields[r.0 as int].alike(&v),
            final(self)@.field_tree(r) == old(self)@.resolve_field(&v),
            holds(old(self)@.fields, &v) || r.0 == old(self)@.fields.len(),
    {
        let ghost pre = self@;
        let ghost tree = pre.resolve_field(&v);
        let ghost fresh = !holds(pre.fields, &v);
        let ghost w = v;
        let n = self.fields.len();
        let h = self.fields.insert(v);
        if self.fields.len() > n {
            self.journal.push(Category::Fields);
        }
        proof {
            if fresh {
                self.resolved = Ghost(
                    Resolved { fields: pre.resolved.fields.push(tree), ..pre.resolved },
                );
                lemma_within_own_frame(&pre);
                lemma_field_fits(
                    &pre,
                    &sized(pre.sizes(), pre.class_defs, pre.main_module),
                    &w,
                );
                assert(self@.journal.take(pre.journal.len() as int) =~= pre.journal);
                lemma_journal_push(&pre, &self@, Category::Fields);
                lemma_field_stable(&pre, &self@, &w);
                lemma_growth(&pre, &self@);
            }
        }
        FieldIdx(h)
    }

    /// The value behind a handle.
    pub fn get_field(&self, h: FieldIdx) -> (r: &FieldDesc)
        requires
            self@.has_field(h),
        ensures
            *r == self@.fields[h.0 as int],
    {
        self.fields.get(h.0)
    }

    /// Interns a static-field descriptor: returns the handle of the equal value already held, or
    /// stores the value and returns its new handle.
    pub fn alloc_sfld(&mut self, v: StaticFieldDesc) -> (r: StaticFieldIdx)
        requires
            old(self).wf(),
            old(self)@.static_ok(&v),
        ensures
            final(self).wf(),
            final(self)@.extends(&old(self)@),
            final(self)@ == old(self)@.with_static(v),
            final(self)@.has_static(r),
            final(self)@.statics[r.0 as int].alike(&v),
            final(self)@.static_tree(r) == old(self)@.resolve_static(&v),
            holds(old(self)@.statics, &v) || r.0 == old(self)@.statics.len(),
    {
        let ghost pre = self@;
        let ghost tree = pre.resolve_static(&v);
        let ghost fresh = !holds(pre.statics, &v);
        let ghost w = v;
        let n = self.statics.len();
        let h = self.statics.insert(v);
        if self.statics.len() > n {
            self.journal.push(Category::StaticFields);
        }
        proof {
            if fresh {
                self.resolved = Ghost(
                    Resolved { statics: pre.resolved.statics.push(tree), ..pre.resolved },
                );
                lemma_within_own_frame(&pre);
                lemma_static_fits(
                    &pre,
                    &sized(pre.sizes(), pre.class_defs, pre.main_module),
                    &w,
                );
                assert(self@.journal.take(pre.journal.len() as int) =~= pre.journal);
                lemma_journal_push(&pre, &self@, Category::StaticFields);
                lemma_static_stable(&pre, &self@, &w);
                lemma_growth(&pre, &self@);
            }
        }
        StaticFieldIdx(h)
    }

    /// The value behind a handle.
    pub fn get_static_field(&self, h: StaticFieldIdx) -> (r: &StaticFieldDesc)
        requires
            self@.has_static(h),
        ensures
            *r == self@.statics[h.0 as int],
    {
        self.statics.get(h.0)
    }

    /// Interns a method reference: returns the handle of the equal value already held, or
    /// stores the value and returns its new handle.
    pub fn alloc_methodref(&mut self, v: MethodRef) -> (r: MethodRefIdx)
        requires
            old(self).wf(),
            old(self)@.method_ref_ok(&v),
        ensures
            final(self).wf(),
            final(self)@.extends(&old(self)@),
            final(self)@ == old(self)@.with_method_ref(v),
            final(self)@.has_method_ref(r),
            final(self)@.method_refs[r.0 as int].alike(&v),
            final(self)@.method_ref_tree(r) == old(self)@.resolve_method_ref(&v),
            holds(old(self)@.method_refs, &v) || r.0 == old(self)@.method_refs.len(),
    {
        let ghost pre = self@;
        let ghost tree = pre.resolve_method_ref(&v);
        let ghost fresh = !holds(pre.method_refs, &v);
        let ghost w = v;
        let n = self.method_refs.len();
        let h = self.method_refs.insert(v);
        if self.method_refs.len() > n {
            self.journal.push(Category::MethodRefs);
        }
        proof {
            if fresh {
                self.resolved = Ghost(
                    Resolved { method_refs: pre.resolved.method_refs.push(tree), ..pre.resolved },
                );
                lemma_within_own_frame(&pre);
                lemma_method_ref_fits(
                    &pre,
                    &sized(pre.sizes(), pre.class_defs, pre.main_module),
                    &w,
                );
                assert(self@.journal.take(pre.journal.len() as int) =~= pre.journal);
                lemma_journal_push(&pre, &self@, Category::MethodRefs);
                lemma_method_ref_stable(&pre, &self@, &w);
                lemma_growth(&pre, &self@);
            }
        }
        MethodRefIdx(h)
    }

    /// The value behind a handle.
    pub fn get_mref(&self, h: MethodRefIdx) -> (r: &MethodRef)
        requires
            self@.has_method_ref(h),
        ensures
            *r == self@.method_refs[h.0 as int],
    {
        self.method_refs.get(h.0)
    }

    /// Interns a node: returns the handle of the equal value already held, or
    /// stores the value and returns its new handle.
    pub fn alloc_node(&mut self, v: CILNode) -> (r: NodeIdx)
        requires
            old(self).wf(),
            old(self)@.node_ok(&v),
        ensures
            final(self).wf(),
            final(self)@.extends(&old(self)@),
            final(self)@ == old(self)@.with_node(v),
            final(self)@.has_node(r),
            final(self)@.nodes[r.0 as int].alike(&v),
            final(self)@.node_tree(r) == old(self)@.resolve_node(&v),
            holds(old(self)@.nodes, &v) || r.0 == old(self)@.nodes.len(),
    {
        let ghost pre = self@;
        let ghost tree = pre.resolve_node(&v);
        let ghost fresh = !holds(pre.nodes, &v);
        let ghost w = v;
        let n = self.nodes.len();
        let h = self.nodes.insert(v);
        if self.nodes.len() > n {
            self.journal.push(Category::Nodes);
        }
        proof {
            if fresh {
                self.resolved = Ghost(
                    Resolved { nodes: pre.resolved.nodes.push(tree), ..pre.resolved },
                );
                lemma_within_own_frame(&pre);
                lemma_node_fits(
                    &pre,
                    &sized(pre.sizes(), pre.class_defs, pre.main_module),
                    &w,
                );
                assert(self@.journal.take(pre.journal.len() as int) =~= pre.journal);
                lemma_journal_push(&pre, &self@, Category::Nodes);
                lemma_node_stable(&pre, &self@, &w);
                lemma_growth(&pre, &self@);
            }
        }
        NodeIdx(h)
    }

    /// The value behind a handle.
    pub fn get_node(&self, h: NodeIdx) -> (r: &CILNode)
        requires
            self@.has_node(h),
        ensures
            *r == self@.nodes[h.0 as int],
    {
        self.nodes.get(h.0)
    }

    /// Interns a root: returns the handle of the equal value already held, or
    /// stores the value and returns its new handle.
    pub fn alloc_root(&mut self, v: CILRoot) -> (r: RootIdx)
        requires
            old(self).wf(),
            old(self)@.root_ok(&v),
        ensures
            final(self).wf(),
            final(self)@.extends(&old(self)@),
            final(self)@ == old(self)@.with_root(v),
            final(self)@.has_root(r),
            final(self)@.roots[r.0 as int].alike(&v),
            final(self)@.root_tree(r) == old(self)@.resolve_root(&v),
            holds(old(self)@.roots, &v) || r.0 == old(self)@.roots.len(),
    {
        let ghost pre = self@;
        let ghost tree = pre.resolve_root(&v);
        let ghost fresh = !holds(pre.roots, &v);
        let ghost w = v;
        let n = self.roots.len();
        let h = self.roots.insert(v);
        if self.roots.len() > n {
            self.journal.push(Category::Roots);
        }
        proof {
            if fresh {
                self.resolved = Ghost(
                    Resolved { roots: pre.resolved.roots.push(tree), ..pre.resolved },
                );
                lemma_within_own_frame(&pre);
                lemma_root_fits(
                    &pre,
                    &sized(pre.sizes(), pre.class_defs, pre.main_module),
                    &w,
                );
                assert(self@.journal.take(pre.journal.len() as int) =~= pre.journal);
                lemma_journal_push(&pre, &self@, Category::Roots);
                lemma_root_stable(&pre, &self@, &w);
                lemma_growth(&pre, &self@);
            }
        }
        RootIdx(h)
    }

    /// The value behind a handle.
    pub fn get_root(&self, h: RootIdx) -> (r: &CILRoot)
        requires
            self@.has_root(h),
        ensures
            *r == self@.roots[h.0 as int],
    {
        self.roots.get(h.0)
    }

    /// Registers a method definition: returns the handle of the equal
    /// definition already held, or stores the definition and returns its new
    /// handle.
    pub fn new_method(&mut self, v: MethodDef) -> (r: MethodDefIdx)
        requires
            old(self).wf(),
            old(self)@.method_def_ok(&v),
        ensures
            final(self).wf(),
            final(self)@.extends(&old(self)@),
            final(self)@ == old(self)@.with_method_def(v),
            final(self)@.has_method_def(r),
            final(self)@.method_defs[r.0 as int].alike(&v),
            final(self)@.method_def_tree(r) == old(self)@.resolve_method_def(&v),
            holds(old(self)@.method_defs, &v) || r.0 == old(self)@.method_defs.len(),
    {
        let ghost pre = self@;
        let ghost tree = pre.resolve_method_def(&v);
        let ghost fresh = !holds(pre.method_defs, &v);
        let ghost w = v;
        let n = self.method_defs.len();
        let h = self.method_defs.insert(v);
        if self.method_defs.len() > n {
            self.journal.push(Category::MethodDefs);
        }
        proof {
            if fresh {
                self.resolved = Ghost(
                    Resolved { method_defs: pre.resolved.method_defs.push(tree), ..pre.resolved },
                );
                lemma_within_own_frame(&pre);
                lemma_method_def_fits(
                    &pre,
                    &sized(pre.sizes(), pre.class_defs, pre.main_module),
                    &w,
                );
                assert(self@.journal.take(pre.journal.len() as int) =~= pre.journal);
                lemma_journal_push(&pre, &self@, Category::MethodDefs);
                lemma_method_def_stable(&pre, &self@, &w);
                lemma_growth(&pre, &self@);
            } else {
                lemma_method_def_congruent(&pre, &pre.method_defs[h as int], &w);
            }
        }
        MethodDefIdx(h)
    }

    /// The value behind a handle.
    pub fn method_def(&self, h: MethodDefIdx) -> (r: &MethodDef)
        requires
            self@.has_method_def(h),
        ensures
            *r == self@.method_defs[h.0 as int],
    {
        self.method_defs.get(h.0)
    }

    /// The number of strings that the assembly holds: its handles of this
    /// category are the positions below that number.
    pub fn string_count(&self) -> (n: usize)
        ensures
            n == self@.strings.len(),
    {
        self.strings.len()
    }

    /// The number of types that the assembly holds: its handles of this
    /// category are the positions below that number.
    pub fn type_count(&self) -> (n: usize)
        ensures
            n == self@.types.len(),
    {
        self.types.len()
    }

    /// The number of class references that the assembly holds: its handles of this
    /// category are the positions below that number.
    pub fn class_ref_count(&self) -> (n: usize)
        ensures
            n == self@.class_refs.len(),
    {
        self.class_refs.len()
    }

    /// The number of signatures that the assembly holds: its handles of this
    /// category are the positions below that number.
    pub fn sig_count(&self) -> (n: usize)
        ensures
            n == self@.sigs.len(),
    {
        self.sigs.len()
    }

    /// The number of field descriptors that the assembly holds: its handles of this
    /// category are the positions below that number.
    pub fn field_count(&self) -> (n: usize)
        ensures
            n == self@.fields.len(),
    {
        self.fields.len()
    }

    /// The number of static-field descriptors that the assembly holds: its handles of this
    /// category are the positions below that number.
    pub fn static_field_count(&self) -> (n: usize)
        ensures
            n == self@.statics.len(),
    {
        self.statics.len()
    }

    /// The number of method references that the assembly holds: its handles of this
    /// category are the positions below that number.
    pub fn method_ref_count(&self) -> (n: usize)
        ensures
            n == self@.method_refs.len(),
    {
        self.method_refs.len()
    }

    /// The number of nodes that the assembly holds: its handles of this
    /// category are the positions below that number.
    pub fn node_count(&self) -> (n: usize)
        ensures
            n == self@.nodes.len(),
    {
        self.nodes.len()
    }

    /// The number of roots that the assembly holds: its handles of this
    /// category are the positions below that number.
    pub fn root_count(&self) -> (n: usize)
        ensures
            n == self@.roots.len(),
    {
        self.roots.len()
    }

    /// The number of method definitions that the assembly holds: its handles of this
    /// category are the positions below that number.
    pub fn method_def_count(&self) -> (n: usize)
        ensures
            n == self@.method_defs.len(),
    {
        self.method_defs.len()
    }

    /// The journal: the order in which the values were interned, as the list
    /// of the arenas that they went to.
    pub fn journal(&self) -> (r: Vec<Category>)
        ensures
            r@ == self@.journal,
    {
        duplicate_list(&self.journal)
    }

    /// Interns the type of unmanaged pointers to `inner`.
    pub fn nptr(&mut self, inner: Type) -> (r: Type)
        requires
            old(self).wf(),
            old(self)@.type_ok(inner),
        ensures
            final(self).wf(),
            final(self)@.extends(&old(self)@),
            final(self)@ == old(self)@.with_type(inner),
            r is Ptr,
            final(self)@.type_ok(r),
            final(self)@.type_tree(r->Ptr_0) == old(self)@.resolve_type(inner),
    {
        Type::Ptr(self.alloc_type(inner))
    }

    /// Interns the type of managed references to `inner`.
    pub fn nref(&mut self, inner: Type) -> (r: Type)
        requires
            old(self).wf(),
            old(self)@.type_ok(inner),
        ensures
            final(self).wf(),
            final(self)@.extends(&old(self)@),
            final(self)@ == old(self)@.with_type(inner),
            r is Ref,
            final(self)@.type_ok(r),
            final(self)@.type_tree(r->Ref_0) == old(self)@.resolve_type(inner),
    {
        Type::Ref(self.alloc_type(inner))
    }

    /// The main module: the class that owns the routines that belong to no
    /// other class, and the default owner of a call site that names none.
    pub fn main_module(&self) -> (r: ClassDefIdx)
        ensures
            r == ClassDefIdx(self@.main_module),
    {
        ClassDefIdx(self.main_module)
    }

    /// The definition handle of a class reference, where this assembly holds
    /// a definition of the class.
    pub fn class_ref_to_def(&self, class: ClassRefIdx) -> (r: Option<ClassDefIdx>)
        ensures
            r == if self@.has_class_def(ClassDefIdx(class)) {
                Some(ClassDefIdx(class))
            } else {
                None
            },
    {
        if class.0 < self.class_defs.len() {
            match &self.class_defs[class.0] {
                Some(_) => Some(ClassDefIdx(class)),
                None => None,
            }
        } else {
            None
        }
    }

    /// Defines a class: interns the class reference that the definition is
    /// for (its name and kind, no owning module, no generic arguments) and
    /// stores the definition under it. A definition stored there before is
    /// replaced; all other definitions stay.
    pub fn class_def(&mut self, def: ClassDef) -> (r: ClassDefIdx)
        requires
            old(self).wf(),
            old(self)@.class_def_ok(&def),
        ensures
            final(self).wf(),
            final(self)@.extends(&old(self)@),
            final(self)@.has_class_ref(r.0),
            final(self)@.has_class_def(r),
            final(self)@.class_def_of(r) == def,
            final(self)@.class_tree(r.0) == (ResolvedClassRef {
                name: old(self)@.string_of(def.name),
                module: None,
                is_valuetype: def.is_valuetype,
                generics: Seq::empty(),
            }),
            final(self)@.resolve_class_def(&def) == old(self)@.resolve_class_def(&def),
            final(self)@ == (Contents {
                class_refs: final(self)@.class_refs,
                class_defs: final(self)@.class_defs,
                journal: final(self)@.journal,
                resolved: Resolved {
                    class_refs: final(self)@.resolved.class_refs,
                    ..old(self)@.resolved
                },
                ..old(self)@
            }),
            own_ref(&final(self)@.class_refs[r.0.0 as int], &def),
            old(self)@.holds_own_ref(&def) ==> final(self)@.class_refs == old(self)@.class_refs
                && final(self)@.journal == old(self)@.journal,
            !old(self)@.holds_own_ref(&def) ==> final(self)@.class_refs.len() == old(
                self,
            )@.class_refs.len() + 1 && r.0.0 == old(self)@.class_refs.len()
                && final(self)@.journal == old(self)@.journal.push(Category::ClassRefs),
            final(self)@.class_defs.len() == if r.0.0 < old(self)@.class_defs.len() {
                old(self)@.class_defs.len() as int
            } else {
                r.0.0 + 1
            },
            forall|i: int|
                0 <= i < final(self)@.class_defs.len() && i != r.0.0
                    ==> #[trigger] final(self)@.class_defs[i] == if i < old(
                    self,
                )@.class_defs.len() {
                    old(self)@.class_defs[i]
                } else {
                    None
                },
    {
        let ghost pre = self@;
        let own = ClassRef::new(def.name(), None, def.is_valuetype(), Vec::new());
        proof {
            if pre.holds_own_ref(&def) {
                let i = choose|i: int|
                    0 <= i < pre.class_refs.len() && own_ref(#[trigger] &pre.class_refs[i], &def);
                assert(pre.class_refs[i].generics@ =~= own.generics@);
                assert(pre.class_refs[i].alike(&own));
            }
            if holds(pre.class_refs, &own) {
                let i = choose|i: int|
                    0 <= i < pre.class_refs.len() && (#[trigger] pre.class_refs[i]).alike(&own);
                assert(own_ref(&pre.class_refs[i], &def));
            }
        }
        let cref = self.alloc_class_ref(own);
        let ghost mid = self@;
        proof {
            assert(mid.class_tree(cref).generics =~= Seq::empty());
        }
        while self.class_defs.len() <= cref.0
            invariant
                self.indexed(),
                self@ == (Contents { class_defs: self@.class_defs, ..mid }),
                mid.class_defs.len() <= self@.class_defs.len() <= mid.class_refs.len(),
                self@.class_defs.len() == mid.class_defs.len() || self@.class_defs.len() <= cref.0
                    + 1,
                cref.0 < mid.class_refs.len(),
                forall|i: int|
                    0 <= i < mid.class_defs.len() ==> self@.class_defs[i] == mid.class_defs[i],
                forall|i: int|
                    mid.class_defs.len() <= i < self@.class_defs.len() ==> self@.class_defs[i]
                        is None,
            decreases cref.0 + 1 - self.class_defs.len(),
        {
            self.class_defs.push(None);
        }
        let ghost w = def;
        self.class_defs[cref.0] = Some(def);
        proof {
            let new = self@;
            assert(new.extends(&mid));
            lemma_grounded(&mid, &new);
            lemma_journal_redefine(&mid, &new);
            lemma_class_def_stable(&pre, &mid, &w);
            lemma_class_def_stable(&mid, &new, &w);
            assert forall|i: int|
                0 <= i < new.class_defs.len() && (#[trigger] new.class_defs[i]) is Some implies new.slot_ok(
                i,
            ) by {
                if i != cref.0 {
                    assert(mid.slot_ok(i));
                    lemma_class_def_stable(&mid, &new, &mid.class_defs[i]->0);
                }
            }
            assert(new.has_class_def(ClassDefIdx(new.main_module))) by {
                assert(mid.has_class_def(ClassDefIdx(mid.main_module)));
            }
        }
        ClassDefIdx(cref)
    }

    /// The definition of a class.
    pub fn get_class_def(&self, h: ClassDefIdx) -> (r: &ClassDef)
        requires
            self@.has_class_def(h),
        ensures
            *r == self@.class_def_of(h),
    {
        self.class_defs[h.0.0].as_ref().unwrap()
    }
}

} // verus!
