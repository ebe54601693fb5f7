//! Linking of method and class definitions.

use crate::assembly::Assembly;
use crate::handles::{ClassDefIdx, ClassRefIdx, MethodDefIdx, StringIdx, TypeIdx};
use crate::known::{lemma_method_def_held, lemma_method_def_tree_known};
use crate::method::{ClassDef, MethodDef, MethodImpl};
use crate::stability::{
    lemma_blocks_stable, lemma_class_fields_stable, lemma_class_statics_stable,
    lemma_defines_owners_stable, lemma_defines_stable, lemma_locals_stable,
    lemma_method_defs_stable, lemma_method_impl_stable, lemma_names_stable, lemma_type_stable,
};
use crate::tpe::Type;
use crate::unique::lemma_class_ref_unique;
use vstd::prelude::*;

verus! {

impl Assembly {
    /// Copies the table of local variables of a method body of `source`
    /// into this assembly.
    pub fn relocate_locals(
        &mut self,
        source: &Assembly,
        locals: &Vec<(Option<StringIdx>, TypeIdx)>,
    ) -> (r: Vec<(Option<StringIdx>, TypeIdx)>)
        requires
            old(self).wf(),
            source.wf(),
            source@.locals_ok(locals@),
        ensures
            final(self).wf(),
            final(self)@.extends(&old(self)@),
            final(self)@.locals_ok(r@),
            final(self)@.resolve_locals(r@) == source@.resolve_locals(locals@),
            old(self)@.knows_locals(source@.resolve_locals(locals@)) ==> final(self)@ == old(self)@,
    {
        let mut r: Vec<(Option<StringIdx>, TypeIdx)> = Vec::new();
        let mut i: usize = 0;
        while i < locals.len()
            invariant
                old(self)@.knows_locals(source@.resolve_locals(locals@)) ==> self@ == old(self)@,
                self.wf(),
                source.wf(),
                source@.locals_ok(locals@),
                self@.extends(&old(self)@),
                i <= locals.len(),
                r@.len() == i,
                self@.locals_ok(r@),
                forall|k: int|
                    0 <= k < i ==> self@.string_opt((#[trigger] r@[k]).0) == source@.string_opt(
                        locals@[k].0,
                    ) && self@.type_tree(r@[k].1) == source@.type_tree(locals@[k].1),
            decreases locals.len() - i,
        {
            let ghost mid = self@;
            proof {
                if old(self)@.knows_locals(source@.resolve_locals(locals@)) {
                    assert(source@.resolve_locals(locals@)[i as int] == (
                        source@.string_opt(locals@[i as int].0),
                        source@.type_tree(locals@[i as int].1),
                    ));
                    assert(old(self)@.holds_string_opt(source@.resolve_locals(locals@)[i as int].0));
                }
            }
            proof {
                assert(source@.string_opt_ok(locals@[i as int].0));
            }
            let tpe = self.relocate_type(source, locals[i].1);
            let name = self.relocate_string_opt(source, locals[i].0);
            proof {
                lemma_locals_stable(&mid, &self@, r@);
                assert forall|k: int| 0 <= k < i implies self@.string_opt((#[trigger] r@[k]).0)
                    == source@.string_opt(locals@[k].0) && self@.type_tree(r@[k].1)
                    == source@.type_tree(locals@[k].1) by {
                    assert(mid.resolve_locals(r@)[k] == self@.resolve_locals(r@)[k]);
                }
            }
            r.push((name, tpe));
            i += 1;
        }
        proof {
            assert(self@.resolve_locals(r@) =~= source@.resolve_locals(locals@));
        }
        r
    }

    /// Interns in this assembly the strings behind a list of optional
    /// handles of `source`.
    pub fn relocate_names(&mut self, source: &Assembly, names: &Vec<Option<StringIdx>>) -> (r: Vec<
        Option<StringIdx>,
    >)
        requires
            old(self).wf(),
            source.wf(),
            source@.names_ok(names@),
        ensures
            final(self).wf(),
            final(self)@.extends(&old(self)@),
            final(self)@.names_ok(r@),
            final(self)@.resolve_names(r@) == source@.resolve_names(names@),
            old(self)@.knows_names(source@.resolve_names(names@)) ==> final(self)@ == old(self)@,
    {
        let mut r: Vec<Option<StringIdx>> = Vec::new();
        let mut i: usize = 0;
        while i < names.len()
            invariant
                old(self)@.knows_names(source@.resolve_names(names@)) ==> self@ == old(self)@,
                self.wf(),
                source.wf(),
                source@.names_ok(names@),
                self@.extends(&old(self)@),
                i <= names.len(),
                r@.len() == i,
                self@.names_ok(r@),
                forall|k: int|
                    0 <= k < i ==> self@.string_opt(#[trigger] r@[k]) == source@.string_opt(
                        names@[k],
                    ),
            decreases names.len() - i,
        {
            let ghost mid = self@;
            proof {
                if old(self)@.knows_names(source@.resolve_names(names@)) {
                    assert(source@.resolve_names(names@)[i as int] == source@.string_opt(names@[i as int]));
                    assert(old(self)@.holds_string_opt(source@.resolve_names(names@)[i as int]));
                }
            }
            let name = self.relocate_string_opt(source, names[i]);
            proof {
                lemma_names_stable(&mid, &self@, r@);
                assert forall|k: int| 0 <= k < i implies self@.string_opt(#[trigger] r@[k])
                    == source@.string_opt(names@[k]) by {
                    assert(mid.resolve_names(r@)[k] == self@.resolve_names(r@)[k]);
                }
            }
            r.push(name);
            i += 1;
        }
        proof {
            assert(self@.resolve_names(r@) =~= source@.resolve_names(names@));
        }
        r
    }

    /// Copies the implementation of a method of `source` into this
    /// assembly.
    pub fn translate_method_impl(&mut self, source: &Assembly, implementation: &MethodImpl) -> (r:
        MethodImpl)
        requires
            old(self).wf(),
            source.wf(),
            source@.method_impl_ok(implementation),
        ensures
            final(self).wf(),
            final(self)@.extends(&old(self)@),
            final(self)@.method_impl_ok(&r),
            final(self)@.resolve_method_impl(&r) == source@.resolve_method_impl(implementation),
            old(self)@.knows_method_impl(source@.resolve_method_impl(implementation))
                ==> final(self)@ == old(self)@,
    {
        match implementation {
            MethodImpl::MethodBody { blocks, locals } => {
                let blocks = self.translate_blocks(source, blocks);
                let ghost mid = self@;
                let locals = self.relocate_locals(source, locals);
                proof {
                    lemma_blocks_stable(&mid, &self@, blocks@);
                }
                MethodImpl::MethodBody { blocks, locals }
            },
            MethodImpl::Extern { lib, preserve_errno } => {
                let lib = self.relocate_string(source, *lib);
                MethodImpl::Extern { lib, preserve_errno: *preserve_errno }
            },
            MethodImpl::AliasFor(mref) => {
                let mref = self.relocate_method_ref(source, *mref);
                MethodImpl::AliasFor(mref)
            },
            MethodImpl::Missing => MethodImpl::Missing,
        }
    }

    /// Copies a method definition of `source` into this assembly. The class
    /// that owns the method is copied first and resolved to its definition
    /// here, so this assembly must already define that class; the name, the
    /// signature, the implementation and the names of the arguments follow.
    pub fn translate_method_def(&mut self, source: &Assembly, def: &MethodDef) -> (r: MethodDef)
        requires
            old(self).wf(),
            source.wf(),
            source@.method_def_ok(def),
            old(self)@.defines(source@.class_tree(def.class.0)),
        ensures
            final(self).wf(),
            final(self)@.extends(&old(self)@),
            final(self)@.method_def_ok(&r),
            final(self)@.resolve_method_def(&r) == source@.resolve_method_def(def),
            old(self)@.knows_method_def(source@.resolve_method_def(def))
                ==> final(self)@ == old(self)@,
    {
        let ghost pre = self@;
        let class = self.translate_class_ref(source, def.class().as_class_ref());
        proof {
            let t = source@.class_tree(def.class.0);
            lemma_defines_stable(&pre, &self@, t);
            let c = choose|c: ClassRefIdx|
                self@.has_class_ref(c) && #[trigger] self@.has_class_def(ClassDefIdx(c))
                    && self@.class_tree(c) == t;
            lemma_class_ref_unique(&self@, class, c);
        }
        let class = self.class_ref_to_def(class).unwrap();
        let name = self.relocate_string(source, def.name());
        let sig = self.relocate_sig(source, def.sig());
        let implementation = self.translate_method_impl(source, def.implementation());
        let ghost mid = self@;
        let arg_names = self.relocate_names(source, def.arg_names());
        proof {
            lemma_method_impl_stable(&mid, &self@, &implementation);
            assert(self@.class_defs[class.0.0 as int] is Some);
        }
        MethodDef::new(*def.access(), class, name, sig, def.kind(), implementation, arg_names)
    }

    /// Copies the method definition behind a handle of `source` into this
    /// assembly and registers the copy.
    pub fn relocate_method_def(&mut self, source: &Assembly, h: MethodDefIdx) -> (r: MethodDefIdx)
        requires
            old(self).wf(),
            source.wf(),
            source@.has_method_def(h),
            old(self)@.defines(source@.method_def_tree(h).class),
        ensures
            final(self).wf(),
            final(self)@.extends(&old(self)@),
            final(self)@.has_method_def(r),
            final(self)@.method_def_tree(r) == source@.method_def_tree(h),
            old(self)@.holds_method_def_tree(source@.method_def_tree(h))
                ==> final(self)@ == old(self)@,
    {
        let ghost pre = self@;
        proof {
            if pre.holds_method_def_tree(source@.method_def_tree(h)) {
                let k = choose|k: MethodDefIdx|
                    pre.has_method_def(k) && #[trigger] pre.method_def_tree(k)
                        == source@.method_def_tree(h);
                lemma_method_def_tree_known(&pre, k);
            }
        }
        let def = source.method_def(h);
        let def = self.translate_method_def(source, def);
        proof {
            if pre.holds_method_def_tree(source@.method_def_tree(h)) {
                let k = choose|k: MethodDefIdx|
                    pre.has_method_def(k) && #[trigger] pre.method_def_tree(k)
                        == source@.method_def_tree(h);
                lemma_method_def_held(&pre, &def, k);
            }
        }
        self.new_method(def)
    }

    /// Copies the method definitions behind a list of handles of `source`
    /// into this assembly and registers the copies, keeping their order.
    pub fn relocate_method_defs(&mut self, source: &Assembly, methods: &Vec<MethodDefIdx>) -> (r:
        Vec<MethodDefIdx>)
        requires
            old(self).wf(),
            source.wf(),
            source@.method_defs_ok(methods@),
            old(self)@.defines_owners(&source@, methods@),
        ensures
            final(self).wf(),
            final(self)@.extends(&old(self)@),
            final(self)@.method_defs_ok(r@),
            final(self)@.method_def_trees(r@) == source@.method_def_trees(methods@),
            old(self)@.holds_method_def_trees(source@.method_def_trees(methods@))
                ==> final(self)@ == old(self)@,
    {
        let mut r: Vec<MethodDefIdx> = Vec::new();
        let mut i: usize = 0;
        while i < methods.len()
            invariant
                old(self)@.holds_method_def_trees(source@.method_def_trees(methods@))
                    ==> self@ == old(self)@,
                self.wf(),
                source.wf(),
                source@.method_defs_ok(methods@),
                self@.defines_owners(&source@, methods@),
                self@.extends(&old(self)@),
                i <= methods.len(),
                r@.len() == i,
                self@.method_defs_ok(r@),
                forall|k: int|
                    0 <= k < i ==> self@.method_def_tree(#[trigger] r@[k])
                        == source@.method_def_tree(methods@[k]),
            decreases methods.len() - i,
        {
            let ghost mid = self@;
            proof {
                if old(self)@.holds_method_def_trees(source@.method_def_trees(methods@)) {
                    assert(source@.method_def_trees(methods@)[i as int] == source@.method_def_tree(
                        methods@[i as int],
                    ));
                    assert(old(self)@.holds_method_def_tree(
                        source@.method_def_trees(methods@)[i as int],
                    ));
                }
            }
            let m = self.relocate_method_def(source, methods[i]);
            proof {
                lemma_method_defs_stable(&mid, &self@, r@);
                lemma_defines_owners_stable(&mid, &self@, &source@, methods@);
                assert forall|k: int| 0 <= k < i implies self@.method_def_tree(#[trigger] r@[k])
                    == source@.method_def_tree(methods@[k]) by {
                    assert(mid.method_def_trees(r@)[k] == self@.method_def_trees(r@)[k]);
                }
            }
            r.push(m);
            i += 1;
        }
        proof {
            assert(self@.method_def_trees(r@) =~= source@.method_def_trees(methods@));
        }
        r
    }

    /// Copies the fields of a class definition of `source` into this
    /// assembly: each field keeps its own name and offset.
    pub fn translate_class_fields(
        &mut self,
        source: &Assembly,
        fields: &Vec<(Type, StringIdx, Option<u32>)>,
    ) -> (r: Vec<(Type, StringIdx, Option<u32>)>)
        requires
            old(self).wf(),
            source.wf(),
            source@.class_fields_ok(fields@),
        ensures
            final(self).wf(),
            final(self)@.extends(&old(self)@),
            final(self)@.class_fields_ok(r@),
            final(self)@.resolve_class_fields(r@) == source@.resolve_class_fields(fields@),
            old(self)@.knows_class_fields(source@.resolve_class_fields(fields@))
                ==> final(self)@ == old(self)@,
    {
        let mut r: Vec<(Type, StringIdx, Option<u32>)> = Vec::new();
        let mut i: usize = 0;
        while i < fields.len()
            invariant
                old(self)@.knows_class_fields(source@.resolve_class_fields(fields@))
                    ==> self@ == old(self)@,
                self.wf(),
                source.wf(),
                source@.class_fields_ok(fields@),
                self@.extends(&old(self)@),
                i <= fields.len(),
                r@.len() == i,
                self@.class_fields_ok(r@),
                forall|k: int|
                    0 <= k < i ==> self@.resolve_type((#[trigger] r@[k]).0)
                        == source@.resolve_type(fields@[k].0) && self@.string_of(r@[k].1)
                        == source@.string_of(fields@[k].1) && r@[k].2 == fields@[k].2,
            decreases fields.len() - i,
        {
            let ghost mid = self@;
            proof {
                if old(self)@.knows_class_fields(source@.resolve_class_fields(fields@)) {
                    assert(source@.resolve_class_fields(fields@)[i as int] == (
                        source@.resolve_type(fields@[i as int].0),
                        source@.string_of(fields@[i as int].1),
                        fields@[i as int].2,
                    ));
                    assert(old(self)@.knows_type(source@.resolve_class_fields(fields@)[i as int].0));
                }
            }
            proof {
                assert(source@.type_ok(fields@[i as int].0));
            }
            let tpe = self.translate_type(source, fields[i].0);
            let ghost mid2 = self@;
            let name = self.relocate_string(source, fields[i].1);
            proof {
                lemma_type_stable(&mid2, &self@, tpe);
                lemma_class_fields_stable(&mid, &self@, r@);
                assert forall|k: int| 0 <= k < i implies self@.resolve_type((#[trigger] r@[k]).0)
                    == source@.resolve_type(fields@[k].0) && self@.string_of(r@[k].1)
                    == source@.string_of(fields@[k].1) && r@[k].2 == fields@[k].2 by {
                    assert(mid.resolve_class_fields(r@)[k] == self@.resolve_class_fields(r@)[k]);
                }
            }
            r.push((tpe, name, fields[i].2));
            i += 1;
        }
        proof {
            assert(self@.resolve_class_fields(r@) =~= source@.resolve_class_fields(fields@));
        }
        r
    }

    /// Copies the static fields of a class definition of `source` into this
    /// assembly: each field keeps its own name and thread-local flag.
    pub fn translate_class_statics(
        &mut self,
        source: &Assembly,
        fields: &Vec<(Type, StringIdx, bool)>,
    ) -> (r: Vec<(Type, StringIdx, bool)>)
        requires
            old(self).wf(),
            source.wf(),
            source@.class_statics_ok(fields@),
        ensures
            final(self).wf(),
            final(self)@.extends(&old(self)@),
            final(self)@.class_statics_ok(r@),
            final(self)@.resolve_class_statics(r@) == source@.resolve_class_statics(fields@),
            old(self)@.knows_class_statics(source@.resolve_class_statics(fields@))
                ==> final(self)@ == old(self)@,
    {
        let mut r: Vec<(Type, StringIdx, bool)> = Vec::new();
        let mut i: usize = 0;
        while i < fields.len()
            invariant
                old(self)@.knows_class_statics(source@.resolve_class_statics(fields@))
                    ==> self@ == old(self)@,
                self.wf(),
                source.wf(),
                source@.class_statics_ok(fields@),
                self@.extends(&old(self)@),
                i <= fields.len(),
                r@.len() == i,
                self@.class_statics_ok(r@),
                forall|k: int|
                    0 <= k < i ==> self@.resolve_type((#[trigger] r@[k]).0)
                        == source@.resolve_type(fields@[k].0) && self@.string_of(r@[k].1)
                        == source@.string_of(fields@[k].1) && r@[k].2 == fields@[k].2,
            decreases fields.len() - i,
        {
            let ghost mid = self@;
            proof {
                if old(self)@.knows_class_statics(source@.resolve_class_statics(fields@)) {
                    assert(source@.resolve_class_statics(fields@)[i as int] == (
                        source@.resolve_type(fields@[i as int].0),
                        source@.string_of(fields@[i as int].1),
                        fields@[i as int].2,
                    ));
                    assert(old(self)@.knows_type(source@.resolve_class_statics(fields@)[i as int].0));
                }
            }
            proof {
                assert(source@.type_ok(fields@[i as int].0));
            }
            let tpe = self.translate_type(source, fields[i].0);
            let ghost mid2 = self@;
            let name = self.relocate_string(source, fields[i].1);
            proof {
                lemma_type_stable(&mid2, &self@, tpe);
                lemma_class_statics_stable(&mid, &self@, r@);
                assert forall|k: int| 0 <= k < i implies self@.resolve_type((#[trigger] r@[k]).0)
                    == source@.resolve_type(fields@[k].0) && self@.string_of(r@[k].1)
                    == source@.string_of(fields@[k].1) && r@[k].2 == fields@[k].2 by {
                    assert(mid.resolve_class_statics(r@)[k] == self@.resolve_class_statics(r@)[k]);
                }
            }
            r.push((tpe, name, fields[i].2));
            i += 1;
        }
        proof {
            assert(self@.resolve_class_statics(r@) =~= source@.resolve_class_statics(fields@));
        }
        r
    }

    /// Copies a class definition of `source` into this assembly: its name,
    /// its base class, its fields and static fields, and its methods, each
    /// of which is copied and registered here. This assembly must already
    /// define the class of each of those methods.
    pub fn translate_class_def(&mut self, source: &Assembly, def: &ClassDef) -> (r: ClassDef)
        requires
            old(self).wf(),
            source.wf(),
            source@.class_def_ok(def),
            old(self)@.defines_owners(&source@, def.methods@),
        ensures
            final(self).wf(),
            final(self)@.extends(&old(self)@),
            final(self)@.class_def_ok(&r),
            final(self)@.resolve_class_def(&r) == source@.resolve_class_def(def),
            old(self)@.knows_class_def(source@.resolve_class_def(def))
                ==> final(self)@ == old(self)@,
    {
        let ghost pre = self@;
        let name = self.relocate_string(source, def.name());
        let extends = match def.extends() {
            Some(cref) => Some(self.translate_class_ref(source, cref)),
            None => None,
        };
        let fields = self.translate_class_fields(source, def.fields());
        let ghost mid1 = self@;
        let static_fields = self.translate_class_statics(source, def.static_fields());
        let ghost mid2 = self@;
        proof {
            lemma_defines_owners_stable(&pre, &mid2, &source@, def.methods@);
        }
        let methods = self.relocate_method_defs(source, def.methods());
        proof {
            lemma_class_fields_stable(&mid1, &mid2, fields@);
            lemma_class_fields_stable(&mid2, &self@, fields@);
            lemma_class_statics_stable(&mid2, &self@, static_fields@);
        }
        ClassDef::new(
            name,
            def.is_valuetype(),
            def.generics(),
            extends,
            fields,
            static_fields,
            methods,
            *def.access(),
            def.explict_size(),
        )
    }
}

} // verus!
