//! Linking of types, signatures and nominal references.

use crate::arena::Interned;
use crate::assembly::Assembly;
use crate::class_ref::{ClassRef, FieldDesc, MethodRef, StaticFieldDesc};
use crate::handles::{
    ClassRefIdx, FieldIdx, MethodRefIdx, SigIdx, StaticFieldIdx, StringIdx, TypeIdx,
};
use crate::known::{
    lemma_class_held, lemma_class_tree_known, lemma_field_held, lemma_field_tree_known,
    lemma_method_ref_held, lemma_method_ref_tree_known, lemma_sig_held, lemma_sig_tree_known,
    lemma_static_held, lemma_static_tree_known, lemma_type_held, lemma_type_tree_known,
};
use crate::resolved::{lemma_class_ref_parts, lemma_sig_parts, lemma_type_parts};
use crate::stability::{lemma_type_stable, lemma_types_stable};
use crate::tpe::{FnSig, Type};
use vstd::prelude::*;

verus! {

impl Assembly {
    /// Copies a type of `source` into this assembly.
    pub fn translate_type(&mut self, source: &Self, tpe: Type) -> (r: Type)
        requires
            old(self).wf(),
            source.wf(),
            source@.type_ok(tpe),
        ensures
            final(self).wf(),
            final(self)@.extends(&old(self)@),
            final(self)@.type_ok(r),
            final(self)@.resolve_type(r) == source@.resolve_type(tpe),
            old(self)@.knows_type(source@.resolve_type(tpe)) ==> final(self)@ == old(self)@,
        decreases source@.resolve_type(tpe), 0int,
    {
        proof {
            lemma_type_parts(source@.resolve_type(tpe));
        }
        match tpe {
            Type::Ptr(inner) => {
                let inner = self.relocate_type(source, inner);
                Type::Ptr(inner)
            },
            Type::Ref(inner) => {
                let inner = self.relocate_type(source, inner);
                Type::Ref(inner)
            },
            Type::Int(_)
            | Type::Float(_)
            | Type::PlatformString
            | Type::PlatformChar
            | Type::Bool
            | Type::Void
            | Type::PlatformObject
            | Type::PlatformGeneric(_, _) => tpe,
            Type::ClassRef(class_ref) => Type::ClassRef(
                self.translate_class_ref(source, class_ref),
            ),
            Type::PlatformArray { elem, dims } => {
                let elem = self.relocate_type(source, elem);
                Type::PlatformArray { elem, dims }
            },
            Type::FnPtr(sig) => Type::FnPtr(self.relocate_sig(source, sig)),
        }
    }

    /// Copies the type behind a handle of `source` into this assembly and
    /// interns the copy.
    pub fn relocate_type(&mut self, source: &Assembly, h: TypeIdx) -> (r: TypeIdx)
        requires
            old(self).wf(),
            source.wf(),
            source@.has_type(h),
        ensures
            final(self).wf(),
            final(self)@.extends(&old(self)@),
            final(self)@.has_type(r),
            final(self)@.type_tree(r) == source@.type_tree(h),
            old(self)@.holds_type_tree(source@.type_tree(h)) ==> final(self)@ == old(self)@,
        decreases source@.type_tree(h), 1int,
    {
        let ghost pre = self@;
        proof {
            if pre.holds_type_tree(source@.type_tree(h)) {
                let k = choose|k: TypeIdx|
                    pre.has_type(k) && #[trigger] pre.type_tree(k) == source@.type_tree(h);
                lemma_type_tree_known(&pre, k);
            }
        }
        let v = *source.get_type(h);
        let v = self.translate_type(source, v);
        proof {
            if pre.holds_type_tree(source@.type_tree(h)) {
                let k = choose|k: TypeIdx|
                    pre.has_type(k) && #[trigger] pre.type_tree(k) == source@.type_tree(h);
                lemma_type_held(&pre, v, k);
            }
        }
        self.alloc_type(v)
    }

    /// Copies a list of types of `source` into this assembly.
    pub fn translate_types(&mut self, source: &Assembly, types: &Vec<Type>) -> (r: Vec<Type>)
        requires
            old(self).wf(),
            source.wf(),
            source@.types_ok(types@),
        ensures
            final(self).wf(),
            final(self)@.extends(&old(self)@),
            final(self)@.types_ok(r@),
            final(self)@.resolve_types(r@) == source@.resolve_types(types@),
            old(self)@.knows_types(source@.resolve_types(types@)) ==> final(self)@ == old(self)@,
        decreases source@.resolve_types(types@), 0int,
    {
        let mut r: Vec<Type> = Vec::new();
        let mut i: usize = 0;
        while i < types.len()
            invariant
                old(self)@.knows_types(source@.resolve_types(types@)) ==> self@ == old(self)@,
                self.wf(),
                source.wf(),
                source@.types_ok(types@),
                self@.extends(&old(self)@),
                i <= types.len(),
                r@.len() == i,
                self@.types_ok(r@),
                forall|k: int|
                    0 <= k < i ==> self@.resolve_type(#[trigger] r@[k]) == source@.resolve_type(
                        types@[k],
                    ),
            decreases types.len() - i,
        {
            let ghost mid = self@;
            proof {
                if old(self)@.knows_types(source@.resolve_types(types@)) {
                    assert(old(self)@.knows_type(source@.resolve_types(types@)[i as int]));
                }
            }
            proof {
                assert(source@.resolve_types(types@)[i as int] == source@.resolve_type(
                    types@[i as int],
                ));
            }
            let t = self.translate_type(source, types[i]);
            proof {
                lemma_types_stable(&mid, &self@, r@);
                assert forall|k: int| 0 <= k < i implies self@.resolve_type(#[trigger] r@[k])
                    == source@.resolve_type(types@[k]) by {
                    lemma_type_stable(&mid, &self@, r@[k]);
                }
            }
            r.push(t);
            i += 1;
        }
        proof {
            assert(self@.resolve_types(r@) =~= source@.resolve_types(types@));
        }
        r
    }

    /// Copies the class reference behind a handle of `source` into this
    /// assembly and interns the copy. The name and the name of the owning
    /// module are interned before the generic arguments are copied.
    pub fn translate_class_ref(&mut self, source: &Assembly, class_ref: ClassRefIdx) -> (r:
        ClassRefIdx)
        requires
            old(self).wf(),
            source.wf(),
            source@.has_class_ref(class_ref),
        ensures
            final(self).wf(),
            final(self)@.extends(&old(self)@),
            final(self)@.has_class_ref(r),
            final(self)@.class_tree(r) == source@.class_tree(class_ref),
            old(self)@.holds_class_tree(source@.class_tree(class_ref)) ==> final(self)@ == old(self)@,
        decreases source@.class_tree(class_ref), 0int,
    {
        let ghost pre = self@;
        let ghost tree = source@.class_tree(class_ref);
        proof {
            lemma_class_ref_parts(tree);
            if pre.holds_class_tree(tree) {
                let k = choose|k: ClassRefIdx|
                    pre.has_class_ref(k) && #[trigger] pre.class_tree(k) == tree;
                lemma_class_tree_known(&pre, k);
            }
        }
        let cref = source.class_ref(class_ref);
        let name = self.relocate_string(source, cref.name());
        let module = self.relocate_string_opt(source, cref.module());
        let generics = self.translate_types(source, cref.generics());
        let v = ClassRef::new(name, module, cref.is_valuetype(), generics);
        proof {
            if pre.holds_class_tree(tree) {
                let k = choose|k: ClassRefIdx|
                    pre.has_class_ref(k) && #[trigger] pre.class_tree(k) == tree;
                lemma_class_held(&pre, &v, k);
            }
        }
        self.alloc_class_ref(v)
    }

    /// Copies a signature of `source` into this assembly.
    pub fn translate_sig(&mut self, source: &Assembly, sig: FnSig) -> (r: FnSig)
        requires
            old(self).wf(),
            source.wf(),
            source@.sig_ok(&sig),
        ensures
            final(self).wf(),
            final(self)@.extends(&old(self)@),
            final(self)@.sig_ok(&r),
            final(self)@.resolve_sig(&r) == source@.resolve_sig(&sig),
            old(self)@.knows_sig(source@.resolve_sig(&sig)) ==> final(self)@ == old(self)@,
        decreases source@.resolve_sig(&sig), 0int,
    {
        proof {
            lemma_sig_parts(source@.resolve_sig(&sig));
        }
        let inputs = self.translate_types(source, sig.inputs());
        let ghost mid = self@;
        let output = self.translate_type(source, *sig.output());
        proof {
            lemma_types_stable(&mid, &self@, inputs@);
        }
        FnSig::new(inputs, output)
    }

    /// Copies the signature behind a handle of `source` into this assembly and
    /// interns the copy.
    pub fn relocate_sig(&mut self, source: &Assembly, h: SigIdx) -> (r: SigIdx)
        requires
            old(self).wf(),
            source.wf(),
            source@.has_sig(h),
        ensures
            final(self).wf(),
            final(self)@.extends(&old(self)@),
            final(self)@.has_sig(r),
            final(self)@.sig_tree(r) == source@.sig_tree(h),
            old(self)@.holds_sig_tree(source@.sig_tree(h)) ==> final(self)@ == old(self)@,
        decreases source@.sig_tree(h), 1int,
    {
        let ghost pre = self@;
        proof {
            if pre.holds_sig_tree(source@.sig_tree(h)) {
                let k = choose|k: SigIdx|
                    pre.has_sig(k) && #[trigger] pre.sig_tree(k) == source@.sig_tree(h);
                lemma_sig_tree_known(&pre, k);
            }
        }
        let v = source.get_sig(h).duplicate();
        let v = self.translate_sig(source, v);
        proof {
            if pre.holds_sig_tree(source@.sig_tree(h)) {
                let k = choose|k: SigIdx|
                    pre.has_sig(k) && #[trigger] pre.sig_tree(k) == source@.sig_tree(h);
                lemma_sig_held(&pre, &v, k);
            }
        }
        self.alloc_sig(v)
    }

    /// Interns in this assembly the string behind a handle of `source`.
    pub fn relocate_string(&mut self, source: &Assembly, h: StringIdx) -> (r: StringIdx)
        requires
            old(self).wf(),
            source.wf(),
            source@.has_string(h),
        ensures
            final(self).wf(),
            final(self)@.extends(&old(self)@),
            final(self)@.has_string(r),
            final(self)@.string_of(r) == source@.string_of(h),
            old(self)@.holds_string(source@.string_of(h)) ==> final(self)@ == old(self)@,
    {
        self.alloc_string(source.get_string(h).as_str())
    }

    /// Interns in this assembly the string behind an optional handle of
    /// `source`.
    pub fn relocate_string_opt(&mut self, source: &Assembly, h: Option<StringIdx>) -> (r: Option<
        StringIdx,
    >)
        requires
            old(self).wf(),
            source.wf(),
            source@.string_opt_ok(h),
        ensures
            final(self).wf(),
            final(self)@.extends(&old(self)@),
            final(self)@.string_opt_ok(r),
            final(self)@.string_opt(r) == source@.string_opt(h),
            old(self)@.holds_string_opt(source@.string_opt(h)) ==> final(self)@ == old(self)@,
    {
        match h {
            Some(h) => Some(self.relocate_string(source, h)),
            None => None,
        }
    }

    /// Copies a field descriptor of `source` into this assembly.
    pub fn translate_field(&mut self, source: &Assembly, field: FieldDesc) -> (r: FieldDesc)
        requires
            old(self).wf(),
            source.wf(),
            source@.field_ok(&field),
        ensures
            final(self).wf(),
            final(self)@.extends(&old(self)@),
            final(self)@.field_ok(&r),
            final(self)@.resolve_field(&r) == source@.resolve_field(&field),
            old(self)@.knows_field(source@.resolve_field(&field)) ==> final(self)@ == old(self)@,
    {
        let name = self.relocate_string(source, field.name());
        let owner = self.translate_class_ref(source, field.owner());
        let tpe = self.translate_type(source, field.tpe());
        FieldDesc::new(owner, name, tpe)
    }

    /// Copies the field descriptor behind a handle of `source` into this assembly and
    /// interns the copy.
    pub fn relocate_field(&mut self, source: &Assembly, h: FieldIdx) -> (r: FieldIdx)
        requires
            old(self).wf(),
            source.wf(),
            source@.has_field(h),
        ensures
            final(self).wf(),
            final(self)@.extends(&old(self)@),
            final(self)@.has_field(r),
            final(self)@.field_tree(r) == source@.field_tree(h),
            old(self)@.holds_field_tree(source@.field_tree(h)) ==> final(self)@ == old(self)@,
    {
        let ghost pre = self@;
        proof {
            if pre.holds_field_tree(source@.field_tree(h)) {
                let k = choose|k: FieldIdx|
                    pre.has_field(k) && #[trigger] pre.field_tree(k) == source@.field_tree(h);
                lemma_field_tree_known(&pre, k);
            }
        }
        let v = *source.get_field(h);
        let v = self.translate_field(source, v);
        proof {
            if pre.holds_field_tree(source@.field_tree(h)) {
                let k = choose|k: FieldIdx|
                    pre.has_field(k) && #[trigger] pre.field_tree(k) == source@.field_tree(h);
                lemma_field_held(&pre, &v, k);
            }
        }
        self.alloc_field(v)
    }

    /// Copies a static-field descriptor of `source` into this assembly.
    pub fn translate_static_field(&mut self, source: &Assembly, field: StaticFieldDesc) -> (r:
        StaticFieldDesc)
        requires
            old(self).wf(),
            source.wf(),
            source@.static_ok(&field),
        ensures
            final(self).wf(),
            final(self)@.extends(&old(self)@),
            final(self)@.static_ok(&r),
            final(self)@.resolve_static(&r) == source@.resolve_static(&field),
            old(self)@.knows_static(source@.resolve_static(&field)) ==> final(self)@ == old(self)@,
    {
        let name = self.relocate_string(source, field.name());
        let owner = self.translate_class_ref(source, field.owner());
        let tpe = self.translate_type(source, field.tpe());
        StaticFieldDesc::new(owner, name, tpe)
    }

    /// Copies the static-field descriptor behind a handle of `source` into this assembly and
    /// interns the copy.
    pub fn relocate_static_field(&mut self, source: &Assembly, h: StaticFieldIdx) -> (r: StaticFieldIdx)
        requires
            old(self).wf(),
            source.wf(),
            source@.has_static(h),
        ensures
            final(self).wf(),
            final(self)@.extends(&old(self)@),
            final(self)@.has_static(r),
            final(self)@.static_tree(r) == source@.static_tree(h),
            old(self)@.holds_static_tree(source@.static_tree(h)) ==> final(self)@ == old(self)@,
    {
        let ghost pre = self@;
        proof {
            if pre.holds_static_tree(source@.static_tree(h)) {
                let k = choose|k: StaticFieldIdx|
                    pre.has_static(k) && #[trigger] pre.static_tree(k) == source@.static_tree(h);
                lemma_static_tree_known(&pre, k);
            }
        }
        let v = *source.get_static_field(h);
        let v = self.translate_static_field(source, v);
        proof {
            if pre.holds_static_tree(source@.static_tree(h)) {
                let k = choose|k: StaticFieldIdx|
                    pre.has_static(k) && #[trigger] pre.static_tree(k) == source@.static_tree(h);
                lemma_static_held(&pre, &v, k);
            }
        }
        self.alloc_sfld(v)
    }

    /// Copies a method reference of `source` into this assembly.
    pub fn translate_method_ref(&mut self, source: &Assembly, method_ref: MethodRef) -> (r:
        MethodRef)
        requires
            old(self).wf(),
            source.wf(),
            source@.method_ref_ok(&method_ref),
        ensures
            final(self).wf(),
            final(self)@.extends(&old(self)@),
            final(self)@.method_ref_ok(&r),
            final(self)@.resolve_method_ref(&r) == source@.resolve_method_ref(&method_ref),
            old(self)@.knows_method_ref(source@.resolve_method_ref(&method_ref)) ==> final(self)@ == old(self)@,
    {
        let class = self.translate_class_ref(source, method_ref.class());
        let name = self.relocate_string(source, method_ref.name());
        let sig = self.relocate_sig(source, method_ref.sig());
        let generics = self.translate_types(source, method_ref.generics());
        MethodRef::new(class, name, sig, method_ref.kind(), generics)
    }

    /// Copies the method reference behind a handle of `source` into this assembly and
    /// interns the copy.
    pub fn relocate_method_ref(&mut self, source: &Assembly, h: MethodRefIdx) -> (r: MethodRefIdx)
        requires
            old(self).wf(),
            source.wf(),
            source@.has_method_ref(h),
        ensures
            final(self).wf(),
            final(self)@.extends(&old(self)@),
            final(self)@.has_method_ref(r),
            final(self)@.method_ref_tree(r) == source@.method_ref_tree(h),
            old(self)@.holds_method_ref_tree(source@.method_ref_tree(h)) ==> final(self)@ == old(self)@,
    {
        let ghost pre = self@;
        proof {
            if pre.holds_method_ref_tree(source@.method_ref_tree(h)) {
                let k = choose|k: MethodRefIdx|
                    pre.has_method_ref(k) && #[trigger] pre.method_ref_tree(k) == source@.method_ref_tree(h);
                lemma_method_ref_tree_known(&pre, k);
            }
        }
        let v = source.get_mref(h).duplicate();
        let v = self.translate_method_ref(source, v);
        proof {
            if pre.holds_method_ref_tree(source@.method_ref_tree(h)) {
                let k = choose|k: MethodRefIdx|
                    pre.has_method_ref(k) && #[trigger] pre.method_ref_tree(k) == source@.method_ref_tree(h);
                lemma_method_ref_held(&pre, &v, k);
            }
        }
        self.alloc_methodref(v)
    }
}

} // verus!
