//! Comparing meaning across assemblies: whether a type, a signature or a
//! class reference of one assembly resolves to the same tree as one of
//! another, decided by following the handles on both sides.

use crate::assembly::Assembly;
use crate::handles::{ClassDefIdx, ClassRefIdx, SigIdx, StringIdx, TypeIdx};
use crate::resolved::{lemma_class_ref_parts, lemma_sig_parts, lemma_type_parts};
use crate::tpe::Type;
use vstd::prelude::*;

verus! {

impl Assembly {
    /// Whether a string of this assembly and a string of `other` are the
    /// same string.
    pub fn same_string(&self, a: StringIdx, other: &Assembly, b: StringIdx) -> (r: bool)
        requires
            self@.has_string(a),
            other@.has_string(b),
        ensures
            r == (self@.string_of(a) == other@.string_of(b)),
    {
        *self.get_string(a) == *other.get_string(b)
    }

    /// Whether an optional string of this assembly and one of `other` are
    /// the same.
    pub fn same_string_opt(&self, a: Option<StringIdx>, other: &Assembly, b: Option<StringIdx>) -> (r:
        bool)
        requires
            self@.string_opt_ok(a),
            other@.string_opt_ok(b),
        ensures
            r == (self@.string_opt(a) == other@.string_opt(b)),
    {
        match (a, b) {
            (Some(a), Some(b)) => self.same_string(a, other, b),
            (None, None) => true,
            _ => false,
        }
    }

    /// Whether a type of this assembly and a type of `other` mean the same.
    pub fn same_type_meaning(&self, a: Type, other: &Assembly, b: Type) -> (r: bool)
        requires
            self.wf(),
            other.wf(),
            self@.type_ok(a),
            other@.type_ok(b),
        ensures
            r == (self@.resolve_type(a) == other@.resolve_type(b)),
        decreases self@.resolve_type(a), 0int,
    {
        proof {
            lemma_type_parts(self@.resolve_type(a));
        }
        match (a, b) {
            (Type::Ptr(x), Type::Ptr(y)) => self.same_type_tree(x, other, y),
            (Type::Ref(x), Type::Ref(y)) => self.same_type_tree(x, other, y),
            (Type::ClassRef(x), Type::ClassRef(y)) => self.same_class_tree(x, other, y),
            (Type::PlatformArray { elem: x, dims: d }, Type::PlatformArray { elem: y, dims: e }) => {
                d == e && self.same_type_tree(x, other, y)
            },
            (Type::FnPtr(x), Type::FnPtr(y)) => self.same_sig_tree(x, other, y),
            (Type::Ptr(_), _)
            | (Type::Ref(_), _)
            | (Type::ClassRef(_), _)
            | (Type::PlatformArray { .. }, _)
            | (Type::FnPtr(_), _) => false,
            _ => a == b,
        }
    }

    /// Whether the type behind a handle of this assembly and the type
    /// behind a handle of `other` mean the same.
    pub fn same_type_tree(&self, a: TypeIdx, other: &Assembly, b: TypeIdx) -> (r: bool)
        requires
            self.wf(),
            other.wf(),
            self@.has_type(a),
            other@.has_type(b),
        ensures
            r == (self@.type_tree(a) == other@.type_tree(b)),
        decreases self@.type_tree(a), 1int,
    {
        self.same_type_meaning(*self.get_type(a), other, *other.get_type(b))
    }

    /// Whether a list of types of this assembly and a list of types of
    /// `other` mean the same, type by type.
    pub fn same_types_meaning(&self, a: &Vec<Type>, other: &Assembly, b: &Vec<Type>) -> (r: bool)
        requires
            self.wf(),
            other.wf(),
            self@.types_ok(a@),
            other@.types_ok(b@),
        ensures
            r == (self@.resolve_types(a@) == other@.resolve_types(b@)),
        decreases self@.resolve_types(a@), 0int,
    {
        if a.len() != b.len() {
            proof {
                assert(self@.resolve_types(a@).len() != other@.resolve_types(b@).len());
            }
            return false;
        }
        let mut i: usize = 0;
        while i < a.len()
            invariant
                self.wf(),
                other.wf(),
                self@.types_ok(a@),
                other@.types_ok(b@),
                a.len() == b.len(),
                i <= a.len(),
                forall|k: int|
                    0 <= k < i ==> self@.resolve_type(#[trigger] a@[k]) == other@.resolve_type(
                        b@[k],
                    ),
            decreases a.len() - i,
        {
            proof {
                assert(self@.resolve_types(a@)[i as int] == self@.resolve_type(a@[i as int]));
                assert(other@.resolve_types(b@)[i as int] == other@.resolve_type(b@[i as int]));
            }
            if !self.same_type_meaning(a[i], other, b[i]) {
                return false;
            }
            i += 1;
        }
        proof {
            assert(self@.resolve_types(a@) =~= other@.resolve_types(b@));
        }
        true
    }

    /// Whether the class reference behind a handle of this assembly and
    /// the class reference behind a handle of `other` mean the same class.
    pub fn same_class_tree(&self, a: ClassRefIdx, other: &Assembly, b: ClassRefIdx) -> (r: bool)
        requires
            self.wf(),
            other.wf(),
            self@.has_class_ref(a),
            other@.has_class_ref(b),
        ensures
            r == (self@.class_tree(a) == other@.class_tree(b)),
        decreases self@.class_tree(a), 0int,
    {
        proof {
            lemma_class_ref_parts(self@.class_tree(a));
        }
        let x = self.class_ref(a);
        let y = other.class_ref(b);
        self.same_string(x.name(), other, y.name()) && self.same_string_opt(
            x.module(),
            other,
            y.module(),
        ) && x.is_valuetype() == y.is_valuetype() && self.same_types_meaning(
            x.generics(),
            other,
            y.generics(),
        )
    }

    /// Whether the signature behind a handle of this assembly and the
    /// signature behind a handle of `other` mean the same.
    pub fn same_sig_tree(&self, a: SigIdx, other: &Assembly, b: SigIdx) -> (r: bool)
        requires
            self.wf(),
            other.wf(),
            self@.has_sig(a),
            other@.has_sig(b),
        ensures
            r == (self@.sig_tree(a) == other@.sig_tree(b)),
        decreases self@.sig_tree(a), 0int,
    {
        proof {
            lemma_sig_parts(self@.sig_tree(a));
        }
        let x = self.get_sig(a);
        let y = other.get_sig(b);
        self.same_types_meaning(x.inputs(), other, y.inputs()) && self.same_type_meaning(
            *x.output(),
            other,
            *y.output(),
        )
    }

    /// The class that this assembly defines and that means what the class
    /// behind the handle `class` of `source` means, if there is one: the
    /// class that a method of `class` attaches to when its definition is
    /// linked into this assembly.
    pub fn defined_class_of(&self, source: &Assembly, class: ClassRefIdx) -> (r: Option<
        ClassDefIdx,
    >)
        requires
            self.wf(),
            source.wf(),
            source@.has_class_ref(class),
        ensures
            r is Some <==> self@.defines(source@.class_tree(class)),
            r matches Some(d) ==> self@.has_class_ref(d.0) && self@.has_class_def(d)
                && self@.class_tree(d.0) == source@.class_tree(class),
    {
        let n = self.class_ref_count();
        let mut i: usize = 0;
        while i < n
            invariant
                self.wf(),
                source.wf(),
                source@.has_class_ref(class),
                n == self@.class_refs.len(),
                i <= n,
                forall|c: ClassRefIdx|
                    c.0 < i && self@.has_class_def(ClassDefIdx(c)) ==> #[trigger] self@.class_tree(
                        c,
                    ) != source@.class_tree(class),
            decreases n - i,
        {
            match self.class_ref_to_def(ClassRefIdx(i)) {
                Some(d) => {
                    if self.same_class_tree(ClassRefIdx(i), source, class) {
                        return Some(d);
                    }
                },
                None => {},
            }
            i += 1;
        }
        None
    }
}

} // verus!
