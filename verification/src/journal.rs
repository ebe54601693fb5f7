//! The journal: the order in which an assembly interned its values, one
//! entry for each value, naming the arena that the value went to. The
//! journal is what lets an assembly be built again value by value: every
//! value refers only to values that the journal lists before it.

use vstd::prelude::*;

verus! {

/// The categories of values that an assembly holds.
#[derive(Clone, Copy, PartialEq, Eq, Hash, Debug, Structural)]
pub enum Category {
    Strings,
    Types,
    ClassRefs,
    Sigs,
    Fields,
    StaticFields,
    MethodRefs,
    Nodes,
    Roots,
    MethodDefs,
    ClassDefs,
}

/// How many values each arena holds.
pub struct Sizes {
    pub strings: nat,
    pub types: nat,
    pub class_refs: nat,
    pub sigs: nat,
    pub fields: nat,
    pub statics: nat,
    pub method_refs: nat,
    pub nodes: nat,
    pub roots: nat,
    pub method_defs: nat,
}

impl Sizes {
    /// The sizes after one more value of the category.
    pub open spec fn bump(self, c: Category) -> Sizes {
        match c {
            Category::Strings => Sizes { strings: self.strings + 1, ..self },
            Category::Types => Sizes { types: self.types + 1, ..self },
            Category::ClassRefs => Sizes { class_refs: self.class_refs + 1, ..self },
            Category::Sigs => Sizes { sigs: self.sigs + 1, ..self },
            Category::Fields => Sizes { fields: self.fields + 1, ..self },
            Category::StaticFields => Sizes { statics: self.statics + 1, ..self },
            Category::MethodRefs => Sizes { method_refs: self.method_refs + 1, ..self },
            Category::Nodes => Sizes { nodes: self.nodes + 1, ..self },
            Category::Roots => Sizes { roots: self.roots + 1, ..self },
            Category::MethodDefs => Sizes { method_defs: self.method_defs + 1, ..self },
            Category::ClassDefs => self,
        }
    }

    /// The number of values of the category.
    pub open spec fn of(self, c: Category) -> nat {
        match c {
            Category::Strings => self.strings,
            Category::Types => self.types,
            Category::ClassRefs => self.class_refs,
            Category::Sigs => self.sigs,
            Category::Fields => self.fields,
            Category::StaticFields => self.statics,
            Category::MethodRefs => self.method_refs,
            Category::Nodes => self.nodes,
            Category::Roots => self.roots,
            Category::MethodDefs => self.method_defs,
            Category::ClassDefs => 0,
        }
    }
}

/// How many entries of the journal name the category.
pub open spec fn count(s: Seq<Category>, c: Category) -> nat
    decreases s.len(),
{
    if s.len() == 0 {
        0
    } else {
        count(s.drop_last(), c) + if s.last() == c {
            1nat
        } else {
            0nat
        }
    }
}

/// How many values each arena holds after the entries of the journal.
pub open spec fn sizes_after(s: Seq<Category>) -> Sizes {
    Sizes {
        strings: count(s, Category::Strings),
        types: count(s, Category::Types),
        class_refs: count(s, Category::ClassRefs),
        sigs: count(s, Category::Sigs),
        fields: count(s, Category::Fields),
        statics: count(s, Category::StaticFields),
        method_refs: count(s, Category::MethodRefs),
        nodes: count(s, Category::Nodes),
        roots: count(s, Category::Roots),
        method_defs: count(s, Category::MethodDefs),
    }
}

/// One more entry counts for its category and for no other.
pub proof fn lemma_sizes_push(s: Seq<Category>, c: Category)
    ensures
        sizes_after(s.push(c)) == sizes_after(s).bump(c),
        c is ClassDefs ==> sizes_after(s.push(c)) == sizes_after(s),
{
    assert(s.push(c).drop_last() =~= s);
    assert(s.push(c).last() == c);
}

/// The entries before an entry count for no more than all of them.
pub proof fn lemma_count_take(s: Seq<Category>, k: int, c: Category)
    requires
        0 <= k <= s.len(),
    ensures
        count(s.take(k), c) <= count(s, c),
        k < s.len() && s[k] == c ==> count(s.take(k), c) < count(s, c),
    decreases s.len() - k,
{
    if k < s.len() {
        assert(s.take(k + 1).drop_last() =~= s.take(k));
        assert(s.take(k + 1).last() == s[k]);
        lemma_count_take(s, k + 1, c);
    } else {
        assert(s.take(k) =~= s);
    }
}

} // verus!
