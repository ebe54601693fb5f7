//! Growth keeps meaning: whatever a consistent assembly can hold means the
//! same in every assembly that extends it.

use crate::arena::Interned;
use crate::cilnode::CILNode;
use crate::cilroot::CILRoot;
use crate::class_ref::{ClassRef, FieldDesc, MethodRef, StaticFieldDesc};
use crate::contents::Contents;
use crate::handles::{ClassDefIdx, ClassRefIdx, MethodDefIdx, NodeIdx, RootIdx, StringIdx, TypeIdx};
use crate::method::{blocks_alike, BasicBlock, ClassDef, MethodDef, MethodImpl};
use crate::resolved::ResolvedClassRef;
use crate::tpe::{FnSig, Type};
use vstd::prelude::*;

verus! {

/// A type that a consistent assembly can hold is one that every assembly
/// that extends it can hold, and means the same there.
pub proof fn lemma_type_stable(old: &Contents, new: &Contents, t: Type)
    requires
        old.wf(),
        new.extends(old),
        old.type_ok(t),
    ensures
        new.type_ok(t),
        new.resolve_type(t) == old.resolve_type(t),
{
}

/// A list of types that a consistent assembly can hold is one that every assembly
/// that extends it can hold, and means the same there.
pub proof fn lemma_types_stable(old: &Contents, new: &Contents, ts: Seq<Type>)
    requires
        old.wf(),
        new.extends(old),
        old.types_ok(ts),
    ensures
        new.types_ok(ts),
        new.resolve_types(ts) == old.resolve_types(ts),
{
    assert forall|i: int| 0 <= i < ts.len() implies new.type_ok(#[trigger] ts[i])
        && new.resolve_type(ts[i]) == old.resolve_type(ts[i]) by {
        lemma_type_stable(old, new, ts[i]);
    }
    assert(new.resolve_types(ts) =~= old.resolve_types(ts));
}

/// A class reference that a consistent assembly can hold is one that every assembly
/// that extends it can hold, and means the same there.
pub proof fn lemma_class_ref_stable(old: &Contents, new: &Contents, c: &ClassRef)
    requires
        old.wf(),
        new.extends(old),
        old.class_ref_ok(c),
    ensures
        new.class_ref_ok(c),
        new.resolve_class_ref(c) == old.resolve_class_ref(c),
{
    lemma_types_stable(old, new, c.generics@);
}

/// A signature that a consistent assembly can hold is one that every assembly
/// that extends it can hold, and means the same there.
pub proof fn lemma_sig_stable(old: &Contents, new: &Contents, s: &FnSig)
    requires
        old.wf(),
        new.extends(old),
        old.sig_ok(s),
    ensures
        new.sig_ok(s),
        new.resolve_sig(s) == old.resolve_sig(s),
{
    lemma_types_stable(old, new, s.inputs@);
    lemma_type_stable(old, new, s.output);
}

/// A field descriptor that a consistent assembly can hold is one that every assembly
/// that extends it can hold, and means the same there.
pub proof fn lemma_field_stable(old: &Contents, new: &Contents, f: &FieldDesc)
    requires
        old.wf(),
        new.extends(old),
        old.field_ok(f),
    ensures
        new.field_ok(f),
        new.resolve_field(f) == old.resolve_field(f),
{
    lemma_type_stable(old, new, f.tpe);
}

/// A static-field descriptor that a consistent assembly can hold is one that every assembly
/// that extends it can hold, and means the same there.
pub proof fn lemma_static_stable(old: &Contents, new: &Contents, f: &StaticFieldDesc)
    requires
        old.wf(),
        new.extends(old),
        old.static_ok(f),
    ensures
        new.static_ok(f),
        new.resolve_static(f) == old.resolve_static(f),
{
    lemma_type_stable(old, new, f.tpe);
}

/// A method reference that a consistent assembly can hold is one that every assembly
/// that extends it can hold, and means the same there.
pub proof fn lemma_method_ref_stable(old: &Contents, new: &Contents, m: &MethodRef)
    requires
        old.wf(),
        new.extends(old),
        old.method_ref_ok(m),
    ensures
        new.method_ref_ok(m),
        new.resolve_method_ref(m) == old.resolve_method_ref(m),
{
    lemma_types_stable(old, new, m.generics@);
}

/// A list of node handles that a consistent assembly can hold is one that every assembly
/// that extends it can hold, and means the same there.
pub proof fn lemma_nodes_stable(old: &Contents, new: &Contents, hs: Seq<NodeIdx>)
    requires
        old.wf(),
        new.extends(old),
        old.nodes_ok(hs),
    ensures
        new.nodes_ok(hs),
        new.node_trees(hs) == old.node_trees(hs),
{
    assert forall|i: int| 0 <= i < hs.len() implies new.has_node(#[trigger] hs[i]) && new.node_tree(
        hs[i],
    ) == old.node_tree(hs[i]) by {
        assert(old.has_node(hs[i]));
    }
    assert(new.node_trees(hs) =~= old.node_trees(hs));
}

/// A node that a consistent assembly can hold is one that every assembly
/// that extends it can hold, and means the same there.
pub proof fn lemma_node_stable(old: &Contents, new: &Contents, n: &CILNode)
    requires
        old.wf(),
        new.extends(old),
        old.node_ok(n),
    ensures
        new.node_ok(n),
        new.resolve_node(n) == old.resolve_node(n),
{
    match *n {
        CILNode::Call(call) => {
            lemma_nodes_stable(old, new, call.1@);
        },
        CILNode::CallI(call) => {
            lemma_nodes_stable(old, new, call.2@);
        },
        _ => {},
    }
}

/// A root that a consistent assembly can hold is one that every assembly
/// that extends it can hold, and means the same there.
pub proof fn lemma_root_stable(old: &Contents, new: &Contents, r: &CILRoot)
    requires
        old.wf(),
        new.extends(old),
        old.root_ok(r),
    ensures
        new.root_ok(r),
        new.resolve_root(r) == old.resolve_root(r),
{
    match *r {
        CILRoot::Call(call) => {
            lemma_nodes_stable(old, new, call.1@);
        },
        CILRoot::CallI(call) => {
            lemma_nodes_stable(old, new, call.2@);
        },
        CILRoot::StInd(info) => {
            lemma_type_stable(old, new, info.2);
        },
        _ => {},
    }
}

/// A list of root handles that a consistent assembly can hold is one that every assembly
/// that extends it can hold, and means the same there.
pub proof fn lemma_roots_stable(old: &Contents, new: &Contents, hs: Seq<RootIdx>)
    requires
        old.wf(),
        new.extends(old),
        old.roots_ok(hs),
    ensures
        new.roots_ok(hs),
        new.root_trees(hs) == old.root_trees(hs),
{
    assert forall|i: int| 0 <= i < hs.len() implies new.has_root(#[trigger] hs[i]) && new.root_tree(
        hs[i],
    ) == old.root_tree(hs[i]) by {
        assert(old.has_root(hs[i]));
    }
    assert(new.root_trees(hs) =~= old.root_trees(hs));
}

/// A block that a consistent assembly can hold is one that every assembly
/// that extends it can hold, and means the same there.
pub proof fn lemma_block_stable(old: &Contents, new: &Contents, b: &BasicBlock)
    requires
        old.wf(),
        new.extends(old),
        old.block_ok(b),
    ensures
        new.block_ok(b),
        new.resolve_block(b) == old.resolve_block(b),
    decreases b, 0int,
{
    lemma_roots_stable(old, new, b.roots@);
    match b.handler {
        Some(hs) => {
            lemma_blocks_stable(old, new, hs@);
        },
        None => {},
    }
}

/// A list of blocks that a consistent assembly can hold is one that every assembly
/// that extends it can hold, and means the same there.
pub proof fn lemma_blocks_stable(old: &Contents, new: &Contents, bs: Seq<BasicBlock>)
    requires
        old.wf(),
        new.extends(old),
        old.blocks_ok(bs),
    ensures
        new.blocks_ok(bs),
        new.resolve_blocks(bs) == old.resolve_blocks(bs),
    decreases bs, 1int,
{
    assert forall|i: int| 0 <= i < bs.len() implies new.block_ok(#[trigger] &bs[i])
        && new.resolve_block(&bs[i]) == old.resolve_block(&bs[i]) by {
        lemma_block_stable(old, new, &bs[i]);
    }
    assert(new.resolve_blocks(bs) =~= old.resolve_blocks(bs));
}

/// A table of local variables that a consistent assembly can hold is one that every assembly
/// that extends it can hold, and means the same there.
pub proof fn lemma_locals_stable(
    old: &Contents,
    new: &Contents,
    ls: Seq<(Option<StringIdx>, TypeIdx)>,
)
    requires
        old.wf(),
        new.extends(old),
        old.locals_ok(ls),
    ensures
        new.locals_ok(ls),
        new.resolve_locals(ls) == old.resolve_locals(ls),
{
    assert forall|i: int| 0 <= i < ls.len() implies new.string_opt_ok((#[trigger] ls[i]).0)
        && new.has_type(ls[i].1) && new.string_opt(ls[i].0) == old.string_opt(ls[i].0)
        && new.type_tree(ls[i].1) == old.type_tree(ls[i].1) by {
        assert(old.string_opt_ok(ls[i].0));
    }
    assert(new.resolve_locals(ls) =~= old.resolve_locals(ls));
}

/// A list of optional names that a consistent assembly can hold is one that every assembly
/// that extends it can hold, and means the same there.
pub proof fn lemma_names_stable(old: &Contents, new: &Contents, ns: Seq<Option<StringIdx>>)
    requires
        old.wf(),
        new.extends(old),
        old.names_ok(ns),
    ensures
        new.names_ok(ns),
        new.resolve_names(ns) == old.resolve_names(ns),
{
    assert forall|i: int| 0 <= i < ns.len() implies new.string_opt_ok(#[trigger] ns[i])
        && new.string_opt(ns[i]) == old.string_opt(ns[i]) by {
        assert(old.string_opt_ok(ns[i]));
    }
    assert(new.resolve_names(ns) =~= old.resolve_names(ns));
}

/// An implementation of a method that a consistent assembly can hold is one that every assembly
/// that extends it can hold, and means the same there.
pub proof fn lemma_method_impl_stable(old: &Contents, new: &Contents, m: &MethodImpl)
    requires
        old.wf(),
        new.extends(old),
        old.method_impl_ok(m),
    ensures
        new.method_impl_ok(m),
        new.resolve_method_impl(m) == old.resolve_method_impl(m),
{
    match *m {
        MethodImpl::MethodBody { blocks, locals } => {
            lemma_blocks_stable(old, new, blocks@);
            lemma_locals_stable(old, new, locals@);
        },
        _ => {},
    }
}

/// A method definition that a consistent assembly can hold is one that every assembly
/// that extends it can hold, and means the same there.
pub proof fn lemma_method_def_stable(old: &Contents, new: &Contents, d: &MethodDef)
    requires
        old.wf(),
        new.extends(old),
        old.method_def_ok(d),
    ensures
        new.method_def_ok(d),
        new.resolve_method_def(d) == old.resolve_method_def(d),
{
    lemma_method_impl_stable(old, new, &d.implementation);
    lemma_names_stable(old, new, d.arg_names@);
    assert(new.class_defs[d.class.0.0 as int] is Some);
}

/// A list of method-definition handles that a consistent assembly can hold is one that every assembly
/// that extends it can hold, and means the same there.
pub proof fn lemma_method_defs_stable(old: &Contents, new: &Contents, hs: Seq<MethodDefIdx>)
    requires
        old.wf(),
        new.extends(old),
        old.method_defs_ok(hs),
    ensures
        new.method_defs_ok(hs),
        new.method_def_trees(hs) == old.method_def_trees(hs),
{
    assert forall|i: int| 0 <= i < hs.len() implies new.has_method_def(#[trigger] hs[i])
        && new.method_def_tree(hs[i]) == old.method_def_tree(hs[i]) by {
        assert(old.has_method_def(hs[i]));
    }
    assert(new.method_def_trees(hs) =~= old.method_def_trees(hs));
}

/// The fields of a class definition that a consistent assembly can hold is one that every assembly
/// that extends it can hold, and means the same there.
pub proof fn lemma_class_fields_stable(
    old: &Contents,
    new: &Contents,
    fs: Seq<(Type, StringIdx, Option<u32>)>,
)
    requires
        old.wf(),
        new.extends(old),
        old.class_fields_ok(fs),
    ensures
        new.class_fields_ok(fs),
        new.resolve_class_fields(fs) == old.resolve_class_fields(fs),
{
    assert forall|i: int| 0 <= i < fs.len() implies new.type_ok((#[trigger] fs[i]).0)
        && new.has_string(fs[i].1) && new.resolve_type(fs[i].0) == old.resolve_type(fs[i].0)
        && new.string_of(fs[i].1) == old.string_of(fs[i].1) by {
        lemma_type_stable(old, new, fs[i].0);
    }
    assert(new.resolve_class_fields(fs) =~= old.resolve_class_fields(fs));
}

/// The static fields of a class definition that a consistent assembly can hold is one that every assembly
/// that extends it can hold, and means the same there.
pub proof fn lemma_class_statics_stable(
    old: &Contents,
    new: &Contents,
    fs: Seq<(Type, StringIdx, bool)>,
)
    requires
        old.wf(),
        new.extends(old),
        old.class_statics_ok(fs),
    ensures
        new.class_statics_ok(fs),
        new.resolve_class_statics(fs) == old.resolve_class_statics(fs),
{
    assert forall|i: int| 0 <= i < fs.len() implies new.type_ok((#[trigger] fs[i]).0)
        && new.has_string(fs[i].1) && new.resolve_type(fs[i].0) == old.resolve_type(fs[i].0)
        && new.string_of(fs[i].1) == old.string_of(fs[i].1) by {
        lemma_type_stable(old, new, fs[i].0);
    }
    assert(new.resolve_class_statics(fs) =~= old.resolve_class_statics(fs));
}

/// A class definition that a consistent assembly can hold is one that every assembly
/// that extends it can hold, and means the same there.
pub proof fn lemma_class_def_stable(old: &Contents, new: &Contents, d: &ClassDef)
    requires
        old.wf(),
        new.extends(old),
        old.class_def_ok(d),
    ensures
        new.class_def_ok(d),
        new.resolve_class_def(d) == old.resolve_class_def(d),
{
    lemma_class_fields_stable(old, new, d.fields@);
    lemma_class_statics_stable(old, new, d.static_fields@);
    lemma_method_defs_stable(old, new, d.methods@);
}

/// A class that a consistent assembly defines is defined, under the same
/// meaning, in every assembly that extends it.
pub proof fn lemma_defines_stable(old: &Contents, new: &Contents, t: ResolvedClassRef)
    requires
        old.wf(),
        new.extends(old),
        old.defines(t),
    ensures
        new.defines(t),
{
    let c = choose|c: ClassRefIdx|
        old.has_class_ref(c) && #[trigger] old.has_class_def(ClassDefIdx(c)) && old.class_tree(c)
            == t;
    assert(new.class_defs[c.0 as int] is Some);
    assert(new.has_class_def(ClassDefIdx(c)));
}

/// The classes of a list of methods that a consistent assembly defines are
/// defined in every assembly that extends it.
pub proof fn lemma_defines_owners_stable(
    old: &Contents,
    new: &Contents,
    source: &Contents,
    hs: Seq<MethodDefIdx>,
)
    requires
        old.wf(),
        new.extends(old),
        old.defines_owners(source, hs),
    ensures
        new.defines_owners(source, hs),
{
    assert forall|i: int| 0 <= i < hs.len() implies new.defines(
        source.method_def_tree(#[trigger] hs[i]).class,
    ) by {
        lemma_defines_stable(old, new, source.method_def_tree(hs[i]).class);
    }
}

/// An assembly that extends a consistent one is grounded as soon as its
/// additional entries are.
pub proof fn lemma_grounded(old: &Contents, new: &Contents)
    requires
        old.wf(),
        new.extends(old),
        new.grounded_beyond(old),
    ensures
        new.grounded(),
{
    assert forall|i: int| 0 <= i < new.types.len() implies new.type_ok(#[trigger] new.types[i])
        && new.resolved.types[i] == new.resolve_type(new.types[i]) by {
        if i < old.types.len() {
            lemma_type_stable(old, new, old.types[i]);
        }
    }
    assert forall|i: int| 0 <= i < new.class_refs.len() implies new.class_ref_ok(#[trigger] &new.class_refs[i])
        && new.resolved.class_refs[i] == new.resolve_class_ref(&new.class_refs[i]) by {
        if i < old.class_refs.len() {
            lemma_class_ref_stable(old, new, &old.class_refs[i]);
        }
    }
    assert forall|i: int| 0 <= i < new.sigs.len() implies new.sig_ok(#[trigger] &new.sigs[i])
        && new.resolved.sigs[i] == new.resolve_sig(&new.sigs[i]) by {
        if i < old.sigs.len() {
            lemma_sig_stable(old, new, &old.sigs[i]);
        }
    }
    assert forall|i: int| 0 <= i < new.fields.len() implies new.field_ok(#[trigger] &new.fields[i])
        && new.resolved.fields[i] == new.resolve_field(&new.fields[i]) by {
        if i < old.fields.len() {
            lemma_field_stable(old, new, &old.fields[i]);
        }
    }
    assert forall|i: int| 0 <= i < new.statics.len() implies new.static_ok(#[trigger] &new.statics[i])
        && new.resolved.statics[i] == new.resolve_static(&new.statics[i]) by {
        if i < old.statics.len() {
            lemma_static_stable(old, new, &old.statics[i]);
        }
    }
    assert forall|i: int| 0 <= i < new.method_refs.len() implies new.method_ref_ok(#[trigger] &new.method_refs[i])
        && new.resolved.method_refs[i] == new.resolve_method_ref(&new.method_refs[i]) by {
        if i < old.method_refs.len() {
            lemma_method_ref_stable(old, new, &old.method_refs[i]);
        }
    }
    assert forall|i: int| 0 <= i < new.nodes.len() implies new.node_ok(#[trigger] &new.nodes[i])
        && new.resolved.nodes[i] == new.resolve_node(&new.nodes[i]) by {
        if i < old.nodes.len() {
            lemma_node_stable(old, new, &old.nodes[i]);
        }
    }
    assert forall|i: int| 0 <= i < new.roots.len() implies new.root_ok(#[trigger] &new.roots[i])
        && new.resolved.roots[i] == new.resolve_root(&new.roots[i]) by {
        if i < old.roots.len() {
            lemma_root_stable(old, new, &old.roots[i]);
        }
    }
    assert forall|i: int| 0 <= i < new.method_defs.len() implies new.method_def_ok(#[trigger] &new.method_defs[i])
        && new.resolved.method_defs[i] == new.resolve_method_def(&new.method_defs[i]) by {
        if i < old.method_defs.len() {
            lemma_method_def_stable(old, new, &old.method_defs[i]);
        }
    }
}

/// An assembly that extends a consistent one and defines the same classes
/// is consistent as soon as its arenas are free of repetitions and its
/// additional entries are grounded.
pub proof fn lemma_growth(old: &Contents, new: &Contents)
    requires
        old.wf(),
        new.extends(old),
        new.interned(),
        new.grounded_beyond(old),
        new.class_defs == old.class_defs,
        new.journaled(),
    ensures
        new.wf(),
{
    lemma_grounded(old, new);
    assert forall|i: int| 0 <= i < new.class_defs.len() && new.class_defs[i] is Some implies new.slot_ok(
        i,
    ) by {
        assert(old.slot_ok(i));
        lemma_class_def_stable(old, new, &old.class_defs[i]->0);
    }
}

/// Structurally equal blocks mean the same.
pub proof fn lemma_block_congruent(c: &Contents, a: &BasicBlock, b: &BasicBlock)
    requires
        a.alike(b),
    ensures
        c.block_ok(a) == c.block_ok(b),
        c.resolve_block(a) == c.resolve_block(b),
    decreases a, 0int,
{
    match (a.handler, b.handler) {
        (Some(x), Some(y)) => {
            lemma_blocks_congruent(c, x@, y@);
        },
        _ => {},
    }
}

/// Structurally equal lists of blocks mean the same.
pub proof fn lemma_blocks_congruent(c: &Contents, a: Seq<BasicBlock>, b: Seq<BasicBlock>)
    requires
        blocks_alike(a, b),
    ensures
        c.blocks_ok(a) == c.blocks_ok(b),
        c.resolve_blocks(a) == c.resolve_blocks(b),
    decreases a, 1int,
{
    assert forall|i: int| 0 <= i < a.len() implies c.block_ok(#[trigger] &a[i]) == c.block_ok(&b[i])
        && c.resolve_block(&a[i]) == c.resolve_block(&b[i]) by {
        lemma_block_congruent(c, &a[i], &b[i]);
    }
    if c.blocks_ok(a) {
        assert forall|i: int| 0 <= i < b.len() implies c.block_ok(#[trigger] &b[i]) by {
            assert(c.block_ok(&a[i]));
        }
    }
    if c.blocks_ok(b) {
        assert forall|i: int| 0 <= i < a.len() implies c.block_ok(#[trigger] &a[i]) by {
            assert(c.block_ok(&b[i]));
        }
    }
    assert(c.resolve_blocks(a) =~= c.resolve_blocks(b));
}

/// Structurally equal method definitions mean the same.
pub proof fn lemma_method_def_congruent(c: &Contents, a: &MethodDef, b: &MethodDef)
    requires
        a.alike(b),
    ensures
        c.method_def_ok(a) == c.method_def_ok(b),
        c.resolve_method_def(a) == c.resolve_method_def(b),
{
    match (a.implementation, b.implementation) {
        (MethodImpl::MethodBody { blocks: x, .. }, MethodImpl::MethodBody { blocks: y, .. }) => {
            lemma_blocks_congruent(c, x@, y@);
        },
        _ => {},
    }
}

} // verus!
