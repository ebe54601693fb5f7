//! Frames: what the validity of a value depends on. Whether a value refers
//! only to handles of an assembly is decided by the sizes of the arenas and
//! by the classes that the assembly defines, so a value that one assembly
//! owns is owned by every assembly that is at least as large and defines at
//! least the same classes. This is what keeps the journal of an assembly
//! sound while the assembly grows.

use crate::cilnode::CILNode;
use crate::cilroot::CILRoot;
use crate::class_ref::{ClassRef, FieldDesc, MethodRef, StaticFieldDesc};
use crate::contents::{prefix, sized, Contents};
use crate::handles::{ClassDefIdx, NodeIdx, RootIdx};
use crate::journal::{lemma_sizes_push, sizes_after, Category};
use crate::method::{BasicBlock, ClassDef, MethodDef, MethodImpl};
use crate::tpe::{FnSig, Type};
use vstd::prelude::*;

verus! {

/// The assembly `b` is at least as large as `a` in every arena.
pub open spec fn no_larger(a: &Contents, b: &Contents) -> bool {
    &&& a.strings.len() <= b.strings.len()
    &&& a.types.len() <= b.types.len()
    &&& a.class_refs.len() <= b.class_refs.len()
    &&& a.sigs.len() <= b.sigs.len()
    &&& a.fields.len() <= b.fields.len()
    &&& a.statics.len() <= b.statics.len()
    &&& a.method_refs.len() <= b.method_refs.len()
    &&& a.nodes.len() <= b.nodes.len()
    &&& a.roots.len() <= b.roots.len()
    &&& a.method_defs.len() <= b.method_defs.len()
}

/// The assembly `b` is at least as large as `a` in every arena and defines
/// at least the classes that `a` defines.
pub open spec fn within(a: &Contents, b: &Contents) -> bool {
    &&& no_larger(a, b)
    &&& forall|h: ClassDefIdx| #[trigger] a.has_class_def(h) ==> b.has_class_def(h)
}

// A value that an assembly owns is owned by every assembly that the first
// is within.
pub proof fn lemma_type_fits(a: &Contents, b: &Contents, v: Type)
    requires
        no_larger(a, b),
        a.type_ok(v),
    ensures
        b.type_ok(v),
{
}

pub proof fn lemma_types_fits(a: &Contents, b: &Contents, vs: Seq<Type>)
    requires
        no_larger(a, b),
        a.types_ok(vs),
    ensures
        b.types_ok(vs),
{
    assert forall|i: int| 0 <= i < vs.len() implies b.type_ok(#[trigger] vs[i]) by {
        lemma_type_fits(a, b, vs[i]);
    }
}

pub proof fn lemma_class_ref_fits(a: &Contents, b: &Contents, v: &ClassRef)
    requires
        no_larger(a, b),
        a.class_ref_ok(v),
    ensures
        b.class_ref_ok(v),
{
    lemma_types_fits(a, b, v.generics@);
}

pub proof fn lemma_sig_fits(a: &Contents, b: &Contents, v: &FnSig)
    requires
        no_larger(a, b),
        a.sig_ok(v),
    ensures
        b.sig_ok(v),
{
    lemma_types_fits(a, b, v.inputs@);
    lemma_type_fits(a, b, v.output);
}

pub proof fn lemma_field_fits(a: &Contents, b: &Contents, v: &FieldDesc)
    requires
        no_larger(a, b),
        a.field_ok(v),
    ensures
        b.field_ok(v),
{
    lemma_type_fits(a, b, v.tpe);
}

pub proof fn lemma_static_fits(a: &Contents, b: &Contents, v: &StaticFieldDesc)
    requires
        no_larger(a, b),
        a.static_ok(v),
    ensures
        b.static_ok(v),
{
    lemma_type_fits(a, b, v.tpe);
}

pub proof fn lemma_method_ref_fits(a: &Contents, b: &Contents, v: &MethodRef)
    requires
        no_larger(a, b),
        a.method_ref_ok(v),
    ensures
        b.method_ref_ok(v),
{
    lemma_types_fits(a, b, v.generics@);
}

pub proof fn lemma_nodes_fits(a: &Contents, b: &Contents, vs: Seq<NodeIdx>)
    requires
        no_larger(a, b),
        a.nodes_ok(vs),
    ensures
        b.nodes_ok(vs),
{
    assert forall|i: int| 0 <= i < vs.len() implies b.has_node(#[trigger] vs[i]) by {
        assert(a.has_node(vs[i]));
    }
}

pub proof fn lemma_node_fits(a: &Contents, b: &Contents, v: &CILNode)
    requires
        no_larger(a, b),
        a.node_ok(v),
    ensures
        b.node_ok(v),
{
    match *v {
        CILNode::Call(call) => {
            lemma_nodes_fits(a, b, call.1@);
        },
        CILNode::CallI(call) => {
            lemma_nodes_fits(a, b, call.2@);
        },
        _ => {},
    }
}

pub proof fn lemma_root_fits(a: &Contents, b: &Contents, v: &CILRoot)
    requires
        no_larger(a, b),
        a.root_ok(v),
    ensures
        b.root_ok(v),
{
    match *v {
        CILRoot::Call(call) => {
            lemma_nodes_fits(a, b, call.1@);
        },
        CILRoot::CallI(call) => {
            lemma_nodes_fits(a, b, call.2@);
        },
        CILRoot::StInd(info) => {
            lemma_type_fits(a, b, info.2);
        },
        _ => {},
    }
}

pub proof fn lemma_roots_fits(a: &Contents, b: &Contents, vs: Seq<RootIdx>)
    requires
        no_larger(a, b),
        a.roots_ok(vs),
    ensures
        b.roots_ok(vs),
{
    assert forall|i: int| 0 <= i < vs.len() implies b.has_root(#[trigger] vs[i]) by {
        assert(a.has_root(vs[i]));
    }
}

pub proof fn lemma_block_fits(a: &Contents, b: &Contents, v: &BasicBlock)
    requires
        no_larger(a, b),
        a.block_ok(v),
    ensures
        b.block_ok(v),
    decreases v, 0int,
{
    lemma_roots_fits(a, b, v.roots@);
    match v.handler {
        Some(hs) => {
            lemma_blocks_fits(a, b, hs@);
        },
        None => {},
    }
}

pub proof fn lemma_blocks_fits(a: &Contents, b: &Contents, vs: Seq<BasicBlock>)
    requires
        no_larger(a, b),
        a.blocks_ok(vs),
    ensures
        b.blocks_ok(vs),
    decreases vs, 1int,
{
    assert forall|i: int| 0 <= i < vs.len() implies b.block_ok(#[trigger] &vs[i]) by {
        lemma_block_fits(a, b, &vs[i]);
    }
}

pub proof fn lemma_method_def_fits(a: &Contents, b: &Contents, v: &MethodDef)
    requires
        no_larger(a, b),
        a.has_class_def(v.class) ==> b.has_class_def(v.class),
        a.method_def_ok(v),
    ensures
        b.method_def_ok(v),
{
    match v.implementation {
        MethodImpl::MethodBody { blocks, locals } => {
            lemma_blocks_fits(a, b, blocks@);
            assert forall|i: int| 0 <= i < locals@.len() implies b.string_opt_ok(
                (#[trigger] locals@[i]).0,
            ) && b.has_type(locals@[i].1) by {
                assert(a.string_opt_ok(locals@[i].0));
            }
        },
        _ => {},
    }
    assert forall|i: int| 0 <= i < v.arg_names@.len() implies b.string_opt_ok(
        #[trigger] v.arg_names@[i],
    ) by {
        assert(a.string_opt_ok(v.arg_names@[i]));
    }
}

pub proof fn lemma_class_def_fits(a: &Contents, b: &Contents, v: &ClassDef)
    requires
        no_larger(a, b),
        a.class_def_ok(v),
    ensures
        b.class_def_ok(v),
{
    let fs = v.fields@;
    assert forall|i: int| 0 <= i < fs.len() implies b.type_ok((#[trigger] fs[i]).0)
        && b.has_string(fs[i].1) by {
        lemma_type_fits(a, b, fs[i].0);
    }
    let ss = v.static_fields@;
    assert forall|i: int| 0 <= i < ss.len() implies b.type_ok((#[trigger] ss[i]).0)
        && b.has_string(ss[i].1) by {
        lemma_type_fits(a, b, ss[i].0);
    }
    assert forall|i: int| 0 <= i < v.methods@.len() implies b.has_method_def(
        #[trigger] v.methods@[i],
    ) by {
        assert(a.has_method_def(v.methods@[i]));
    }
}

/// A consistent assembly is within the frame of its own sizes.
pub proof fn lemma_within_own_frame(c: &Contents)
    ensures
        within(c, &sized(c.sizes(), c.class_defs, c.main_module)),
        within(&sized(c.sizes(), c.class_defs, c.main_module), c),
{
    let f = sized(c.sizes(), c.class_defs, c.main_module);
    assert forall|h: ClassDefIdx| #[trigger] c.has_class_def(h) == f.has_class_def(h) by {}
}

/// The step of the journal that a value was interned at stays sound when
/// the assembly grows and defines more classes.
pub proof fn lemma_step_kept(old: &Contents, new: &Contents, k: int)
    requires
        0 <= k < old.journal.len(),
        old.step_ok(k),
        sizes_after(old.journal) == old.sizes(),
        prefix(old.journal, new.journal),
        prefix(old.strings, new.strings),
        prefix(old.types, new.types),
        prefix(old.class_refs, new.class_refs),
        prefix(old.sigs, new.sigs),
        prefix(old.fields, new.fields),
        prefix(old.statics, new.statics),
        prefix(old.method_refs, new.method_refs),
        prefix(old.nodes, new.nodes),
        prefix(old.roots, new.roots),
        prefix(old.method_defs, new.method_defs),
        new.main_module == old.main_module,
        forall|h: ClassDefIdx| #[trigger] old.has_class_def(h) ==> new.has_class_def(h),
    ensures
        new.step_ok(k),
{
    assert(new.journal.take(k) =~= old.journal.take(k));
    assert(new.journal[k] == old.journal[k]);
    let n = sizes_after(old.journal.take(k));
    let a = sized(n, old.class_defs, old.main_module);
    let b = sized(n, new.class_defs, new.main_module);
    assert forall|h: ClassDefIdx| #[trigger] a.has_class_def(h) implies b.has_class_def(h) by {
        assert(old.has_class_def(h));
        assert(new.has_class_def(h));
    }
    assert(within(&a, &b));
    match old.journal[k] {
        Category::Types => {
            lemma_type_fits(&a, &b, old.types[n.types as int]);
        },
        Category::ClassRefs => {
            lemma_class_ref_fits(&a, &b, &old.class_refs[n.class_refs as int]);
        },
        Category::Sigs => {
            lemma_sig_fits(&a, &b, &old.sigs[n.sigs as int]);
        },
        Category::Fields => {
            lemma_field_fits(&a, &b, &old.fields[n.fields as int]);
        },
        Category::StaticFields => {
            lemma_static_fits(&a, &b, &old.statics[n.statics as int]);
        },
        Category::MethodRefs => {
            lemma_method_ref_fits(&a, &b, &old.method_refs[n.method_refs as int]);
        },
        Category::Nodes => {
            lemma_node_fits(&a, &b, &old.nodes[n.nodes as int]);
        },
        Category::Roots => {
            lemma_root_fits(&a, &b, &old.roots[n.roots as int]);
        },
        Category::MethodDefs => {
            lemma_method_def_fits(&a, &b, &old.method_defs[n.method_defs as int]);
        },
        _ => {},
    }
}

/// The journal stays sound when a value that the assembly owns is interned
/// and listed.
pub proof fn lemma_journal_push(old: &Contents, new: &Contents, c: Category)
    requires
        old.journaled(),
        new.journal == old.journal.push(c),
        new.sizes() == old.sizes().bump(c),
        !(c is ClassDefs),
        prefix(old.strings, new.strings),
        prefix(old.types, new.types),
        prefix(old.class_refs, new.class_refs),
        prefix(old.sigs, new.sigs),
        prefix(old.fields, new.fields),
        prefix(old.statics, new.statics),
        prefix(old.method_refs, new.method_refs),
        prefix(old.nodes, new.nodes),
        prefix(old.roots, new.roots),
        prefix(old.method_defs, new.method_defs),
        new.class_defs == old.class_defs,
        new.main_module == old.main_module,
        new.step_ok(old.journal.len() as int),
    ensures
        new.journaled(),
{
    lemma_sizes_push(old.journal, c);
    assert forall|k: int| 0 <= k < new.journal.len() implies #[trigger] new.step_ok(k) by {
        if k < old.journal.len() {
            lemma_step_kept(old, new, k);
        }
    }
}

/// The journal stays sound when the assembly defines more classes.
pub proof fn lemma_journal_redefine(old: &Contents, new: &Contents)
    requires
        old.journaled(),
        new.journal == old.journal,
        new.strings == old.strings,
        new.types == old.types,
        new.class_refs == old.class_refs,
        new.sigs == old.sigs,
        new.fields == old.fields,
        new.statics == old.statics,
        new.method_refs == old.method_refs,
        new.nodes == old.nodes,
        new.roots == old.roots,
        new.method_defs == old.method_defs,
        new.main_module == old.main_module,
        forall|h: ClassDefIdx| #[trigger] old.has_class_def(h) ==> new.has_class_def(h),
    ensures
        new.journaled(),
{
    assert forall|k: int| 0 <= k < new.journal.len() implies #[trigger] new.step_ok(k) by {
        lemma_step_kept(old, new, k);
    }
}

} // verus!
