//! What holds of the whole: the laws that relate interning, translation,
//! typing and upgrading to one another.

use crate::arena::Interned;
use crate::cilnode::{BinOp, CILNode};
use crate::cilroot::CILRoot;
use crate::class_ref::{FieldDesc, MethodRef, StaticFieldDesc};
use crate::contents::Contents;
use crate::handles::{ClassRefIdx, NodeIdx, StringIdx};
use crate::known::{
    lemma_block_known, lemma_class_def_known, lemma_field_known, lemma_method_def_known,
    lemma_method_ref_known, lemma_node_known, lemma_root_known, lemma_sig_known,
    lemma_static_known, lemma_type_known,
};
use crate::method::{BasicBlock, ClassDef, MethodDef};
use crate::resolved::{ResolvedClassRef, ResolvedNode, ResolvedType};
use crate::stability::{
    lemma_block_stable, lemma_class_def_stable, lemma_field_stable, lemma_method_def_stable,
    lemma_method_ref_stable, lemma_node_stable, lemma_root_stable, lemma_sig_stable,
    lemma_static_stable, lemma_type_stable,
};
use crate::tpe::{FnSig, Type};
use crate::typing::{is_arithmetic, is_pointer_width, type_of_tree, ResolvedTypingError};
use crate::unique::{
    lemma_block_unique, lemma_class_def_unique, lemma_class_ref_unique, lemma_field_value_unique,
    lemma_method_def_value_unique, lemma_method_ref_value_unique, lemma_node_unique,
    lemma_node_value_unique, lemma_root_value_unique, lemma_sig_value_unique,
    lemma_static_value_unique, lemma_string_unique, lemma_type_value_unique,
};
use crate::v1::{upgrade_ptr_cast, upgrade_tree, upgrade_trees, UpgradeError, V1Node, V1Opcode};
use vstd::prelude::*;

verus! {

/// Meaning decides the value: if a type of a consistent assembly and
/// a type of a consistent assembly that extends it resolve to the same
/// tree, the two are structurally equal.
pub proof fn lemma_type_canonical(d1: &Contents, x1: Type, d2: &Contents, x2: Type)
    requires
        d1.wf(),
        d2.wf(),
        d2.extends(d1),
        d1.type_ok(x1),
        d2.type_ok(x2),
        d1.resolve_type(x1) == d2.resolve_type(x2),
    ensures
        x1 == x2,
{
    lemma_type_stable(d1, d2, x1);
    let c = d2;
    lemma_type_value_unique(c, x1, x2);
}

/// Translating a type of an assembly into that assembly itself gives it
/// back: if `r` is what the translation of `x` from `a` into `a` returns,
/// and `post` is `a` after the translation, then `r` is structurally equal
/// to `x`.
pub proof fn law_type_self_translation(a: &Contents, x: Type, post: &Contents, r: Type)
    requires
        a.wf(),
        a.type_ok(x),
        post.wf(),
        post.extends(a),
        post.type_ok(r),
        post.resolve_type(r) == a.resolve_type(x),
    ensures
        x == r,
{
    lemma_type_canonical(a, x, post, r);
}

/// Translation is deterministic: if a type `x` of `source` is translated
/// into a destination, and then once more into what the destination has
/// become, the second translation returns what the first returned, up to
/// structural equality, so that interning either gives one handle; and
/// the destination knows the value after the first translation, so that
/// the second changes nothing.
pub proof fn law_type_translation_deterministic(
    source: &Contents,
    x: Type,
    d0: &Contents,
    d1: &Contents,
    r1: Type,
    d2: &Contents,
    r2: Type,
)
    requires
        source.wf(),
        source.type_ok(x),
        d0.wf(),
        d1.wf(),
        d1.extends(d0),
        d1.type_ok(r1),
        d1.resolve_type(r1) == source.resolve_type(x),
        d2.wf(),
        d2.extends(d1),
        d2.type_ok(r2),
        d2.resolve_type(r2) == source.resolve_type(x),
    ensures
        d1.knows_type(source.resolve_type(x)),
        r1 == r2,
{
    lemma_type_known(d1, r1);
    lemma_type_canonical(d1, r1, d2, r2);
}

/// Meaning decides the value: if a signature of a consistent assembly and
/// a signature of a consistent assembly that extends it resolve to the same
/// tree, the two are structurally equal.
pub proof fn lemma_sig_canonical(d1: &Contents, x1: &FnSig, d2: &Contents, x2: &FnSig)
    requires
        d1.wf(),
        d2.wf(),
        d2.extends(d1),
        d1.sig_ok(x1),
        d2.sig_ok(x2),
        d1.resolve_sig(x1) == d2.resolve_sig(x2),
    ensures
        x1.alike(x2),
{
    lemma_sig_stable(d1, d2, x1);
    let c = d2;
    lemma_sig_value_unique(c, x1, x2);
}

/// Translating a signature of an assembly into that assembly itself gives it
/// back: if `r` is what the translation of `x` from `a` into `a` returns,
/// and `post` is `a` after the translation, then `r` is structurally equal
/// to `x`.
pub proof fn law_sig_self_translation(a: &Contents, x: &FnSig, post: &Contents, r: &FnSig)
    requires
        a.wf(),
        a.sig_ok(x),
        post.wf(),
        post.extends(a),
        post.sig_ok(r),
        post.resolve_sig(r) == a.resolve_sig(x),
    ensures
        x.alike(r),
{
    lemma_sig_canonical(a, x, post, r);
}

/// Translation is deterministic: if a signature `x` of `source` is translated
/// into a destination, and then once more into what the destination has
/// become, the second translation returns what the first returned, up to
/// structural equality, so that interning either gives one handle; and
/// the destination knows the value after the first translation, so that
/// the second changes nothing.
pub proof fn law_sig_translation_deterministic(
    source: &Contents,
    x: &FnSig,
    d0: &Contents,
    d1: &Contents,
    r1: &FnSig,
    d2: &Contents,
    r2: &FnSig,
)
    requires
        source.wf(),
        source.sig_ok(x),
        d0.wf(),
        d1.wf(),
        d1.extends(d0),
        d1.sig_ok(r1),
        d1.resolve_sig(r1) == source.resolve_sig(x),
        d2.wf(),
        d2.extends(d1),
        d2.sig_ok(r2),
        d2.resolve_sig(r2) == source.resolve_sig(x),
    ensures
        d1.knows_sig(source.resolve_sig(x)),
        r1.alike(r2),
{
    lemma_sig_known(d1, r1);
    lemma_sig_canonical(d1, r1, d2, r2);
}

/// Meaning decides the value: if a field descriptor of a consistent assembly and
/// a field descriptor of a consistent assembly that extends it resolve to the same
/// tree, the two are structurally equal.
pub proof fn lemma_field_canonical(d1: &Contents, x1: &FieldDesc, d2: &Contents, x2: &FieldDesc)
    requires
        d1.wf(),
        d2.wf(),
        d2.extends(d1),
        d1.field_ok(x1),
        d2.field_ok(x2),
        d1.resolve_field(x1) == d2.resolve_field(x2),
    ensures
        *x1 == *x2,
{
    lemma_field_stable(d1, d2, x1);
    let c = d2;
    lemma_field_value_unique(c, x1, x2);
}

/// Translating a field descriptor of an assembly into that assembly itself gives it
/// back: if `r` is what the translation of `x` from `a` into `a` returns,
/// and `post` is `a` after the translation, then `r` is structurally equal
/// to `x`.
pub proof fn law_field_self_translation(a: &Contents, x: &FieldDesc, post: &Contents, r: &FieldDesc)
    requires
        a.wf(),
        a.field_ok(x),
        post.wf(),
        post.extends(a),
        post.field_ok(r),
        post.resolve_field(r) == a.resolve_field(x),
    ensures
        *x == *r,
{
    lemma_field_canonical(a, x, post, r);
}

/// Translation is deterministic: if a field descriptor `x` of `source` is translated
/// into a destination, and then once more into what the destination has
/// become, the second translation returns what the first returned, up to
/// structural equality, so that interning either gives one handle; and
/// the destination knows the value after the first translation, so that
/// the second changes nothing.
pub proof fn law_field_translation_deterministic(
    source: &Contents,
    x: &FieldDesc,
    d0: &Contents,
    d1: &Contents,
    r1: &FieldDesc,
    d2: &Contents,
    r2: &FieldDesc,
)
    requires
        source.wf(),
        source.field_ok(x),
        d0.wf(),
        d1.wf(),
        d1.extends(d0),
        d1.field_ok(r1),
        d1.resolve_field(r1) == source.resolve_field(x),
        d2.wf(),
        d2.extends(d1),
        d2.field_ok(r2),
        d2.resolve_field(r2) == source.resolve_field(x),
    ensures
        d1.knows_field(source.resolve_field(x)),
        *r1 == *r2,
{
    lemma_field_known(d1, r1);
    lemma_field_canonical(d1, r1, d2, r2);
}

/// Meaning decides the value: if a static-field descriptor of a consistent assembly and
/// a static-field descriptor of a consistent assembly that extends it resolve to the same
/// tree, the two are structurally equal.
pub proof fn lemma_static_field_canonical(
    d1: &Contents,
    x1: &StaticFieldDesc,
    d2: &Contents,
    x2: &StaticFieldDesc,
)
    requires
        d1.wf(),
        d2.wf(),
        d2.extends(d1),
        d1.static_ok(x1),
        d2.static_ok(x2),
        d1.resolve_static(x1) == d2.resolve_static(x2),
    ensures
        *x1 == *x2,
{
    lemma_static_stable(d1, d2, x1);
    let c = d2;
    lemma_static_value_unique(c, x1, x2);
}

/// Translating a static-field descriptor of an assembly into that assembly itself gives it
/// back: if `r` is what the translation of `x` from `a` into `a` returns,
/// and `post` is `a` after the translation, then `r` is structurally equal
/// to `x`.
pub proof fn law_static_field_self_translation(
    a: &Contents,
    x: &StaticFieldDesc,
    post: &Contents,
    r: &StaticFieldDesc,
)
    requires
        a.wf(),
        a.static_ok(x),
        post.wf(),
        post.extends(a),
        post.static_ok(r),
        post.resolve_static(r) == a.resolve_static(x),
    ensures
        *x == *r,
{
    lemma_static_field_canonical(a, x, post, r);
}

/// Translation is deterministic: if a static-field descriptor `x` of `source` is translated
/// into a destination, and then once more into what the destination has
/// become, the second translation returns what the first returned, up to
/// structural equality, so that interning either gives one handle; and
/// the destination knows the value after the first translation, so that
/// the second changes nothing.
pub proof fn law_static_field_translation_deterministic(
    source: &Contents,
    x: &StaticFieldDesc,
    d0: &Contents,
    d1: &Contents,
    r1: &StaticFieldDesc,
    d2: &Contents,
    r2: &StaticFieldDesc,
)
    requires
        source.wf(),
        source.static_ok(x),
        d0.wf(),
        d1.wf(),
        d1.extends(d0),
        d1.static_ok(r1),
        d1.resolve_static(r1) == source.resolve_static(x),
        d2.wf(),
        d2.extends(d1),
        d2.static_ok(r2),
        d2.resolve_static(r2) == source.resolve_static(x),
    ensures
        d1.knows_static(source.resolve_static(x)),
        *r1 == *r2,
{
    lemma_static_known(d1, r1);
    lemma_static_field_canonical(d1, r1, d2, r2);
}

/// Meaning decides the value: if a method reference of a consistent assembly and
/// a method reference of a consistent assembly that extends it resolve to the same
/// tree, the two are structurally equal.
pub proof fn lemma_method_ref_canonical(d1: &Contents, x1: &MethodRef, d2: &Contents, x2: &MethodRef)
    requires
        d1.wf(),
        d2.wf(),
        d2.extends(d1),
        d1.method_ref_ok(x1),
        d2.method_ref_ok(x2),
        d1.resolve_method_ref(x1) == d2.resolve_method_ref(x2),
    ensures
        x1.alike(x2),
{
    lemma_method_ref_stable(d1, d2, x1);
    let c = d2;
    lemma_method_ref_value_unique(c, x1, x2);
}

/// Translating a method reference of an assembly into that assembly itself gives it
/// back: if `r` is what the translation of `x` from `a` into `a` returns,
/// and `post` is `a` after the translation, then `r` is structurally equal
/// to `x`.
pub proof fn law_method_ref_self_translation(a: &Contents, x: &MethodRef, post: &Contents, r: &MethodRef)
    requires
        a.wf(),
        a.method_ref_ok(x),
        post.wf(),
        post.extends(a),
        post.method_ref_ok(r),
        post.resolve_method_ref(r) == a.resolve_method_ref(x),
    ensures
        x.alike(r),
{
    lemma_method_ref_canonical(a, x, post, r);
}

/// Translation is deterministic: if a method reference `x` of `source` is translated
/// into a destination, and then once more into what the destination has
/// become, the second translation returns what the first returned, up to
/// structural equality, so that interning either gives one handle; and
/// the destination knows the value after the first translation, so that
/// the second changes nothing.
pub proof fn law_method_ref_translation_deterministic(
    source: &Contents,
    x: &MethodRef,
    d0: &Contents,
    d1: &Contents,
    r1: &MethodRef,
    d2: &Contents,
    r2: &MethodRef,
)
    requires
        source.wf(),
        source.method_ref_ok(x),
        d0.wf(),
        d1.wf(),
        d1.extends(d0),
        d1.method_ref_ok(r1),
        d1.resolve_method_ref(r1) == source.resolve_method_ref(x),
        d2.wf(),
        d2.extends(d1),
        d2.method_ref_ok(r2),
        d2.resolve_method_ref(r2) == source.resolve_method_ref(x),
    ensures
        d1.knows_method_ref(source.resolve_method_ref(x)),
        r1.alike(r2),
{
    lemma_method_ref_known(d1, r1);
    lemma_method_ref_canonical(d1, r1, d2, r2);
}

/// Meaning decides the value: if a node of a consistent assembly and
/// a node of a consistent assembly that extends it resolve to the same
/// tree, the two are structurally equal.
pub proof fn lemma_node_canonical(d1: &Contents, x1: &CILNode, d2: &Contents, x2: &CILNode)
    requires
        d1.wf(),
        d2.wf(),
        d2.extends(d1),
        d1.node_ok(x1),
        d2.node_ok(x2),
        d1.resolve_node(x1) == d2.resolve_node(x2),
    ensures
        x1.alike(x2),
{
    lemma_node_stable(d1, d2, x1);
    let c = d2;
    lemma_node_value_unique(c, x1, x2);
}

/// Translating a node of an assembly into that assembly itself gives it
/// back: if `r` is what the translation of `x` from `a` into `a` returns,
/// and `post` is `a` after the translation, then `r` is structurally equal
/// to `x`.
pub proof fn law_node_self_translation(a: &Contents, x: &CILNode, post: &Contents, r: &CILNode)
    requires
        a.wf(),
        a.node_ok(x),
        post.wf(),
        post.extends(a),
        post.node_ok(r),
        post.resolve_node(r) == a.resolve_node(x),
    ensures
        x.alike(r),
{
    lemma_node_canonical(a, x, post, r);
}

/// Translation is deterministic: if a node `x` of `source` is translated
/// into a destination, and then once more into what the destination has
/// become, the second translation returns what the first returned, up to
/// structural equality, so that interning either gives one handle; and
/// the destination knows the value after the first translation, so that
/// the second changes nothing.
pub proof fn law_node_translation_deterministic(
    source: &Contents,
    x: &CILNode,
    d0: &Contents,
    d1: &Contents,
    r1: &CILNode,
    d2: &Contents,
    r2: &CILNode,
)
    requires
        source.wf(),
        source.node_ok(x),
        d0.wf(),
        d1.wf(),
        d1.extends(d0),
        d1.node_ok(r1),
        d1.resolve_node(r1) == source.resolve_node(x),
        d2.wf(),
        d2.extends(d1),
        d2.node_ok(r2),
        d2.resolve_node(r2) == source.resolve_node(x),
    ensures
        d1.knows_node(source.resolve_node(x)),
        r1.alike(r2),
{
    lemma_node_known(d1, r1);
    lemma_node_canonical(d1, r1, d2, r2);
}

/// Meaning decides the value: if a root of a consistent assembly and
/// a root of a consistent assembly that extends it resolve to the same
/// tree, the two are structurally equal.
pub proof fn lemma_root_canonical(d1: &Contents, x1: &CILRoot, d2: &Contents, x2: &CILRoot)
    requires
        d1.wf(),
        d2.wf(),
        d2.extends(d1),
        d1.root_ok(x1),
        d2.root_ok(x2),
        d1.resolve_root(x1) == d2.resolve_root(x2),
    ensures
        x1.alike(x2),
{
    lemma_root_stable(d1, d2, x1);
    let c = d2;
    lemma_root_value_unique(c, x1, x2);
}

/// Translating a root of an assembly into that assembly itself gives it
/// back: if `r` is what the translation of `x` from `a` into `a` returns,
/// and `post` is `a` after the translation, then `r` is structurally equal
/// to `x`.
pub proof fn law_root_self_translation(a: &Contents, x: &CILRoot, post: &Contents, r: &CILRoot)
    requires
        a.wf(),
        a.root_ok(x),
        post.wf(),
        post.extends(a),
        post.root_ok(r),
        post.resolve_root(r) == a.resolve_root(x),
    ensures
        x.alike(r),
{
    lemma_root_canonical(a, x, post, r);
}

/// Translation is deterministic: if a root `x` of `source` is translated
/// into a destination, and then once more into what the destination has
/// become, the second translation returns what the first returned, up to
/// structural equality, so that interning either gives one handle; and
/// the destination knows the value after the first translation, so that
/// the second changes nothing.
pub proof fn law_root_translation_deterministic(
    source: &Contents,
    x: &CILRoot,
    d0: &Contents,
    d1: &Contents,
    r1: &CILRoot,
    d2: &Contents,
    r2: &CILRoot,
)
    requires
        source.wf(),
        source.root_ok(x),
        d0.wf(),
        d1.wf(),
        d1.extends(d0),
        d1.root_ok(r1),
        d1.resolve_root(r1) == source.resolve_root(x),
        d2.wf(),
        d2.extends(d1),
        d2.root_ok(r2),
        d2.resolve_root(r2) == source.resolve_root(x),
    ensures
        d1.knows_root(source.resolve_root(x)),
        r1.alike(r2),
{
    lemma_root_known(d1, r1);
    lemma_root_canonical(d1, r1, d2, r2);
}

/// Meaning decides the value: if a block of a consistent assembly and
/// a block of a consistent assembly that extends it resolve to the same
/// tree, the two are structurally equal.
pub proof fn lemma_block_canonical(d1: &Contents, x1: &BasicBlock, d2: &Contents, x2: &BasicBlock)
    requires
        d1.wf(),
        d2.wf(),
        d2.extends(d1),
        d1.block_ok(x1),
        d2.block_ok(x2),
        d1.resolve_block(x1) == d2.resolve_block(x2),
    ensures
        x1.alike(x2),
{
    lemma_block_stable(d1, d2, x1);
    let c = d2;
    lemma_block_unique(c, x1, x2);
}

/// Translating a block of an assembly into that assembly itself gives it
/// back: if `r` is what the translation of `x` from `a` into `a` returns,
/// and `post` is `a` after the translation, then `r` is structurally equal
/// to `x`.
pub proof fn law_block_self_translation(a: &Contents, x: &BasicBlock, post: &Contents, r: &BasicBlock)
    requires
        a.wf(),
        a.block_ok(x),
        post.wf(),
        post.extends(a),
        post.block_ok(r),
        post.resolve_block(r) == a.resolve_block(x),
    ensures
        x.alike(r),
{
    lemma_block_canonical(a, x, post, r);
}

/// Translation is deterministic: if a block `x` of `source` is translated
/// into a destination, and then once more into what the destination has
/// become, the second translation returns what the first returned, up to
/// structural equality, so that interning either gives one handle; and
/// the destination knows the value after the first translation, so that
/// the second changes nothing.
pub proof fn law_block_translation_deterministic(
    source: &Contents,
    x: &BasicBlock,
    d0: &Contents,
    d1: &Contents,
    r1: &BasicBlock,
    d2: &Contents,
    r2: &BasicBlock,
)
    requires
        source.wf(),
        source.block_ok(x),
        d0.wf(),
        d1.wf(),
        d1.extends(d0),
        d1.block_ok(r1),
        d1.resolve_block(r1) == source.resolve_block(x),
        d2.wf(),
        d2.extends(d1),
        d2.block_ok(r2),
        d2.resolve_block(r2) == source.resolve_block(x),
    ensures
        d1.knows_block(source.resolve_block(x)),
        r1.alike(r2),
{
    lemma_block_known(d1, r1);
    lemma_block_canonical(d1, r1, d2, r2);
}

/// Meaning decides the value: if a method definition of a consistent assembly and
/// a method definition of a consistent assembly that extends it resolve to the same
/// tree, the two are structurally equal.
pub proof fn lemma_method_def_canonical(d1: &Contents, x1: &MethodDef, d2: &Contents, x2: &MethodDef)
    requires
        d1.wf(),
        d2.wf(),
        d2.extends(d1),
        d1.method_def_ok(x1),
        d2.method_def_ok(x2),
        d1.resolve_method_def(x1) == d2.resolve_method_def(x2),
    ensures
        x1.alike(x2),
{
    lemma_method_def_stable(d1, d2, x1);
    let c = d2;
    lemma_method_def_value_unique(c, x1, x2);
}

/// Translating a method definition of an assembly into that assembly itself gives it
/// back: if `r` is what the translation of `x` from `a` into `a` returns,
/// and `post` is `a` after the translation, then `r` is structurally equal
/// to `x`.
pub proof fn law_method_def_self_translation(a: &Contents, x: &MethodDef, post: &Contents, r: &MethodDef)
    requires
        a.wf(),
        a.method_def_ok(x),
        post.wf(),
        post.extends(a),
        post.method_def_ok(r),
        post.resolve_method_def(r) == a.resolve_method_def(x),
    ensures
        x.alike(r),
{
    lemma_method_def_canonical(a, x, post, r);
}

/// Translation is deterministic: if a method definition `x` of `source` is translated
/// into a destination, and then once more into what the destination has
/// become, the second translation returns what the first returned, up to
/// structural equality, so that interning either gives one handle; and
/// the destination knows the value after the first translation, so that
/// the second changes nothing.
pub proof fn law_method_def_translation_deterministic(
    source: &Contents,
    x: &MethodDef,
    d0: &Contents,
    d1: &Contents,
    r1: &MethodDef,
    d2: &Contents,
    r2: &MethodDef,
)
    requires
        source.wf(),
        source.method_def_ok(x),
        d0.wf(),
        d1.wf(),
        d1.extends(d0),
        d1.method_def_ok(r1),
        d1.resolve_method_def(r1) == source.resolve_method_def(x),
        d2.wf(),
        d2.extends(d1),
        d2.method_def_ok(r2),
        d2.resolve_method_def(r2) == source.resolve_method_def(x),
    ensures
        d1.knows_method_def(source.resolve_method_def(x)),
        r1.alike(r2),
{
    lemma_method_def_known(d1, r1);
    lemma_method_def_canonical(d1, r1, d2, r2);
}

/// Meaning decides the value: if a class definition of a consistent assembly and
/// a class definition of a consistent assembly that extends it resolve to the same
/// tree, the two are structurally equal.
pub proof fn lemma_class_def_canonical(d1: &Contents, x1: &ClassDef, d2: &Contents, x2: &ClassDef)
    requires
        d1.wf(),
        d2.wf(),
        d2.extends(d1),
        d1.class_def_ok(x1),
        d2.class_def_ok(x2),
        d1.resolve_class_def(x1) == d2.resolve_class_def(x2),
    ensures
        x1.alike(x2),
{
    lemma_class_def_stable(d1, d2, x1);
    let c = d2;
    lemma_class_def_unique(c, x1, x2);
}

/// Translating a class definition of an assembly into that assembly itself gives it
/// back: if `r` is what the translation of `x` from `a` into `a` returns,
/// and `post` is `a` after the translation, then `r` is structurally equal
/// to `x`.
pub proof fn law_class_def_self_translation(a: &Contents, x: &ClassDef, post: &Contents, r: &ClassDef)
    requires
        a.wf(),
        a.class_def_ok(x),
        post.wf(),
        post.extends(a),
        post.class_def_ok(r),
        post.resolve_class_def(r) == a.resolve_class_def(x),
    ensures
        x.alike(r),
{
    lemma_class_def_canonical(a, x, post, r);
}

/// Translation is deterministic: if a class definition `x` of `source` is translated
/// into a destination, and then once more into what the destination has
/// become, the second translation returns what the first returned, up to
/// structural equality, so that interning either gives one handle; and
/// the destination knows the value after the first translation, so that
/// the second changes nothing.
pub proof fn law_class_def_translation_deterministic(
    source: &Contents,
    x: &ClassDef,
    d0: &Contents,
    d1: &Contents,
    r1: &ClassDef,
    d2: &Contents,
    r2: &ClassDef,
)
    requires
        source.wf(),
        source.class_def_ok(x),
        d0.wf(),
        d1.wf(),
        d1.extends(d0),
        d1.class_def_ok(r1),
        d1.resolve_class_def(r1) == source.resolve_class_def(x),
        d2.wf(),
        d2.extends(d1),
        d2.class_def_ok(r2),
        d2.resolve_class_def(r2) == source.resolve_class_def(x),
    ensures
        d1.knows_class_def(source.resolve_class_def(x)),
        r1.alike(r2),
{
    lemma_class_def_known(d1, r1);
    lemma_class_def_canonical(d1, r1, d2, r2);
}

/// Translating the class reference behind a handle of an assembly into
/// that assembly itself gives the handle back.
pub proof fn law_class_ref_self_translation(
    a: &Contents,
    h: ClassRefIdx,
    post: &Contents,
    r: ClassRefIdx,
)
    requires
        a.wf(),
        a.has_class_ref(h),
        post.wf(),
        post.extends(a),
        post.has_class_ref(r),
        post.class_tree(r) == a.class_tree(h),
    ensures
        r == h,
{
    lemma_class_ref_unique(post, r, h);
}

/// Translating the same class reference twice into one destination gives
/// the same handle both times.
pub proof fn law_class_ref_translation_deterministic(
    source: &Contents,
    h: ClassRefIdx,
    d0: &Contents,
    d1: &Contents,
    r1: ClassRefIdx,
    d2: &Contents,
    r2: ClassRefIdx,
)
    requires
        source.wf(),
        source.has_class_ref(h),
        d0.wf(),
        d1.wf(),
        d1.extends(d0),
        d1.has_class_ref(r1),
        d1.class_tree(r1) == source.class_tree(h),
        d2.wf(),
        d2.extends(d1),
        d2.has_class_ref(r2),
        d2.class_tree(r2) == source.class_tree(h),
    ensures
        r1 == r2,
{
    lemma_class_ref_unique(d2, r1, r2);
}

/// Strings collapse: two handles, of one source or of two, that hold the
/// same string are interned under one handle of the destination, whatever
/// else the destination took in between.
pub proof fn law_strings_collapse(
    source1: &Contents,
    h1: StringIdx,
    source2: &Contents,
    h2: StringIdx,
    d1: &Contents,
    r1: StringIdx,
    d2: &Contents,
    r2: StringIdx,
)
    requires
        source1.string_of(h1) == source2.string_of(h2),
        d1.wf(),
        d1.has_string(r1),
        d1.string_of(r1) == source1.string_of(h1),
        d2.wf(),
        d2.extends(d1),
        d2.has_string(r2),
        d2.string_of(r2) == source2.string_of(h2),
    ensures
        r1 == r2,
{
    lemma_string_unique(d2, r1, r2);
}

/// The handles of the operands of a node, in order.
pub open spec fn operands(n: &CILNode) -> Seq<NodeIdx> {
    match *n {
        CILNode::BinOp(lhs, rhs, _) => seq![lhs, rhs],
        CILNode::UnOp(arg, _) => seq![arg],
        CILNode::Call(call) => call.1@,
        CILNode::IntCast { input, .. } => seq![input],
        CILNode::FloatCast { input, .. } => seq![input],
        CILNode::RefToPtr(input) => seq![input],
        CILNode::PtrCast(input, _) => seq![input],
        CILNode::LdFieldAdress { addr, .. } => seq![addr],
        CILNode::LdField { addr, .. } => seq![addr],
        CILNode::LdInd { addr, .. } => seq![addr],
        CILNode::IsInst(object, _) => seq![object],
        CILNode::CheckedCast(object, _) => seq![object],
        CILNode::CallI(call) => seq![call.0] + call.2@,
        CILNode::LocAlloc { size } => seq![size],
        CILNode::LdLen(array) => seq![array],
        CILNode::LdElelemRef { array, index } => seq![array, index],
        CILNode::UnboxAny { object, .. } => seq![object],
        _ => Seq::empty(),
    }
}

/// A node that resolves to the tree of another node has as many operands,
/// and its operands resolve, one by one, to the trees of the operands of
/// the other.
pub proof fn lemma_operand_trees(source: &Contents, n: &CILNode, dest: &Contents, r: &CILNode)
    requires
        source.node_ok(n),
        dest.node_ok(r),
        dest.resolve_node(r) == source.resolve_node(n),
    ensures
        operands(r).len() == operands(n).len(),
        forall|i: int|
            0 <= i < operands(n).len() ==> dest.has_node(#[trigger] operands(r)[i])
                && source.has_node(operands(n)[i]) && dest.node_tree(operands(r)[i])
                == source.node_tree(operands(n)[i]),
{
    match *n {
        CILNode::Call(call) => {
            let c = r->Call_0;
            assert(dest.node_trees(c.1@).len() == source.node_trees(call.1@).len());
            assert forall|i: int| 0 <= i < call.1@.len() implies dest.has_node(#[trigger] c.1@[i])
                && source.has_node(call.1@[i]) && dest.node_tree(c.1@[i]) == source.node_tree(
                call.1@[i],
            ) by {
                assert(dest.node_trees(c.1@)[i] == source.node_trees(call.1@)[i]);
            }
        },
        CILNode::CallI(call) => {
            let c = r->CallI_0;
            assert(dest.node_trees(c.2@).len() == source.node_trees(call.2@).len());
            assert forall|i: int| 0 <= i < call.2@.len() implies dest.has_node(#[trigger] c.2@[i])
                && source.has_node(call.2@[i]) && dest.node_tree(c.2@[i]) == source.node_tree(
                call.2@[i],
            ) by {
                assert(dest.node_trees(c.2@)[i] == source.node_trees(call.2@)[i]);
            }
        },
        _ => {},
    }
}

/// Sharing is preserved: if two nodes of the source have an operand in
/// common, then what their translations into one destination have in the
/// places of that operand is again one handle, not two equal copies.
pub proof fn law_sharing_preserved(
    source: &Contents,
    n1: &CILNode,
    i: int,
    n2: &CILNode,
    j: int,
    d1: &Contents,
    r1: &CILNode,
    d2: &Contents,
    r2: &CILNode,
)
    requires
        source.wf(),
        source.node_ok(n1),
        source.node_ok(n2),
        0 <= i < operands(n1).len(),
        0 <= j < operands(n2).len(),
        operands(n1)[i] == operands(n2)[j],
        d1.wf(),
        d1.node_ok(r1),
        d1.resolve_node(r1) == source.resolve_node(n1),
        d2.wf(),
        d2.extends(d1),
        d2.node_ok(r2),
        d2.resolve_node(r2) == source.resolve_node(n2),
    ensures
        i < operands(r1).len(),
        j < operands(r2).len(),
        operands(r1)[i] == operands(r2)[j],
{
    lemma_operand_trees(source, n1, d1, r1);
    lemma_operand_trees(source, n2, d2, r2);
    lemma_node_unique(d2, operands(r1)[i], operands(r2)[j]);
}

/// Typing of arithmetic: an addition, subtraction or multiplication of two
/// operands of one type has that type; of a pointer and an integer of the
/// width of a pointer, in either order, the pointer type; of two operands
/// of other, different types no type, but the error that names both.
pub proof fn law_arithmetic_typing(
    lhs: ResolvedNode,
    rhs: ResolvedNode,
    op: BinOp,
    l: ResolvedType,
    r: ResolvedType,
)
    requires
        is_arithmetic(op),
        type_of_tree(lhs) == Ok::<ResolvedType, ResolvedTypingError>(l),
        type_of_tree(rhs) == Ok::<ResolvedType, ResolvedTypingError>(r),
    ensures
        l == r ==> type_of_tree(ResolvedNode::BinOp(Box::new(lhs), Box::new(rhs), op)) == Ok::<
            ResolvedType,
            ResolvedTypingError,
        >(l),
        l is Ptr && is_pointer_width(r) ==> type_of_tree(
            ResolvedNode::BinOp(Box::new(lhs), Box::new(rhs), op),
        ) == Ok::<ResolvedType, ResolvedTypingError>(l),
        is_pointer_width(l) && r is Ptr ==> type_of_tree(
            ResolvedNode::BinOp(Box::new(lhs), Box::new(rhs), op),
        ) == Ok::<ResolvedType, ResolvedTypingError>(r),
        l != r && !(l is Ptr && is_pointer_width(r)) && !(is_pointer_width(l) && r is Ptr)
            ==> type_of_tree(ResolvedNode::BinOp(Box::new(lhs), Box::new(rhs), op)) == Err::<
            ResolvedType,
            ResolvedTypingError,
        >(ResolvedTypingError::Mismatch { lhs: l, rhs: r }),
{
}

/// The legacy opcode of a node, where the current representation has no
/// counterpart for it.
pub open spec fn unsupported_opcode(v1: &V1Node) -> Option<V1Opcode> {
    match *v1 {
        V1Node::BlackBox(_) => Some(V1Opcode::BlackBox),
        V1Node::LoadGlobalAllocPtr { .. } => Some(V1Opcode::LoadGlobalAllocPtr),
        V1Node::PointerToConstValue(_) => Some(V1Opcode::PointerToConstValue),
        V1Node::GetStackTop => Some(V1Opcode::GetStackTop),
        V1Node::InspectValue(_) => Some(V1Opcode::InspectValue),
        V1Node::TransmutePtr { .. } => Some(V1Opcode::TransmutePtr),
        V1Node::LoadAddresOfTMPLocal => Some(V1Opcode::LoadAddresOfTMPLocal),
        V1Node::LoadTMPLocal => Some(V1Opcode::LoadTMPLocal),
        V1Node::AddressOfStaticField(_) => Some(V1Opcode::AddressOfStaticField),
        _ => None,
    }
}

/// Upgrading the legacy node gives a load through a pointer, if it gives
/// anything.
pub open spec fn yields_load(v1: &V1Node) -> bool {
    v1 is LDIndBool
        || v1 is LDIndU8
        || v1 is LDIndU16
        || v1 is LDIndU32
        || v1 is LDIndU64
        || v1 is LDIndUSize
        || v1 is LDIndI8
        || v1 is LDIndI16
        || v1 is LDIndI32
        || v1 is LDIndI64
        || v1 is LDIndISize
        || v1 is LDIndF32
        || v1 is LDIndF64
        || v1 is LdObj
        || v1 is LDIndPtr
        || v1 is Volatile
}

/// The legacy node can be upgraded: every opcode in it has a counterpart,
/// every pointer cast in it goes to a pointer, a reference, a function
/// pointer or an integer of the width of a pointer, no virtual call and no
/// construction in it names a static method, and every volatile marker in
/// it stands on a load.
pub open spec fn upgradable(v1: &V1Node) -> bool
    decreases v1,
{
    match *v1 {
        V1Node::LDIndBool { ptr } => upgradable(&*ptr),
        V1Node::LDIndU8 { ptr } => upgradable(&*ptr),
        V1Node::LDIndU16 { ptr } => upgradable(&*ptr),
        V1Node::LDIndU32 { ptr } => upgradable(&*ptr),
        V1Node::LDIndU64 { ptr } => upgradable(&*ptr),
        V1Node::LDIndUSize { ptr } => upgradable(&*ptr),
        V1Node::LDIndI8 { ptr } => upgradable(&*ptr),
        V1Node::LDIndI16 { ptr } => upgradable(&*ptr),
        V1Node::LDIndI32 { ptr } => upgradable(&*ptr),
        V1Node::LDIndI64 { ptr } => upgradable(&*ptr),
        V1Node::LDIndISize { ptr } => upgradable(&*ptr),
        V1Node::LDIndF32 { ptr } => upgradable(&*ptr),
        V1Node::LDIndF64 { ptr } => upgradable(&*ptr),
        V1Node::LdObj { ptr, .. } => upgradable(&*ptr),
        V1Node::LDIndPtr { ptr, .. } => upgradable(&*ptr),
        V1Node::ZeroExtendToU64(inner) => upgradable(&*inner),
        V1Node::SignExtendToU64(inner) => upgradable(&*inner),
        V1Node::ZeroExtendToUSize(inner) => upgradable(&*inner),
        V1Node::SignExtendToUSize(inner) => upgradable(&*inner),
        V1Node::ConvU8(inner) => upgradable(&*inner),
        V1Node::ConvU16(inner) => upgradable(&*inner),
        V1Node::ConvU32(inner) => upgradable(&*inner),
        V1Node::SignExtendToI64(inner) => upgradable(&*inner),
        V1Node::ZeroExtendToISize(inner) => upgradable(&*inner),
        V1Node::SignExtendToISize(inner) => upgradable(&*inner),
        V1Node::ConvI8(inner) => upgradable(&*inner),
        V1Node::ConvI16(inner) => upgradable(&*inner),
        V1Node::ConvI32(inner) => upgradable(&*inner),
        V1Node::ConvF32(inner) => upgradable(&*inner),
        V1Node::ConvF64(inner) => upgradable(&*inner),
        V1Node::ConvF64Un(inner) => upgradable(&*inner),
        V1Node::MRefToRawPtr(inner) => upgradable(&*inner),
        V1Node::CastPtr { val, new_ptr } => upgradable(&*val) && upgrade_ptr_cast(&*new_ptr) is Ok,
        V1Node::Add(lhs, rhs) => upgradable(&*lhs) && upgradable(&*rhs),
        V1Node::Sub(lhs, rhs) => upgradable(&*lhs) && upgradable(&*rhs),
        V1Node::Mul(lhs, rhs) => upgradable(&*lhs) && upgradable(&*rhs),
        V1Node::Eq(lhs, rhs) => upgradable(&*lhs) && upgradable(&*rhs),
        V1Node::Or(lhs, rhs) => upgradable(&*lhs) && upgradable(&*rhs),
        V1Node::XOr(lhs, rhs) => upgradable(&*lhs) && upgradable(&*rhs),
        V1Node::And(lhs, rhs) => upgradable(&*lhs) && upgradable(&*rhs),
        V1Node::LtUn(lhs, rhs) => upgradable(&*lhs) && upgradable(&*rhs),
        V1Node::Lt(lhs, rhs) => upgradable(&*lhs) && upgradable(&*rhs),
        V1Node::GtUn(lhs, rhs) => upgradable(&*lhs) && upgradable(&*rhs),
        V1Node::Gt(lhs, rhs) => upgradable(&*lhs) && upgradable(&*rhs),
        V1Node::Rem(lhs, rhs) => upgradable(&*lhs) && upgradable(&*rhs),
        V1Node::RemUn(lhs, rhs) => upgradable(&*lhs) && upgradable(&*rhs),
        V1Node::Shl(lhs, rhs) => upgradable(&*lhs) && upgradable(&*rhs),
        V1Node::Shr(lhs, rhs) => upgradable(&*lhs) && upgradable(&*rhs),
        V1Node::ShrUn(lhs, rhs) => upgradable(&*lhs) && upgradable(&*rhs),
        V1Node::Div(lhs, rhs) => upgradable(&*lhs) && upgradable(&*rhs),
        V1Node::DivUn(lhs, rhs) => upgradable(&*lhs) && upgradable(&*rhs),
        V1Node::Not(val) => upgradable(&*val),
        V1Node::Neg(val) => upgradable(&*val),
        V1Node::LDField { addr, .. } => upgradable(&*addr),
        V1Node::LDFieldAdress { addr, .. } => upgradable(&*addr),
        V1Node::Call(callargs) => all_upgradable(callargs.args@),
        V1Node::CallVirt(callargs) => all_upgradable(callargs.args@) && !callargs.site.is_static,
        V1Node::NewObj(callargs) => all_upgradable(callargs.args@) && !callargs.site.is_static,
        V1Node::CallI(sig_ptr_args) => upgradable(
            &sig_ptr_args.1) && all_upgradable(sig_ptr_args.2@,
        ),
        V1Node::IsInst(combined) => upgradable(&combined.0),
        V1Node::CheckedCast(combined) => upgradable(&combined.0),
        V1Node::UnboxAny(object, _) => upgradable(&*object),
        V1Node::LocAlloc { size } => upgradable(&*size),
        V1Node::Volatile(inner) => upgradable(&*inner) && yields_load(&*inner),
        V1Node::LDLen { arr } => upgradable(&*arr),
        V1Node::LDElelemRef { arr, idx } => upgradable(&*arr) && upgradable(&*idx),
        V1Node::BlackBox(_) => false,
        V1Node::LoadGlobalAllocPtr { .. } => false,
        V1Node::PointerToConstValue(_) => false,
        V1Node::GetStackTop => false,
        V1Node::InspectValue(_) => false,
        V1Node::TransmutePtr { .. } => false,
        V1Node::LoadAddresOfTMPLocal => false,
        V1Node::LoadTMPLocal => false,
        V1Node::AddressOfStaticField(_) => false,
        _ => true,
    }
}

/// Every node of the list can be upgraded.
pub open spec fn all_upgradable(args: Seq<V1Node>) -> bool
    decreases args,
{
    forall|i: int| 0 <= i < args.len() ==> upgradable(#[trigger] &args[i])
}

/// An opcode without a counterpart is never upgraded to anything: it fails
/// with the error that names it.
pub proof fn law_unsupported_opcode_fails(v1: &V1Node, main: ResolvedClassRef)
    requires
        unsupported_opcode(v1) is Some,
    ensures
        upgrade_tree(v1, main) == Err::<ResolvedNode, UpgradeError>(
            UpgradeError::Unimplemented(unsupported_opcode(v1)->0),
        ),
{
}

/// The upgrade is total on what can be upgraded, and on nothing else: a
/// legacy node is upgraded to a node exactly when it can be upgraded, and
/// what it is upgraded to is a load exactly when it yields one.
pub proof fn law_upgrade_total(v1: &V1Node, main: ResolvedClassRef)
    ensures
        upgradable(v1) <==> upgrade_tree(v1, main) is Ok,
        upgrade_tree(v1, main) is Ok ==> (yields_load(v1) <==> upgrade_tree(v1, main)->Ok_0
            is LdInd),
    decreases v1,
{
    match *v1 {
        V1Node::LDIndBool { ptr } => {
            law_upgrade_total(&*ptr, main);
        },
        V1Node::LDIndU8 { ptr } => {
            law_upgrade_total(&*ptr, main);
        },
        V1Node::LDIndU16 { ptr } => {
            law_upgrade_total(&*ptr, main);
        },
        V1Node::LDIndU32 { ptr } => {
            law_upgrade_total(&*ptr, main);
        },
        V1Node::LDIndU64 { ptr } => {
            law_upgrade_total(&*ptr, main);
        },
        V1Node::LDIndUSize { ptr } => {
            law_upgrade_total(&*ptr, main);
        },
        V1Node::LDIndI8 { ptr } => {
            law_upgrade_total(&*ptr, main);
        },
        V1Node::LDIndI16 { ptr } => {
            law_upgrade_total(&*ptr, main);
        },
        V1Node::LDIndI32 { ptr } => {
            law_upgrade_total(&*ptr, main);
        },
        V1Node::LDIndI64 { ptr } => {
            law_upgrade_total(&*ptr, main);
        },
        V1Node::LDIndISize { ptr } => {
            law_upgrade_total(&*ptr, main);
        },
        V1Node::LDIndF32 { ptr } => {
            law_upgrade_total(&*ptr, main);
        },
        V1Node::LDIndF64 { ptr } => {
            law_upgrade_total(&*ptr, main);
        },
        V1Node::LdObj { ptr, .. } => {
            law_upgrade_total(&*ptr, main);
        },
        V1Node::LDIndPtr { ptr, .. } => {
            law_upgrade_total(&*ptr, main);
        },
        V1Node::ZeroExtendToU64(inner) => {
            law_upgrade_total(&*inner, main);
        },
        V1Node::SignExtendToU64(inner) => {
            law_upgrade_total(&*inner, main);
        },
        V1Node::ZeroExtendToUSize(inner) => {
            law_upgrade_total(&*inner, main);
        },
        V1Node::SignExtendToUSize(inner) => {
            law_upgrade_total(&*inner, main);
        },
        V1Node::ConvU8(inner) => {
            law_upgrade_total(&*inner, main);
        },
        V1Node::ConvU16(inner) => {
            law_upgrade_total(&*inner, main);
        },
        V1Node::ConvU32(inner) => {
            law_upgrade_total(&*inner, main);
        },
        V1Node::SignExtendToI64(inner) => {
            law_upgrade_total(&*inner, main);
        },
        V1Node::ZeroExtendToISize(inner) => {
            law_upgrade_total(&*inner, main);
        },
        V1Node::SignExtendToISize(inner) => {
            law_upgrade_total(&*inner, main);
        },
        V1Node::ConvI8(inner) => {
            law_upgrade_total(&*inner, main);
        },
        V1Node::ConvI16(inner) => {
            law_upgrade_total(&*inner, main);
        },
        V1Node::ConvI32(inner) => {
            law_upgrade_total(&*inner, main);
        },
        V1Node::ConvF32(inner) => {
            law_upgrade_total(&*inner, main);
        },
        V1Node::ConvF64(inner) => {
            law_upgrade_total(&*inner, main);
        },
        V1Node::ConvF64Un(inner) => {
            law_upgrade_total(&*inner, main);
        },
        V1Node::MRefToRawPtr(inner) => {
            law_upgrade_total(&*inner, main);
        },
        V1Node::CastPtr { val, new_ptr } => {
            law_upgrade_total(&*val, main);
        },
        V1Node::Add(lhs, rhs) => {
            law_upgrade_total(&*lhs, main);
            law_upgrade_total(&*rhs, main);
        },
        V1Node::Sub(lhs, rhs) => {
            law_upgrade_total(&*lhs, main);
            law_upgrade_total(&*rhs, main);
        },
        V1Node::Mul(lhs, rhs) => {
            law_upgrade_total(&*lhs, main);
            law_upgrade_total(&*rhs, main);
        },
        V1Node::Eq(lhs, rhs) => {
            law_upgrade_total(&*lhs, main);
            law_upgrade_total(&*rhs, main);
        },
        V1Node::Or(lhs, rhs) => {
            law_upgrade_total(&*lhs, main);
            law_upgrade_total(&*rhs, main);
        },
        V1Node::XOr(lhs, rhs) => {
            law_upgrade_total(&*lhs, main);
            law_upgrade_total(&*rhs, main);
        },
        V1Node::And(lhs, rhs) => {
            law_upgrade_total(&*lhs, main);
            law_upgrade_total(&*rhs, main);
        },
        V1Node::LtUn(lhs, rhs) => {
            law_upgrade_total(&*lhs, main);
            law_upgrade_total(&*rhs, main);
        },
        V1Node::Lt(lhs, rhs) => {
            law_upgrade_total(&*lhs, main);
            law_upgrade_total(&*rhs, main);
        },
        V1Node::GtUn(lhs, rhs) => {
            law_upgrade_total(&*lhs, main);
            law_upgrade_total(&*rhs, main);
        },
        V1Node::Gt(lhs, rhs) => {
            law_upgrade_total(&*lhs, main);
            law_upgrade_total(&*rhs, main);
        },
        V1Node::Rem(lhs, rhs) => {
            law_upgrade_total(&*lhs, main);
            law_upgrade_total(&*rhs, main);
        },
        V1Node::RemUn(lhs, rhs) => {
            law_upgrade_total(&*lhs, main);
            law_upgrade_total(&*rhs, main);
        },
        V1Node::Shl(lhs, rhs) => {
            law_upgrade_total(&*lhs, main);
            law_upgrade_total(&*rhs, main);
        },
        V1Node::Shr(lhs, rhs) => {
            law_upgrade_total(&*lhs, main);
            law_upgrade_total(&*rhs, main);
        },
        V1Node::ShrUn(lhs, rhs) => {
            law_upgrade_total(&*lhs, main);
            law_upgrade_total(&*rhs, main);
        },
        V1Node::Div(lhs, rhs) => {
            law_upgrade_total(&*lhs, main);
            law_upgrade_total(&*rhs, main);
        },
        V1Node::DivUn(lhs, rhs) => {
            law_upgrade_total(&*lhs, main);
            law_upgrade_total(&*rhs, main);
        },
        V1Node::Not(val) => {
            law_upgrade_total(&*val, main);
        },
        V1Node::Neg(val) => {
            law_upgrade_total(&*val, main);
        },
        V1Node::LDField { addr, .. } => {
            law_upgrade_total(&*addr, main);
        },
        V1Node::LDFieldAdress { addr, .. } => {
            law_upgrade_total(&*addr, main);
        },
        V1Node::Call(callargs) => {
            law_upgrade_all_total(callargs.args@, main);
        },
        V1Node::CallVirt(callargs) => {
            law_upgrade_all_total(callargs.args@, main);
        },
        V1Node::NewObj(callargs) => {
            law_upgrade_all_total(callargs.args@, main);
        },
        V1Node::CallI(sig_ptr_args) => {
            law_upgrade_total(&sig_ptr_args.1, main);
            law_upgrade_all_total(sig_ptr_args.2@, main);
        },
        V1Node::IsInst(combined) => {
            law_upgrade_total(&combined.0, main);
        },
        V1Node::CheckedCast(combined) => {
            law_upgrade_total(&combined.0, main);
        },
        V1Node::UnboxAny(object, _) => {
            law_upgrade_total(&*object, main);
        },
        V1Node::LocAlloc { size } => {
            law_upgrade_total(&*size, main);
        },
        V1Node::Volatile(inner) => {
            law_upgrade_total(&*inner, main);
        },
        V1Node::LDLen { arr } => {
            law_upgrade_total(&*arr, main);
        },
        V1Node::LDElelemRef { arr, idx } => {
            law_upgrade_total(&*arr, main);
            law_upgrade_total(&*idx, main);
        },
        _ => {},
    }
}

/// A list of legacy nodes is upgraded exactly when each of its nodes can be
/// upgraded.
pub proof fn law_upgrade_all_total(args: Seq<V1Node>, main: ResolvedClassRef)
    ensures
        all_upgradable(args) <==> upgrade_trees(args, main) is Ok,
    decreases args,
{
    if args.len() > 0 {
        law_upgrade_all_total(args.drop_last(), main);
        law_upgrade_total(&args.last(), main);
        if all_upgradable(args) {
            assert forall|i: int| 0 <= i < args.drop_last().len() implies upgradable(
                #[trigger] &args.drop_last()[i],
            ) by {
                assert(upgradable(&args[i]));
            }
            assert(upgradable(&args[args.len() - 1]));
        }
        if upgrade_trees(args, main) is Ok {
            assert forall|i: int| 0 <= i < args.len() implies upgradable(#[trigger] &args[i]) by {
                if i < args.len() - 1 {
                    assert(upgradable(&args.drop_last()[i]));
                }
            }
        }
    }
}

} // verus!
