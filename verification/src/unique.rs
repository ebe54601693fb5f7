//! Resolution is injective: in a consistent assembly, two values that
//! resolve to the same tree are structurally equal, and two handles that
//! resolve to the same tree are the same handle. This is what interning
//! buys: meaning decides identity.

use crate::arena::{lemma_distinct_alike, Interned};
use crate::cilnode::{CILNode, Const, PtrCastRes};
use crate::cilroot::{BranchCond, CILRoot};
use crate::class_ref::{ClassRef, FieldDesc, MethodRef, StaticFieldDesc};
use crate::contents::Contents;
use crate::handles::{
    ClassRefIdx, FieldIdx, MethodDefIdx, MethodRefIdx, NodeIdx, RootIdx, SigIdx, StaticFieldIdx,
    StringIdx, TypeIdx,
};
use crate::method::{blocks_alike, BasicBlock, ClassDef, MethodDef, MethodImpl};
use crate::resolved::{lemma_class_ref_parts, lemma_node_parts, lemma_sig_parts, lemma_type_parts};
use crate::tpe::{FnSig, Type};
use vstd::prelude::*;

verus! {

/// Two handles of equal strings are one handle.
pub proof fn lemma_string_unique(c: &Contents, a: StringIdx, b: StringIdx)
    requires
        c.wf(),
        c.has_string(a),
        c.has_string(b),
        c.string_of(a) == c.string_of(b),
    ensures
        a == b,
{
    lemma_distinct_alike(c.strings, a.0 as int, b.0 as int);
}

/// Two optional handles of equal strings are the same.
pub proof fn lemma_string_opt_unique(c: &Contents, a: Option<StringIdx>, b: Option<StringIdx>)
    requires
        c.wf(),
        c.string_opt_ok(a),
        c.string_opt_ok(b),
        c.string_opt(a) == c.string_opt(b),
    ensures
        a == b,
{
    match (a, b) {
        (Some(x), Some(y)) => {
            lemma_string_unique(c, x, y);
        },
        _ => {},
    }
}

/// Two types that resolve to the same tree are the same type.
pub proof fn lemma_type_value_unique(c: &Contents, a: Type, b: Type)
    requires
        c.wf(),
        c.type_ok(a),
        c.type_ok(b),
        c.resolve_type(a) == c.resolve_type(b),
    ensures
        a == b,
    decreases c.resolve_type(a), 0int,
{
    lemma_type_parts(c.resolve_type(a));
    match a {
        Type::Ptr(x) => {
            lemma_type_unique(c, x, b->Ptr_0);
        },
        Type::Ref(x) => {
            lemma_type_unique(c, x, b->Ref_0);
        },
        Type::ClassRef(x) => {
            lemma_class_ref_unique(c, x, b->ClassRef_0);
        },
        Type::PlatformArray { elem, .. } => {
            lemma_type_unique(c, elem, b->elem);
        },
        Type::FnPtr(x) => {
            lemma_sig_unique(c, x, b->FnPtr_0);
        },
        _ => {},
    }
}

/// Two type handles that resolve to the same tree are one handle.
pub proof fn lemma_type_unique(c: &Contents, a: TypeIdx, b: TypeIdx)
    requires
        c.wf(),
        c.has_type(a),
        c.has_type(b),
        c.type_tree(a) == c.type_tree(b),
    ensures
        a == b,
    decreases c.type_tree(a), 1int,
{
    lemma_type_value_unique(c, c.types[a.0 as int], c.types[b.0 as int]);
    lemma_distinct_alike(c.types, a.0 as int, b.0 as int);
}

/// Two lists of types that resolve to the same trees are the same list.
pub proof fn lemma_types_unique(c: &Contents, a: Seq<Type>, b: Seq<Type>)
    requires
        c.wf(),
        c.types_ok(a),
        c.types_ok(b),
        c.resolve_types(a) == c.resolve_types(b),
    ensures
        a == b,
    decreases c.resolve_types(a), 0int,
{
    assert(a.len() == c.resolve_types(a).len());
    assert(b.len() == c.resolve_types(b).len());
    assert forall|i: int| 0 <= i < a.len() implies a[i] == b[i] by {
        assert(c.resolve_types(a)[i] == c.resolve_type(a[i]));
        assert(c.resolve_types(b)[i] == c.resolve_type(b[i]));
        lemma_type_value_unique(c, a[i], b[i]);
    }
    assert(a =~= b);
}

/// Two class references that resolve to the same tree are structurally
/// equal.
pub proof fn lemma_class_ref_value_unique(c: &Contents, a: &ClassRef, b: &ClassRef)
    requires
        c.wf(),
        c.class_ref_ok(a),
        c.class_ref_ok(b),
        c.resolve_class_ref(a) == c.resolve_class_ref(b),
    ensures
        a.alike(b),
    decreases c.resolve_class_ref(a), 0int,
{
    lemma_class_ref_parts(c.resolve_class_ref(a));
    lemma_string_unique(c, a.name, b.name);
    lemma_string_opt_unique(c, a.module, b.module);
    lemma_types_unique(c, a.generics@, b.generics@);
}

/// Two class-reference handles that resolve to the same tree are one
/// handle.
pub proof fn lemma_class_ref_unique(c: &Contents, a: ClassRefIdx, b: ClassRefIdx)
    requires
        c.wf(),
        c.has_class_ref(a),
        c.has_class_ref(b),
        c.class_tree(a) == c.class_tree(b),
    ensures
        a == b,
    decreases c.class_tree(a), 1int,
{
    lemma_class_ref_value_unique(c, &c.class_refs[a.0 as int], &c.class_refs[b.0 as int]);
    lemma_distinct_alike(c.class_refs, a.0 as int, b.0 as int);
}

/// Two signatures that resolve to the same tree are structurally equal.
pub proof fn lemma_sig_value_unique(c: &Contents, a: &FnSig, b: &FnSig)
    requires
        c.wf(),
        c.sig_ok(a),
        c.sig_ok(b),
        c.resolve_sig(a) == c.resolve_sig(b),
    ensures
        a.alike(b),
    decreases c.resolve_sig(a), 0int,
{
    lemma_sig_parts(c.resolve_sig(a));
    lemma_types_unique(c, a.inputs@, b.inputs@);
    lemma_type_value_unique(c, a.output, b.output);
}

/// Two signature handles that resolve to the same tree are one handle.
pub proof fn lemma_sig_unique(c: &Contents, a: SigIdx, b: SigIdx)
    requires
        c.wf(),
        c.has_sig(a),
        c.has_sig(b),
        c.sig_tree(a) == c.sig_tree(b),
    ensures
        a == b,
    decreases c.sig_tree(a), 1int,
{
    lemma_sig_value_unique(c, &c.sigs[a.0 as int], &c.sigs[b.0 as int]);
    lemma_distinct_alike(c.sigs, a.0 as int, b.0 as int);
}

/// Two field descriptors that resolve to the same tree are the same.
pub proof fn lemma_field_value_unique(c: &Contents, a: &FieldDesc, b: &FieldDesc)
    requires
        c.wf(),
        c.field_ok(a),
        c.field_ok(b),
        c.resolve_field(a) == c.resolve_field(b),
    ensures
        *a == *b,
{
    lemma_class_ref_unique(c, a.owner, b.owner);
    lemma_string_unique(c, a.name, b.name);
    lemma_type_value_unique(c, a.tpe, b.tpe);
}

/// Two field handles that resolve to the same tree are one handle.
pub proof fn lemma_field_unique(c: &Contents, a: FieldIdx, b: FieldIdx)
    requires
        c.wf(),
        c.has_field(a),
        c.has_field(b),
        c.field_tree(a) == c.field_tree(b),
    ensures
        a == b,
{
    lemma_field_value_unique(c, &c.fields[a.0 as int], &c.fields[b.0 as int]);
    lemma_distinct_alike(c.fields, a.0 as int, b.0 as int);
}

/// Two static-field descriptors that resolve to the same tree are the same.
pub proof fn lemma_static_value_unique(c: &Contents, a: &StaticFieldDesc, b: &StaticFieldDesc)
    requires
        c.wf(),
        c.static_ok(a),
        c.static_ok(b),
        c.resolve_static(a) == c.resolve_static(b),
    ensures
        *a == *b,
{
    lemma_class_ref_unique(c, a.owner, b.owner);
    lemma_string_unique(c, a.name, b.name);
    lemma_type_value_unique(c, a.tpe, b.tpe);
}

/// Two static-field handles that resolve to the same tree are one handle.
pub proof fn lemma_static_unique(c: &Contents, a: StaticFieldIdx, b: StaticFieldIdx)
    requires
        c.wf(),
        c.has_static(a),
        c.has_static(b),
        c.static_tree(a) == c.static_tree(b),
    ensures
        a == b,
{
    lemma_static_value_unique(c, &c.statics[a.0 as int], &c.statics[b.0 as int]);
    lemma_distinct_alike(c.statics, a.0 as int, b.0 as int);
}

/// Two method references that resolve to the same tree are structurally
/// equal.
pub proof fn lemma_method_ref_value_unique(c: &Contents, a: &MethodRef, b: &MethodRef)
    requires
        c.wf(),
        c.method_ref_ok(a),
        c.method_ref_ok(b),
        c.resolve_method_ref(a) == c.resolve_method_ref(b),
    ensures
        a.alike(b),
{
    lemma_class_ref_unique(c, a.class, b.class);
    lemma_string_unique(c, a.name, b.name);
    lemma_sig_unique(c, a.sig, b.sig);
    lemma_types_unique(c, a.generics@, b.generics@);
}

/// Two method-reference handles that resolve to the same tree are one
/// handle.
pub proof fn lemma_method_ref_unique(c: &Contents, a: MethodRefIdx, b: MethodRefIdx)
    requires
        c.wf(),
        c.has_method_ref(a),
        c.has_method_ref(b),
        c.method_ref_tree(a) == c.method_ref_tree(b),
    ensures
        a == b,
{
    lemma_method_ref_value_unique(c, &c.method_refs[a.0 as int], &c.method_refs[b.0 as int]);
    lemma_distinct_alike(c.method_refs, a.0 as int, b.0 as int);
}

/// Two constants that resolve to the same constant are the same.
pub proof fn lemma_const_unique(c: &Contents, a: Const, b: Const)
    requires
        c.wf(),
        c.const_ok(a),
        c.const_ok(b),
        c.resolve_const(a) == c.resolve_const(b),
    ensures
        a == b,
{
    match a {
        Const::PlatformString(s) => {
            lemma_string_unique(c, s, b->PlatformString_0);
        },
        _ => {},
    }
}

/// Two pointer-cast results that resolve to the same tree are the same.
pub proof fn lemma_ptr_cast_unique(c: &Contents, a: PtrCastRes, b: PtrCastRes)
    requires
        c.wf(),
        c.ptr_cast_ok(a),
        c.ptr_cast_ok(b),
        c.resolve_ptr_cast(a) == c.resolve_ptr_cast(b),
    ensures
        a == b,
{
    match a {
        PtrCastRes::Ptr(x) => {
            lemma_type_unique(c, x, b->Ptr_0);
        },
        PtrCastRes::Ref(x) => {
            lemma_type_unique(c, x, b->Ref_0);
        },
        PtrCastRes::FnPtr(x) => {
            lemma_sig_unique(c, x, b->FnPtr_0);
        },
        _ => {},
    }
}

/// Two nodes that resolve to the same expression tree are structurally
/// equal.
pub proof fn lemma_node_value_unique(c: &Contents, a: &CILNode, b: &CILNode)
    requires
        c.wf(),
        c.node_ok(a),
        c.node_ok(b),
        c.resolve_node(a) == c.resolve_node(b),
    ensures
        a.alike(b),
    decreases c.resolve_node(a), 0int,
{
    lemma_node_parts(c.resolve_node(a));
    match *a {
            CILNode::Const(cst) => {
                lemma_const_unique(c, *cst, *b->Const_0);
            },
            CILNode::BinOp(lhs, rhs, _) => {
                lemma_node_unique(c, lhs, b->BinOp_0);
                lemma_node_unique(c, rhs, b->BinOp_1);
            },
            CILNode::UnOp(arg, _) => {
                lemma_node_unique(c, arg, b->UnOp_0);
            },
            CILNode::Call(x) => {
                lemma_method_ref_unique(c, x.0, (b->Call_0).0);
                lemma_nodes_unique(c, x.1@, (b->Call_0).1@);
            },
            CILNode::IntCast { input, .. } => {
                lemma_node_unique(c, input, b->IntCast_input);
            },
            CILNode::FloatCast { input, .. } => {
                lemma_node_unique(c, input, b->FloatCast_input);
            },
            CILNode::RefToPtr(input) => {
                lemma_node_unique(c, input, b->RefToPtr_0);
            },
            CILNode::PtrCast(input, cast_res) => {
                lemma_node_unique(c, input, b->PtrCast_0);
                lemma_ptr_cast_unique(c, *cast_res, *b->PtrCast_1);
            },
            CILNode::LdFieldAdress { addr, field } => {
                lemma_node_unique(c, addr, b->LdFieldAdress_addr);
                lemma_field_unique(c, field, b->LdFieldAdress_field);
            },
            CILNode::LdField { addr, field } => {
                lemma_node_unique(c, addr, b->LdField_addr);
                lemma_field_unique(c, field, b->LdField_field);
            },
            CILNode::LdInd { addr, tpe, .. } => {
                lemma_node_unique(c, addr, b->LdInd_addr);
                lemma_type_unique(c, tpe, b->LdInd_tpe);
            },
            CILNode::SizeOf(tpe) => {
                lemma_type_unique(c, tpe, b->SizeOf_0);
            },
            CILNode::IsInst(object, tpe) => {
                lemma_node_unique(c, object, b->IsInst_0);
                lemma_type_unique(c, tpe, b->IsInst_1);
            },
            CILNode::CheckedCast(object, tpe) => {
                lemma_node_unique(c, object, b->CheckedCast_0);
                lemma_type_unique(c, tpe, b->CheckedCast_1);
            },
            CILNode::CallI(x) => {
                lemma_node_unique(c, x.0, (b->CallI_0).0);
                lemma_sig_unique(c, x.1, (b->CallI_0).1);
                lemma_nodes_unique(c, x.2@, (b->CallI_0).2@);
            },
            CILNode::LocAlloc { size } => {
                lemma_node_unique(c, size, b->LocAlloc_size);
            },
            CILNode::LdStaticField(sfld) => {
                lemma_static_unique(c, sfld, b->LdStaticField_0);
            },
            CILNode::LdFtn(mref) => {
                lemma_method_ref_unique(c, mref, b->LdFtn_0);
            },
            CILNode::LdTypeToken(tpe) => {
                lemma_type_unique(c, tpe, b->LdTypeToken_0);
            },
            CILNode::LdLen(array) => {
                lemma_node_unique(c, array, b->LdLen_0);
            },
            CILNode::LocAllocAlgined { tpe, .. } => {
                lemma_type_unique(c, tpe, b->LocAllocAlgined_tpe);
            },
            CILNode::LdElelemRef { array, index } => {
                lemma_node_unique(c, array, b->LdElelemRef_array);
                lemma_node_unique(c, index, b->LdElelemRef_index);
            },
            CILNode::UnboxAny { object, tpe } => {
                lemma_node_unique(c, object, b->UnboxAny_object);
                lemma_type_unique(c, tpe, b->UnboxAny_tpe);
            },
            _ => {},
        }
}

/// Two node handles that resolve to the same expression tree are one
/// handle: equal subexpressions are shared.
pub proof fn lemma_node_unique(c: &Contents, a: NodeIdx, b: NodeIdx)
    requires
        c.wf(),
        c.has_node(a),
        c.has_node(b),
        c.node_tree(a) == c.node_tree(b),
    ensures
        a == b,
    decreases c.node_tree(a), 1int,
{
    lemma_node_value_unique(c, &c.nodes[a.0 as int], &c.nodes[b.0 as int]);
    lemma_distinct_alike(c.nodes, a.0 as int, b.0 as int);
}

/// Two lists of node handles that resolve to the same trees are the same
/// list.
pub proof fn lemma_nodes_unique(c: &Contents, a: Seq<NodeIdx>, b: Seq<NodeIdx>)
    requires
        c.wf(),
        c.nodes_ok(a),
        c.nodes_ok(b),
        c.node_trees(a) == c.node_trees(b),
    ensures
        a == b,
    decreases c.node_trees(a), 0int,
{
    assert(a.len() == c.node_trees(a).len());
    assert(b.len() == c.node_trees(b).len());
    assert forall|i: int| 0 <= i < a.len() implies a[i] == b[i] by {
        assert(c.node_trees(a)[i] == c.node_tree(a[i]));
        assert(c.node_trees(b)[i] == c.node_tree(b[i]));
        lemma_node_unique(c, a[i], b[i]);
    }
    assert(a =~= b);
}

/// Two branch conditions that resolve to the same condition are the same.
pub proof fn lemma_cond_unique(c: &Contents, a: Option<BranchCond>, b: Option<BranchCond>)
    requires
        c.wf(),
        c.cond_ok(a),
        c.cond_ok(b),
        c.resolve_cond(a) == c.resolve_cond(b),
    ensures
        a == b,
{
    match (a, b) {
        (Some(BranchCond::True(x)), Some(BranchCond::True(y))) => {
            lemma_node_unique(c, x, y);
        },
        (Some(BranchCond::False(x)), Some(BranchCond::False(y))) => {
            lemma_node_unique(c, x, y);
        },
        (Some(BranchCond::Eq(x1, x2)), Some(BranchCond::Eq(y1, y2))) => {
            lemma_node_unique(c, x1, y1);
            lemma_node_unique(c, x2, y2);
        },
        (Some(BranchCond::Ne(x1, x2)), Some(BranchCond::Ne(y1, y2))) => {
            lemma_node_unique(c, x1, y1);
            lemma_node_unique(c, x2, y2);
        },
        (Some(BranchCond::Lt(x1, x2, _)), Some(BranchCond::Lt(y1, y2, _))) => {
            lemma_node_unique(c, x1, y1);
            lemma_node_unique(c, x2, y2);
        },
        (Some(BranchCond::Gt(x1, x2, _)), Some(BranchCond::Gt(y1, y2, _))) => {
            lemma_node_unique(c, x1, y1);
            lemma_node_unique(c, x2, y2);
        },
        _ => {},
    }
}

/// Two roots that resolve to the same statement are structurally equal.
pub proof fn lemma_root_value_unique(c: &Contents, a: &CILRoot, b: &CILRoot)
    requires
        c.wf(),
        c.root_ok(a),
        c.root_ok(b),
        c.resolve_root(a) == c.resolve_root(b),
    ensures
        a.alike(b),
{
    match *a {
            CILRoot::StLoc(_, node) => {
                lemma_node_unique(c, node, b->StLoc_1);
            },
            CILRoot::StArg(_, node) => {
                lemma_node_unique(c, node, b->StArg_1);
            },
            CILRoot::Ret(node) => {
                lemma_node_unique(c, node, b->Ret_0);
            },
            CILRoot::Pop(node) => {
                lemma_node_unique(c, node, b->Pop_0);
            },
            CILRoot::Throw(node) => {
                lemma_node_unique(c, node, b->Throw_0);
            },
            CILRoot::Branch(x) => {
                lemma_cond_unique(c, x.2, (b->Branch_0).2);
            },
            CILRoot::SetField(x) => {
                lemma_field_unique(c, x.0, (b->SetField_0).0);
                lemma_node_unique(c, x.1, (b->SetField_0).1);
                lemma_node_unique(c, x.2, (b->SetField_0).2);
            },
            CILRoot::Call(x) => {
                lemma_method_ref_unique(c, x.0, (b->Call_0).0);
                lemma_nodes_unique(c, x.1@, (b->Call_0).1@);
            },
            CILRoot::StInd(x) => {
                lemma_node_unique(c, x.0, (b->StInd_0).0);
                lemma_node_unique(c, x.1, (b->StInd_0).1);
                lemma_type_value_unique(c, x.2, (b->StInd_0).2);
            },
            CILRoot::InitBlk(x) => {
                lemma_node_unique(c, x.0, (b->InitBlk_0).0);
                lemma_node_unique(c, x.1, (b->InitBlk_0).1);
                lemma_node_unique(c, x.2, (b->InitBlk_0).2);
            },
            CILRoot::CpBlk(x) => {
                lemma_node_unique(c, x.0, (b->CpBlk_0).0);
                lemma_node_unique(c, x.1, (b->CpBlk_0).1);
                lemma_node_unique(c, x.2, (b->CpBlk_0).2);
            },
            CILRoot::CallI(x) => {
                lemma_node_unique(c, x.0, (b->CallI_0).0);
                lemma_sig_unique(c, x.1, (b->CallI_0).1);
                lemma_nodes_unique(c, x.2@, (b->CallI_0).2@);
            },
            CILRoot::SetStaticField { field, val } => {
                lemma_static_unique(c, field, b->SetStaticField_field);
                lemma_node_unique(c, val, b->SetStaticField_val);
            },
            CILRoot::SourceFileInfo { file, .. } => {
                lemma_string_unique(c, file, b->SourceFileInfo_file);
            },
            _ => {},
        }
}

/// Two root handles that resolve to the same statement are one handle.
pub proof fn lemma_root_unique(c: &Contents, a: RootIdx, b: RootIdx)
    requires
        c.wf(),
        c.has_root(a),
        c.has_root(b),
        c.root_tree(a) == c.root_tree(b),
    ensures
        a == b,
{
    lemma_root_value_unique(c, &c.roots[a.0 as int], &c.roots[b.0 as int]);
    lemma_distinct_alike(c.roots, a.0 as int, b.0 as int);
}

/// Two lists of root handles that resolve to the same statements are the
/// same list.
pub proof fn lemma_roots_unique(c: &Contents, a: Seq<RootIdx>, b: Seq<RootIdx>)
    requires
        c.wf(),
        c.roots_ok(a),
        c.roots_ok(b),
        c.root_trees(a) == c.root_trees(b),
    ensures
        a == b,
{
    assert(a.len() == c.root_trees(a).len());
    assert(b.len() == c.root_trees(b).len());
    assert forall|i: int| 0 <= i < a.len() implies a[i] == b[i] by {
        assert(c.root_trees(a)[i] == c.root_tree(a[i]));
        assert(c.root_trees(b)[i] == c.root_tree(b[i]));
        lemma_root_unique(c, a[i], b[i]);
    }
    assert(a =~= b);
}

/// Two blocks that resolve to the same tree are structurally equal: the
/// same roots in the same order under the same label, and the same nesting
/// of handlers.
pub proof fn lemma_block_unique(c: &Contents, a: &BasicBlock, b: &BasicBlock)
    requires
        c.wf(),
        c.block_ok(a),
        c.block_ok(b),
        c.resolve_block(a) == c.resolve_block(b),
    ensures
        a.alike(b),
    decreases a, 0int,
{
    lemma_roots_unique(c, a.roots@, b.roots@);
    match (a.handler, b.handler) {
        (Some(x), Some(y)) => {
            lemma_blocks_unique(c, x@, y@);
        },
        _ => {},
    }
}

/// Two lists of blocks that resolve to the same trees are structurally
/// equal block by block.
pub proof fn lemma_blocks_unique(c: &Contents, a: Seq<BasicBlock>, b: Seq<BasicBlock>)
    requires
        c.wf(),
        c.blocks_ok(a),
        c.blocks_ok(b),
        c.resolve_blocks(a) == c.resolve_blocks(b),
    ensures
        blocks_alike(a, b),
    decreases a, 1int,
{
    assert(a.len() == c.resolve_blocks(a).len());
    assert(b.len() == c.resolve_blocks(b).len());
    assert forall|i: int| 0 <= i < a.len() implies (#[trigger] a[i]).alike(&b[i]) by {
        assert(c.resolve_blocks(a)[i] == c.resolve_block(&a[i]));
        assert(c.resolve_blocks(b)[i] == c.resolve_block(&b[i]));
        lemma_block_unique(c, &a[i], &b[i]);
    }
}

/// Two tables of local variables that resolve to the same names and types
/// are the same table.
pub proof fn lemma_locals_unique(
    c: &Contents,
    a: Seq<(Option<StringIdx>, TypeIdx)>,
    b: Seq<(Option<StringIdx>, TypeIdx)>,
)
    requires
        c.wf(),
        c.locals_ok(a),
        c.locals_ok(b),
        c.resolve_locals(a) == c.resolve_locals(b),
    ensures
        a == b,
{
    assert(a.len() == c.resolve_locals(a).len());
    assert(b.len() == c.resolve_locals(b).len());
    assert forall|i: int| 0 <= i < a.len() implies a[i] == b[i] by {
        assert(c.resolve_locals(a)[i] == (c.string_opt(a[i].0), c.type_tree(a[i].1)));
        assert(c.resolve_locals(b)[i] == (c.string_opt(b[i].0), c.type_tree(b[i].1)));
        assert(c.string_opt_ok(a[i].0) && c.string_opt_ok(b[i].0));
        lemma_string_opt_unique(c, a[i].0, b[i].0);
        lemma_type_unique(c, a[i].1, b[i].1);
    }
    assert(a =~= b);
}

/// Two lists of optional names that spell the same are the same list.
pub proof fn lemma_names_unique(c: &Contents, a: Seq<Option<StringIdx>>, b: Seq<Option<StringIdx>>)
    requires
        c.wf(),
        c.names_ok(a),
        c.names_ok(b),
        c.resolve_names(a) == c.resolve_names(b),
    ensures
        a == b,
{
    assert(a.len() == c.resolve_names(a).len());
    assert(b.len() == c.resolve_names(b).len());
    assert forall|i: int| 0 <= i < a.len() implies a[i] == b[i] by {
        assert(c.resolve_names(a)[i] == c.string_opt(a[i]));
        assert(c.resolve_names(b)[i] == c.string_opt(b[i]));
        lemma_string_opt_unique(c, a[i], b[i]);
    }
    assert(a =~= b);
}

/// Two method definitions that resolve to the same tree are structurally
/// equal.
pub proof fn lemma_method_def_value_unique(c: &Contents, a: &MethodDef, b: &MethodDef)
    requires
        c.wf(),
        c.method_def_ok(a),
        c.method_def_ok(b),
        c.resolve_method_def(a) == c.resolve_method_def(b),
    ensures
        a.alike(b),
{
    lemma_class_ref_unique(c, a.class.0, b.class.0);
    lemma_string_unique(c, a.name, b.name);
    lemma_sig_unique(c, a.sig, b.sig);
    lemma_names_unique(c, a.arg_names@, b.arg_names@);
    match (a.implementation, b.implementation) {
        (
            MethodImpl::MethodBody { blocks: b1, locals: l1 },
            MethodImpl::MethodBody { blocks: b2, locals: l2 },
        ) => {
            lemma_blocks_unique(c, b1@, b2@);
            lemma_locals_unique(c, l1@, l2@);
        },
        (MethodImpl::Extern { lib: x, .. }, MethodImpl::Extern { lib: y, .. }) => {
            lemma_string_unique(c, x, y);
        },
        (MethodImpl::AliasFor(x), MethodImpl::AliasFor(y)) => {
            lemma_method_ref_unique(c, x, y);
        },
        _ => {},
    }
}

/// Two method-definition handles that resolve to the same tree are one
/// handle.
pub proof fn lemma_method_def_unique(c: &Contents, a: MethodDefIdx, b: MethodDefIdx)
    requires
        c.wf(),
        c.has_method_def(a),
        c.has_method_def(b),
        c.method_def_tree(a) == c.method_def_tree(b),
    ensures
        a == b,
{
    lemma_method_def_value_unique(c, &c.method_defs[a.0 as int], &c.method_defs[b.0 as int]);
    lemma_distinct_alike(c.method_defs, a.0 as int, b.0 as int);
}

/// Two lists of method-definition handles that resolve to the same trees
/// are the same list.
pub proof fn lemma_method_defs_unique(c: &Contents, a: Seq<MethodDefIdx>, b: Seq<MethodDefIdx>)
    requires
        c.wf(),
        c.method_defs_ok(a),
        c.method_defs_ok(b),
        c.method_def_trees(a) == c.method_def_trees(b),
    ensures
        a == b,
{
    assert(a.len() == c.method_def_trees(a).len());
    assert(b.len() == c.method_def_trees(b).len());
    assert forall|i: int| 0 <= i < a.len() implies a[i] == b[i] by {
        assert(c.method_def_trees(a)[i] == c.method_def_tree(a[i]));
        assert(c.method_def_trees(b)[i] == c.method_def_tree(b[i]));
        lemma_method_def_unique(c, a[i], b[i]);
    }
    assert(a =~= b);
}

/// Two class definitions that resolve to the same tree are structurally
/// equal.
pub proof fn lemma_class_def_unique(c: &Contents, a: &ClassDef, b: &ClassDef)
    requires
        c.wf(),
        c.class_def_ok(a),
        c.class_def_ok(b),
        c.resolve_class_def(a) == c.resolve_class_def(b),
    ensures
        a.alike(b),
{
    lemma_string_unique(c, a.name, b.name);
    match (a.extends, b.extends) {
        (Some(x), Some(y)) => {
            lemma_class_ref_unique(c, x, y);
        },
        _ => {},
    }
    let fa = a.fields@;
    let fb = b.fields@;
    assert(fa.len() == c.resolve_class_fields(fa).len());
    assert(fb.len() == c.resolve_class_fields(fb).len());
    assert forall|i: int| 0 <= i < fa.len() implies fa[i] == fb[i] by {
        assert(c.resolve_class_fields(fa)[i] == (
            c.resolve_type(fa[i].0),
            c.string_of(fa[i].1),
            fa[i].2,
        ));
        assert(c.resolve_class_fields(fb)[i] == (
            c.resolve_type(fb[i].0),
            c.string_of(fb[i].1),
            fb[i].2,
        ));
        lemma_type_value_unique(c, fa[i].0, fb[i].0);
        lemma_string_unique(c, fa[i].1, fb[i].1);
    }
    assert(fa =~= fb);
    let sa = a.static_fields@;
    let sb = b.static_fields@;
    assert(sa.len() == c.resolve_class_statics(sa).len());
    assert(sb.len() == c.resolve_class_statics(sb).len());
    assert forall|i: int| 0 <= i < sa.len() implies sa[i] == sb[i] by {
        assert(c.resolve_class_statics(sa)[i] == (
            c.resolve_type(sa[i].0),
            c.string_of(sa[i].1),
            sa[i].2,
        ));
        assert(c.resolve_class_statics(sb)[i] == (
            c.resolve_type(sb[i].0),
            c.string_of(sb[i].1),
            sb[i].2,
        ));
        lemma_type_value_unique(c, sa[i].0, sb[i].0);
        lemma_string_unique(c, sa[i].1, sb[i].1);
    }
    assert(sa =~= sb);
    lemma_method_defs_unique(c, a.methods@, b.methods@);
}

} // verus!
