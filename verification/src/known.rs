//! What an assembly already knows: the trees that some handle of it
//! resolves to, and the trees that it could hold without growing, because
//! it holds everything that they name. Translating what the destination
//! already knows changes nothing.

use crate::arena::holds;
use crate::cilnode::{CILNode, Const, PtrCastRes};
use crate::cilroot::{BranchCond, CILRoot};
use crate::class_ref::{ClassRef, FieldDesc, MethodRef, StaticFieldDesc};
use crate::contents::Contents;
use crate::handles::{
    ClassRefIdx, FieldIdx, MethodDefIdx, MethodRefIdx, NodeIdx, RootIdx, SigIdx, StaticFieldIdx,
    StringIdx, TypeIdx,
};
use crate::method::{BasicBlock, ClassDef, MethodDef, MethodImpl};
use crate::resolved::{
    ResolvedBlock, ResolvedBranchCond, ResolvedClassDef, ResolvedClassRef, ResolvedConst,
    ResolvedField, ResolvedMethodDef, ResolvedMethodImpl, ResolvedMethodRef, ResolvedNode,
    ResolvedPtrCast, ResolvedRoot, ResolvedSig, ResolvedStaticField, ResolvedType,
};
use crate::tpe::{FnSig, Type};
use crate::unique::{
    lemma_class_ref_value_unique, lemma_field_value_unique, lemma_method_def_value_unique,
    lemma_method_ref_value_unique, lemma_node_value_unique, lemma_root_value_unique,
    lemma_sig_value_unique, lemma_static_value_unique, lemma_type_value_unique,
};
use vstd::prelude::*;

verus! {

impl Contents {
    // Some handle of the assembly resolves to the tree.
    pub open spec fn holds_type_tree(&self, t: ResolvedType) -> bool {
        exists|h: TypeIdx| self.has_type(h) && #[trigger] self.type_tree(h) == t
    }

    pub open spec fn holds_class_tree(&self, t: ResolvedClassRef) -> bool {
        exists|h: ClassRefIdx| self.has_class_ref(h) && #[trigger] self.class_tree(h) == t
    }

    pub open spec fn holds_sig_tree(&self, t: ResolvedSig) -> bool {
        exists|h: SigIdx| self.has_sig(h) && #[trigger] self.sig_tree(h) == t
    }

    pub open spec fn holds_field_tree(&self, t: ResolvedField) -> bool {
        exists|h: FieldIdx| self.has_field(h) && #[trigger] self.field_tree(h) == t
    }

    pub open spec fn holds_static_tree(&self, t: ResolvedStaticField) -> bool {
        exists|h: StaticFieldIdx| self.has_static(h) && #[trigger] self.static_tree(h) == t
    }

    pub open spec fn holds_method_ref_tree(&self, t: ResolvedMethodRef) -> bool {
        exists|h: MethodRefIdx| self.has_method_ref(h) && #[trigger] self.method_ref_tree(h) == t
    }

    pub open spec fn holds_node_tree(&self, t: ResolvedNode) -> bool {
        exists|h: NodeIdx| self.has_node(h) && #[trigger] self.node_tree(h) == t
    }

    pub open spec fn holds_root_tree(&self, t: ResolvedRoot) -> bool {
        exists|h: RootIdx| self.has_root(h) && #[trigger] self.root_tree(h) == t
    }

    pub open spec fn holds_method_def_tree(&self, t: ResolvedMethodDef) -> bool {
        exists|h: MethodDefIdx| self.has_method_def(h) && #[trigger] self.method_def_tree(h) == t
    }

    pub open spec fn holds_node_trees(&self, ts: Seq<ResolvedNode>) -> bool {
        forall|i: int| 0 <= i < ts.len() ==> self.holds_node_tree(#[trigger] ts[i])
    }

    pub open spec fn holds_root_trees(&self, ts: Seq<ResolvedRoot>) -> bool {
        forall|i: int| 0 <= i < ts.len() ==> self.holds_root_tree(#[trigger] ts[i])
    }

    pub open spec fn holds_method_def_trees(&self, ts: Seq<ResolvedMethodDef>) -> bool {
        forall|i: int| 0 <= i < ts.len() ==> self.holds_method_def_tree(#[trigger] ts[i])
    }

    pub open spec fn holds_string_opt(&self, s: Option<Seq<char>>) -> bool {
        match s {
            Some(s) => self.holds_string(s),
            None => true,
        }
    }

    pub open spec fn holds_class_tree_opt(&self, t: Option<ResolvedClassRef>) -> bool {
        match t {
            Some(t) => self.holds_class_tree(t),
            None => true,
        }
    }

    // The assembly holds everything that the tree names directly, so that a
    // value of it resolves to the tree.
    pub open spec fn knows_type(&self, t: ResolvedType) -> bool {
        match t {
            ResolvedType::Ptr(inner) => self.holds_type_tree(*inner),
            ResolvedType::Ref(inner) => self.holds_type_tree(*inner),
            ResolvedType::ClassRef(c) => self.holds_class_tree(*c),
            ResolvedType::PlatformArray { elem, .. } => self.holds_type_tree(*elem),
            ResolvedType::FnPtr(sig) => self.holds_sig_tree(*sig),
            _ => true,
        }
    }

    pub open spec fn knows_types(&self, ts: Seq<ResolvedType>) -> bool {
        forall|i: int| 0 <= i < ts.len() ==> self.knows_type(#[trigger] ts[i])
    }

    pub open spec fn knows_class_ref(&self, c: ResolvedClassRef) -> bool {
        &&& self.holds_string(c.name)
        &&& self.holds_string_opt(c.module)
        &&& self.knows_types(c.generics)
    }

    pub open spec fn knows_sig(&self, s: ResolvedSig) -> bool {
        &&& self.knows_types(s.inputs)
        &&& self.knows_type(*s.output)
    }

    pub open spec fn knows_field(&self, f: ResolvedField) -> bool {
        &&& self.holds_class_tree(f.owner)
        &&& self.holds_string(f.name)
        &&& self.knows_type(f.tpe)
    }

    pub open spec fn knows_static(&self, f: ResolvedStaticField) -> bool {
        &&& self.holds_class_tree(f.owner)
        &&& self.holds_string(f.name)
        &&& self.knows_type(f.tpe)
    }

    pub open spec fn knows_method_ref(&self, m: ResolvedMethodRef) -> bool {
        &&& self.holds_class_tree(m.class)
        &&& self.holds_string(m.name)
        &&& self.holds_sig_tree(m.sig)
        &&& self.knows_types(m.generics)
    }

    pub open spec fn knows_const(&self, c: ResolvedConst) -> bool {
        match c {
            ResolvedConst::PlatformString(s) => self.holds_string(s),
            _ => true,
        }
    }

    pub open spec fn knows_ptr_cast(&self, p: ResolvedPtrCast) -> bool {
        match p {
            ResolvedPtrCast::Ptr(t) => self.holds_type_tree(t),
            ResolvedPtrCast::Ref(t) => self.holds_type_tree(t),
            ResolvedPtrCast::FnPtr(s) => self.holds_sig_tree(s),
            _ => true,
        }
    }

    /// The assembly holds every operand of the expression tree and everything
    /// else that it names.
    pub open spec fn knows_node(&self, t: ResolvedNode) -> bool {
        match t {
            ResolvedNode::Const(cst) => self.knows_const(cst),
            ResolvedNode::BinOp(lhs, rhs, _) => self.holds_node_tree(
                *lhs) && self.holds_node_tree(*rhs,
            ),
            ResolvedNode::UnOp(arg, _) => self.holds_node_tree(*arg),
            ResolvedNode::Call(mref, args) => self.holds_method_ref_tree(
                mref) && self.holds_node_trees(args,
            ),
            ResolvedNode::IntCast { input, .. } => self.holds_node_tree(*input),
            ResolvedNode::FloatCast { input, .. } => self.holds_node_tree(*input),
            ResolvedNode::RefToPtr(input) => self.holds_node_tree(*input),
            ResolvedNode::PtrCast(input, cast_res) => self.holds_node_tree(
                *input) && self.knows_ptr_cast(cast_res,
            ),
            ResolvedNode::LdFieldAdress { addr, field } => self.holds_node_tree(
                *addr) && self.holds_field_tree(field,
            ),
            ResolvedNode::LdField { addr, field } => self.holds_node_tree(
                *addr) && self.holds_field_tree(field,
            ),
            ResolvedNode::LdInd { addr, tpe, .. } => self.holds_node_tree(
                *addr) && self.holds_type_tree(tpe,
            ),
            ResolvedNode::SizeOf(tpe) => self.holds_type_tree(tpe),
            ResolvedNode::IsInst(object, tpe) => self.holds_node_tree(
                *object) && self.holds_type_tree(tpe,
            ),
            ResolvedNode::CheckedCast(object, tpe) => self.holds_node_tree(
                *object) && self.holds_type_tree(tpe,
            ),
            ResolvedNode::CallI(fnptr, sig, args) => self.holds_node_tree(
                *fnptr) && self.holds_sig_tree(sig) && self.holds_node_trees(args,
            ),
            ResolvedNode::LocAlloc { size } => self.holds_node_tree(*size),
            ResolvedNode::LdStaticField(sfld) => self.holds_static_tree(sfld),
            ResolvedNode::LdFtn(mref) => self.holds_method_ref_tree(mref),
            ResolvedNode::LdTypeToken(tpe) => self.holds_type_tree(tpe),
            ResolvedNode::LdLen(array) => self.holds_node_tree(*array),
            ResolvedNode::LocAllocAlgined { tpe, .. } => self.holds_type_tree(tpe),
            ResolvedNode::LdElelemRef { array, index } => self.holds_node_tree(
                *array) && self.holds_node_tree(*index,
            ),
            ResolvedNode::UnboxAny { object, tpe } => self.holds_node_tree(
                *object) && self.holds_type_tree(tpe,
            ),
            _ => true,
        }
    }

    pub open spec fn knows_cond(&self, c: Option<ResolvedBranchCond>) -> bool {
        match c {
            Some(ResolvedBranchCond::True(a)) => self.holds_node_tree(a),
            Some(ResolvedBranchCond::False(a)) => self.holds_node_tree(a),
            Some(ResolvedBranchCond::Eq(a, b)) => self.holds_node_tree(
                a) && self.holds_node_tree(b,
            ),
            Some(ResolvedBranchCond::Ne(a, b)) => self.holds_node_tree(
                a) && self.holds_node_tree(b,
            ),
            Some(ResolvedBranchCond::Lt(a, b, _)) => self.holds_node_tree(a) && self.holds_node_tree(
                b,
            ),
            Some(ResolvedBranchCond::Gt(a, b, _)) => self.holds_node_tree(a) && self.holds_node_tree(
                b,
            ),
            None => true,
        }
    }

    /// The assembly holds every operand of the statement and everything else
    /// that it names.
    pub open spec fn knows_root(&self, t: ResolvedRoot) -> bool {
        match t {
            ResolvedRoot::StLoc(_, node) => self.holds_node_tree(node),
            ResolvedRoot::StArg(_, node) => self.holds_node_tree(node),
            ResolvedRoot::Ret(node) => self.holds_node_tree(node),
            ResolvedRoot::Pop(node) => self.holds_node_tree(node),
            ResolvedRoot::Throw(node) => self.holds_node_tree(node),
            ResolvedRoot::Branch(_, _, cond) => self.knows_cond(cond),
            ResolvedRoot::SetField(field, addr, val) => self.holds_field_tree(
                field) && self.holds_node_tree(addr) && self.holds_node_tree(val,
            ),
            ResolvedRoot::Call(mref, args) => self.holds_method_ref_tree(
                mref) && self.holds_node_trees(args,
            ),
            ResolvedRoot::StInd(addr, val, tpe, _) => self.holds_node_tree(
                addr) && self.holds_node_tree(val) && self.knows_type(tpe,
            ),
            ResolvedRoot::InitBlk(dst, val, count) => self.holds_node_tree(
                dst) && self.holds_node_tree(val) && self.holds_node_tree(count,
            ),
            ResolvedRoot::CpBlk(dst, src, len) => self.holds_node_tree(
                dst) && self.holds_node_tree(src) && self.holds_node_tree(len,
            ),
            ResolvedRoot::CallI(fnptr, sig, args) => self.holds_node_tree(
                fnptr) && self.holds_sig_tree(sig) && self.holds_node_trees(args,
            ),
            ResolvedRoot::SetStaticField { field, val } => self.holds_static_tree(
                field) && self.holds_node_tree(val,
            ),
            ResolvedRoot::SourceFileInfo { file, .. } => self.holds_string(file),
            _ => true,
        }
    }

    pub open spec fn knows_block(&self, b: ResolvedBlock) -> bool
        decreases b, 0int,
    {
        &&& self.holds_root_trees(b.roots)
        &&& match b.handler {
            Some(hs) => self.knows_blocks(hs),
            None => true,
        }
    }

    pub open spec fn knows_blocks(&self, bs: Seq<ResolvedBlock>) -> bool
        decreases bs, 1int,
    {
        forall|i: int| 0 <= i < bs.len() ==> self.knows_block(#[trigger] bs[i])
    }

    pub open spec fn knows_locals(&self, ls: Seq<(Option<Seq<char>>, ResolvedType)>) -> bool {
        forall|i: int|
            0 <= i < ls.len() ==> self.holds_string_opt((#[trigger] ls[i]).0)
                && self.holds_type_tree(ls[i].1)
    }

    pub open spec fn knows_names(&self, ns: Seq<Option<Seq<char>>>) -> bool {
        forall|i: int| 0 <= i < ns.len() ==> self.holds_string_opt(#[trigger] ns[i])
    }

    pub open spec fn knows_method_impl(&self, m: ResolvedMethodImpl) -> bool {
        match m {
            ResolvedMethodImpl::MethodBody { blocks, locals } => self.knows_blocks(blocks)
                && self.knows_locals(locals),
            ResolvedMethodImpl::Extern { lib, .. } => self.holds_string(lib),
            ResolvedMethodImpl::AliasFor(m) => self.holds_method_ref_tree(m),
            ResolvedMethodImpl::Missing => true,
        }
    }

    pub open spec fn knows_method_def(&self, d: ResolvedMethodDef) -> bool {
        &&& self.holds_class_tree(d.class)
        &&& self.holds_string(d.name)
        &&& self.holds_sig_tree(d.sig)
        &&& self.knows_method_impl(d.implementation)
        &&& self.knows_names(d.arg_names)
    }

    pub open spec fn knows_class_fields(&self, fs: Seq<(ResolvedType, Seq<char>, Option<u32>)>) -> bool {
        forall|i: int|
            0 <= i < fs.len() ==> self.knows_type((#[trigger] fs[i]).0) && self.holds_string(fs[i].1)
    }

    pub open spec fn knows_class_statics(&self, fs: Seq<(ResolvedType, Seq<char>, bool)>) -> bool {
        forall|i: int|
            0 <= i < fs.len() ==> self.knows_type((#[trigger] fs[i]).0) && self.holds_string(fs[i].1)
    }

    pub open spec fn knows_class_def(&self, d: ResolvedClassDef) -> bool {
        &&& self.holds_string(d.name)
        &&& self.holds_class_tree_opt(d.extends)
        &&& self.knows_class_fields(d.fields)
        &&& self.knows_class_statics(d.static_fields)
        &&& self.holds_method_def_trees(d.methods)
    }
}

/// A list of types all of whose handles an assembly has issued is known to
/// the assembly.
pub proof fn lemma_types_known(c: &Contents, ts: Seq<Type>)
    requires
        c.types_ok(ts),
    ensures
        c.knows_types(c.resolve_types(ts)),
{
    assert forall|i: int| 0 <= i < ts.len() implies c.knows_type(
        #[trigger] c.resolve_types(ts)[i],
    ) by {
        assert(c.type_ok(ts[i]));
        lemma_type_known(c, ts[i]);
    }
}

/// A list of node handles of an assembly resolves to trees that the
/// assembly holds.
pub proof fn lemma_nodes_known(c: &Contents, hs: Seq<NodeIdx>)
    requires
        c.nodes_ok(hs),
    ensures
        c.holds_node_trees(c.node_trees(hs)),
{
    assert forall|i: int| 0 <= i < hs.len() implies c.holds_node_tree(
        #[trigger] c.node_trees(hs)[i],
    ) by {
        assert(c.has_node(hs[i]));
        assert(c.node_tree(hs[i]) == c.node_trees(hs)[i]);
    }
}

/// A list of root handles of an assembly resolves to trees that the
/// assembly holds.
pub proof fn lemma_roots_known(c: &Contents, hs: Seq<RootIdx>)
    requires
        c.roots_ok(hs),
    ensures
        c.holds_root_trees(c.root_trees(hs)),
{
    assert forall|i: int| 0 <= i < hs.len() implies c.holds_root_tree(
        #[trigger] c.root_trees(hs)[i],
    ) by {
        assert(c.has_root(hs[i]));
        assert(c.root_tree(hs[i]) == c.root_trees(hs)[i]);
    }
}

/// A list of method-definition handles of an assembly resolves to trees
/// that the assembly holds.
pub proof fn lemma_method_defs_known(c: &Contents, hs: Seq<MethodDefIdx>)
    requires
        c.method_defs_ok(hs),
    ensures
        c.holds_method_def_trees(c.method_def_trees(hs)),
{
    assert forall|i: int| 0 <= i < hs.len() implies c.holds_method_def_tree(
        #[trigger] c.method_def_trees(hs)[i],
    ) by {
        assert(c.has_method_def(hs[i]));
        assert(c.method_def_tree(hs[i]) == c.method_def_trees(hs)[i]);
    }
}

/// A type all of whose handles an assembly has issued is known to the
/// assembly.
pub proof fn lemma_type_known(c: &Contents, t: Type)
    requires
        c.type_ok(t),
    ensures
        c.knows_type(c.resolve_type(t)),
{
    match t {
        Type::Ptr(h) => {
            assert(c.has_type(h) && c.type_tree(h) == c.type_tree(h));
        },
        Type::Ref(h) => {
            assert(c.has_type(h) && c.type_tree(h) == c.type_tree(h));
        },
        Type::ClassRef(h) => {
            assert(c.has_class_ref(h) && c.class_tree(h) == c.class_tree(h));
        },
        Type::PlatformArray { elem, .. } => {
            assert(c.has_type(elem) && c.type_tree(elem) == c.type_tree(elem));
        },
        Type::FnPtr(h) => {
            assert(c.has_sig(h) && c.sig_tree(h) == c.sig_tree(h));
        },
        _ => {},
    }
}

/// The string behind a handle of an assembly is held by the assembly.
pub proof fn lemma_string_known(c: &Contents, h: StringIdx)
    requires
        c.has_string(h),
    ensures
        c.holds_string(c.string_of(h)),
{
    assert(c.strings[h.0 as int]@ == c.string_of(h));
}

/// An optional string all of whose handles an assembly has issued is known to the
/// assembly.
pub proof fn lemma_string_opt_known(c: &Contents, h: Option<StringIdx>)
    requires
        c.string_opt_ok(h),
    ensures
        c.holds_string_opt(c.string_opt(h)),
{
    match h {
        Some(h) => {
            lemma_string_known(c, h);
        },
        None => {},
    }
}

/// A class reference all of whose handles an assembly has issued is known to the
/// assembly.
pub proof fn lemma_class_ref_known(c: &Contents, v: &ClassRef)
    requires
        c.class_ref_ok(v),
    ensures
        c.knows_class_ref(c.resolve_class_ref(v)),
{
    lemma_string_known(c, v.name);
    lemma_string_opt_known(c, v.module);
    lemma_types_known(c, v.generics@);
}

/// A signature all of whose handles an assembly has issued is known to the
/// assembly.
pub proof fn lemma_sig_known(c: &Contents, v: &FnSig)
    requires
        c.sig_ok(v),
    ensures
        c.knows_sig(c.resolve_sig(v)),
{
    lemma_types_known(c, v.inputs@);
    lemma_type_known(c, v.output);
}

/// A field descriptor all of whose handles an assembly has issued is known to the
/// assembly.
pub proof fn lemma_field_known(c: &Contents, v: &FieldDesc)
    requires
        c.field_ok(v),
    ensures
        c.knows_field(c.resolve_field(v)),
{
    lemma_string_known(c, v.name);
    lemma_type_known(c, v.tpe);
    assert(c.has_class_ref(v.owner) && c.class_tree(v.owner) == c.class_tree(v.owner));
}

/// A static-field descriptor all of whose handles an assembly has issued is known to the
/// assembly.
pub proof fn lemma_static_known(c: &Contents, v: &StaticFieldDesc)
    requires
        c.static_ok(v),
    ensures
        c.knows_static(c.resolve_static(v)),
{
    lemma_string_known(c, v.name);
    lemma_type_known(c, v.tpe);
    assert(c.has_class_ref(v.owner) && c.class_tree(v.owner) == c.class_tree(v.owner));
}

/// A method reference all of whose handles an assembly has issued is known to the
/// assembly.
pub proof fn lemma_method_ref_known(c: &Contents, v: &MethodRef)
    requires
        c.method_ref_ok(v),
    ensures
        c.knows_method_ref(c.resolve_method_ref(v)),
{
    lemma_string_known(c, v.name);
    lemma_types_known(c, v.generics@);
    assert(c.has_class_ref(v.class) && c.class_tree(v.class) == c.class_tree(v.class));
    assert(c.has_sig(v.sig) && c.sig_tree(v.sig) == c.sig_tree(v.sig));
}

/// A constant all of whose handles an assembly has issued is known to the
/// assembly.
pub proof fn lemma_const_known(c: &Contents, v: Const)
    requires
        c.const_ok(v),
    ensures
        c.knows_const(c.resolve_const(v)),
{
    match v {
        Const::PlatformString(s) => {
            lemma_string_known(c, s);
        },
        _ => {},
    }
}

/// The result of a pointer cast all of whose handles an assembly has issued is known to the
/// assembly.
pub proof fn lemma_ptr_cast_known(c: &Contents, v: PtrCastRes)
    requires
        c.ptr_cast_ok(v),
    ensures
        c.knows_ptr_cast(c.resolve_ptr_cast(v)),
{
    match v {
        PtrCastRes::Ptr(h) => {
            assert(c.has_type(h) && c.type_tree(h) == c.type_tree(h));
        },
        PtrCastRes::Ref(h) => {
            assert(c.has_type(h) && c.type_tree(h) == c.type_tree(h));
        },
        PtrCastRes::FnPtr(h) => {
            assert(c.has_sig(h) && c.sig_tree(h) == c.sig_tree(h));
        },
        _ => {},
    }
}

/// A node all of whose handles an assembly has issued is known to the
/// assembly.
pub proof fn lemma_node_known(c: &Contents, v: &CILNode)
    requires
        c.node_ok(v),
    ensures
        c.knows_node(c.resolve_node(v)),
{
    match *v {
        CILNode::Const(cst) => {
            lemma_const_known(c, *cst);
        },
        CILNode::PtrCast(_, cast_res) => {
            lemma_ptr_cast_known(c, *cast_res);
        },
        CILNode::Call(call) => {
            lemma_nodes_known(c, call.1@);
        },
        CILNode::CallI(call) => {
            lemma_nodes_known(c, call.2@);
        },
        _ => {},
    }
}

/// A branch condition all of whose handles an assembly has issued is known to the
/// assembly.
pub proof fn lemma_cond_known(c: &Contents, v: Option<BranchCond>)
    requires
        c.cond_ok(v),
    ensures
        c.knows_cond(c.resolve_cond(v)),
{
}

/// A root all of whose handles an assembly has issued is known to the
/// assembly.
pub proof fn lemma_root_known(c: &Contents, v: &CILRoot)
    requires
        c.root_ok(v),
    ensures
        c.knows_root(c.resolve_root(v)),
{
    match *v {
        CILRoot::Branch(info) => {
            lemma_cond_known(c, info.2);
        },
        CILRoot::Call(call) => {
            lemma_nodes_known(c, call.1@);
        },
        CILRoot::CallI(call) => {
            lemma_nodes_known(c, call.2@);
        },
        CILRoot::StInd(info) => {
            lemma_type_known(c, info.2);
        },
        CILRoot::SourceFileInfo { file, .. } => {
            lemma_string_known(c, file);
        },
        _ => {},
    }
}

/// A block all of whose handles an assembly has issued is known to the
/// assembly.
pub proof fn lemma_block_known(c: &Contents, v: &BasicBlock)
    requires
        c.block_ok(v),
    ensures
        c.knows_block(c.resolve_block(v)),
    decreases v, 0int,
{
    lemma_roots_known(c, v.roots@);
    match v.handler {
        Some(hs) => {
            lemma_blocks_known(c, hs@);
        },
        None => {},
    }
}

/// A list of blocks all of whose handles an assembly has issued is known to the
/// assembly.
pub proof fn lemma_blocks_known(c: &Contents, vs: Seq<BasicBlock>)
    requires
        c.blocks_ok(vs),
    ensures
        c.knows_blocks(c.resolve_blocks(vs)),
    decreases vs, 1int,
{
    assert forall|i: int| 0 <= i < vs.len() implies c.knows_block(
        #[trigger] c.resolve_blocks(vs)[i],
    ) by {
        lemma_block_known(c, &vs[i]);
    }
}

/// A table of local variables all of whose handles an assembly has issued is known to the
/// assembly.
pub proof fn lemma_locals_known(c: &Contents, ls: Seq<(Option<StringIdx>, TypeIdx)>)
    requires
        c.locals_ok(ls),
    ensures
        c.knows_locals(c.resolve_locals(ls)),
{
    assert forall|i: int| 0 <= i < ls.len() implies c.holds_string_opt(
        (#[trigger] c.resolve_locals(ls)[i]).0,
    ) && c.holds_type_tree(c.resolve_locals(ls)[i].1) by {
        assert(c.string_opt_ok(ls[i].0));
        lemma_string_opt_known(c, ls[i].0);
        assert(c.has_type(ls[i].1) && c.type_tree(ls[i].1) == c.type_tree(ls[i].1));
    }
}

/// A list of optional names all of whose handles an assembly has issued is known to the
/// assembly.
pub proof fn lemma_names_known(c: &Contents, ns: Seq<Option<StringIdx>>)
    requires
        c.names_ok(ns),
    ensures
        c.knows_names(c.resolve_names(ns)),
{
    assert forall|i: int| 0 <= i < ns.len() implies c.holds_string_opt(
        #[trigger] c.resolve_names(ns)[i],
    ) by {
        lemma_string_opt_known(c, ns[i]);
    }
}

/// An implementation of a method all of whose handles an assembly has issued is known to the
/// assembly.
pub proof fn lemma_method_impl_known(c: &Contents, v: &MethodImpl)
    requires
        c.method_impl_ok(v),
    ensures
        c.knows_method_impl(c.resolve_method_impl(v)),
{
    match *v {
        MethodImpl::MethodBody { blocks, locals } => {
            lemma_blocks_known(c, blocks@);
            lemma_locals_known(c, locals@);
        },
        MethodImpl::Extern { lib, .. } => {
            lemma_string_known(c, lib);
        },
        MethodImpl::AliasFor(m) => {
            assert(c.has_method_ref(m) && c.method_ref_tree(m) == c.method_ref_tree(m));
        },
        MethodImpl::Missing => {},
    }
}

/// A method definition all of whose handles an assembly has issued is known to the
/// assembly.
pub proof fn lemma_method_def_known(c: &Contents, v: &MethodDef)
    requires
        c.method_def_ok(v),
    ensures
        c.knows_method_def(c.resolve_method_def(v)),
{
    lemma_string_known(c, v.name);
    lemma_method_impl_known(c, &v.implementation);
    lemma_names_known(c, v.arg_names@);
    assert(c.has_class_ref(v.class.0) && c.class_tree(v.class.0) == c.class_tree(v.class.0));
    assert(c.has_sig(v.sig) && c.sig_tree(v.sig) == c.sig_tree(v.sig));
}

/// A class definition all of whose handles an assembly has issued is known to the
/// assembly.
pub proof fn lemma_class_def_known(c: &Contents, v: &ClassDef)
    requires
        c.class_def_ok(v),
    ensures
        c.knows_class_def(c.resolve_class_def(v)),
{
    lemma_string_known(c, v.name);
    match v.extends {
        Some(h) => {
            assert(c.has_class_ref(h) && c.class_tree(h) == c.class_tree(h));
        },
        None => {},
    }
    let fs = v.fields@;
    assert forall|i: int| 0 <= i < fs.len() implies c.knows_type(
        (#[trigger] c.resolve_class_fields(fs)[i]).0,
    ) && c.holds_string(c.resolve_class_fields(fs)[i].1) by {
        assert(c.type_ok(fs[i].0));
        lemma_type_known(c, fs[i].0);
        lemma_string_known(c, fs[i].1);
    }
    let ss = v.static_fields@;
    assert forall|i: int| 0 <= i < ss.len() implies c.knows_type(
        (#[trigger] c.resolve_class_statics(ss)[i]).0,
    ) && c.holds_string(c.resolve_class_statics(ss)[i].1) by {
        assert(c.type_ok(ss[i].0));
        lemma_type_known(c, ss[i].0);
        lemma_string_known(c, ss[i].1);
    }
    lemma_method_defs_known(c, v.methods@);
}

/// The tree behind a handle of a consistent assembly is known to the
/// assembly.
pub proof fn lemma_type_tree_known(c: &Contents, h: TypeIdx)
    requires
        c.wf(),
        c.has_type(h),
    ensures
        c.knows_type(c.type_tree(h)),
{
    lemma_type_known(c, c.types[h.0 as int]);
}

/// A value that resolves to the tree behind a handle of a consistent
/// assembly is held by the assembly: interning it adds nothing.
pub proof fn lemma_type_held(c: &Contents, v: Type, h: TypeIdx)
    requires
        c.wf(),
        c.type_ok(v),
        c.has_type(h),
        c.type_tree(h) == c.resolve_type(v),
    ensures
        holds(c.types, &v),
{
    lemma_type_value_unique(c, c.types[h.0 as int], v);
}

/// The tree behind a handle of a consistent assembly is known to the
/// assembly.
pub proof fn lemma_class_tree_known(c: &Contents, h: ClassRefIdx)
    requires
        c.wf(),
        c.has_class_ref(h),
    ensures
        c.knows_class_ref(c.class_tree(h)),
{
    lemma_class_ref_known(c, &c.class_refs[h.0 as int]);
}

/// A value that resolves to the tree behind a handle of a consistent
/// assembly is held by the assembly: interning it adds nothing.
pub proof fn lemma_class_held(c: &Contents, v: &ClassRef, h: ClassRefIdx)
    requires
        c.wf(),
        c.class_ref_ok(v),
        c.has_class_ref(h),
        c.class_tree(h) == c.resolve_class_ref(v),
    ensures
        holds(c.class_refs, v),
{
    lemma_class_ref_value_unique(c, &c.class_refs[h.0 as int], v);
}

/// The tree behind a handle of a consistent assembly is known to the
/// assembly.
pub proof fn lemma_sig_tree_known(c: &Contents, h: SigIdx)
    requires
        c.wf(),
        c.has_sig(h),
    ensures
        c.knows_sig(c.sig_tree(h)),
{
    lemma_sig_known(c, &c.sigs[h.0 as int]);
}

/// A value that resolves to the tree behind a handle of a consistent
/// assembly is held by the assembly: interning it adds nothing.
pub proof fn lemma_sig_held(c: &Contents, v: &FnSig, h: SigIdx)
    requires
        c.wf(),
        c.sig_ok(v),
        c.has_sig(h),
        c.sig_tree(h) == c.resolve_sig(v),
    ensures
        holds(c.sigs, v),
{
    lemma_sig_value_unique(c, &c.sigs[h.0 as int], v);
}

/// The tree behind a handle of a consistent assembly is known to the
/// assembly.
pub proof fn lemma_field_tree_known(c: &Contents, h: FieldIdx)
    requires
        c.wf(),
        c.has_field(h),
    ensures
        c.knows_field(c.field_tree(h)),
{
    lemma_field_known(c, &c.fields[h.0 as int]);
}

/// A value that resolves to the tree behind a handle of a consistent
/// assembly is held by the assembly: interning it adds nothing.
pub proof fn lemma_field_held(c: &Contents, v: &FieldDesc, h: FieldIdx)
    requires
        c.wf(),
        c.field_ok(v),
        c.has_field(h),
        c.field_tree(h) == c.resolve_field(v),
    ensures
        holds(c.fields, v),
{
    lemma_field_value_unique(c, &c.fields[h.0 as int], v);
}

/// The tree behind a handle of a consistent assembly is known to the
/// assembly.
pub proof fn lemma_static_tree_known(c: &Contents, h: StaticFieldIdx)
    requires
        c.wf(),
        c.has_static(h),
    ensures
        c.knows_static(c.static_tree(h)),
{
    lemma_static_known(c, &c.statics[h.0 as int]);
}

/// A value that resolves to the tree behind a handle of a consistent
/// assembly is held by the assembly: interning it adds nothing.
pub proof fn lemma_static_held(c: &Contents, v: &StaticFieldDesc, h: StaticFieldIdx)
    requires
        c.wf(),
        c.static_ok(v),
        c.has_static(h),
        c.static_tree(h) == c.resolve_static(v),
    ensures
        holds(c.statics, v),
{
    lemma_static_value_unique(c, &c.statics[h.0 as int], v);
}

/// The tree behind a handle of a consistent assembly is known to the
/// assembly.
pub proof fn lemma_method_ref_tree_known(c: &Contents, h: MethodRefIdx)
    requires
        c.wf(),
        c.has_method_ref(h),
    ensures
        c.knows_method_ref(c.method_ref_tree(h)),
{
    lemma_method_ref_known(c, &c.method_refs[h.0 as int]);
}

/// A value that resolves to the tree behind a handle of a consistent
/// assembly is held by the assembly: interning it adds nothing.
pub proof fn lemma_method_ref_held(c: &Contents, v: &MethodRef, h: MethodRefIdx)
    requires
        c.wf(),
        c.method_ref_ok(v),
        c.has_method_ref(h),
        c.method_ref_tree(h) == c.resolve_method_ref(v),
    ensures
        holds(c.method_refs, v),
{
    lemma_method_ref_value_unique(c, &c.method_refs[h.0 as int], v);
}

/// The tree behind a handle of a consistent assembly is known to the
/// assembly.
pub proof fn lemma_node_tree_known(c: &Contents, h: NodeIdx)
    requires
        c.wf(),
        c.has_node(h),
    ensures
        c.knows_node(c.node_tree(h)),
{
    lemma_node_known(c, &c.nodes[h.0 as int]);
}

/// A value that resolves to the tree behind a handle of a consistent
/// assembly is held by the assembly: interning it adds nothing.
pub proof fn lemma_node_held(c: &Contents, v: &CILNode, h: NodeIdx)
    requires
        c.wf(),
        c.node_ok(v),
        c.has_node(h),
        c.node_tree(h) == c.resolve_node(v),
    ensures
        holds(c.nodes, v),
{
    lemma_node_value_unique(c, &c.nodes[h.0 as int], v);
}

/// The tree behind a handle of a consistent assembly is known to the
/// assembly.
pub proof fn lemma_root_tree_known(c: &Contents, h: RootIdx)
    requires
        c.wf(),
        c.has_root(h),
    ensures
        c.knows_root(c.root_tree(h)),
{
    lemma_root_known(c, &c.roots[h.0 as int]);
}

/// A value that resolves to the tree behind a handle of a consistent
/// assembly is held by the assembly: interning it adds nothing.
pub proof fn lemma_root_held(c: &Contents, v: &CILRoot, h: RootIdx)
    requires
        c.wf(),
        c.root_ok(v),
        c.has_root(h),
        c.root_tree(h) == c.resolve_root(v),
    ensures
        holds(c.roots, v),
{
    lemma_root_value_unique(c, &c.roots[h.0 as int], v);
}

/// The tree behind a handle of a consistent assembly is known to the
/// assembly.
pub proof fn lemma_method_def_tree_known(c: &Contents, h: MethodDefIdx)
    requires
        c.wf(),
        c.has_method_def(h),
    ensures
        c.knows_method_def(c.method_def_tree(h)),
{
    lemma_method_def_known(c, &c.method_defs[h.0 as int]);
}

/// A value that resolves to the tree behind a handle of a consistent
/// assembly is held by the assembly: interning it adds nothing.
pub proof fn lemma_method_def_held(c: &Contents, v: &MethodDef, h: MethodDefIdx)
    requires
        c.wf(),
        c.method_def_ok(v),
        c.has_method_def(h),
        c.method_def_tree(h) == c.resolve_method_def(v),
    ensures
        holds(c.method_defs, v),
{
    lemma_method_def_value_unique(c, &c.method_defs[h.0 as int], v);
}

} // verus!
