//! Ownership checks: whether every handle in a value is one that an
//! assembly has issued, which is what interning the value and linking it
//! ask for.

use crate::assembly::Assembly;
use crate::cilnode::{CILNode, Const, PtrCastRes};
use crate::cilroot::{BranchCond, CILRoot};
use crate::class_ref::{ClassRef, FieldDesc, MethodRef, StaticFieldDesc};
use crate::handles::{
    ClassRefIdx, FieldIdx, MethodDefIdx, MethodRefIdx, NodeIdx, RootIdx, SigIdx, StaticFieldIdx,
    StringIdx, TypeIdx,
};
use crate::method::{BasicBlock, ClassDef, MethodDef, MethodImpl};
use crate::tpe::{FnSig, Type};
use vstd::prelude::*;

verus! {

impl Assembly {
    /// Whether this assembly has issued the handle of a string.
    pub fn has_string(&self, h: StringIdx) -> (r: bool)
        ensures
            r == self@.has_string(h),
    {
        h.0 < self.string_count()
    }

    /// Whether this assembly has issued the handle of a type.
    pub fn has_type(&self, h: TypeIdx) -> (r: bool)
        ensures
            r == self@.has_type(h),
    {
        h.0 < self.type_count()
    }

    /// Whether this assembly has issued the handle of a class reference.
    pub fn has_class_ref(&self, h: ClassRefIdx) -> (r: bool)
        ensures
            r == self@.has_class_ref(h),
    {
        h.0 < self.class_ref_count()
    }

    /// Whether this assembly has issued the handle of a signature.
    pub fn has_sig(&self, h: SigIdx) -> (r: bool)
        ensures
            r == self@.has_sig(h),
    {
        h.0 < self.sig_count()
    }

    /// Whether this assembly has issued the handle of a field descriptor.
    pub fn has_field(&self, h: FieldIdx) -> (r: bool)
        ensures
            r == self@.has_field(h),
    {
        h.0 < self.field_count()
    }

    /// Whether this assembly has issued the handle of a static-field descriptor.
    pub fn has_static_field(&self, h: StaticFieldIdx) -> (r: bool)
        ensures
            r == self@.has_static(h),
    {
        h.0 < self.static_field_count()
    }

    /// Whether this assembly has issued the handle of a method reference.
    pub fn has_method_ref(&self, h: MethodRefIdx) -> (r: bool)
        ensures
            r == self@.has_method_ref(h),
    {
        h.0 < self.method_ref_count()
    }

    /// Whether this assembly has issued the handle of a node.
    pub fn has_node(&self, h: NodeIdx) -> (r: bool)
        ensures
            r == self@.has_node(h),
    {
        h.0 < self.node_count()
    }

    /// Whether this assembly has issued the handle of a root.
    pub fn has_root(&self, h: RootIdx) -> (r: bool)
        ensures
            r == self@.has_root(h),
    {
        h.0 < self.root_count()
    }

    /// Whether this assembly has issued the handle of a method definition.
    pub fn has_method_def(&self, h: MethodDefIdx) -> (r: bool)
        ensures
            r == self@.has_method_def(h),
    {
        h.0 < self.method_def_count()
    }

    /// Whether this assembly has issued the handle, if there is one.
    pub fn owns_string_opt(&self, h: Option<StringIdx>) -> (r: bool)
        ensures
            r == self@.string_opt_ok(h),
    {
        match h {
            Some(h) => self.has_string(h),
            None => true,
        }
    }

    /// Whether every handle in the type is one of this assembly.
    pub fn owns_type(&self, t: Type) -> (r: bool)
        ensures
            r == self@.type_ok(t),
    {
        match t {
            Type::Ptr(inner) => self.has_type(inner),
            Type::Ref(inner) => self.has_type(inner),
            Type::ClassRef(c) => self.has_class_ref(c),
            Type::PlatformArray { elem, .. } => self.has_type(elem),
            Type::FnPtr(sig) => self.has_sig(sig),
            _ => true,
        }
    }

    /// Whether every handle in the list of types is one of this assembly.
    pub fn owns_types(&self, v: &Vec<Type>) -> (r: bool)
        ensures
            r == self@.types_ok(v@),
    {
        let mut i: usize = 0;
        while i < v.len()
            invariant
                i <= v.len(),
                forall|k: int| 0 <= k < i ==> self@.type_ok((#[trigger] v@[k])),
            decreases v.len() - i,
        {
            if !(self.owns_type(v[i])) {
                return false;
            }
            i += 1;
        }
        true
    }

    /// Whether every handle in the class reference is one of this assembly.
    pub fn owns_class_ref(&self, c: &ClassRef) -> (r: bool)
        ensures
            r == self@.class_ref_ok(c),
    {
        self.has_string(c.name) && self.owns_string_opt(c.module) && self.owns_types(&c.generics)
    }

    /// Whether every handle in the signature is one of this assembly.
    pub fn owns_sig(&self, s: &FnSig) -> (r: bool)
        ensures
            r == self@.sig_ok(s),
    {
        self.owns_types(&s.inputs) && self.owns_type(s.output)
    }

    /// Whether every handle in the field descriptor is one of this assembly.
    pub fn owns_field(&self, f: &FieldDesc) -> (r: bool)
        ensures
            r == self@.field_ok(f),
    {
        self.has_class_ref(f.owner) && self.has_string(f.name) && self.owns_type(f.tpe)
    }

    /// Whether every handle in the static-field descriptor is one of this
    /// assembly.
    pub fn owns_static_field(&self, f: &StaticFieldDesc) -> (r: bool)
        ensures
            r == self@.static_ok(f),
    {
        self.has_class_ref(f.owner) && self.has_string(f.name) && self.owns_type(f.tpe)
    }

    /// Whether every handle in the method reference is one of this assembly.
    pub fn owns_method_ref(&self, m: &MethodRef) -> (r: bool)
        ensures
            r == self@.method_ref_ok(m),
    {
        self.has_class_ref(m.class) && self.has_string(m.name) && self.has_sig(m.sig)
            && self.owns_types(&m.generics)
    }

    /// Whether the string of the constant, if it is one, is one of this
    /// assembly.
    pub fn owns_const(&self, c: Const) -> (r: bool)
        ensures
            r == self@.const_ok(c),
    {
        match c {
            Const::PlatformString(s) => self.has_string(s),
            _ => true,
        }
    }

    /// Whether every handle in the result of a pointer cast is one of this
    /// assembly.
    pub fn owns_ptr_cast(&self, p: PtrCastRes) -> (r: bool)
        ensures
            r == self@.ptr_cast_ok(p),
    {
        match p {
            PtrCastRes::Ptr(t) => self.has_type(t),
            PtrCastRes::Ref(t) => self.has_type(t),
            PtrCastRes::FnPtr(s) => self.has_sig(s),
            _ => true,
        }
    }

    /// Whether every node handle in the list is one of this assembly.
    pub fn owns_nodes(&self, v: &Vec<NodeIdx>) -> (r: bool)
        ensures
            r == self@.nodes_ok(v@),
    {
        let mut i: usize = 0;
        while i < v.len()
            invariant
                i <= v.len(),
                forall|k: int| 0 <= k < i ==> self@.has_node((#[trigger] v@[k])),
            decreases v.len() - i,
        {
            if !(self.has_node(v[i])) {
                return false;
            }
            i += 1;
        }
        true
    }

    /// Whether every handle in the node is one of this assembly.
    pub fn owns_node(&self, n: &CILNode) -> (r: bool)
        ensures
            r == self@.node_ok(n),
    {
        match n {
            CILNode::Const(cst) => self.owns_const(**cst),
            CILNode::BinOp(lhs, rhs, _) => self.has_node(*lhs) && self.has_node(*rhs),
            CILNode::UnOp(arg, _) => self.has_node(*arg),
            CILNode::Call(info) => self.has_method_ref(info.0) && self.owns_nodes(&info.1),
            CILNode::IntCast { input, .. } => self.has_node(*input),
            CILNode::FloatCast { input, .. } => self.has_node(*input),
            CILNode::RefToPtr(input) => self.has_node(*input),
            CILNode::PtrCast(input, cast_res) => self.has_node(
                *input) && self.owns_ptr_cast(**cast_res,
            ),
            CILNode::LdFieldAdress { addr, field } => self.has_node(
                *addr) && self.has_field(*field,
            ),
            CILNode::LdField { addr, field } => self.has_node(*addr) && self.has_field(*field),
            CILNode::LdInd { addr, tpe, .. } => self.has_node(*addr) && self.has_type(*tpe),
            CILNode::SizeOf(tpe) => self.has_type(*tpe),
            CILNode::IsInst(object, tpe) => self.has_node(*object) && self.has_type(*tpe),
            CILNode::CheckedCast(object, tpe) => self.has_node(*object) && self.has_type(*tpe),
            CILNode::CallI(info) => self.has_node(
                info.0) && self.has_sig(info.1) && self.owns_nodes(&info.2,
            ),
            CILNode::LocAlloc { size } => self.has_node(*size),
            CILNode::LdStaticField(sfld) => self.has_static_field(*sfld),
            CILNode::LdFtn(mref) => self.has_method_ref(*mref),
            CILNode::LdTypeToken(tpe) => self.has_type(*tpe),
            CILNode::LdLen(array) => self.has_node(*array),
            CILNode::LocAllocAlgined { tpe, .. } => self.has_type(*tpe),
            CILNode::LdElelemRef { array, index } => self.has_node(*array) && self.has_node(*index),
            CILNode::UnboxAny { object, tpe } => self.has_node(*object) && self.has_type(*tpe),
            _ => true,
        }
    }

    /// Whether every handle in the branch condition is one of this assembly.
    pub fn owns_cond(&self, c: Option<BranchCond>) -> (r: bool)
        ensures
            r == self@.cond_ok(c),
    {
        match c {
            Some(BranchCond::True(a)) => self.has_node(a),
            Some(BranchCond::False(a)) => self.has_node(a),
            Some(BranchCond::Eq(a, b)) => self.has_node(a) && self.has_node(b),
            Some(BranchCond::Ne(a, b)) => self.has_node(a) && self.has_node(b),
            Some(BranchCond::Lt(a, b, _)) => self.has_node(a) && self.has_node(b),
            Some(BranchCond::Gt(a, b, _)) => self.has_node(a) && self.has_node(b),
            None => true,
        }
    }

    /// Whether every handle in the root is one of this assembly.
    pub fn owns_root(&self, root: &CILRoot) -> (r: bool)
        ensures
            r == self@.root_ok(root),
    {
        match root {
            CILRoot::StLoc(_, node) => self.has_node(*node),
            CILRoot::StArg(_, node) => self.has_node(*node),
            CILRoot::Ret(node) => self.has_node(*node),
            CILRoot::Pop(node) => self.has_node(*node),
            CILRoot::Throw(node) => self.has_node(*node),
            CILRoot::Branch(info) => self.owns_cond(info.2),
            CILRoot::SetField(info) => self.has_field(
                info.0) && self.has_node(info.1) && self.has_node(info.2,
            ),
            CILRoot::Call(info) => self.has_method_ref(info.0) && self.owns_nodes(&info.1),
            CILRoot::StInd(info) => self.has_node(
                info.0) && self.has_node(info.1) && self.owns_type(info.2,
            ),
            CILRoot::InitBlk(info) => self.has_node(
                info.0) && self.has_node(info.1) && self.has_node(info.2,
            ),
            CILRoot::CpBlk(info) => self.has_node(
                info.0) && self.has_node(info.1) && self.has_node(info.2,
            ),
            CILRoot::CallI(info) => self.has_node(
                info.0) && self.has_sig(info.1) && self.owns_nodes(&info.2,
            ),
            CILRoot::SetStaticField { field, val } => self.has_static_field(
                *field) && self.has_node(*val,
            ),
            CILRoot::SourceFileInfo { file, .. } => self.has_string(*file),
            _ => true,
        }
    }

    /// Whether every root handle in the list is one of this assembly.
    pub fn owns_roots(&self, v: &Vec<RootIdx>) -> (r: bool)
        ensures
            r == self@.roots_ok(v@),
    {
        let mut i: usize = 0;
        while i < v.len()
            invariant
                i <= v.len(),
                forall|k: int| 0 <= k < i ==> self@.has_root((#[trigger] v@[k])),
            decreases v.len() - i,
        {
            if !(self.has_root(v[i])) {
                return false;
            }
            i += 1;
        }
        true
    }

    /// Whether every handle in the block and in its handlers is one of this
    /// assembly.
    pub fn owns_block(&self, b: &BasicBlock) -> (r: bool)
        ensures
            r == self@.block_ok(b),
        decreases b, 0int,
    {
        if !self.owns_roots(&b.roots) {
            return false;
        }
        match &b.handler {
            Some(hs) => self.owns_blocks(hs),
            None => true,
        }
    }

    /// Whether every handle in the blocks and in their handlers is one of
    /// this assembly.
    pub fn owns_blocks(&self, v: &Vec<BasicBlock>) -> (r: bool)
        ensures
            r == self@.blocks_ok(v@),
        decreases v, 1int,
    {
        let mut i: usize = 0;
        while i < v.len()
            invariant
                i <= v.len(),
                forall|k: int| 0 <= k < i ==> self@.block_ok(#[trigger] &v@[k]),
            decreases v.len() - i,
        {
            if !self.owns_block(&v[i]) {
                return false;
            }
            i += 1;
        }
        true
    }

    /// Whether every handle in the table of local variables is one of this
    /// assembly.
    pub fn owns_locals(&self, v: &Vec<(Option<StringIdx>, TypeIdx)>) -> (r: bool)
        ensures
            r == self@.locals_ok(v@),
    {
        let mut i: usize = 0;
        while i < v.len()
            invariant
                i <= v.len(),
                forall|k: int|
                    0 <= k < i ==> self@.string_opt_ok((#[trigger] v@[k]).0) && self@.has_type(
                        v@[k].1,
                    ),
            decreases v.len() - i,
        {
            if !(self.owns_string_opt(v[i].0) && self.has_type(v[i].1)) {
                return false;
            }
            i += 1;
        }
        true
    }

    /// Whether every name in the list is one of this assembly.
    pub fn owns_names(&self, v: &Vec<Option<StringIdx>>) -> (r: bool)
        ensures
            r == self@.names_ok(v@),
    {
        let mut i: usize = 0;
        while i < v.len()
            invariant
                i <= v.len(),
                forall|k: int| 0 <= k < i ==> self@.string_opt_ok((#[trigger] v@[k])),
            decreases v.len() - i,
        {
            if !(self.owns_string_opt(v[i])) {
                return false;
            }
            i += 1;
        }
        true
    }

    /// Whether every handle in the implementation is one of this assembly.
    pub fn owns_method_impl(&self, m: &MethodImpl) -> (r: bool)
        ensures
            r == self@.method_impl_ok(m),
    {
        match m {
            MethodImpl::MethodBody { blocks, locals } => self.owns_blocks(blocks)
                && self.owns_locals(locals),
            MethodImpl::Extern { lib, .. } => self.has_string(*lib),
            MethodImpl::AliasFor(m) => self.has_method_ref(*m),
            MethodImpl::Missing => true,
        }
    }

    /// Whether every handle in the method definition is one of this
    /// assembly and this assembly defines the class that owns the method.
    pub fn owns_method_def(&self, d: &MethodDef) -> (r: bool)
        ensures
            r == self@.method_def_ok(d),
    {
        self.has_class_ref(d.class.0) && self.class_ref_to_def(d.class.0).is_some()
            && self.has_string(d.name) && self.has_sig(d.sig) && self.owns_method_impl(
            &d.implementation,
        ) && self.owns_names(&d.arg_names)
    }

    /// Whether every handle in the fields of a class definition is one of
    /// this assembly.
    pub fn owns_class_fields(&self, v: &Vec<(Type, StringIdx, Option<u32>)>) -> (r: bool)
        ensures
            r == self@.class_fields_ok(v@),
    {
        let mut i: usize = 0;
        while i < v.len()
            invariant
                i <= v.len(),
                forall|k: int|
                    0 <= k < i ==> self@.type_ok((#[trigger] v@[k]).0) && self@.has_string(v@[k].1),
            decreases v.len() - i,
        {
            if !(self.owns_type(v[i].0) && self.has_string(v[i].1)) {
                return false;
            }
            i += 1;
        }
        true
    }

    /// Whether every handle in the static fields of a class definition is
    /// one of this assembly.
    pub fn owns_class_statics(&self, v: &Vec<(Type, StringIdx, bool)>) -> (r: bool)
        ensures
            r == self@.class_statics_ok(v@),
    {
        let mut i: usize = 0;
        while i < v.len()
            invariant
                i <= v.len(),
                forall|k: int|
                    0 <= k < i ==> self@.type_ok((#[trigger] v@[k]).0) && self@.has_string(v@[k].1),
            decreases v.len() - i,
        {
            if !(self.owns_type(v[i].0) && self.has_string(v[i].1)) {
                return false;
            }
            i += 1;
        }
        true
    }

    /// Whether every method-definition handle in the list is one of this
    /// assembly.
    pub fn owns_method_defs(&self, v: &Vec<MethodDefIdx>) -> (r: bool)
        ensures
            r == self@.method_defs_ok(v@),
    {
        let mut i: usize = 0;
        while i < v.len()
            invariant
                i <= v.len(),
                forall|k: int| 0 <= k < i ==> self@.has_method_def((#[trigger] v@[k])),
            decreases v.len() - i,
        {
            if !(self.has_method_def(v[i])) {
                return false;
            }
            i += 1;
        }
        true
    }

    /// Whether every handle in the class definition is one of this
    /// assembly.
    pub fn owns_class_def(&self, d: &ClassDef) -> (r: bool)
        ensures
            r == self@.class_def_ok(d),
    {
        let extends = match d.extends {
            Some(c) => self.has_class_ref(c),
            None => true,
        };
        self.has_string(d.name) && extends && self.owns_class_fields(&d.fields)
            && self.owns_class_statics(&d.static_fields) && self.owns_method_defs(&d.methods)
    }
}

} // verus!
