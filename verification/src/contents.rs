//! The mathematical model of an assembly: the contents of its arenas, the
//! tree that each handle resolves to, and what it means for the whole to be
//! consistent.

use crate::arena::{distinct, holds, Interned};
use crate::cilnode::{CILNode, Const, PtrCastRes};
use crate::cilroot::{BranchCond, CILRoot};
use crate::class_ref::{ClassRef, FieldDesc, MethodRef, StaticFieldDesc};
use crate::digest::{digest_bytes, fingerprint_bytes};
use crate::handles::{
    ClassDefIdx, ClassRefIdx, FieldIdx, MethodDefIdx, MethodRefIdx, NodeIdx, RootIdx, SigIdx,
    StaticFieldIdx, StringIdx, TypeIdx,
};
use crate::journal::{sizes_after, Category, Sizes};
use crate::method::{BasicBlock, ClassDef, MethodDef, MethodImpl};
use crate::resolved::{
    Resolved, ResolvedBlock, ResolvedBranchCond, ResolvedClassDef, ResolvedClassRef,
    ResolvedConst, ResolvedField, ResolvedMethodDef, ResolvedMethodImpl, ResolvedMethodRef,
    ResolvedNode, ResolvedPtrCast, ResolvedRoot, ResolvedSig, ResolvedStaticField, ResolvedType,
};
use crate::tpe::{FnSig, Type};
use vstd::prelude::*;

verus! {

impl Interned for String {
    open spec fn alike(&self, other: &Self) -> bool {
        self@ == other@
    }

    proof fn alike_is_equivalence(a: &Self, b: &Self, c: &Self) {
    }

    fn same(&self, other: &Self) -> (r: bool) {
        *self == *other
    }

    fn duplicate(&self) -> (r: Self) {
        self.clone()
    }

    open spec fn digest(&self) -> u64 {
        digest_bytes(vstd::utf8::encode_utf8(self@))
    }

    proof fn digest_respects_alike(a: &Self, b: &Self) {
    }

    fn fingerprint(&self) -> (r: u64) {
        fingerprint_bytes(self.as_str().as_bytes())
    }
}

/// `a` is an initial segment of `b`.
pub open spec fn prefix<T>(a: Seq<T>, b: Seq<T>) -> bool {
    &&& a.len() <= b.len()
    &&& forall|i: int| 0 <= i < a.len() ==> #[trigger] b[i] == a[i]
}

/// The class reference is the definition's own: it has the definition's
/// name and kind, and no owning module or generic arguments. A definition
/// is stored under its own class reference.
pub open spec fn own_ref(c: &ClassRef, d: &ClassDef) -> bool {
    &&& c.name == d.name
    &&& c.is_valuetype == d.is_valuetype
    &&& c.module is None
    &&& c.generics@.len() == 0
}

/// The class reference is the one of the main module: named by the first
/// string, with no owning module and no generic arguments, and no value
/// type.
pub open spec fn own_main(c: &ClassRef) -> bool {
    &&& c.name == StringIdx(0)
    &&& c.module is None
    &&& !c.is_valuetype
    &&& c.generics@.len() == 0
}

/// An assembly whose arenas have the given sizes and that defines the given
/// classes. Whether a value refers only to handles of an assembly depends
/// on no more than this.
pub open spec fn sized(n: Sizes, class_defs: Seq<Option<ClassDef>>, main_module: ClassRefIdx) -> Contents {
    Contents {
        strings: Seq::new(n.strings, |i: int| arbitrary()),
        types: Seq::new(n.types, |i: int| arbitrary()),
        class_refs: Seq::new(n.class_refs, |i: int| arbitrary()),
        sigs: Seq::new(n.sigs, |i: int| arbitrary()),
        fields: Seq::new(n.fields, |i: int| arbitrary()),
        statics: Seq::new(n.statics, |i: int| arbitrary()),
        method_refs: Seq::new(n.method_refs, |i: int| arbitrary()),
        nodes: Seq::new(n.nodes, |i: int| arbitrary()),
        roots: Seq::new(n.roots, |i: int| arbitrary()),
        method_defs: Seq::new(n.method_defs, |i: int| arbitrary()),
        class_defs,
        main_module,
        resolved: Resolved {
            types: Seq::empty(),
            class_refs: Seq::empty(),
            sigs: Seq::empty(),
            fields: Seq::empty(),
            statics: Seq::empty(),
            method_refs: Seq::empty(),
            nodes: Seq::empty(),
            roots: Seq::empty(),
            method_defs: Seq::empty(),
        },
        journal: Seq::empty(),
    }
}

/// What an assembly holds: each arena as the sequence of its values, the
/// class definitions by the handle of their class reference, the main
/// module, for each handle the tree that it resolves to, and the order in
/// which the values were interned.
pub struct Contents {
    pub strings: Seq<String>,
    pub types: Seq<Type>,
    pub class_refs: Seq<ClassRef>,
    pub sigs: Seq<FnSig>,
    pub fields: Seq<FieldDesc>,
    pub statics: Seq<StaticFieldDesc>,
    pub method_refs: Seq<MethodRef>,
    pub nodes: Seq<CILNode>,
    pub roots: Seq<CILRoot>,
    pub method_defs: Seq<MethodDef>,
    pub class_defs: Seq<Option<ClassDef>>,
    pub main_module: ClassRefIdx,
    pub resolved: Resolved,
    /// The order in which the values were interned.
    pub journal: Seq<Category>,
}

impl Contents {
    /// Some stored string spells `s`.
    pub open spec fn holds_string(&self, s: Seq<char>) -> bool {
        exists|i: int| 0 <= i < self.strings.len() && (#[trigger] self.strings[i])@ == s
    }

    // The handles that this assembly has issued.
    pub open spec fn has_string(&self, h: StringIdx) -> bool {
        h.0 < self.strings.len()
    }

    pub open spec fn has_type(&self, h: TypeIdx) -> bool {
        h.0 < self.types.len()
    }

    pub open spec fn has_class_ref(&self, h: ClassRefIdx) -> bool {
        h.0 < self.class_refs.len()
    }

    pub open spec fn has_sig(&self, h: SigIdx) -> bool {
        h.0 < self.sigs.len()
    }

    pub open spec fn has_field(&self, h: FieldIdx) -> bool {
        h.0 < self.fields.len()
    }

    pub open spec fn has_static(&self, h: StaticFieldIdx) -> bool {
        h.0 < self.statics.len()
    }

    pub open spec fn has_method_ref(&self, h: MethodRefIdx) -> bool {
        h.0 < self.method_refs.len()
    }

    pub open spec fn has_node(&self, h: NodeIdx) -> bool {
        h.0 < self.nodes.len()
    }

    pub open spec fn has_root(&self, h: RootIdx) -> bool {
        h.0 < self.roots.len()
    }

    pub open spec fn has_method_def(&self, h: MethodDefIdx) -> bool {
        h.0 < self.method_defs.len()
    }

    /// The assembly holds a definition of the class.
    pub open spec fn has_class_def(&self, h: ClassDefIdx) -> bool {
        h.0.0 < self.class_defs.len() && self.class_defs[h.0.0 as int] is Some
    }

    /// The definition of a class.
    pub open spec fn class_def_of(&self, h: ClassDefIdx) -> ClassDef {
        self.class_defs[h.0.0 as int]->0
    }

    // What a handle resolves to.
    pub open spec fn string_of(&self, h: StringIdx) -> Seq<char> {
        self.strings[h.0 as int]@
    }

    pub open spec fn string_opt(&self, h: Option<StringIdx>) -> Option<Seq<char>> {
        match h {
            Some(h) => Some(self.string_of(h)),
            None => None,
        }
    }

    pub open spec fn type_tree(&self, h: TypeIdx) -> ResolvedType {
        self.resolved.types[h.0 as int]
    }

    pub open spec fn class_tree(&self, h: ClassRefIdx) -> ResolvedClassRef {
        self.resolved.class_refs[h.0 as int]
    }

    pub open spec fn sig_tree(&self, h: SigIdx) -> ResolvedSig {
        self.resolved.sigs[h.0 as int]
    }

    pub open spec fn field_tree(&self, h: FieldIdx) -> ResolvedField {
        self.resolved.fields[h.0 as int]
    }

    pub open spec fn static_tree(&self, h: StaticFieldIdx) -> ResolvedStaticField {
        self.resolved.statics[h.0 as int]
    }

    pub open spec fn method_ref_tree(&self, h: MethodRefIdx) -> ResolvedMethodRef {
        self.resolved.method_refs[h.0 as int]
    }

    pub open spec fn node_tree(&self, h: NodeIdx) -> ResolvedNode {
        self.resolved.nodes[h.0 as int]
    }

    pub open spec fn root_tree(&self, h: RootIdx) -> ResolvedRoot {
        self.resolved.roots[h.0 as int]
    }

    pub open spec fn method_def_tree(&self, h: MethodDefIdx) -> ResolvedMethodDef {
        self.resolved.method_defs[h.0 as int]
    }

    /// The class of the main module.
    pub open spec fn main_tree(&self) -> ResolvedClassRef {
        self.class_tree(self.main_module)
    }

    pub open spec fn class_tree_opt(&self, h: Option<ClassRefIdx>) -> Option<ResolvedClassRef> {
        match h {
            Some(h) => Some(self.class_tree(h)),
            None => None,
        }
    }

    pub open spec fn node_trees(&self, hs: Seq<NodeIdx>) -> Seq<ResolvedNode> {
        Seq::new(hs.len(), |i: int| self.node_tree(hs[i]))
    }

    pub open spec fn root_trees(&self, hs: Seq<RootIdx>) -> Seq<ResolvedRoot> {
        Seq::new(hs.len(), |i: int| self.root_tree(hs[i]))
    }

    pub open spec fn method_def_trees(&self, hs: Seq<MethodDefIdx>) -> Seq<ResolvedMethodDef> {
        Seq::new(hs.len(), |i: int| self.method_def_tree(hs[i]))
    }

    // The values all of whose handles this assembly has issued.
    pub open spec fn string_opt_ok(&self, h: Option<StringIdx>) -> bool {
        match h {
            Some(h) => self.has_string(h),
            None => true,
        }
    }

    pub open spec fn class_ref_opt_ok(&self, h: Option<ClassRefIdx>) -> bool {
        match h {
            Some(h) => self.has_class_ref(h),
            None => true,
        }
    }

    pub open spec fn type_ok(&self, t: Type) -> bool {
        match t {
            Type::Ptr(inner) => self.has_type(inner),
            Type::Ref(inner) => self.has_type(inner),
            Type::ClassRef(c) => self.has_class_ref(c),
            Type::PlatformArray { elem, dims } => self.has_type(elem),
            Type::FnPtr(sig) => self.has_sig(sig),
            _ => true,
        }
    }

    pub open spec fn types_ok(&self, ts: Seq<Type>) -> bool {
        forall|i: int| 0 <= i < ts.len() ==> self.type_ok(#[trigger] ts[i])
    }

    pub open spec fn class_ref_ok(&self, c: &ClassRef) -> bool {
        &&& self.has_string(c.name)
        &&& self.string_opt_ok(c.module)
        &&& self.types_ok(c.generics@)
    }

    pub open spec fn sig_ok(&self, s: &FnSig) -> bool {
        &&& self.types_ok(s.inputs@)
        &&& self.type_ok(s.output)
    }

    pub open spec fn field_ok(&self, f: &FieldDesc) -> bool {
        &&& self.has_class_ref(f.owner)
        &&& self.has_string(f.name)
        &&& self.type_ok(f.tpe)
    }

    pub open spec fn static_ok(&self, f: &StaticFieldDesc) -> bool {
        &&& self.has_class_ref(f.owner)
        &&& self.has_string(f.name)
        &&& self.type_ok(f.tpe)
    }

    pub open spec fn method_ref_ok(&self, m: &MethodRef) -> bool {
        &&& self.has_class_ref(m.class)
        &&& self.has_string(m.name)
        &&& self.has_sig(m.sig)
        &&& self.types_ok(m.generics@)
    }

    pub open spec fn const_ok(&self, c: Const) -> bool {
        match c {
            Const::PlatformString(s) => self.has_string(s),
            _ => true,
        }
    }

    pub open spec fn ptr_cast_ok(&self, p: PtrCastRes) -> bool {
        match p {
            PtrCastRes::Ptr(t) => self.has_type(t),
            PtrCastRes::Ref(t) => self.has_type(t),
            PtrCastRes::FnPtr(s) => self.has_sig(s),
            _ => true,
        }
    }

    pub open spec fn nodes_ok(&self, hs: Seq<NodeIdx>) -> bool {
        forall|i: int| 0 <= i < hs.len() ==> self.has_node(#[trigger] hs[i])
    }

    /// Every handle in the node is one of this assembly.
    pub open spec fn node_ok(&self, v: &CILNode) -> bool {
        match *v {
            CILNode::Const(cst) => self.const_ok(*cst),
            CILNode::BinOp(lhs, rhs, _) => self.has_node(lhs) && self.has_node(rhs),
            CILNode::UnOp(arg, _) => self.has_node(arg),
            CILNode::Call(call) => self.has_method_ref(call.0) && self.nodes_ok(call.1@),
            CILNode::IntCast { input, .. } => self.has_node(input),
            CILNode::FloatCast { input, .. } => self.has_node(input),
            CILNode::RefToPtr(input) => self.has_node(input),
            CILNode::PtrCast(input, cast_res) => self.has_node(
                input) && self.ptr_cast_ok(*cast_res,
            ),
            CILNode::LdFieldAdress { addr, field } => self.has_node(addr) && self.has_field(field),
            CILNode::LdField { addr, field } => self.has_node(addr) && self.has_field(field),
            CILNode::LdInd { addr, tpe, .. } => self.has_node(addr) && self.has_type(tpe),
            CILNode::SizeOf(tpe) => self.has_type(tpe),
            CILNode::IsInst(object, tpe) => self.has_node(object) && self.has_type(tpe),
            CILNode::CheckedCast(object, tpe) => self.has_node(object) && self.has_type(tpe),
            CILNode::CallI(call) => self.has_node(
                call.0) && self.has_sig(call.1) && self.nodes_ok(call.2@,
            ),
            CILNode::LocAlloc { size } => self.has_node(size),
            CILNode::LdStaticField(sfld) => self.has_static(sfld),
            CILNode::LdFtn(mref) => self.has_method_ref(mref),
            CILNode::LdTypeToken(tpe) => self.has_type(tpe),
            CILNode::LdLen(array) => self.has_node(array),
            CILNode::LocAllocAlgined { tpe, .. } => self.has_type(tpe),
            CILNode::LdElelemRef { array, index } => self.has_node(array) && self.has_node(index),
            CILNode::UnboxAny { object, tpe } => self.has_node(object) && self.has_type(tpe),
            _ => true,
        }
    }

    pub open spec fn branch_cond_ok(&self, c: BranchCond) -> bool {
        match c {
            BranchCond::True(a) => self.has_node(a),
            BranchCond::False(a) => self.has_node(a),
            BranchCond::Eq(a, b) => self.has_node(a) && self.has_node(b),
            BranchCond::Ne(a, b) => self.has_node(a) && self.has_node(b),
            BranchCond::Lt(a, b, _) => self.has_node(a) && self.has_node(b),
            BranchCond::Gt(a, b, _) => self.has_node(a) && self.has_node(b),
        }
    }

    pub open spec fn cond_ok(&self, c: Option<BranchCond>) -> bool {
        match c {
            Some(c) => self.branch_cond_ok(c),
            None => true,
        }
    }

    /// Every handle in the root is one of this assembly.
    pub open spec fn root_ok(&self, v: &CILRoot) -> bool {
        match *v {
            CILRoot::StLoc(_, node) => self.has_node(node),
            CILRoot::StArg(_, node) => self.has_node(node),
            CILRoot::Ret(node) => self.has_node(node),
            CILRoot::Pop(node) => self.has_node(node),
            CILRoot::Throw(node) => self.has_node(node),
            CILRoot::Branch(info) => self.cond_ok(info.2),
            CILRoot::SetField(info) => self.has_field(
                info.0) && self.has_node(info.1) && self.has_node(info.2,
            ),
            CILRoot::Call(call) => self.has_method_ref(call.0) && self.nodes_ok(call.1@),
            CILRoot::StInd(info) => self.has_node(
                info.0) && self.has_node(info.1) && self.type_ok(info.2,
            ),
            CILRoot::InitBlk(info) => self.has_node(
                info.0) && self.has_node(info.1) && self.has_node(info.2,
            ),
            CILRoot::CpBlk(info) => self.has_node(
                info.0) && self.has_node(info.1) && self.has_node(info.2,
            ),
            CILRoot::CallI(call) => self.has_node(
                call.0) && self.has_sig(call.1) && self.nodes_ok(call.2@,
            ),
            CILRoot::SetStaticField { field, val } => self.has_static(field) && self.has_node(val),
            CILRoot::SourceFileInfo { file, .. } => self.has_string(file),
            _ => true,
        }
    }

    pub open spec fn roots_ok(&self, hs: Seq<RootIdx>) -> bool {
        forall|i: int| 0 <= i < hs.len() ==> self.has_root(#[trigger] hs[i])
    }

    pub open spec fn block_ok(&self, b: &BasicBlock) -> bool
        decreases b, 0int,
    {
        &&& self.roots_ok(b.roots@)
        &&& match b.handler {
            Some(hs) => self.blocks_ok(hs@),
            None => true,
        }
    }

    pub open spec fn blocks_ok(&self, bs: Seq<BasicBlock>) -> bool
        decreases bs, 1int,
    {
        forall|i: int| 0 <= i < bs.len() ==> self.block_ok(#[trigger] &bs[i])
    }

    pub open spec fn locals_ok(&self, ls: Seq<(Option<StringIdx>, TypeIdx)>) -> bool {
        forall|i: int|
            0 <= i < ls.len() ==> self.string_opt_ok((#[trigger] ls[i]).0) && self.has_type(ls[i].1)
    }

    pub open spec fn names_ok(&self, ns: Seq<Option<StringIdx>>) -> bool {
        forall|i: int| 0 <= i < ns.len() ==> self.string_opt_ok(#[trigger] ns[i])
    }

    pub open spec fn method_impl_ok(&self, m: &MethodImpl) -> bool {
        match *m {
            MethodImpl::MethodBody { blocks, locals } => self.blocks_ok(blocks@) && self.locals_ok(
                locals@,
            ),
            MethodImpl::Extern { lib, .. } => self.has_string(lib),
            MethodImpl::AliasFor(m) => self.has_method_ref(m),
            MethodImpl::Missing => true,
        }
    }

    /// Every handle in the method definition is one of this assembly, and
    /// this assembly defines the class that owns the method.
    pub open spec fn method_def_ok(&self, d: &MethodDef) -> bool {
        &&& self.has_class_ref(d.class.0)
        &&& self.has_class_def(d.class)
        &&& self.has_string(d.name)
        &&& self.has_sig(d.sig)
        &&& self.method_impl_ok(&d.implementation)
        &&& self.names_ok(d.arg_names@)
    }

    pub open spec fn class_fields_ok(&self, fs: Seq<(Type, StringIdx, Option<u32>)>) -> bool {
        forall|i: int| 0 <= i < fs.len()
            ==> self.type_ok((#[trigger] fs[i]).0) && self.has_string(fs[i].1)
    }

    pub open spec fn class_statics_ok(&self, fs: Seq<(Type, StringIdx, bool)>) -> bool {
        forall|i: int| 0 <= i < fs.len()
            ==> self.type_ok((#[trigger] fs[i]).0) && self.has_string(fs[i].1)
    }

    pub open spec fn method_defs_ok(&self, hs: Seq<MethodDefIdx>) -> bool {
        forall|i: int| 0 <= i < hs.len() ==> self.has_method_def(#[trigger] hs[i])
    }

    /// Every handle in the class definition is one of this assembly.
    pub open spec fn class_def_ok(&self, d: &ClassDef) -> bool {
        &&& self.has_string(d.name)
        &&& self.class_ref_opt_ok(d.extends)
        &&& self.class_fields_ok(d.fields@)
        &&& self.class_statics_ok(d.static_fields@)
        &&& self.method_defs_ok(d.methods@)
    }

    // The tree that a value resolves to.
    pub open spec fn resolve_type(&self, t: Type) -> ResolvedType {
        match t {
            Type::Ptr(inner) => ResolvedType::Ptr(Box::new(self.type_tree(inner))),
            Type::Ref(inner) => ResolvedType::Ref(Box::new(self.type_tree(inner))),
            Type::Int(i) => ResolvedType::Int(i),
            Type::Float(f) => ResolvedType::Float(f),
            Type::PlatformString => ResolvedType::PlatformString,
            Type::PlatformChar => ResolvedType::PlatformChar,
            Type::PlatformGeneric(n, kind) => ResolvedType::PlatformGeneric(n, kind),
            Type::Bool => ResolvedType::Bool,
            Type::Void => ResolvedType::Void,
            Type::PlatformObject => ResolvedType::PlatformObject,
            Type::ClassRef(c) => ResolvedType::ClassRef(Box::new(self.class_tree(c))),
            Type::PlatformArray { elem, dims } => ResolvedType::PlatformArray {
                elem: Box::new(self.type_tree(elem)),
                dims,
            },
            Type::FnPtr(sig) => ResolvedType::FnPtr(Box::new(self.sig_tree(sig))),
        }
    }

    pub open spec fn resolve_types(&self, ts: Seq<Type>) -> Seq<ResolvedType> {
        Seq::new(ts.len(), |i: int| self.resolve_type(ts[i]))
    }

    pub open spec fn resolve_class_ref(&self, c: &ClassRef) -> ResolvedClassRef {
        ResolvedClassRef {
            name: self.string_of(c.name),
            module: self.string_opt(c.module),
            is_valuetype: c.is_valuetype,
            generics: self.resolve_types(c.generics@),
        }
    }

    pub open spec fn resolve_sig(&self, s: &FnSig) -> ResolvedSig {
        ResolvedSig {
            inputs: self.resolve_types(s.inputs@),
            output: Box::new(self.resolve_type(s.output)),
        }
    }

    pub open spec fn resolve_field(&self, f: &FieldDesc) -> ResolvedField {
        ResolvedField {
            owner: self.class_tree(f.owner),
            name: self.string_of(f.name),
            tpe: self.resolve_type(f.tpe),
        }
    }

    pub open spec fn resolve_static(&self, f: &StaticFieldDesc) -> ResolvedStaticField {
        ResolvedStaticField {
            owner: self.class_tree(f.owner),
            name: self.string_of(f.name),
            tpe: self.resolve_type(f.tpe),
        }
    }

    pub open spec fn resolve_method_ref(&self, m: &MethodRef) -> ResolvedMethodRef {
        ResolvedMethodRef {
            class: self.class_tree(m.class),
            name: self.string_of(m.name),
            sig: self.sig_tree(m.sig),
            kind: m.kind,
            generics: self.resolve_types(m.generics@),
        }
    }

    pub open spec fn resolve_const(&self, c: Const) -> ResolvedConst {
        match c {
            Const::I8(v) => ResolvedConst::I8(v),
            Const::I16(v) => ResolvedConst::I16(v),
            Const::I32(v) => ResolvedConst::I32(v),
            Const::I64(v) => ResolvedConst::I64(v),
            Const::I128(v) => ResolvedConst::I128(v),
            Const::ISize(v) => ResolvedConst::ISize(v),
            Const::U8(v) => ResolvedConst::U8(v),
            Const::U16(v) => ResolvedConst::U16(v),
            Const::U32(v) => ResolvedConst::U32(v),
            Const::U64(v) => ResolvedConst::U64(v),
            Const::U128(v) => ResolvedConst::U128(v),
            Const::USize(v) => ResolvedConst::USize(v),
            Const::PlatformString(s) => ResolvedConst::PlatformString(self.string_of(s)),
            Const::Bool(v) => ResolvedConst::Bool(v),
            Const::F32(v) => ResolvedConst::F32(v),
            Const::F64(v) => ResolvedConst::F64(v),
        }
    }

    pub open spec fn resolve_ptr_cast(&self, p: PtrCastRes) -> ResolvedPtrCast {
        match p {
            PtrCastRes::Ptr(t) => ResolvedPtrCast::Ptr(self.type_tree(t)),
            PtrCastRes::Ref(t) => ResolvedPtrCast::Ref(self.type_tree(t)),
            PtrCastRes::FnPtr(s) => ResolvedPtrCast::FnPtr(self.sig_tree(s)),
            PtrCastRes::USize => ResolvedPtrCast::USize,
            PtrCastRes::ISize => ResolvedPtrCast::ISize,
        }
    }

    /// The expression tree of a node.
    pub open spec fn resolve_node(&self, v: &CILNode) -> ResolvedNode {
        match *v {
            CILNode::Const(cst) => ResolvedNode::Const(self.resolve_const(*cst)),
            CILNode::BinOp(lhs, rhs, op) => ResolvedNode::BinOp(
                Box::new(self.node_tree(lhs)),
                Box::new(self.node_tree(rhs)),
                op,
            ),
            CILNode::UnOp(arg, op) => ResolvedNode::UnOp(Box::new(self.node_tree(arg)), op),
            CILNode::LdLoc(loc) => ResolvedNode::LdLoc(loc),
            CILNode::LdLocA(loc) => ResolvedNode::LdLocA(loc),
            CILNode::LdArg(arg) => ResolvedNode::LdArg(arg),
            CILNode::LdArgA(arg) => ResolvedNode::LdArgA(arg),
            CILNode::Call(call) => ResolvedNode::Call(
                self.method_ref_tree(call.0),
                self.node_trees(call.1@),
            ),
            CILNode::IntCast { input, target, extend } => ResolvedNode::IntCast {
                input: Box::new(self.node_tree(input)),
                target,
                extend,
            },
            CILNode::FloatCast { input, target, is_signed } => ResolvedNode::FloatCast {
                input: Box::new(self.node_tree(input)),
                target,
                is_signed,
            },
            CILNode::RefToPtr(input) => ResolvedNode::RefToPtr(Box::new(self.node_tree(input))),
            CILNode::PtrCast(input, cast_res) => ResolvedNode::PtrCast(
                Box::new(self.node_tree(input)),
                self.resolve_ptr_cast(*cast_res),
            ),
            CILNode::LdFieldAdress { addr, field } => ResolvedNode::LdFieldAdress {
                addr: Box::new(self.node_tree(addr)),
                field: self.field_tree(field),
            },
            CILNode::LdField { addr, field } => ResolvedNode::LdField {
                addr: Box::new(self.node_tree(addr)),
                field: self.field_tree(field),
            },
            CILNode::LdInd { addr, tpe, volitale } => ResolvedNode::LdInd {
                addr: Box::new(self.node_tree(addr)),
                tpe: self.type_tree(tpe),
                volitale,
            },
            CILNode::SizeOf(tpe) => ResolvedNode::SizeOf(self.type_tree(tpe)),
            CILNode::GetException => ResolvedNode::GetException,
            CILNode::IsInst(object, tpe) => ResolvedNode::IsInst(
                Box::new(self.node_tree(object)),
                self.type_tree(tpe),
            ),
            CILNode::CheckedCast(object, tpe) => ResolvedNode::CheckedCast(
                Box::new(self.node_tree(object)),
                self.type_tree(tpe),
            ),
            CILNode::CallI(call) => ResolvedNode::CallI(
                Box::new(self.node_tree(call.0)),
                self.sig_tree(call.1),
                self.node_trees(call.2@),
            ),
            CILNode::LocAlloc { size } => ResolvedNode::LocAlloc {
                size: Box::new(self.node_tree(size)),
            },
            CILNode::LdStaticField(sfld) => ResolvedNode::LdStaticField(self.static_tree(sfld)),
            CILNode::LdFtn(mref) => ResolvedNode::LdFtn(self.method_ref_tree(mref)),
            CILNode::LdTypeToken(tpe) => ResolvedNode::LdTypeToken(self.type_tree(tpe)),
            CILNode::LdLen(array) => ResolvedNode::LdLen(Box::new(self.node_tree(array))),
            CILNode::LocAllocAlgined { tpe, align } => ResolvedNode::LocAllocAlgined {
                tpe: self.type_tree(tpe),
                align,
            },
            CILNode::LdElelemRef { array, index } => ResolvedNode::LdElelemRef {
                array: Box::new(self.node_tree(array)),
                index: Box::new(self.node_tree(index)),
            },
            CILNode::UnboxAny { object, tpe } => ResolvedNode::UnboxAny {
                object: Box::new(self.node_tree(object)),
                tpe: self.type_tree(tpe),
            },
        }
    }

    pub open spec fn resolve_branch_cond(&self, c: BranchCond) -> ResolvedBranchCond {
        match c {
            BranchCond::True(a) => ResolvedBranchCond::True(self.node_tree(a)),
            BranchCond::False(a) => ResolvedBranchCond::False(self.node_tree(a)),
            BranchCond::Eq(a, b) => ResolvedBranchCond::Eq(self.node_tree(a), self.node_tree(b)),
            BranchCond::Ne(a, b) => ResolvedBranchCond::Ne(self.node_tree(a), self.node_tree(b)),
            BranchCond::Lt(a, b, k) => ResolvedBranchCond::Lt(
                self.node_tree(a),
                self.node_tree(b),
                k,
            ),
            BranchCond::Gt(a, b, k) => ResolvedBranchCond::Gt(
                self.node_tree(a),
                self.node_tree(b),
                k,
            ),
        }
    }

    pub open spec fn resolve_cond(&self, c: Option<BranchCond>) -> Option<ResolvedBranchCond> {
        match c {
            Some(c) => Some(self.resolve_branch_cond(c)),
            None => None,
        }
    }

    /// The statement of a root.
    pub open spec fn resolve_root(&self, v: &CILRoot) -> ResolvedRoot {
        match *v {
            CILRoot::StLoc(loc, node) => ResolvedRoot::StLoc(loc, self.node_tree(node)),
            CILRoot::StArg(arg, node) => ResolvedRoot::StArg(arg, self.node_tree(node)),
            CILRoot::Ret(node) => ResolvedRoot::Ret(self.node_tree(node)),
            CILRoot::Pop(node) => ResolvedRoot::Pop(self.node_tree(node)),
            CILRoot::Throw(node) => ResolvedRoot::Throw(self.node_tree(node)),
            CILRoot::VoidRet => ResolvedRoot::VoidRet,
            CILRoot::Break => ResolvedRoot::Break,
            CILRoot::Nop => ResolvedRoot::Nop,
            CILRoot::Branch(info) => ResolvedRoot::Branch(
                info.0,
                info.1,
                self.resolve_cond(info.2),
            ),
            CILRoot::SetField(info) => ResolvedRoot::SetField(
                self.field_tree(info.0),
                self.node_tree(info.1),
                self.node_tree(info.2),
            ),
            CILRoot::Call(call) => ResolvedRoot::Call(
                self.method_ref_tree(call.0),
                self.node_trees(call.1@),
            ),
            CILRoot::StInd(info) => ResolvedRoot::StInd(
                self.node_tree(info.0),
                self.node_tree(info.1),
                self.resolve_type(info.2),
                info.3,
            ),
            CILRoot::InitBlk(info) => ResolvedRoot::InitBlk(
                self.node_tree(info.0),
                self.node_tree(info.1),
                self.node_tree(info.2),
            ),
            CILRoot::CpBlk(info) => ResolvedRoot::CpBlk(
                self.node_tree(info.0),
                self.node_tree(info.1),
                self.node_tree(info.2),
            ),
            CILRoot::CallI(call) => ResolvedRoot::CallI(
                self.node_tree(call.0),
                self.sig_tree(call.1),
                self.node_trees(call.2@),
            ),
            CILRoot::ExitSpecialRegion { target, source } => ResolvedRoot::ExitSpecialRegion {
                target,
                source,
            },
            CILRoot::ReThrow => ResolvedRoot::ReThrow,
            CILRoot::SetStaticField { field, val } => ResolvedRoot::SetStaticField {
                field: self.static_tree(field),
                val: self.node_tree(val),
            },
            CILRoot::SourceFileInfo { line_start, line_len, col_start, col_len, file } => {
                ResolvedRoot::SourceFileInfo {
                    line_start,
                    line_len,
                    col_start,
                    col_len,
                    file: self.string_of(file),
                }
            },
        }
    }

    pub open spec fn resolve_block(&self, b: &BasicBlock) -> ResolvedBlock
        decreases b, 0int,
    {
        ResolvedBlock {
            roots: self.root_trees(b.roots@),
            block_id: b.block_id,
            handler: match b.handler {
                Some(hs) => Some(self.resolve_blocks(hs@)),
                None => None,
            },
        }
    }

    pub open spec fn resolve_blocks(&self, bs: Seq<BasicBlock>) -> Seq<ResolvedBlock>
        decreases bs, 1int,
    {
        Seq::new(
            bs.len(),
            |i: int|
                if 0 <= i < bs.len() {
                    self.resolve_block(&bs[i])
                } else {
                    arbitrary()
                },
        )
    }

    pub open spec fn resolve_locals(&self, ls: Seq<(Option<StringIdx>, TypeIdx)>) -> Seq<
        (Option<Seq<char>>, ResolvedType),
    > {
        Seq::new(ls.len(), |i: int| (self.string_opt(ls[i].0), self.type_tree(ls[i].1)))
    }

    pub open spec fn resolve_names(&self, ns: Seq<Option<StringIdx>>) -> Seq<Option<Seq<char>>> {
        Seq::new(ns.len(), |i: int| self.string_opt(ns[i]))
    }

    pub open spec fn resolve_method_impl(&self, m: &MethodImpl) -> ResolvedMethodImpl {
        match *m {
            MethodImpl::MethodBody { blocks, locals } => ResolvedMethodImpl::MethodBody {
                blocks: self.resolve_blocks(blocks@),
                locals: self.resolve_locals(locals@),
            },
            MethodImpl::Extern { lib, preserve_errno } => ResolvedMethodImpl::Extern {
                lib: self.string_of(lib),
                preserve_errno,
            },
            MethodImpl::AliasFor(m) => ResolvedMethodImpl::AliasFor(self.method_ref_tree(m)),
            MethodImpl::Missing => ResolvedMethodImpl::Missing,
        }
    }

    pub open spec fn resolve_method_def(&self, d: &MethodDef) -> ResolvedMethodDef {
        ResolvedMethodDef {
            access: d.access,
            class: self.class_tree(d.class.0),
            name: self.string_of(d.name),
            sig: self.sig_tree(d.sig),
            kind: d.kind,
            implementation: self.resolve_method_impl(&d.implementation),
            arg_names: self.resolve_names(d.arg_names@),
        }
    }

    pub open spec fn resolve_class_fields(&self, fs: Seq<(Type, StringIdx, Option<u32>)>) -> Seq<
        (ResolvedType, Seq<char>, Option<u32>),
    > {
        Seq::new(fs.len(), |i: int| (self.resolve_type(fs[i].0), self.string_of(fs[i].1), fs[i].2))
    }

    pub open spec fn resolve_class_statics(&self, fs: Seq<(Type, StringIdx, bool)>) -> Seq<
        (ResolvedType, Seq<char>, bool),
    > {
        Seq::new(fs.len(), |i: int| (self.resolve_type(fs[i].0), self.string_of(fs[i].1), fs[i].2))
    }

    pub open spec fn resolve_class_def(&self, d: &ClassDef) -> ResolvedClassDef {
        ResolvedClassDef {
            name: self.string_of(d.name),
            is_valuetype: d.is_valuetype,
            generics: d.generics,
            extends: self.class_tree_opt(d.extends),
            fields: self.resolve_class_fields(d.fields@),
            static_fields: self.resolve_class_statics(d.static_fields@),
            methods: self.method_def_trees(d.methods@),
            access: d.access,
            explict_size: d.explict_size,
        }
    }

    /// The contents after interning a type.
    pub open spec fn with_type(&self, v: Type) -> Contents {
        if holds(self.types, &v) {
            *self
        } else {
            Contents {
                types: self.types.push(v),
                journal: self.journal.push(Category::Types),
                resolved: Resolved {
                    types: self.resolved.types.push(self.resolve_type(v)),
                    ..self.resolved
                },
                ..*self
            }
        }
    }

    /// The contents after interning a class reference.
    pub open spec fn with_class_ref(&self, v: ClassRef) -> Contents {
        if holds(self.class_refs, &v) {
            *self
        } else {
            Contents {
                class_refs: self.class_refs.push(v),
                journal: self.journal.push(Category::ClassRefs),
                resolved: Resolved {
                    class_refs: self.resolved.class_refs.push(self.resolve_class_ref(&v)),
                    ..self.resolved
                },
                ..*self
            }
        }
    }

    /// The contents after interning a signature.
    pub open spec fn with_sig(&self, v: FnSig) -> Contents {
        if holds(self.sigs, &v) {
            *self
        } else {
            Contents {
                sigs: self.sigs.push(v),
                journal: self.journal.push(Category::Sigs),
                resolved: Resolved {
                    sigs: self.resolved.sigs.push(self.resolve_sig(&v)),
                    ..self.resolved
                },
                ..*self
            }
        }
    }

    /// The contents after interning a field descriptor.
    pub open spec fn with_field(&self, v: FieldDesc) -> Contents {
        if holds(self.fields, &v) {
            *self
        } else {
            Contents {
                fields: self.fields.push(v),
                journal: self.journal.push(Category::Fields),
                resolved: Resolved {
                    fields: self.resolved.fields.push(self.resolve_field(&v)),
                    ..self.resolved
                },
                ..*self
            }
        }
    }

    /// The contents after interning a static-field descriptor.
    pub open spec fn with_static(&self, v: StaticFieldDesc) -> Contents {
        if holds(self.statics, &v) {
            *self
        } else {
            Contents {
                statics: self.statics.push(v),
                journal: self.journal.push(Category::StaticFields),
                resolved: Resolved {
                    statics: self.resolved.statics.push(self.resolve_static(&v)),
                    ..self.resolved
                },
                ..*self
            }
        }
    }

    /// The contents after interning a method reference.
    pub open spec fn with_method_ref(&self, v: MethodRef) -> Contents {
        if holds(self.method_refs, &v) {
            *self
        } else {
            Contents {
                method_refs: self.method_refs.push(v),
                journal: self.journal.push(Category::MethodRefs),
                resolved: Resolved {
                    method_refs: self.resolved.method_refs.push(self.resolve_method_ref(&v)),
                    ..self.resolved
                },
                ..*self
            }
        }
    }

    /// The contents after interning a node.
    pub open spec fn with_node(&self, v: CILNode) -> Contents {
        if holds(self.nodes, &v) {
            *self
        } else {
            Contents {
                nodes: self.nodes.push(v),
                journal: self.journal.push(Category::Nodes),
                resolved: Resolved {
                    nodes: self.resolved.nodes.push(self.resolve_node(&v)),
                    ..self.resolved
                },
                ..*self
            }
        }
    }

    /// The contents after interning a root.
    pub open spec fn with_root(&self, v: CILRoot) -> Contents {
        if holds(self.roots, &v) {
            *self
        } else {
            Contents {
                roots: self.roots.push(v),
                journal: self.journal.push(Category::Roots),
                resolved: Resolved {
                    roots: self.resolved.roots.push(self.resolve_root(&v)),
                    ..self.resolved
                },
                ..*self
            }
        }
    }

    /// The contents after interning a method definition.
    pub open spec fn with_method_def(&self, v: MethodDef) -> Contents {
        if holds(self.method_defs, &v) {
            *self
        } else {
            Contents {
                method_defs: self.method_defs.push(v),
                journal: self.journal.push(Category::MethodDefs),
                resolved: Resolved {
                    method_defs: self.resolved.method_defs.push(self.resolve_method_def(&v)),
                    ..self.resolved
                },
                ..*self
            }
        }
    }

    /// Each arena is free of repetitions.
    pub open spec fn interned(&self) -> bool {
        &&& distinct(self.strings)
        &&& distinct(self.types)
        &&& distinct(self.class_refs)
        &&& distinct(self.sigs)
        &&& distinct(self.fields)
        &&& distinct(self.statics)
        &&& distinct(self.method_refs)
        &&& distinct(self.nodes)
        &&& distinct(self.roots)
        &&& distinct(self.method_defs)
    }

    /// Every stored value refers only to handles of this assembly, and every
    /// handle resolves to the tree of the value stored under it.
    pub open spec fn grounded(&self) -> bool {
        &&& self.resolved.types.len() == self.types.len()
        &&& self.resolved.class_refs.len() == self.class_refs.len()
        &&& self.resolved.sigs.len() == self.sigs.len()
        &&& self.resolved.fields.len() == self.fields.len()
        &&& self.resolved.statics.len() == self.statics.len()
        &&& self.resolved.method_refs.len() == self.method_refs.len()
        &&& self.resolved.nodes.len() == self.nodes.len()
        &&& self.resolved.roots.len() == self.roots.len()
        &&& self.resolved.method_defs.len() == self.method_defs.len()
        &&& forall|i: int|
            0 <= i < self.types.len() ==> self.type_ok(#[trigger] self.types[i])
                && self.resolved.types[i] == self.resolve_type(self.types[i])
        &&& forall|i: int|
            0 <= i < self.class_refs.len() ==> self.class_ref_ok(#[trigger] &self.class_refs[i])
                && self.resolved.class_refs[i] == self.resolve_class_ref(&self.class_refs[i])
        &&& forall|i: int|
            0 <= i < self.sigs.len() ==> self.sig_ok(#[trigger] &self.sigs[i])
                && self.resolved.sigs[i] == self.resolve_sig(&self.sigs[i])
        &&& forall|i: int|
            0 <= i < self.fields.len() ==> self.field_ok(#[trigger] &self.fields[i])
                && self.resolved.fields[i] == self.resolve_field(&self.fields[i])
        &&& forall|i: int|
            0 <= i < self.statics.len() ==> self.static_ok(#[trigger] &self.statics[i])
                && self.resolved.statics[i] == self.resolve_static(&self.statics[i])
        &&& forall|i: int|
            0 <= i < self.method_refs.len() ==> self.method_ref_ok(#[trigger] &self.method_refs[i])
                && self.resolved.method_refs[i] == self.resolve_method_ref(&self.method_refs[i])
        &&& forall|i: int|
            0 <= i < self.nodes.len() ==> self.node_ok(#[trigger] &self.nodes[i])
                && self.resolved.nodes[i] == self.resolve_node(&self.nodes[i])
        &&& forall|i: int|
            0 <= i < self.roots.len() ==> self.root_ok(#[trigger] &self.roots[i])
                && self.resolved.roots[i] == self.resolve_root(&self.roots[i])
        &&& forall|i: int|
            0 <= i < self.method_defs.len() ==> self.method_def_ok(#[trigger] &self.method_defs[i])
                && self.resolved.method_defs[i] == self.resolve_method_def(&self.method_defs[i])
    }

    /// The entries that `self` holds beyond those of `old` refer only to
    /// handles of `self` and resolve to their own trees.
    pub open spec fn grounded_beyond(&self, old: &Contents) -> bool {
        &&& self.resolved.types.len() == self.types.len()
        &&& self.resolved.class_refs.len() == self.class_refs.len()
        &&& self.resolved.sigs.len() == self.sigs.len()
        &&& self.resolved.fields.len() == self.fields.len()
        &&& self.resolved.statics.len() == self.statics.len()
        &&& self.resolved.method_refs.len() == self.method_refs.len()
        &&& self.resolved.nodes.len() == self.nodes.len()
        &&& self.resolved.roots.len() == self.roots.len()
        &&& self.resolved.method_defs.len() == self.method_defs.len()
        &&& forall|i: int|
            old.types.len() <= i < self.types.len() ==> self.type_ok(#[trigger] self.types[i])
                && self.resolved.types[i] == self.resolve_type(self.types[i])
        &&& forall|i: int|
            old.class_refs.len() <= i < self.class_refs.len()
                ==> self.class_ref_ok(#[trigger] &self.class_refs[i])
                && self.resolved.class_refs[i] == self.resolve_class_ref(&self.class_refs[i])
        &&& forall|i: int|
            old.sigs.len() <= i < self.sigs.len() ==> self.sig_ok(#[trigger] &self.sigs[i])
                && self.resolved.sigs[i] == self.resolve_sig(&self.sigs[i])
        &&& forall|i: int|
            old.fields.len() <= i < self.fields.len() ==> self.field_ok(#[trigger] &self.fields[i])
                && self.resolved.fields[i] == self.resolve_field(&self.fields[i])
        &&& forall|i: int|
            old.statics.len() <= i < self.statics.len()
                ==> self.static_ok(#[trigger] &self.statics[i])
                && self.resolved.statics[i] == self.resolve_static(&self.statics[i])
        &&& forall|i: int|
            old.method_refs.len() <= i < self.method_refs.len()
                ==> self.method_ref_ok(#[trigger] &self.method_refs[i])
                && self.resolved.method_refs[i] == self.resolve_method_ref(&self.method_refs[i])
        &&& forall|i: int|
            old.nodes.len() <= i < self.nodes.len() ==> self.node_ok(#[trigger] &self.nodes[i])
                && self.resolved.nodes[i] == self.resolve_node(&self.nodes[i])
        &&& forall|i: int|
            old.roots.len() <= i < self.roots.len() ==> self.root_ok(#[trigger] &self.roots[i])
                && self.resolved.roots[i] == self.resolve_root(&self.roots[i])
        &&& forall|i: int|
            old.method_defs.len() <= i < self.method_defs.len()
                ==> self.method_def_ok(#[trigger] &self.method_defs[i])
                && self.resolved.method_defs[i] == self.resolve_method_def(&self.method_defs[i])
    }

    /// Some class reference of the assembly is the definition's own.
    pub open spec fn holds_own_ref(&self, d: &ClassDef) -> bool {
        exists|i: int| 0 <= i < self.class_refs.len() && own_ref(#[trigger] &self.class_refs[i], d)
    }

    /// The class definition stored for the class reference at position `i`
    /// refers only to handles of this assembly, and that class reference is
    /// the definition's own.
    pub open spec fn slot_ok(&self, i: int) -> bool {
        &&& self.class_def_ok(&self.class_defs[i]->0)
        &&& own_ref(&self.class_refs[i], &self.class_defs[i]->0)
    }

    /// Every class definition belongs to a class reference and is sound, and
    /// the main module is a defined class.
    pub open spec fn defined(&self) -> bool {
        &&& self.class_defs.len() <= self.class_refs.len()
        &&& forall|i: int|
            0 <= i < self.class_defs.len() && (#[trigger] self.class_defs[i]) is Some
                ==> self.slot_ok(i)
        &&& self.has_class_ref(self.main_module)
        &&& self.has_class_def(ClassDefIdx(self.main_module))
    }

    /// Some class that this assembly defines resolves to the tree `t`.
    pub open spec fn defines(&self, t: ResolvedClassRef) -> bool {
        exists|c: ClassRefIdx|
            self.has_class_ref(c) && #[trigger] self.has_class_def(ClassDefIdx(c))
                && self.class_tree(c) == t
    }

    /// This assembly defines the class of each of the methods behind the
    /// handles `hs` of the assembly `source`.
    pub open spec fn defines_owners(&self, source: &Contents, hs: Seq<MethodDefIdx>) -> bool {
        forall|i: int|
            0 <= i < hs.len() ==> self.defines(source.method_def_tree(#[trigger] hs[i]).class)
    }

    /// How many values each arena holds.
    pub open spec fn sizes(&self) -> Sizes {
        Sizes {
            strings: self.strings.len(),
            types: self.types.len(),
            class_refs: self.class_refs.len(),
            sigs: self.sigs.len(),
            fields: self.fields.len(),
            statics: self.statics.len(),
            method_refs: self.method_refs.len(),
            nodes: self.nodes.len(),
            roots: self.roots.len(),
            method_defs: self.method_defs.len(),
        }
    }

    /// The value that the entry `k` of the journal stands for refers only
    /// to handles that had been issued when it was interned: to values that
    /// the journal lists before it.
    pub open spec fn step_ok(&self, k: int) -> bool {
        let n = sizes_after(self.journal.take(k));
        let frame = sized(n, self.class_defs, self.main_module);
        match self.journal[k] {
            Category::Strings => n.strings < self.strings.len(),
            Category::Types => n.types < self.types.len()
                && frame.type_ok(self.types[n.types as int]),
            Category::ClassRefs => n.class_refs < self.class_refs.len()
                && frame.class_ref_ok(&self.class_refs[n.class_refs as int]),
            Category::Sigs => n.sigs < self.sigs.len() && frame.sig_ok(&self.sigs[n.sigs as int]),
            Category::Fields => n.fields < self.fields.len()
                && frame.field_ok(&self.fields[n.fields as int]),
            Category::StaticFields => n.statics < self.statics.len()
                && frame.static_ok(&self.statics[n.statics as int]),
            Category::MethodRefs => n.method_refs < self.method_refs.len()
                && frame.method_ref_ok(&self.method_refs[n.method_refs as int]),
            Category::Nodes => n.nodes < self.nodes.len()
                && frame.node_ok(&self.nodes[n.nodes as int]),
            Category::Roots => n.roots < self.roots.len()
                && frame.root_ok(&self.roots[n.roots as int]),
            Category::MethodDefs => n.method_defs < self.method_defs.len()
                && frame.method_def_ok(&self.method_defs[n.method_defs as int]),
            Category::ClassDefs => false,
        }
    }

    /// The journal lists every value once, arena by arena in the order of
    /// the handles, and every value after the values that it refers to.
    pub open spec fn journaled(&self) -> bool {
        &&& sizes_after(self.journal) == self.sizes()
        &&& forall|k: int| 0 <= k < self.journal.len() ==> #[trigger] self.step_ok(k)
    }

    /// The assembly begins with its main module: the first string is the
    /// name of the main module, the first class reference is the main
    /// module, and the journal begins with the two.
    pub open spec fn rooted(&self) -> bool {
        &&& self.main_module == ClassRefIdx(0)
        &&& self.strings.len() > 0
        &&& self.strings[0]@ == "RustModule"@
        &&& self.class_refs.len() > 0
        &&& own_main(&self.class_refs[0])
        &&& self.journal.len() >= 2
        &&& self.journal[0] == Category::Strings
        &&& self.journal[1] == Category::ClassRefs
    }

    /// The assembly is consistent.
    pub open spec fn wf(&self) -> bool {
        &&& self.interned()
        &&& self.grounded()
        &&& self.defined()
        &&& self.journaled()
        &&& self.rooted()
    }

    /// This assembly holds everything that `old` holds, under the same
    /// handles and with the same meaning: `old` has only grown. A class that
    /// `old` defines is still defined, though its definition may have been
    /// replaced.
    pub open spec fn extends(&self, old: &Contents) -> bool {
        &&& prefix(old.strings, self.strings)
        &&& prefix(old.types, self.types)
        &&& prefix(old.class_refs, self.class_refs)
        &&& prefix(old.sigs, self.sigs)
        &&& prefix(old.fields, self.fields)
        &&& prefix(old.statics, self.statics)
        &&& prefix(old.method_refs, self.method_refs)
        &&& prefix(old.nodes, self.nodes)
        &&& prefix(old.roots, self.roots)
        &&& prefix(old.method_defs, self.method_defs)
        &&& prefix(old.resolved.types, self.resolved.types)
        &&& prefix(old.resolved.class_refs, self.resolved.class_refs)
        &&& prefix(old.resolved.sigs, self.resolved.sigs)
        &&& prefix(old.resolved.fields, self.resolved.fields)
        &&& prefix(old.resolved.statics, self.resolved.statics)
        &&& prefix(old.resolved.method_refs, self.resolved.method_refs)
        &&& prefix(old.resolved.nodes, self.resolved.nodes)
        &&& prefix(old.resolved.roots, self.resolved.roots)
        &&& prefix(old.resolved.method_defs, self.resolved.method_defs)
        &&& old.class_defs.len() <= self.class_defs.len()
        &&& forall|i: int|
            0 <= i < old.class_defs.len() && old.class_defs[i] is Some ==> (
            #[trigger] self.class_defs[i]) is Some
        &&& self.main_module == old.main_module
        &&& prefix(old.journal, self.journal)
    }

}

} // verus!
