//! The upgrade of the legacy representation: each legacy node is rewritten
//! into the interned node that it stands for, and everything that it spells
//! out in place is interned on the way.

use crate::assembly::Assembly;
use crate::cilnode::{BinOp, CILNode, Const, ExtendKind, MethodKind, PtrCastRes, UnOp};
use crate::class_ref::{ClassRef, FieldDesc, MethodRef, StaticFieldDesc};
use crate::contents::Contents;
use crate::handles::{ClassRefIdx, NodeIdx, TypeIdx};
use crate::resolved::{ResolvedNode, ResolvedType};
use crate::stability::{lemma_nodes_stable, lemma_type_stable, lemma_types_stable};
use crate::tpe::{Float, FnSig, GenericKind, Int, Type};
use crate::v1::{
    binop_tree, call_tree, cast_ptr_tree, float_cast_tree, int_cast_tree,
    lemma_upgrade_trees_error, load_tree, unop_tree, upgrade_class_ref, upgrade_field,
    upgrade_ptr_cast, upgrade_sig, upgrade_site, upgrade_static, upgrade_tree, upgrade_trees,
    upgrade_type, upgrade_types, UpgradeError, V1CallArgs, V1CallSite, V1ClassRef, V1FieldDesc,
    V1FnSig, V1Node, V1Opcode, V1StaticFieldDesc, V1Type, Violation,
};
use vstd::prelude::*;

verus! {

/// The legacy node is a variable access or a load through a pointer.
pub open spec fn is_access_or_load(v1: &V1Node) -> bool {
    v1 is LDArg
        || v1 is LDLoc
        || v1 is LDArgA
        || v1 is LDLocA
        || v1 is LDIndBool
        || v1 is LDIndU8
        || v1 is LDIndU16
        || v1 is LDIndU32
        || v1 is LDIndU64
        || v1 is LDIndUSize
        || v1 is LDIndI8
        || v1 is LDIndI16
        || v1 is LDIndI32
        || v1 is LDIndI64
        || v1 is LDIndISize
        || v1 is LDIndF32
        || v1 is LDIndF64
        || v1 is LdObj
        || v1 is LDIndPtr
}

/// The legacy node is a cast.
pub open spec fn is_cast(v1: &V1Node) -> bool {
    v1 is ZeroExtendToU64
        || v1 is SignExtendToU64
        || v1 is ZeroExtendToUSize
        || v1 is SignExtendToUSize
        || v1 is ConvU8
        || v1 is ConvU16
        || v1 is ConvU32
        || v1 is SignExtendToI64
        || v1 is ZeroExtendToISize
        || v1 is SignExtendToISize
        || v1 is ConvI8
        || v1 is ConvI16
        || v1 is ConvI32
        || v1 is ConvF32
        || v1 is ConvF64
        || v1 is ConvF64Un
        || v1 is MRefToRawPtr
        || v1 is CastPtr
}

/// The legacy node is a binary or a unary operation.
pub open spec fn is_operation(v1: &V1Node) -> bool {
    v1 is Add
        || v1 is Sub
        || v1 is Mul
        || v1 is Eq
        || v1 is Or
        || v1 is XOr
        || v1 is And
        || v1 is LtUn
        || v1 is Lt
        || v1 is GtUn
        || v1 is Gt
        || v1 is Rem
        || v1 is RemUn
        || v1 is Shl
        || v1 is Shr
        || v1 is ShrUn
        || v1 is Div
        || v1 is DivUn
        || v1 is Not
        || v1 is Neg
}

/// The legacy node is a field access, a call or a constant.
pub open spec fn is_call_or_const(v1: &V1Node) -> bool {
    v1 is LDField
        || v1 is LDFieldAdress
        || v1 is Call
        || v1 is CallVirt
        || v1 is NewObj
        || v1 is CallI
        || v1 is LDFtn
        || v1 is LdStr
        || v1 is LdcU64
        || v1 is LdcU32
        || v1 is LdcU16
        || v1 is LdcU8
        || v1 is LdcI64
        || v1 is LdcI32
        || v1 is LdcI16
        || v1 is LdcI8
        || v1 is LdcF64
        || v1 is LdcF32
        || v1 is LdFalse
        || v1 is LdTrue
}

/// The outcome `r` of an upgrade into the assembly `c` is the outcome
/// `expected`: the same error, or a node of `c` that resolves to the
/// expected tree.
pub open spec fn upgraded(
    c: &Contents,
    r: Result<CILNode, UpgradeError>,
    expected: Result<ResolvedNode, UpgradeError>,
) -> bool {
    match r {
        Ok(n) => c.node_ok(&n) && expected == Ok::<ResolvedNode, UpgradeError>(c.resolve_node(&n)),
        Err(e) => expected == Err::<ResolvedNode, UpgradeError>(e),
    }
}

/// The outcome `r` of an upgrade into the assembly `c` is the outcome
/// `expected`: the same error, or a handle of `c` that resolves to the
/// expected tree.
pub open spec fn upgraded_handle(
    c: &Contents,
    r: Result<NodeIdx, UpgradeError>,
    expected: Result<ResolvedNode, UpgradeError>,
) -> bool {
    match r {
        Ok(h) => c.has_node(h) && expected == Ok::<ResolvedNode, UpgradeError>(c.node_tree(h)),
        Err(e) => expected == Err::<ResolvedNode, UpgradeError>(e),
    }
}

/// What an upgraded operand stands for: the tree of its handle, or its
/// error.
pub open spec fn handle_outcome(c: &Contents, r: Result<NodeIdx, UpgradeError>) -> Result<
    ResolvedNode,
    UpgradeError,
> {
    match r {
        Ok(h) => Ok(c.node_tree(h)),
        Err(e) => Err(e),
    }
}

/// The outcome `r` of the upgrade of a list into the assembly `c` is the
/// outcome `expected`.
pub open spec fn upgraded_handles(
    c: &Contents,
    r: Result<Vec<NodeIdx>, UpgradeError>,
    expected: Result<Seq<ResolvedNode>, UpgradeError>,
) -> bool {
    match r {
        Ok(hs) => c.nodes_ok(hs@) && expected == Ok::<Seq<ResolvedNode>, UpgradeError>(
            c.node_trees(hs@),
        ),
        Err(e) => expected == Err::<Seq<ResolvedNode>, UpgradeError>(e),
    }
}

impl Type {
    /// The type that a legacy type stands for, with everything that it
    /// names interned in the assembly.
    pub fn from_v1(tpe: &V1Type, assembly: &mut Assembly) -> (r: Type)
        requires
            old(assembly).wf(),
        ensures
            final(assembly).wf(),
            final(assembly)@.extends(&old(assembly)@),
            final(assembly)@.type_ok(r),
            final(assembly)@.resolve_type(r) == upgrade_type(tpe),
        decreases tpe,
    {
        match tpe {
            V1Type::Void => Type::Void,
            V1Type::Bool => Type::Bool,
            V1Type::F16 => Type::Float(Float::F16),
            V1Type::F32 => Type::Float(Float::F32),
            V1Type::F64 => Type::Float(Float::F64),
            V1Type::F128 => Type::Float(Float::F128),
            V1Type::U8 => Type::Int(Int::U8),
            V1Type::U16 => Type::Int(Int::U16),
            V1Type::U32 => Type::Int(Int::U32),
            V1Type::U64 => Type::Int(Int::U64),
            V1Type::U128 => Type::Int(Int::U128),
            V1Type::USize => Type::Int(Int::USize),
            V1Type::I8 => Type::Int(Int::I8),
            V1Type::I16 => Type::Int(Int::I16),
            V1Type::I32 => Type::Int(Int::I32),
            V1Type::I64 => Type::Int(Int::I64),
            V1Type::I128 => Type::Int(Int::I128),
            V1Type::ISize => Type::Int(Int::ISize),
            V1Type::DotnetType(class) => {
                let class = ClassRef::from_v1(class, assembly);
                Type::ClassRef(assembly.alloc_class_ref(class))
            },
            V1Type::Ptr(inner) => {
                let inner = Self::from_v1(inner, assembly);
                assembly.nptr(inner)
            },
            V1Type::ManagedReference(inner) => {
                let inner = Self::from_v1(inner, assembly);
                assembly.nref(inner)
            },
            V1Type::GenericArg(n) => Type::PlatformGeneric(*n, GenericKind::TypeGeneric),
            V1Type::CallGenericArg(n) => Type::PlatformGeneric(*n, GenericKind::CallGeneric),
            V1Type::DotnetChar => Type::PlatformChar,
            V1Type::DotnetString => Type::PlatformString,
            V1Type::DotnetObject => Type::PlatformObject,
            V1Type::DelegatePtr(sig) => {
                let sig = FnSig::from_v1(sig, assembly);
                Type::FnPtr(assembly.alloc_sig(sig))
            },
            V1Type::ManagedArray { element, dims } => {
                let elem = Self::from_v1(element, assembly);
                let elem = assembly.alloc_type(elem);
                Type::PlatformArray { elem, dims: *dims }
            },
        }
    }

    /// The types that a list of legacy types stands for.
    pub fn list_from_v1(types: &Vec<V1Type>, assembly: &mut Assembly) -> (r: Vec<Type>)
        requires
            old(assembly).wf(),
        ensures
            final(assembly).wf(),
            final(assembly)@.extends(&old(assembly)@),
            final(assembly)@.types_ok(r@),
            final(assembly)@.resolve_types(r@) == upgrade_types(types@),
        decreases types,
    {
        let mut r: Vec<Type> = Vec::new();
        let mut i: usize = 0;
        while i < types.len()
            invariant
                assembly.wf(),
                assembly@.extends(&old(assembly)@),
                i <= types.len(),
                r@.len() == i,
                assembly@.types_ok(r@),
                forall|k: int|
                    0 <= k < i ==> assembly@.resolve_type(#[trigger] r@[k]) == upgrade_type(
                        &types@[k],
                    ),
            decreases types.len() - i,
        {
            let ghost mid = assembly@;
            let t = Self::from_v1(&types[i], assembly);
            proof {
                lemma_types_stable(&mid, &assembly@, r@);
                assert forall|k: int| 0 <= k < i implies assembly@.resolve_type(#[trigger] r@[k])
                    == upgrade_type(&types@[k]) by {
                    lemma_type_stable(&mid, &assembly@, r@[k]);
                }
            }
            r.push(t);
            i += 1;
        }
        proof {
            assert(assembly@.resolve_types(r@) =~= upgrade_types(types@));
        }
        r
    }
}

impl ClassRef {
    /// The class reference that a legacy class reference stands for.
    pub fn from_v1(class: &V1ClassRef, assembly: &mut Assembly) -> (r: ClassRef)
        requires
            old(assembly).wf(),
        ensures
            final(assembly).wf(),
            final(assembly)@.extends(&old(assembly)@),
            final(assembly)@.class_ref_ok(&r),
            final(assembly)@.resolve_class_ref(&r) == upgrade_class_ref(class),
        decreases class,
    {
        let name = assembly.alloc_string(class.name_path.as_str());
        let module = match &class.assembly {
            Some(a) => Some(assembly.alloc_string(a.as_str())),
            None => None,
        };
        let generics = Type::list_from_v1(&class.generics, assembly);
        ClassRef::new(name, module, class.is_valuetype, generics)
    }

    /// The handle of the class that owns what a legacy descriptor names:
    /// the class it gives, or the main module where it gives none.
    pub fn owner_from_v1(owner: Option<&V1ClassRef>, assembly: &mut Assembly) -> (r: ClassRefIdx)
        requires
            old(assembly).wf(),
        ensures
            final(assembly).wf(),
            final(assembly)@.extends(&old(assembly)@),
            final(assembly)@.has_class_ref(r),
            final(assembly)@.class_tree(r) == match owner {
                Some(c) => upgrade_class_ref(c),
                None => old(assembly)@.main_tree(),
            },
    {
        match owner {
            Some(class) => {
                let cref = ClassRef::from_v1(class, assembly);
                assembly.alloc_class_ref(cref)
            },
            None => assembly.main_module().as_class_ref(),
        }
    }
}

impl FnSig {
    /// The signature that a legacy signature stands for.
    pub fn from_v1(sig: &V1FnSig, assembly: &mut Assembly) -> (r: FnSig)
        requires
            old(assembly).wf(),
        ensures
            final(assembly).wf(),
            final(assembly)@.extends(&old(assembly)@),
            final(assembly)@.sig_ok(&r),
            final(assembly)@.resolve_sig(&r) == upgrade_sig(sig),
        decreases sig,
    {
        let inputs = Type::list_from_v1(&sig.inputs, assembly);
        let ghost mid = assembly@;
        let output = Type::from_v1(&sig.output, assembly);
        proof {
            lemma_types_stable(&mid, &assembly@, inputs@);
        }
        FnSig::new(inputs, output)
    }
}

impl FieldDesc {
    /// The field descriptor that a legacy field descriptor stands for.
    pub fn from_v1(field: &V1FieldDesc, assembly: &mut Assembly) -> (r: FieldDesc)
        requires
            old(assembly).wf(),
        ensures
            final(assembly).wf(),
            final(assembly)@.extends(&old(assembly)@),
            final(assembly)@.field_ok(&r),
            final(assembly)@.resolve_field(&r) == upgrade_field(field),
    {
        let owner = ClassRef::from_v1(&field.owner, assembly);
        let owner = assembly.alloc_class_ref(owner);
        let name = assembly.alloc_string(field.name.as_str());
        let tpe = Type::from_v1(&field.tpe, assembly);
        FieldDesc::new(owner, name, tpe)
    }
}

impl StaticFieldDesc {
    /// The static-field descriptor that a legacy one stands for.
    pub fn from_v1(field: &V1StaticFieldDesc, assembly: &mut Assembly) -> (r: StaticFieldDesc)
        requires
            old(assembly).wf(),
        ensures
            final(assembly).wf(),
            final(assembly)@.extends(&old(assembly)@),
            final(assembly)@.static_ok(&r),
            final(assembly)@.resolve_static(&r) == upgrade_static(
                field,
                old(assembly)@.main_tree(),
            ),
    {
        let owner = match &field.owner {
            Some(c) => ClassRef::owner_from_v1(Some(c), assembly),
            None => ClassRef::owner_from_v1(None, assembly),
        };
        let name = assembly.alloc_string(field.name.as_str());
        let tpe = Type::from_v1(&field.tpe, assembly);
        StaticFieldDesc::new(owner, name, tpe)
    }
}

impl MethodRef {
    /// The method reference that a legacy call site stands for when it is
    /// called in the way `kind`.
    pub fn from_v1(site: &V1CallSite, kind: MethodKind, assembly: &mut Assembly) -> (r: MethodRef)
        requires
            old(assembly).wf(),
        ensures
            final(assembly).wf(),
            final(assembly)@.extends(&old(assembly)@),
            final(assembly)@.method_ref_ok(&r),
            final(assembly)@.resolve_method_ref(&r) == upgrade_site(
                site,
                kind,
                old(assembly)@.main_tree(),
            ),
    {
        let sig = FnSig::from_v1(site.signature(), assembly);
        let sig = assembly.alloc_sig(sig);
        let generics = Type::list_from_v1(site.generics(), assembly);
        let ghost mid = assembly@;
        let class = ClassRef::owner_from_v1(site.class(), assembly);
        let name = assembly.alloc_string(site.name());
        proof {
            lemma_types_stable(&mid, &assembly@, generics@);
        }
        MethodRef::new(class, name, sig, kind, generics)
    }
}

impl CILNode {
    /// Upgrades a legacy node: gives the node that it stands for, with its
    /// operands and everything it names interned in the assembly. A node
    /// that contradicts itself and an opcode without a counterpart are
    /// errors; on an error the assembly has only grown.
    pub fn from_v1(v1: &V1Node, assembly: &mut Assembly) -> (r: Result<Self, UpgradeError>)
        requires
            old(assembly).wf(),
        ensures
            final(assembly).wf(),
            final(assembly)@.extends(&old(assembly)@),
            upgraded(&final(assembly)@, r, upgrade_tree(v1, old(assembly)@.main_tree())),
        decreases v1, 4int,
    {
        match v1 {
            V1Node::LDArg(arg) => Ok(CILNode::LdArg(*arg)),
            V1Node::LDLoc(arg) => Ok(CILNode::LdLoc(*arg)),
            V1Node::LDArgA(arg) => Ok(CILNode::LdArgA(*arg)),
            V1Node::LDLocA(arg) => Ok(CILNode::LdLocA(*arg)),
            V1Node::LDIndBool { ptr } => Self::load_from_v1(ptr, Type::Bool, assembly),
            V1Node::LDIndU8 { ptr } => Self::load_from_v1(ptr, Type::Int(Int::U8), assembly),
            V1Node::LDIndU16 { ptr } => Self::load_from_v1(ptr, Type::Int(Int::U16), assembly),
            V1Node::LDIndU32 { ptr } => Self::load_from_v1(ptr, Type::Int(Int::U32), assembly),
            V1Node::LDIndU64 { ptr } => Self::load_from_v1(ptr, Type::Int(Int::U64), assembly),
            V1Node::LDIndUSize { ptr } => Self::load_from_v1(ptr, Type::Int(Int::USize), assembly),
            V1Node::LDIndI8 { ptr } => Self::load_from_v1(ptr, Type::Int(Int::I8), assembly),
            V1Node::LDIndI16 { ptr } => Self::load_from_v1(ptr, Type::Int(Int::I16), assembly),
            V1Node::LDIndI32 { ptr } => Self::load_from_v1(ptr, Type::Int(Int::I32), assembly),
            V1Node::LDIndI64 { ptr } => Self::load_from_v1(ptr, Type::Int(Int::I64), assembly),
            V1Node::LDIndISize { ptr } => Self::load_from_v1(ptr, Type::Int(Int::ISize), assembly),
            V1Node::LDIndF32 { ptr } => Self::load_from_v1(ptr, Type::Float(Float::F32), assembly),
            V1Node::LDIndF64 { ptr } => Self::load_from_v1(ptr, Type::Float(Float::F64), assembly),
            V1Node::LdObj { ptr, obj } => {
                let obj = Type::from_v1(obj, assembly);
                Self::load_from_v1(ptr, obj, assembly)
            },
            V1Node::LDIndPtr { ptr, loaded_ptr } => {
                let loaded_ptr = Type::from_v1(loaded_ptr, assembly);
                Self::load_from_v1(ptr, loaded_ptr, assembly)
            },
            _ => Self::cast_from_v1(v1, assembly),
        }
    }

    /// Upgrades a legacy node that is not a variable access or a load: the
    /// casts are upgraded here.
    fn cast_from_v1(v1: &V1Node, assembly: &mut Assembly) -> (r: Result<Self, UpgradeError>)
        requires
            old(assembly).wf(),
            !is_access_or_load(v1),
        ensures
            final(assembly).wf(),
            final(assembly)@.extends(&old(assembly)@),
            upgraded(&final(assembly)@, r, upgrade_tree(v1, old(assembly)@.main_tree())),
        decreases v1, 3int,
    {
        match v1 {
            V1Node::ZeroExtendToU64(inner) => Self::int_cast_from_v1(
                inner,
                Int::U64,
                ExtendKind::ZeroExtend,
                assembly,
            ),
            V1Node::SignExtendToU64(inner) => Self::int_cast_from_v1(
                inner,
                Int::U64,
                ExtendKind::SignExtend,
                assembly,
            ),
            V1Node::ZeroExtendToUSize(inner) => Self::int_cast_from_v1(
                inner,
                Int::USize,
                ExtendKind::ZeroExtend,
                assembly,
            ),
            V1Node::SignExtendToUSize(inner) => Self::int_cast_from_v1(
                inner,
                Int::USize,
                ExtendKind::SignExtend,
                assembly,
            ),
            V1Node::ConvU8(inner) => Self::int_cast_from_v1(
                inner,
                Int::U8,
                ExtendKind::ZeroExtend,
                assembly,
            ),
            V1Node::ConvU16(inner) => Self::int_cast_from_v1(
                inner,
                Int::U16,
                ExtendKind::ZeroExtend,
                assembly,
            ),
            V1Node::ConvU32(inner) => Self::int_cast_from_v1(
                inner,
                Int::U32,
                ExtendKind::ZeroExtend,
                assembly,
            ),
            V1Node::SignExtendToI64(inner) => Self::int_cast_from_v1(
                inner,
                Int::I64,
                ExtendKind::SignExtend,
                assembly,
            ),
            V1Node::ZeroExtendToISize(inner) => Self::int_cast_from_v1(
                inner,
                Int::ISize,
                ExtendKind::ZeroExtend,
                assembly,
            ),
            V1Node::SignExtendToISize(inner) => Self::int_cast_from_v1(
                inner,
                Int::ISize,
                ExtendKind::SignExtend,
                assembly,
            ),
            V1Node::ConvI8(inner) => Self::int_cast_from_v1(
                inner,
                Int::I8,
                ExtendKind::SignExtend,
                assembly,
            ),
            V1Node::ConvI16(inner) => Self::int_cast_from_v1(
                inner,
                Int::I16,
                ExtendKind::SignExtend,
                assembly,
            ),
            V1Node::ConvI32(inner) => Self::int_cast_from_v1(
                inner,
                Int::I32,
                ExtendKind::SignExtend,
                assembly,
            ),
            V1Node::ConvF32(inner) => Self::float_cast_from_v1(inner, Float::F32, true, assembly),
            V1Node::ConvF64(inner) => Self::float_cast_from_v1(inner, Float::F64, true, assembly),
            V1Node::ConvF64Un(inner) => Self::float_cast_from_v1(
                inner,
                Float::F64,
                false,
                assembly,
            ),
            V1Node::MRefToRawPtr(inner) => {
                let raw = Self::intern_v1(inner, assembly)?;
                Ok(CILNode::RefToPtr(raw))
            },
            V1Node::CastPtr { val, new_ptr } => Self::cast_ptr_from_v1(val, new_ptr, assembly),
            _ => Self::operation_from_v1(v1, assembly),
        }
    }

    /// Upgrades a legacy node that is not a variable access, a load or a
    /// cast: the binary and unary operations are upgraded here.
    fn operation_from_v1(v1: &V1Node, assembly: &mut Assembly) -> (r: Result<
        Self,
        UpgradeError,
    >)
        requires
            old(assembly).wf(),
            !is_access_or_load(v1),
            !is_cast(v1),
        ensures
            final(assembly).wf(),
            final(assembly)@.extends(&old(assembly)@),
            upgraded(&final(assembly)@, r, upgrade_tree(v1, old(assembly)@.main_tree())),
        decreases v1, 2int,
    {
        match v1 {
            V1Node::Add(lhs, rhs) => {
                let lhs = Self::intern_v1(lhs, assembly);
                Self::binop_from_v1(lhs, rhs, BinOp::Add, assembly)
            },
            V1Node::Sub(lhs, rhs) => {
                let lhs = Self::intern_v1(lhs, assembly);
                Self::binop_from_v1(lhs, rhs, BinOp::Sub, assembly)
            },
            V1Node::Mul(lhs, rhs) => {
                let lhs = Self::intern_v1(lhs, assembly);
                Self::binop_from_v1(lhs, rhs, BinOp::Mul, assembly)
            },
            V1Node::Eq(lhs, rhs) => {
                let lhs = Self::intern_v1(lhs, assembly);
                Self::binop_from_v1(lhs, rhs, BinOp::Eq, assembly)
            },
            V1Node::Or(lhs, rhs) => {
                let lhs = Self::intern_v1(lhs, assembly);
                Self::binop_from_v1(lhs, rhs, BinOp::Or, assembly)
            },
            V1Node::XOr(lhs, rhs) => {
                let lhs = Self::intern_v1(lhs, assembly);
                Self::binop_from_v1(lhs, rhs, BinOp::XOr, assembly)
            },
            V1Node::And(lhs, rhs) => {
                let lhs = Self::intern_v1(lhs, assembly);
                Self::binop_from_v1(lhs, rhs, BinOp::And, assembly)
            },
            V1Node::LtUn(lhs, rhs) => {
                let lhs = Self::intern_v1(lhs, assembly);
                Self::binop_from_v1(lhs, rhs, BinOp::LtUn, assembly)
            },
            V1Node::Lt(lhs, rhs) => {
                let lhs = Self::intern_v1(lhs, assembly);
                Self::binop_from_v1(lhs, rhs, BinOp::Lt, assembly)
            },
            V1Node::GtUn(lhs, rhs) => {
                let lhs = Self::intern_v1(lhs, assembly);
                Self::binop_from_v1(lhs, rhs, BinOp::GtUn, assembly)
            },
            V1Node::Gt(lhs, rhs) => {
                let lhs = Self::intern_v1(lhs, assembly);
                Self::binop_from_v1(lhs, rhs, BinOp::Gt, assembly)
            },
            V1Node::Rem(lhs, rhs) => {
                let lhs = Self::intern_v1(lhs, assembly);
                Self::binop_from_v1(lhs, rhs, BinOp::Rem, assembly)
            },
            V1Node::RemUn(lhs, rhs) => {
                let lhs = Self::intern_v1(lhs, assembly);
                Self::binop_from_v1(lhs, rhs, BinOp::RemUn, assembly)
            },
            V1Node::Shl(lhs, rhs) => {
                let lhs = Self::intern_v1(lhs, assembly);
                Self::binop_from_v1(lhs, rhs, BinOp::Shl, assembly)
            },
            V1Node::Shr(lhs, rhs) => {
                let lhs = Self::intern_v1(lhs, assembly);
                Self::binop_from_v1(lhs, rhs, BinOp::Shr, assembly)
            },
            V1Node::ShrUn(lhs, rhs) => {
                let lhs = Self::intern_v1(lhs, assembly);
                Self::binop_from_v1(lhs, rhs, BinOp::ShrUn, assembly)
            },
            V1Node::Div(lhs, rhs) => {
                let lhs = Self::intern_v1(lhs, assembly);
                Self::binop_from_v1(lhs, rhs, BinOp::Div, assembly)
            },
            V1Node::DivUn(lhs, rhs) => {
                let lhs = Self::intern_v1(lhs, assembly);
                Self::binop_from_v1(lhs, rhs, BinOp::DivUn, assembly)
            },
            V1Node::Not(val) => Self::unop_from_v1(val, UnOp::Not, assembly),
            V1Node::Neg(val) => Self::unop_from_v1(val, UnOp::Neg, assembly),
            _ => Self::call_from_v1(v1, assembly),
        }
    }

    /// Upgrades a legacy node that is not a variable access, a load, a cast
    /// or an operation: the field accesses, the calls and the constants are
    /// upgraded here.
    fn call_from_v1(v1: &V1Node, assembly: &mut Assembly) -> (r: Result<Self, UpgradeError>)
        requires
            old(assembly).wf(),
            !is_access_or_load(v1),
            !is_cast(v1),
            !is_operation(v1),
        ensures
            final(assembly).wf(),
            final(assembly)@.extends(&old(assembly)@),
            upgraded(&final(assembly)@, r, upgrade_tree(v1, old(assembly)@.main_tree())),
        decreases v1, 1int,
    {
        match v1 {
            V1Node::LDField { addr, field } => {
                let field = FieldDesc::from_v1(field, assembly);
                let field = assembly.alloc_field(field);
                let addr = Self::intern_v1(addr, assembly)?;
                Ok(CILNode::LdField { addr, field })
            },
            V1Node::LDFieldAdress { addr, field } => {
                let field = FieldDesc::from_v1(field, assembly);
                let field = assembly.alloc_field(field);
                let addr = Self::intern_v1(addr, assembly)?;
                Ok(CILNode::LdFieldAdress { addr, field })
            },
            V1Node::Call(callargs) => {
                let kind = if callargs.site.is_static() {
                    MethodKind::Static
                } else {
                    MethodKind::Instance
                };
                Self::method_call_from_v1(callargs, Ok(kind), assembly)
            },
            V1Node::CallVirt(callargs) => {
                let kind = if callargs.site.is_static() {
                    Err(UpgradeError::Violation(Violation::StaticVirtualCall))
                } else {
                    Ok(MethodKind::Virtual)
                };
                Self::method_call_from_v1(callargs, kind, assembly)
            },
            V1Node::NewObj(callargs) => {
                let kind = if callargs.site.is_static() {
                    Err(UpgradeError::Violation(Violation::StaticConstructor))
                } else {
                    Ok(MethodKind::Constructor)
                };
                Self::method_call_from_v1(callargs, kind, assembly)
            },
            V1Node::CallI(sig_ptr_args) => {
                let sig = FnSig::from_v1(&sig_ptr_args.0, assembly);
                let sig = assembly.alloc_sig(sig);
                let fnptr = Self::intern_v1(&sig_ptr_args.1, assembly)?;
                match Self::list_from_v1(&sig_ptr_args.2, assembly) {
                    Ok(args) => Ok(CILNode::CallI(Box::new((fnptr, sig, args)))),
                    Err(e) => Err(e),
                }
            },
            V1Node::LDFtn(site) => {
                let kind = if site.is_static() {
                    MethodKind::Static
                } else {
                    MethodKind::Instance
                };
                let method_ref = MethodRef::from_v1(site, kind, assembly);
                let method_ref = assembly.alloc_methodref(method_ref);
                Ok(CILNode::LdFtn(method_ref))
            },
            V1Node::LdStr(string) => {
                let string = assembly.alloc_string(string.as_str());
                Ok(CILNode::Const(Box::new(Const::PlatformString(string))))
            },
            V1Node::LdcU64(val) => Ok(CILNode::Const(Box::new(Const::U64(*val)))),
            V1Node::LdcU32(val) => Ok(CILNode::Const(Box::new(Const::U32(*val)))),
            V1Node::LdcU16(val) => Ok(CILNode::Const(Box::new(Const::U16(*val)))),
            V1Node::LdcU8(val) => Ok(CILNode::Const(Box::new(Const::U8(*val)))),
            V1Node::LdcI64(val) => Ok(CILNode::Const(Box::new(Const::I64(*val)))),
            V1Node::LdcI32(val) => Ok(CILNode::Const(Box::new(Const::I32(*val)))),
            V1Node::LdcI16(val) => Ok(CILNode::Const(Box::new(Const::I16(*val)))),
            V1Node::LdcI8(val) => Ok(CILNode::Const(Box::new(Const::I8(*val)))),
            V1Node::LdcF64(val) => Ok(CILNode::Const(Box::new(Const::F64(*val)))),
            V1Node::LdcF32(val) => Ok(CILNode::Const(Box::new(Const::F32(*val)))),
            V1Node::LdFalse => Ok(CILNode::Const(Box::new(Const::Bool(false)))),
            V1Node::LdTrue => Ok(CILNode::Const(Box::new(Const::Bool(true)))),
            _ => Self::other_from_v1(v1, assembly),
        }
    }

    /// Upgrades a legacy node of one of the remaining kinds: the queries on
    /// types and objects and the memory operations, and the opcodes that
    /// have no counterpart.
    fn other_from_v1(v1: &V1Node, assembly: &mut Assembly) -> (r: Result<Self, UpgradeError>)
        requires
            old(assembly).wf(),
            !is_access_or_load(v1),
            !is_cast(v1),
            !is_operation(v1),
            !is_call_or_const(v1),
        ensures
            final(assembly).wf(),
            final(assembly)@.extends(&old(assembly)@),
            upgraded(&final(assembly)@, r, upgrade_tree(v1, old(assembly)@.main_tree())),
        decreases v1, 0int,
    {
        match v1 {
            V1Node::SizeOf(tpe) => {
                let tpe = Type::from_v1(tpe, assembly);
                Ok(CILNode::SizeOf(assembly.alloc_type(tpe)))
            },
            V1Node::LDTypeToken(tpe) => {
                let tpe = Type::from_v1(tpe, assembly);
                Ok(CILNode::LdTypeToken(assembly.alloc_type(tpe)))
            },
            V1Node::IsInst(combined) => {
                let tpe = Self::class_type_from_v1(&combined.1, assembly);
                let val = Self::intern_v1(&combined.0, assembly)?;
                Ok(CILNode::IsInst(val, tpe))
            },
            V1Node::CheckedCast(combined) => {
                let tpe = Self::class_type_from_v1(&combined.1, assembly);
                let val = Self::intern_v1(&combined.0, assembly)?;
                Ok(CILNode::CheckedCast(val, tpe))
            },
            V1Node::UnboxAny(object, tpe) => {
                match Self::intern_v1(object, assembly) {
                    Ok(object) => {
                        let tpe = Type::from_v1(tpe, assembly);
                        let tpe = assembly.alloc_type(tpe);
                        Ok(CILNode::UnboxAny { object, tpe })
                    },
                    Err(e) => Err(e),
                }
            },
            V1Node::GetException => Ok(CILNode::GetException),
            V1Node::LocAlloc { size } => {
                let size = Self::intern_v1(size, assembly)?;
                Ok(CILNode::LocAlloc { size })
            },
            V1Node::LocAllocAligned { tpe, align } => {
                let tpe = Type::from_v1(tpe, assembly);
                let tpe = assembly.alloc_type(tpe);
                Ok(CILNode::LocAllocAlgined { tpe, align: *align })
            },
            V1Node::LDStaticField(sfld) => {
                let sfld = StaticFieldDesc::from_v1(sfld, assembly);
                Ok(CILNode::LdStaticField(assembly.alloc_sfld(sfld)))
            },
            V1Node::Volatile(inner) => {
                match Self::from_v1(inner, assembly) {
                    Ok(CILNode::LdInd { addr, tpe, .. }) => Ok(
                        CILNode::LdInd { addr, tpe, volitale: true },
                    ),
                    Ok(_) => Err(UpgradeError::Violation(Violation::VolatileNotALoad)),
                    Err(e) => Err(e),
                }
            },
            V1Node::LDLen { arr } => {
                let arr = Self::intern_v1(arr, assembly)?;
                Ok(CILNode::LdLen(arr))
            },
            V1Node::LDElelemRef { arr, idx } => {
                let array = Self::intern_v1(arr, assembly)?;
                let index = Self::intern_v1(idx, assembly)?;
                Ok(CILNode::LdElelemRef { array, index })
            },
            V1Node::BlackBox(_) => Err(UpgradeError::Unimplemented(V1Opcode::BlackBox)),
            V1Node::LoadGlobalAllocPtr { .. } => Err(
                UpgradeError::Unimplemented(V1Opcode::LoadGlobalAllocPtr),
            ),
            V1Node::PointerToConstValue(_) => Err(
                UpgradeError::Unimplemented(V1Opcode::PointerToConstValue),
            ),
            V1Node::GetStackTop => Err(UpgradeError::Unimplemented(V1Opcode::GetStackTop)),
            V1Node::InspectValue(_) => Err(UpgradeError::Unimplemented(V1Opcode::InspectValue)),
            V1Node::TransmutePtr { .. } => Err(UpgradeError::Unimplemented(V1Opcode::TransmutePtr)),
            V1Node::LoadAddresOfTMPLocal => Err(
                UpgradeError::Unimplemented(V1Opcode::LoadAddresOfTMPLocal),
            ),
            V1Node::LoadTMPLocal => Err(UpgradeError::Unimplemented(V1Opcode::LoadTMPLocal)),
            V1Node::AddressOfStaticField(_) => Err(
                UpgradeError::Unimplemented(V1Opcode::AddressOfStaticField),
            ),
            _ => unreached(),
        }
    }

    /// Upgrades a legacy node and interns the node that it stands for.
    pub fn intern_v1(v1: &V1Node, assembly: &mut Assembly) -> (r: Result<NodeIdx, UpgradeError>)
        requires
            old(assembly).wf(),
        ensures
            final(assembly).wf(),
            final(assembly)@.extends(&old(assembly)@),
            upgraded_handle(&final(assembly)@, r, upgrade_tree(v1, old(assembly)@.main_tree())),
        decreases v1, 5int,
    {
        match Self::from_v1(v1, assembly) {
            Ok(node) => Ok(assembly.alloc_node(node)),
            Err(e) => Err(e),
        }
    }

    /// Upgrades a list of legacy nodes and interns the nodes that they
    /// stand for, in order, up to the first that fails.
    pub fn list_from_v1(nodes: &Vec<V1Node>, assembly: &mut Assembly) -> (r: Result<
        Vec<NodeIdx>,
        UpgradeError,
    >)
        requires
            old(assembly).wf(),
        ensures
            final(assembly).wf(),
            final(assembly)@.extends(&old(assembly)@),
            upgraded_handles(
                &final(assembly)@,
                r,
                upgrade_trees(nodes@, old(assembly)@.main_tree()),
            ),
        decreases nodes, 6int,
    {
        let ghost main = assembly@.main_tree();
        let mut r: Vec<NodeIdx> = Vec::new();
        let mut i: usize = 0;
        proof {
            assert(nodes@.take(0) =~= Seq::empty());
            assert(assembly@.node_trees(r@) =~= Seq::empty());
        }
        while i < nodes.len()
            invariant
                old(assembly).wf(),
                assembly.wf(),
                assembly@.extends(&old(assembly)@),
                main == old(assembly)@.main_tree(),
                i <= nodes.len(),
                r@.len() == i,
                assembly@.nodes_ok(r@),
                upgrade_trees(nodes@.take(i as int), main) == Ok::<Seq<ResolvedNode>, UpgradeError>(
                    assembly@.node_trees(r@),
                ),
            decreases nodes.len() - i,
        {
            let ghost mid = assembly@;
            proof {
                assert(nodes@.take(i + 1).drop_last() =~= nodes@.take(i as int));
                assert(nodes@.take(i + 1).last() == nodes@[i as int]);
            }
            match Self::intern_v1(&nodes[i], assembly) {
                Ok(h) => {
                    proof {
                        lemma_nodes_stable(&mid, &assembly@, r@);
                        assert(assembly@.node_trees(r@.push(h)) =~= mid.node_trees(r@).push(
                            assembly@.node_tree(h),
                        ));
                    }
                    r.push(h);
                },
                Err(e) => {
                    proof {
                        assert(upgrade_tree(&nodes@[i as int], main) == Err::<
                            ResolvedNode,
                            UpgradeError,
                        >(e));
                        assert(upgrade_trees(nodes@.take(i + 1), main) == Err::<
                            Seq<ResolvedNode>,
                            UpgradeError,
                        >(e));
                        lemma_upgrade_trees_error(nodes@, i + 1, main);
                    }
                    return Err(e);
                },
            }
            i += 1;
        }
        proof {
            assert(nodes@.take(i as int) =~= nodes@);
        }
        Ok(r)
    }

    /// A load of a value of the type `tpe` through the pointer `ptr`.
    pub fn load_from_v1(ptr: &V1Node, tpe: Type, assembly: &mut Assembly) -> (r: Result<
        Self,
        UpgradeError,
    >)
        requires
            old(assembly).wf(),
            old(assembly)@.type_ok(tpe),
        ensures
            final(assembly).wf(),
            final(assembly)@.extends(&old(assembly)@),
            upgraded(&final(assembly)@, r, load_tree(
                    upgrade_tree(ptr, old(assembly)@.main_tree()),
                    old(assembly)@.resolve_type(tpe),
                )),
        decreases ptr, 6int,
    {
        let ghost pre = assembly@;
        match Self::intern_v1(ptr, assembly) {
            Ok(addr) => {
                proof {
                    lemma_type_stable(&pre, &assembly@, tpe);
                }
                let tpe = assembly.alloc_type(tpe);
                Ok(CILNode::LdInd { addr, tpe, volitale: false })
            },
            Err(e) => Err(e),
        }
    }

    /// A cast of `input` to the integer type `target`.
    pub fn int_cast_from_v1(
        input: &V1Node,
        target: Int,
        extend: ExtendKind,
        assembly: &mut Assembly,
    ) -> (r: Result<Self, UpgradeError>)
        requires
            old(assembly).wf(),
        ensures
            final(assembly).wf(),
            final(assembly)@.extends(&old(assembly)@),
            upgraded(
                &final(assembly)@,
                r,
                int_cast_tree(upgrade_tree(input, old(assembly)@.main_tree()), target, extend),
            ),
        decreases input, 6int,
    {
        let input = Self::intern_v1(input, assembly)?;
        Ok(CILNode::IntCast { input, target, extend })
    }

    /// A cast of `input` to the floating-point type `target`.
    pub fn float_cast_from_v1(
        input: &V1Node,
        target: Float,
        is_signed: bool,
        assembly: &mut Assembly,
    ) -> (r: Result<Self, UpgradeError>)
        requires
            old(assembly).wf(),
        ensures
            final(assembly).wf(),
            final(assembly)@.extends(&old(assembly)@),
            upgraded(&final(assembly)@, r, float_cast_tree(
                    upgrade_tree(input, old(assembly)@.main_tree()),
                    target,
                    is_signed,
                )),
        decreases input, 6int,
    {
        let input = Self::intern_v1(input, assembly)?;
        Ok(CILNode::FloatCast { input, target, is_signed })
    }

    /// A cast of the pointer `val` to the legacy type `new_ptr`, which has
    /// to be a pointer, a reference, a function pointer or an integer of
    /// the width of a pointer.
    pub fn cast_ptr_from_v1(val: &V1Node, new_ptr: &V1Type, assembly: &mut Assembly) -> (r: Result<
        Self,
        UpgradeError,
    >)
        requires
            old(assembly).wf(),
        ensures
            final(assembly).wf(),
            final(assembly)@.extends(&old(assembly)@),
            upgraded(&final(assembly)@, r, cast_ptr_tree(
                    upgrade_tree(val, old(assembly)@.main_tree()),
                    upgrade_ptr_cast(new_ptr),
                )),
        decreases val, 6int,
    {
        let val = Self::intern_v1(val, assembly)?;
        let cast_res = match new_ptr {
            V1Type::USize => PtrCastRes::USize,
            V1Type::ISize => PtrCastRes::ISize,
            V1Type::Ptr(inner) => {
                let inner = Type::from_v1(inner, assembly);
                PtrCastRes::Ptr(assembly.alloc_type(inner))
            },
            V1Type::ManagedReference(inner) => {
                let inner = Type::from_v1(inner, assembly);
                PtrCastRes::Ref(assembly.alloc_type(inner))
            },
            V1Type::DelegatePtr(sig) => {
                let sig = FnSig::from_v1(sig, assembly);
                PtrCastRes::FnPtr(assembly.alloc_sig(sig))
            },
            _ => {
                return Err(UpgradeError::Violation(Violation::NotAPointer));
            },
        };
        Ok(CILNode::PtrCast(val, Box::new(cast_res)))
    }

    /// The binary operation `op` on the operand `lhs`, which has been
    /// upgraded, and on `rhs`, which is upgraded here if `lhs` is no error.
    pub fn binop_from_v1(
        lhs: Result<NodeIdx, UpgradeError>,
        rhs: &V1Node,
        op: BinOp,
        assembly: &mut Assembly,
    ) -> (r: Result<Self, UpgradeError>)
        requires
            old(assembly).wf(),
            lhs is Ok ==> old(assembly)@.has_node(lhs->Ok_0),
        ensures
            final(assembly).wf(),
            final(assembly)@.extends(&old(assembly)@),
            upgraded(
                &final(assembly)@,
                r,
                binop_tree(
                    handle_outcome(&old(assembly)@, lhs),
                    upgrade_tree(rhs, old(assembly)@.main_tree()),
                    op,
                ),
            ),
        decreases rhs, 6int,
    {
        let lhs = lhs?;
        let rhs = Self::intern_v1(rhs, assembly)?;
        Ok(CILNode::BinOp(lhs, rhs, op))
    }

    /// The unary operation `op` on `val`.
    pub fn unop_from_v1(val: &V1Node, op: UnOp, assembly: &mut Assembly) -> (r: Result<
        Self,
        UpgradeError,
    >)
        requires
            old(assembly).wf(),
        ensures
            final(assembly).wf(),
            final(assembly)@.extends(&old(assembly)@),
            upgraded(&final(assembly)@, r, unop_tree(upgrade_tree(val, old(assembly)@.main_tree()), op)),
        decreases val, 6int,
    {
        let val = Self::intern_v1(val, assembly)?;
        Ok(CILNode::UnOp(val, op))
    }

    /// A call of the site of `callargs` in the way `kind`, on its
    /// arguments. The arguments are upgraded first; a `kind` that is an
    /// error is the error of the call if all arguments could be upgraded.
    pub fn method_call_from_v1(
        callargs: &V1CallArgs,
        kind: Result<MethodKind, UpgradeError>,
        assembly: &mut Assembly,
    ) -> (r: Result<Self, UpgradeError>)
        requires
            old(assembly).wf(),
        ensures
            final(assembly).wf(),
            final(assembly)@.extends(&old(assembly)@),
            upgraded(&final(assembly)@, r, call_tree(
                    upgrade_trees(callargs.args@, old(assembly)@.main_tree()),
                    &callargs.site,
                    kind,
                    old(assembly)@.main_tree(),
                )),
        decreases callargs, 7int,
    {
        let args = Self::list_from_v1(&callargs.args, assembly)?;
        let kind = kind?;
        let ghost mid = assembly@;
        let method_ref = MethodRef::from_v1(&callargs.site, kind, assembly);
        let method_ref = assembly.alloc_methodref(method_ref);
        proof {
            lemma_nodes_stable(&mid, &assembly@, args@);
        }
        Ok(CILNode::Call(Box::new((method_ref, args))))
    }

    /// The handle of the type of the instances of a legacy class.
    pub fn class_type_from_v1(class: &V1ClassRef, assembly: &mut Assembly) -> (r: TypeIdx)
        requires
            old(assembly).wf(),
        ensures
            final(assembly).wf(),
            final(assembly)@.extends(&old(assembly)@),
            final(assembly)@.has_type(r),
            final(assembly)@.type_tree(r) == ResolvedType::ClassRef(
                Box::new(upgrade_class_ref(class)),
            ),
    {
        let class = ClassRef::from_v1(class, assembly);
        let class = assembly.alloc_class_ref(class);
        assembly.alloc_type(Type::ClassRef(class))
    }
}

} // verus!
