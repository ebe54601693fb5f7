//! Typing: the static type of the value that a node produces.

use crate::assembly::Assembly;
use crate::cilnode::{BinOp, CILNode, PtrCastRes};
use crate::contents::Contents;
use crate::handles::{SigIdx, StringIdx, TypeIdx};
use crate::resolved::{lemma_node_parts, ResolvedConst, ResolvedNode, ResolvedPtrCast, ResolvedType};
use crate::tpe::{Float, Int, Type};
use crate::unique::lemma_type_value_unique;
use vstd::prelude::*;

verus! {

/// The kind of a node: which instruction it is, without its operands.
#[derive(Clone, Copy, PartialEq, Eq, Hash, Debug, Structural)]
pub enum NodeKind {
    Const,
    BinOp(BinOp),
    UnOp,
    LdLoc,
    LdLocA,
    LdArg,
    LdArgA,
    Call,
    IntCast,
    FloatCast,
    RefToPtr,
    PtrCast,
    LdFieldAdress,
    LdField,
    LdInd,
    SizeOf,
    GetException,
    IsInst,
    CheckedCast,
    CallI,
    LocAlloc,
    LdStaticField,
    LdFtn,
    LdTypeToken,
    LdLen,
    LocAllocAlgined,
    LdElelemRef,
    UnboxAny,
}

/// Why a node has no type.
#[derive(Clone, Copy, PartialEq, Eq, Hash, Debug, Structural)]
pub enum TypingError {
    /// The operands of an arithmetic operation have types that do not go
    /// together: they differ, and they are not a pointer and an integer of
    /// the width of a pointer.
    Mismatch { lhs: Type, rhs: Type },
    /// There is no typing rule yet for this kind of node.
    Unimplemented(NodeKind),
}

/// A typing error with its types resolved.
pub enum ResolvedTypingError {
    Mismatch { lhs: ResolvedType, rhs: ResolvedType },
    Unimplemented(NodeKind),
}

/// Addition, subtraction and multiplication.
pub open spec fn is_arithmetic(op: BinOp) -> bool {
    op is Add || op is Sub || op is Mul
}

/// The comparisons: they produce a boolean.
pub open spec fn is_comparison(op: BinOp) -> bool {
    op is Eq || op is LtUn || op is Lt || op is GtUn || op is Gt
}

/// The shifts: they produce a value of the type of the shifted operand.
pub open spec fn is_shift(op: BinOp) -> bool {
    op is Shl || op is Shr || op is ShrUn
}

/// An integer of the width of a pointer.
pub open spec fn is_pointer_width(t: ResolvedType) -> bool {
    t == ResolvedType::Int(Int::USize) || t == ResolvedType::Int(Int::ISize)
}

/// The kind of an expression tree.
pub open spec fn kind_of_tree(t: ResolvedNode) -> NodeKind {
    match t {
        ResolvedNode::Const(_) => NodeKind::Const,
        ResolvedNode::BinOp(_, _, op) => NodeKind::BinOp(op),
        ResolvedNode::UnOp(_, _) => NodeKind::UnOp,
        ResolvedNode::LdLoc(_) => NodeKind::LdLoc,
        ResolvedNode::LdLocA(_) => NodeKind::LdLocA,
        ResolvedNode::LdArg(_) => NodeKind::LdArg,
        ResolvedNode::LdArgA(_) => NodeKind::LdArgA,
        ResolvedNode::Call(_, _) => NodeKind::Call,
        ResolvedNode::IntCast { .. } => NodeKind::IntCast,
        ResolvedNode::FloatCast { .. } => NodeKind::FloatCast,
        ResolvedNode::RefToPtr(_) => NodeKind::RefToPtr,
        ResolvedNode::PtrCast(_, _) => NodeKind::PtrCast,
        ResolvedNode::LdFieldAdress { .. } => NodeKind::LdFieldAdress,
        ResolvedNode::LdField { .. } => NodeKind::LdField,
        ResolvedNode::LdInd { .. } => NodeKind::LdInd,
        ResolvedNode::SizeOf(_) => NodeKind::SizeOf,
        ResolvedNode::GetException => NodeKind::GetException,
        ResolvedNode::IsInst(_, _) => NodeKind::IsInst,
        ResolvedNode::CheckedCast(_, _) => NodeKind::CheckedCast,
        ResolvedNode::CallI(_, _, _) => NodeKind::CallI,
        ResolvedNode::LocAlloc { .. } => NodeKind::LocAlloc,
        ResolvedNode::LdStaticField(_) => NodeKind::LdStaticField,
        ResolvedNode::LdFtn(_) => NodeKind::LdFtn,
        ResolvedNode::LdTypeToken(_) => NodeKind::LdTypeToken,
        ResolvedNode::LdLen(_) => NodeKind::LdLen,
        ResolvedNode::LocAllocAlgined { .. } => NodeKind::LocAllocAlgined,
        ResolvedNode::LdElelemRef { .. } => NodeKind::LdElelemRef,
        ResolvedNode::UnboxAny { .. } => NodeKind::UnboxAny,
    }
}

/// The type of a constant.
pub open spec fn type_of_const(c: ResolvedConst) -> ResolvedType {
    match c {
        ResolvedConst::I8(_) => ResolvedType::Int(Int::I8),
        ResolvedConst::I16(_) => ResolvedType::Int(Int::I16),
        ResolvedConst::I32(_) => ResolvedType::Int(Int::I32),
        ResolvedConst::I64(_) => ResolvedType::Int(Int::I64),
        ResolvedConst::I128(_) => ResolvedType::Int(Int::I128),
        ResolvedConst::ISize(_) => ResolvedType::Int(Int::ISize),
        ResolvedConst::U8(_) => ResolvedType::Int(Int::U8),
        ResolvedConst::U16(_) => ResolvedType::Int(Int::U16),
        ResolvedConst::U32(_) => ResolvedType::Int(Int::U32),
        ResolvedConst::U64(_) => ResolvedType::Int(Int::U64),
        ResolvedConst::U128(_) => ResolvedType::Int(Int::U128),
        ResolvedConst::USize(_) => ResolvedType::Int(Int::USize),
        ResolvedConst::PlatformString(_) => ResolvedType::PlatformString,
        ResolvedConst::Bool(_) => ResolvedType::Bool,
        ResolvedConst::F32(_) => ResolvedType::Float(Float::F32),
        ResolvedConst::F64(_) => ResolvedType::Float(Float::F64),
    }
}

/// The type that a pointer cast produces.
pub open spec fn type_of_ptr_cast(p: ResolvedPtrCast) -> ResolvedType {
    match p {
        ResolvedPtrCast::Ptr(t) => ResolvedType::Ptr(Box::new(t)),
        ResolvedPtrCast::Ref(t) => ResolvedType::Ref(Box::new(t)),
        ResolvedPtrCast::FnPtr(s) => ResolvedType::FnPtr(Box::new(s)),
        ResolvedPtrCast::USize => ResolvedType::Int(Int::USize),
        ResolvedPtrCast::ISize => ResolvedType::Int(Int::ISize),
    }
}

/// The type of a binary operation on operands of the types `lhs` and `rhs`.
/// Arithmetic wants equal types, except that a pointer and an integer of
/// the width of a pointer give the pointer type. A comparison gives a
/// boolean, a shift the type of the shifted operand.
pub open spec fn type_of_binop(lhs: ResolvedType, rhs: ResolvedType, op: BinOp) -> Result<
    ResolvedType,
    ResolvedTypingError,
> {
    if is_arithmetic(op) {
        if lhs == rhs {
            Ok(lhs)
        } else if lhs is Ptr && is_pointer_width(rhs) {
            Ok(lhs)
        } else if is_pointer_width(lhs) && rhs is Ptr {
            Ok(rhs)
        } else {
            Err(ResolvedTypingError::Mismatch { lhs, rhs })
        }
    } else if is_comparison(op) {
        Ok(ResolvedType::Bool)
    } else if is_shift(op) {
        Ok(lhs)
    } else {
        Err(ResolvedTypingError::Unimplemented(NodeKind::BinOp(op)))
    }
}

/// The type of the value that an expression tree produces, or why it has
/// none. The operands of a binary operation are typed left to right, and
/// the first error found is the error of the whole. A kind of node without
/// a rule is an error and never a guessed type.
pub open spec fn type_of_tree(t: ResolvedNode) -> Result<ResolvedType, ResolvedTypingError>
    decreases t,
{
    match t {
        ResolvedNode::Const(c) => Ok(type_of_const(c)),
        ResolvedNode::BinOp(lhs, rhs, op) => {
            if is_arithmetic(op) || is_comparison(op) || is_shift(op) {
                match type_of_tree(*lhs) {
                    Err(e) => Err(e),
                    Ok(l) => match type_of_tree(*rhs) {
                        Err(e) => Err(e),
                        Ok(r) => type_of_binop(l, r, op),
                    },
                }
            } else {
                Err(ResolvedTypingError::Unimplemented(NodeKind::BinOp(op)))
            }
        },
        ResolvedNode::Call(mref, _) => Ok(*mref.sig.output),
        ResolvedNode::CallI(_, sig, _) => Ok(*sig.output),
        ResolvedNode::IntCast { target, .. } => Ok(ResolvedType::Int(target)),
        ResolvedNode::FloatCast { target, .. } => Ok(ResolvedType::Float(target)),
        ResolvedNode::PtrCast(_, cast_res) => Ok(type_of_ptr_cast(cast_res)),
        ResolvedNode::CheckedCast(_, tpe) => Ok(tpe),
        ResolvedNode::LdField { field, .. } => Ok(field.tpe),
        ResolvedNode::LdStaticField(sfld) => Ok(sfld.tpe),
        ResolvedNode::LdInd { tpe, .. } => Ok(tpe),
        _ => Err(ResolvedTypingError::Unimplemented(kind_of_tree(t))),
    }
}

/// Every handle in the error is one of the assembly.
pub open spec fn typing_error_ok(c: &Contents, e: TypingError) -> bool {
    match e {
        TypingError::Mismatch { lhs, rhs } => c.type_ok(lhs) && c.type_ok(rhs),
        TypingError::Unimplemented(_) => true,
    }
}

/// The error with its types resolved.
pub open spec fn resolve_typing_error(c: &Contents, e: TypingError) -> ResolvedTypingError {
    match e {
        TypingError::Mismatch { lhs, rhs } => ResolvedTypingError::Mismatch {
            lhs: c.resolve_type(lhs),
            rhs: c.resolve_type(rhs),
        },
        TypingError::Unimplemented(k) => ResolvedTypingError::Unimplemented(k),
    }
}

/// What typing a node of the assembly `c` gives, resolved.
pub open spec fn resolve_typing(c: &Contents, r: Result<Type, TypingError>) -> Result<
    ResolvedType,
    ResolvedTypingError,
> {
    match r {
        Ok(t) => Ok(c.resolve_type(t)),
        Err(e) => Err(resolve_typing_error(c, e)),
    }
}

/// Every handle in the outcome of typing is one of the assembly.
pub open spec fn typing_ok(c: &Contents, r: Result<Type, TypingError>) -> bool {
    match r {
        Ok(t) => c.type_ok(t),
        Err(e) => typing_error_ok(c, e),
    }
}

impl BinOp {
    /// Addition, subtraction or multiplication.
    pub fn is_arithmetic(&self) -> (r: bool)
        ensures
            r == is_arithmetic(*self),
    {
        match self {
            BinOp::Add | BinOp::Sub | BinOp::Mul => true,
            _ => false,
        }
    }

    /// A comparison.
    pub fn is_comparison(&self) -> (r: bool)
        ensures
            r == is_comparison(*self),
    {
        match self {
            BinOp::Eq | BinOp::LtUn | BinOp::Lt | BinOp::GtUn | BinOp::Gt => true,
            _ => false,
        }
    }

    /// A shift.
    pub fn is_shift(&self) -> (r: bool)
        ensures
            r == is_shift(*self),
    {
        match self {
            BinOp::Shl | BinOp::Shr | BinOp::ShrUn => true,
            _ => false,
        }
    }
}

impl PtrCastRes {
    /// The type that the cast produces.
    pub fn as_type(&self) -> (r: Type)
        ensures
            r == match *self {
                PtrCastRes::Ptr(t) => Type::Ptr(t),
                PtrCastRes::Ref(t) => Type::Ref(t),
                PtrCastRes::FnPtr(s) => Type::FnPtr(s),
                PtrCastRes::USize => Type::Int(Int::USize),
                PtrCastRes::ISize => Type::Int(Int::ISize),
            },
    {
        match self {
            PtrCastRes::Ptr(t) => Type::Ptr(*t),
            PtrCastRes::Ref(t) => Type::Ref(*t),
            PtrCastRes::FnPtr(s) => Type::FnPtr(*s),
            PtrCastRes::USize => Type::Int(Int::USize),
            PtrCastRes::ISize => Type::Int(Int::ISize),
        }
    }
}

/// Types a binary operation on operands of the types `lhs` and `rhs`.
pub fn binop_type(lhs: Type, rhs: Type, op: BinOp, assembly: &Assembly) -> (r: Result<
    Type,
    TypingError,
>)
    requires
        assembly.wf(),
        assembly@.type_ok(lhs),
        assembly@.type_ok(rhs),
    ensures
        typing_ok(&assembly@, r),
        resolve_typing(&assembly@, r) == type_of_binop(
            assembly@.resolve_type(lhs),
            assembly@.resolve_type(rhs),
            op,
        ),
{
    if op.is_arithmetic() {
        proof {
            if assembly@.resolve_type(lhs) == assembly@.resolve_type(rhs) {
                lemma_type_value_unique(&assembly@, lhs, rhs);
            }
        }
        if lhs == rhs {
            Ok(lhs)
        } else {
            match (lhs, rhs) {
                (Type::Ptr(_), Type::Int(Int::USize)) => Ok(lhs),
                (Type::Ptr(_), Type::Int(Int::ISize)) => Ok(lhs),
                (Type::Int(Int::USize), Type::Ptr(_)) => Ok(rhs),
                (Type::Int(Int::ISize), Type::Ptr(_)) => Ok(rhs),
                _ => Err(TypingError::Mismatch { lhs, rhs }),
            }
        }
    } else if op.is_comparison() {
        Ok(Type::Bool)
    } else if op.is_shift() {
        Ok(lhs)
    } else {
        Err(TypingError::Unimplemented(NodeKind::BinOp(op)))
    }
}

impl CILNode {
    /// The kind of the node.
    pub fn kind(&self) -> (r: NodeKind)
        ensures
            forall|c: &Contents| r == kind_of_tree(#[trigger] c.resolve_node(self)),
    {
        match self {
            CILNode::Const(_) => NodeKind::Const,
            CILNode::BinOp(_, _, op) => NodeKind::BinOp(*op),
            CILNode::UnOp(_, _) => NodeKind::UnOp,
            CILNode::LdLoc(_) => NodeKind::LdLoc,
            CILNode::LdLocA(_) => NodeKind::LdLocA,
            CILNode::LdArg(_) => NodeKind::LdArg,
            CILNode::LdArgA(_) => NodeKind::LdArgA,
            CILNode::Call(_) => NodeKind::Call,
            CILNode::IntCast { .. } => NodeKind::IntCast,
            CILNode::FloatCast { .. } => NodeKind::FloatCast,
            CILNode::RefToPtr(_) => NodeKind::RefToPtr,
            CILNode::PtrCast(_, _) => NodeKind::PtrCast,
            CILNode::LdFieldAdress { .. } => NodeKind::LdFieldAdress,
            CILNode::LdField { .. } => NodeKind::LdField,
            CILNode::LdInd { .. } => NodeKind::LdInd,
            CILNode::SizeOf(_) => NodeKind::SizeOf,
            CILNode::GetException => NodeKind::GetException,
            CILNode::IsInst(_, _) => NodeKind::IsInst,
            CILNode::CheckedCast(_, _) => NodeKind::CheckedCast,
            CILNode::CallI(_) => NodeKind::CallI,
            CILNode::LocAlloc { .. } => NodeKind::LocAlloc,
            CILNode::LdStaticField(_) => NodeKind::LdStaticField,
            CILNode::LdFtn(_) => NodeKind::LdFtn,
            CILNode::LdTypeToken(_) => NodeKind::LdTypeToken,
            CILNode::LdLen(_) => NodeKind::LdLen,
            CILNode::LocAllocAlgined { .. } => NodeKind::LocAllocAlgined,
            CILNode::LdElelemRef { .. } => NodeKind::LdElelemRef,
            CILNode::UnboxAny { .. } => NodeKind::UnboxAny,
        }
    }

    /// The static type of the value that the node produces, or why it has
    /// none. `sig` is the signature of the enclosing method and `locals`
    /// its local variables; no rule so far consults them.
    pub fn get_type(
        &self,
        sig: SigIdx,
        locals: &[(Option<StringIdx>, TypeIdx)],
        assembly: &Assembly,
    ) -> (r: Result<Type, TypingError>)
        requires
            assembly.wf(),
            assembly@.node_ok(self),
        ensures
            typing_ok(&assembly@, r),
            resolve_typing(&assembly@, r) == type_of_tree(assembly@.resolve_node(self)),
        decreases assembly@.resolve_node(self),
    {
        proof {
            lemma_node_parts(assembly@.resolve_node(self));
        }
        match self {
            CILNode::Const(cst) => Ok(cst.get_type()),
            CILNode::BinOp(lhs, rhs, op) => {
                if op.is_arithmetic() || op.is_comparison() || op.is_shift() {
                    let lhs = match assembly.get_node(*lhs).get_type(sig, locals, assembly) {
                        Ok(t) => t,
                        Err(e) => {
                            return Err(e);
                        },
                    };
                    let rhs = match assembly.get_node(*rhs).get_type(sig, locals, assembly) {
                        Ok(t) => t,
                        Err(e) => {
                            return Err(e);
                        },
                    };
                    binop_type(lhs, rhs, *op, assembly)
                } else {
                    Err(TypingError::Unimplemented(NodeKind::BinOp(*op)))
                }
            },
            CILNode::Call(call_arg) => {
                let mref = assembly.get_mref(call_arg.0);
                Ok(*assembly.get_sig(mref.sig()).output())
            },
            CILNode::CallI(call_arg) => Ok(*assembly.get_sig(call_arg.1).output()),
            CILNode::IntCast { target, .. } => Ok(Type::Int(*target)),
            CILNode::FloatCast { target, .. } => Ok(Type::Float(*target)),
            CILNode::PtrCast(_, cast_res) => Ok(cast_res.as_type()),
            CILNode::CheckedCast(_, tpe) => Ok(*assembly.get_type(*tpe)),
            CILNode::LdField { field, .. } => Ok(assembly.get_field(*field).tpe()),
            CILNode::LdStaticField(sfld) => Ok(assembly.get_static_field(*sfld).tpe()),
            CILNode::LdInd { tpe, .. } => Ok(*assembly.get_type(*tpe)),
            _ => Err(TypingError::Unimplemented(self.kind())),
        }
    }
}

} // verus!
