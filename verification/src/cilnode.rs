//! Nodes: the instructions that produce a value. A node names its operands
//! by handle, so the nodes of an assembly form a shared acyclic graph.

use crate::arena::{duplicate_list, Interned};
use crate::digest::{mix, DIGEST_SEED};
use crate::handles::{FieldIdx, MethodRefIdx, NodeIdx, SigIdx, StaticFieldIdx, StringIdx, TypeIdx};
use crate::tpe::{Float, Int, Type};
use vstd::prelude::*;

verus! {

/// A constant. Floating-point constants are held as the bits of their
/// IEEE 754 encoding, so that constants compare and intern bit for bit.
#[derive(Clone, Copy, PartialEq, Eq, Hash, Debug, Structural)]
pub enum Const {
    I8(i8),
    I16(i16),
    I32(i32),
    I64(i64),
    I128(i128),
    ISize(i64),
    U8(u8),
    U16(u16),
    U32(u32),
    U64(u64),
    U128(u128),
    USize(u64),
    PlatformString(StringIdx),
    Bool(bool),
    F32(u32),
    F64(u64),
}

impl Const {
    /// The type of the constant.
    pub open spec fn spec_get_type(&self) -> Type {
        match *self {
            Const::I8(_) => Type::Int(Int::I8),
            Const::I16(_) => Type::Int(Int::I16),
            Const::I32(_) => Type::Int(Int::I32),
            Const::I64(_) => Type::Int(Int::I64),
            Const::I128(_) => Type::Int(Int::I128),
            Const::ISize(_) => Type::Int(Int::ISize),
            Const::U8(_) => Type::Int(Int::U8),
            Const::U16(_) => Type::Int(Int::U16),
            Const::U32(_) => Type::Int(Int::U32),
            Const::U64(_) => Type::Int(Int::U64),
            Const::U128(_) => Type::Int(Int::U128),
            Const::USize(_) => Type::Int(Int::USize),
            Const::PlatformString(_) => Type::PlatformString,
            Const::Bool(_) => Type::Bool,
            Const::F32(_) => Type::Float(Float::F32),
            Const::F64(_) => Type::Float(Float::F64),
        }
    }

    /// The type of the constant.
    pub fn get_type(&self) -> (r: Type)
        ensures
            r == self.spec_get_type(),
    {
        match self {
            Const::I8(_) => Type::Int(Int::I8),
            Const::I16(_) => Type::Int(Int::I16),
            Const::I32(_) => Type::Int(Int::I32),
            Const::I64(_) => Type::Int(Int::I64),
            Const::I128(_) => Type::Int(Int::I128),
            Const::ISize(_) => Type::Int(Int::ISize),
            Const::U8(_) => Type::Int(Int::U8),
            Const::U16(_) => Type::Int(Int::U16),
            Const::U32(_) => Type::Int(Int::U32),
            Const::U64(_) => Type::Int(Int::U64),
            Const::U128(_) => Type::Int(Int::U128),
            Const::USize(_) => Type::Int(Int::USize),
            Const::PlatformString(_) => Type::PlatformString,
            Const::Bool(_) => Type::Bool,
            Const::F32(_) => Type::Float(Float::F32),
            Const::F64(_) => Type::Float(Float::F64),
        }
    }
}

/// What a pointer cast produces.
#[derive(Clone, Copy, PartialEq, Eq, Hash, Debug, Structural)]
pub enum PtrCastRes {
    Ptr(TypeIdx),
    Ref(TypeIdx),
    FnPtr(SigIdx),
    USize,
    ISize,
}

/// How an integer cast fills the bits that the source does not have.
#[derive(Clone, Copy, PartialEq, Eq, Hash, Debug, Structural)]
pub enum ExtendKind {
    ZeroExtend,
    SignExtend,
}

/// How a method is called.
#[derive(Clone, Copy, PartialEq, Eq, Hash, Debug, Structural)]
pub enum MethodKind {
    Static,
    Instance,
    Virtual,
    Constructor,
}

#[derive(Clone, Copy, PartialEq, Eq, Hash, Debug, Structural)]
pub enum UnOp {
    Not,
    Neg,
}

#[derive(Clone, Copy, PartialEq, Eq, Hash, Debug, Structural)]
pub enum BinOp {
    Add,
    Eq,
    Sub,
    Mul,
    LtUn,
    Lt,
    GtUn,
    Gt,
    Or,
    XOr,
    And,
    Rem,
    RemUn,
    Shl,
    Shr,
    ShrUn,
    DivUn,
    Div,
}

/// Decides whether two lists hold the same node handles in the same order.
pub fn same_nodes(a: &Vec<NodeIdx>, b: &Vec<NodeIdx>) -> (r: bool)
    ensures
        r == (a@ == b@),
{
    if a.len() != b.len() {
        return false;
    }
    let mut i: usize = 0;
    while i < a.len()
        invariant
            a.len() == b.len(),
            i <= a.len(),
            forall|k: int| 0 <= k < i ==> a@[k] == b@[k],
        decreases a.len() - i,
    {
        if a[i] != b[i] {
            return false;
        }
        i += 1;
    }
    proof {
        assert(a@ =~= b@);
    }
    true
}

/// The digest of a constant.
pub open spec fn digest_const(c: Const) -> u64 {
    match c {
        Const::I8(x) => mix(mix(DIGEST_SEED, 1), x as u64),
        Const::I16(x) => mix(mix(DIGEST_SEED, 2), x as u64),
        Const::I32(x) => mix(mix(DIGEST_SEED, 3), x as u64),
        Const::I64(x) => mix(mix(DIGEST_SEED, 4), x as u64),
        Const::I128(x) => mix(mix(DIGEST_SEED, 5), x as u64),
        Const::ISize(x) => mix(mix(DIGEST_SEED, 6), x as u64),
        Const::U8(x) => mix(mix(DIGEST_SEED, 7), x as u64),
        Const::U16(x) => mix(mix(DIGEST_SEED, 8), x as u64),
        Const::U32(x) => mix(mix(DIGEST_SEED, 9), x as u64),
        Const::U64(x) => mix(mix(DIGEST_SEED, 10), x),
        Const::U128(x) => mix(mix(DIGEST_SEED, 11), x as u64),
        Const::USize(x) => mix(mix(DIGEST_SEED, 12), x),
        Const::PlatformString(s) => mix(mix(DIGEST_SEED, 13), s.0 as u64),
        Const::Bool(_) => mix(DIGEST_SEED, 14),
        Const::F32(x) => mix(mix(DIGEST_SEED, 15), x as u64),
        Const::F64(x) => mix(mix(DIGEST_SEED, 16), x),
    }
}

/// Computes the digest of a constant.
pub fn fingerprint_const(c: Const) -> (r: u64)
    ensures
        r == digest_const(c),
{
    match c {
        Const::I8(x) => mix(mix(DIGEST_SEED, 1), #[verifier::truncate] (x as u64)),
        Const::I16(x) => mix(mix(DIGEST_SEED, 2), #[verifier::truncate] (x as u64)),
        Const::I32(x) => mix(mix(DIGEST_SEED, 3), #[verifier::truncate] (x as u64)),
        Const::I64(x) => mix(mix(DIGEST_SEED, 4), #[verifier::truncate] (x as u64)),
        Const::I128(x) => mix(mix(DIGEST_SEED, 5), #[verifier::truncate] (x as u64)),
        Const::ISize(x) => mix(mix(DIGEST_SEED, 6), #[verifier::truncate] (x as u64)),
        Const::U8(x) => mix(mix(DIGEST_SEED, 7), x as u64),
        Const::U16(x) => mix(mix(DIGEST_SEED, 8), x as u64),
        Const::U32(x) => mix(mix(DIGEST_SEED, 9), x as u64),
        Const::U64(x) => mix(mix(DIGEST_SEED, 10), x),
        Const::U128(x) => mix(mix(DIGEST_SEED, 11), #[verifier::truncate] (x as u64)),
        Const::USize(x) => mix(mix(DIGEST_SEED, 12), x),
        Const::PlatformString(s) => mix(mix(DIGEST_SEED, 13), s.0 as u64),
        Const::Bool(_) => mix(DIGEST_SEED, 14),
        Const::F32(x) => mix(mix(DIGEST_SEED, 15), x as u64),
        Const::F64(x) => mix(mix(DIGEST_SEED, 16), x),
    }
}

/// The digest of the result of a pointer cast.
pub open spec fn digest_ptr_cast(p: PtrCastRes) -> u64 {
    match p {
        PtrCastRes::Ptr(t) => mix(mix(DIGEST_SEED, 1), t.0 as u64),
        PtrCastRes::Ref(t) => mix(mix(DIGEST_SEED, 2), t.0 as u64),
        PtrCastRes::FnPtr(s) => mix(mix(DIGEST_SEED, 3), s.0 as u64),
        PtrCastRes::USize => mix(DIGEST_SEED, 4),
        PtrCastRes::ISize => mix(DIGEST_SEED, 5),
    }
}

/// Computes the digest of the result of a pointer cast.
pub fn fingerprint_ptr_cast(p: PtrCastRes) -> (r: u64)
    ensures
        r == digest_ptr_cast(p),
{
    match p {
        PtrCastRes::Ptr(t) => mix(mix(DIGEST_SEED, 1), t.0 as u64),
        PtrCastRes::Ref(t) => mix(mix(DIGEST_SEED, 2), t.0 as u64),
        PtrCastRes::FnPtr(s) => mix(mix(DIGEST_SEED, 3), s.0 as u64),
        PtrCastRes::USize => mix(DIGEST_SEED, 4),
        PtrCastRes::ISize => mix(DIGEST_SEED, 5),
    }
}

/// The digest of a list of node handles.
pub open spec fn digest_nodes(s: Seq<NodeIdx>) -> u64
    decreases s.len(),
{
    if s.len() == 0 {
        DIGEST_SEED
    } else {
        mix(digest_nodes(s.drop_last()), s.last().0 as u64)
    }
}

/// Computes the digest of a list of node handles.
pub fn fingerprint_nodes(v: &Vec<NodeIdx>) -> (r: u64)
    ensures
        r == digest_nodes(v@),
{
    let mut h: u64 = DIGEST_SEED;
    let mut i: usize = 0;
    proof {
        assert(v@.take(0) =~= Seq::empty());
    }
    while i < v.len()
        invariant
            i <= v.len(),
            h == digest_nodes(v@.take(i as int)),
        decreases v.len() - i,
    {
        proof {
            assert(v@.take(i + 1).drop_last() =~= v@.take(i as int));
            assert(v@.take(i + 1).last() == v@[i as int]);
        }
        h = mix(h, v[i].0 as u64);
        i += 1;
    }
    proof {
        assert(v@.take(v.len() as int) =~= v@);
    }
    h
}

/// An instruction that produces a value.
#[derive(Clone, PartialEq, Eq, Hash, Debug)]
pub enum CILNode {
    Const(Box<Const>),
    BinOp(NodeIdx, NodeIdx, BinOp),
    UnOp(NodeIdx, UnOp),
    LdLoc(u32),
    LdLocA(u32),
    LdArg(u32),
    LdArgA(u32),
    Call(Box<(MethodRefIdx, Vec<NodeIdx>)>),
    IntCast { input: NodeIdx, target: Int, extend: ExtendKind },
    FloatCast { input: NodeIdx, target: Float, is_signed: bool },
    RefToPtr(NodeIdx),
    /// Changes the type of a pointer to `PtrCastRes`
    PtrCast(NodeIdx, Box<PtrCastRes>),
    /// Loads the address of a field at `addr`
    LdFieldAdress { addr: NodeIdx, field: FieldIdx },
    /// Loads the value of a field at `addr`
    LdField { addr: NodeIdx, field: FieldIdx },
    /// Loads a value of `tpe` at `addr`
    LdInd { addr: NodeIdx, tpe: TypeIdx, volitale: bool },
    /// Calculates the size of a type
    SizeOf(TypeIdx),
    /// Gets the current exception; meaningful only inside a handler
    GetException,
    /// Checks if the object is an instance of a class
    IsInst(NodeIdx, TypeIdx),
    /// Casts the object to an instance of a class
    CheckedCast(NodeIdx, TypeIdx),
    /// Calls a function pointer with arguments
    CallI(Box<(NodeIdx, SigIdx, Vec<NodeIdx>)>),
    /// Allocates memory from a local pool, freed when the function returns
    LocAlloc { size: NodeIdx },
    /// Loads a static field
    LdStaticField(StaticFieldIdx),
    /// Loads a pointer to a function
    LdFtn(MethodRefIdx),
    /// Loads a type token
    LdTypeToken(TypeIdx),
    /// Gets the length of a platform array
    LdLen(NodeIdx),
    /// Allocates a local buffer of the size of a type, aligned to `align`
    LocAllocAlgined { tpe: TypeIdx, align: u64 },
    /// Loads a reference to the array element at an index
    LdElelemRef { array: NodeIdx, index: NodeIdx },
    /// Turns a managed reference to an object into a value of a type
    UnboxAny { object: NodeIdx, tpe: TypeIdx },
}

impl Interned for CILNode {
    open spec fn alike(&self, other: &Self) -> bool {
        match (self, other) {
            (CILNode::Call(a), CILNode::Call(b)) => a.0 == b.0 && a.1@ == b.1@,
            (CILNode::CallI(a), CILNode::CallI(b)) => a.0 == b.0 && a.1 == b.1 && a.2@ == b.2@,
            _ => *self == *other,
        }
    }

    proof fn alike_is_equivalence(a: &Self, b: &Self, c: &Self) {
    }

    fn same(&self, other: &Self) -> (r: bool) {
        match (self, other) {
            (CILNode::Const(a_cst), CILNode::Const(b_cst)) => **a_cst == **b_cst,
            (CILNode::BinOp(a_lhs, a_rhs, a_op), CILNode::BinOp(b_lhs, b_rhs, b_op)) => *a_lhs == *b_lhs
                && *a_rhs == *b_rhs
                && *a_op == *b_op,
            (CILNode::UnOp(a_arg, a_op), CILNode::UnOp(b_arg, b_op)) => *a_arg == *b_arg
                && *a_op == *b_op,
            (CILNode::LdLoc(a_loc), CILNode::LdLoc(b_loc)) => *a_loc == *b_loc,
            (CILNode::LdLocA(a_loc), CILNode::LdLocA(b_loc)) => *a_loc == *b_loc,
            (CILNode::LdArg(a_arg), CILNode::LdArg(b_arg)) => *a_arg == *b_arg,
            (CILNode::LdArgA(a_arg), CILNode::LdArgA(b_arg)) => *a_arg == *b_arg,
            (CILNode::Call(a), CILNode::Call(b)) => a.0 == b.0 && same_nodes(&a.1, &b.1),
            (
                CILNode::IntCast { input: a_input, target: a_target, extend: a_extend },
                CILNode::IntCast { input: b_input, target: b_target, extend: b_extend },
            ) => *a_input == *b_input && *a_target == *b_target && *a_extend == *b_extend,
            (
                CILNode::FloatCast { input: a_input, target: a_target, is_signed: a_is_signed },
                CILNode::FloatCast { input: b_input, target: b_target, is_signed: b_is_signed },
            ) => *a_input == *b_input && *a_target == *b_target && *a_is_signed == *b_is_signed,
            (CILNode::RefToPtr(a_input), CILNode::RefToPtr(b_input)) => *a_input == *b_input,
            (
                CILNode::PtrCast(a_input, a_cast_res),
                CILNode::PtrCast(b_input, b_cast_res),
            ) => *a_input == *b_input && **a_cast_res == **b_cast_res,
            (
                CILNode::LdFieldAdress { addr: a_addr, field: a_field },
                CILNode::LdFieldAdress { addr: b_addr, field: b_field },
            ) => *a_addr == *b_addr && *a_field == *b_field,
            (
                CILNode::LdField { addr: a_addr, field: a_field },
                CILNode::LdField { addr: b_addr, field: b_field },
            ) => *a_addr == *b_addr && *a_field == *b_field,
            (
                CILNode::LdInd { addr: a_addr, tpe: a_tpe, volitale: a_volitale },
                CILNode::LdInd { addr: b_addr, tpe: b_tpe, volitale: b_volitale },
            ) => *a_addr == *b_addr && *a_tpe == *b_tpe && *a_volitale == *b_volitale,
            (CILNode::SizeOf(a_tpe), CILNode::SizeOf(b_tpe)) => *a_tpe == *b_tpe,
            (CILNode::GetException, CILNode::GetException) => true,
            (CILNode::IsInst(a_object, a_tpe), CILNode::IsInst(b_object, b_tpe)) => *a_object == *b_object
                && *a_tpe == *b_tpe,
            (
                CILNode::CheckedCast(a_object, a_tpe),
                CILNode::CheckedCast(b_object, b_tpe),
            ) => *a_object == *b_object && *a_tpe == *b_tpe,
            (CILNode::CallI(a), CILNode::CallI(b)) => a.0 == b.0
                && a.1 == b.1
                && same_nodes(&a.2, &b.2),
            (
                CILNode::LocAlloc { size: a_size },
                CILNode::LocAlloc { size: b_size },
            ) => *a_size == *b_size,
            (CILNode::LdStaticField(a_sfld), CILNode::LdStaticField(b_sfld)) => *a_sfld == *b_sfld,
            (CILNode::LdFtn(a_mref), CILNode::LdFtn(b_mref)) => *a_mref == *b_mref,
            (CILNode::LdTypeToken(a_tpe), CILNode::LdTypeToken(b_tpe)) => *a_tpe == *b_tpe,
            (CILNode::LdLen(a_array), CILNode::LdLen(b_array)) => *a_array == *b_array,
            (
                CILNode::LocAllocAlgined { tpe: a_tpe, align: a_align },
                CILNode::LocAllocAlgined { tpe: b_tpe, align: b_align },
            ) => *a_tpe == *b_tpe && *a_align == *b_align,
            (
                CILNode::LdElelemRef { array: a_array, index: a_index },
                CILNode::LdElelemRef { array: b_array, index: b_index },
            ) => *a_array == *b_array && *a_index == *b_index,
            (
                CILNode::UnboxAny { object: a_object, tpe: a_tpe },
                CILNode::UnboxAny { object: b_object, tpe: b_tpe },
            ) => *a_object == *b_object && *a_tpe == *b_tpe,
            _ => false,
        }
    }

    fn duplicate(&self) -> (r: Self) {
        match self {
            CILNode::Const(cst) => CILNode::Const(Box::new(**cst)),
            CILNode::BinOp(lhs, rhs, op) => CILNode::BinOp(*lhs, *rhs, *op),
            CILNode::UnOp(arg, op) => CILNode::UnOp(*arg, *op),
            CILNode::LdLoc(loc) => CILNode::LdLoc(*loc),
            CILNode::LdLocA(loc) => CILNode::LdLocA(*loc),
            CILNode::LdArg(arg) => CILNode::LdArg(*arg),
            CILNode::LdArgA(arg) => CILNode::LdArgA(*arg),
            CILNode::Call(call) => CILNode::Call(Box::new((call.0, duplicate_list(&call.1)))),
            CILNode::IntCast { input, target, extend } => CILNode::IntCast {
                input: *input,
                target: *target,
                extend: *extend,
            },
            CILNode::FloatCast { input, target, is_signed } => CILNode::FloatCast {
                input: *input,
                target: *target,
                is_signed: *is_signed,
            },
            CILNode::RefToPtr(input) => CILNode::RefToPtr(*input),
            CILNode::PtrCast(input, cast_res) => CILNode::PtrCast(*input, Box::new(**cast_res)),
            CILNode::LdFieldAdress { addr, field } => CILNode::LdFieldAdress {
                addr: *addr,
                field: *field,
            },
            CILNode::LdField { addr, field } => CILNode::LdField { addr: *addr, field: *field },
            CILNode::LdInd { addr, tpe, volitale } => CILNode::LdInd {
                addr: *addr,
                tpe: *tpe,
                volitale: *volitale,
            },
            CILNode::SizeOf(tpe) => CILNode::SizeOf(*tpe),
            CILNode::GetException => CILNode::GetException,
            CILNode::IsInst(object, tpe) => CILNode::IsInst(*object, *tpe),
            CILNode::CheckedCast(object, tpe) => CILNode::CheckedCast(*object, *tpe),
            CILNode::CallI(call) => CILNode::CallI(
                Box::new((call.0, call.1, duplicate_list(&call.2))),
            ),
            CILNode::LocAlloc { size } => CILNode::LocAlloc { size: *size },
            CILNode::LdStaticField(sfld) => CILNode::LdStaticField(*sfld),
            CILNode::LdFtn(mref) => CILNode::LdFtn(*mref),
            CILNode::LdTypeToken(tpe) => CILNode::LdTypeToken(*tpe),
            CILNode::LdLen(array) => CILNode::LdLen(*array),
            CILNode::LocAllocAlgined { tpe, align } => CILNode::LocAllocAlgined {
                tpe: *tpe,
                align: *align,
            },
            CILNode::LdElelemRef { array, index } => CILNode::LdElelemRef {
                array: *array,
                index: *index,
            },
            CILNode::UnboxAny { object, tpe } => CILNode::UnboxAny { object: *object, tpe: *tpe },
        }
    }

    open spec fn digest(&self) -> u64 {
        match *self {
            CILNode::Const(cst) => mix(mix(DIGEST_SEED, 1), digest_const(*cst)),
            CILNode::BinOp(lhs, rhs, _) => mix(
                mix(mix(DIGEST_SEED, 2), lhs.0 as u64),
                rhs.0 as u64,
            ),
            CILNode::UnOp(arg, _) => mix(mix(DIGEST_SEED, 3), arg.0 as u64),
            CILNode::LdLoc(loc) => mix(mix(DIGEST_SEED, 4), loc as u64),
            CILNode::LdLocA(loc) => mix(mix(DIGEST_SEED, 5), loc as u64),
            CILNode::LdArg(arg) => mix(mix(DIGEST_SEED, 6), arg as u64),
            CILNode::LdArgA(arg) => mix(mix(DIGEST_SEED, 7), arg as u64),
            CILNode::Call(info) => mix(
                mix(mix(DIGEST_SEED, 8), info.0.0 as u64),
                digest_nodes(info.1@),
            ),
            CILNode::IntCast { input, .. } => mix(mix(DIGEST_SEED, 9), input.0 as u64),
            CILNode::FloatCast { input, .. } => mix(mix(DIGEST_SEED, 10), input.0 as u64),
            CILNode::RefToPtr(input) => mix(mix(DIGEST_SEED, 11), input.0 as u64),
            CILNode::PtrCast(input, cast_res) => mix(
                mix(mix(DIGEST_SEED, 12), input.0 as u64),
                digest_ptr_cast(*cast_res),
            ),
            CILNode::LdFieldAdress { addr, field } => mix(
                mix(mix(DIGEST_SEED, 13), addr.0 as u64),
                field.0 as u64,
            ),
            CILNode::LdField { addr, field } => mix(
                mix(mix(DIGEST_SEED, 14), addr.0 as u64),
                field.0 as u64,
            ),
            CILNode::LdInd { addr, tpe, .. } => mix(
                mix(mix(DIGEST_SEED, 15), addr.0 as u64),
                tpe.0 as u64,
            ),
            CILNode::SizeOf(tpe) => mix(mix(DIGEST_SEED, 16), tpe.0 as u64),
            CILNode::GetException => mix(DIGEST_SEED, 17),
            CILNode::IsInst(object, tpe) => mix(
                mix(mix(DIGEST_SEED, 18), object.0 as u64),
                tpe.0 as u64,
            ),
            CILNode::CheckedCast(object, tpe) => mix(
                mix(mix(DIGEST_SEED, 19), object.0 as u64),
                tpe.0 as u64,
            ),
            CILNode::CallI(info) => mix(
                mix(mix(mix(DIGEST_SEED, 20), info.0.0 as u64), info.1.0 as u64),
                digest_nodes(info.2@),
            ),
            CILNode::LocAlloc { size } => mix(mix(DIGEST_SEED, 21), size.0 as u64),
            CILNode::LdStaticField(sfld) => mix(mix(DIGEST_SEED, 22), sfld.0 as u64),
            CILNode::LdFtn(mref) => mix(mix(DIGEST_SEED, 23), mref.0 as u64),
            CILNode::LdTypeToken(tpe) => mix(mix(DIGEST_SEED, 24), tpe.0 as u64),
            CILNode::LdLen(array) => mix(mix(DIGEST_SEED, 25), array.0 as u64),
            CILNode::LocAllocAlgined { tpe, align } => mix(
                mix(mix(DIGEST_SEED, 26), tpe.0 as u64),
                align,
            ),
            CILNode::LdElelemRef { array, index } => mix(
                mix(mix(DIGEST_SEED, 27), array.0 as u64),
                index.0 as u64,
            ),
            CILNode::UnboxAny { object, tpe } => mix(
                mix(mix(DIGEST_SEED, 28), object.0 as u64),
                tpe.0 as u64,
            ),
        }
    }

    proof fn digest_respects_alike(a: &Self, b: &Self) {
    }

    fn fingerprint(&self) -> (r: u64) {
        match self {
            CILNode::Const(cst) => mix(mix(DIGEST_SEED, 1), fingerprint_const(**cst)),
            CILNode::BinOp(lhs, rhs, _) => mix(
                mix(mix(DIGEST_SEED, 2), lhs.0 as u64),
                rhs.0 as u64,
            ),
            CILNode::UnOp(arg, _) => mix(mix(DIGEST_SEED, 3), arg.0 as u64),
            CILNode::LdLoc(loc) => mix(mix(DIGEST_SEED, 4), *loc as u64),
            CILNode::LdLocA(loc) => mix(mix(DIGEST_SEED, 5), *loc as u64),
            CILNode::LdArg(arg) => mix(mix(DIGEST_SEED, 6), *arg as u64),
            CILNode::LdArgA(arg) => mix(mix(DIGEST_SEED, 7), *arg as u64),
            CILNode::Call(info) => mix(
                mix(mix(DIGEST_SEED, 8), info.0.0 as u64),
                fingerprint_nodes(&info.1),
            ),
            CILNode::IntCast { input, .. } => mix(mix(DIGEST_SEED, 9), input.0 as u64),
            CILNode::FloatCast { input, .. } => mix(mix(DIGEST_SEED, 10), input.0 as u64),
            CILNode::RefToPtr(input) => mix(mix(DIGEST_SEED, 11), input.0 as u64),
            CILNode::PtrCast(input, cast_res) => mix(
                mix(mix(DIGEST_SEED, 12), input.0 as u64),
                fingerprint_ptr_cast(**cast_res),
            ),
            CILNode::LdFieldAdress { addr, field } => mix(
                mix(mix(DIGEST_SEED, 13), addr.0 as u64),
                field.0 as u64,
            ),
            CILNode::LdField { addr, field } => mix(
                mix(mix(DIGEST_SEED, 14), addr.0 as u64),
                field.0 as u64,
            ),
            CILNode::LdInd { addr, tpe, .. } => mix(
                mix(mix(DIGEST_SEED, 15), addr.0 as u64),
                tpe.0 as u64,
            ),
            CILNode::SizeOf(tpe) => mix(mix(DIGEST_SEED, 16), tpe.0 as u64),
            CILNode::GetException => mix(DIGEST_SEED, 17),
            CILNode::IsInst(object, tpe) => mix(
                mix(mix(DIGEST_SEED, 18), object.0 as u64),
                tpe.0 as u64,
            ),
            CILNode::CheckedCast(object, tpe) => mix(
                mix(mix(DIGEST_SEED, 19), object.0 as u64),
                tpe.0 as u64,
            ),
            CILNode::CallI(info) => mix(
                mix(mix(mix(DIGEST_SEED, 20), info.0.0 as u64), info.1.0 as u64),
                fingerprint_nodes(&info.2),
            ),
            CILNode::LocAlloc { size } => mix(mix(DIGEST_SEED, 21), size.0 as u64),
            CILNode::LdStaticField(sfld) => mix(mix(DIGEST_SEED, 22), sfld.0 as u64),
            CILNode::LdFtn(mref) => mix(mix(DIGEST_SEED, 23), mref.0 as u64),
            CILNode::LdTypeToken(tpe) => mix(mix(DIGEST_SEED, 24), tpe.0 as u64),
            CILNode::LdLen(array) => mix(mix(DIGEST_SEED, 25), array.0 as u64),
            CILNode::LocAllocAlgined { tpe, align } => mix(
                mix(mix(DIGEST_SEED, 26), tpe.0 as u64),
                *align,
            ),
            CILNode::LdElelemRef { array, index } => mix(
                mix(mix(DIGEST_SEED, 27), array.0 as u64),
                index.0 as u64,
            ),
            CILNode::UnboxAny { object, tpe } => mix(
                mix(mix(DIGEST_SEED, 28), object.0 as u64),
                tpe.0 as u64,
            ),
        }
    }
}

} // verus!
