//! Handle-free trees: what an interned value stands for once every handle in
//! it has been followed to the end. Two values in two assemblies mean the
//! same thing exactly when they resolve to the same tree.

use crate::cilnode::{BinOp, ExtendKind, MethodKind, UnOp};
use crate::cilroot::CmpKind;
use crate::method::Access;
use crate::tpe::{Float, GenericKind, Int};
use vstd::prelude::*;

verus! {

/// A type with every nested handle resolved.
pub enum ResolvedType {
    Ptr(Box<ResolvedType>),
    Ref(Box<ResolvedType>),
    Int(Int),
    Float(Float),
    PlatformString,
    PlatformChar,
    PlatformGeneric(u32, GenericKind),
    Bool,
    Void,
    PlatformObject,
    ClassRef(Box<ResolvedClassRef>),
    PlatformArray { elem: Box<ResolvedType>, dims: u8 },
    FnPtr(Box<ResolvedSig>),
}

/// A class reference with its names spelled out and its generic arguments
/// resolved.
pub struct ResolvedClassRef {
    pub name: Seq<char>,
    pub module: Option<Seq<char>>,
    pub is_valuetype: bool,
    pub generics: Seq<ResolvedType>,
}

/// A signature with its types resolved.
pub struct ResolvedSig {
    pub inputs: Seq<ResolvedType>,
    pub output: Box<ResolvedType>,
}

/// A field descriptor with owner, name and type resolved.
pub struct ResolvedField {
    pub owner: ResolvedClassRef,
    pub name: Seq<char>,
    pub tpe: ResolvedType,
}

/// A static-field descriptor with owner, name and type resolved.
pub struct ResolvedStaticField {
    pub owner: ResolvedClassRef,
    pub name: Seq<char>,
    pub tpe: ResolvedType,
}

/// A method reference with owner, name, signature and generic arguments
/// resolved.
pub struct ResolvedMethodRef {
    pub class: ResolvedClassRef,
    pub name: Seq<char>,
    pub sig: ResolvedSig,
    pub kind: MethodKind,
    pub generics: Seq<ResolvedType>,
}

/// A constant with its string spelled out.
pub enum ResolvedConst {
    I8(i8),
    I16(i16),
    I32(i32),
    I64(i64),
    I128(i128),
    ISize(i64),
    U8(u8),
    U16(u16),
    U32(u32),
    U64(u64),
    U128(u128),
    USize(u64),
    PlatformString(Seq<char>),
    Bool(bool),
    F32(u32),
    F64(u64),
}

/// The result of a pointer cast with its type resolved.
pub enum ResolvedPtrCast {
    Ptr(ResolvedType),
    Ref(ResolvedType),
    FnPtr(ResolvedSig),
    USize,
    ISize,
}

/// A node with its operands and everything it names resolved: an expression
/// tree.
pub enum ResolvedNode {
    Const(ResolvedConst),
    BinOp(Box<ResolvedNode>, Box<ResolvedNode>, BinOp),
    UnOp(Box<ResolvedNode>, UnOp),
    LdLoc(u32),
    LdLocA(u32),
    LdArg(u32),
    LdArgA(u32),
    Call(ResolvedMethodRef, Seq<ResolvedNode>),
    IntCast { input: Box<ResolvedNode>, target: Int, extend: ExtendKind },
    FloatCast { input: Box<ResolvedNode>, target: Float, is_signed: bool },
    RefToPtr(Box<ResolvedNode>),
    PtrCast(Box<ResolvedNode>, ResolvedPtrCast),
    LdFieldAdress { addr: Box<ResolvedNode>, field: ResolvedField },
    LdField { addr: Box<ResolvedNode>, field: ResolvedField },
    LdInd { addr: Box<ResolvedNode>, tpe: ResolvedType, volitale: bool },
    SizeOf(ResolvedType),
    GetException,
    IsInst(Box<ResolvedNode>, ResolvedType),
    CheckedCast(Box<ResolvedNode>, ResolvedType),
    CallI(Box<ResolvedNode>, ResolvedSig, Seq<ResolvedNode>),
    LocAlloc { size: Box<ResolvedNode> },
    LdStaticField(ResolvedStaticField),
    LdFtn(ResolvedMethodRef),
    LdTypeToken(ResolvedType),
    LdLen(Box<ResolvedNode>),
    LocAllocAlgined { tpe: ResolvedType, align: u64 },
    LdElelemRef { array: Box<ResolvedNode>, index: Box<ResolvedNode> },
    UnboxAny { object: Box<ResolvedNode>, tpe: ResolvedType },
}

/// A branch condition with its operands resolved.
pub enum ResolvedBranchCond {
    True(ResolvedNode),
    False(ResolvedNode),
    Eq(ResolvedNode, ResolvedNode),
    Ne(ResolvedNode, ResolvedNode),
    Lt(ResolvedNode, ResolvedNode, CmpKind),
    Gt(ResolvedNode, ResolvedNode, CmpKind),
}

/// A root with its operands and everything it names resolved: a statement.
pub enum ResolvedRoot {
    StLoc(u32, ResolvedNode),
    StArg(u32, ResolvedNode),
    Ret(ResolvedNode),
    Pop(ResolvedNode),
    Throw(ResolvedNode),
    VoidRet,
    Break,
    Nop,
    Branch(u32, u32, Option<ResolvedBranchCond>),
    SetField(ResolvedField, ResolvedNode, ResolvedNode),
    Call(ResolvedMethodRef, Seq<ResolvedNode>),
    StInd(ResolvedNode, ResolvedNode, ResolvedType, bool),
    InitBlk(ResolvedNode, ResolvedNode, ResolvedNode),
    CpBlk(ResolvedNode, ResolvedNode, ResolvedNode),
    CallI(ResolvedNode, ResolvedSig, Seq<ResolvedNode>),
    ExitSpecialRegion { target: u32, source: u32 },
    ReThrow,
    SetStaticField { field: ResolvedStaticField, val: ResolvedNode },
    SourceFileInfo { line_start: u32, line_len: u16, col_start: u16, col_len: u16, file: Seq<char> },
}

/// A block with its roots resolved, and its handlers likewise.
pub struct ResolvedBlock {
    pub roots: Seq<ResolvedRoot>,
    pub block_id: u32,
    pub handler: Option<Seq<ResolvedBlock>>,
}

/// The implementation of a method with everything it names resolved.
pub enum ResolvedMethodImpl {
    MethodBody { blocks: Seq<ResolvedBlock>, locals: Seq<(Option<Seq<char>>, ResolvedType)> },
    Extern { lib: Seq<char>, preserve_errno: bool },
    AliasFor(ResolvedMethodRef),
    Missing,
}

/// A method definition with everything it names resolved. The owner is
/// given by its class reference.
pub struct ResolvedMethodDef {
    pub access: Access,
    pub class: ResolvedClassRef,
    pub name: Seq<char>,
    pub sig: ResolvedSig,
    pub kind: MethodKind,
    pub implementation: ResolvedMethodImpl,
    pub arg_names: Seq<Option<Seq<char>>>,
}

/// A class definition with everything it names resolved.
pub struct ResolvedClassDef {
    pub name: Seq<char>,
    pub is_valuetype: bool,
    pub generics: u32,
    pub extends: Option<ResolvedClassRef>,
    pub fields: Seq<(ResolvedType, Seq<char>, Option<u32>)>,
    pub static_fields: Seq<(ResolvedType, Seq<char>, bool)>,
    pub methods: Seq<ResolvedMethodDef>,
    pub access: Access,
    pub explict_size: Option<u32>,
}

/// For each arena of an assembly, the tree that each of its handles resolves
/// to.
pub struct Resolved {
    pub types: Seq<ResolvedType>,
    pub class_refs: Seq<ResolvedClassRef>,
    pub sigs: Seq<ResolvedSig>,
    pub fields: Seq<ResolvedField>,
    pub statics: Seq<ResolvedStaticField>,
    pub method_refs: Seq<ResolvedMethodRef>,
    pub nodes: Seq<ResolvedNode>,
    pub roots: Seq<ResolvedRoot>,
    pub method_defs: Seq<ResolvedMethodDef>,
}

/// A resolved type is larger than each tree directly inside it.
pub proof fn lemma_type_parts(t: ResolvedType)
    ensures
        t is Ptr ==> decreases_to!(t => *t->Ptr_0),
        t is Ref ==> decreases_to!(t => *t->Ref_0),
        t is ClassRef ==> decreases_to!(t => *t->ClassRef_0),
        t is PlatformArray ==> decreases_to!(t => *t->elem),
        t is FnPtr ==> decreases_to!(t => *t->FnPtr_0),
{
}

/// A resolved class reference is larger than its generic arguments.
pub proof fn lemma_class_ref_parts(c: ResolvedClassRef)
    ensures
        decreases_to!(c => c.generics),
{
}

/// A resolved signature is larger than its argument types and its result
/// type.
pub proof fn lemma_sig_parts(s: ResolvedSig)
    ensures
        decreases_to!(s => s.inputs),
        decreases_to!(s => *s.output),
{
}

/// An expression tree is larger than each operand tree directly inside it.
pub proof fn lemma_node_parts(t: ResolvedNode)
    ensures
        t is BinOp ==> decreases_to!(t => *t->BinOp_0),
        t is BinOp ==> decreases_to!(t => *t->BinOp_1),
        t is UnOp ==> decreases_to!(t => *t->UnOp_0),
        t is Call ==> decreases_to!(t => t->Call_1),
        t is IntCast ==> decreases_to!(t => *t->IntCast_input),
        t is FloatCast ==> decreases_to!(t => *t->FloatCast_input),
        t is RefToPtr ==> decreases_to!(t => *t->RefToPtr_0),
        t is PtrCast ==> decreases_to!(t => *t->PtrCast_0),
        t is LdFieldAdress ==> decreases_to!(t => *t->LdFieldAdress_addr),
        t is LdField ==> decreases_to!(t => *t->LdField_addr),
        t is LdInd ==> decreases_to!(t => *t->LdInd_addr),
        t is IsInst ==> decreases_to!(t => *t->IsInst_0),
        t is CheckedCast ==> decreases_to!(t => *t->CheckedCast_0),
        t is CallI ==> decreases_to!(t => *t->CallI_0),
        t is CallI ==> decreases_to!(t => t->CallI_2),
        t is LocAlloc ==> decreases_to!(t => *t->LocAlloc_size),
        t is LdLen ==> decreases_to!(t => *t->LdLen_0),
        t is LdElelemRef ==> decreases_to!(t => *t->LdElelemRef_array),
        t is LdElelemRef ==> decreases_to!(t => *t->LdElelemRef_index),
        t is UnboxAny ==> decreases_to!(t => *t->UnboxAny_object),
{
}

} // verus!
