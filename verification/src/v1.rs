//! The legacy representation: expression trees that own their operands and
//! spell out every type, class and call site in place, with one opcode per
//! width and signedness. It is only read here, to be upgraded to the
//! interned representation.

use crate::cilnode::{BinOp, ExtendKind, MethodKind, UnOp};
use crate::resolved::{
    ResolvedClassRef, ResolvedConst, ResolvedField, ResolvedMethodRef, ResolvedNode,
    ResolvedPtrCast, ResolvedSig, ResolvedStaticField, ResolvedType,
};
use crate::tpe::{Float, GenericKind, Int};
use vstd::prelude::*;

verus! {

/// A type of the legacy representation.
#[derive(PartialEq, Eq, Hash, Debug)]
pub enum V1Type {
    Void,
    Bool,
    F16,
    F32,
    F64,
    F128,
    U8,
    U16,
    U32,
    U64,
    U128,
    USize,
    I8,
    I16,
    I32,
    I64,
    I128,
    ISize,
    /// A class
    DotnetType(Box<V1ClassRef>),
    Ptr(Box<V1Type>),
    ManagedReference(Box<V1Type>),
    /// The n-th generic parameter of the enclosing type
    GenericArg(u32),
    /// The n-th generic parameter of the called method
    CallGenericArg(u32),
    DotnetChar,
    DotnetString,
    DotnetObject,
    /// A pointer to a function
    DelegatePtr(Box<V1FnSig>),
    ManagedArray { element: Box<V1Type>, dims: u8 },
}

/// A reference to a class in the legacy representation.
#[derive(PartialEq, Eq, Hash, Debug)]
pub struct V1ClassRef {
    pub assembly: Option<String>,
    pub name_path: String,
    pub generics: Vec<V1Type>,
    pub is_valuetype: bool,
}

/// A function signature in the legacy representation.
#[derive(PartialEq, Eq, Hash, Debug)]
pub struct V1FnSig {
    pub inputs: Vec<V1Type>,
    pub output: V1Type,
}

/// What a call names in the legacy representation: the method, by class,
/// name and signature, and whether it is static. A site without a class
/// names a routine of the main module.
#[derive(PartialEq, Eq, Hash, Debug)]
pub struct V1CallSite {
    pub class: Option<V1ClassRef>,
    pub name: String,
    pub signature: V1FnSig,
    pub is_static: bool,
    pub generics: Vec<V1Type>,
}

impl V1CallSite {
    pub fn class(&self) -> (r: Option<&V1ClassRef>)
        ensures
            match r {
                Some(c) => self.class == Some(*c),
                None => self.class is None,
            },
    {
        match &self.class {
            Some(c) => Some(c),
            None => None,
        }
    }

    pub fn name(&self) -> (r: &str)
        ensures
            r@ == self.name@,
    {
        self.name.as_str()
    }

    pub fn signature(&self) -> (r: &V1FnSig)
        ensures
            *r == self.signature,
    {
        &self.signature
    }

    pub fn is_static(&self) -> (r: bool)
        ensures
            r == self.is_static,
    {
        self.is_static
    }

    pub fn generics(&self) -> (r: &Vec<V1Type>)
        ensures
            *r == self.generics,
    {
        &self.generics
    }
}

/// Names an instance field in the legacy representation.
#[derive(PartialEq, Eq, Hash, Debug)]
pub struct V1FieldDesc {
    pub owner: V1ClassRef,
    pub tpe: V1Type,
    pub name: String,
}

/// Names a static field in the legacy representation. A field without an
/// owner belongs to the main module.
#[derive(PartialEq, Eq, Hash, Debug)]
pub struct V1StaticFieldDesc {
    pub owner: Option<V1ClassRef>,
    pub tpe: V1Type,
    pub name: String,
}

/// A call in the legacy representation: the arguments and the call site.
#[derive(PartialEq, Eq, Hash, Debug)]
pub struct V1CallArgs {
    pub args: Vec<V1Node>,
    pub site: V1CallSite,
}

/// A node of the legacy representation.
#[derive(PartialEq, Eq, Hash, Debug)]
pub enum V1Node {
    // Variable access
    LDArg(u32),
    LDLoc(u32),
    LDArgA(u32),
    LDLocA(u32),
    // Loads through a pointer, one opcode per loaded type
    LDIndBool { ptr: Box<V1Node> },
    LDIndU8 { ptr: Box<V1Node> },
    LDIndU16 { ptr: Box<V1Node> },
    LDIndU32 { ptr: Box<V1Node> },
    LDIndU64 { ptr: Box<V1Node> },
    LDIndUSize { ptr: Box<V1Node> },
    LDIndI8 { ptr: Box<V1Node> },
    LDIndI16 { ptr: Box<V1Node> },
    LDIndI32 { ptr: Box<V1Node> },
    LDIndI64 { ptr: Box<V1Node> },
    LDIndISize { ptr: Box<V1Node> },
    LDIndF32 { ptr: Box<V1Node> },
    LDIndF64 { ptr: Box<V1Node> },
    LdObj { ptr: Box<V1Node>, obj: Box<V1Type> },
    LDIndPtr { ptr: Box<V1Node>, loaded_ptr: Box<V1Type> },
    // Casts, one opcode per target
    ZeroExtendToU64(Box<V1Node>),
    SignExtendToU64(Box<V1Node>),
    ZeroExtendToUSize(Box<V1Node>),
    SignExtendToUSize(Box<V1Node>),
    ConvU8(Box<V1Node>),
    ConvU16(Box<V1Node>),
    ConvU32(Box<V1Node>),
    SignExtendToI64(Box<V1Node>),
    ZeroExtendToISize(Box<V1Node>),
    SignExtendToISize(Box<V1Node>),
    ConvI8(Box<V1Node>),
    ConvI16(Box<V1Node>),
    ConvI32(Box<V1Node>),
    ConvF32(Box<V1Node>),
    ConvF64(Box<V1Node>),
    ConvF64Un(Box<V1Node>),
    MRefToRawPtr(Box<V1Node>),
    CastPtr { val: Box<V1Node>, new_ptr: Box<V1Type> },
    // Binary operations
    Add(Box<V1Node>, Box<V1Node>),
    Sub(Box<V1Node>, Box<V1Node>),
    Mul(Box<V1Node>, Box<V1Node>),
    Eq(Box<V1Node>, Box<V1Node>),
    Or(Box<V1Node>, Box<V1Node>),
    XOr(Box<V1Node>, Box<V1Node>),
    And(Box<V1Node>, Box<V1Node>),
    LtUn(Box<V1Node>, Box<V1Node>),
    Lt(Box<V1Node>, Box<V1Node>),
    GtUn(Box<V1Node>, Box<V1Node>),
    Gt(Box<V1Node>, Box<V1Node>),
    Rem(Box<V1Node>, Box<V1Node>),
    RemUn(Box<V1Node>, Box<V1Node>),
    Shl(Box<V1Node>, Box<V1Node>),
    Shr(Box<V1Node>, Box<V1Node>),
    ShrUn(Box<V1Node>, Box<V1Node>),
    Div(Box<V1Node>, Box<V1Node>),
    DivUn(Box<V1Node>, Box<V1Node>),
    // Unary operations
    Not(Box<V1Node>),
    Neg(Box<V1Node>),
    // Field access
    LDField { addr: Box<V1Node>, field: Box<V1FieldDesc> },
    LDFieldAdress { addr: Box<V1Node>, field: Box<V1FieldDesc> },
    // Calls
    Call(Box<V1CallArgs>),
    CallVirt(Box<V1CallArgs>),
    NewObj(Box<V1CallArgs>),
    CallI(Box<(V1FnSig, V1Node, Vec<V1Node>)>),
    LDFtn(Box<V1CallSite>),
    // Constants; floating-point constants as the bits of their encoding
    LdStr(String),
    LdcU64(u64),
    LdcU32(u32),
    LdcU16(u16),
    LdcU8(u8),
    LdcI64(i64),
    LdcI32(i32),
    LdcI16(i16),
    LdcI8(i8),
    LdcF64(u64),
    LdcF32(u32),
    LdFalse,
    LdTrue,
    // Types and objects
    SizeOf(Box<V1Type>),
    LDTypeToken(Box<V1Type>),
    IsInst(Box<(V1Node, V1ClassRef)>),
    CheckedCast(Box<(V1Node, V1ClassRef)>),
    UnboxAny(Box<V1Node>, Box<V1Type>),
    GetException,
    // Memory
    LocAlloc { size: Box<V1Node> },
    LocAllocAligned { tpe: Box<V1Type>, align: u64 },
    LDStaticField(Box<V1StaticFieldDesc>),
    /// Marks the load inside it as volatile
    Volatile(Box<V1Node>),
    LDLen { arr: Box<V1Node> },
    LDElelemRef { arr: Box<V1Node>, idx: Box<V1Node> },
    // Opcodes that the current representation has no counterpart for
    /// Hides a value from the optimizer
    BlackBox(Box<V1Node>),
    /// Loads the address of a global allocation
    LoadGlobalAllocPtr { alloc_id: u64 },
    /// Loads the address of a constant value
    PointerToConstValue(u128),
    /// Reads the value on top of the evaluation stack
    GetStackTop,
    /// Passes a value through a run-time inspection
    InspectValue(Box<V1Node>),
    /// Reinterprets a pointer
    TransmutePtr { val: Box<V1Node>, new_ptr: Box<V1Type> },
    /// Loads the address of the current temporary local
    LoadAddresOfTMPLocal,
    /// Loads the current temporary local
    LoadTMPLocal,
    /// Loads the address of a static field
    AddressOfStaticField(Box<V1StaticFieldDesc>),
}

/// The legacy opcodes that cannot be upgraded.
#[derive(Clone, Copy, PartialEq, Eq, Hash, Debug, Structural)]
pub enum V1Opcode {
    BlackBox,
    LoadGlobalAllocPtr,
    PointerToConstValue,
    GetStackTop,
    InspectValue,
    TransmutePtr,
    LoadAddresOfTMPLocal,
    LoadTMPLocal,
    AddressOfStaticField,
}

/// The ways in which a legacy node can contradict itself.
#[derive(Clone, Copy, PartialEq, Eq, Hash, Debug, Structural)]
pub enum Violation {
    /// A pointer cast to a type that is neither a pointer nor an integer of
    /// the width of a pointer.
    NotAPointer,
    /// A virtual call of a static method.
    StaticVirtualCall,
    /// The construction of an object by a static method.
    StaticConstructor,
    /// A volatile marker on a node that is not a load through a pointer.
    VolatileNotALoad,
}

/// Why a legacy node could not be upgraded.
#[derive(Clone, Copy, PartialEq, Eq, Hash, Debug, Structural)]
pub enum UpgradeError {
    /// The node contradicts itself.
    Violation(Violation),
    /// The current representation has no counterpart for the opcode.
    Unimplemented(V1Opcode),
}

/// The type that a legacy type stands for.
pub open spec fn upgrade_type(t: &V1Type) -> ResolvedType
    decreases t,
{
    match *t {
        V1Type::Void => ResolvedType::Void,
        V1Type::Bool => ResolvedType::Bool,
        V1Type::F16 => ResolvedType::Float(Float::F16),
        V1Type::F32 => ResolvedType::Float(Float::F32),
        V1Type::F64 => ResolvedType::Float(Float::F64),
        V1Type::F128 => ResolvedType::Float(Float::F128),
        V1Type::U8 => ResolvedType::Int(Int::U8),
        V1Type::U16 => ResolvedType::Int(Int::U16),
        V1Type::U32 => ResolvedType::Int(Int::U32),
        V1Type::U64 => ResolvedType::Int(Int::U64),
        V1Type::U128 => ResolvedType::Int(Int::U128),
        V1Type::USize => ResolvedType::Int(Int::USize),
        V1Type::I8 => ResolvedType::Int(Int::I8),
        V1Type::I16 => ResolvedType::Int(Int::I16),
        V1Type::I32 => ResolvedType::Int(Int::I32),
        V1Type::I64 => ResolvedType::Int(Int::I64),
        V1Type::I128 => ResolvedType::Int(Int::I128),
        V1Type::ISize => ResolvedType::Int(Int::ISize),
        V1Type::DotnetType(class) => ResolvedType::ClassRef(Box::new(upgrade_class_ref(&*class))),
        V1Type::Ptr(inner) => ResolvedType::Ptr(Box::new(upgrade_type(&*inner))),
        V1Type::ManagedReference(inner) => ResolvedType::Ref(Box::new(upgrade_type(&*inner))),
        V1Type::GenericArg(n) => ResolvedType::PlatformGeneric(n, GenericKind::TypeGeneric),
        V1Type::CallGenericArg(n) => ResolvedType::PlatformGeneric(n, GenericKind::CallGeneric),
        V1Type::DotnetChar => ResolvedType::PlatformChar,
        V1Type::DotnetString => ResolvedType::PlatformString,
        V1Type::DotnetObject => ResolvedType::PlatformObject,
        V1Type::DelegatePtr(sig) => ResolvedType::FnPtr(Box::new(upgrade_sig(&*sig))),
        V1Type::ManagedArray { element, dims } => ResolvedType::PlatformArray {
            elem: Box::new(upgrade_type(&*element)),
            dims,
        },
    }
}

/// The types that a list of legacy types stands for.
pub open spec fn upgrade_types(ts: Seq<V1Type>) -> Seq<ResolvedType>
    decreases ts,
{
    Seq::new(
        ts.len(),
        |i: int|
            if 0 <= i < ts.len() {
                upgrade_type(&ts[i])
            } else {
                arbitrary()
            },
    )
}

/// The class reference that a legacy class reference stands for.
pub open spec fn upgrade_class_ref(c: &V1ClassRef) -> ResolvedClassRef
    decreases c,
{
    ResolvedClassRef {
        name: c.name_path@,
        module: match c.assembly {
            Some(a) => Some(a@),
            None => None,
        },
        is_valuetype: c.is_valuetype,
        generics: upgrade_types(c.generics@),
    }
}

/// The signature that a legacy signature stands for.
pub open spec fn upgrade_sig(s: &V1FnSig) -> ResolvedSig
    decreases s,
{
    ResolvedSig { inputs: upgrade_types(s.inputs@), output: Box::new(upgrade_type(&s.output)) }
}

/// The field descriptor that a legacy field descriptor stands for.
pub open spec fn upgrade_field(f: &V1FieldDesc) -> ResolvedField {
    ResolvedField { owner: upgrade_class_ref(&f.owner), name: f.name@, tpe: upgrade_type(&f.tpe) }
}

/// The class that owns what a legacy descriptor names: the class it gives,
/// or the main module where it gives none.
pub open spec fn upgrade_owner(owner: Option<V1ClassRef>, main: ResolvedClassRef) -> ResolvedClassRef {
    match owner {
        Some(c) => upgrade_class_ref(&c),
        None => main,
    }
}

/// The static-field descriptor that a legacy one stands for.
pub open spec fn upgrade_static(f: &V1StaticFieldDesc, main: ResolvedClassRef) -> ResolvedStaticField {
    ResolvedStaticField {
        owner: upgrade_owner(f.owner, main),
        name: f.name@,
        tpe: upgrade_type(&f.tpe),
    }
}

/// The method reference that a legacy call site stands for when it is
/// called in the way `kind`.
pub open spec fn upgrade_site(site: &V1CallSite, kind: MethodKind, main: ResolvedClassRef) -> ResolvedMethodRef {
    ResolvedMethodRef {
        class: upgrade_owner(site.class, main),
        name: site.name@,
        sig: upgrade_sig(&site.signature),
        kind,
        generics: upgrade_types(site.generics@),
    }
}

/// What a pointer cast to the legacy type `t` produces.
pub open spec fn upgrade_ptr_cast(t: &V1Type) -> Result<ResolvedPtrCast, UpgradeError> {
    match *t {
        V1Type::USize => Ok(ResolvedPtrCast::USize),
        V1Type::ISize => Ok(ResolvedPtrCast::ISize),
        V1Type::Ptr(inner) => Ok(ResolvedPtrCast::Ptr(upgrade_type(&*inner))),
        V1Type::ManagedReference(inner) => Ok(ResolvedPtrCast::Ref(upgrade_type(&*inner))),
        V1Type::DelegatePtr(sig) => Ok(ResolvedPtrCast::FnPtr(upgrade_sig(&*sig))),
        _ => Err(UpgradeError::Violation(Violation::NotAPointer)),
    }
}

// How each shape of node is put together from its upgraded operands. The
// operands are upgraded left to right and the first error is the error of
// the whole.
pub open spec fn load_tree(ptr: Result<ResolvedNode, UpgradeError>, tpe: ResolvedType) -> Result<
    ResolvedNode,
    UpgradeError,
> {
    match ptr {
        Ok(addr) => Ok(ResolvedNode::LdInd { addr: Box::new(addr), tpe, volitale: false }),
        Err(e) => Err(e),
    }
}

pub open spec fn int_cast_tree(
    input: Result<ResolvedNode, UpgradeError>,
    target: Int,
    extend: ExtendKind,
) -> Result<ResolvedNode, UpgradeError> {
    match input {
        Ok(input) => Ok(ResolvedNode::IntCast { input: Box::new(input), target, extend }),
        Err(e) => Err(e),
    }
}

pub open spec fn float_cast_tree(
    input: Result<ResolvedNode, UpgradeError>,
    target: Float,
    is_signed: bool,
) -> Result<ResolvedNode, UpgradeError> {
    match input {
        Ok(input) => Ok(ResolvedNode::FloatCast { input: Box::new(input), target, is_signed }),
        Err(e) => Err(e),
    }
}

pub open spec fn ref_to_ptr_tree(input: Result<ResolvedNode, UpgradeError>) -> Result<
    ResolvedNode,
    UpgradeError,
> {
    match input {
        Ok(input) => Ok(ResolvedNode::RefToPtr(Box::new(input))),
        Err(e) => Err(e),
    }
}

pub open spec fn cast_ptr_tree(
    val: Result<ResolvedNode, UpgradeError>,
    cast_res: Result<ResolvedPtrCast, UpgradeError>,
) -> Result<ResolvedNode, UpgradeError> {
    match val {
        Ok(val) => match cast_res {
            Ok(cast_res) => Ok(ResolvedNode::PtrCast(Box::new(val), cast_res)),
            Err(e) => Err(e),
        },
        Err(e) => Err(e),
    }
}

pub open spec fn binop_tree(
    lhs: Result<ResolvedNode, UpgradeError>,
    rhs: Result<ResolvedNode, UpgradeError>,
    op: BinOp,
) -> Result<ResolvedNode, UpgradeError> {
    match lhs {
        Ok(lhs) => match rhs {
            Ok(rhs) => Ok(ResolvedNode::BinOp(Box::new(lhs), Box::new(rhs), op)),
            Err(e) => Err(e),
        },
        Err(e) => Err(e),
    }
}

pub open spec fn unop_tree(val: Result<ResolvedNode, UpgradeError>, op: UnOp) -> Result<
    ResolvedNode,
    UpgradeError,
> {
    match val {
        Ok(val) => Ok(ResolvedNode::UnOp(Box::new(val), op)),
        Err(e) => Err(e),
    }
}

pub open spec fn ld_field_tree(addr: Result<ResolvedNode, UpgradeError>, field: ResolvedField) -> Result<
    ResolvedNode,
    UpgradeError,
> {
    match addr {
        Ok(addr) => Ok(ResolvedNode::LdField { addr: Box::new(addr), field }),
        Err(e) => Err(e),
    }
}

pub open spec fn ld_field_address_tree(
    addr: Result<ResolvedNode, UpgradeError>,
    field: ResolvedField,
) -> Result<ResolvedNode, UpgradeError> {
    match addr {
        Ok(addr) => Ok(ResolvedNode::LdFieldAdress { addr: Box::new(addr), field }),
        Err(e) => Err(e),
    }
}

/// A call: the arguments first, then the way of calling, which can itself
/// be a contradiction.
pub open spec fn call_tree(
    args: Result<Seq<ResolvedNode>, UpgradeError>,
    site: &V1CallSite,
    kind: Result<MethodKind, UpgradeError>,
    main: ResolvedClassRef,
) -> Result<ResolvedNode, UpgradeError> {
    match args {
        Ok(args) => match kind {
            Ok(kind) => Ok(ResolvedNode::Call(upgrade_site(site, kind, main), args)),
            Err(e) => Err(e),
        },
        Err(e) => Err(e),
    }
}

pub open spec fn call_indirect_tree(
    sig: ResolvedSig,
    fnptr: Result<ResolvedNode, UpgradeError>,
    args: Result<Seq<ResolvedNode>, UpgradeError>,
) -> Result<ResolvedNode, UpgradeError> {
    match fnptr {
        Ok(fnptr) => match args {
            Ok(args) => Ok(ResolvedNode::CallI(Box::new(fnptr), sig, args)),
            Err(e) => Err(e),
        },
        Err(e) => Err(e),
    }
}

pub open spec fn is_inst_tree(val: Result<ResolvedNode, UpgradeError>, class: ResolvedClassRef) -> Result<
    ResolvedNode,
    UpgradeError,
> {
    match val {
        Ok(val) => Ok(
            ResolvedNode::IsInst(Box::new(val), ResolvedType::ClassRef(Box::new(class))),
        ),
        Err(e) => Err(e),
    }
}

pub open spec fn checked_cast_tree(
    val: Result<ResolvedNode, UpgradeError>,
    class: ResolvedClassRef,
) -> Result<ResolvedNode, UpgradeError> {
    match val {
        Ok(val) => Ok(
            ResolvedNode::CheckedCast(Box::new(val), ResolvedType::ClassRef(Box::new(class))),
        ),
        Err(e) => Err(e),
    }
}

pub open spec fn unbox_any_tree(object: Result<ResolvedNode, UpgradeError>, tpe: ResolvedType) -> Result<
    ResolvedNode,
    UpgradeError,
> {
    match object {
        Ok(object) => Ok(ResolvedNode::UnboxAny { object: Box::new(object), tpe }),
        Err(e) => Err(e),
    }
}

pub open spec fn loc_alloc_tree(size: Result<ResolvedNode, UpgradeError>) -> Result<
    ResolvedNode,
    UpgradeError,
> {
    match size {
        Ok(size) => Ok(ResolvedNode::LocAlloc { size: Box::new(size) }),
        Err(e) => Err(e),
    }
}

/// The load inside a volatile marker, marked volatile. Anything but a load
/// inside the marker is a contradiction.
pub open spec fn volatile_tree(inner: Result<ResolvedNode, UpgradeError>) -> Result<
    ResolvedNode,
    UpgradeError,
> {
    match inner {
        Ok(ResolvedNode::LdInd { addr, tpe, .. }) => Ok(
            ResolvedNode::LdInd { addr, tpe, volitale: true },
        ),
        Ok(_) => Err(UpgradeError::Violation(Violation::VolatileNotALoad)),
        Err(e) => Err(e),
    }
}

pub open spec fn ld_len_tree(arr: Result<ResolvedNode, UpgradeError>) -> Result<
    ResolvedNode,
    UpgradeError,
> {
    match arr {
        Ok(arr) => Ok(ResolvedNode::LdLen(Box::new(arr))),
        Err(e) => Err(e),
    }
}

pub open spec fn ld_elem_ref_tree(
    arr: Result<ResolvedNode, UpgradeError>,
    idx: Result<ResolvedNode, UpgradeError>,
) -> Result<ResolvedNode, UpgradeError> {
    match arr {
        Ok(arr) => match idx {
            Ok(idx) => Ok(ResolvedNode::LdElelemRef { array: Box::new(arr), index: Box::new(idx) }),
            Err(e) => Err(e),
        },
        Err(e) => Err(e),
    }
}

/// The expression tree that a legacy node stands for, or why it stands for
/// none. `main` is the class of the main module, the owner of every call
/// site and static field that names no class. Each legacy opcode has
/// exactly one outcome: its counterpart, with width, signedness and kind of
/// extension made explicit, or an error.
pub open spec fn upgrade_tree(v1: &V1Node, main: ResolvedClassRef) -> Result<ResolvedNode, UpgradeError>
    decreases v1,
{
    match *v1 {
        V1Node::LDArg(arg) => Ok(ResolvedNode::LdArg(arg)),
        V1Node::LDLoc(loc) => Ok(ResolvedNode::LdLoc(loc)),
        V1Node::LDArgA(arg) => Ok(ResolvedNode::LdArgA(arg)),
        V1Node::LDLocA(loc) => Ok(ResolvedNode::LdLocA(loc)),
        V1Node::LDIndBool { ptr } => load_tree(upgrade_tree(&*ptr, main), ResolvedType::Bool),
        V1Node::LDIndU8 { ptr } => load_tree(upgrade_tree(&*ptr, main), ResolvedType::Int(Int::U8)),
        V1Node::LDIndU16 { ptr } => load_tree(
            upgrade_tree(&*ptr, main),
            ResolvedType::Int(Int::U16),
        ),
        V1Node::LDIndU32 { ptr } => load_tree(
            upgrade_tree(&*ptr, main),
            ResolvedType::Int(Int::U32),
        ),
        V1Node::LDIndU64 { ptr } => load_tree(
            upgrade_tree(&*ptr, main),
            ResolvedType::Int(Int::U64),
        ),
        V1Node::LDIndUSize { ptr } => load_tree(
            upgrade_tree(&*ptr, main),
            ResolvedType::Int(Int::USize),
        ),
        V1Node::LDIndI8 { ptr } => load_tree(upgrade_tree(&*ptr, main), ResolvedType::Int(Int::I8)),
        V1Node::LDIndI16 { ptr } => load_tree(
            upgrade_tree(&*ptr, main),
            ResolvedType::Int(Int::I16),
        ),
        V1Node::LDIndI32 { ptr } => load_tree(
            upgrade_tree(&*ptr, main),
            ResolvedType::Int(Int::I32),
        ),
        V1Node::LDIndI64 { ptr } => load_tree(
            upgrade_tree(&*ptr, main),
            ResolvedType::Int(Int::I64),
        ),
        V1Node::LDIndISize { ptr } => load_tree(
            upgrade_tree(&*ptr, main),
            ResolvedType::Int(Int::ISize),
        ),
        V1Node::LDIndF32 { ptr } => load_tree(
            upgrade_tree(&*ptr, main),
            ResolvedType::Float(Float::F32),
        ),
        V1Node::LDIndF64 { ptr } => load_tree(
            upgrade_tree(&*ptr, main),
            ResolvedType::Float(Float::F64),
        ),
        V1Node::LdObj { ptr, obj } => load_tree(upgrade_tree(&*ptr, main), upgrade_type(&*obj)),
        V1Node::LDIndPtr { ptr, loaded_ptr } => load_tree(
            upgrade_tree(&*ptr, main),
            upgrade_type(&*loaded_ptr),
        ),
        V1Node::ZeroExtendToU64(inner) => int_cast_tree(
            upgrade_tree(&*inner, main),
            Int::U64,
            ExtendKind::ZeroExtend,
        ),
        V1Node::SignExtendToU64(inner) => int_cast_tree(
            upgrade_tree(&*inner, main),
            Int::U64,
            ExtendKind::SignExtend,
        ),
        V1Node::ZeroExtendToUSize(inner) => int_cast_tree(
            upgrade_tree(&*inner, main),
            Int::USize,
            ExtendKind::ZeroExtend,
        ),
        V1Node::SignExtendToUSize(inner) => int_cast_tree(
            upgrade_tree(&*inner, main),
            Int::USize,
            ExtendKind::SignExtend,
        ),
        V1Node::ConvU8(inner) => int_cast_tree(
            upgrade_tree(&*inner, main),
            Int::U8,
            ExtendKind::ZeroExtend,
        ),
        V1Node::ConvU16(inner) => int_cast_tree(
            upgrade_tree(&*inner, main),
            Int::U16,
            ExtendKind::ZeroExtend,
        ),
        V1Node::ConvU32(inner) => int_cast_tree(
            upgrade_tree(&*inner, main),
            Int::U32,
            ExtendKind::ZeroExtend,
        ),
        V1Node::SignExtendToI64(inner) => int_cast_tree(
            upgrade_tree(&*inner, main),
            Int::I64,
            ExtendKind::SignExtend,
        ),
        V1Node::ZeroExtendToISize(inner) => int_cast_tree(
            upgrade_tree(&*inner, main),
            Int::ISize,
            ExtendKind::ZeroExtend,
        ),
        V1Node::SignExtendToISize(inner) => int_cast_tree(
            upgrade_tree(&*inner, main),
            Int::ISize,
            ExtendKind::SignExtend,
        ),
        V1Node::ConvI8(inner) => int_cast_tree(
            upgrade_tree(&*inner, main),
            Int::I8,
            ExtendKind::SignExtend,
        ),
        V1Node::ConvI16(inner) => int_cast_tree(
            upgrade_tree(&*inner, main),
            Int::I16,
            ExtendKind::SignExtend,
        ),
        V1Node::ConvI32(inner) => int_cast_tree(
            upgrade_tree(&*inner, main),
            Int::I32,
            ExtendKind::SignExtend,
        ),
        V1Node::ConvF32(inner) => float_cast_tree(upgrade_tree(&*inner, main), Float::F32, true),
        V1Node::ConvF64(inner) => float_cast_tree(upgrade_tree(&*inner, main), Float::F64, true),
        V1Node::ConvF64Un(inner) => float_cast_tree(upgrade_tree(&*inner, main), Float::F64, false),
        V1Node::MRefToRawPtr(inner) => ref_to_ptr_tree(upgrade_tree(&*inner, main)),
        V1Node::CastPtr { val, new_ptr } => cast_ptr_tree(
            upgrade_tree(&*val, main),
            upgrade_ptr_cast(&*new_ptr),
        ),
        V1Node::Add(lhs, rhs) => binop_tree(
            upgrade_tree(&*lhs, main),
            upgrade_tree(&*rhs, main),
            BinOp::Add,
        ),
        V1Node::Sub(lhs, rhs) => binop_tree(
            upgrade_tree(&*lhs, main),
            upgrade_tree(&*rhs, main),
            BinOp::Sub,
        ),
        V1Node::Mul(lhs, rhs) => binop_tree(
            upgrade_tree(&*lhs, main),
            upgrade_tree(&*rhs, main),
            BinOp::Mul,
        ),
        V1Node::Eq(lhs, rhs) => binop_tree(
            upgrade_tree(&*lhs, main),
            upgrade_tree(&*rhs, main),
            BinOp::Eq,
        ),
        V1Node::Or(lhs, rhs) => binop_tree(
            upgrade_tree(&*lhs, main),
            upgrade_tree(&*rhs, main),
            BinOp::Or,
        ),
        V1Node::XOr(lhs, rhs) => binop_tree(
            upgrade_tree(&*lhs, main),
            upgrade_tree(&*rhs, main),
            BinOp::XOr,
        ),
        V1Node::And(lhs, rhs) => binop_tree(
            upgrade_tree(&*lhs, main),
            upgrade_tree(&*rhs, main),
            BinOp::And,
        ),
        V1Node::LtUn(lhs, rhs) => binop_tree(
            upgrade_tree(&*lhs, main),
            upgrade_tree(&*rhs, main),
            BinOp::LtUn,
        ),
        V1Node::Lt(lhs, rhs) => binop_tree(
            upgrade_tree(&*lhs, main),
            upgrade_tree(&*rhs, main),
            BinOp::Lt,
        ),
        V1Node::GtUn(lhs, rhs) => binop_tree(
            upgrade_tree(&*lhs, main),
            upgrade_tree(&*rhs, main),
            BinOp::GtUn,
        ),
        V1Node::Gt(lhs, rhs) => binop_tree(
            upgrade_tree(&*lhs, main),
            upgrade_tree(&*rhs, main),
            BinOp::Gt,
        ),
        V1Node::Rem(lhs, rhs) => binop_tree(
            upgrade_tree(&*lhs, main),
            upgrade_tree(&*rhs, main),
            BinOp::Rem,
        ),
        V1Node::RemUn(lhs, rhs) => binop_tree(
            upgrade_tree(&*lhs, main),
            upgrade_tree(&*rhs, main),
            BinOp::RemUn,
        ),
        V1Node::Shl(lhs, rhs) => binop_tree(
            upgrade_tree(&*lhs, main),
            upgrade_tree(&*rhs, main),
            BinOp::Shl,
        ),
        V1Node::Shr(lhs, rhs) => binop_tree(
            upgrade_tree(&*lhs, main),
            upgrade_tree(&*rhs, main),
            BinOp::Shr,
        ),
        V1Node::ShrUn(lhs, rhs) => binop_tree(
            upgrade_tree(&*lhs, main),
            upgrade_tree(&*rhs, main),
            BinOp::ShrUn,
        ),
        V1Node::Div(lhs, rhs) => binop_tree(
            upgrade_tree(&*lhs, main),
            upgrade_tree(&*rhs, main),
            BinOp::Div,
        ),
        V1Node::DivUn(lhs, rhs) => binop_tree(
            upgrade_tree(&*lhs, main),
            upgrade_tree(&*rhs, main),
            BinOp::DivUn,
        ),
        V1Node::Not(val) => unop_tree(upgrade_tree(&*val, main), UnOp::Not),
        V1Node::Neg(val) => unop_tree(upgrade_tree(&*val, main), UnOp::Neg),
        V1Node::LDField { addr, field } => ld_field_tree(
            upgrade_tree(&*addr, main),
            upgrade_field(&*field),
        ),
        V1Node::LDFieldAdress { addr, field } => ld_field_address_tree(
            upgrade_tree(&*addr, main),
            upgrade_field(&*field),
        ),
        V1Node::Call(callargs) => call_tree(
            upgrade_trees(callargs.args@, main),
            &callargs.site,
            if callargs.site.is_static {
                Ok(MethodKind::Static)
            } else {
                Ok(MethodKind::Instance)
            },
            main,
        ),
        V1Node::CallVirt(callargs) => call_tree(
            upgrade_trees(callargs.args@, main),
            &callargs.site,
            if callargs.site.is_static {
                Err(UpgradeError::Violation(Violation::StaticVirtualCall))
            } else {
                Ok(MethodKind::Virtual)
            },
            main,
        ),
        V1Node::NewObj(callargs) => call_tree(
            upgrade_trees(callargs.args@, main),
            &callargs.site,
            if callargs.site.is_static {
                Err(UpgradeError::Violation(Violation::StaticConstructor))
            } else {
                Ok(MethodKind::Constructor)
            },
            main,
        ),
        V1Node::CallI(sig_ptr_args) => call_indirect_tree(
            upgrade_sig(&sig_ptr_args.0),
            upgrade_tree(&sig_ptr_args.1, main),
            upgrade_trees(sig_ptr_args.2@, main),
        ),
        V1Node::LDFtn(site) => Ok(
            ResolvedNode::LdFtn(
                upgrade_site(
                    &*site,
                    if site.is_static {
                        MethodKind::Static
                    } else {
                        MethodKind::Instance
                    },
                    main,
                ),
            ),
        ),
        V1Node::LdStr(string) => Ok(ResolvedNode::Const(ResolvedConst::PlatformString(string@))),
        V1Node::LdcU64(val) => Ok(ResolvedNode::Const(ResolvedConst::U64(val))),
        V1Node::LdcU32(val) => Ok(ResolvedNode::Const(ResolvedConst::U32(val))),
        V1Node::LdcU16(val) => Ok(ResolvedNode::Const(ResolvedConst::U16(val))),
        V1Node::LdcU8(val) => Ok(ResolvedNode::Const(ResolvedConst::U8(val))),
        V1Node::LdcI64(val) => Ok(ResolvedNode::Const(ResolvedConst::I64(val))),
        V1Node::LdcI32(val) => Ok(ResolvedNode::Const(ResolvedConst::I32(val))),
        V1Node::LdcI16(val) => Ok(ResolvedNode::Const(ResolvedConst::I16(val))),
        V1Node::LdcI8(val) => Ok(ResolvedNode::Const(ResolvedConst::I8(val))),
        V1Node::LdcF64(val) => Ok(ResolvedNode::Const(ResolvedConst::F64(val))),
        V1Node::LdcF32(val) => Ok(ResolvedNode::Const(ResolvedConst::F32(val))),
        V1Node::LdFalse => Ok(ResolvedNode::Const(ResolvedConst::Bool(false))),
        V1Node::LdTrue => Ok(ResolvedNode::Const(ResolvedConst::Bool(true))),
        V1Node::SizeOf(tpe) => Ok(ResolvedNode::SizeOf(upgrade_type(&*tpe))),
        V1Node::LDTypeToken(tpe) => Ok(ResolvedNode::LdTypeToken(upgrade_type(&*tpe))),
        V1Node::IsInst(combined) => is_inst_tree(
            upgrade_tree(&combined.0, main),
            upgrade_class_ref(&combined.1),
        ),
        V1Node::CheckedCast(combined) => checked_cast_tree(
            upgrade_tree(&combined.0, main),
            upgrade_class_ref(&combined.1),
        ),
        V1Node::UnboxAny(object, tpe) => unbox_any_tree(
            upgrade_tree(&*object, main),
            upgrade_type(&*tpe),
        ),
        V1Node::GetException => Ok(ResolvedNode::GetException),
        V1Node::LocAlloc { size } => loc_alloc_tree(upgrade_tree(&*size, main)),
        V1Node::LocAllocAligned { tpe, align } => Ok(
            ResolvedNode::LocAllocAlgined { tpe: upgrade_type(&*tpe), align },
        ),
        V1Node::LDStaticField(sfld) => Ok(
            ResolvedNode::LdStaticField(upgrade_static(&*sfld, main)),
        ),
        V1Node::Volatile(inner) => volatile_tree(upgrade_tree(&*inner, main)),
        V1Node::LDLen { arr } => ld_len_tree(upgrade_tree(&*arr, main)),
        V1Node::LDElelemRef { arr, idx } => ld_elem_ref_tree(
            upgrade_tree(&*arr, main),
            upgrade_tree(&*idx, main),
        ),
        V1Node::BlackBox(_) => Err(UpgradeError::Unimplemented(V1Opcode::BlackBox)),
        V1Node::LoadGlobalAllocPtr { .. } => Err(
            UpgradeError::Unimplemented(V1Opcode::LoadGlobalAllocPtr),
        ),
        V1Node::PointerToConstValue(_) => Err(
            UpgradeError::Unimplemented(V1Opcode::PointerToConstValue),
        ),
        V1Node::GetStackTop => Err(UpgradeError::Unimplemented(V1Opcode::GetStackTop)),
        V1Node::InspectValue(_) => Err(UpgradeError::Unimplemented(V1Opcode::InspectValue)),
        V1Node::TransmutePtr { .. } => Err(UpgradeError::Unimplemented(V1Opcode::TransmutePtr)),
        V1Node::LoadAddresOfTMPLocal => Err(
            UpgradeError::Unimplemented(V1Opcode::LoadAddresOfTMPLocal),
        ),
        V1Node::LoadTMPLocal => Err(UpgradeError::Unimplemented(V1Opcode::LoadTMPLocal)),
        V1Node::AddressOfStaticField(_) => Err(
            UpgradeError::Unimplemented(V1Opcode::AddressOfStaticField),
        ),
    }
}

/// The expression trees that a list of legacy nodes stands for, or the
/// error of the first node that stands for none.
pub open spec fn upgrade_trees(args: Seq<V1Node>, main: ResolvedClassRef) -> Result<
    Seq<ResolvedNode>,
    UpgradeError,
>
    decreases args,
{
    if args.len() == 0 {
        Ok(Seq::empty())
    } else {
        match upgrade_trees(args.drop_last(), main) {
            Ok(init) => match upgrade_tree(&args.last(), main) {
                Ok(last) => Ok(init.push(last)),
                Err(e) => Err(e),
            },
            Err(e) => Err(e),
        }
    }
}

/// An error among the first `i` nodes of a list is the error of the whole
/// list.
pub proof fn lemma_upgrade_trees_error(args: Seq<V1Node>, i: int, main: ResolvedClassRef)
    requires
        0 <= i <= args.len(),
        upgrade_trees(args.take(i), main) is Err,
    ensures
        upgrade_trees(args, main) == upgrade_trees(args.take(i), main),
    decreases args.len() - i,
{
    if i < args.len() {
        assert(args.take(i + 1).drop_last() =~= args.take(i));
        lemma_upgrade_trees_error(args, i + 1, main);
    } else {
        assert(args.take(i) =~= args);
    }
}

} // verus!
