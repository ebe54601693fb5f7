//! Types of the bytecode target and function signatures over them.

use crate::arena::{duplicate_list, Interned};
use crate::digest::{mix, DIGEST_SEED};
use crate::handles::{ClassRefIdx, SigIdx, TypeIdx};
use vstd::prelude::*;

verus! {

/// Fixed-width and pointer-width integer kinds.
#[derive(Clone, Copy, PartialEq, Eq, Hash, Debug, Structural)]
pub enum Int {
    U8,
    U16,
    U32,
    U64,
    U128,
    USize,
    I8,
    I16,
    I32,
    I64,
    I128,
    ISize,
}

/// Floating-point kinds.
#[derive(Clone, Copy, PartialEq, Eq, Hash, Debug, Structural)]
pub enum Float {
    F16,
    F32,
    F64,
    F128,
}

/// What a generic parameter is a parameter of.
#[derive(Clone, Copy, PartialEq, Eq, Hash, Debug, Structural)]
pub enum GenericKind {
    MethodGeneric,
    CallGeneric,
    TypeGeneric,
}

/// A type. Nested types, class references and signatures are named by
/// handle, so a type is a small copyable value.
#[derive(Clone, Copy, PartialEq, Eq, Hash, Debug, Structural)]
pub enum Type {
    /// Unmanaged pointer to the type behind the handle.
    Ptr(TypeIdx),
    /// Managed reference to the type behind the handle.
    Ref(TypeIdx),
    Int(Int),
    Float(Float),
    PlatformString,
    PlatformChar,
    /// The n-th generic parameter of the given kind.
    PlatformGeneric(u32, GenericKind),
    Bool,
    Void,
    PlatformObject,
    /// A nominal class.
    ClassRef(ClassRefIdx),
    /// A platform array of `dims` dimensions.
    PlatformArray { elem: TypeIdx, dims: u8 },
    /// A pointer to a function of the given signature.
    FnPtr(SigIdx),
}

impl Interned for Type {
    open spec fn alike(&self, other: &Self) -> bool {
        *self == *other
    }

    proof fn alike_is_equivalence(a: &Self, b: &Self, c: &Self) {
    }

    fn same(&self, other: &Self) -> (r: bool) {
        *self == *other
    }

    fn duplicate(&self) -> (r: Self) {
        *self
    }

    open spec fn digest(&self) -> u64 {
        match *self {
            Type::Ptr(inner) => mix(mix(DIGEST_SEED, 1), inner.0 as u64),
            Type::Ref(inner) => mix(mix(DIGEST_SEED, 2), inner.0 as u64),
            Type::Int(_) => mix(DIGEST_SEED, 3),
            Type::Float(_) => mix(DIGEST_SEED, 4),
            Type::PlatformString => mix(DIGEST_SEED, 5),
            Type::PlatformChar => mix(DIGEST_SEED, 6),
            Type::PlatformGeneric(n, _) => mix(mix(DIGEST_SEED, 7), n as u64),
            Type::Bool => mix(DIGEST_SEED, 8),
            Type::Void => mix(DIGEST_SEED, 9),
            Type::PlatformObject => mix(DIGEST_SEED, 10),
            Type::ClassRef(class) => mix(mix(DIGEST_SEED, 11), class.0 as u64),
            Type::PlatformArray { elem, dims } => mix(
                mix(mix(DIGEST_SEED, 12), elem.0 as u64),
                dims as u64,
            ),
            Type::FnPtr(sig) => mix(mix(DIGEST_SEED, 13), sig.0 as u64),
        }
    }

    proof fn digest_respects_alike(a: &Self, b: &Self) {
    }

    fn fingerprint(&self) -> (r: u64) {
        match self {
            Type::Ptr(inner) => mix(mix(DIGEST_SEED, 1), inner.0 as u64),
            Type::Ref(inner) => mix(mix(DIGEST_SEED, 2), inner.0 as u64),
            Type::Int(_) => mix(DIGEST_SEED, 3),
            Type::Float(_) => mix(DIGEST_SEED, 4),
            Type::PlatformString => mix(DIGEST_SEED, 5),
            Type::PlatformChar => mix(DIGEST_SEED, 6),
            Type::PlatformGeneric(n, _) => mix(mix(DIGEST_SEED, 7), *n as u64),
            Type::Bool => mix(DIGEST_SEED, 8),
            Type::Void => mix(DIGEST_SEED, 9),
            Type::PlatformObject => mix(DIGEST_SEED, 10),
            Type::ClassRef(class) => mix(mix(DIGEST_SEED, 11), class.0 as u64),
            Type::PlatformArray { elem, dims } => mix(
                mix(mix(DIGEST_SEED, 12), elem.0 as u64),
                *dims as u64,
            ),
            Type::FnPtr(sig) => mix(mix(DIGEST_SEED, 13), sig.0 as u64),
        }
    }
}

/// Decides whether two lists of types hold the same types in the same order.
pub fn same_types(a: &Vec<Type>, b: &Vec<Type>) -> (r: bool)
    ensures
        r == (a@ == b@),
{
    if a.len() != b.len() {
        return false;
    }
    let mut i: usize = 0;
    while i < a.len()
        invariant
            a.len() == b.len(),
            i <= a.len(),
            forall|k: int| 0 <= k < i ==> a@[k] == b@[k],
        decreases a.len() - i,
    {
        if a[i] != b[i] {
            return false;
        }
        i += 1;
    }
    proof {
        assert(a@ =~= b@);
    }
    true
}

/// The digest of a list of types.
pub open spec fn digest_types(s: Seq<Type>) -> u64
    decreases s.len(),
{
    if s.len() == 0 {
        DIGEST_SEED
    } else {
        mix(digest_types(s.drop_last()), s.last().digest())
    }
}

/// Computes the digest of a list of types.
pub fn fingerprint_types(v: &Vec<Type>) -> (r: u64)
    ensures
        r == digest_types(v@),
{
    let mut h: u64 = DIGEST_SEED;
    let mut i: usize = 0;
    proof {
        assert(v@.take(0) =~= Seq::empty());
    }
    while i < v.len()
        invariant
            i <= v.len(),
            h == digest_types(v@.take(i as int)),
        decreases v.len() - i,
    {
        proof {
            assert(v@.take(i + 1).drop_last() =~= v@.take(i as int));
            assert(v@.take(i + 1).last() == v@[i as int]);
        }
        h = mix(h, v[i].fingerprint());
        i += 1;
    }
    proof {
        assert(v@.take(v.len() as int) =~= v@);
    }
    h
}

/// A function signature: the types of the arguments and of the result.
#[derive(Clone, PartialEq, Eq, Hash, Debug)]
pub struct FnSig {
    pub inputs: Vec<Type>,
    pub output: Type,
}

impl FnSig {
    pub fn new(inputs: Vec<Type>, output: Type) -> (r: Self)
        ensures
            r.inputs@ == inputs@,
            r.output == output,
    {
        FnSig { inputs, output }
    }

    /// The argument types, in order.
    pub fn inputs(&self) -> (r: &Vec<Type>)
        ensures
            r@ == self.inputs@,
    {
        &self.inputs
    }

    /// The result type.
    pub fn output(&self) -> (r: &Type)
        ensures
            *r == self.output,
    {
        &self.output
    }
}

impl Interned for FnSig {
    open spec fn alike(&self, other: &Self) -> bool {
        self.inputs@ == other.inputs@ && self.output == other.output
    }

    proof fn alike_is_equivalence(a: &Self, b: &Self, c: &Self) {
    }

    fn same(&self, other: &Self) -> (r: bool) {
        self.output == other.output && same_types(&self.inputs, &other.inputs)
    }

    fn duplicate(&self) -> (r: Self) {
        FnSig { inputs: duplicate_list(&self.inputs), output: self.output }
    }

    open spec fn digest(&self) -> u64 {
        mix(digest_types(self.inputs@), self.output.digest())
    }

    proof fn digest_respects_alike(a: &Self, b: &Self) {
    }

    fn fingerprint(&self) -> (r: u64) {
        mix(fingerprint_types(&self.inputs), self.output.fingerprint())
    }
}

} // verus!
