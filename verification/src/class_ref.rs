//! Nominal references: classes, fields, static fields and methods named
//! without their definitions.

use crate::arena::{duplicate_list, Interned};
use crate::cilnode::MethodKind;
use crate::digest::{mix, DIGEST_SEED};
use crate::handles::{ClassRefIdx, SigIdx, StringIdx};
use crate::tpe::{digest_types, fingerprint_types, same_types, Type};
use vstd::prelude::*;

verus! {

/// A reference to a class: its name, the module that owns it if that is not
/// the current one, whether it is a value type, and its generic arguments.
#[derive(Clone, PartialEq, Eq, Hash, Debug)]
pub struct ClassRef {
    pub name: StringIdx,
    pub module: Option<StringIdx>,
    pub is_valuetype: bool,
    pub generics: Vec<Type>,
}

impl ClassRef {
    pub fn new(name: StringIdx, module: Option<StringIdx>, is_valuetype: bool, generics: Vec<Type>) -> (r:
        Self)
        ensures
            r.name == name,
            r.module == module,
            r.is_valuetype == is_valuetype,
            r.generics@ == generics@,
    {
        ClassRef { name, module, is_valuetype, generics }
    }

    pub fn name(&self) -> (r: StringIdx)
        ensures
            r == self.name,
    {
        self.name
    }

    pub fn module(&self) -> (r: Option<StringIdx>)
        ensures
            r == self.module,
    {
        self.module
    }

    pub fn is_valuetype(&self) -> (r: bool)
        ensures
            r == self.is_valuetype,
    {
        self.is_valuetype
    }

    pub fn generics(&self) -> (r: &Vec<Type>)
        ensures
            r@ == self.generics@,
    {
        &self.generics
    }
}

impl Interned for ClassRef {
    open spec fn alike(&self, other: &Self) -> bool {
        &&& self.name == other.name
        &&& self.module == other.module
        &&& self.is_valuetype == other.is_valuetype
        &&& self.generics@ == other.generics@
    }

    proof fn alike_is_equivalence(a: &Self, b: &Self, c: &Self) {
    }

    fn same(&self, other: &Self) -> (r: bool) {
        self.name == other.name && self.module == other.module && self.is_valuetype == other.is_valuetype
            && same_types(&self.generics, &other.generics)
    }

    fn duplicate(&self) -> (r: Self) {
        ClassRef {
            name: self.name,
            module: self.module,
            is_valuetype: self.is_valuetype,
            generics: duplicate_list(&self.generics),
        }
    }

    open spec fn digest(&self) -> u64 {
        mix(mix(DIGEST_SEED, self.name.0 as u64), digest_types(self.generics@))
    }

    proof fn digest_respects_alike(a: &Self, b: &Self) {
    }

    fn fingerprint(&self) -> (r: u64) {
        mix(mix(DIGEST_SEED, self.name.0 as u64), fingerprint_types(&self.generics))
    }
}

/// Names an instance field: the class that owns it, its name and its type.
#[derive(Clone, Copy, PartialEq, Eq, Hash, Debug, Structural)]
pub struct FieldDesc {
    pub owner: ClassRefIdx,
    pub name: StringIdx,
    pub tpe: Type,
}

impl FieldDesc {
    pub fn new(owner: ClassRefIdx, name: StringIdx, tpe: Type) -> (r: Self)
        ensures
            r == (FieldDesc { owner, name, tpe }),
    {
        FieldDesc { owner, name, tpe }
    }

    pub fn owner(&self) -> (r: ClassRefIdx)
        ensures
            r == self.owner,
    {
        self.owner
    }

    pub fn name(&self) -> (r: StringIdx)
        ensures
            r == self.name,
    {
        self.name
    }

    pub fn tpe(&self) -> (r: Type)
        ensures
            r == self.tpe,
    {
        self.tpe
    }
}

impl Interned for FieldDesc {
    open spec fn alike(&self, other: &Self) -> bool {
        *self == *other
    }

    proof fn alike_is_equivalence(a: &Self, b: &Self, c: &Self) {
    }

    fn same(&self, other: &Self) -> (r: bool) {
        *self == *other
    }

    fn duplicate(&self) -> (r: Self) {
        *self
    }

    open spec fn digest(&self) -> u64 {
        mix(mix(mix(DIGEST_SEED, self.owner.0 as u64), self.name.0 as u64), self.tpe.digest())
    }

    proof fn digest_respects_alike(a: &Self, b: &Self) {
    }

    fn fingerprint(&self) -> (r: u64) {
        mix(mix(mix(DIGEST_SEED, self.owner.0 as u64), self.name.0 as u64), self.tpe.fingerprint())
    }
}

/// Names a static field: the class that owns it, its name and its type.
#[derive(Clone, Copy, PartialEq, Eq, Hash, Debug, Structural)]
pub struct StaticFieldDesc {
    pub owner: ClassRefIdx,
    pub name: StringIdx,
    pub tpe: Type,
}

impl StaticFieldDesc {
    pub fn new(owner: ClassRefIdx, name: StringIdx, tpe: Type) -> (r: Self)
        ensures
            r == (StaticFieldDesc { owner, name, tpe }),
    {
        StaticFieldDesc { owner, name, tpe }
    }

    pub fn owner(&self) -> (r: ClassRefIdx)
        ensures
            r == self.owner,
    {
        self.owner
    }

    pub fn name(&self) -> (r: StringIdx)
        ensures
            r == self.name,
    {
        self.name
    }

    pub fn tpe(&self) -> (r: Type)
        ensures
            r == self.tpe,
    {
        self.tpe
    }
}

impl Interned for StaticFieldDesc {
    open spec fn alike(&self, other: &Self) -> bool {
        *self == *other
    }

    proof fn alike_is_equivalence(a: &Self, b: &Self, c: &Self) {
    }

    fn same(&self, other: &Self) -> (r: bool) {
        *self == *other
    }

    fn duplicate(&self) -> (r: Self) {
        *self
    }

    open spec fn digest(&self) -> u64 {
        mix(mix(mix(DIGEST_SEED, self.owner.0 as u64), self.name.0 as u64), self.tpe.digest())
    }

    proof fn digest_respects_alike(a: &Self, b: &Self) {
    }

    fn fingerprint(&self) -> (r: u64) {
        mix(mix(mix(DIGEST_SEED, self.owner.0 as u64), self.name.0 as u64), self.tpe.fingerprint())
    }
}

/// A reference to a method: the class that owns it, its name, its
/// signature, how it is called and its generic arguments.
#[derive(Clone, PartialEq, Eq, Hash, Debug)]
pub struct MethodRef {
    pub class: ClassRefIdx,
    pub name: StringIdx,
    pub sig: SigIdx,
    pub kind: MethodKind,
    pub generics: Vec<Type>,
}

impl MethodRef {
    pub fn new(
        class: ClassRefIdx,
        name: StringIdx,
        sig: SigIdx,
        kind: MethodKind,
        generics: Vec<Type>,
    ) -> (r: Self)
        ensures
            r.class == class,
            r.name == name,
            r.sig == sig,
            r.kind == kind,
            r.generics@ == generics@,
    {
        MethodRef { class, name, sig, kind, generics }
    }

    pub fn class(&self) -> (r: ClassRefIdx)
        ensures
            r == self.class,
    {
        self.class
    }

    pub fn name(&self) -> (r: StringIdx)
        ensures
            r == self.name,
    {
        self.name
    }

    pub fn sig(&self) -> (r: SigIdx)
        ensures
            r == self.sig,
    {
        self.sig
    }

    pub fn kind(&self) -> (r: MethodKind)
        ensures
            r == self.kind,
    {
        self.kind
    }

    pub fn generics(&self) -> (r: &Vec<Type>)
        ensures
            r@ == self.generics@,
    {
        &self.generics
    }
}

impl Interned for MethodRef {
    open spec fn alike(&self, other: &Self) -> bool {
        &&& self.class == other.class
        &&& self.name == other.name
        &&& self.sig == other.sig
        &&& self.kind == other.kind
        &&& self.generics@ == other.generics@
    }

    proof fn alike_is_equivalence(a: &Self, b: &Self, c: &Self) {
    }

    fn same(&self, other: &Self) -> (r: bool) {
        self.class == other.class && self.name == other.name && self.sig == other.sig && self.kind
            == other.kind && same_types(&self.generics, &other.generics)
    }

    fn duplicate(&self) -> (r: Self) {
        MethodRef {
            class: self.class,
            name: self.name,
            sig: self.sig,
            kind: self.kind,
            generics: duplicate_list(&self.generics),
        }
    }

    open spec fn digest(&self) -> u64 {
        mix(
            mix(mix(mix(DIGEST_SEED, self.class.0 as u64), self.name.0 as u64), self.sig.0 as u64),
            digest_types(self.generics@),
        )
    }

    proof fn digest_respects_alike(a: &Self, b: &Self) {
    }

    fn fingerprint(&self) -> (r: u64) {
        mix(
            mix(mix(mix(DIGEST_SEED, self.class.0 as u64), self.name.0 as u64), self.sig.0 as u64),
            fingerprint_types(&self.generics),
        )
    }
}

} // verus!
