//! Handles: small integers that name an interned value within the assembly
//! that issued them. A handle means nothing in any other assembly.

use crate::arena::BiMapIndex;
use vstd::prelude::*;

verus! {

/// Conversion between a handle and the arena position behind it.
pub trait IntoBiMapIndex: Sized {
    /// The arena position that the handle names.
    spec fn index(&self) -> BiMapIndex;

    /// The handle for the arena position `val`.
    fn from_index(val: BiMapIndex) -> (r: Self)
        ensures
            r.index() == val,
    ;

    /// The arena position that the handle names.
    fn as_bimap_index(&self) -> (r: BiMapIndex)
        ensures
            r == self.index(),
    ;
}

/// Handle of an interned string.
#[derive(Clone, Copy, PartialEq, Eq, Hash, Debug, Structural)]
pub struct StringIdx(pub BiMapIndex);

impl IntoBiMapIndex for StringIdx {
    open spec fn index(&self) -> BiMapIndex {
        self.0
    }

    fn from_index(val: BiMapIndex) -> (r: Self) {
        Self(val)
    }

    fn as_bimap_index(&self) -> (r: BiMapIndex) {
        self.0
    }
}

/// Handle of an interned type.
#[derive(Clone, Copy, PartialEq, Eq, Hash, Debug, Structural)]
pub struct TypeIdx(pub BiMapIndex);

impl IntoBiMapIndex for TypeIdx {
    open spec fn index(&self) -> BiMapIndex {
        self.0
    }

    fn from_index(val: BiMapIndex) -> (r: Self) {
        Self(val)
    }

    fn as_bimap_index(&self) -> (r: BiMapIndex) {
        self.0
    }
}

/// Handle of an interned function signature.
#[derive(Clone, Copy, PartialEq, Eq, Hash, Debug, Structural)]
pub struct SigIdx(pub BiMapIndex);

impl IntoBiMapIndex for SigIdx {
    open spec fn index(&self) -> BiMapIndex {
        self.0
    }

    fn from_index(val: BiMapIndex) -> (r: Self) {
        Self(val)
    }

    fn as_bimap_index(&self) -> (r: BiMapIndex) {
        self.0
    }
}

/// Handle of an interned class reference.
#[derive(Clone, Copy, PartialEq, Eq, Hash, Debug, Structural)]
pub struct ClassRefIdx(pub BiMapIndex);

impl IntoBiMapIndex for ClassRefIdx {
    open spec fn index(&self) -> BiMapIndex {
        self.0
    }

    fn from_index(val: BiMapIndex) -> (r: Self) {
        Self(val)
    }

    fn as_bimap_index(&self) -> (r: BiMapIndex) {
        self.0
    }
}

/// Handle of an interned field descriptor.
#[derive(Clone, Copy, PartialEq, Eq, Hash, Debug, Structural)]
pub struct FieldIdx(pub BiMapIndex);

impl IntoBiMapIndex for FieldIdx {
    open spec fn index(&self) -> BiMapIndex {
        self.0
    }

    fn from_index(val: BiMapIndex) -> (r: Self) {
        Self(val)
    }

    fn as_bimap_index(&self) -> (r: BiMapIndex) {
        self.0
    }
}

/// Handle of an interned static-field descriptor.
#[derive(Clone, Copy, PartialEq, Eq, Hash, Debug, Structural)]
pub struct StaticFieldIdx(pub BiMapIndex);

impl IntoBiMapIndex for StaticFieldIdx {
    open spec fn index(&self) -> BiMapIndex {
        self.0
    }

    fn from_index(val: BiMapIndex) -> (r: Self) {
        Self(val)
    }

    fn as_bimap_index(&self) -> (r: BiMapIndex) {
        self.0
    }
}

/// Handle of an interned method reference.
#[derive(Clone, Copy, PartialEq, Eq, Hash, Debug, Structural)]
pub struct MethodRefIdx(pub BiMapIndex);

impl IntoBiMapIndex for MethodRefIdx {
    open spec fn index(&self) -> BiMapIndex {
        self.0
    }

    fn from_index(val: BiMapIndex) -> (r: Self) {
        Self(val)
    }

    fn as_bimap_index(&self) -> (r: BiMapIndex) {
        self.0
    }
}

/// Handle of an interned node.
#[derive(Clone, Copy, PartialEq, Eq, Hash, Debug, Structural)]
pub struct NodeIdx(pub BiMapIndex);

impl IntoBiMapIndex for NodeIdx {
    open spec fn index(&self) -> BiMapIndex {
        self.0
    }

    fn from_index(val: BiMapIndex) -> (r: Self) {
        Self(val)
    }

    fn as_bimap_index(&self) -> (r: BiMapIndex) {
        self.0
    }
}

/// Handle of an interned root.
#[derive(Clone, Copy, PartialEq, Eq, Hash, Debug, Structural)]
pub struct RootIdx(pub BiMapIndex);

impl IntoBiMapIndex for RootIdx {
    open spec fn index(&self) -> BiMapIndex {
        self.0
    }

    fn from_index(val: BiMapIndex) -> (r: Self) {
        Self(val)
    }

    fn as_bimap_index(&self) -> (r: BiMapIndex) {
        self.0
    }
}

/// Handle of an interned method definition.
#[derive(Clone, Copy, PartialEq, Eq, Hash, Debug, Structural)]
pub struct MethodDefIdx(pub BiMapIndex);

impl IntoBiMapIndex for MethodDefIdx {
    open spec fn index(&self) -> BiMapIndex {
        self.0
    }

    fn from_index(val: BiMapIndex) -> (r: Self) {
        Self(val)
    }

    fn as_bimap_index(&self) -> (r: BiMapIndex) {
        self.0
    }
}

/// Handle of a class definition: the handle of a class reference for which
/// the assembly holds a definition.
#[derive(Clone, Copy, PartialEq, Eq, Hash, Debug, Structural)]
pub struct ClassDefIdx(pub ClassRefIdx);

impl ClassDefIdx {
    /// The class reference that the definition belongs to.
    pub fn as_class_ref(&self) -> (r: ClassRefIdx)
        ensures
            r == self.0,
    {
        self.0
    }
}

} // verus!
