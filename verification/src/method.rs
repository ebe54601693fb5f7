//! Definitions: basic blocks, method definitions and class definitions.

use crate::arena::{duplicate_list, Interned};
use crate::cilnode::MethodKind;
use crate::digest::{mix, DIGEST_SEED};
use crate::handles::{
    ClassDefIdx, ClassRefIdx, MethodDefIdx, MethodRefIdx, RootIdx, SigIdx, StringIdx, TypeIdx,
};
use crate::tpe::Type;
use vstd::prelude::*;

verus! {

/// Who may use a class or a method.
#[derive(Clone, Copy, PartialEq, Eq, Hash, Debug, Structural)]
pub enum Access {
    Extern,
    Public,
    Private,
}

/// An ordered sequence of roots under a label, with the blocks that handle
/// the exceptions raised in it. A handler is a list of blocks, each of which
/// may have handlers of its own: protected regions nest as a tree.
#[derive(PartialEq, Eq, Hash, Debug)]
pub struct BasicBlock {
    pub roots: Vec<RootIdx>,
    pub block_id: u32,
    pub handler: Option<Vec<BasicBlock>>,
}

/// The two lists hold structurally equal blocks in the same order.
pub open spec fn blocks_alike(a: Seq<BasicBlock>, b: Seq<BasicBlock>) -> bool
    decreases a, 1int,
{
    &&& a.len() == b.len()
    &&& forall|i: int| 0 <= i < a.len() ==> (#[trigger] a[i]).alike(&b[i])
}

impl BasicBlock {
    pub fn new(roots: Vec<RootIdx>, block_id: u32, handler: Option<Vec<BasicBlock>>) -> (r: Self)
        ensures
            r == (BasicBlock { roots, block_id, handler }),
    {
        BasicBlock { roots, block_id, handler }
    }

    /// The roots of the block, in the order in which they run.
    pub fn roots(&self) -> (r: &Vec<RootIdx>)
        ensures
            r@ == self.roots@,
    {
        &self.roots
    }

    /// The label of the block.
    pub fn block_id(&self) -> (r: u32)
        ensures
            r == self.block_id,
    {
        self.block_id
    }

    /// The blocks that handle the exceptions raised in this block.
    pub fn handler(&self) -> (r: Option<&Vec<BasicBlock>>)
        ensures
            match r {
                Some(h) => self.handler == Some(*h),
                None => self.handler is None,
            },
    {
        match &self.handler {
            Some(h) => Some(h),
            None => None,
        }
    }

    /// Structural equality of blocks: the same roots under the same label,
    /// and handlers that are structurally equal block by block.
    pub open spec fn alike(&self, other: &Self) -> bool
        decreases self, 0int,
    {
        &&& self.roots@ == other.roots@
        &&& self.block_id == other.block_id
        &&& match (self.handler, other.handler) {
            (Some(a), Some(b)) => blocks_alike(a@, b@),
            (None, None) => true,
            _ => false,
        }
    }

    /// Decides structural equality of blocks.
    pub fn same(&self, other: &Self) -> (r: bool)
        ensures
            r == self.alike(other),
        decreases self, 0int,
    {
        if self.block_id != other.block_id || !same_roots(&self.roots, &other.roots) {
            return false;
        }
        match (&self.handler, &other.handler) {
            (Some(a), Some(b)) => same_blocks(a, b),
            (None, None) => true,
            _ => false,
        }
    }

    /// An independent copy of the block.
    pub fn duplicate(&self) -> (r: Self)
        ensures
            r.alike(self),
            self.alike(&r),
        decreases self, 0int,
    {
        let handler = match &self.handler {
            Some(h) => Some(duplicate_blocks(h)),
            None => None,
        };
        BasicBlock { roots: duplicate_list(&self.roots), block_id: self.block_id, handler }
    }
}

/// Decides whether two lists hold structurally equal blocks in the same
/// order.
pub fn same_blocks(a: &Vec<BasicBlock>, b: &Vec<BasicBlock>) -> (r: bool)
    ensures
        r == blocks_alike(a@, b@),
    decreases a, 1int,
{
    if a.len() != b.len() {
        return false;
    }
    let mut i: usize = 0;
    while i < a.len()
        invariant
            a.len() == b.len(),
            i <= a.len(),
            forall|k: int| 0 <= k < i ==> (#[trigger] a@[k]).alike(&b@[k]),
        decreases a.len() - i,
    {
        if !a[i].same(&b[i]) {
            return false;
        }
        i += 1;
    }
    true
}

/// Copies a list of blocks.
pub fn duplicate_blocks(v: &Vec<BasicBlock>) -> (r: Vec<BasicBlock>)
    ensures
        blocks_alike(r@, v@),
        blocks_alike(v@, r@),
    decreases v, 1int,
{
    let mut r: Vec<BasicBlock> = Vec::new();
    let mut i: usize = 0;
    while i < v.len()
        invariant
            i <= v.len(),
            r@.len() == i,
            forall|k: int| 0 <= k < i ==> (#[trigger] r@[k]).alike(&v@[k]),
            forall|k: int| 0 <= k < i ==> (#[trigger] v@[k]).alike(&r@[k]),
        decreases v.len() - i,
    {
        let b = v[i].duplicate();
        r.push(b);
        i += 1;
    }
    r
}

/// Structural equality of blocks is an equivalence relation.
pub proof fn lemma_block_alike(a: &BasicBlock, b: &BasicBlock, c: &BasicBlock)
    ensures
        a.alike(a),
        a.alike(b) ==> b.alike(a),
        a.alike(b) && b.alike(c) ==> a.alike(c),
    decreases a, 0int,
{
    match a.handler {
        Some(ha) => {
            lemma_blocks_alike(ha@, ha@, ha@);
            match (b.handler, c.handler) {
                (Some(hb), Some(hc)) => {
                    lemma_blocks_alike(ha@, hb@, hc@);
                },
                (Some(hb), None) => {
                    lemma_blocks_alike(ha@, hb@, hb@);
                },
                _ => {},
            }
        },
        None => {},
    }
}

/// Structural equality of lists of blocks is an equivalence relation.
pub proof fn lemma_blocks_alike(a: Seq<BasicBlock>, b: Seq<BasicBlock>, c: Seq<BasicBlock>)
    ensures
        blocks_alike(a, a),
        blocks_alike(a, b) ==> blocks_alike(b, a),
        blocks_alike(a, b) && blocks_alike(b, c) ==> blocks_alike(a, c),
    decreases a, 1int,
{
    assert forall|i: int| 0 <= i < a.len() implies (#[trigger] a[i]).alike(&a[i]) by {
        lemma_block_alike(&a[i], &a[i], &a[i]);
    }
    if blocks_alike(a, b) {
        assert forall|i: int| 0 <= i < b.len() implies (#[trigger] b[i]).alike(&a[i]) by {
            lemma_block_alike(&a[i], &b[i], &b[i]);
        }
        if blocks_alike(b, c) {
            assert forall|i: int| 0 <= i < a.len() implies (#[trigger] a[i]).alike(&c[i]) by {
                lemma_block_alike(&a[i], &b[i], &c[i]);
            }
        }
    }
}

/// Decides whether two lists hold the same root handles in the same order.
pub fn same_roots(a: &Vec<RootIdx>, b: &Vec<RootIdx>) -> (r: bool)
    ensures
        r == (a@ == b@),
{
    if a.len() != b.len() {
        return false;
    }
    let mut i: usize = 0;
    while i < a.len()
        invariant
            a.len() == b.len(),
            i <= a.len(),
            forall|k: int| 0 <= k < i ==> a@[k] == b@[k],
        decreases a.len() - i,
    {
        if a[i] != b[i] {
            return false;
        }
        i += 1;
    }
    proof {
        assert(a@ =~= b@);
    }
    true
}

/// Decides whether two tables of local variables are the same.
pub fn same_locals(a: &Vec<(Option<StringIdx>, TypeIdx)>, b: &Vec<(Option<StringIdx>, TypeIdx)>) -> (r:
    bool)
    ensures
        r == (a@ == b@),
{
    if a.len() != b.len() {
        return false;
    }
    let mut i: usize = 0;
    while i < a.len()
        invariant
            a.len() == b.len(),
            i <= a.len(),
            forall|k: int| 0 <= k < i ==> a@[k] == b@[k],
        decreases a.len() - i,
    {
        if a[i].0 != b[i].0 || a[i].1 != b[i].1 {
            return false;
        }
        i += 1;
    }
    proof {
        assert(a@ =~= b@);
    }
    true
}

/// Decides whether two lists of optional names are the same.
pub fn same_names(a: &Vec<Option<StringIdx>>, b: &Vec<Option<StringIdx>>) -> (r: bool)
    ensures
        r == (a@ == b@),
{
    if a.len() != b.len() {
        return false;
    }
    let mut i: usize = 0;
    while i < a.len()
        invariant
            a.len() == b.len(),
            i <= a.len(),
            forall|k: int| 0 <= k < i ==> a@[k] == b@[k],
        decreases a.len() - i,
    {
        if a[i] != b[i] {
            return false;
        }
        i += 1;
    }
    proof {
        assert(a@ =~= b@);
    }
    true
}

/// How a method is implemented.
#[derive(PartialEq, Eq, Hash, Debug)]
pub enum MethodImpl {
    /// By a body: its blocks in order, and its local variables, each with an
    /// optional name and a type.
    MethodBody { blocks: Vec<BasicBlock>, locals: Vec<(Option<StringIdx>, TypeIdx)> },
    /// By a function of a native library.
    Extern { lib: StringIdx, preserve_errno: bool },
    /// By forwarding to another method.
    AliasFor(MethodRefIdx),
    /// Not at all.
    Missing,
}

impl MethodImpl {
    /// Structural equality of implementations.
    pub open spec fn alike(&self, other: &Self) -> bool {
        match (*self, *other) {
            (
                MethodImpl::MethodBody { blocks: b1, locals: l1 },
                MethodImpl::MethodBody { blocks: b2, locals: l2 },
            ) => blocks_alike(b1@, b2@) && l1@ == l2@,
            (
                MethodImpl::Extern { lib: a1, preserve_errno: e1 },
                MethodImpl::Extern { lib: a2, preserve_errno: e2 },
            ) => a1 == a2 && e1 == e2,
            (MethodImpl::AliasFor(m1), MethodImpl::AliasFor(m2)) => m1 == m2,
            (MethodImpl::Missing, MethodImpl::Missing) => true,
            _ => false,
        }
    }

    /// Decides structural equality of implementations.
    pub fn same(&self, other: &Self) -> (r: bool)
        ensures
            r == self.alike(other),
    {
        match (self, other) {
            (
                MethodImpl::MethodBody { blocks: b1, locals: l1 },
                MethodImpl::MethodBody { blocks: b2, locals: l2 },
            ) => same_blocks(b1, b2) && same_locals(l1, l2),
            (
                MethodImpl::Extern { lib: a1, preserve_errno: e1 },
                MethodImpl::Extern { lib: a2, preserve_errno: e2 },
            ) => *a1 == *a2 && *e1 == *e2,
            (MethodImpl::AliasFor(m1), MethodImpl::AliasFor(m2)) => *m1 == *m2,
            (MethodImpl::Missing, MethodImpl::Missing) => true,
            _ => false,
        }
    }

    /// An independent copy of the implementation.
    pub fn duplicate(&self) -> (r: Self)
        ensures
            r.alike(self),
    {
        match self {
            MethodImpl::MethodBody { blocks, locals } => MethodImpl::MethodBody {
                blocks: duplicate_blocks(blocks),
                locals: duplicate_list(locals),
            },
            MethodImpl::Extern { lib, preserve_errno } => MethodImpl::Extern {
                lib: *lib,
                preserve_errno: *preserve_errno,
            },
            MethodImpl::AliasFor(m) => MethodImpl::AliasFor(*m),
            MethodImpl::Missing => MethodImpl::Missing,
        }
    }
}

/// The definition of a method. Its owner is named by a definition handle:
/// a method is defined only in a class that is itself defined.
#[derive(PartialEq, Eq, Hash, Debug)]
pub struct MethodDef {
    pub access: Access,
    pub class: ClassDefIdx,
    pub name: StringIdx,
    pub sig: SigIdx,
    pub kind: MethodKind,
    pub implementation: MethodImpl,
    pub arg_names: Vec<Option<StringIdx>>,
}

impl MethodDef {
    pub fn new(
        access: Access,
        class: ClassDefIdx,
        name: StringIdx,
        sig: SigIdx,
        kind: MethodKind,
        implementation: MethodImpl,
        arg_names: Vec<Option<StringIdx>>,
    ) -> (r: Self)
        ensures
            r == (MethodDef { access, class, name, sig, kind, implementation, arg_names }),
    {
        MethodDef { access, class, name, sig, kind, implementation, arg_names }
    }

    pub fn access(&self) -> (r: &Access)
        ensures
            *r == self.access,
    {
        &self.access
    }

    /// The class that defines the method.
    pub fn class(&self) -> (r: &ClassDefIdx)
        ensures
            *r == self.class,
    {
        &self.class
    }

    pub fn name(&self) -> (r: StringIdx)
        ensures
            r == self.name,
    {
        self.name
    }

    pub fn sig(&self) -> (r: SigIdx)
        ensures
            r == self.sig,
    {
        self.sig
    }

    pub fn kind(&self) -> (r: MethodKind)
        ensures
            r == self.kind,
    {
        self.kind
    }

    pub fn implementation(&self) -> (r: &MethodImpl)
        ensures
            *r == self.implementation,
    {
        &self.implementation
    }

    /// The names of the arguments, where they have one.
    pub fn arg_names(&self) -> (r: &Vec<Option<StringIdx>>)
        ensures
            r@ == self.arg_names@,
    {
        &self.arg_names
    }
}

impl Interned for MethodDef {
    open spec fn alike(&self, other: &Self) -> bool {
        &&& self.access == other.access
        &&& self.class == other.class
        &&& self.name == other.name
        &&& self.sig == other.sig
        &&& self.kind == other.kind
        &&& self.implementation.alike(&other.implementation)
        &&& self.arg_names@ == other.arg_names@
    }

    proof fn alike_is_equivalence(a: &Self, b: &Self, c: &Self) {
        match (a.implementation, b.implementation, c.implementation) {
            (
                MethodImpl::MethodBody { blocks: x, .. },
                MethodImpl::MethodBody { blocks: y, .. },
                MethodImpl::MethodBody { blocks: z, .. },
            ) => {
                lemma_blocks_alike(x@, y@, z@);
            },
            (
                MethodImpl::MethodBody { blocks: x, .. },
                MethodImpl::MethodBody { blocks: y, .. },
                _,
            ) => {
                lemma_blocks_alike(x@, y@, y@);
            },
            (MethodImpl::MethodBody { blocks: x, .. }, _, _) => {
                lemma_blocks_alike(x@, x@, x@);
            },
            _ => {},
        }
    }

    fn same(&self, other: &Self) -> (r: bool) {
        self.access == other.access && self.class == other.class && self.name == other.name
            && self.sig == other.sig && self.kind == other.kind && self.implementation.same(
            &other.implementation,
        ) && same_names(&self.arg_names, &other.arg_names)
    }

    fn duplicate(&self) -> (r: Self) {
        MethodDef {
            access: self.access,
            class: self.class,
            name: self.name,
            sig: self.sig,
            kind: self.kind,
            implementation: self.implementation.duplicate(),
            arg_names: duplicate_list(&self.arg_names),
        }
    }

    open spec fn digest(&self) -> u64 {
        mix(
            mix(mix(DIGEST_SEED, self.class.0.0 as u64), self.name.0 as u64),
            self.sig.0 as u64,
        )
    }

    proof fn digest_respects_alike(a: &Self, b: &Self) {
    }

    fn fingerprint(&self) -> (r: u64) {
        mix(
            mix(mix(DIGEST_SEED, self.class.0.0 as u64), self.name.0 as u64),
            self.sig.0 as u64,
        )
    }
}

/// The definition of a class: its base class, its fields with their
/// offsets, its static fields with their thread-local flags, its methods,
/// and its layout.
#[derive(Clone, PartialEq, Eq, Hash, Debug)]
pub struct ClassDef {
    pub name: StringIdx,
    pub is_valuetype: bool,
    pub generics: u32,
    pub extends: Option<ClassRefIdx>,
    pub fields: Vec<(Type, StringIdx, Option<u32>)>,
    pub static_fields: Vec<(Type, StringIdx, bool)>,
    pub methods: Vec<MethodDefIdx>,
    pub access: Access,
    pub explict_size: Option<u32>,
}

impl ClassDef {
    pub fn new(
        name: StringIdx,
        is_valuetype: bool,
        generics: u32,
        extends: Option<ClassRefIdx>,
        fields: Vec<(Type, StringIdx, Option<u32>)>,
        static_fields: Vec<(Type, StringIdx, bool)>,
        methods: Vec<MethodDefIdx>,
        access: Access,
        explict_size: Option<u32>,
    ) -> (r: Self)
        ensures
            r == (ClassDef {
                name,
                is_valuetype,
                generics,
                extends,
                fields,
                static_fields,
                methods,
                access,
                explict_size,
            }),
    {
        ClassDef {
            name,
            is_valuetype,
            generics,
            extends,
            fields,
            static_fields,
            methods,
            access,
            explict_size,
        }
    }

    pub fn name(&self) -> (r: StringIdx)
        ensures
            r == self.name,
    {
        self.name
    }

    pub fn is_valuetype(&self) -> (r: bool)
        ensures
            r == self.is_valuetype,
    {
        self.is_valuetype
    }

    /// The number of generic parameters.
    pub fn generics(&self) -> (r: u32)
        ensures
            r == self.generics,
    {
        self.generics
    }

    /// The base class.
    pub fn extends(&self) -> (r: Option<ClassRefIdx>)
        ensures
            r == self.extends,
    {
        self.extends
    }

    /// The fields: type, name and explicit offset.
    pub fn fields(&self) -> (r: &Vec<(Type, StringIdx, Option<u32>)>)
        ensures
            r@ == self.fields@,
    {
        &self.fields
    }

    /// The static fields: type, name and whether each thread has its own.
    pub fn static_fields(&self) -> (r: &Vec<(Type, StringIdx, bool)>)
        ensures
            r@ == self.static_fields@,
    {
        &self.static_fields
    }

    pub fn methods(&self) -> (r: &Vec<MethodDefIdx>)
        ensures
            r@ == self.methods@,
    {
        &self.methods
    }

    pub fn access(&self) -> (r: &Access)
        ensures
            *r == self.access,
    {
        &self.access
    }

    /// Structural equality of class definitions.
    pub open spec fn alike(&self, other: &Self) -> bool {
        &&& self.name == other.name
        &&& self.is_valuetype == other.is_valuetype
        &&& self.generics == other.generics
        &&& self.extends == other.extends
        &&& self.fields@ == other.fields@
        &&& self.static_fields@ == other.static_fields@
        &&& self.methods@ == other.methods@
        &&& self.access == other.access
        &&& self.explict_size == other.explict_size
    }

    /// The size in bytes, where the layout fixes it.
    pub fn explict_size(&self) -> (r: Option<u32>)
        ensures
            r == self.explict_size,
    {
        self.explict_size
    }
}

} // verus!
