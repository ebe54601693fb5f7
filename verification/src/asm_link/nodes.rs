//! Linking of nodes, roots and blocks.

use crate::arena::Interned;
use crate::assembly::Assembly;
use crate::cilnode::{CILNode, Const, PtrCastRes};
use crate::cilroot::{BranchCond, CILRoot};
use crate::handles::{NodeIdx, RootIdx};
use crate::known::{lemma_node_held, lemma_node_tree_known, lemma_root_held, lemma_root_tree_known};
use crate::method::BasicBlock;
use crate::resolved::lemma_node_parts;
use crate::stability::{lemma_blocks_stable, lemma_nodes_stable, lemma_roots_stable};
use vstd::prelude::*;

verus! {

impl Assembly {
    /// Copies a constant of `source` into this assembly: a string constant
    /// has its string interned here, every other constant is copied as it
    /// is.
    pub fn translate_const(&mut self, source: &Assembly, cst: Const) -> (r: Const)
        requires
            old(self).wf(),
            source.wf(),
            source@.const_ok(cst),
        ensures
            final(self).wf(),
            final(self)@.extends(&old(self)@),
            final(self)@.const_ok(r),
            final(self)@.resolve_const(r) == source@.resolve_const(cst),
            old(self)@.knows_const(source@.resolve_const(cst)) ==> final(self)@ == old(self)@,
    {
        match cst {
            Const::PlatformString(s) => Const::PlatformString(self.relocate_string(source, s)),
            _ => cst,
        }
    }

    /// Copies the result of a pointer cast of `source` into this assembly.
    pub fn translate_ptr_cast(&mut self, source: &Assembly, cast_res: PtrCastRes) -> (r:
        PtrCastRes)
        requires
            old(self).wf(),
            source.wf(),
            source@.ptr_cast_ok(cast_res),
        ensures
            final(self).wf(),
            final(self)@.extends(&old(self)@),
            final(self)@.ptr_cast_ok(r),
            final(self)@.resolve_ptr_cast(r) == source@.resolve_ptr_cast(cast_res),
            old(self)@.knows_ptr_cast(source@.resolve_ptr_cast(cast_res)) ==> final(self)@ == old(self)@,
    {
        match cast_res {
            PtrCastRes::Ptr(inner) => PtrCastRes::Ptr(self.relocate_type(source, inner)),
            PtrCastRes::Ref(inner) => PtrCastRes::Ref(self.relocate_type(source, inner)),
            PtrCastRes::FnPtr(sig) => PtrCastRes::FnPtr(self.relocate_sig(source, sig)),
            PtrCastRes::USize | PtrCastRes::ISize => cast_res,
        }
    }

    /// Copies a node of `source` into this assembly: every operand and
    /// everything else that the node names is copied and interned here, and
    /// the node is put together again over the new handles.
    pub fn translate_node(&mut self, source: &Assembly, node: CILNode) -> (r: CILNode)
        requires
            old(self).wf(),
            source.wf(),
            source@.node_ok(&node),
        ensures
            final(self).wf(),
            final(self)@.extends(&old(self)@),
            final(self)@.node_ok(&r),
            final(self)@.resolve_node(&r) == source@.resolve_node(&node),
            old(self)@.knows_node(source@.resolve_node(&node)) ==> final(self)@ == old(self)@,
        decreases source@.resolve_node(&node), 0int,
    {
        proof {
            lemma_node_parts(source@.resolve_node(&node));
        }
        match node {
            CILNode::Const(cst) => {
                let cst = Box::new(self.translate_const(source, *cst));
                CILNode::Const(cst)
            },
            CILNode::BinOp(lhs, rhs, op) => {
                let lhs = self.relocate_node(source, lhs);
                let rhs = self.relocate_node(source, rhs);
                CILNode::BinOp(lhs, rhs, op)
            },
            CILNode::UnOp(arg, op) => {
                let arg = self.relocate_node(source, arg);
                CILNode::UnOp(arg, op)
            },
            CILNode::LdLoc(loc) => CILNode::LdLoc(loc),
            CILNode::LdLocA(loc) => CILNode::LdLocA(loc),
            CILNode::LdArg(arg) => CILNode::LdArg(arg),
            CILNode::LdArgA(arg) => CILNode::LdArgA(arg),
            CILNode::Call(call) => {
                let (mref, args) = *call;
                let mref = self.relocate_method_ref(source, mref);
                let args = self.relocate_nodes(source, &args);
                CILNode::Call(Box::new((mref, args)))
            },
            CILNode::IntCast { input, target, extend } => {
                let input = self.relocate_node(source, input);
                CILNode::IntCast { input, target, extend }
            },
            CILNode::FloatCast { input, target, is_signed } => {
                let input = self.relocate_node(source, input);
                CILNode::FloatCast { input, target, is_signed }
            },
            CILNode::RefToPtr(input) => {
                let input = self.relocate_node(source, input);
                CILNode::RefToPtr(input)
            },
            CILNode::PtrCast(input, cast_res) => {
                let input = self.relocate_node(source, input);
                let cast_res = Box::new(self.translate_ptr_cast(source, *cast_res));
                CILNode::PtrCast(input, cast_res)
            },
            CILNode::LdFieldAdress { addr, field } => {
                let field = self.relocate_field(source, field);
                let addr = self.relocate_node(source, addr);
                CILNode::LdFieldAdress { addr, field }
            },
            CILNode::LdField { addr, field } => {
                let field = self.relocate_field(source, field);
                let addr = self.relocate_node(source, addr);
                CILNode::LdField { addr, field }
            },
            CILNode::LdInd { addr, tpe, volitale } => {
                let addr = self.relocate_node(source, addr);
                let tpe = self.relocate_type(source, tpe);
                CILNode::LdInd { addr, tpe, volitale }
            },
            CILNode::SizeOf(tpe) => {
                let tpe = self.relocate_type(source, tpe);
                CILNode::SizeOf(tpe)
            },
            CILNode::GetException => CILNode::GetException,
            CILNode::IsInst(object, tpe) => {
                let object = self.relocate_node(source, object);
                let tpe = self.relocate_type(source, tpe);
                CILNode::IsInst(object, tpe)
            },
            CILNode::CheckedCast(object, tpe) => {
                let object = self.relocate_node(source, object);
                let tpe = self.relocate_type(source, tpe);
                CILNode::CheckedCast(object, tpe)
            },
            CILNode::CallI(call) => {
                let (fnptr, sig, args) = *call;
                let fnptr = self.relocate_node(source, fnptr);
                let sig = self.relocate_sig(source, sig);
                let args = self.relocate_nodes(source, &args);
                CILNode::CallI(Box::new((fnptr, sig, args)))
            },
            CILNode::LocAlloc { size } => {
                let size = self.relocate_node(source, size);
                CILNode::LocAlloc { size }
            },
            CILNode::LdStaticField(sfld) => {
                let sfld = self.relocate_static_field(source, sfld);
                CILNode::LdStaticField(sfld)
            },
            CILNode::LdFtn(mref) => {
                let mref = self.relocate_method_ref(source, mref);
                CILNode::LdFtn(mref)
            },
            CILNode::LdTypeToken(tpe) => {
                let tpe = self.relocate_type(source, tpe);
                CILNode::LdTypeToken(tpe)
            },
            CILNode::LdLen(array) => {
                let array = self.relocate_node(source, array);
                CILNode::LdLen(array)
            },
            CILNode::LocAllocAlgined { tpe, align } => {
                let tpe = self.relocate_type(source, tpe);
                CILNode::LocAllocAlgined { tpe, align }
            },
            CILNode::LdElelemRef { array, index } => {
                let array = self.relocate_node(source, array);
                let index = self.relocate_node(source, index);
                CILNode::LdElelemRef { array, index }
            },
            CILNode::UnboxAny { object, tpe } => {
                let object = self.relocate_node(source, object);
                let tpe = self.relocate_type(source, tpe);
                CILNode::UnboxAny { object, tpe }
            },
        }
    }

    /// Copies the node behind a handle of `source` into this assembly and
    /// interns the copy.
    pub fn relocate_node(&mut self, source: &Assembly, h: NodeIdx) -> (r: NodeIdx)
        requires
            old(self).wf(),
            source.wf(),
            source@.has_node(h),
        ensures
            final(self).wf(),
            final(self)@.extends(&old(self)@),
            final(self)@.has_node(r),
            final(self)@.node_tree(r) == source@.node_tree(h),
            old(self)@.holds_node_tree(source@.node_tree(h)) ==> final(self)@ == old(self)@,
        decreases source@.node_tree(h), 1int,
    {
        let ghost pre = self@;
        proof {
            if pre.holds_node_tree(source@.node_tree(h)) {
                let k = choose|k: NodeIdx|
                    pre.has_node(k) && #[trigger] pre.node_tree(k) == source@.node_tree(h);
                lemma_node_tree_known(&pre, k);
            }
        }
        let v = source.get_node(h).duplicate();
        let v = self.translate_node(source, v);
        proof {
            if pre.holds_node_tree(source@.node_tree(h)) {
                let k = choose|k: NodeIdx|
                    pre.has_node(k) && #[trigger] pre.node_tree(k) == source@.node_tree(h);
                lemma_node_held(&pre, &v, k);
            }
        }
        self.alloc_node(v)
    }

    /// Copies the nodes behind a list of handles of `source` into this
    /// assembly and interns the copies.
    pub fn relocate_nodes(&mut self, source: &Assembly, nodes: &Vec<NodeIdx>) -> (r: Vec<NodeIdx>)
        requires
            old(self).wf(),
            source.wf(),
            source@.nodes_ok(nodes@),
        ensures
            final(self).wf(),
            final(self)@.extends(&old(self)@),
            final(self)@.nodes_ok(r@),
            final(self)@.node_trees(r@) == source@.node_trees(nodes@),
            old(self)@.holds_node_trees(source@.node_trees(nodes@)) ==> final(self)@ == old(self)@,
        decreases source@.node_trees(nodes@), 0int,
    {
        let mut r: Vec<NodeIdx> = Vec::new();
        let mut i: usize = 0;
        while i < nodes.len()
            invariant
                old(self)@.holds_node_trees(source@.node_trees(nodes@)) ==> self@ == old(self)@,
                self.wf(),
                source.wf(),
                source@.nodes_ok(nodes@),
                self@.extends(&old(self)@),
                i <= nodes.len(),
                r@.len() == i,
                self@.nodes_ok(r@),
                forall|k: int|
                    0 <= k < i ==> self@.node_tree(#[trigger] r@[k]) == source@.node_tree(nodes@[k]),
            decreases nodes.len() - i,
        {
            let ghost mid = self@;
            proof {
                if old(self)@.holds_node_trees(source@.node_trees(nodes@)) {
                    assert(old(self)@.holds_node_tree(source@.node_trees(nodes@)[i as int]));
                }
            }
            proof {
                assert(source@.node_trees(nodes@)[i as int] == source@.node_tree(nodes@[i as int]));
            }
            let n = self.relocate_node(source, nodes[i]);
            proof {
                lemma_nodes_stable(&mid, &self@, r@);
                assert forall|k: int| 0 <= k < i implies self@.node_tree(#[trigger] r@[k])
                    == source@.node_tree(nodes@[k]) by {
                    assert(mid.node_trees(r@)[k] == self@.node_trees(r@)[k]);
                }
            }
            r.push(n);
            i += 1;
        }
        proof {
            assert(self@.node_trees(r@) =~= source@.node_trees(nodes@));
        }
        r
    }

    /// Copies a branch condition of `source` into this assembly.
    pub fn translate_cond(&mut self, source: &Assembly, cond: Option<BranchCond>) -> (r: Option<
        BranchCond,
    >)
        requires
            old(self).wf(),
            source.wf(),
            source@.cond_ok(cond),
        ensures
            final(self).wf(),
            final(self)@.extends(&old(self)@),
            final(self)@.cond_ok(r),
            final(self)@.resolve_cond(r) == source@.resolve_cond(cond),
            old(self)@.knows_cond(source@.resolve_cond(cond)) ==> final(self)@ == old(self)@,
    {
        match cond {
            Some(BranchCond::True(cond)) => {
                let cond = self.relocate_node(source, cond);
                Some(BranchCond::True(cond))
            },
            Some(BranchCond::False(cond)) => {
                let cond = self.relocate_node(source, cond);
                Some(BranchCond::False(cond))
            },
            Some(BranchCond::Eq(a, b)) => {
                let a = self.relocate_node(source, a);
                let b = self.relocate_node(source, b);
                Some(BranchCond::Eq(a, b))
            },
            Some(BranchCond::Ne(a, b)) => {
                let a = self.relocate_node(source, a);
                let b = self.relocate_node(source, b);
                Some(BranchCond::Ne(a, b))
            },
            Some(BranchCond::Lt(a, b, cmp_kind)) => {
                let a = self.relocate_node(source, a);
                let b = self.relocate_node(source, b);
                Some(BranchCond::Lt(a, b, cmp_kind))
            },
            Some(BranchCond::Gt(a, b, cmp_kind)) => {
                let a = self.relocate_node(source, a);
                let b = self.relocate_node(source, b);
                Some(BranchCond::Gt(a, b, cmp_kind))
            },
            None => None,
        }
    }

    /// Copies a root of `source` into this assembly: every operand and
    /// everything else that the root names is copied and interned here, and
    /// the root is put together again over the new handles.
    pub fn translate_root(&mut self, source: &Assembly, root: CILRoot) -> (r: CILRoot)
        requires
            old(self).wf(),
            source.wf(),
            source@.root_ok(&root),
        ensures
            final(self).wf(),
            final(self)@.extends(&old(self)@),
            final(self)@.root_ok(&r),
            final(self)@.resolve_root(&r) == source@.resolve_root(&root),
            old(self)@.knows_root(source@.resolve_root(&root)) ==> final(self)@ == old(self)@,
    {
        match root {
            CILRoot::StLoc(loc, node) => {
                let node = self.relocate_node(source, node);
                CILRoot::StLoc(loc, node)
            },
            CILRoot::StArg(arg, node) => {
                let node = self.relocate_node(source, node);
                CILRoot::StArg(arg, node)
            },
            CILRoot::Ret(node) => {
                let node = self.relocate_node(source, node);
                CILRoot::Ret(node)
            },
            CILRoot::Pop(node) => {
                let node = self.relocate_node(source, node);
                CILRoot::Pop(node)
            },
            CILRoot::Throw(node) => {
                let node = self.relocate_node(source, node);
                CILRoot::Throw(node)
            },
            CILRoot::VoidRet => CILRoot::VoidRet,
            CILRoot::Break => CILRoot::Break,
            CILRoot::Nop => CILRoot::Nop,
            CILRoot::Branch(info) => {
                let (target, sub_target, cond) = *info;
                let cond = self.translate_cond(source, cond);
                CILRoot::Branch(Box::new((target, sub_target, cond)))
            },
            CILRoot::SetField(info) => {
                let (field, addr, val) = *info;
                let field = self.relocate_field(source, field);
                let addr = self.relocate_node(source, addr);
                let val = self.relocate_node(source, val);
                CILRoot::SetField(Box::new((field, addr, val)))
            },
            CILRoot::Call(call) => {
                let (mref, args) = *call;
                let mref = self.relocate_method_ref(source, mref);
                let args = self.relocate_nodes(source, &args);
                CILRoot::Call(Box::new((mref, args)))
            },
            CILRoot::StInd(info) => {
                let (addr, val, tpe, volitale) = *info;
                let addr = self.relocate_node(source, addr);
                let val = self.relocate_node(source, val);
                let tpe = self.translate_type(source, tpe);
                CILRoot::StInd(Box::new((addr, val, tpe, volitale)))
            },
            CILRoot::InitBlk(info) => {
                let (dst, val, count) = *info;
                let dst = self.relocate_node(source, dst);
                let val = self.relocate_node(source, val);
                let count = self.relocate_node(source, count);
                CILRoot::InitBlk(Box::new((dst, val, count)))
            },
            CILRoot::CpBlk(info) => {
                let (dst, src, len) = *info;
                let dst = self.relocate_node(source, dst);
                let src = self.relocate_node(source, src);
                let len = self.relocate_node(source, len);
                CILRoot::CpBlk(Box::new((dst, src, len)))
            },
            CILRoot::CallI(call) => {
                let (fnptr, sig, args) = *call;
                let fnptr = self.relocate_node(source, fnptr);
                let sig = self.relocate_sig(source, sig);
                let args = self.relocate_nodes(source, &args);
                CILRoot::CallI(Box::new((fnptr, sig, args)))
            },
            CILRoot::ExitSpecialRegion { target, source } => CILRoot::ExitSpecialRegion {
                target,
                source,
            },
            CILRoot::ReThrow => CILRoot::ReThrow,
            CILRoot::SetStaticField { field, val } => {
                let val = self.relocate_node(source, val);
                let field = self.relocate_static_field(source, field);
                CILRoot::SetStaticField { field, val }
            },
            CILRoot::SourceFileInfo { line_start, line_len, col_start, col_len, file } => {
                let file = self.relocate_string(source, file);
                CILRoot::SourceFileInfo { line_start, line_len, col_start, col_len, file }
            },
        }
    }

    /// Copies the root behind a handle of `source` into this assembly and
    /// interns the copy.
    pub fn relocate_root(&mut self, source: &Assembly, h: RootIdx) -> (r: RootIdx)
        requires
            old(self).wf(),
            source.wf(),
            source@.has_root(h),
        ensures
            final(self).wf(),
            final(self)@.extends(&old(self)@),
            final(self)@.has_root(r),
            final(self)@.root_tree(r) == source@.root_tree(h),
            old(self)@.holds_root_tree(source@.root_tree(h)) ==> final(self)@ == old(self)@,
    {
        let ghost pre = self@;
        proof {
            if pre.holds_root_tree(source@.root_tree(h)) {
                let k = choose|k: RootIdx|
                    pre.has_root(k) && #[trigger] pre.root_tree(k) == source@.root_tree(h);
                lemma_root_tree_known(&pre, k);
            }
        }
        let v = source.get_root(h).duplicate();
        let v = self.translate_root(source, v);
        proof {
            if pre.holds_root_tree(source@.root_tree(h)) {
                let k = choose|k: RootIdx|
                    pre.has_root(k) && #[trigger] pre.root_tree(k) == source@.root_tree(h);
                lemma_root_held(&pre, &v, k);
            }
        }
        self.alloc_root(v)
    }

    /// Copies the roots behind a list of handles of `source` into this
    /// assembly and interns the copies, keeping their order.
    pub fn relocate_roots(&mut self, source: &Assembly, roots: &Vec<RootIdx>) -> (r: Vec<RootIdx>)
        requires
            old(self).wf(),
            source.wf(),
            source@.roots_ok(roots@),
        ensures
            final(self).wf(),
            final(self)@.extends(&old(self)@),
            final(self)@.roots_ok(r@),
            final(self)@.root_trees(r@) == source@.root_trees(roots@),
            old(self)@.holds_root_trees(source@.root_trees(roots@)) ==> final(self)@ == old(self)@,
    {
        let mut r: Vec<RootIdx> = Vec::new();
        let mut i: usize = 0;
        while i < roots.len()
            invariant
                old(self)@.holds_root_trees(source@.root_trees(roots@)) ==> self@ == old(self)@,
                self.wf(),
                source.wf(),
                source@.roots_ok(roots@),
                self@.extends(&old(self)@),
                i <= roots.len(),
                r@.len() == i,
                self@.roots_ok(r@),
                forall|k: int|
                    0 <= k < i ==> self@.root_tree(#[trigger] r@[k]) == source@.root_tree(roots@[k]),
            decreases roots.len() - i,
        {
            let ghost mid = self@;
            proof {
                if old(self)@.holds_root_trees(source@.root_trees(roots@)) {
                    assert(source@.root_trees(roots@)[i as int] == source@.root_tree(roots@[i as int]));
                    assert(old(self)@.holds_root_tree(source@.root_trees(roots@)[i as int]));
                }
            }
            let n = self.relocate_root(source, roots[i]);
            proof {
                lemma_roots_stable(&mid, &self@, r@);
                assert forall|k: int| 0 <= k < i implies self@.root_tree(#[trigger] r@[k])
                    == source@.root_tree(roots@[k]) by {
                    assert(mid.root_trees(r@)[k] == self@.root_trees(r@)[k]);
                }
            }
            r.push(n);
            i += 1;
        }
        proof {
            assert(self@.root_trees(r@) =~= source@.root_trees(roots@));
        }
        r
    }

    /// Copies a block of `source` into this assembly: its roots in their
    /// order, then its handlers, block by block, in the same nesting.
    pub fn translate_block(&mut self, source: &Assembly, block: &BasicBlock) -> (r: BasicBlock)
        requires
            old(self).wf(),
            source.wf(),
            source@.block_ok(block),
        ensures
            final(self).wf(),
            final(self)@.extends(&old(self)@),
            final(self)@.block_ok(&r),
            final(self)@.resolve_block(&r) == source@.resolve_block(block),
            old(self)@.knows_block(source@.resolve_block(block)) ==> final(self)@ == old(self)@,
        decreases block, 0int,
    {
        let roots = self.relocate_roots(source, block.roots());
        let ghost mid = self@;
        let handler = match block.handler() {
            Some(blocks) => Some(self.translate_blocks(source, blocks)),
            None => None,
        };
        proof {
            lemma_roots_stable(&mid, &self@, roots@);
        }
        BasicBlock::new(roots, block.block_id(), handler)
    }

    /// Copies a list of blocks of `source` into this assembly, keeping
    /// their order.
    pub fn translate_blocks(&mut self, source: &Assembly, blocks: &Vec<BasicBlock>) -> (r: Vec<
        BasicBlock,
    >)
        requires
            old(self).wf(),
            source.wf(),
            source@.blocks_ok(blocks@),
        ensures
            final(self).wf(),
            final(self)@.extends(&old(self)@),
            final(self)@.blocks_ok(r@),
            final(self)@.resolve_blocks(r@) == source@.resolve_blocks(blocks@),
            old(self)@.knows_blocks(source@.resolve_blocks(blocks@)) ==> final(self)@ == old(self)@,
        decreases blocks, 1int,
    {
        let mut r: Vec<BasicBlock> = Vec::new();
        let mut i: usize = 0;
        while i < blocks.len()
            invariant
                old(self)@.knows_blocks(source@.resolve_blocks(blocks@)) ==> self@ == old(self)@,
                self.wf(),
                source.wf(),
                source@.blocks_ok(blocks@),
                self@.extends(&old(self)@),
                i <= blocks.len(),
                r@.len() == i,
                self@.blocks_ok(r@),
                forall|k: int|
                    0 <= k < i ==> self@.resolve_block(#[trigger] &r@[k]) == source@.resolve_block(
                        &blocks@[k],
                    ),
            decreases blocks.len() - i,
        {
            let ghost mid = self@;
            proof {
                if old(self)@.knows_blocks(source@.resolve_blocks(blocks@)) {
                    assert(source@.resolve_blocks(blocks@)[i as int] == source@.resolve_block(&blocks@[i as int]));
                    assert(old(self)@.knows_block(source@.resolve_blocks(blocks@)[i as int]));
                }
            }
            let b = self.translate_block(source, &blocks[i]);
            proof {
                lemma_blocks_stable(&mid, &self@, r@);
                assert forall|k: int| 0 <= k < i implies self@.resolve_block(#[trigger] &r@[k])
                    == source@.resolve_block(&blocks@[k]) by {
                    assert(mid.resolve_blocks(r@)[k] == self@.resolve_blocks(r@)[k]);
                }
            }
            r.push(b);
            i += 1;
        }
        proof {
            assert(self@.resolve_blocks(r@) =~= source@.resolve_blocks(blocks@));
        }
        r
    }
}

} // verus!
