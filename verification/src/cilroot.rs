//! Roots: the instructions that have an effect and produce no value, and
//! the basic blocks that hold them.

use crate::arena::{duplicate_list, Interned};
use crate::cilnode::{digest_nodes, fingerprint_nodes, same_nodes};
use crate::digest::{mix, DIGEST_SEED};
use crate::handles::{FieldIdx, MethodRefIdx, NodeIdx, SigIdx, StaticFieldIdx, StringIdx};
use crate::tpe::Type;
use vstd::prelude::*;

verus! {

/// How the operands of an ordering comparison are read.
#[derive(Clone, Copy, PartialEq, Eq, Hash, Debug, Structural)]
pub enum CmpKind {
    Ordered,
    Unordered,
    Signed,
    Unsigned,
}

/// The condition under which a branch is taken.
#[derive(Clone, Copy, PartialEq, Eq, Hash, Debug, Structural)]
pub enum BranchCond {
    True(NodeIdx),
    False(NodeIdx),
    Eq(NodeIdx, NodeIdx),
    Ne(NodeIdx, NodeIdx),
    Lt(NodeIdx, NodeIdx, CmpKind),
    Gt(NodeIdx, NodeIdx, CmpKind),
}

/// The digest of a branch condition.
pub open spec fn digest_cond(c: Option<BranchCond>) -> u64 {
    match c {
        Some(BranchCond::True(a)) => mix(mix(DIGEST_SEED, 1), a.0 as u64),
        Some(BranchCond::False(a)) => mix(mix(DIGEST_SEED, 2), a.0 as u64),
        Some(BranchCond::Eq(a, b)) => mix(mix(mix(DIGEST_SEED, 3), a.0 as u64), b.0 as u64),
        Some(BranchCond::Ne(a, b)) => mix(mix(mix(DIGEST_SEED, 4), a.0 as u64), b.0 as u64),
        Some(BranchCond::Lt(a, b, _)) => mix(mix(mix(DIGEST_SEED, 5), a.0 as u64), b.0 as u64),
        Some(BranchCond::Gt(a, b, _)) => mix(mix(mix(DIGEST_SEED, 6), a.0 as u64), b.0 as u64),
        None => mix(DIGEST_SEED, 7),
    }
}

/// Computes the digest of a branch condition.
pub fn fingerprint_cond(c: Option<BranchCond>) -> (r: u64)
    ensures
        r == digest_cond(c),
{
    match c {
        Some(BranchCond::True(a)) => mix(mix(DIGEST_SEED, 1), a.0 as u64),
        Some(BranchCond::False(a)) => mix(mix(DIGEST_SEED, 2), a.0 as u64),
        Some(BranchCond::Eq(a, b)) => mix(mix(mix(DIGEST_SEED, 3), a.0 as u64), b.0 as u64),
        Some(BranchCond::Ne(a, b)) => mix(mix(mix(DIGEST_SEED, 4), a.0 as u64), b.0 as u64),
        Some(BranchCond::Lt(a, b, _)) => mix(mix(mix(DIGEST_SEED, 5), a.0 as u64), b.0 as u64),
        Some(BranchCond::Gt(a, b, _)) => mix(mix(mix(DIGEST_SEED, 6), a.0 as u64), b.0 as u64),
        None => mix(DIGEST_SEED, 7),
    }
}

/// An instruction that has an effect and produces no value.
#[derive(Clone, PartialEq, Eq, Hash, Debug)]
pub enum CILRoot {
    /// Stores a value in a local variable
    StLoc(u32, NodeIdx),
    /// Stores a value in an argument
    StArg(u32, NodeIdx),
    /// Returns a value
    Ret(NodeIdx),
    /// Evaluates a value and discards it
    Pop(NodeIdx),
    /// Throws an exception object
    Throw(NodeIdx),
    /// Returns nothing
    VoidRet,
    /// Signals a debugger breakpoint
    Break,
    /// Does nothing
    Nop,
    /// Jumps to a block, always or under a condition
    Branch(Box<(u32, u32, Option<BranchCond>)>),
    /// Sets a field of the object at an address
    SetField(Box<(FieldIdx, NodeIdx, NodeIdx)>),
    /// Calls a method and discards what it returns
    Call(Box<(MethodRefIdx, Vec<NodeIdx>)>),
    /// Stores a value of a type at an address
    StInd(Box<(NodeIdx, NodeIdx, Type, bool)>),
    /// Fills a block of memory with a byte
    InitBlk(Box<(NodeIdx, NodeIdx, NodeIdx)>),
    /// Copies a block of memory
    CpBlk(Box<(NodeIdx, NodeIdx, NodeIdx)>),
    /// Calls a function pointer and discards what it returns
    CallI(Box<(NodeIdx, SigIdx, Vec<NodeIdx>)>),
    /// Leaves an exception-protected region
    ExitSpecialRegion { target: u32, source: u32 },
    /// Throws the current exception again
    ReThrow,
    /// Sets a static field
    SetStaticField { field: StaticFieldIdx, val: NodeIdx },
    /// Marks a source location
    SourceFileInfo { line_start: u32, line_len: u16, col_start: u16, col_len: u16, file: StringIdx },
}

impl Interned for CILRoot {
    open spec fn alike(&self, other: &Self) -> bool {
        match (self, other) {
            (CILRoot::Call(a), CILRoot::Call(b)) => a.0 == b.0 && a.1@ == b.1@,
            (CILRoot::CallI(a), CILRoot::CallI(b)) => a.0 == b.0 && a.1 == b.1 && a.2@ == b.2@,
            _ => *self == *other,
        }
    }

    proof fn alike_is_equivalence(a: &Self, b: &Self, c: &Self) {
    }

    fn same(&self, other: &Self) -> (r: bool) {
        match (self, other) {
            (CILRoot::StLoc(a_loc, a_node), CILRoot::StLoc(b_loc, b_node)) => *a_loc == *b_loc
                && *a_node == *b_node,
            (CILRoot::StArg(a_arg, a_node), CILRoot::StArg(b_arg, b_node)) => *a_arg == *b_arg
                && *a_node == *b_node,
            (CILRoot::Ret(a_node), CILRoot::Ret(b_node)) => *a_node == *b_node,
            (CILRoot::Pop(a_node), CILRoot::Pop(b_node)) => *a_node == *b_node,
            (CILRoot::Throw(a_node), CILRoot::Throw(b_node)) => *a_node == *b_node,
            (CILRoot::VoidRet, CILRoot::VoidRet) => true,
            (CILRoot::Break, CILRoot::Break) => true,
            (CILRoot::Nop, CILRoot::Nop) => true,
            (CILRoot::Branch(a), CILRoot::Branch(b)) => a.0 == b.0 && a.1 == b.1 && a.2 == b.2,
            (CILRoot::SetField(a), CILRoot::SetField(b)) => a.0 == b.0 && a.1 == b.1 && a.2 == b.2,
            (CILRoot::Call(a), CILRoot::Call(b)) => a.0 == b.0 && same_nodes(&a.1, &b.1),
            (CILRoot::StInd(a), CILRoot::StInd(b)) => a.0 == b.0
                && a.1 == b.1
                && a.2 == b.2
                && a.3 == b.3,
            (CILRoot::InitBlk(a), CILRoot::InitBlk(b)) => a.0 == b.0 && a.1 == b.1 && a.2 == b.2,
            (CILRoot::CpBlk(a), CILRoot::CpBlk(b)) => a.0 == b.0 && a.1 == b.1 && a.2 == b.2,
            (CILRoot::CallI(a), CILRoot::CallI(b)) => a.0 == b.0
                && a.1 == b.1
                && same_nodes(&a.2, &b.2),
            (
                CILRoot::ExitSpecialRegion { target: a_target, source: a_source },
                CILRoot::ExitSpecialRegion { target: b_target, source: b_source },
            ) => *a_target == *b_target && *a_source == *b_source,
            (CILRoot::ReThrow, CILRoot::ReThrow) => true,
            (
                CILRoot::SetStaticField { field: a_field, val: a_val },
                CILRoot::SetStaticField { field: b_field, val: b_val },
            ) => *a_field == *b_field && *a_val == *b_val,
            (
                CILRoot::SourceFileInfo {
                    line_start: a_line_start,
                    line_len: a_line_len,
                    col_start: a_col_start,
                    col_len: a_col_len,
                    file: a_file,
                },
                CILRoot::SourceFileInfo {
                    line_start: b_line_start,
                    line_len: b_line_len,
                    col_start: b_col_start,
                    col_len: b_col_len,
                    file: b_file,
                },
            ) => *a_line_start == *b_line_start
                && *a_line_len == *b_line_len
                && *a_col_start == *b_col_start
                && *a_col_len == *b_col_len
                && *a_file == *b_file,
            _ => false,
        }
    }

    fn duplicate(&self) -> (r: Self) {
        match self {
            CILRoot::StLoc(loc, node) => CILRoot::StLoc(*loc, *node),
            CILRoot::StArg(arg, node) => CILRoot::StArg(*arg, *node),
            CILRoot::Ret(node) => CILRoot::Ret(*node),
            CILRoot::Pop(node) => CILRoot::Pop(*node),
            CILRoot::Throw(node) => CILRoot::Throw(*node),
            CILRoot::VoidRet => CILRoot::VoidRet,
            CILRoot::Break => CILRoot::Break,
            CILRoot::Nop => CILRoot::Nop,
            CILRoot::Branch(info) => CILRoot::Branch(Box::new((info.0, info.1, info.2))),
            CILRoot::SetField(info) => CILRoot::SetField(Box::new((info.0, info.1, info.2))),
            CILRoot::Call(call) => CILRoot::Call(Box::new((call.0, duplicate_list(&call.1)))),
            CILRoot::StInd(info) => CILRoot::StInd(Box::new((info.0, info.1, info.2, info.3))),
            CILRoot::InitBlk(info) => CILRoot::InitBlk(Box::new((info.0, info.1, info.2))),
            CILRoot::CpBlk(info) => CILRoot::CpBlk(Box::new((info.0, info.1, info.2))),
            CILRoot::CallI(call) => CILRoot::CallI(
                Box::new((call.0, call.1, duplicate_list(&call.2))),
            ),
            CILRoot::ExitSpecialRegion { target, source } => CILRoot::ExitSpecialRegion {
                target: *target,
                source: *source,
            },
            CILRoot::ReThrow => CILRoot::ReThrow,
            CILRoot::SetStaticField { field, val } => CILRoot::SetStaticField {
                field: *field,
                val: *val,
            },
            CILRoot::SourceFileInfo { line_start, line_len, col_start, col_len, file } => {
                CILRoot::SourceFileInfo {
                    line_start: *line_start,
                    line_len: *line_len,
                    col_start: *col_start,
                    col_len: *col_len,
                    file: *file,
                }
            },
        }
    }

    open spec fn digest(&self) -> u64 {
        match *self {
            CILRoot::StLoc(loc, node) => mix(mix(mix(DIGEST_SEED, 1), loc as u64), node.0 as u64),
            CILRoot::StArg(arg, node) => mix(mix(mix(DIGEST_SEED, 2), arg as u64), node.0 as u64),
            CILRoot::Ret(node) => mix(mix(DIGEST_SEED, 3), node.0 as u64),
            CILRoot::Pop(node) => mix(mix(DIGEST_SEED, 4), node.0 as u64),
            CILRoot::Throw(node) => mix(mix(DIGEST_SEED, 5), node.0 as u64),
            CILRoot::VoidRet => mix(DIGEST_SEED, 6),
            CILRoot::Break => mix(DIGEST_SEED, 7),
            CILRoot::Nop => mix(DIGEST_SEED, 8),
            CILRoot::Branch(info) => mix(
                mix(mix(mix(DIGEST_SEED, 9), info.0 as u64), info.1 as u64),
                digest_cond(info.2),
            ),
            CILRoot::SetField(info) => mix(
                mix(mix(mix(DIGEST_SEED, 10), info.0.0 as u64), info.1.0 as u64),
                info.2.0 as u64,
            ),
            CILRoot::Call(info) => mix(
                mix(mix(DIGEST_SEED, 11), info.0.0 as u64),
                digest_nodes(info.1@),
            ),
            CILRoot::StInd(info) => mix(
                mix(mix(mix(DIGEST_SEED, 12), info.0.0 as u64), info.1.0 as u64),
                info.2.digest(),
            ),
            CILRoot::InitBlk(info) => mix(
                mix(mix(mix(DIGEST_SEED, 13), info.0.0 as u64), info.1.0 as u64),
                info.2.0 as u64,
            ),
            CILRoot::CpBlk(info) => mix(
                mix(mix(mix(DIGEST_SEED, 14), info.0.0 as u64), info.1.0 as u64),
                info.2.0 as u64,
            ),
            CILRoot::CallI(info) => mix(
                mix(mix(mix(DIGEST_SEED, 15), info.0.0 as u64), info.1.0 as u64),
                digest_nodes(info.2@),
            ),
            CILRoot::ExitSpecialRegion { target, source } => mix(
                mix(mix(DIGEST_SEED, 16), target as u64),
                source as u64,
            ),
            CILRoot::ReThrow => mix(DIGEST_SEED, 17),
            CILRoot::SetStaticField { field, val } => mix(
                mix(mix(DIGEST_SEED, 18), field.0 as u64),
                val.0 as u64,
            ),
            CILRoot::SourceFileInfo { line_start, line_len, col_start, col_len, file } => mix(
                mix(
                    mix(
                        mix(mix(mix(DIGEST_SEED, 19), line_start as u64), line_len as u64),
                        col_start as u64,
                    ),
                    col_len as u64,
                ),
                file.0 as u64,
            ),
        }
    }

    proof fn digest_respects_alike(a: &Self, b: &Self) {
    }

    fn fingerprint(&self) -> (r: u64) {
        match self {
            CILRoot::StLoc(loc, node) => mix(mix(mix(DIGEST_SEED, 1), *loc as u64), node.0 as u64),
            CILRoot::StArg(arg, node) => mix(mix(mix(DIGEST_SEED, 2), *arg as u64), node.0 as u64),
            CILRoot::Ret(node) => mix(mix(DIGEST_SEED, 3), node.0 as u64),
            CILRoot::Pop(node) => mix(mix(DIGEST_SEED, 4), node.0 as u64),
            CILRoot::Throw(node) => mix(mix(DIGEST_SEED, 5), node.0 as u64),
            CILRoot::VoidRet => mix(DIGEST_SEED, 6),
            CILRoot::Break => mix(DIGEST_SEED, 7),
            CILRoot::Nop => mix(DIGEST_SEED, 8),
            CILRoot::Branch(info) => mix(
                mix(mix(mix(DIGEST_SEED, 9), info.0 as u64), info.1 as u64),
                fingerprint_cond(info.2),
            ),
            CILRoot::SetField(info) => mix(
                mix(mix(mix(DIGEST_SEED, 10), info.0.0 as u64), info.1.0 as u64),
                info.2.0 as u64,
            ),
            CILRoot::Call(info) => mix(
                mix(mix(DIGEST_SEED, 11), info.0.0 as u64),
                fingerprint_nodes(&info.1),
            ),
            CILRoot::StInd(info) => mix(
                mix(mix(mix(DIGEST_SEED, 12), info.0.0 as u64), info.1.0 as u64),
                info.2.fingerprint(),
            ),
            CILRoot::InitBlk(info) => mix(
                mix(mix(mix(DIGEST_SEED, 13), info.0.0 as u64), info.1.0 as u64),
                info.2.0 as u64,
            ),
            CILRoot::CpBlk(info) => mix(
                mix(mix(mix(DIGEST_SEED, 14), info.0.0 as u64), info.1.0 as u64),
                info.2.0 as u64,
            ),
            CILRoot::CallI(info) => mix(
                mix(mix(mix(DIGEST_SEED, 15), info.0.0 as u64), info.1.0 as u64),
                fingerprint_nodes(&info.2),
            ),
            CILRoot::ExitSpecialRegion { target, source } => mix(
                mix(mix(DIGEST_SEED, 16), *target as u64),
                *source as u64,
            ),
            CILRoot::ReThrow => mix(DIGEST_SEED, 17),
            CILRoot::SetStaticField { field, val } => mix(
                mix(mix(DIGEST_SEED, 18), field.0 as u64),
                val.0 as u64,
            ),
            CILRoot::SourceFileInfo { line_start, line_len, col_start, col_len, file } => mix(
                mix(
                    mix(
                        mix(mix(mix(DIGEST_SEED, 19), *line_start as u64), *line_len as u64),
                        *col_start as u64,
                    ),
                    *col_len as u64,
                ),
                file.0 as u64,
            ),
        }
    }
}

} // verus!
