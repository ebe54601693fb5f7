//! An interned intermediate representation for a stack-machine bytecode and
//! the linker that moves it between modules.
//!
//! An [`assembly::Assembly`] owns every value of the representation: strings,
//! types, signatures, references to classes, fields and methods, nodes
//! (expressions), roots (statements) and definitions, each category in an
//! [`arena::Arena`] of its own that gives structurally equal values one
//! handle. Values name one another by handle, so the nodes of an assembly
//! form a shared graph and a handle means something only in the assembly
//! that issued it.
//!
//! What a value means does not depend on its handles: it is the tree that
//! the value resolves to when every handle is followed to the end
//! ([`resolved`], [`contents`]). Linking ([`asm_link`]) copies a value from
//! one assembly into another so that the copy resolves to the same tree;
//! typing ([`typing`]) gives the type of the value that a node produces;
//! the upgrade ([`from_v1`]) rewrites the nodes of the legacy representation
//! ([`v1`]) into interned nodes. An assembly keeps a journal of the order
//! in which it interned its values ([`journal`]), so that it can be taken
//! apart into plain lists and built again with every value under its old
//! handle ([`parts`]). The laws that hold of all of these are stated and
//! proved in [`laws`].

pub mod arena;
pub mod digest;
pub mod handles;
pub mod journal;
pub mod tpe;
pub mod cilnode;
pub mod cilroot;
pub mod class_ref;
pub mod method;
pub mod resolved;
pub mod contents;
pub mod frame;
pub mod stability;
pub mod unique;
pub mod known;
pub mod assembly;
pub mod asm_link;
pub mod meaning;
pub mod owns;
pub mod parts;
pub mod typing;
pub mod v1;
pub mod from_v1;
pub mod laws;
