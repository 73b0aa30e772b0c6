//! The concurrent interning table: the sequential core behind one
//! multi-reader/single-writer lock.
//!
//! The lock's invariant is the core's well-formedness, so every acquisition
//! hands out a well-formed state and every release must give one back.
//! `struct_name_to_idx` holds exclusive access across its whole
//! check-then-insert section — never a read check followed by a separate
//! write — which is what makes equal identifiers converge on one handle under
//! concurrency; `checked_len` can therefore promise success, and the
//! invariant-violation error kind is proved never to fire.

use crate::errors::TableError;
use crate::index_map::IndexMap;
use crate::types::{StructIdentifier, StructNameIndex, StructTag, TypeTag};
use std::sync::Arc;
use vstd::prelude::*;
use vstd::rwlock::{RwLock, RwLockPredicate};

verus! {

/// The lock invariant: the protected state is well formed.
pub struct WellFormed;

impl RwLockPredicate<IndexMap> for WellFormed {
    open spec fn inv(self, v: IndexMap) -> bool {
        v.wf()
    }
}

/// A table caching struct identifiers (address, module name, struct name)
/// under integer handles, to save memory and avoid needless cloning. It
/// guarantees that equal identifiers always correspond to one unique handle,
/// from whichever thread and in whatever order they are interned.
pub struct StructNameIndexMap {
    lock: RwLock<IndexMap, WellFormed>,
}

impl StructNameIndexMap {
    /// Returns an empty map with no entries.
    pub fn empty() -> Self {
        StructNameIndexMap { lock: RwLock::new(IndexMap::empty(), Ghost(WellFormed)) }
    }

    /// Flushes the cached struct names and handles under exclusive access,
    /// ending the current epoch: numbering restarts at zero, and previously
    /// issued handles dangle with respect to the new epoch.
    pub fn flush(&self) {
        let (mut table, write_handle) = self.lock.acquire_write();
        table.clear();
        write_handle.release_write(table);
    }

    /// Maps the struct identifier to a handle: the existing one when an equal
    /// identifier was interned before, a fresh dense one otherwise. The whole
    /// insert-or-get runs under one exclusive section, so for any identifiers
    /// A and B with A == B the returned handles are equal. Never fails.
    pub fn struct_name_to_idx(&self, struct_name: StructIdentifier) -> (r: Result<
        StructNameIndex,
        TableError,
    >)
        ensures
            r is Ok,
    {
        let (mut table, write_handle) = self.lock.acquire_write();
        let r = table.intern(struct_name);
        write_handle.release_write(table);
        r
    }

    /// Returns the shared identifier stored under the handle, so the caller
    /// can use it after the lock is released without cloning the payload.
    /// The only failure is an out-of-bounds defect: the handle is stale,
    /// foreign, or from a flushed epoch.
    pub fn idx_to_struct_name_ref(&self, idx: StructNameIndex) -> (r: Result<
        Arc<StructIdentifier>,
        TableError,
    >)
        ensures
            r matches Err(e) ==> e matches TableError::IndexOutOfBounds { index, length }
                && index == idx.0,
    {
        let read_handle = self.lock.acquire_read();
        let r = read_handle.borrow().lookup_ref(idx);
        read_handle.release_read();
        r
    }

    /// Returns an independent copy of the identifier stored under the handle,
    /// untied to the table's lock scope. The only failure is an out-of-bounds
    /// defect.
    pub fn idx_to_struct_name(&self, idx: StructNameIndex) -> (r: Result<
        StructIdentifier,
        TableError,
    >)
        ensures
            r matches Err(e) ==> e matches TableError::IndexOutOfBounds { index, length }
                && index == idx.0,
    {
        let read_handle = self.lock.acquire_read();
        let r = read_handle.borrow().lookup_owned(idx);
        read_handle.release_read();
        r
    }

    /// Assembles the tag for the identifier stored under the handle, passing
    /// the caller-supplied type arguments through verbatim and positionally,
    /// without validating their arity or well-formedness. The only failure is
    /// an out-of-bounds defect.
    pub fn idx_to_struct_tag(&self, idx: StructNameIndex, ty_args: Vec<TypeTag>) -> (r: Result<
        StructTag,
        TableError,
    >)
        ensures
            r matches Ok(tag) ==> tag@.type_args == ty_args@,
            r matches Err(e) ==> e matches TableError::IndexOutOfBounds { index, length }
                && index == idx.0,
    {
        let read_handle = self.lock.acquire_read();
        let r = read_handle.borrow().build_tag(idx, ty_args);
        read_handle.release_read();
        r
    }

    /// Reads both structures' lengths under shared access and returns the
    /// common one. The lock invariant keeps the two structures in step, so
    /// the length-mismatch defect this probe exists for never fires.
    pub fn checked_len(&self) -> (r: Result<usize, TableError>)
        ensures
            r is Ok,
    {
        let read_handle = self.lock.acquire_read();
        let r = read_handle.borrow().checked_len();
        read_handle.release_read();
        r
    }

    /// Produces an independent table holding a deep copy of the state at the
    /// moment shared access is obtained: a detached point-in-time duplicate,
    /// kept for consumers that cannot share one live table.
    pub fn snapshot_clone(&self) -> Self {
        let read_handle = self.lock.acquire_read();
        let copy = read_handle.borrow().duplicate();
        read_handle.release_read();
        StructNameIndexMap { lock: RwLock::new(copy, Ghost(WellFormed)) }
    }
}

} // verus!
