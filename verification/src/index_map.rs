//! The sequential core of the interning table: the state one lock protects.
//!
//! `IndexMap` owns the forward mapping (identifier to position) and the
//! backward sequence (position to shared identifier). Its model is the
//! sequence of identifier values the backward storage holds; every method's
//! contract is stated over that model with the spec functions of
//! [`crate::model`].

use crate::errors::TableError;
use crate::model::{contains_id, distinct_ids, interned_index, interned_seq};
use crate::model::lemma_id_index_unique;
use crate::types::{StructIdentifier, StructIdentifierView, StructNameIndex, StructTag,
    StructTagView, TypeTag};
use std::sync::Arc;
use vstd::prelude::*;

verus! {

/// Relies on `Arc::clone` of std, which returns a second handle to the same
/// allocation without touching the shared value, so the returned handle holds
/// a value equal to the argument's.
#[verifier::external_body]
fn clone_arc(a: &Arc<StructIdentifier>) -> (r: Arc<StructIdentifier>)
    ensures
        r == *a,
{
    Arc::clone(a)
}

/// The protected state: a forward mapping from identifier to position, and an
/// append-only backward sequence of shared, immutable identifiers, indexed by
/// position.
pub struct IndexMap {
    forward: Vec<(StructIdentifier, usize)>,
    backward: Vec<Arc<StructIdentifier>>,
}

impl View for IndexMap {
    type V = Seq<StructIdentifierView>;

    /// The model: the sequence of identifier values indexed by handle.
    closed spec fn view(&self) -> Seq<StructIdentifierView> {
        self.backward@.map_values(|a: Arc<StructIdentifier>| a@)
    }
}

impl IndexMap {
    /// Well-formedness: both structures have the same length, the forward
    /// entry at position k binds the identifier stored at position k to the
    /// handle k, and no identifier occupies two positions.
    pub closed spec fn wf(&self) -> bool {
        &&& self.forward@.len() == self.backward@.len()
        &&& forall|k: int|
            0 <= k < self.forward@.len() ==> (#[trigger] self.forward@[k]).1 == k
                && self.forward@[k].0@ == self@[k]
        &&& distinct_ids(self@)
    }

    /// Returns an empty map with no entries.
    pub fn empty() -> (r: Self)
        ensures
            r.wf(),
            r@ == Seq::<StructIdentifierView>::empty(),
    {
        let r = IndexMap { forward: Vec::new(), backward: Vec::new() };
        proof {
            assert(r@ =~= Seq::<StructIdentifierView>::empty());
        }
        r
    }

    /// Clears both structures, ending the current epoch: handle numbering
    /// restarts at zero.
    pub fn clear(&mut self)
        ensures
            final(self).wf(),
            final(self)@ == Seq::<StructIdentifierView>::empty(),
    {
        self.backward.clear();
        self.forward.clear();
        proof {
            assert(self@ =~= Seq::<StructIdentifierView>::empty());
        }
    }

    /// Insert-or-get under one exclusive section: returns the existing handle
    /// when an equal identifier is present, and otherwise appends the
    /// identifier, binding it to the next dense handle.
    ///
    /// The forward scan and the insertion happen on the same exclusively held
    /// state, so an insertion can never overwrite a prior binding; the
    /// well-formedness invariant carries that guarantee, so the eviction
    /// defect the error channel exists for is proved unreachable here.
    pub fn intern(&mut self, struct_name: StructIdentifier) -> (r: Result<
        StructNameIndex,
        TableError,
    >)
        requires
            old(self).wf(),
        ensures
            final(self).wf(),
            final(self)@ == interned_seq(old(self)@, struct_name@),
            r matches Ok(i) && i.0 == interned_index(old(self)@, struct_name@),
    {
        let n = self.forward.len();
        proof {
            assert(self@.len() == self.backward@.len());
        }
        let mut j: usize = 0;
        while j < n
            invariant
                n == self.forward@.len(),
                j <= n,
                self.wf(),
                *self == *old(self),
                forall|k: int| 0 <= k < j ==> self@[k] != struct_name@,
            decreases n - j,
        {
            if self.forward[j].0 == struct_name {
                let idx = self.forward[j].1;
                proof {
                    assert(self@[j as int] == struct_name@);
                    assert(contains_id(self@, struct_name@));
                    lemma_id_index_unique(self@, struct_name@);
                    assert(interned_index(self@, struct_name@) == j as int);
                    assert(interned_seq(self@, struct_name@) == self@);
                }
                return Ok(StructNameIndex(idx));
            }
            j += 1;
        }
        proof {
            assert(!contains_id(self@, struct_name@));
        }
        let idx = self.backward.len();
        let stored = struct_name.clone();
        self.forward.push((stored, idx));
        self.backward.push(Arc::new(struct_name));
        proof {
            assert(self@ =~= old(self)@.push(struct_name@));
            assert(self@ == interned_seq(old(self)@, struct_name@));
            assert forall|i: int, jj: int| 0 <= i < jj < self@.len() implies self@[i]
                != self@[jj] by {
                if jj < old(self)@.len() {
                    assert(old(self)@[i] != old(self)@[jj]);
                }
            }
            assert forall|k: int|
                0 <= k < self.forward@.len() implies (#[trigger] self.forward@[k]).1 == k
                && self.forward@[k].0@ == self@[k] by {
                if k < old(self).forward@.len() {
                    assert(old(self).forward@[k].1 == k);
                }
            }
        }
        Ok(StructNameIndex(idx))
    }

    /// Looks the handle up in the backward sequence and returns the shared
    /// identifier stored there, so the caller can keep it past the lock's
    /// scope without copying the payload. A handle at or beyond the current
    /// length is reported as an out-of-bounds defect.
    pub fn lookup_ref(&self, idx: StructNameIndex) -> (r: Result<
        Arc<StructIdentifier>,
        TableError,
    >)
        requires
            self.wf(),
        ensures
            idx.0 < self@.len() ==> (r matches Ok(name) && name@ == self@[idx.0 as int]),
            idx.0 >= self@.len() ==> r == Err::<Arc<StructIdentifier>, TableError>(
                TableError::IndexOutOfBounds { index: idx.0, length: self@.len() as usize },
            ),
    {
        let n = self.backward.len();
        proof {
            assert(self@.len() == self.backward@.len());
        }
        if idx.0 < n {
            Ok(clone_arc(&self.backward[idx.0]))
        } else {
            Err(TableError::IndexOutOfBounds { index: idx.0, length: n })
        }
    }

    /// Like [`IndexMap::lookup_ref`], but returns an independent copy of the
    /// identifier, untied to the table's storage.
    pub fn lookup_owned(&self, idx: StructNameIndex) -> (r: Result<StructIdentifier, TableError>)
        requires
            self.wf(),
        ensures
            idx.0 < self@.len() ==> (r matches Ok(name) && name@ == self@[idx.0 as int]),
            idx.0 >= self@.len() ==> r == Err::<StructIdentifier, TableError>(
                TableError::IndexOutOfBounds { index: idx.0, length: self@.len() as usize },
            ),
    {
        let n = self.backward.len();
        proof {
            assert(self@.len() == self.backward@.len());
        }
        if idx.0 < n {
            let shared = clone_arc(&self.backward[idx.0]);
            Ok((*shared).clone())
        } else {
            Err(TableError::IndexOutOfBounds { index: idx.0, length: n })
        }
    }

    /// Assembles the output record for the identifier at `idx`: its address,
    /// module name and struct name, with the caller-supplied type arguments
    /// copied in verbatim and positionally.
    pub fn build_tag(&self, idx: StructNameIndex, ty_args: Vec<TypeTag>) -> (r: Result<
        StructTag,
        TableError,
    >)
        requires
            self.wf(),
        ensures
            idx.0 < self@.len() ==> (r matches Ok(tag) && tag@ == (StructTagView {
                address: self@[idx.0 as int].module.address,
                module: self@[idx.0 as int].module.name,
                name: self@[idx.0 as int].name,
                type_args: ty_args@,
            })),
            idx.0 >= self@.len() ==> r == Err::<StructTag, TableError>(
                TableError::IndexOutOfBounds { index: idx.0, length: self@.len() as usize },
            ),
    {
        let n = self.backward.len();
        proof {
            assert(self@.len() == self.backward@.len());
        }
        if idx.0 < n {
            let shared = clone_arc(&self.backward[idx.0]);
            let ident = (*shared).clone();
            Ok(
                StructTag {
                    address: ident.module.address,
                    module: ident.module.name,
                    name: ident.name,
                    type_args: ty_args,
                },
            )
        } else {
            Err(TableError::IndexOutOfBounds { index: idx.0, length: n })
        }
    }

    /// Reads both structures' lengths and reports the common one; a mismatch
    /// would be an invariant-violation defect, and well-formedness proves the
    /// mismatch branch unreachable.
    pub fn checked_len(&self) -> (r: Result<usize, TableError>)
        requires
            self.wf(),
        ensures
            r matches Ok(n) && n == self@.len(),
    {
        let forward_len = self.forward.len();
        let backward_len = self.backward.len();
        if forward_len != backward_len {
            return Err(
                TableError::InvariantViolation {
                    forward_length: forward_len,
                    backward_length: backward_len,
                },
            );
        }
        Ok(forward_len)
    }

    /// Produces an independent deep copy of the current state: the copy and
    /// the original denote the same model but share no mutable storage.
    pub fn duplicate(&self) -> (r: Self)
        requires
            self.wf(),
        ensures
            r.wf(),
            r@ == self@,
    {
        let mut forward: Vec<(StructIdentifier, usize)> = Vec::new();
        let mut backward: Vec<Arc<StructIdentifier>> = Vec::new();
        let n = self.forward.len();
        proof {
            assert(self@.len() == self.backward@.len());
        }
        let mut i: usize = 0;
        while i < n
            invariant
                n == self.forward@.len(),
                n == self.backward@.len(),
                self.wf(),
                i <= n,
                forward@.len() == i,
                backward@.len() == i,
                forall|k: int|
                    0 <= k < i ==> (#[trigger] forward@[k]).1 == self.forward@[k].1
                        && forward@[k].0@ == self.forward@[k].0@,
                forall|k: int| 0 <= k < i ==> #[trigger] backward@[k]@ == self.backward@[k]@,
            decreases n - i,
        {
            let entry_name = self.forward[i].0.clone();
            let entry_idx = self.forward[i].1;
            forward.push((entry_name, entry_idx));
            backward.push(clone_arc(&self.backward[i]));
            i += 1;
        }
        let r = IndexMap { forward, backward };
        proof {
            assert(r@ =~= self@);
        }
        r
    }
}

} // verus!
