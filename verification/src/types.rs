//! The value types the table works with: module locations, struct
//! identifiers, integer handles, and the assembled tag record.

use vstd::prelude::*;

verus! {

/// Spec-level value of a [`ModuleId`]: the address bytes and the module name.
pub struct ModuleIdView {
    pub address: Seq<u8>,
    pub name: Seq<char>,
}

/// Spec-level value of a [`StructIdentifier`].
pub struct StructIdentifierView {
    pub module: ModuleIdView,
    pub name: Seq<char>,
}

/// Spec-level value of a [`StructTag`].
pub struct StructTagView {
    pub address: Seq<u8>,
    pub module: Seq<char>,
    pub name: Seq<char>,
    pub type_args: Seq<TypeTag>,
}

/// The location of a module: an account address (a byte string) together with
/// the module's name.
#[derive(Debug)]
pub struct ModuleId {
    pub address: Vec<u8>,
    pub name: String,
}

/// A composite struct identifier: the module that declares the struct,
/// together with the struct's own name. Equality is structural.
#[derive(Debug)]
pub struct StructIdentifier {
    pub module: ModuleId,
    pub name: String,
}

/// An opaque handle standing in for an interned struct identifier. Its only
/// meaning is the position in the table's backward sequence at the moment it
/// was assigned; it is valid only within the epoch that assigned it.
#[derive(Clone, Copy, Debug, PartialEq, Eq, Structural)]
pub struct StructNameIndex(pub usize);

/// A type argument, opaque to the table: `build_tag` copies these values into
/// the tag verbatim and positionally, without validation.
#[derive(Clone, Copy, Debug, PartialEq, Eq, Structural)]
pub enum TypeTag {
    Bool,
    U8,
    U16,
    U32,
    U64,
    U128,
    Address,
    Signer,
}

/// The assembled output record: the stored identifier's address, module name
/// and struct name, paired with the caller-supplied type arguments.
#[derive(Debug)]
pub struct StructTag {
    pub address: Vec<u8>,
    pub module: String,
    pub name: String,
    pub type_args: Vec<TypeTag>,
}

impl View for ModuleId {
    type V = ModuleIdView;

    open spec fn view(&self) -> ModuleIdView {
        ModuleIdView { address: self.address@, name: self.name@ }
    }
}

impl View for StructIdentifier {
    type V = StructIdentifierView;

    open spec fn view(&self) -> StructIdentifierView {
        StructIdentifierView { module: self.module@, name: self.name@ }
    }
}

impl View for StructTag {
    type V = StructTagView;

    open spec fn view(&self) -> StructTagView {
        StructTagView {
            address: self.address@,
            module: self.module@,
            name: self.name@,
            type_args: self.type_args@,
        }
    }
}

/// Compares two byte vectors element by element.
fn bytes_eq(a: &Vec<u8>, b: &Vec<u8>) -> (r: bool)
    ensures
        r == (a@ == b@),
{
    if a.len() != b.len() {
        return false;
    }
    let mut i: usize = 0;
    while i < a.len()
        invariant
            i <= a@.len(),
            a@.len() == b@.len(),
            forall|k: int| 0 <= k < i ==> a@[k] == b@[k],
        decreases a@.len() - i,
    {
        if a[i] != b[i] {
            return false;
        }
        i += 1;
    }
    proof {
        assert(a@ =~= b@);
    }
    true
}

/// Copies a byte vector, preserving its contents.
fn clone_bytes(v: &Vec<u8>) -> (r: Vec<u8>)
    ensures
        r@ == v@,
{
    let r = v.clone();
    proof {
        assert forall|i: int| 0 <= i < v@.len() implies r@[i] == v@[i] by {
            assert(cloned::<u8>(v@[i], r@[i]));
        }
        assert(r@ =~= v@);
    }
    r
}

impl PartialEq for ModuleId {
    fn eq(&self, other: &ModuleId) -> (r: bool) {
        bytes_eq(&self.address, &other.address) && self.name == other.name
    }
}

impl vstd::std_specs::cmp::PartialEqSpecImpl for ModuleId {
    open spec fn obeys_eq_spec() -> bool {
        true
    }

    open spec fn eq_spec(&self, other: &ModuleId) -> bool {
        self@ == other@
    }
}

impl PartialEq for StructIdentifier {
    fn eq(&self, other: &StructIdentifier) -> (r: bool) {
        self.module == other.module && self.name == other.name
    }
}

impl vstd::std_specs::cmp::PartialEqSpecImpl for StructIdentifier {
    open spec fn obeys_eq_spec() -> bool {
        true
    }

    open spec fn eq_spec(&self, other: &StructIdentifier) -> bool {
        self@ == other@
    }
}

impl Clone for ModuleId {
    /// The copy denotes the same module location.
    fn clone(&self) -> (res: Self)
        ensures
            res@ == self@,
    {
        ModuleId { address: clone_bytes(&self.address), name: self.name.clone() }
    }
}

impl Clone for StructIdentifier {
    /// The copy denotes the same struct identifier.
    fn clone(&self) -> (res: Self)
        ensures
            res@ == self@,
    {
        StructIdentifier { module: self.module.clone(), name: self.name.clone() }
    }
}

} // verus!
