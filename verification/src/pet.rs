//! The entity managed by the application: a pet record with an identity
//! assigned by the store, a name, an age and a category tag.

use vstd::prelude::*;

verus! {

/// Category tag for cats; also the default for unrecognized form input.
pub const KIND_CAT: u64 = 1;

/// Category tag for dogs.
pub const KIND_DOG: u64 = 2;

/// A pet record. The authoritative copy lives in the store; the application
/// state holds a cached copy refreshed after every mutation.
#[derive(Debug, Clone, PartialEq)]
pub struct Pet {
    /// Identity, unique, assigned by the store on creation.
    pub id: u64,
    /// Display name; non-empty for records created through the form.
    pub name: String,
    /// Age in years; positive for records created through the form.
    pub age: u16,
    /// Category tag deciding which image endpoint applies.
    pub kind_id: u64,
}

/// A category with its display name, mirroring the store's category table.
#[derive(Debug, Clone, PartialEq)]
pub struct PetKind {
    pub id: u64,
    pub name: String,
}

/// The fixed category set, mirroring the store's category table.
pub fn pet_kinds() -> (ks: Vec<PetKind>)
    ensures
        ks@.len() == 2,
        ks@[0].id == KIND_CAT && ks@[0].name@ == "cat"@,
        ks@[1].id == KIND_DOG && ks@[1].name@ == "dog"@,
{
    let mut ks: Vec<PetKind> = Vec::new();
    ks.push(PetKind { id: KIND_CAT, name: String::from_str("cat") });
    ks.push(PetKind { id: KIND_DOG, name: String::from_str("dog") });
    ks
}

/// The name, age and category of a record, as the store model holds them.
pub type PetFields = (Seq<char>, u16, u64);

/// The modelled fields of a record: everything but its identity.
pub open spec fn pet_fields(p: Pet) -> PetFields {
    (p.name@, p.age, p.kind_id)
}

/// Two records agree on identity and on every field.
pub open spec fn pet_eqv(a: Pet, b: Pet) -> bool {
    &&& a.id == b.id
    &&& a.name@ == b.name@
    &&& a.age == b.age
    &&& a.kind_id == b.kind_id
}

/// The string holds no NUL character. The storage backend keeps text as
/// NUL-terminated bytes when reading it back, so a name with an interior
/// NUL is a backend limit: it would not survive a round trip intact.
pub open spec fn nul_free(s: Seq<char>) -> bool {
    forall|i: int| 0 <= i < s.len() ==> s[i] != '\0'
}

/// Linear scan for a NUL character.
pub fn check_nul_free(s: &str) -> (r: bool)
    ensures
        r == nul_free(s@),
{
    let n = s.unicode_len();
    let mut i: usize = 0;
    while i < n
        invariant
            n == s@.len(),
            i <= n,
            forall|j: int| 0 <= j < i ==> s@[j] != '\0',
        decreases n - i,
    {
        if s.get_char(i) == '\0' {
            return false;
        }
        i = i + 1;
    }
    true
}

/// Some record in the sequence carries the given identity.
pub open spec fn seq_contains_id(s: Seq<Pet>, id: u64) -> bool {
    exists|i: int| 0 <= i < s.len() && s[i].id == id
}

/// Linear scan for an identity in a cached list.
pub fn contains_id(pets: &Vec<Pet>, id: u64) -> (r: bool)
    ensures
        r == seq_contains_id(pets@, id),
{
    let mut i: usize = 0;
    while i < pets.len()
        invariant
            i <= pets.len(),
            forall|j: int| 0 <= j < i ==> pets@[j].id != id,
        decreases pets.len() - i,
    {
        if pets[i].id == id {
            return true;
        }
        i = i + 1;
    }
    false
}

} // verus!
