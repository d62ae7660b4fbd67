//! Trusted interface to the `heapless` fixed-capacity index set.
//!
//! The game keeps the set of snake-free grid cells in a
//! `heapless::index_set::FnvIndexSet<u8, 32>`: cells are encoded as
//! `row * 5 + col`, and 32 is the next power of two above the 25 grid
//! cells. The set is opaque to verification, so what it holds is given a
//! name here, and each method the game calls is wrapped with the contract
//! the crate's source shows.

use vstd::prelude::*;

use heapless::index_set::FnvIndexSet;

verus! {

#[verifier::external_type_specification]
#[verifier::external_body]
pub struct ExFnvHasher(hash32::FnvHasher);

#[verifier::external_type_specification]
#[verifier::external_body]
#[verifier::reject_recursive_types(H)]
pub struct ExBuildHasherDefault<H>(hash32::BuildHasherDefault<H>);

#[verifier::external_type_specification]
#[verifier::external_body]
#[verifier::reject_recursive_types(T)]
#[verifier::reject_recursive_types(S)]
pub struct ExIndexSet<T, S, const N: usize>(heapless::index_set::IndexSet<T, S, N>);

/// The values the set holds.
pub uninterp spec fn cell_set_contents(s: FnvIndexSet<u8, 32>) -> Set<u8>;

/// Relies on heapless IndexSet::new: a fresh set holds nothing.
#[verifier::external_body]
pub fn cell_set_new() -> (s: FnvIndexSet<u8, 32>)
    ensures
        cell_set_contents(s) == Set::<u8>::empty(),
{
    FnvIndexSet::new()
}

/// Relies on heapless IndexSet::len: the number of stored values.
#[verifier::external_body]
pub fn cell_set_len(s: &FnvIndexSet<u8, 32>) -> (r: usize)
    requires
        cell_set_contents(*s).finite(),
    ensures
        r == cell_set_contents(*s).len(),
{
    s.len()
}

/// Relies on heapless IndexSet::contains: membership of the given value.
#[verifier::external_body]
pub fn cell_set_contains(s: &FnvIndexSet<u8, 32>, v: u8) -> (r: bool)
    ensures
        r == cell_set_contents(*s).contains(v),
{
    s.contains(&v)
}

/// Relies on heapless IndexSet::insert: a value already present leaves the
/// set unchanged with `Ok(false)`; an absent value is added with `Ok(true)`
/// while any of the N entry slots is free, and rejected with `Err` once all
/// are taken.
#[verifier::external_body]
pub fn cell_set_insert(s: &mut FnvIndexSet<u8, 32>, v: u8) -> (r: Result<bool, u8>)
    requires
        cell_set_contents(*old(s)).finite(),
    ensures
        cell_set_contents(*final(s)).finite(),
        cell_set_contents(*old(s)).contains(v) ==> r is Ok && r->Ok_0 == false && cell_set_contents(*final(s)) == cell_set_contents(*old(s)),
        !cell_set_contents(*old(s)).contains(v) && cell_set_contents(*old(s)).len() < 32 ==> r is Ok && r->Ok_0 == true && cell_set_contents(*final(s)) == cell_set_contents(*old(s)).insert(v),
        !cell_set_contents(*old(s)).contains(v) && cell_set_contents(*old(s)).len() >= 32 ==> r is Err && r->Err_0 == v && cell_set_contents(*final(s)) == cell_set_contents(*old(s)),
{
    s.insert(v)
}

/// Relies on heapless IndexSet::remove: the value leaves the set, and the
/// result says whether it had been there.
#[verifier::external_body]
pub fn cell_set_remove(s: &mut FnvIndexSet<u8, 32>, v: u8) -> (r: bool)
    requires
        cell_set_contents(*old(s)).finite(),
    ensures
        cell_set_contents(*final(s)).finite(),
        r == cell_set_contents(*old(s)).contains(v),
        cell_set_contents(*final(s)) == cell_set_contents(*old(s)).remove(v),
{
    s.remove(&v)
}

/// Relies on heapless IndexSet::iter: it yields exactly the stored values
/// (in insertion order), so the k-th yielded value exists iff k is below
/// the size, and is then a member.
#[verifier::external_body]
pub fn cell_set_nth(s: &FnvIndexSet<u8, 32>, k: usize) -> (r: Option<u8>)
    requires
        cell_set_contents(*s).finite(),
    ensures
        k < cell_set_contents(*s).len() ==> r is Some && cell_set_contents(*s).contains(r.unwrap()),
        k >= cell_set_contents(*s).len() ==> r is None,
{
    s.iter().nth(k).copied()
}

} // verus!
