//! The arena that holds the API's nodes for the `'ast` lifetime.

use vstd::prelude::*;
use bumpalo::Bump;

verus! {

#[verifier::external_type_specification]
#[verifier::external_body]
pub struct ExBump<const MIN_ALIGN: usize>(Bump<MIN_ALIGN>);

/// `bumpalo::Bump::new`: an empty arena. Nothing is stated of the result.
#[verifier::external_body]
fn bump_new() -> Bump {
    Bump::new()
}

/// `bumpalo::Bump::alloc`: moves `val` into the arena and gives a reference
/// to it, which holds `val`.
#[verifier::external_body]
fn bump_alloc<'a, T>(bump: &'a Bump, val: T) -> (r: &'a T)
    ensures
        *r == val,
{
    bump.alloc(val)
}

/// `bumpalo::Bump::alloc_str`: copies `value` into the arena.
#[verifier::external_body]
fn bump_alloc_str<'a>(bump: &'a Bump, value: &str) -> (r: &'a str)
    ensures
        r@ == value@,
{
    bump.alloc_str(value)
}

/// `bumpalo::Bump::alloc_slice_fill_iter` on the items of `items`, in order.
/// A `Vec`'s iterator reports its exact length, so the call does not panic
/// on a short iterator.
#[verifier::external_body]
fn bump_alloc_slice<'a, T>(bump: &'a Bump, items: Vec<T>) -> (r: &'a [T])
    ensures
        r@ == items@,
{
    bump.alloc_slice_fill_iter(items)
}

/// The storage of all API nodes that the driver creates. Everything
/// allocated lives as long as the storage.
pub struct Storage {
    buffer: Bump,
}

impl Storage {
    /// Moves `t` into the storage.
    pub fn alloc_value<'a, T>(&'a self, t: T) -> (r: &'a T)
        ensures
            *r == t,
    {
        bump_alloc(&self.buffer, t)
    }

    /// Moves the items of `items` into the storage, in order.
    pub fn alloc_slice<'a, T>(&'a self, items: Vec<T>) -> (r: &'a [T])
        ensures
            r@ == items@,
    {
        bump_alloc_slice(&self.buffer, items)
    }

    /// Copies `value` into the storage.
    pub fn alloc_str<'a>(&'a self, value: &str) -> (r: &'a str)
        ensures
            r@ == value@,
    {
        bump_alloc_str(&self.buffer, value)
    }
}

impl Default for Storage {
    /// An empty storage.
    fn default() -> (r: Self) {
        Storage { buffer: bump_new() }
    }
}

} // verus!
