//! Shared atomic flags.
//!
//! The primitives keep their small `Copy` state words (a channel state, an
//! endpoint liveness mark) in [`atomic::Atomic`] cells so that any number of
//! handles may read and write them concurrently through shared references.
//! Which value a load observes depends on thread scheduling, so the contracts
//! here claim nothing of a loaded value: the verified callers take the
//! observed value as an input and are proved correct for every possible one.

use vstd::prelude::*;

verus! {

#[verifier::external_type_specification]
#[verifier::external_body]
#[verifier::reject_recursive_types(T)]
pub struct ExAtomic<T>(atomic::Atomic<T>);

/// Relies on `atomic::Atomic::new`: creates a flag cell holding `v`.
#[verifier::external_body]
pub(crate) fn flag_new<T: Copy>(v: T) -> atomic::Atomic<T> {
    atomic::Atomic::new(v)
}

/// Relies on `atomic::Atomic::load` with acquire ordering: returns the value
/// some thread most recently stored. The result depends on scheduling, so
/// nothing is claimed of it. Acquire loads never panic.
#[verifier::external_body]
pub(crate) fn flag_load<T: Copy>(flag: &atomic::Atomic<T>) -> T
    no_unwind
{
    flag.load(atomic::Ordering::Acquire)
}

/// Relies on `atomic::Atomic::store` with release ordering: makes `v` the
/// flag value, visible to every later acquire load. Release stores never
/// panic.
#[verifier::external_body]
pub(crate) fn flag_store<T: Copy>(flag: &atomic::Atomic<T>, v: T)
    opens_invariants none
    no_unwind
{
    flag.store(v, atomic::Ordering::Release)
}

} // verus!
