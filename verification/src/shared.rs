//! The shared-value handle: wraps a value of generic type `T` in a
//! reference-counted, internally-synchronized cell so it can cross the
//! boundary as an opaque handle, be duplicated into aliasing handles, be
//! observed through a scoped read view or mutated through a scoped exclusive
//! view, and be released explicitly.
//!
//! The sharing primitive is a single-writer/multiple-reader lock inside a
//! reference-counted allocation: a conflicting view request blocks the calling
//! thread until the outstanding view's scope ends, and the underlying value is
//! destroyed only when the last aliasing reference is released.

use vstd::prelude::*;

verus! {

/// The sharing primitive: a reference-counted, internally-locked cell that
/// lets several handles observe and mutate one logical value.
pub type Shared<T> = std::sync::Arc<std::sync::RwLock<T>>;

#[verifier::external_type_specification]
#[verifier::external_body]
#[verifier::reject_recursive_types(T)]
pub struct ExRwLock<T: ?Sized>(std::sync::RwLock<T>);

#[verifier::external_type_specification]
#[verifier::external_body]
#[verifier::reject_recursive_types(T)]
pub struct ExRwLockReadGuard<'a, T: ?Sized>(std::sync::RwLockReadGuard<'a, T>);

#[verifier::external_type_specification]
#[verifier::external_body]
#[verifier::reject_recursive_types(T)]
pub struct ExRwLockWriteGuard<'a, T: ?Sized + 'a>(std::sync::RwLockWriteGuard<'a, T>);

/// Relies on std::sync::RwLock::new: a fresh lock whose initial contents are
/// the given value. The lock's contents change under aliased mutation, so
/// nothing is stated of the returned cell.
pub assume_specification<T>[ std::sync::RwLock::<T>::new ](t: T) -> std::sync::RwLock<T>;

/// Relies on Arc::clone: the clone points at the same allocation as the
/// original, so the two are the same shared cell.
#[verifier::external_body]
fn clone_shared<T>(cell: &Shared<T>) -> (r: Shared<T>)
    ensures
        r == *cell,
{
    cell.clone()
}

/// An opaque handle owning one reference to a shared, internally-locked value.
///
/// Handles created by [`SharedApi::new`] own the only reference to a fresh
/// cell; handles created by [`SharedApi::from_shared`] alias whatever other
/// handles hold the same cell. A handle must be released exactly once, by
/// [`SharedApi::drop`]; the underlying value is destroyed when the last
/// aliasing reference goes.
#[verifier::reject_recursive_types(T)]
pub struct SharedApi<T> {
    cell: Shared<T>,
}

impl<T> SharedApi<T> {
    /// The shared cell this handle holds a reference to.
    pub closed spec fn spec_cell(&self) -> Shared<T> {
        self.cell
    }

    /// Allocates a fresh shared cell owning `value` and wraps it in a handle.
    /// Allocation failure aborts the process; the call never fails otherwise.
    pub fn new(value: T) -> Self {
        SharedApi { cell: std::sync::Arc::new(std::sync::RwLock::new(value)) }
    }

    /// Wraps an already-shared cell, establishing aliasing with every other
    /// handle that references the same cell.
    pub fn from_shared(shared: Shared<T>) -> (r: Self)
        ensures
            r.spec_cell() == shared,
    {
        SharedApi { cell: shared }
    }

    /// Releases the handle. The underlying value is destroyed only if no
    /// other aliasing reference remains; the release of the handle itself is
    /// unconditional and must happen exactly once per handle.
    pub fn drop(this: Self) {
        let _ = this;
    }

    /// Relies on std::sync::RwLock::read: blocks until no exclusive view is
    /// outstanding on the cell, then yields a scoped read-only view of the
    /// current value, released automatically at the end of its scope. A view
    /// left behind by a panicking thread is recovered, not propagated.
    #[verifier::external_body]
    pub fn borrow<'a>(&'a self) -> std::sync::RwLockReadGuard<'a, T> {
        match self.cell.read() {
            Ok(guard) => guard,
            Err(poisoned) => poisoned.into_inner(),
        }
    }

    /// Relies on std::sync::RwLock::write: blocks until no other view is
    /// outstanding on the cell, then yields a scoped exclusive read-write
    /// view, released automatically at the end of its scope. A view left
    /// behind by a panicking thread is recovered, not propagated.
    #[verifier::external_body]
    pub fn borrow_mut<'a>(&'a mut self) -> std::sync::RwLockWriteGuard<'a, T> {
        match self.cell.write() {
            Ok(guard) => guard,
            Err(poisoned) => poisoned.into_inner(),
        }
    }

    /// A fresh reference to the handle's shared cell, suitable for
    /// [`SharedApi::from_shared`] on another handle.
    pub fn shared(&self) -> (r: Shared<T>)
        ensures
            r == self.spec_cell(),
    {
        clone_shared(&self.cell)
    }

    /// Relies on std::sync::RwLock::read and the value type's own `==`: the
    /// handles are compared by their current values under the value's own
    /// equality relation, taking a read view of each cell. Nothing is stated
    /// of the result: the values change under aliased mutation and the
    /// equality relation is caller-supplied code.
    #[verifier::external_body]
    pub fn equals(&self, other: &Self) -> bool where T: PartialEq {
        let a = match self.cell.read() {
            Ok(guard) => guard,
            Err(poisoned) => poisoned.into_inner(),
        };
        let b = match other.cell.read() {
            Ok(guard) => guard,
            Err(poisoned) => poisoned.into_inner(),
        };
        *a == *b
    }
}

} // verus!
