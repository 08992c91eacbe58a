//! The link of the ownership chain: a native object that borrows from another,
//! held together with the handle of what it borrows from.
//!
//! A column family and a snapshot borrow from their database, a cursor from
//! the database or snapshot it was made over. What borrows must be gone before
//! what it borrows from goes. Holding the parent's handle beside the object
//! keeps the parent alive for as long as the object is held; releasing the
//! object first, on teardown, keeps it from outliving the parent.
use vstd::prelude::*;

verus! {

/// A native object, the child, together with the handle of the parent it
/// borrows from. The child is never held without the parent.
pub struct OwnedResource<T, C> {
    child: Option<C>,
    parent: Option<T>,
}

impl<T, C> OwnedResource<T, C> {
    /// While the child is held, the parent is held too.
    #[verifier::type_invariant]
    spec fn child_within_parent(self) -> bool {
        self.child is Some ==> self.parent is Some
    }

    /// The child, while it is held.
    pub closed spec fn held_child(&self) -> Option<C> {
        self.child
    }

    /// The handle of the parent, while it is held.
    pub closed spec fn held_parent(&self) -> Option<T> {
        self.parent
    }

    /// Puts a child and the handle of its parent together.
    pub fn new(parent: T, child: C) -> (owned: Self)
        ensures
            owned.held_child() == Some(child),
            owned.held_parent() == Some(parent),
    {
        OwnedResource { child: Some(child), parent: Some(parent) }
    }

    /// The child, while it is held. A held child has its parent beside it.
    pub fn child(&self) -> (child: Option<&C>)
        ensures
            child is Some <==> self.held_child() is Some,
            child matches Some(held) ==> self.held_child() == Some(*held),
            child is Some ==> self.held_parent() is Some,
    {
        proof {
            use_type_invariant(self);
        }
        self.child.as_ref()
    }

    /// The handle of the parent, while it is held.
    pub fn parent(&self) -> (parent: Option<&T>)
        ensures
            parent is Some <==> self.held_parent() is Some,
            parent matches Some(held) ==> self.held_parent() == Some(*held),
    {
        self.parent.as_ref()
    }

    /// Releases the child. The parent stays.
    pub fn release_child(&mut self)
        ensures
            final(self).held_child() is None,
            final(self).held_parent() == old(self).held_parent(),
    {
        self.child = None;
    }

    /// Releases the parent, once the child is gone.
    pub fn release_parent(&mut self)
        requires
            old(self).held_child() is None,
        ensures
            final(self).held_child() is None,
            final(self).held_parent() is None,
    {
        self.parent = None;
    }

    /// Releases both, the child before the parent.
    pub fn teardown(&mut self)
        ensures
            final(self).held_child() is None,
            final(self).held_parent() is None,
    {
        self.release_child();
        self.release_parent();
    }
}

} // verus!
