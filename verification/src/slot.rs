//! Local storage slots and the access operations of a scope.

use crate::error::{AccessError, ACCESS_FAILURE};
use crate::scope::LocalScope;
use vstd::prelude::*;

verus! {

/// Where a slot stands in its life, with the value while it has one.
pub enum Phase<T> {
    /// Never accessed: the initializer has not run yet.
    Uninitialized,
    /// Initialized and readable.
    Alive(T),
    /// The initializer ran and failed; it is not run again.
    InitFailed,
    /// Teardown has begun; the value is gone or being finalized.
    Teardown,
}

enum Contents<T, F> {
    Uninitialized(F),
    Alive(T),
    InitFailed,
    Teardown,
}

/// A lazily initialized storage slot that knows when its teardown has begun.
///
/// `F` is the initializer, run on the first access; it reports failure by
/// returning `None`.
pub struct Slot<T, F> {
    contents: Contents<T, F>,
}

impl<T, F: FnOnce() -> Option<T>> Slot<T, F> {
    /// The phase the slot is in.
    pub closed spec fn phase(&self) -> Phase<T> {
        match self.contents {
            Contents::Uninitialized(_) => Phase::Uninitialized,
            Contents::Alive(v) => Phase::Alive(v),
            Contents::InitFailed => Phase::InitFailed,
            Contents::Teardown => Phase::Teardown,
        }
    }

    /// The initializer that the first access will run. It means something only
    /// while the slot is uninitialized.
    pub closed spec fn initializer(&self) -> F {
        match self.contents {
            Contents::Uninitialized(f) => f,
            _ => arbitrary(),
        }
    }

    /// A slot is well formed when its pending initializer may be called.
    pub open spec fn wf(&self) -> bool {
        self.phase() is Uninitialized ==> call_requires(self.initializer(), ())
    }

    /// Whether no access to the slot can fail: it is alive, or it is
    /// uninitialized and its initializer never reports failure.
    pub open spec fn accessible(&self) -> bool {
        match self.phase() {
            Phase::Alive(_) => true,
            Phase::Uninitialized => forall|produced: Option<T>|
                call_ensures(self.initializer(), (), produced) ==> produced is Some,
            _ => false,
        }
    }

    /// What an access does: it takes the slot from `self` to `after` and yields
    /// `outcome`.
    ///
    /// A slot that is not uninitialized is left as it was. An uninitialized
    /// slot becomes alive with a value that its initializer produced, or failed
    /// where the initializer reported failure. The outcome is the value of the
    /// slot if it is alive afterwards, and the error otherwise.
    pub open spec fn accessed(&self, after: &Self, outcome: Result<&T, AccessError>) -> bool {
        &&& !(self.phase() is Uninitialized) ==> *after == *self
        &&& self.phase() is Uninitialized ==> match after.phase() {
            Phase::Alive(v) => call_ensures(self.initializer(), (), Some(v)),
            Phase::InitFailed => call_ensures(self.initializer(), (), None::<T>),
            _ => false,
        }
        &&& outcome == match after.phase() {
            Phase::Alive(v) => Ok::<&T, AccessError>(&v),
            _ => Err::<&T, AccessError>(AccessError),
        }
    }

    /// A fresh slot; `init` runs on the first access.
    pub fn new(init: F) -> (slot: Self)
        requires
            call_requires(init, ()),
        ensures
            slot.wf(),
            slot.phase() == Phase::<T>::Uninitialized,
            slot.initializer() == init,
    {
        Slot { contents: Contents::Uninitialized(init) }
    }

    /// Begins the teardown of the slot. From here on every access is refused.
    /// The value, if the slot was alive, is handed out to be finalized; a
    /// pending initializer is dropped without being run.
    pub fn teardown(&mut self) -> (value: Option<T>)
        ensures
            final(self).wf(),
            final(self).phase() == Phase::<T>::Teardown,
            value == match old(self).phase() {
                Phase::Alive(v) => Some(v),
                _ => None,
            },
    {
        let mut before = Contents::Teardown;
        std::mem::swap(&mut self.contents, &mut before);
        match before {
            Contents::Alive(v) => Some(v),
            _ => None,
        }
    }

    /// An access to a slot that is alive with value `v` yields `v` and leaves
    /// the slot as it was.
    pub proof fn lemma_alive_is_read(self, after: Self, outcome: Result<&T, AccessError>, v: T)
        requires
            self.phase() == Phase::Alive(v),
            self.accessed(&after, outcome),
        ensures
            outcome == Ok::<&T, AccessError>(&v),
            after == self,
    {
    }

    /// An access to a slot whose initializer has failed, or whose teardown has
    /// begun, is refused and leaves the slot as it was.
    pub proof fn lemma_dead_is_refused(self, after: Self, outcome: Result<&T, AccessError>)
        requires
            self.phase() is InitFailed || self.phase() is Teardown,
            self.accessed(&after, outcome),
        ensures
            outcome == Err::<&T, AccessError>(AccessError),
            after == self,
    {
    }

    /// An access to an accessible slot is never refused.
    pub proof fn lemma_accessible_is_read(self, after: Self, outcome: Result<&T, AccessError>)
        requires
            self.accessible(),
            self.accessed(&after, outcome),
        ensures
            outcome is Ok,
            after.phase() == Phase::Alive(*outcome->Ok_0),
    {
    }

    /// Access is consistent: a second access yields what the first one did and
    /// changes nothing.
    pub proof fn lemma_access_repeats(
        self,
        first: Self,
        second: Self,
        outcome: Result<&T, AccessError>,
        again: Result<&T, AccessError>,
    )
        requires
            self.accessed(&first, outcome),
            first.accessed(&second, again),
        ensures
            second == first,
            again == outcome,
    {
    }
}

impl<'a> LocalScope<'a> {
    /// Reads the slot, running its initializer if this is the first access.
    ///
    /// An alive slot yields its value. An uninitialized slot is initialized
    /// first, and yields its value unless the initializer failed. A slot whose
    /// initializer has failed, or whose teardown has begun, is refused. The
    /// reference lives no longer than the scope.
    pub fn try_access<'s, T, F: FnOnce() -> Option<T>>(self, target: &'s mut Slot<T, F>) -> (r: Result<
        &'s T,
        AccessError,
    >) where 'a: 's
        requires
            old(target).wf(),
        ensures
            final(target).wf(),
            old(target).accessed(final(target), r),
    {
        if let Contents::Uninitialized(_) = &target.contents {
            let mut before = Contents::InitFailed;
            std::mem::swap(&mut target.contents, &mut before);
            if let Contents::Uninitialized(init) = before {
                if let Some(v) = init() {
                    target.contents = Contents::Alive(v);
                }
            }
        }
        match &target.contents {
            Contents::Alive(v) => Ok(v),
            _ => Err(AccessError),
        }
    }

    /// Reads a slot that cannot fail to be read: what
    /// [`LocalScope::try_access`] does, with the value in place of `Ok`.
    pub fn access<'s, T, F: FnOnce() -> Option<T>>(self, target: &'s mut Slot<T, F>) -> (r: &'s T) where 'a: 's
        requires
            old(target).wf(),
            old(target).accessible(),
        ensures
            final(target).wf(),
            old(target).accessed(final(target), Ok::<&T, AccessError>(r)),
    {
        self.try_access(target).expect(ACCESS_FAILURE)
    }
}

} // verus!
