//! The input-emulation device that keyboard actions share.

use std::rc::Rc;
use vstd::prelude::*;

verus! {

/// Hands out one more handle to the device behind `handle`.
///
/// Wraps `Rc::clone`, which makes another pointer to the same allocation: the
/// new handle stands for the very device that `handle` stands for.
#[verifier::external_body]
fn share<D>(handle: &Rc<D>) -> (shared: Rc<D>)
    ensures
        shared == *handle,
{
    Rc::clone(handle)
}

/// A device that is opened when the first keyboard action asks for it and
/// shared by every later one.
///
/// Either the factory is still waiting and no device exists, or the factory
/// has run, exactly once, and its device is kept.
#[verifier::reject_recursive_types(D)]
pub struct SharedDevice<D, F: FnOnce() -> Rc<D>> {
    factory: Option<F>,
    handle: Option<Rc<D>>,
}

impl<D, F: FnOnce() -> Rc<D>> SharedDevice<D, F> {
    /// The factory that has not run yet, while the device is unopened.
    pub closed spec fn pending(&self) -> Option<F> {
        self.factory
    }

    /// The device, once it has been opened.
    pub closed spec fn opened(&self) -> Option<Rc<D>> {
        self.handle
    }

    /// Exactly one of factory and device is present, and a factory that is
    /// still waiting may be called.
    pub closed spec fn wf(&self) -> bool {
        &&& self.factory is Some <==> self.handle is None
        &&& self.factory matches Some(f) ==> f.requires(())
    }

    /// What `self` becomes when a handle is taken from it and `handle` comes
    /// back: the same value if the device was open, else one that holds
    /// `handle` and no factory.
    pub open spec fn after_get(&self, next: Self, handle: Rc<D>) -> bool {
        &&& next.wf()
        &&& next.pending() is None
        &&& next.opened() == Some(handle)
        &&& match self.pending() {
            Some(f) => f.ensures((), handle),
            None => next == *self,
        }
    }

    /// A device that `factory` will open on first need.
    pub fn new(factory: F) -> (shared: Self)
        requires
            factory.requires(()),
        ensures
            shared.wf(),
            shared.pending() == Some(factory),
            shared.opened() is None,
    {
        SharedDevice { factory: Some(factory), handle: None }
    }

    /// Whether the device has been opened.
    pub fn is_open(&self) -> (open: bool)
        ensures
            open == self.opened().is_some(),
    {
        self.handle.is_some()
    }

    /// A handle to the device, which is opened now if it was not before.
    pub fn get(&mut self) -> (handle: Rc<D>)
        requires
            old(self).wf(),
        ensures
            old(self).after_get(*final(self), handle),
    {
        match &self.handle {
            Some(h) => share(h),
            None => {
                let factory = self.factory.take().unwrap();
                let handle = factory();
                let shared = share(&handle);
                self.handle = Some(handle);
                shared
            },
        }
    }
}

} // verus!
