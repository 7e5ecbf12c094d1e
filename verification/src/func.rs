use vstd::prelude::*;

verus! {

/// A task body handed to the runtime: a boxed closure, called at most once,
/// that the runtime stores and moves but never looks into.
#[verifier::external_body]
pub struct Job {
    pub func: Box<dyn FnOnce() + Send + 'static>,
}

impl Job {
    /// Boxes `func` as a job (`Box::new`). Nothing is claimed of the result
    /// beyond its existence.
    #[verifier::external_body]
    pub(crate) fn new<F: FnOnce() + Send + 'static>(func: F) -> (job: Job) {
        Job { func: Box::new(func) }
    }
}

/// A closure that can be called once, after which it is spent.
pub struct Func<F> {
    inner: Option<F>,
}

impl<F: FnOnce() + Send + 'static> Func<F> {
    /// Whether the closure has not been called yet.
    pub closed spec fn pending(self) -> bool {
        self.inner is Some
    }

    /// The closure, while it is pending.
    pub closed spec fn closure(self) -> F {
        self.inner->0
    }

    /// A pending closure.
    pub fn new(func: F) -> (f: Self)
        ensures
            f.pending(),
            f.closure() == func,
    {
        Func { inner: Some(func) }
    }

    /// Whether the closure has not been called yet.
    pub fn is_pending(&self) -> (pending: bool)
        ensures
            pending == self.pending(),
    {
        self.inner.is_some()
    }

    /// Calls the closure and consumes it. Only a pending closure can be
    /// called, and only where its own precondition holds.
    pub fn call_once(&mut self)
        requires
            old(self).pending(),
            call_requires(old(self).closure(), ()),
        ensures
            !final(self).pending(),
            call_ensures(old(self).closure(), (), ()),
    {
        let inner = self.inner.take();
        match inner {
            Some(func) => func(),
            None => {},
        }
    }
}

}
