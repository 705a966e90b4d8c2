//! The per-thread "currently executing handler" slot.
//!
//! The host runtime may invoke a proxy handler on any thread, and a handler
//! may itself invoke another proxy.  Each thread of the embedding owns one
//! `ProxyContext`; the dispatch entry point sets it to the invoked handler's
//! id for the duration of the handler call and restores the value it found,
//! so that nested invocations see their own id and return to the outer one.

use vstd::prelude::*;

verus! {

/// The id of the handler currently executing on this thread, if any.
///
/// Outside any handler invocation the slot is `None`.
pub struct ProxyContext {
    current: Option<i64>,
}

/// What the slot holds after a handler invocation begins, whatever it held
/// before.
pub open spec fn entered(previous: Option<i64>, id: i64) -> Option<i64> {
    Some(id)
}

impl View for ProxyContext {
    type V = Option<i64>;

    closed spec fn view(&self) -> Option<i64> {
        self.current
    }
}

impl ProxyContext {
    /// A fresh slot: no handler is executing.
    pub fn new() -> (c: ProxyContext)
        ensures
            c@ is None,
    {
        ProxyContext { current: None }
    }

    /// Reconstructs a thread's slot from the value the embedding stores
    /// for it.
    pub fn resume(current: Option<i64>) -> (c: ProxyContext)
        ensures
            c@ == current,
    {
        ProxyContext { current }
    }

    /// The id of the handler currently executing on this thread, or `None`
    /// outside any handler invocation.
    pub fn current(&self) -> (r: Option<i64>)
        ensures
            r == self@,
    {
        self.current
    }

    /// Marks `id` as the currently executing handler and hands back the
    /// value the slot held, for [`ProxyContext::leave`] to restore.
    pub fn enter(&mut self, id: i64) -> (saved: Option<i64>)
        ensures
            final(self)@ == entered(old(self)@, id),
            saved == old(self)@,
    {
        let saved = self.current;
        self.current = Some(id);
        saved
    }

    /// Restores the value saved by the matching [`ProxyContext::enter`].
    pub fn leave(&mut self, saved: Option<i64>)
        ensures
            final(self)@ == saved,
    {
        self.current = saved;
    }
}

} // verus!
