//! The exception bridge: converting host-runtime exceptions into native
//! error values on upcalls.
//!
//! A native call that triggers a host-runtime exception reports
//! [`ProxyError::JavaException`] while the exception is still pending in
//! the environment.  The clearing primitives here check for a pending
//! exception defensively, always clear it (an uncleared exception poisons
//! every later call on the environment), and optionally print it and stash
//! a durable reference to it in a per-thread slot, one entry deep, for the
//! caller to retrieve destructively through [`jni_last_cleared_ex`].

use crate::errors::ProxyError;
use crate::host;
use vstd::string::StringExecFns;
use jni::objects::GlobalRef;
use jni::JNIEnv;
use vstd::prelude::*;

verus! {

/// A single-entry hand-off slot; the embedding keeps one per thread for
/// the last cleared exception.
pub struct StashSlot<T> {
    inner: Option<T>,
}

impl<T> View for StashSlot<T> {
    type V = Option<T>;

    closed spec fn view(&self) -> Option<T> {
        self.inner
    }
}

impl<T> StashSlot<T> {
    /// An empty slot.
    pub fn new() -> (r: StashSlot<T>)
        ensures
            r@ is None,
    {
        StashSlot { inner: None }
    }

    /// Stores `v`, replacing whatever the slot held.
    pub fn set(&mut self, v: T)
        ensures
            final(self)@ == Some(v),
    {
        self.inner = Some(v);
    }

    /// Takes the stashed value out; the slot is empty afterwards.
    pub fn take(&mut self) -> (r: Option<T>)
        ensures
            r == old(self)@,
            final(self)@ is None,
    {
        self.inner.take()
    }
}

/// Takes away the stored reference to the last host-runtime exception
/// cleared on this thread, leaving the slot empty.
pub fn jni_last_cleared_ex(slot: &mut StashSlot<GlobalRef>) -> (r: Option<GlobalRef>)
    ensures
        r == old(slot)@,
        final(slot)@ is None,
{
    slot.take()
}

/// Clears a pending host-runtime exception, prints it, and stashes a
/// durable reference to it for [`jni_last_cleared_ex`].  Returns `err`
/// unchanged, for use with `Result::map_err`.
pub fn jni_clear_ex<'e>(
    env: &mut JNIEnv<'e>,
    slot: &mut StashSlot<GlobalRef>,
    thread: &str,
    err: ProxyError,
) -> (r: ProxyError)
    ensures
        r == err,
        !(err is JavaException) ==> final(slot)@ == old(slot)@,
        err is JavaException ==> (final(slot)@ is Some || final(slot)@ == old(slot)@),
{
    clear_ex_inner(env, slot, thread, err, true, true)
}

/// The same as [`jni_clear_ex`] without printing: the exception is still
/// cleared and stashed.
pub fn jni_clear_ex_silent<'e>(
    env: &mut JNIEnv<'e>,
    slot: &mut StashSlot<GlobalRef>,
    thread: &str,
    err: ProxyError,
) -> (r: ProxyError)
    ensures
        r == err,
        !(err is JavaException) ==> final(slot)@ == old(slot)@,
        err is JavaException ==> (final(slot)@ is Some || final(slot)@ == old(slot)@),
{
    clear_ex_inner(env, slot, thread, err, false, true)
}

/// The same as [`jni_clear_ex_silent`] without stashing: the exception is
/// cleared and dropped, and the slot is left as it was.
pub fn jni_clear_ex_ignore<'e>(
    env: &mut JNIEnv<'e>,
    slot: &mut StashSlot<GlobalRef>,
    thread: &str,
    err: ProxyError,
) -> (r: ProxyError)
    ensures
        r == err,
        final(slot)@ == old(slot)@,
{
    clear_ex_inner(env, slot, thread, err, false, false)
}

/// The canonical clearing primitive behind the three `jni_clear_ex`
/// variants.
///
/// For an error other than `JavaException` there is nothing to clear: the
/// error is described on the diagnostic channel when `print_err` is set,
/// and handed back.  For `JavaException`, if an exception is actually
/// pending (checked defensively; a failing check is treated as pending so
/// that clearing is still attempted), it is retrieved, described when
/// `print_err` is set, cleared, and, when `store_ex` is set, stashed as a
/// durable reference in `slot`.
fn clear_ex_inner<'e>(
    env: &mut JNIEnv<'e>,
    slot: &mut StashSlot<GlobalRef>,
    thread: &str,
    err: ProxyError,
    print_err: bool,
    store_ex: bool,
) -> (r: ProxyError)
    ensures
        r == err,
        !(err is JavaException) ==> final(slot)@ == old(slot)@,
        !store_ex ==> final(slot)@ == old(slot)@,
        (err is JavaException && store_ex) ==> (final(slot)@ is Some || final(slot)@ == old(
            slot,
        )@),
{
    match &err {
        ProxyError::JavaException => {
            let pending = match host::exception_check(env) {
                Ok(b) => b,
                Err(_) => true,
            };
            if pending {
                if !print_err && !store_ex {
                    host::exception_clear_or_abort(env);
                } else {
                    let captured = host::exception_occurred(env);
                    if print_err {
                        host::exception_describe(env);
                    }
                    host::exception_clear_or_abort(env);
                    if print_err {
                        host::print_rust_stack();
                    }
                    if store_ex {
                        match captured {
                            Ok(ex) => {
                                match host::to_global_throwable(env, &ex) {
                                    Ok(g) => slot.set(g),
                                    Err(_) => {},
                                }
                            },
                            Err(_) => {},
                        }
                    }
                }
            }
        },
        other => {
            if print_err {
                let msg = describe_failure(thread, other);
                host::log_warning(msg.as_str());
                host::print_rust_stack();
            }
        },
    }
    err
}

/// The text printed for a JNI error that is not a host-runtime exception.
pub open spec fn failure_text(thread: Seq<char>, e: ProxyError) -> Seq<char> {
    "JNI Error in thread \""@ + thread + "\": "@ + e.spec_text()
}

/// Builds the one-line diagnostic for a JNI error that is not a
/// host-runtime exception.
fn describe_failure(thread: &str, e: &ProxyError) -> (r: String)
    ensures
        r@ == failure_text(thread@, *e),
{
    let mut msg = "JNI Error in thread \"".to_owned();
    msg.append(thread);
    msg.append("\": ");
    let desc = e.describe();
    msg.append(desc.as_str());
    msg
}

} // verus!
