//! The dynamic proxy engine: building host-runtime proxy objects wired to
//! native handlers, and the downcall dispatch logic that the host runtime
//! re-enters when a proxy method is invoked.

use crate::bridge::StashSlot;
use crate::context::ProxyContext;
use crate::errors::ProxyError;
use crate::host;
use crate::registry::HandlerRegistry;
use crate::text::{dec_int, i64_to_dec};
use jni::objects::{GlobalRef, JClass, JObject, JObjectArray};
use jni::JNIEnv;
use vstd::prelude::*;
use vstd::string::StringExecFns;

verus! {

/// The capability a registered handler implements: given the environment
/// of the calling thread, the per-thread context slot, the invoked
/// method's descriptor and the call's argument handles, produce a result
/// handle or an error.
///
/// The host runtime may invoke a handler on any thread and reentrantly: a
/// handler may itself build or invoke other proxies.  No contract is
/// imposed on implementations; [`dispatch`] guarantees its own behaviour
/// for every possible handler result.
pub trait ProxyHandler: Sized {
    /// Handles one intercepted interface-method call.
    fn invoke<'e>(
        &self,
        env: &mut JNIEnv<'e>,
        ctx: &mut ProxyContext,
        method: &JObject<'e>,
        args: &Vec<JObject<'e>>,
    ) -> Result<JObject<'e>, ProxyError>;
}

/// A host-runtime dynamic proxy backed by a registered native handler.
///
/// Releasing is explicit and ownership-driven: [`JniProxy::build`]
/// registers the handler, [`JniProxy::release`] removes it again at the
/// owner's scope exit, and [`JniProxy::forget`] consumes the proxy
/// without touching the registry, so the handler stays registered for
/// the rest of the process while the caller keeps the durable reference.
#[derive(Debug)]
pub struct JniProxy {
    rust_hdl_id: i64,
    java_proxy: GlobalRef,
}

impl JniProxy {
    /// The handler id this proxy dispatches to.
    pub closed spec fn spec_id(&self) -> i64 {
        self.rust_hdl_id
    }

    /// The durable reference to the synthesized host-runtime object.
    pub closed spec fn spec_durable(&self) -> GlobalRef {
        self.java_proxy
    }

    /// Gets the proxy handler id, for diagnostics.
    pub fn id(&self) -> (r: i64)
        ensures
            r == self.spec_id(),
    {
        self.rust_hdl_id
    }

    /// Borrows the durable reference to the synthesized host-runtime
    /// proxy object, for handing it to host APIs while this value keeps
    /// owning the handler registration.
    pub fn durable(&self) -> (r: &GlobalRef)
        ensures
            r == self.spec_durable(),
    {
        &self.java_proxy
    }

    /// Leaks the handler and returns the durable reference of the
    /// host-runtime proxy object: the registry entry is never removed, so
    /// the reference stays usable for the remainder of the process.  This
    /// is useful if the proxy is created *once* in the program.
    pub fn forget(self) -> (r: GlobalRef)
        ensures
            r == self.spec_durable(),
    {
        self.java_proxy
    }

    /// Removes this proxy's handler from the registry; the scope-exit
    /// counterpart of `build`.  A downcall arriving for the id afterwards
    /// takes the degraded null-result path of [`dispatch`].
    pub fn release<H>(self, reg: &mut HandlerRegistry<H>)
        ensures
            final(reg)@ == old(reg)@.remove(self.spec_id()),
    {
        let _ = reg.remove(self.rust_hdl_id);
    }

    /// Reads the per-thread context slot: the invoked proxy's id inside a
    /// running handler, `None` elsewhere.
    pub fn current_proxy_id(ctx: &ProxyContext) -> (r: Option<i64>)
        ensures
            r == ctx@,
    {
        ctx.current()
    }

    /// A proper result for a handler of a void-returning interface method:
    /// the null handle.  It does not clear any pending exception.
    pub fn void<'e>(env: &JNIEnv<'e>) -> (r: Result<JObject<'e>, ProxyError>)
        ensures
            r is Ok,
    {
        let _ = env;
        Ok(host::null_object())
    }

    /// Builds a host-runtime dynamic proxy implementing the interfaces
    /// named in `interfaces` (internal qualified names), delegating every
    /// method call to `handler` under a freshly generated handler id.
    ///
    /// `shim_class` is the pre-built invocation-handler shim type, loaded
    /// by the embedding, whose native method slot is bound to the dispatch
    /// entry point; its `(J)V` constructor takes the handler id.
    /// `class_loader` selects the loader that defines the proxy class; a
    /// `None` falls back to the host runtime's default.
    ///
    /// On success, the fresh id maps to `handler` and every other registry
    /// entry is unchanged; on any error — an interface that does not
    /// resolve, or a failure of the host runtime's proxy facility — the
    /// registry is exactly as it was.
    pub fn build<'e, 's, 'l, H: ProxyHandler>(
        env: &mut JNIEnv<'e>,
        reg: &mut HandlerRegistry<H>,
        shim_class: &JClass<'s>,
        class_loader: Option<&JObject<'l>>,
        interfaces: &Vec<String>,
        handler: H,
    ) -> (r: Result<JniProxy, ProxyError>)
        requires
            1 <= interfaces@.len() <= i32::MAX,
            old(reg)@.dom().len() + 1 < i64::MAX,
        ensures
            r matches Ok(p) ==> {
                &&& 0 <= p.spec_id() < i64::MAX
                &&& !old(reg)@.dom().contains(p.spec_id())
                &&& final(reg)@ == old(reg)@.insert(p.spec_id(), handler)
            },
            r is Err ==> final(reg)@ == old(reg)@,
    {
        let n = interfaces.len();
        let arr = match host::new_class_array(env, n as i32) {
            Ok(a) => a,
            Err(e) => return Err(host::convert_error(e)),
        };
        let mut i: usize = 0;
        while i < n
            invariant
                n == interfaces@.len(),
                n <= i32::MAX,
                i <= n,
            decreases n - i,
        {
            let cls = match host::find_class_by_name(env, interfaces[i].as_str()) {
                Ok(c) => c,
                Err(e) => return Err(host::convert_error(e)),
            };
            match host::set_class_array_element(env, &arr, i as i32, &cls) {
                Ok(u) => u,
                Err(e) => return Err(host::convert_error(e)),
            }
            i += 1;
        }
        let id = reg.generate_fresh_id();
        let shim = match host::new_shim_instance(env, shim_class, id) {
            Ok(s) => s,
            Err(e) => return Err(host::convert_error(e)),
        };
        let proxy_local = match host::new_proxy_instance(env, class_loader, &arr, &shim) {
            Ok(p) => p,
            Err(e) => return Err(host::convert_error(e)),
        };
        let durable = match globalize(env, &proxy_local) {
            Ok(g) => g,
            Err(e) => return Err(e),
        };
        reg.insert(id, handler);
        Ok(JniProxy { rust_hdl_id: id, java_proxy: durable })
    }
}

/// Decides whether a reference promotion succeeded, from the two null
/// tests' results: a null promoted handle for a non-null input is a
/// named null-pointer error, and every other combination passes the
/// promoted handle through (a null input legitimately promotes to a null
/// handle).
pub fn check_promotion<V>(promoted: V, local_null: bool, global_null: bool) -> (r: Result<
    V,
    ProxyError,
>)
    ensures
        !local_null && global_null ==> r == Err::<V, ProxyError>(ProxyError::NullPointer(
            "new_global_ref",
        )),
        !(!local_null && global_null) ==> r == Ok::<V, ProxyError>(promoted),
{
    if !local_null && global_null {
        Err(ProxyError::NullPointer("new_global_ref"))
    } else {
        Ok(promoted)
    }
}

/// Promotes a local reference to a durable one; [`check_promotion`] turns
/// a null result for a non-null input into a null-pointer error.
fn globalize<'e>(env: &JNIEnv<'e>, obj: &JObject<'e>) -> Result<GlobalRef, ProxyError> {
    match host::to_global(env, obj) {
        Ok(g) => {
            let global_null = host::global_is_null(&g);
            check_promotion(g, host::object_is_null(obj), global_null)
        },
        Err(e) => Err(host::convert_error(e)),
    }
}

/// Materializes a host-runtime object array into a vector of local
/// handles; a null array is an error.  The decisions are stated one call
/// down, on the plain values the trusted tests hand back: see
/// [`materialize_arguments`] for the null-array error and
/// [`read_elements`] for the length of the result.
pub(crate) fn read_object_array<'e>(env: &mut JNIEnv<'e>, arr: &JObjectArray<'e>) -> (r: Result<
    Vec<JObject<'e>>,
    ProxyError,
>)
    ensures
        r matches Ok(v) ==> v@.len() <= i32::MAX as nat,
{
    let arr_null = host::array_is_null(arr);
    materialize_arguments(env, arr, arr_null)
}

/// The null-array decision of argument materialization, taken on the
/// plain boolean the trusted null test returned: a null array is the
/// named null-pointer error, and any other array is read out in full.
fn materialize_arguments<'e>(env: &mut JNIEnv<'e>, arr: &JObjectArray<'e>, arr_null: bool) -> (r:
    Result<Vec<JObject<'e>>, ProxyError>)
    ensures
        arr_null ==> r == Err::<Vec<JObject<'e>>, ProxyError>(ProxyError::NullPointer(
            "read_object_array",
        )),
        r matches Ok(v) ==> v@.len() <= i32::MAX as nat,
{
    if arr_null {
        return Err(ProxyError::NullPointer("read_object_array"));
    }
    match host::get_array_length(env, arr) {
        Ok(len) => read_elements(env, arr, len),
        Err(e) => Err(host::convert_error(e)),
    }
}

/// Reads out the elements of an array whose host-reported length is
/// `len`: on success the vector holds exactly `len` local handles, one
/// fetched per index in ascending order; any element fetch that fails
/// fails the whole materialization.
fn read_elements<'e>(env: &mut JNIEnv<'e>, arr: &JObjectArray<'e>, len: i32) -> (r: Result<
    Vec<JObject<'e>>,
    ProxyError,
>)
    requires
        0 <= len,
    ensures
        r matches Ok(v) ==> v@.len() == len as nat,
{
    let mut out: Vec<JObject<'e>> = Vec::new();
    let mut i: i32 = 0;
    while i < len
        invariant
            0 <= i <= len,
            out@.len() == i as nat,
        decreases len - i,
    {
        match host::get_array_element(env, arr, i) {
            Ok(o) => out.push(o),
            Err(e) => return Err(host::convert_error(e)),
        }
        i += 1;
    }
    Ok(out)
}

/// What a downcall hands back to the host runtime's call machinery.
#[derive(Debug, PartialEq, Eq)]
pub enum Dispatched<V> {
    /// The handler's result handle; ownership transfers to the caller.
    Value(V),
    /// No handler is registered under the id: the degraded null-result,
    /// no-exception path for a use-after-release by the caller.
    Absent,
    /// The handler failed; the error still has to be turned into a thrown
    /// host-runtime exception by [`settle_failure`].
    Failed(ProxyError),
}

/// Sorts a handler's result into the dispatch outcome: a success becomes
/// the returned value, an error is handed on to the exception bridge.
pub fn route<V>(outcome: Result<V, ProxyError>) -> (r: Dispatched<V>)
    ensures
        outcome matches Ok(v) ==> r == Dispatched::Value(v),
        outcome matches Err(e) ==> r == Dispatched::<V>::Failed(e),
{
    match outcome {
        Ok(v) => Dispatched::Value(v),
        Err(e) => Dispatched::Failed(e),
    }
}

/// The warning printed when a downcall arrives for an unregistered id.
pub open spec fn absent_text(id: int) -> Seq<char> {
    "Proxy "@ + dec_int(id) + " is used, but the Rust handler has been dropped."@
}

fn absent_message(id: i64) -> (r: String)
    ensures
        r@ == absent_text(id as int),
{
    let mut msg = "Proxy ".to_owned();
    let digits = i64_to_dec(id);
    msg.append(digits.as_str());
    msg.append(" is used, but the Rust handler has been dropped.");
    msg
}

/// The first step of a downcall: looks up the handler registered under
/// `id` and hands out a clone of it, so that the embedding can release
/// the registry's lock before the handler runs — the handler may itself
/// re-enter the registry to build or release other proxies.
///
/// If the proxy was already released — a use-after-release by the caller
/// — a diagnostic is logged and `None` is returned, which the embedding
/// answers with the degraded null result, without raising an exception.
pub fn dispatch_lookup<H: ProxyHandler + Clone>(reg: &HandlerRegistry<H>, id: i64) -> (r: Option<
    H,
>)
    ensures
        (r is Some) <==> reg@.dom().contains(id),
{
    match reg.lookup(id) {
        Some(h) => Some(h.clone()),
        None => {
            let msg = absent_message(id);
            host::log_warning(msg.as_str());
            None
        },
    }
}

/// The second step of a downcall: runs the handler that
/// [`dispatch_lookup`] found, with no registry borrow held.
///
/// The argument array is materialized first; a null or unreadable array
/// is an error of the call itself, routed into the failure outcome
/// without ever invoking the handler.  Otherwise the per-thread context
/// is set to `id` around the handler call and restored afterwards
/// whatever the handler did, and the handler's result is routed into the
/// outcome.
pub fn dispatch_invoke<'e, H: ProxyHandler>(
    handler: &H,
    ctx: &mut ProxyContext,
    env: &mut JNIEnv<'e>,
    id: i64,
    method: &JObject<'e>,
    args: &JObjectArray<'e>,
) -> (r: Dispatched<JObject<'e>>)
    ensures
        final(ctx)@ == old(ctx)@,
        !(r is Absent),
{
    let argv = match read_object_array(env, args) {
        Ok(v) => v,
        Err(e) => {
            return route(Err(e));
        },
    };
    let saved = ctx.enter(id);
    let result = handler.invoke(env, ctx, method, &argv);
    ctx.leave(saved);
    route(result)
}

/// The downcall dispatch logic invoked, through the embedding's entry
/// point, whenever the host runtime calls a method on a synthesized
/// proxy: [`dispatch_lookup`] followed by [`dispatch_invoke`].
pub fn dispatch<'e, H: ProxyHandler + Clone>(
    reg: &HandlerRegistry<H>,
    ctx: &mut ProxyContext,
    env: &mut JNIEnv<'e>,
    id: i64,
    method: &JObject<'e>,
    args: &JObjectArray<'e>,
) -> (r: Dispatched<JObject<'e>>)
    ensures
        final(ctx)@ == old(ctx)@,
        (r is Absent) <==> !reg@.dom().contains(id),
{
    match dispatch_lookup(reg, id) {
        Some(h) => dispatch_invoke(&h, ctx, env, id, method, args),
        None => Dispatched::Absent,
    }
}

/// How a handler failure is communicated back to the host runtime.
#[derive(Debug, PartialEq, Eq)]
pub enum FailurePlan<S> {
    /// A host-runtime exception is still pending in the environment: leave
    /// it to propagate as it is.
    LetPending,
    /// Re-throw the stashed original exception object, preserving its
    /// identity, type and stack for the caller.
    RethrowStashed(S),
    /// No original exception is available: throw a new generic exception
    /// carrying the given diagnostic message.
    ThrowGeneric(String),
    /// The error was not a host-runtime exception: throw a new exception
    /// whose message embeds the error's rendering.
    ThrowForeign(String),
}

/// The message of the generic exception thrown when a handler reported a
/// host-runtime exception but none is pending and none was stashed.
pub open spec fn generic_failure_text(thread: Seq<char>, id: int) -> Seq<char> {
    thread + ": Rust handler of proxy "@ + dec_int(id) + " got an exception."@
}

/// The warning printed before re-throwing a stashed exception.
pub open spec fn rethrow_text(thread: Seq<char>, id: int) -> Seq<char> {
    thread + ": Rust handler of proxy "@ + dec_int(id) + " got an exception, throwing..."@
}

/// The message of the exception thrown for a handler error that is not a
/// host-runtime exception.
pub open spec fn foreign_failure_text(thread: Seq<char>, id: int, e: ProxyError) -> Seq<char> {
    thread + ": Rust handler of proxy "@ + dec_int(id) + ": "@ + e.spec_text()
}

fn rethrow_message(thread: &str, id: i64) -> (r: String)
    ensures
        r@ == rethrow_text(thread@, id as int),
{
    let mut msg = failure_prefix(thread, id);
    msg.append(" got an exception, throwing...");
    msg
}

fn failure_prefix(thread: &str, id: i64) -> (r: String)
    ensures
        r@ == thread@ + ": Rust handler of proxy "@ + dec_int(id as int),
{
    let mut msg = thread.to_owned();
    msg.append(": Rust handler of proxy ");
    let digits = i64_to_dec(id);
    msg.append(digits.as_str());
    msg
}

/// Decides how a handler failure is bridged back to the host runtime,
/// given whether an exception is still pending in the environment and what
/// the per-thread stash held.
///
/// - An error other than `JavaException` always becomes a new thrown
///   exception embedding the thread identity, the handler id and the
///   error's rendering.
/// - `JavaException` with the exception still pending is left to
///   propagate.
/// - `JavaException` already cleared: the stashed original exception is
///   re-thrown unchanged when one is available; otherwise a new generic
///   diagnostic exception is thrown.
pub fn failure_plan<S>(
    err: &ProxyError,
    pending: bool,
    stashed: Option<S>,
    thread: &str,
    id: i64,
) -> (r: FailurePlan<S>)
    ensures
        err is JavaException && pending ==> r is LetPending,
        err is JavaException && !pending && stashed is Some ==> r == FailurePlan::RethrowStashed(
            stashed->0,
        ),
        err is JavaException && !pending && stashed is None ==> (r matches FailurePlan::ThrowGeneric(
            m,
        ) && m@ == generic_failure_text(thread@, id as int)),
        !(err is JavaException) ==> (r matches FailurePlan::ThrowForeign(m) && m@
            == foreign_failure_text(thread@, id as int, *err)),
{
    match err {
        ProxyError::JavaException => {
            if pending {
                FailurePlan::LetPending
            } else {
                match stashed {
                    Some(ex) => FailurePlan::RethrowStashed(ex),
                    None => {
                        let mut msg = failure_prefix(thread, id);
                        msg.append(" got an exception.");
                        FailurePlan::ThrowGeneric(msg)
                    },
                }
            }
        },
        other => {
            let mut msg = failure_prefix(thread, id);
            msg.append(": ");
            let desc = other.describe();
            msg.append(desc.as_str());
            FailurePlan::ThrowForeign(msg)
        },
    }
}

/// Turns a handler failure into the exception the host runtime's caller
/// observes, per [`failure_plan`].
///
/// For a `JavaException` with no exception pending, the per-thread stash
/// is consulted destructively: a stashed original exception is re-thrown
/// in this call's environment (preserving its identity), and without one a
/// generic diagnostic exception is thrown.  In every case the caller
/// returns a null result handle; the thrown exception, not the return
/// value, is what the host runtime observes.
pub fn settle_failure<'e>(
    env: &mut JNIEnv<'e>,
    slot: &mut StashSlot<GlobalRef>,
    err: ProxyError,
    thread: &str,
    id: i64,
)
    ensures
        !(err is JavaException) ==> final(slot)@ == old(slot)@,
        err is JavaException ==> (final(slot)@ is None || final(slot)@ == old(slot)@),
{
    match &err {
        ProxyError::JavaException => {
            let pending = match host::exception_check(env) {
                Ok(b) => b,
                Err(_) => true,
            };
            if !pending {
                let stashed = slot.take();
                match failure_plan(&err, false, stashed, thread, id) {
                    FailurePlan::RethrowStashed(g) => {
                        let msg = rethrow_message(thread, id);
                        host::log_warning(msg.as_str());
                        let local = host::new_local_throwable(env, &g);
                        host::throw_throwable(env, &local);
                    },
                    FailurePlan::ThrowGeneric(m) => {
                        host::throw_message(env, m.as_str());
                    },
                    FailurePlan::LetPending => {},
                    FailurePlan::ThrowForeign(_) => {},
                }
            }
        },
        _other => {
            match failure_plan::<GlobalRef>(&err, false, None, thread, id) {
                FailurePlan::ThrowForeign(m) => {
                    host::throw_message(env, m.as_str());
                },
                FailurePlan::LetPending => {},
                FailurePlan::RethrowStashed(_) => {},
                FailurePlan::ThrowGeneric(_) => {},
            }
        },
    }
}

} // verus!
