//! The trusted boundary to the host runtime and to the system clock.
//!
//! Every function here is an `external_body` wrapper around one call into
//! the `jni` crate or the standard library; the rest of the crate is
//! verified against the contracts stated here.  Values of the declared
//! types (`JNIEnv`, `JObject`, `GlobalRef`, ...) are opaque to the
//! verifier and are only carried through.  Wrappers hand failures back as
//! `jni::errors::Error` values, which verified callers turn into
//! [`ProxyError`] through [`convert_error`].

use crate::errors::ProxyError;
use jni::objects::{GlobalRef, JClass, JObject, JObjectArray, JThrowable};
use jni::JNIEnv;
use std::io::Write;
use std::time::Instant;
use vstd::prelude::*;

verus! {

#[verifier::external_type_specification]
#[verifier::external_body]
pub struct ExJNIEnv<'local>(JNIEnv<'local>);

#[verifier::external_type_specification]
#[verifier::external_body]
pub struct ExJObjectRaw(jni::sys::_jobject);

#[verifier::external_type_specification]
#[verifier::external_body]
pub struct ExJObject<'local>(JObject<'local>);

#[verifier::external_type_specification]
#[verifier::external_body]
pub struct ExJClass<'local>(JClass<'local>);

#[verifier::external_type_specification]
#[verifier::external_body]
pub struct ExJObjectArray<'local>(JObjectArray<'local>);

#[verifier::external_type_specification]
#[verifier::external_body]
pub struct ExJThrowable<'local>(JThrowable<'local>);

#[verifier::external_type_specification]
#[verifier::external_body]
pub struct ExGlobalRef(GlobalRef);

#[verifier::external_type_specification]
#[verifier::external_body]
pub struct ExJniError(jni::errors::Error);

#[verifier::external_type_specification]
#[verifier::external_body]
pub struct ExInstant(Instant);

/// Relies on `jni::errors::Error`'s variants: `JavaException` means a
/// host-runtime exception is pending, a `NullPtr` report keeps the name of
/// the site that saw it, and every other variant is carried as the text of
/// its debug rendering.
#[verifier::external_body]
pub(crate) fn convert_error(e: jni::errors::Error) -> ProxyError {
    match e {
        jni::errors::Error::JavaException => ProxyError::JavaException,
        jni::errors::Error::NullPtr(site) => ProxyError::NullPointer(site),
        other => ProxyError::Foreign(format!("{other:?}")),
    }
}

/// Relies on `std::time::Instant::now`: a reading of the monotonic clock.
/// Nothing can be promised of the value.
#[verifier::external_body]
pub(crate) fn clock_now() -> Instant {
    Instant::now()
}

/// Relies on `std::time::Instant::elapsed`: the time since `start`, in
/// nanoseconds.  The value depends on the clock, so nothing can be
/// promised of it.
#[verifier::external_body]
pub(crate) fn elapsed_nanos(start: &Instant) -> u128 {
    start.elapsed().as_nanos()
}

/// Relies on `JNIEnv::new_object_array`: a new `java.lang.Class[]` of the
/// given length with null elements, or an error from the host runtime.
#[verifier::external_body]
pub(crate) fn new_class_array<'e>(env: &mut JNIEnv<'e>, len: i32) -> Result<
    JObjectArray<'e>,
    jni::errors::Error,
>
    requires
        0 <= len,
{
    env.new_object_array(len, "java/lang/Class", JObject::null())
}

/// Relies on `JNIEnv::find_class`: resolves a class by its internal
/// qualified name, or reports an error from the host runtime.
#[verifier::external_body]
pub(crate) fn find_class_by_name<'e>(env: &mut JNIEnv<'e>, name: &str) -> Result<
    JClass<'e>,
    jni::errors::Error,
> {
    env.find_class(name)
}

/// Relies on `JNIEnv::set_object_array_element`: stores the class handle
/// at the given index of the array.
#[verifier::external_body]
pub(crate) fn set_class_array_element<'e>(
    env: &mut JNIEnv<'e>,
    arr: &JObjectArray<'e>,
    index: i32,
    cls: &JClass<'e>,
) -> Result<(), jni::errors::Error>
    requires
        0 <= index,
{
    env.set_object_array_element(arr, index, cls)
}

/// Relies on `JNIEnv::new_object`: constructs an instance of the shim
/// class through its `(J)V` constructor, passing the handler id.
#[verifier::external_body]
pub(crate) fn new_shim_instance<'e, 's>(
    env: &mut JNIEnv<'e>,
    shim_class: &JClass<'s>,
    id: i64,
) -> Result<JObject<'e>, jni::errors::Error> {
    env.new_object(shim_class, "(J)V", &[id.into()])
}

/// Relies on `JNIEnv::call_static_method` calling
/// `java.lang.reflect.Proxy.newProxyInstance`: synthesizes an object that
/// implements all classes in `interfaces` and delegates every call to
/// `shim`.  A null loader selects the default class loader, as the host
/// runtime defines it.
#[verifier::external_body]
pub(crate) fn new_proxy_instance<'e, 'l>(
    env: &mut JNIEnv<'e>,
    loader: Option<&JObject<'l>>,
    interfaces: &JObjectArray<'e>,
    shim: &JObject<'e>,
) -> Result<JObject<'e>, jni::errors::Error> {
    env.call_static_method(
        "java/lang/reflect/Proxy",
        "newProxyInstance",
        "(Ljava/lang/ClassLoader;[Ljava/lang/Class;Ljava/lang/reflect/InvocationHandler;)Ljava/lang/Object;",
        &[
            loader.unwrap_or(&JObject::null()).into(),
            interfaces.into(),
            shim.into(),
        ],
    ).and_then(|v| v.l())
}

/// Relies on `JNIEnv::new_global_ref`: promotes a local reference to a
/// heap-durable one that outlives the current call scope.
#[verifier::external_body]
pub(crate) fn to_global<'e>(env: &JNIEnv<'e>, obj: &JObject<'e>) -> Result<
    GlobalRef,
    jni::errors::Error,
> {
    env.new_global_ref(obj)
}

/// Relies on `JNIEnv::new_global_ref`: promotes a local handle to the
/// captured exception object into a heap-durable one.
#[verifier::external_body]
pub(crate) fn to_global_throwable<'e>(env: &JNIEnv<'e>, ex: &JThrowable<'e>) -> Result<
    GlobalRef,
    jni::errors::Error,
> {
    env.new_global_ref(ex)
}

/// Relies on `JObject::as_raw`: whether the handle is the null reference.
#[verifier::external_body]
pub(crate) fn object_is_null(obj: &JObject<'_>) -> bool {
    obj.as_raw().is_null()
}

/// Relies on `JObject::as_raw`: whether the global handle is the null
/// reference.
#[verifier::external_body]
pub(crate) fn global_is_null(obj: &GlobalRef) -> bool {
    obj.as_obj().as_raw().is_null()
}

/// Relies on `JObject::as_raw`: whether the array handle is the null
/// reference.
#[verifier::external_body]
pub(crate) fn array_is_null(arr: &JObjectArray<'_>) -> bool {
    arr.as_raw().is_null()
}

/// Relies on `JObject::null`: the null object handle.
#[verifier::external_body]
pub(crate) fn null_object<'e>() -> JObject<'e> {
    JObject::null()
}

/// Relies on `JNIEnv::exception_check`: whether a host-runtime exception
/// is pending in this environment.
#[verifier::external_body]
pub(crate) fn exception_check<'e>(env: &JNIEnv<'e>) -> Result<bool, jni::errors::Error> {
    env.exception_check()
}

/// Relies on `JNIEnv::exception_occurred`: a local handle to the pending
/// exception object, if any.
#[verifier::external_body]
pub(crate) fn exception_occurred<'e>(env: &mut JNIEnv<'e>) -> Result<
    JThrowable<'e>,
    jni::errors::Error,
> {
    env.exception_occurred()
}

/// Relies on `JNIEnv::exception_describe`: prints the pending exception
/// and its backtrace through the host runtime's own channel.  Failures are
/// ignored, as this is purely diagnostic.
#[verifier::external_body]
pub(crate) fn exception_describe<'e>(env: &JNIEnv<'e>) {
    let _ = env.exception_describe();
}

/// Relies on `JNIEnv::exception_clear`: clears the pending exception.  An
/// environment that refuses to clear is poisoned for every later call, so
/// a failure here aborts the process, per the embedding's safety contract.
#[verifier::external_body]
pub(crate) fn exception_clear_or_abort<'e>(env: &JNIEnv<'e>) {
    env.exception_clear().unwrap();
}

/// Relies on `JNIEnv::new_local_ref`: a local handle, in this call's
/// environment, to the captured exception object.  Aborts if the host
/// runtime cannot create the reference, as the captured exception would
/// otherwise be lost silently.
#[verifier::external_body]
pub(crate) fn new_local_throwable<'e>(env: &JNIEnv<'e>, g: &GlobalRef) -> JThrowable<'e> {
    JThrowable::from(env.new_local_ref(g).unwrap())
}

/// Relies on `JNIEnv::throw`: raises the given exception object in the
/// environment.  Aborts if the host runtime refuses the throw, as the
/// failure would otherwise surface as a silent null result.
#[verifier::external_body]
pub(crate) fn throw_throwable<'e>(env: &mut JNIEnv<'e>, ex: &JThrowable<'e>) {
    env.throw(ex).unwrap();
}

/// Relies on `JNIEnv::throw`: raises a new `java.lang.RuntimeException`
/// carrying the given message.  Aborts if the host runtime refuses the
/// throw, as the failure would otherwise surface as a silent null result.
#[verifier::external_body]
pub(crate) fn throw_message<'e>(env: &mut JNIEnv<'e>, msg: &str) {
    env.throw(msg).unwrap();
}

/// Relies on `JNIEnv::get_array_length`: the length of the array, which
/// the JNI specification defines as nonnegative.
#[verifier::external_body]
pub(crate) fn get_array_length<'e>(env: &JNIEnv<'e>, arr: &JObjectArray<'e>) -> (r: Result<
    i32,
    jni::errors::Error,
>)
    ensures
        r matches Ok(len) ==> 0 <= len,
{
    env.get_array_length(arr)
}

/// Relies on `JNIEnv::get_object_array_element`: a local handle to the
/// element at the given index.
#[verifier::external_body]
pub(crate) fn get_array_element<'e>(
    env: &mut JNIEnv<'e>,
    arr: &JObjectArray<'e>,
    index: i32,
) -> Result<JObject<'e>, jni::errors::Error>
    requires
        0 <= index,
{
    env.get_object_array_element(arr, index)
}

/// Relies on `std::io::stderr` and `writeln`: prints one diagnostic line.
#[verifier::external_body]
pub(crate) fn log_warning(msg: &str) {
    let _ = writeln!(std::io::stderr(), "{}", msg);
}

/// Relies on `std::backtrace::Backtrace::capture` and `writeln`: prints
/// the native-side backtrace when capture is enabled, for diagnosing
/// errors that cross the FFI boundary.
#[verifier::external_body]
pub fn print_rust_stack() {
    let backtrace = std::backtrace::Backtrace::capture();
    if let std::backtrace::BacktraceStatus::Captured = backtrace.status() {
        let _ = writeln!(std::io::stderr(), "{}", backtrace);
    }
}

} // verus!
