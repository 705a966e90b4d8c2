//! Dynamic proxy support for a managed host runtime reached through JNI.
//!
//! The crate centres on three pieces:
//! - a process-wide handler registry mapping numeric handler ids to
//!   caller-supplied dispatch closures ([`registry::HandlerRegistry`]),
//! - the proxy engine that synthesizes a host-runtime object implementing a
//!   set of interfaces and wires it to a registered handler
//!   ([`proxy::JniProxy`]), and
//! - the exception bridge that converts host-runtime exceptions into native
//!   error values and back ([`bridge`]).
//!
//! Calls into the JVM itself go through a small set of trusted wrappers in
//! [`host`]; everything around them is verified.

use vstd::prelude::*;

pub mod bridge;
pub mod context;
pub mod errors;
pub mod host;
pub mod laws;
pub mod proxy;
pub mod registry;
pub mod text;

pub use bridge::{
    jni_clear_ex, jni_clear_ex_ignore, jni_clear_ex_silent, jni_last_cleared_ex, StashSlot,
};
pub use context::ProxyContext;
pub use errors::ProxyError;
pub use host::print_rust_stack;
pub use proxy::{
    check_promotion, dispatch, dispatch_invoke, dispatch_lookup, settle_failure, Dispatched,
    FailurePlan, JniProxy, ProxyHandler,
};
pub use registry::HandlerRegistry;
pub use text::{class_name_to_internal, class_name_to_java};

verus! {

/// Marker type for sealing trait methods that are not meant to be
/// implemented or called outside this crate: a hidden method taking an
/// `Internal` argument cannot be supplied by other crates.
#[derive(Debug)]
pub struct Internal;

} // verus!
