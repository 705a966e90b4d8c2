//! Tests of the dispatch outcome routing and of the exception bridge's
//! failure planning.  The host runtime itself is not available here, so
//! these exercise the verified decision logic on the values a handler and
//! the environment would supply.

use jni_min_helper::errors::ProxyError;
use jni_min_helper::proxy::{check_promotion, failure_plan, route, Dispatched, FailurePlan};

fn handler_result(method_name: &str) -> Result<String, ProxyError> {
    Ok(format!("Method `{}` is called.", method_name))
}

#[test]
fn zero_arg_call_returns_literal() {
    // A handler of a single zero-argument interface method returns a
    // literal constant; the dispatched value is exactly that constant.
    let outcome: Result<String, ProxyError> = Ok("ok-42".to_string());
    assert_eq!(route(outcome), Dispatched::Value("ok-42".to_string()));
}

#[test]
fn two_methods_yield_their_names() {
    let first = route(handler_result("call"));
    let second = route(handler_result("run"));
    match (first, second) {
        (Dispatched::Value(a), Dispatched::Value(b)) => {
            assert!(a.contains("`call`"));
            assert!(b.contains("`run`"));
            assert_ne!(a, b);
        }
        _ => panic!("both dispatches must produce values"),
    }
}

#[test]
fn handler_error_routes_to_failure() {
    let outcome: Result<String, ProxyError> = Err(ProxyError::JavaException);
    assert_eq!(route(outcome), Dispatched::Failed(ProxyError::JavaException));
}

#[test]
fn stashed_exception_is_rethrown_identically() {
    // The stashed original exception object is what gets re-thrown: the
    // plan carries the very value out of the stash.
    let plan = failure_plan(&ProxyError::JavaException, false, Some(77u32), "main", 3);
    assert_eq!(plan, FailurePlan::RethrowStashed(77));
}

#[test]
fn pending_exception_is_left_to_propagate() {
    let plan = failure_plan::<u32>(&ProxyError::JavaException, true, None, "main", 3);
    assert_eq!(plan, FailurePlan::LetPending);
    // A stash is not consulted while the exception is still pending.
    let plan = failure_plan(&ProxyError::JavaException, true, Some(5u32), "main", 3);
    assert_eq!(plan, FailurePlan::LetPending);
}

#[test]
fn cleared_exception_without_stash_throws_generic() {
    // The degenerate case: the handler reports "exception pending or
    // cleared", but nothing is pending and nothing was stashed.  A generic
    // diagnostic exception is thrown, never a silent null.
    let plan = failure_plan::<u32>(&ProxyError::JavaException, false, None, "ThreadId(1)", 7);
    assert_eq!(
        plan,
        FailurePlan::ThrowGeneric(
            "ThreadId(1): Rust handler of proxy 7 got an exception.".to_string()
        )
    );
}

#[test]
fn foreign_error_throws_diagnostic() {
    let plan = failure_plan::<u32>(
        &ProxyError::Foreign("WrongJValueType".to_string()),
        false,
        None,
        "main",
        7,
    );
    assert_eq!(
        plan,
        FailurePlan::ThrowForeign("main: Rust handler of proxy 7: WrongJValueType".to_string())
    );
}

#[test]
fn null_pointer_error_message() {
    let plan = failure_plan::<u32>(&ProxyError::NullPointer("somewhere"), true, None, "main", 2);
    assert_eq!(
        plan,
        FailurePlan::ThrowForeign("main: Rust handler of proxy 2: Null pointer in somewhere".to_string())
    );
}

#[test]
fn negative_id_is_rendered_in_diagnostics() {
    let plan = failure_plan::<u32>(&ProxyError::JavaException, false, None, "main", -5);
    assert_eq!(
        plan,
        FailurePlan::ThrowGeneric("main: Rust handler of proxy -5 got an exception.".to_string())
    );
}

#[test]
fn promotion_passes_value_through() {
    // A non-null promoted handle, and a null handle promoted from a null
    // input, both pass through unchanged.
    assert_eq!(check_promotion(42u32, false, false), Ok(42));
    assert_eq!(check_promotion(0u32, true, true), Ok(0));
    assert_eq!(check_promotion(7u32, true, false), Ok(7));
}

#[test]
fn promotion_null_mismatch_is_an_error() {
    // A null promoted handle for a non-null input is the named error.
    assert_eq!(
        check_promotion(0u32, false, true),
        Err(ProxyError::NullPointer("new_global_ref"))
    );
}
