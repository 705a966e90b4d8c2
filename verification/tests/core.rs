//! Tests of the handler registry, the per-thread context slot, the stash
//! slot, and the verified text helpers.

use jni_min_helper::bridge::StashSlot;
use jni_min_helper::context::ProxyContext;
use jni_min_helper::errors::ProxyError;
use jni_min_helper::proxy::JniProxy;
use jni_min_helper::registry::HandlerRegistry;
use jni_min_helper::text::{class_name_to_internal, class_name_to_java, i64_to_dec};

#[test]
fn registry_insert_lookup_remove() {
    let mut reg: HandlerRegistry<u32> = HandlerRegistry::new();
    let id = reg.generate_fresh_id();
    assert!(!reg.contains(id));
    reg.insert(id, 7);
    assert!(reg.contains(id));
    assert_eq!(reg.lookup(id), Some(&7));
    assert_eq!(reg.len(), 1);
    assert_eq!(reg.remove(id), Some(7));
    assert!(!reg.contains(id));
    assert_eq!(reg.lookup(id), None);
    assert_eq!(reg.len(), 0);
}

#[test]
fn registry_remove_absent_is_none() {
    let mut reg: HandlerRegistry<u32> = HandlerRegistry::new();
    assert_eq!(reg.remove(12345), None);
    assert_eq!(reg.len(), 0);
}

#[test]
fn fresh_ids_do_not_collide_while_live() {
    let mut reg: HandlerRegistry<u32> = HandlerRegistry::new();
    let id1 = reg.generate_fresh_id();
    reg.insert(id1, 1);
    let id2 = reg.generate_fresh_id();
    assert_ne!(id1, id2);
    reg.insert(id2, 2);
    assert!(reg.contains(id1));
    assert!(reg.contains(id2));
    assert_eq!(reg.lookup(id1), Some(&1));
    assert_eq!(reg.lookup(id2), Some(&2));
}

#[test]
fn fresh_id_is_in_nonnegative_range() {
    let reg: HandlerRegistry<u32> = HandlerRegistry::new();
    for _ in 0..16 {
        let id = reg.generate_fresh_id();
        assert!(id >= 0);
        assert!(id < i64::MAX);
    }
}

#[test]
fn released_id_takes_degraded_path() {
    // The absent outcome of dispatch is keyed on registration alone: after
    // removal the lookup that dispatch performs no longer finds a handler.
    let mut reg: HandlerRegistry<u32> = HandlerRegistry::new();
    let id = reg.generate_fresh_id();
    reg.insert(id, 9);
    assert!(reg.lookup(id).is_some());
    reg.remove(id);
    assert!(reg.lookup(id).is_none());
}

#[test]
fn forgotten_handler_survives_other_releases() {
    // A forgotten proxy's entry is never removed by its own scope ending;
    // removing other entries leaves it registered with the same handler.
    let mut reg: HandlerRegistry<u32> = HandlerRegistry::new();
    let kept = reg.generate_fresh_id();
    reg.insert(kept, 11);
    let released = reg.generate_fresh_id();
    reg.insert(released, 22);
    assert_eq!(reg.remove(released), Some(22));
    assert!(reg.contains(kept));
    assert_eq!(reg.lookup(kept), Some(&11));
}

#[test]
fn context_nests_and_restores() {
    let mut ctx = ProxyContext::new();
    assert_eq!(JniProxy::current_proxy_id(&ctx), None);
    let saved_outer = ctx.enter(7);
    assert_eq!(saved_outer, None);
    assert_eq!(JniProxy::current_proxy_id(&ctx), Some(7));
    let saved_inner = ctx.enter(9);
    assert_eq!(saved_inner, Some(7));
    assert_eq!(JniProxy::current_proxy_id(&ctx), Some(9));
    ctx.leave(saved_inner);
    assert_eq!(JniProxy::current_proxy_id(&ctx), Some(7));
    ctx.leave(saved_outer);
    assert_eq!(JniProxy::current_proxy_id(&ctx), None);
}

#[test]
fn stash_slot_is_depth_one_and_destructive() {
    let mut slot: StashSlot<i32> = StashSlot::new();
    assert_eq!(slot.take(), None);
    slot.set(1);
    slot.set(2);
    assert_eq!(slot.take(), Some(2));
    assert_eq!(slot.take(), None);
}

#[test]
fn class_name_normalization() {
    assert_eq!(class_name_to_internal("java.lang.String"), "java/lang/String");
    assert_eq!(class_name_to_internal("java/lang/String"), "java/lang/String");
    assert_eq!(class_name_to_java("java/lang/Boolean"), "java.lang.Boolean");
    assert_eq!(class_name_to_java("java.lang.Boolean"), "java.lang.Boolean");
    assert_eq!(class_name_to_internal(""), "");
    assert_eq!(class_name_to_java(""), "");
    assert_eq!(
        class_name_to_java(&class_name_to_internal("rust.jniminhelper.InvocHdl")),
        "rust.jniminhelper.InvocHdl"
    );
}

#[test]
fn decimal_rendering() {
    assert_eq!(i64_to_dec(0), "0");
    assert_eq!(i64_to_dec(7), "7");
    assert_eq!(i64_to_dec(42), "42");
    assert_eq!(i64_to_dec(1234567890123), "1234567890123");
    assert_eq!(i64_to_dec(-1), "-1");
    assert_eq!(i64_to_dec(i64::MAX), "9223372036854775807");
    assert_eq!(i64_to_dec(i64::MIN), "-9223372036854775808");
}

#[test]
fn error_descriptions() {
    assert_eq!(ProxyError::JavaException.describe(), "Java exception was thrown");
    assert_eq!(
        ProxyError::NullPointer("read_object_array").describe(),
        "Null pointer in read_object_array"
    );
    assert_eq!(ProxyError::Foreign("oops".to_string()).describe(), "oops");
}
