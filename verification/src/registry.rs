//! The handler registry: a mapping from synthetic 64-bit handler ids to the
//! closures that back live dynamic proxies.
//!
//! The embedding owns one registry for the whole process and guards it with
//! a lock of its choosing; every operation here takes the registry by
//! (mutable) reference, so id generation and insertion performed under one
//! borrow are atomic with respect to any other generation-and-insertion
//! sequence.

use crate::host;
use vstd::assert_by_contradiction;
use std::collections::HashMap;
use std::time::Instant;
use vstd::prelude::*;

verus! {

broadcast use vstd::std_specs::hash::group_hash_axioms;

/// A process-wide mapping from handler ids to handler values of type `H`.
///
/// Ids are generated from the time elapsed since the registry was
/// created, reduced into the nonnegative range of `i64` and moved past
/// any colliding live ids; an id is therefore unique among the
/// *currently registered* handlers, and may be reused after its entry is
/// removed.
pub struct HandlerRegistry<H> {
    start: Instant,
    entries: HashMap<i64, H>,
}

impl<H> View for HandlerRegistry<H> {
    type V = Map<i64, H>;

    closed spec fn view(&self) -> Map<i64, H> {
        self.entries@
    }
}

impl<H> HandlerRegistry<H> {
    /// Creates an empty registry; ids will be derived from time elapsed
    /// since this call.
    pub fn new() -> (r: HandlerRegistry<H>)
        ensures
            r@ == Map::<i64, H>::empty(),
    {
        HandlerRegistry { start: host::clock_now(), entries: HashMap::new() }
    }

    /// Whether a handler is currently registered under `id`.
    pub fn contains(&self, id: i64) -> (r: bool)
        ensures
            r == self@.dom().contains(id),
    {
        self.entries.contains_key(&id)
    }

    /// Stores `handler` under `id`.  The caller guarantees that `id` is not
    /// currently present, which the id-generation algorithm enforces.
    pub fn insert(&mut self, id: i64, handler: H)
        requires
            !old(self)@.dom().contains(id),
        ensures
            final(self)@ == old(self)@.insert(id, handler),
    {
        self.entries.insert(id, handler);
    }

    /// Removes and returns the handler registered under `id`; does nothing
    /// and returns `None` if there is none.
    pub fn remove(&mut self, id: i64) -> (r: Option<H>)
        ensures
            final(self)@ == old(self)@.remove(id),
            r matches Some(h) ==> old(self)@.dom().contains(id) && h == old(self)@[id],
            r is None ==> !old(self)@.dom().contains(id),
    {
        self.entries.remove(&id)
    }

    /// A borrow of the handler registered under `id`, if any.  The caller
    /// clones what it needs and releases the borrow before invoking the
    /// handler, so that the handler can re-enter the registry.
    pub fn lookup(&self, id: i64) -> (r: Option<&H>)
        ensures
            r matches Some(h) ==> self@.dom().contains(id) && *h == self@[id],
            r is None ==> !self@.dom().contains(id),
    {
        self.entries.get(&id)
    }

    /// The number of live entries.
    pub fn len(&self) -> (r: usize)
        ensures
            r == self@.dom().len(),
    {
        self.entries.len()
    }

    /// Generates a handler id that no live entry uses: a reading of the
    /// elapsed time since the registry was created, reduced into the
    /// nonnegative range of `i64`, then probed forward past any colliding
    /// live ids.
    ///
    /// To keep the fresh id fresh, the caller must hold its exclusive
    /// borrow of the registry from this call through the matching
    /// [`HandlerRegistry::insert`].
    pub fn generate_fresh_id(&self) -> (r: i64)
        requires
            self@.dom().len() + 1 < i64::MAX,
        ensures
            0 <= r < i64::MAX,
            !self@.dom().contains(r),
    {
        let nanos = host::elapsed_nanos(&self.start);
        let first: i64 = (nanos % (i64::MAX as u128)) as i64;
        let n: usize = self.entries.len();
        proof {
            assert(self@.dom().finite());
            lemma_probe_finds_free(self@, first as int, n as int);
        }
        let ghost k0: int = choose|k: int|
            0 <= k <= n && !self@.dom().contains(probe_candidate(first as int, k) as i64);
        let mut j: usize = 0;
        loop
            invariant
                0 <= first < i64::MAX,
                n == self@.dom().len(),
                n + 1 < i64::MAX,
                0 <= j <= k0 <= n,
                !self@.dom().contains(probe_candidate(first as int, k0) as i64),
            decreases k0 - j,
        {
            let candidate = probe_step(first, j);
            if !self.contains(candidate) {
                return candidate;
            }
            proof {
                assert(j < k0);
            }
            j += 1;
        }
    }
}

/// The id that probe step `j` from starting candidate `c` examines:
/// `c + j`, wrapped back into `[0, i64::MAX)`.
spec fn probe_candidate(c: int, j: int) -> int {
    if c + j < i64::MAX {
        c + j
    } else {
        c + j - i64::MAX
    }
}

/// One probe step, in executable form.
fn probe_step(c: i64, j: usize) -> (r: i64)
    requires
        0 <= c < i64::MAX,
        j < i64::MAX,
    ensures
        r == probe_candidate(c as int, j as int),
        0 <= r < i64::MAX,
{
    let s: i128 = c as i128 + j as i128;
    if s < i64::MAX as i128 {
        s as i64
    } else {
        (s - i64::MAX as i128) as i64
    }
}

/// Among `n + 1` distinct probe candidates, at least one misses a domain
/// of `n` live ids.
proof fn lemma_probe_finds_free<H>(m: Map<i64, H>, c: int, n: int)
    requires
        m.dom().finite(),
        m.dom().len() == n,
        0 <= c < i64::MAX,
        0 <= n,
        n + 1 < i64::MAX,
    ensures
        exists|k: int| 0 <= k <= n && !m.dom().contains(probe_candidate(c, k) as i64),
{
    assert_by_contradiction!(
        exists|k: int| 0 <= k <= n && !m.dom().contains(probe_candidate(c, k) as i64),
        {
            assert(forall|k: int| 0 <= k <= n ==> m.dom().contains(probe_candidate(c, k) as i64));
            let probes = Seq::new((n + 1) as nat, |k: int| probe_candidate(c, k) as i64);
            assert(probes.no_duplicates()) by {
                assert forall|x: int, y: int|
                    0 <= x < probes.len() && 0 <= y < probes.len() && x != y implies probes[x]
                    != probes[y] by {
                    assert(probe_candidate(c, x) != probe_candidate(c, y));
                };
            };
            probes.unique_seq_to_set();
            assert(probes.to_set().subset_of(m.dom())) by {
                assert forall|x: i64| probes.to_set().contains(x) implies m.dom().contains(x) by {
                    let k = choose|k: int| 0 <= k < probes.len() && probes[k] == x;
                    assert(m.dom().contains(probe_candidate(c, k) as i64));
                };
            };
            vstd::set_lib::lemma_len_subset(probes.to_set(), m.dom());
        }
    );
}

} // verus!
