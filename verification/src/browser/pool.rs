//! Bookkeeping of the pool's browser slots.
//!
//! Each slot stands for one isolated browsing context in one Chrome process.
//! Idle slots wait in a first-in, first-out queue; handed-out slots are tracked
//! by their `context_id` until they come back.
use vstd::prelude::*;
use vstd::string::*;
use std::collections::VecDeque;
use crate::error::{PoolError, PoolFault};
use crate::json::{Json, JsonValue, entries_model, get_str, push_entry};
use crate::text::{decimal, decimal_spec, opt_view, str_eq};

verus! {

/// A slot of the pool. `S` is the type of the DevTools session attached to it.
#[derive(Debug)]
pub struct BrowserContext<S> {
    /// Identifies the pool slot. Stable across acquire/release cycles.
    pub context_id: String,
    pub process_index: usize,
    pub port: u16,
    /// The browser context created for the slot's current page, if any.
    pub browser_context_id: Option<String>,
    pub cdp_session: Option<S>,
}

/// Model of a [`BrowserContext`].
pub struct SlotView<S> {
    pub context_id: Seq<char>,
    pub process_index: usize,
    pub port: u16,
    pub browser_context_id: Option<Seq<char>>,
    pub cdp_session: Option<S>,
}

impl<S> View for BrowserContext<S> {
    type V = SlotView<S>;

    open spec fn view(&self) -> SlotView<S> {
        SlotView {
            context_id: self.context_id@,
            process_index: self.process_index,
            port: self.port,
            browser_context_id: opt_view(self.browser_context_id),
            cdp_session: self.cdp_session,
        }
    }
}

impl<S> SlotView<S> {
    /// The slot with no browser context and no session.
    pub open spec fn idle(self) -> SlotView<S> {
        SlotView { browser_context_id: None, cdp_session: None, ..self }
    }
}

impl<S> BrowserContext<S> {
    /// A copy of the slot with no browser context and no session.
    fn idle_copy(&self) -> (r: BrowserContext<S>)
        ensures
            r@ == self@.idle(),
    {
        BrowserContext {
            context_id: self.context_id.clone(),
            process_index: self.process_index,
            port: self.port,
            browser_context_id: None,
            cdp_session: None,
        }
    }
}

pub open spec fn slot_views<S>(v: Seq<BrowserContext<S>>) -> Seq<SlotView<S>> {
    Seq::new(v.len(), |i: int| v[i]@)
}

/// Some slot in `s` has the id `k`.
pub open spec fn has_key<S>(s: Seq<SlotView<S>>, k: Seq<char>) -> bool {
    exists|i: int| 0 <= i < s.len() && #[trigger] s[i].context_id == k
}

/// The position of a slot with the id `k`.
pub open spec fn key_index<S>(s: Seq<SlotView<S>>, k: Seq<char>) -> int {
    choose|i: int| 0 <= i < s.len() && #[trigger] s[i].context_id == k
}

/// No two slots share an id.
pub open spec fn keys_unique<S>(s: Seq<SlotView<S>>) -> bool {
    forall|i: int, j: int|
        0 <= i < s.len() && 0 <= j < s.len() && i != j ==> #[trigger] s[i].context_id
            != #[trigger] s[j].context_id
}

/// Records `x` under its id, replacing a slot already recorded under it.
pub open spec fn upsert<S>(s: Seq<SlotView<S>>, x: SlotView<S>) -> Seq<SlotView<S>> {
    if has_key(s, x.context_id) {
        s.update(key_index(s, x.context_id), x)
    } else {
        s.push(x)
    }
}

/// Forgets the slot recorded under `k`, if there is one.
pub open spec fn remove_key<S>(s: Seq<SlotView<S>>, k: Seq<char>) -> Seq<SlotView<S>> {
    if has_key(s, k) {
        s.remove(key_index(s, k))
    } else {
        s
    }
}

proof fn lemma_key_index_unique<S>(s: Seq<SlotView<S>>, i: int)
    requires
        keys_unique(s),
        0 <= i < s.len(),
    ensures
        has_key(s, s[i].context_id),
        key_index(s, s[i].context_id) == i,
{
    assert(s[i].context_id == s[i].context_id);
}

/// In a pool whose ids are distinct, so are those of the handed-out slots.
proof fn lemma_active_unique<S>(v: PoolView<S>)
    requires
        ids_distinct(v),
    ensures
        keys_unique(v.active),
{
    let all = v.available + v.active;
    assert forall|i: int, j: int|
        0 <= i < v.active.len() && 0 <= j < v.active.len() && i != j implies #[trigger] v.active[i].context_id
        != #[trigger] v.active[j].context_id by {
        assert(all[v.available.len() + i] == v.active[i]);
        assert(all[v.available.len() + j] == v.active[j]);
    }
}

/// Model of the pool: the idle slots in queue order, and the handed-out slots.
pub struct PoolView<S> {
    pub available: Seq<SlotView<S>>,
    pub active: Seq<SlotView<S>>,
}

/// The slots of a pool.
pub struct PoolSlots<S> {
    available: VecDeque<BrowserContext<S>>,
    active: Vec<BrowserContext<S>>,
}

impl<S> View for PoolSlots<S> {
    type V = PoolView<S>;

    closed spec fn view(&self) -> PoolView<S> {
        PoolView { available: slot_views(self.available@), active: slot_views(self.active@) }
    }
}

/// The slot that acquiring hands out: the head of the queue, pointed at its
/// process's current port when that process is known, with no browser context
/// and no session.
pub open spec fn acquired_slot<S>(p: PoolView<S>, ports: Seq<u16>) -> Option<SlotView<S>> {
    if p.available.len() == 0 {
        None
    } else {
        let c = p.available[0];
        Some(
            SlotView {
                port: if c.process_index < ports.len() {
                    ports[c.process_index as int]
                } else {
                    c.port
                },
                ..c.idle()
            },
        )
    }
}

/// The pool after acquiring.
pub open spec fn after_acquire<S>(p: PoolView<S>, ports: Seq<u16>) -> PoolView<S> {
    match acquired_slot(p, ports) {
        Some(c) => PoolView { available: p.available.drop_first(), active: upsert(p.active, c) },
        None => p,
    }
}

/// The pool after `c` is given back: it no longer counts as handed out, and it
/// joins the back of the queue with no browser context and no session.
pub open spec fn after_release<S>(p: PoolView<S>, c: SlotView<S>) -> PoolView<S> {
    PoolView {
        available: p.available.push(c.idle()),
        active: remove_key(p.active, c.context_id),
    }
}

/// Calls `uuid::Uuid::new_v4` and renders the identifier with `to_string`. The
/// value is random; its text is the hyphenated lower-case form, 36 characters
/// long. Nothing is said of how two results relate. The call panics only when the
/// operating system's random source fails, which no argument can rule out.
#[verifier::external_body]
pub(crate) fn new_uuid() -> (r: String)
    ensures
        r@.len() == 36,
{
    uuid::Uuid::new_v4().to_string()
}

/// Slot `t` of process `p` in a freshly built pool of `tabs` slots per process.
pub open spec fn slot_at<S>(v: PoolView<S>, tabs: nat, p: int, t: int) -> SlotView<S> {
    v.available[p * tabs + t]
}

/// The error for a pool shape, or `None` for an acceptable one.
pub open spec fn pool_shape_problem(pool_size: nat, tabs_per_process: nat) -> Option<PoolFault> {
    if pool_size == 0 || tabs_per_process == 0 {
        Some(
            PoolFault::InvalidConfig(
                "browser_pool_size and tabs_per_process must both be greater than zero"@,
            ),
        )
    } else {
        None
    }
}

/// Rejects a pool with no processes or no slots per process.
pub fn check_pool_shape(pool_size: usize, tabs_per_process: usize) -> (r: Result<(), PoolError>)
    ensures
        match r {
            Ok(_) => pool_shape_problem(pool_size as nat, tabs_per_process as nat) is None,
            Err(e) => pool_shape_problem(pool_size as nat, tabs_per_process as nat) == Some(e@),
        },
{
    if pool_size == 0 || tabs_per_process == 0 {
        return Err(
            PoolError::InvalidConfig(
                String::from_str(
                    "browser_pool_size and tabs_per_process must both be greater than zero",
                ),
            ),
        );
    }
    Ok(())
}

proof fn lemma_slot_index(p: int, t: int, q: int, tabs: int)
    requires
        0 <= t < tabs,
        0 <= q,
        p < q,
        0 <= p,
    ensures
        0 <= p * tabs + t < q * tabs,
        p * tabs + t >= 0,
{
    assert(p * tabs + t < q * tabs) by (nonlinear_arith)
        requires
            0 <= t < tabs,
            p < q,
            0 <= p,
    ;
    assert(p * tabs >= 0) by (nonlinear_arith)
        requires
            0 <= p,
            0 <= tabs,
    ;
}

/// No two slots of the pool, idle or handed out, share an id.
pub open spec fn ids_distinct<S>(v: PoolView<S>) -> bool {
    keys_unique(v.available + v.active)
}

/// Slots in the pool, idle or handed out.
pub open spec fn total_slots<S>(v: PoolView<S>) -> nat {
    v.available.len() + v.active.len()
}

/// Acquiring a slot from a pool whose ids are distinct moves the head of the
/// queue to the handed-out slots: one fewer idle, one more handed out, the same
/// total, and the ids stay distinct.
pub proof fn lemma_acquire_conserves_slots<S>(v: PoolView<S>, ports: Seq<u16>)
    requires
        ids_distinct(v),
        v.available.len() > 0,
    ensures
        after_acquire(v, ports).available.len() == v.available.len() - 1,
        after_acquire(v, ports).active.len() == v.active.len() + 1,
        total_slots(after_acquire(v, ports)) == total_slots(v),
        ids_distinct(after_acquire(v, ports)),
        after_acquire(v, ports).active == v.active.push(acquired_slot(v, ports).unwrap()),
{
    let a = v.available;
    let act = v.active;
    let c = acquired_slot(v, ports).unwrap();
    let old_all = a + act;
    assert(!has_key(act, c.context_id)) by {
        if has_key(act, c.context_id) {
            let k = key_index(act, c.context_id);
            assert(old_all[a.len() + k].context_id == old_all[0].context_id);
        }
    }
    let w = after_acquire(v, ports);
    assert(w.active == act.push(c));
    let new_all = w.available + w.active;
    let n = old_all.len();
    assert(new_all.len() == n);
    assert forall|i: int| 0 <= i < n implies #[trigger] new_all[i].context_id == old_all[if i
        < n - 1 {
        i + 1
    } else {
        0
    }].context_id by {
        if i < a.len() - 1 {
            assert(new_all[i] == a[i + 1]);
        } else if i < n - 1 {
            assert(new_all[i] == act[i - (a.len() - 1)]);
        }
    }
    assert forall|i: int, j: int|
        0 <= i < n && 0 <= j < n && i != j implies #[trigger] new_all[i].context_id
        != #[trigger] new_all[j].context_id by {
        let fi = if i < n - 1 { i + 1 } else { 0 };
        let fj = if j < n - 1 { j + 1 } else { 0 };
        assert(new_all[i].context_id == old_all[fi].context_id);
        assert(new_all[j].context_id == old_all[fj].context_id);
    }
}

/// Giving back a handed-out slot of a pool whose ids are distinct moves it to
/// the back of the queue: one more idle, one fewer handed out, the same total,
/// and the ids stay distinct.
pub proof fn lemma_release_conserves_slots<S>(v: PoolView<S>, c: SlotView<S>)
    requires
        ids_distinct(v),
        has_key(v.active, c.context_id),
    ensures
        after_release(v, c).available.len() == v.available.len() + 1,
        after_release(v, c).active.len() == v.active.len() - 1,
        total_slots(after_release(v, c)) == total_slots(v),
        ids_distinct(after_release(v, c)),
{
    let a = v.available;
    let act = v.active;
    let k = key_index(act, c.context_id);
    let old_all = a + act;
    let w = after_release(v, c);
    assert(w.active == act.remove(k));
    let new_all = w.available + w.active;
    let n = old_all.len();
    assert(new_all.len() == n);
    let al = a.len() as int;
    assert forall|i: int| 0 <= i < n implies #[trigger] new_all[i].context_id == old_all[if i
        < al {
        i
    } else if i == al {
        al + k
    } else if i - al - 1 < k {
        i - 1
    } else {
        i
    }].context_id by {
        if i < al {
            assert(new_all[i] == a[i]);
        } else if i == al {
            assert(new_all[i] == c.idle());
        } else {
            assert(new_all[i] == act.remove(k)[i - al - 1]);
        }
    }
    assert forall|i: int, j: int|
        0 <= i < n && 0 <= j < n && i != j implies #[trigger] new_all[i].context_id
        != #[trigger] new_all[j].context_id by {
        let fi = if i < al {
            i
        } else if i == al {
            al + k
        } else if i - al - 1 < k {
            i - 1
        } else {
            i
        };
        let fj = if j < al {
            j
        } else if j == al {
            al + k
        } else if j - al - 1 < k {
            j - 1
        } else {
            j
        };
        assert(new_all[i].context_id == old_all[fi].context_id);
        assert(new_all[j].context_id == old_all[fj].context_id);
    }
}

/// Acquiring a slot and giving the same slot back leaves the handed-out slots
/// as they were and rotates the queue: its head, cleaned, goes to the back.
pub proof fn lemma_acquire_then_release<S>(v: PoolView<S>, ports: Seq<u16>)
    requires
        ids_distinct(v),
        v.available.len() > 0,
    ensures
        ({
            let c = acquired_slot(v, ports).unwrap();
            let w = after_release(after_acquire(v, ports), c);
            &&& w.active == v.active
            &&& w.available == v.available.drop_first().push(c.idle())
            &&& total_slots(w) == total_slots(v)
            &&& ids_distinct(w)
        }),
{
    let c = acquired_slot(v, ports).unwrap();
    lemma_acquire_conserves_slots(v, ports);
    let u = after_acquire(v, ports);
    assert(u.active[v.active.len() as int] == c);
    assert(has_key(u.active, c.context_id));
    lemma_release_conserves_slots(u, c);
    assert(keys_unique(u.active)) by {
        let all = u.available + u.active;
        assert forall|i: int, j: int|
            0 <= i < u.active.len() && 0 <= j < u.active.len() && i != j implies #[trigger] u.active[i].context_id
            != #[trigger] u.active[j].context_id by {
            assert(all[u.available.len() + i] == u.active[i]);
            assert(all[u.available.len() + j] == u.active[j]);
        }
    }
    lemma_key_index_unique(u.active, v.active.len() as int);
    assert(after_release(u, c).active =~= v.active);
}

/// The pool after `k` acquisitions in a row.
pub open spec fn acquire_times<S>(v: PoolView<S>, ports: Seq<u16>, k: nat) -> PoolView<S>
    decreases k,
{
    if k == 0 {
        v
    } else {
        after_acquire(acquire_times(v, ports, (k - 1) as nat), ports)
    }
}

/// A pool with distinct ids hands out each idle slot once: after `k` acquisitions
/// (no more than the idle slots) `k` more slots are out, `k` fewer are idle, the
/// total is unchanged, and once every idle slot is out the next acquisition fails.
pub proof fn lemma_acquisitions_bounded_by_capacity<S>(v: PoolView<S>, ports: Seq<u16>, k: nat)
    requires
        ids_distinct(v),
        k <= v.available.len(),
    ensures
        acquire_times(v, ports, k).available.len() == v.available.len() - k,
        acquire_times(v, ports, k).active.len() == v.active.len() + k,
        total_slots(acquire_times(v, ports, k)) == total_slots(v),
        ids_distinct(acquire_times(v, ports, k)),
        k == v.available.len() ==> acquired_slot(acquire_times(v, ports, k), ports) is None,
    decreases k,
{
    if k > 0 {
        lemma_acquisitions_bounded_by_capacity(v, ports, (k - 1) as nat);
        lemma_acquire_conserves_slots(acquire_times(v, ports, (k - 1) as nat), ports);
    }
}

/// No two of the strings are equal.
pub open spec fn strings_distinct(s: Seq<String>) -> bool {
    forall|i: int, j: int| 0 <= i < s.len() && 0 <= j < s.len() && i != j ==> #[trigger] s[i]@ != #[trigger] s[j]@
}

/// Whether no two of the strings are equal.
fn all_distinct(v: &Vec<String>) -> (r: bool)
    ensures
        r == strings_distinct(v@),
{
    let mut i: usize = 0;
    while i < v.len()
        invariant
            i <= v@.len(),
            forall|a: int, b: int| 0 <= a < i && 0 <= b < v@.len() && a != b ==> #[trigger] v@[a]@ != #[trigger] v@[b]@,
        decreases v@.len() - i,
    {
        let mut j: usize = 0;
        while j < v.len()
            invariant
                i < v@.len(),
                j <= v@.len(),
                forall|a: int, b: int| 0 <= a < i && 0 <= b < v@.len() && a != b ==> #[trigger] v@[a]@ != #[trigger] v@[b]@,
                forall|b: int| 0 <= b < j && b != i ==> v@[i as int]@ != #[trigger] v@[b]@,
            decreases v@.len() - j,
        {
            if j != i && str_eq(v[i].as_str(), v[j].as_str()) {
                proof {
                    assert(!strings_distinct(v@));
                }
                return false;
            }
            j = j + 1;
        }
        i = i + 1;
    }
    true
}

/// How many times a slot identifier is drawn before giving up on a fresh one.
pub const ID_DRAWS: usize = 8;

/// A fresh random identifier that none of `used` equals, drawn again while it
/// is taken, at most [`ID_DRAWS`] times; `None` when every draw was taken.
fn fresh_id(used: &Vec<String>) -> (r: Option<String>)
    ensures
        r matches Some(id) ==> {
            &&& id@.len() == 36
            &&& forall|k: int| 0 <= k < used@.len() ==> #[trigger] used@[k]@ != id@
        },
{
    let mut draws: usize = 0;
    while draws < ID_DRAWS
        invariant
            draws <= ID_DRAWS,
        decreases ID_DRAWS - draws,
    {
        let id = new_uuid();
        let mut k: usize = 0;
        let mut taken = false;
        while k < used.len()
            invariant
                k <= used@.len(),
                !taken ==> forall|m: int| 0 <= m < k ==> #[trigger] used@[m]@ != id@,
            decreases used@.len() - k,
        {
            if str_eq(used[k].as_str(), id.as_str()) {
                taken = true;
            }
            k = k + 1;
        }
        if !taken {
            return Some(id);
        }
        draws = draws + 1;
    }
    None
}

/// Capacity figures for a pool.
pub struct CapacityStats {
    pub total: usize,
    pub available: usize,
    pub active: usize,
    pub processes: usize,
}

impl<S> PoolSlots<S> {
    /// The invariant: no two slots of the pool, idle or handed out, share an id.
    pub closed spec fn wf(&self) -> bool {
        ids_distinct(self@)
    }

    /// A pool of `pool_size` processes with `tabs_per_process` idle slots each,
    /// queued process by process, slot `t` of process `p` taking the identifier
    /// `ids[p * tabs_per_process + t]`. Process `p` listens on `port_base + p`.
    /// `None` when there is not exactly one identifier per slot, or two are equal.
    pub fn from_ids(pool_size: usize, tabs_per_process: usize, port_base: u16, ids: Vec<String>) -> (res: Option<
        PoolSlots<S>,
    >)
        requires
            pool_size * tabs_per_process <= usize::MAX,
            pool_size == 0 || port_base + pool_size - 1 <= u16::MAX,
        ensures
            res is Some <==> (ids@.len() == pool_size * tabs_per_process && strings_distinct(ids@)),
            res matches Some(r) ==> {
            &&& r.wf()
            &&& r@.active.len() == 0
            &&& r@.available.len() == pool_size * tabs_per_process
            &&& forall|p: int, t: int|
                0 <= p < pool_size && 0 <= t < tabs_per_process ==> {
                    let c = #[trigger] slot_at(r@, tabs_per_process as nat, p, t);
                    &&& c.process_index == p
                    &&& c.port == port_base + p
                    &&& c.browser_context_id is None
                    &&& c.cdp_session is None
                    &&& c.context_id == ids@[p * tabs_per_process + t]@
                }
            },
    {
        if ids.len() != pool_size * tabs_per_process || !all_distinct(&ids) {
            return None;
        }
        let mut available: VecDeque<BrowserContext<S>> = VecDeque::new();
        let mut p: usize = 0;
        while p < pool_size
            invariant
                p <= pool_size,
                pool_size * tabs_per_process <= usize::MAX,
                pool_size == 0 || port_base + pool_size - 1 <= u16::MAX,
                available@.len() == p * tabs_per_process,
                ids@.len() == pool_size * tabs_per_process,
                strings_distinct(ids@),
                forall|k: int| 0 <= k < available@.len() ==> #[trigger] available@[k]@.context_id == ids@[k]@,
                forall|q: int, t: int|
                    0 <= q < p && 0 <= t < tabs_per_process ==> {
                        let c = #[trigger] slot_at(
                            PoolView { available: slot_views(available@), active: Seq::empty() },
                            tabs_per_process as nat,
                            q,
                            t,
                        );
                        &&& c.process_index == q
                        &&& c.port == port_base + q
                        &&& c.browser_context_id is None
                        &&& c.cdp_session is None
                        &&& c.context_id == ids@[q * tabs_per_process + t]@
                    },
            decreases pool_size - p,
        {
            let port: u16 = port_base + p as u16;
            let mut t: usize = 0;
            while t < tabs_per_process
                invariant
                    p < pool_size,
                    pool_size * tabs_per_process <= usize::MAX,
                    t <= tabs_per_process,
                    port == port_base + p,
                    available@.len() == p * tabs_per_process + t,
                    ids@.len() == pool_size * tabs_per_process,
                    strings_distinct(ids@),
                    forall|k: int| 0 <= k < available@.len() ==> #[trigger] available@[k]@.context_id == ids@[k]@,
                    forall|q: int, u: int|
                        0 <= q < p && 0 <= u < tabs_per_process ==> {
                            let c = #[trigger] slot_at(
                                PoolView { available: slot_views(available@), active: Seq::empty() },
                                tabs_per_process as nat,
                                q,
                                u,
                            );
                            &&& c.process_index == q
                            &&& c.port == port_base + q
                            &&& c.browser_context_id is None
                            &&& c.cdp_session is None
                            &&& c.context_id == ids@[q * tabs_per_process + u]@
                        },
                    forall|u: int|
                        0 <= u < t ==> {
                            let c = #[trigger] slot_at(
                                PoolView { available: slot_views(available@), active: Seq::empty() },
                                tabs_per_process as nat,
                                p as int,
                                u,
                            );
                            &&& c.process_index == p
                            &&& c.port == port_base + p
                            &&& c.browser_context_id is None
                            &&& c.cdp_session is None
                            &&& c.context_id == ids@[p * tabs_per_process + u]@
                        },
                decreases tabs_per_process - t,
            {
                proof {
                    lemma_slot_index(p as int, t as int, pool_size as int, tabs_per_process as int);
                }
                let id = ids[p * tabs_per_process + t].clone();
                let ghost before = available@;
                available.push_back(
                    BrowserContext {
                        context_id: id,
                        process_index: p,
                        port,
                        browser_context_id: None,
                        cdp_session: None,
                    },
                );
                proof {
                    assert forall|q: int, u: int|
                        0 <= q < p && 0 <= u < tabs_per_process implies #[trigger] slot_at(
                        PoolView { available: slot_views(available@), active: Seq::empty() },
                        tabs_per_process as nat,
                        q,
                        u,
                    ) == slot_at(
                        PoolView { available: slot_views(before), active: Seq::empty() },
                        tabs_per_process as nat,
                        q,
                        u,
                    ) by {
                        lemma_slot_index(q, u, p as int, tabs_per_process as int);
                    }
                    assert forall|u: int| 0 <= u < t implies #[trigger] slot_at(
                        PoolView { available: slot_views(available@), active: Seq::empty() },
                        tabs_per_process as nat,
                        p as int,
                        u,
                    ) == slot_at(
                        PoolView { available: slot_views(before), active: Seq::empty() },
                        tabs_per_process as nat,
                        p as int,
                        u,
                    ) by {}
                }
                t = t + 1;
            }
            proof {
                assert((p + 1) * tabs_per_process == p * tabs_per_process + tabs_per_process)
                    by (nonlinear_arith);
                assert((p + 1) * tabs_per_process <= pool_size * tabs_per_process)
                    by (nonlinear_arith)
                    requires
                        p < pool_size,
                ;
            }
            p = p + 1;
        }
        let r = PoolSlots { available, active: Vec::new() };
        assert(r@.active =~= Seq::<SlotView<S>>::empty());
        assert(r@.available + r@.active =~= r@.available);
        assert forall|i: int, j: int|
            0 <= i < r@.available.len() && 0 <= j < r@.available.len() && i != j implies #[trigger] r@.available[i].context_id
            != #[trigger] r@.available[j].context_id by {
            assert(available@[i]@.context_id == ids@[i]@);
            assert(available@[j]@.context_id == ids@[j]@);
        }
        Some(r)
    }

    /// A pool of `pool_size` processes with `tabs_per_process` idle slots each, as
    /// [`PoolSlots::from_ids`] builds it from one fresh random identifier per slot,
    /// each drawn again while it equals one drawn before. `None` only when the
    /// random source repeated itself on every draw for some slot, so never for a
    /// pool without slots.
    pub fn new(pool_size: usize, tabs_per_process: usize, port_base: u16) -> (res: Option<
        PoolSlots<S>,
    >)
        requires
            pool_size * tabs_per_process <= usize::MAX,
            pool_size == 0 || port_base + pool_size - 1 <= u16::MAX,
        ensures
            res is None ==> pool_size * tabs_per_process > 0,
            res matches Some(r) ==> {
            &&& r.wf()
            &&& r@.active.len() == 0
            &&& r@.available.len() == pool_size * tabs_per_process
            &&& forall|p: int, t: int|
                0 <= p < pool_size && 0 <= t < tabs_per_process ==> {
                    let c = #[trigger] slot_at(r@, tabs_per_process as nat, p, t);
                    &&& c.process_index == p
                    &&& c.port == port_base + p
                    &&& c.browser_context_id is None
                    &&& c.cdp_session is None
                    &&& c.context_id.len() == 36
                }
            },
    {
        let n = pool_size * tabs_per_process;
        let mut ids: Vec<String> = Vec::new();
        while ids.len() < n
            invariant
                n == pool_size * tabs_per_process,
                ids@.len() <= n,
                strings_distinct(ids@),
                forall|k: int| 0 <= k < ids@.len() ==> (#[trigger] ids@[k])@.len() == 36,
            decreases n - ids@.len(),
        {
            match fresh_id(&ids) {
                Some(id) => {
                    ids.push(id);
                },
                None => {
                    return None;
                },
            }
        }
        let ghost drawn = ids@;
        let res = PoolSlots::from_ids(pool_size, tabs_per_process, port_base, ids);
        proof {
            assert forall|p: int, t: int|
                res is Some && 0 <= p < pool_size && 0 <= t < tabs_per_process implies (
                #[trigger] slot_at(res->0@, tabs_per_process as nat, p, t)).context_id.len()
                == 36 by {
                lemma_slot_index(p, t, pool_size as int, tabs_per_process as int);
                assert(drawn[p * tabs_per_process + t]@.len() == 36);
            }
        }
        res
    }

    /// Position of the handed-out slot with the id `id`.
    fn find_active(&self, id: &str) -> (r: Option<usize>)
        requires
            keys_unique(self@.active),
        ensures
            match r {
                Some(i) => has_key(self@.active, id@) && key_index(self@.active, id@) == i,
                None => !has_key(self@.active, id@),
            },
    {
        let mut i: usize = 0;
        while i < self.active.len()
            invariant
                i <= self.active@.len(),
                keys_unique(self@.active),
                self@.active == slot_views(self.active@),
                forall|k: int| 0 <= k < i ==> self@.active[k].context_id != id@,
            decreases self.active@.len() - i,
        {
            if str_eq(self.active[i].context_id.as_str(), id) {
                proof {
                    lemma_key_index_unique(self@.active, i as int);
                }
                return Some(i);
            }
            i = i + 1;
        }
        None
    }

    /// Hands out the slot at the head of the queue, or fails with
    /// `CapacityExhausted` when every slot is out. `process_ports[i]` is the
    /// current DevTools port of process `i`.
    pub fn acquire_slot(&mut self, process_ports: &Vec<u16>) -> (r: Result<
        BrowserContext<S>,
        PoolError,
    >)
        requires
            old(self).wf(),
        ensures
            final(self).wf(),
            final(self)@ == after_acquire(old(self)@, process_ports@),
            match r {
                Ok(c) => acquired_slot(old(self)@, process_ports@) == Some(c@),
                Err(e) => acquired_slot(old(self)@, process_ports@) is None && e@
                    == PoolFault::CapacityExhausted,
            },
    {
        let ghost old_view = self@;
        proof {
            lemma_active_unique(old_view);
        }
        let popped = self.available.pop_front();
        let mut context = match popped {
            Some(c) => c,
            None => {
                return Err(PoolError::CapacityExhausted);
            },
        };
        proof {
            lemma_acquire_conserves_slots(old_view, process_ports@);
        }
        if context.process_index < process_ports.len() {
            context.port = process_ports[context.process_index];
        }
        context.browser_context_id = None;
        context.cdp_session = None;
        let record = context.idle_copy();
        assert(record@ == context@);
        assert(self@.active == old_view.active);
        match self.find_active(context.context_id.as_str()) {
            Some(i) => {
                self.active.set(i, record);
            },
            None => {
                self.active.push(record);
            },
        }
        proof {
            assert(self@.available =~= old_view.available.drop_first());
            assert(self@.active =~= upsert(old_view.active, context@));
        }
        Ok(context)
    }

    /// Takes a handed-out slot back: it stops counting as handed out and joins the
    /// back of the queue with no browser context and no session. A slot that is
    /// not handed out is refused with `ContextNotFound` and the pool stays as it was.
    pub fn release_slot(&mut self, context: BrowserContext<S>) -> (r: Result<(), PoolError>)
        requires
            old(self).wf(),
        ensures
            final(self).wf(),
            match r {
                Ok(_) => has_key(old(self)@.active, context@.context_id) && final(self)@
                    == after_release(old(self)@, context@),
                Err(e) => !has_key(old(self)@.active, context@.context_id) && final(self)@
                    == old(self)@ && e@ == PoolFault::ContextNotFound,
            },
    {
        let ghost old_view = self@;
        proof {
            lemma_active_unique(old_view);
        }
        let mut context = context;
        context.cdp_session = None;
        context.browser_context_id = None;
        match self.find_active(context.context_id.as_str()) {
            Some(i) => {
                let _ = self.active.remove(i);
            },
            None => {
                return Err(PoolError::ContextNotFound);
            },
        }
        self.available.push_back(context);
        proof {
            assert(self@.available =~= old_view.available.push(context@.idle()));
            assert(self@.active =~= remove_key(old_view.active, context@.context_id));
            lemma_release_conserves_slots(old_view, context@);
        }
        Ok(())
    }

    /// The numbers of idle and of handed-out slots.
    pub fn counts(&self) -> (r: (usize, usize))
        ensures
            r.0 == self@.available.len(),
            r.1 == self@.active.len(),
    {
        (self.available.len(), self.active.len())
    }

    /// Capacity figures: every slot is either idle or handed out.
    pub fn capacity_stats(&self, processes: usize) -> (r: CapacityStats)
        requires
            self@.available.len() + self@.active.len() <= usize::MAX,
        ensures
            r.available == self@.available.len(),
            r.active == self@.active.len(),
            r.total == self@.available.len() + self@.active.len(),
            r.processes == processes,
    {
        let available = self.available.len();
        let active = self.active.len();
        CapacityStats { total: available + active, available, active, processes }
    }
}

/// A page opened in a slot.
#[derive(Debug, Clone)]
pub struct Page {
    pub page_id: String,
    pub url: String,
    pub context_id: String,
}

/// Records a page just opened at `url` in the slot `context_id`, under a fresh
/// random page id.
pub fn opened_page(url: &str, context_id: &String) -> (r: Page)
    ensures
        r.url@ == url@,
        r.context_id@ == context_id@,
        r.page_id@.len() == 36,
{
    Page { page_id: new_uuid(), url: String::from_str(url), context_id: context_id.clone() }
}

/// Parameters of `Target.createBrowserContext`: the context survives detaching,
/// and a proxy, which can only be bound here, is passed as `proxyServer`.
pub open spec fn create_context_params_spec(proxy: Option<Seq<char>>) -> Json {
    let base = seq![("disposeOnDetach"@, Json::Bool(false))];
    match proxy {
        Some(p) => Json::Object(base.push(("proxyServer"@, Json::Str(p)))),
        None => Json::Object(base),
    }
}

pub fn create_context_params(proxy: Option<&str>) -> (r: JsonValue)
    ensures
        r@ == create_context_params_spec(crate::browser::cdp::str_opt_view(proxy)),
{
    let mut entries: Vec<(String, JsonValue)> = Vec::new();
    push_entry(&mut entries, "disposeOnDetach", JsonValue::Bool(false));
    assert(entries_model(entries@) =~= seq![("disposeOnDetach"@, Json::Bool(false))]);
    if let Some(p) = proxy {
        push_entry(&mut entries, "proxyServer", JsonValue::string(p));
    }
    JsonValue::object(entries)
}

/// Parameters of `Target.createTarget`: a blank page in the given browser context.
pub fn create_target_params(browser_context_id: &str) -> (r: JsonValue)
    ensures
        r@ == Json::Object(
            seq![
                ("url"@, Json::Str("about:blank"@)),
                ("browserContextId"@, Json::Str(browser_context_id@)),
            ],
        ),
{
    let mut entries: Vec<(String, JsonValue)> = Vec::new();
    push_entry(&mut entries, "url", JsonValue::string("about:blank"));
    push_entry(&mut entries, "browserContextId", JsonValue::string(browser_context_id));
    assert(entries_model(entries@) =~= seq![
        ("url"@, Json::Str("about:blank"@)),
        ("browserContextId"@, Json::Str(browser_context_id@)),
    ]);
    JsonValue::object(entries)
}

/// Parameters of `Target.attachToTarget`, with flattened sessions.
pub fn attach_params(target_id: &str) -> (r: JsonValue)
    ensures
        r@ == Json::Object(
            seq![("targetId"@, Json::Str(target_id@)), ("flatten"@, Json::Bool(true))],
        ),
{
    let mut entries: Vec<(String, JsonValue)> = Vec::new();
    push_entry(&mut entries, "targetId", JsonValue::string(target_id));
    push_entry(&mut entries, "flatten", JsonValue::Bool(true));
    assert(entries_model(entries@) =~= seq![
        ("targetId"@, Json::Str(target_id@)),
        ("flatten"@, Json::Bool(true)),
    ]);
    JsonValue::object(entries)
}

/// Parameters of `Target.disposeBrowserContext`.
pub fn dispose_params(browser_context_id: &str) -> (r: JsonValue)
    ensures
        r@ == Json::Object(seq![("browserContextId"@, Json::Str(browser_context_id@))]),
{
    let mut entries: Vec<(String, JsonValue)> = Vec::new();
    push_entry(&mut entries, "browserContextId", JsonValue::string(browser_context_id));
    assert(entries_model(entries@) =~= seq![("browserContextId"@, Json::Str(browser_context_id@))]);
    JsonValue::object(entries)
}

/// The string member `key` of a reply, or a protocol error saying `missing`.
pub open spec fn required_id_spec(result: Json, key: Seq<char>, missing: Seq<char>) -> Result<Seq<char>, PoolFault> {
    match get_str(Some(result), key) {
        Some(s) => Ok(s),
        None => Err(PoolFault::CdpProtocolError(missing)),
    }
}

pub fn required_id(result: &JsonValue, key: &str, missing: &str) -> (r: Result<String, PoolError>)
    ensures
        crate::browser::cdp::text_result_view(r) == required_id_spec(result@, key@, missing@),
{
    match result.get(key) {
        Some(v) => match v.as_str() {
            Some(s) => Ok(String::from_str(s)),
            None => Err(PoolError::CdpProtocolError(String::from_str(missing))),
        },
        None => Err(PoolError::CdpProtocolError(String::from_str(missing))),
    }
}

/// How far opening a page in a slot has come.
pub enum PageStage {
    /// Waiting for `Target.createBrowserContext`.
    CreatingContext,
    /// Waiting for `Target.createTarget`.
    CreatingTarget,
    /// Waiting for `Target.attachToTarget` of the given target.
    Attaching(String),
    /// The target is attached, or opening failed.
    Finished,
}

pub enum PageStageView {
    CreatingContext,
    CreatingTarget,
    Attaching(Seq<char>),
    Finished,
}

impl View for PageStage {
    type V = PageStageView;

    open spec fn view(&self) -> PageStageView {
        match self {
            PageStage::CreatingContext => PageStageView::CreatingContext,
            PageStage::CreatingTarget => PageStageView::CreatingTarget,
            PageStage::Attaching(t) => PageStageView::Attaching(t@),
            PageStage::Finished => PageStageView::Finished,
        }
    }
}

/// What to do next while opening a page.
pub enum PageStep {
    /// Send `method` with `params` to the browser endpoint.
    Send(&'static str, JsonValue),
    /// Record the browser context on the slot, so that giving the slot back
    /// disposes of it whatever happens next; then send `method` with `params`.
    RecordThenSend(String, &'static str, JsonValue),
    /// The target is attached under this session id; it is this target.
    Attached(String, String),
    /// Opening failed.
    Fail(PoolError),
}

pub enum PageStepView {
    Send(Seq<char>, Json),
    RecordThenSend(Seq<char>, Seq<char>, Json),
    Attached(Seq<char>, Seq<char>),
    Fail(PoolFault),
}

impl View for PageStep {
    type V = PageStepView;

    open spec fn view(&self) -> PageStepView {
        match self {
            PageStep::Send(m, p) => PageStepView::Send(m@, p@),
            PageStep::RecordThenSend(b, m, p) => PageStepView::RecordThenSend(b@, m@, p@),
            PageStep::Attached(s, t) => PageStepView::Attached(s@, t@),
            PageStep::Fail(e) => PageStepView::Fail(e@),
        }
    }
}

/// The first command of opening a page: a fresh browser context, bound to the
/// proxy when there is one.
pub open spec fn page_start_spec(proxy: Option<Seq<char>>) -> (PageStageView, PageStepView) {
    (
        PageStageView::CreatingContext,
        PageStepView::Send("Target.createBrowserContext"@, create_context_params_spec(proxy)),
    )
}

/// Starts opening a page.
pub fn page_start(proxy: Option<&str>) -> (r: (PageStage, PageStep))
    ensures
        (r.0@, r.1@) == page_start_spec(crate::browser::cdp::str_opt_view(proxy)),
{
    (PageStage::CreatingContext, PageStep::Send("Target.createBrowserContext", create_context_params(proxy)))
}

/// The next stage and step after the reply to the pending command: the new
/// browser context is recorded and a blank target opened in it, the target is
/// attached with flattened sessions, and the attachment's session id completes
/// the page. A reply without the expected id fails with a protocol error.
pub open spec fn page_step_spec(stage: PageStageView, reply: Json) -> (PageStageView, PageStepView) {
    match stage {
        PageStageView::CreatingContext => match get_str(Some(reply), "browserContextId"@) {
            Some(b) => (
                PageStageView::CreatingTarget,
                PageStepView::RecordThenSend(
                    b,
                    "Target.createTarget"@,
                    Json::Object(
                        seq![("url"@, Json::Str("about:blank"@)), ("browserContextId"@, Json::Str(b))],
                    ),
                ),
            ),
            None => (
                PageStageView::Finished,
                PageStepView::Fail(PoolFault::CdpProtocolError("createBrowserContext returned no id"@)),
            ),
        },
        PageStageView::CreatingTarget => match get_str(Some(reply), "targetId"@) {
            Some(t) => (
                PageStageView::Attaching(t),
                PageStepView::Send(
                    "Target.attachToTarget"@,
                    Json::Object(seq![("targetId"@, Json::Str(t)), ("flatten"@, Json::Bool(true))]),
                ),
            ),
            None => (
                PageStageView::Finished,
                PageStepView::Fail(PoolFault::CdpProtocolError("createTarget returned no id"@)),
            ),
        },
        PageStageView::Attaching(t) => match get_str(Some(reply), "sessionId"@) {
            Some(sid) => (PageStageView::Finished, PageStepView::Attached(sid, t)),
            None => (
                PageStageView::Finished,
                PageStepView::Fail(PoolFault::CdpProtocolError("attachToTarget returned no sessionId"@)),
            ),
        },
        PageStageView::Finished => (
            PageStageView::Finished,
            PageStepView::Fail(PoolFault::CdpProtocolError("page already opened"@)),
        ),
    }
}

/// Takes the reply to the pending command and says what to do next.
pub fn page_step(stage: PageStage, reply: &JsonValue) -> (r: (PageStage, PageStep))
    ensures
        (r.0@, r.1@) == page_step_spec(stage@, reply@),
{
    match stage {
        PageStage::CreatingContext => match required_id(reply, "browserContextId", "createBrowserContext returned no id") {
            Ok(b) => {
                let params = create_target_params(b.as_str());
                (PageStage::CreatingTarget, PageStep::RecordThenSend(b, "Target.createTarget", params))
            },
            Err(e) => (PageStage::Finished, PageStep::Fail(e)),
        },
        PageStage::CreatingTarget => match required_id(reply, "targetId", "createTarget returned no id") {
            Ok(t) => {
                let params = attach_params(t.as_str());
                (PageStage::Attaching(t), PageStep::Send("Target.attachToTarget", params))
            },
            Err(e) => (PageStage::Finished, PageStep::Fail(e)),
        },
        PageStage::Attaching(t) => match required_id(reply, "sessionId", "attachToTarget returned no sessionId") {
            Ok(sid) => (PageStage::Finished, PageStep::Attached(sid, t)),
            Err(e) => (PageStage::Finished, PageStep::Fail(e)),
        },
        PageStage::Finished => (
            PageStage::Finished,
            PageStep::Fail(PoolError::CdpProtocolError(String::from_str("page already opened"))),
        ),
    }
}

/// Opening a page in a slot records the browser context before any command that
/// could fail after it: whenever a reply has created a context, the step that
/// follows records it.
pub proof fn lemma_context_recorded_before_target(reply: Json)
    ensures
        get_str(Some(reply), "browserContextId"@) matches Some(b) ==> page_step_spec(
            PageStageView::CreatingContext,
            reply,
        ).1 matches PageStepView::RecordThenSend(r, _, _) && r == b,
{
}

/// The error for a slot whose process has no live DevTools connection.
pub fn no_connection_error(process_index: usize) -> (r: PoolError)
    ensures
        r@ == PoolFault::ProcessCrashed(
            "process "@ + decimal_spec(process_index as nat) + " has no live CDP connection"@,
        ),
{
    let mut text = String::from_str("process ");
    let number = decimal(process_index as u64);
    text.append(number.as_str());
    text.append(" has no live CDP connection");
    PoolError::ProcessCrashed(text)
}

/// The target is created in the browser context just made, and the target just
/// created is attached with a flattened session, so that commands and events
/// addressed by session id reach it.
pub proof fn lemma_page_protocol_links_ids(reply: Json)
    ensures
        get_str(Some(reply), "browserContextId"@) matches Some(b) ==> (page_step_spec(
            PageStageView::CreatingContext,
            reply,
        ).1 matches PageStepView::RecordThenSend(rec, m, p) && rec == b && m == "Target.createTarget"@
            && p.get("browserContextId"@) == Some(Json::Str(b)) && p.get("url"@) == Some(
            Json::Str("about:blank"@),
        )),
        get_str(Some(reply), "targetId"@) matches Some(t) ==> (page_step_spec(
            PageStageView::CreatingTarget,
            reply,
        ).1 matches PageStepView::Send(m, p) && m == "Target.attachToTarget"@ && p.get("targetId"@)
            == Some(Json::Str(t)) && p.get("flatten"@) == Some(Json::Bool(true))
            && page_step_spec(PageStageView::CreatingTarget, reply).0 == PageStageView::Attaching(t)),
{
    reveal_strlit("url");
    reveal_strlit("browserContextId");
    reveal_strlit("targetId");
    reveal_strlit("flatten");
    if let Some(b) = get_str(Some(reply), "browserContextId"@) {
        let e = seq![("url"@, Json::Str("about:blank"@)), ("browserContextId"@, Json::Str(b))];
        assert(page_step_spec(PageStageView::CreatingContext, reply).1 == PageStepView::RecordThenSend(
            b,
            "Target.createTarget"@,
            Json::Object(e),
        ));
        assert(e[0].0.len() == 3 && e[1].0.len() == 16);
        crate::json::lemma_lookup_found(e, "url"@, 0);
        crate::json::lemma_lookup_found(e, "browserContextId"@, 1);
    }
    if let Some(t) = get_str(Some(reply), "targetId"@) {
        let e = seq![("targetId"@, Json::Str(t)), ("flatten"@, Json::Bool(true))];
        assert(page_step_spec(PageStageView::CreatingTarget, reply).1 == PageStepView::Send(
            "Target.attachToTarget"@,
            Json::Object(e),
        ));
        assert(e[0].0.len() == 8 && e[1].0.len() == 7);
        crate::json::lemma_lookup_found(e, "targetId"@, 0);
        crate::json::lemma_lookup_found(e, "flatten"@, 1);
    }
}

} // verus!
