//! The set of configured services and their runtime state.

use vstd::prelude::*;
use super::config::ServiceConfig;
use super::state::{ServiceLifecycleState, ServiceRuntimeState};
use crate::text::str_equal;

verus! {

/// Runtime state of the service with `id`, kept beside the configurations.
pub struct RuntimeEntry {
    pub id: String,
    pub state: ServiceRuntimeState,
}

/// The first configuration in `s` whose id is `id`.
pub open spec fn find_config(s: Seq<ServiceConfig>, id: Seq<char>) -> Option<ServiceConfig>
    decreases s.len(),
{
    if s.len() == 0 {
        None
    } else if s[0].id@ == id {
        Some(s[0])
    } else {
        find_config(s.drop_first(), id)
    }
}

/// The position of the first configuration in `s` whose id is `id`.
pub open spec fn find_config_index(s: Seq<ServiceConfig>, id: Seq<char>) -> Option<int>
    decreases s.len(),
{
    if s.len() == 0 {
        None
    } else if s[0].id@ == id {
        Some(0)
    } else {
        match find_config_index(s.drop_first(), id) {
            Some(i) => Some(i + 1),
            None => None,
        }
    }
}

/// Whether some entry of `e` is keyed by `id`.
pub open spec fn has_key(e: Seq<(Seq<char>, ServiceRuntimeState)>, id: Seq<char>) -> bool {
    exists|i: int| 0 <= i < e.len() && #[trigger] e[i].0 == id
}

/// The runtime entries as a map from service id to state.
pub open spec fn entries_map(e: Seq<(Seq<char>, ServiceRuntimeState)>) -> Map<Seq<char>, ServiceRuntimeState> {
    Map::new(
        |k: Seq<char>| has_key(e, k),
        |k: Seq<char>| e[choose|i: int| 0 <= i < e.len() && #[trigger] e[i].0 == k].1,
    )
}

/// No two entries share an id.
pub open spec fn keys_distinct(e: Seq<(Seq<char>, ServiceRuntimeState)>) -> bool {
    forall|i: int, j: int| 0 <= i < e.len() && 0 <= j < e.len() && i != j ==> #[trigger] e[i].0 != #[trigger] e[j].0
}

pub open spec fn sum_direct(e: Seq<(Seq<char>, ServiceRuntimeState)>) -> int
    decreases e.len(),
{
    if e.len() == 0 {
        0
    } else {
        sum_direct(e.drop_last()) + e.last().1.direct_count
    }
}

pub open spec fn sum_indirect(e: Seq<(Seq<char>, ServiceRuntimeState)>) -> int
    decreases e.len(),
{
    if e.len() == 0 {
        0
    } else {
        sum_indirect(e.drop_last()) + e.last().1.indirect_count
    }
}

/// `x` placed into the sorted sequence `s` after every element whose
/// `sort_order` is not greater than its own.
pub open spec fn insert_by_order(s: Seq<ServiceConfig>, x: ServiceConfig) -> Seq<ServiceConfig>
    decreases s.len(),
{
    if s.len() == 0 {
        seq![x]
    } else if s.last().sort_order <= x.sort_order {
        s.push(x)
    } else {
        insert_by_order(s.drop_last(), x).push(s.last())
    }
}

/// The configurations stably sorted by `sort_order`: equal keys keep the
/// order in which they were configured.
pub open spec fn sort_by_order(s: Seq<ServiceConfig>) -> Seq<ServiceConfig>
    decreases s.len(),
{
    if s.len() == 0 {
        Seq::empty()
    } else {
        insert_by_order(sort_by_order(s.drop_last()), s.last())
    }
}


proof fn lemma_map_lookup(e: Seq<(Seq<char>, ServiceRuntimeState)>, i: int)
    requires
        keys_distinct(e),
        0 <= i < e.len(),
    ensures
        entries_map(e).contains_key(e[i].0),
        entries_map(e)[e[i].0] == e[i].1,
{
    assert(has_key(e, e[i].0));
    let j = choose|j: int| 0 <= j < e.len() && #[trigger] e[j].0 == e[i].0;
    assert(j == i);
}

proof fn lemma_map_push(e: Seq<(Seq<char>, ServiceRuntimeState)>, k: Seq<char>, v: ServiceRuntimeState)
    requires
        keys_distinct(e),
        !has_key(e, k),
    ensures
        keys_distinct(e.push((k, v))),
        entries_map(e.push((k, v))) == entries_map(e).insert(k, v),
        sum_direct(e.push((k, v))) == sum_direct(e) + v.direct_count,
        sum_indirect(e.push((k, v))) == sum_indirect(e) + v.indirect_count,
{
    let f = e.push((k, v));
    assert(f.drop_last() =~= e);
    assert forall|x: Seq<char>| #[trigger] entries_map(f).contains_key(x) == entries_map(e).insert(k, v).contains_key(x) by {
        if has_key(e, x) {
            let i = choose|i: int| 0 <= i < e.len() && #[trigger] e[i].0 == x;
            assert(f[i].0 == x);
        }
        if x == k {
            assert(f[e.len() as int].0 == x);
        }
    }
    assert forall|x: Seq<char>| entries_map(f).contains_key(x) implies #[trigger] entries_map(f)[x] == entries_map(e).insert(k, v)[x] by {
        if x == k {
            lemma_map_lookup(f, e.len() as int);
        } else {
            let i = choose|i: int| 0 <= i < f.len() && #[trigger] f[i].0 == x;
            lemma_map_lookup(f, i);
            lemma_map_lookup(e, i);
        }
    }
    assert(entries_map(f) =~= entries_map(e).insert(k, v));
}

proof fn lemma_sum_update(e: Seq<(Seq<char>, ServiceRuntimeState)>, i: int, v: ServiceRuntimeState)
    requires
        0 <= i < e.len(),
    ensures
        sum_direct(e.update(i, (e[i].0, v))) == sum_direct(e) - e[i].1.direct_count + v.direct_count,
        sum_indirect(e.update(i, (e[i].0, v))) == sum_indirect(e) - e[i].1.indirect_count + v.indirect_count,
    decreases e.len(),
{
    let f = e.update(i, (e[i].0, v));
    if i == e.len() - 1 {
        assert(f.drop_last() =~= e.drop_last());
    } else {
        lemma_sum_update(e.drop_last(), i, v);
        assert(f.drop_last() =~= e.drop_last().update(i, (e[i].0, v)));
    }
}

proof fn lemma_map_update(e: Seq<(Seq<char>, ServiceRuntimeState)>, i: int, v: ServiceRuntimeState)
    requires
        keys_distinct(e),
        0 <= i < e.len(),
    ensures
        keys_distinct(e.update(i, (e[i].0, v))),
        entries_map(e.update(i, (e[i].0, v))) == entries_map(e).insert(e[i].0, v),
{
    let f = e.update(i, (e[i].0, v));
    assert forall|j: int| 0 <= j < f.len() implies #[trigger] f[j].0 == e[j].0 by {}
    assert forall|x: Seq<char>| #[trigger] entries_map(f).contains_key(x) == entries_map(e).insert(e[i].0, v).contains_key(x) by {
        if has_key(e, x) {
            let j = choose|j: int| 0 <= j < e.len() && #[trigger] e[j].0 == x;
            assert(f[j].0 == x);
        }
        if has_key(f, x) {
            let j = choose|j: int| 0 <= j < f.len() && #[trigger] f[j].0 == x;
            assert(e[j].0 == x);
        }
    }
    assert forall|x: Seq<char>| entries_map(f).contains_key(x) implies #[trigger] entries_map(f)[x] == entries_map(e).insert(e[i].0, v)[x] by {
        let j = choose|j: int| 0 <= j < f.len() && #[trigger] f[j].0 == x;
        lemma_map_lookup(f, j);
        lemma_map_lookup(e, j);
    }
    assert(entries_map(f) =~= entries_map(e).insert(e[i].0, v));
}

proof fn lemma_map_remove(e: Seq<(Seq<char>, ServiceRuntimeState)>, i: int)
    requires
        keys_distinct(e),
        0 <= i < e.len(),
    ensures
        keys_distinct(e.remove(i)),
        entries_map(e.remove(i)) == entries_map(e).remove(e[i].0),
        sum_direct(e.remove(i)) == sum_direct(e) - e[i].1.direct_count,
        sum_indirect(e.remove(i)) == sum_indirect(e) - e[i].1.indirect_count,
    decreases e.len(),
{
    let f = e.remove(i);
    let k = e[i].0;
    assert forall|j: int| 0 <= j < f.len() implies #[trigger] f[j] == (if j < i { e[j] } else { e[j + 1] }) by {}
    assert forall|x: Seq<char>| #[trigger] entries_map(f).contains_key(x) == entries_map(e).remove(k).contains_key(x) by {
        if has_key(e, x) && x != k {
            let j = choose|j: int| 0 <= j < e.len() && #[trigger] e[j].0 == x;
            if j < i {
                assert(f[j].0 == x);
            } else {
                assert(f[j - 1].0 == x);
            }
        }
        if has_key(f, x) {
            let j = choose|j: int| 0 <= j < f.len() && #[trigger] f[j].0 == x;
            if j < i {
                assert(e[j].0 == x);
            } else {
                assert(e[j + 1].0 == x);
            }
        }
    }
    assert forall|x: Seq<char>| entries_map(f).contains_key(x) implies #[trigger] entries_map(f)[x] == entries_map(e).remove(k)[x] by {
        let j = choose|j: int| 0 <= j < f.len() && #[trigger] f[j].0 == x;
        lemma_map_lookup(f, j);
        if j < i {
            lemma_map_lookup(e, j);
        } else {
            lemma_map_lookup(e, j + 1);
        }
    }
    assert(entries_map(f) =~= entries_map(e).remove(k));
    if i == e.len() - 1 {
        assert(f =~= e.drop_last());
    } else {
        lemma_map_remove(e.drop_last(), i);
        assert(f.drop_last() =~= e.drop_last().remove(i));
    }
}

proof fn lemma_find_config(s: Seq<ServiceConfig>, id: Seq<char>, i: int)
    requires
        0 <= i <= s.len(),
        forall|j: int| 0 <= j < i ==> #[trigger] s[j].id@ != id,
        i < s.len() ==> s[i].id@ == id,
    ensures
        find_config(s, id) == (if i < s.len() { Some(s[i]) } else { None::<ServiceConfig> }),
        find_config_index(s, id) == (if i < s.len() { Some(i) } else { None::<int> }),
    decreases s.len(),
{
    if s.len() > 0 && i > 0 {
        assert forall|j: int| 0 <= j < i - 1 implies #[trigger] s.drop_first()[j].id@ != id by {
            assert(s[j + 1].id@ != id);
        }
        lemma_find_config(s.drop_first(), id, i - 1);
    }
}

pub proof fn lemma_find_config_index_valid(s: Seq<ServiceConfig>, id: Seq<char>)
    ensures
        find_config_index(s, id) matches Some(i) ==> 0 <= i < s.len() && s[i].id@ == id
            && find_config(s, id) == Some(s[i]),
        find_config_index(s, id) is None <==> find_config(s, id) is None,
    decreases s.len(),
{
    if s.len() > 0 && s[0].id@ != id {
        lemma_find_config_index_valid(s.drop_first(), id);
    }
}

proof fn lemma_sum_take(e: Seq<(Seq<char>, ServiceRuntimeState)>, i: int)
    requires
        0 <= i < e.len(),
    ensures
        sum_direct(e.take(i + 1)) == sum_direct(e.take(i)) + e[i].1.direct_count,
        sum_indirect(e.take(i + 1)) == sum_indirect(e.take(i)) + e[i].1.indirect_count,
{
    assert(e.take(i + 1).drop_last() =~= e.take(i));
}

proof fn lemma_sum_prefix_le(e: Seq<(Seq<char>, ServiceRuntimeState)>, i: int)
    requires
        0 <= i <= e.len(),
    ensures
        0 <= sum_direct(e.take(i)) <= sum_direct(e),
        0 <= sum_indirect(e.take(i)) <= sum_indirect(e),
    decreases e.len() - i,
{
    if i == e.len() {
        assert(e.take(i) =~= e);
        lemma_sum_nonneg(e);
    } else {
        lemma_sum_take(e, i);
        lemma_sum_prefix_le(e, i + 1);
        lemma_sum_nonneg(e.take(i));
    }
}

proof fn lemma_sum_nonneg(e: Seq<(Seq<char>, ServiceRuntimeState)>)
    ensures
        sum_direct(e) >= 0,
        sum_indirect(e) >= 0,
    decreases e.len(),
{
    if e.len() > 0 {
        lemma_sum_nonneg(e.drop_last());
    }
}

proof fn lemma_insert_by_order(s: Seq<ServiceConfig>, x: ServiceConfig, j: int)
    requires
        0 <= j <= s.len(),
        forall|k: int| j <= k < s.len() ==> #[trigger] s[k].sort_order > x.sort_order,
        j > 0 ==> s[j - 1].sort_order <= x.sort_order,
    ensures
        insert_by_order(s, x) == s.insert(j, x),
    decreases s.len(),
{
    if s.len() == 0 {
        assert(s.insert(j, x) =~= seq![x]);
    } else if s.last().sort_order <= x.sort_order {
        assert(s.insert(j, x) =~= s.push(x));
    } else {
        lemma_insert_by_order(s.drop_last(), x, j);
        assert(s.insert(j, x) =~= s.drop_last().insert(j, x).push(s.last()));
    }
}

/// The configurations whose id is not `id`, in order.
fn configs_without(services: &Vec<ServiceConfig>, id: &str) -> (kept: Vec<ServiceConfig>)
    ensures
        kept@ == services@.filter(|c: ServiceConfig| c.id@ != id@),
{
    let ghost pred = |c: ServiceConfig| c.id@ != id@;
    let mut kept: Vec<ServiceConfig> = Vec::new();
    let mut i: usize = 0;
    while i < services.len()
        invariant
            i <= services.len(),
            kept@ == services@.take(i as int).filter(pred),
            pred == (|c: ServiceConfig| c.id@ != id@),
        decreases services.len() - i,
    {
        let ghost prefix = services@.take(i as int);
        assert(services@.take(i + 1).drop_last() =~= prefix);
        assert(services@.take(i + 1).last() == services@[i as int]);
        reveal_with_fuel(Seq::<_>::filter, 1);
        let keep = !str_equal(services[i].id.as_str(), id);
        assert(services@.take(i + 1).filter(pred) == (if pred(services@[i as int]) {
            prefix.filter(pred).push(services@[i as int])
        } else {
            prefix.filter(pred)
        }));
        if keep {
            kept.push(services[i].clone());
        }
        i = i + 1;
    }
    assert(services@.take(i as int) =~= services@);
    kept
}

/// The position of the first configuration with `id`.
fn config_index(services: &Vec<ServiceConfig>, id: &str) -> (r: Option<usize>)
    ensures
        match r {
            Some(i) => find_config_index(services@, id@) == Some(i as int) && i < services@.len(),
            None => find_config_index(services@, id@) is None,
        },
        match r {
            Some(i) => find_config(services@, id@) == Some(services@[i as int]),
            None => find_config(services@, id@) is None,
        },
{
    let mut i: usize = 0;
    while i < services.len()
        invariant
            i <= services.len(),
            forall|j: int| 0 <= j < i ==> #[trigger] services@[j].id@ != id@,
        decreases services.len() - i,
    {
        if str_equal(services[i].id.as_str(), id) {
            proof {
                lemma_find_config(services@, id@, i as int);
            }
            return Some(i);
        }
        i = i + 1;
    }
    proof {
        lemma_find_config(services@, id@, i as int);
    }
    None
}

proof fn lemma_entries_update(v: Seq<RuntimeEntry>, i: int, x: ServiceRuntimeState)
    requires
        0 <= i < v.len(),
    ensures
        v.update(i, RuntimeEntry { id: v[i].id, state: x }).map_values(|e: RuntimeEntry| (e.id@, e.state))
            == v.map_values(|e: RuntimeEntry| (e.id@, e.state)).update(i, (v[i].id@, x)),
{
    assert(v.update(i, RuntimeEntry { id: v[i].id, state: x }).map_values(|e: RuntimeEntry| (e.id@, e.state))
        =~= v.map_values(|e: RuntimeEntry| (e.id@, e.state)).update(i, (v[i].id@, x)));
}

proof fn lemma_elem_le_sum(e: Seq<(Seq<char>, ServiceRuntimeState)>, i: int)
    requires
        0 <= i < e.len(),
    ensures
        e[i].1.direct_count <= sum_direct(e),
        e[i].1.indirect_count <= sum_indirect(e),
    decreases e.len(),
{
    lemma_sum_nonneg(e.drop_last());
    if i < e.len() - 1 {
        lemma_elem_le_sum(e.drop_last(), i);
    }
}

/// A configuration with `id` exists at position `i`, so the search for the
/// first one with that id succeeds.
pub proof fn lemma_find_first_exists(s: Seq<ServiceConfig>, i: int)
    requires
        0 <= i < s.len(),
    ensures
        find_config(s, s[i].id@) is Some,
    decreases i,
{
    if i > 0 && s[0].id@ != s[i].id@ {
        lemma_find_first_exists(s.drop_first(), i - 1);
    }
}

proof fn lemma_insert_by_order_props(s: Seq<ServiceConfig>, x: ServiceConfig)
    requires
        forall|i: int, j: int| 0 <= i < j < s.len() ==> #[trigger] s[i].sort_order <= #[trigger] s[j].sort_order,
    ensures
        forall|i: int, j: int| 0 <= i < j < insert_by_order(s, x).len() ==> #[trigger] insert_by_order(s, x)[i].sort_order
            <= #[trigger] insert_by_order(s, x)[j].sort_order,
        insert_by_order(s, x).to_multiset() == s.to_multiset().insert(x),
        insert_by_order(s, x).len() == s.len() + 1,
    decreases s.len(),
{
    broadcast use vstd::seq_lib::group_to_multiset_ensures;
    if s.len() == 0 {
        assert(seq![x] =~= Seq::<ServiceConfig>::empty().push(x));
    } else if s.last().sort_order <= x.sort_order {
        assert(s =~= s.drop_last().push(s.last()));
    } else {
        lemma_insert_by_order_props(s.drop_last(), x);
        let t = insert_by_order(s.drop_last(), x);
        assert(s =~= s.drop_last().push(s.last()));
        assert forall|i: int| 0 <= i < t.len() implies #[trigger] t[i].sort_order <= s.last().sort_order by {
            assert(t.to_multiset().count(t[i]) > 0);
            assert(s.drop_last().to_multiset().insert(x).count(t[i]) > 0);
            if t[i] != x {
                assert(s.drop_last().to_multiset().count(t[i]) > 0);
                assert(s.drop_last().contains(t[i]));
                let k = choose|k: int| 0 <= k < s.drop_last().len() && s.drop_last()[k] == t[i];
                assert(s[k] == t[i]);
            }
        }
        assert(t.push(s.last()).to_multiset() =~= s.to_multiset().insert(x));
    }
}

/// `sort_by_order` orders services by non-decreasing `sort_order` and keeps
/// exactly the same services.
pub proof fn lemma_sort_by_order_sorted(s: Seq<ServiceConfig>)
    ensures
        forall|i: int, j: int| 0 <= i < j < sort_by_order(s).len() ==> #[trigger] sort_by_order(s)[i].sort_order
            <= #[trigger] sort_by_order(s)[j].sort_order,
        sort_by_order(s).to_multiset() == s.to_multiset(),
        sort_by_order(s).len() == s.len(),
    decreases s.len(),
{
    broadcast use vstd::seq_lib::group_to_multiset_ensures;
    if s.len() > 0 {
        lemma_sort_by_order_sorted(s.drop_last());
        lemma_insert_by_order_props(sort_by_order(s.drop_last()), s.last());
        assert(s =~= s.drop_last().push(s.last()));
    }
}

/// The configurations of `s` whose id is not `id`.
pub open spec fn without_id(s: Seq<ServiceConfig>, id: Seq<char>) -> Seq<ServiceConfig> {
    s.filter(|c: ServiceConfig| c.id@ != id)
}

/// After removing a service id, no configured service has that id, and
/// every other service is kept.
pub proof fn lemma_removed_service_is_gone(s: Seq<ServiceConfig>, id: Seq<char>)
    ensures
        forall|i: int| 0 <= i < without_id(s, id).len() ==> #[trigger] without_id(s, id)[i].id@ != id,
        forall|i: int| 0 <= i < s.len() && s[i].id@ != id ==> without_id(s, id).contains(#[trigger] s[i]),
{
    broadcast use vstd::seq_lib::group_filter_ensures;
}

/// Manages the set of configured services and their runtime state.
pub struct ServiceManager {
    services: Vec<ServiceConfig>,
    runtime: Vec<RuntimeEntry>,
}

impl ServiceManager {
    /// The configured services, in configuration order.
    pub closed spec fn configs(&self) -> Seq<ServiceConfig> {
        self.services@
    }

    /// The runtime entries (id and state), in an unspecified but fixed order.
    pub closed spec fn entries(&self) -> Seq<(Seq<char>, ServiceRuntimeState)> {
        self.runtime@.map_values(|e: RuntimeEntry| (e.id@, e.state))
    }

    /// Runtime state by service id.
    pub open spec fn runtimes(&self) -> Map<Seq<char>, ServiceRuntimeState> {
        entries_map(self.entries())
    }

    /// Well-formed: every service id has at most one runtime entry.
    pub open spec fn wf(&self) -> bool {
        keys_distinct(self.entries())
    }

    pub open spec fn total_direct(&self) -> int {
        sum_direct(self.entries())
    }

    pub open spec fn total_indirect(&self) -> int {
        sum_indirect(self.entries())
    }

    pub open spec fn spec_total_unread(&self) -> int {
        self.total_direct() + self.total_indirect()
    }

    fn runtime_index(&self, id: &str) -> (r: Option<usize>)
        ensures
            match r {
                Some(i) => i < self.entries().len() && self.entries()[i as int].0 == id@,
                None => !has_key(self.entries(), id@),
            },
    {
        let mut i: usize = 0;
        while i < self.runtime.len()
            invariant
                i <= self.runtime.len(),
                self.entries().len() == self.runtime.len(),
                forall|j: int| 0 <= j < i ==> #[trigger] self.entries()[j].0 != id@,
            decreases self.runtime.len() - i,
        {
            if str_equal(self.runtime[i].id.as_str(), id) {
                return Some(i);
            }
            i = i + 1;
        }
        None
    }

    /// Gives `id` a fresh runtime entry, replacing any it had.
    fn insert_fresh(&mut self, id: String)
        requires
            old(self).wf(),
        ensures
            final(self).wf(),
            final(self).configs() == old(self).configs(),
            final(self).runtimes().dom() == old(self).runtimes().dom().insert(id@),
            final(self).runtimes()[id@].is_fresh(),
            forall|k: Seq<char>| k != id@ ==> #[trigger] final(self).runtimes().remove(id@).contains_key(k) ==
                old(self).runtimes().remove(id@).contains_key(k),
            final(self).runtimes().remove(id@) == old(self).runtimes().remove(id@),
            old(self).runtimes().contains_key(id@) ==> final(self).total_direct() == old(self).total_direct()
                - old(self).runtimes()[id@].direct_count,
            old(self).runtimes().contains_key(id@) ==> final(self).total_indirect() == old(self).total_indirect()
                - old(self).runtimes()[id@].indirect_count,
            !old(self).runtimes().contains_key(id@) ==> final(self).total_direct() == old(self).total_direct(),
            !old(self).runtimes().contains_key(id@) ==> final(self).total_indirect() == old(self).total_indirect(),
    {
        let fresh = ServiceRuntimeState::new();
        let ghost e = self.entries();
        match self.runtime_index(id.as_str()) {
            Some(i) => {
                proof {
                    lemma_map_update(e, i as int, fresh);
                    lemma_sum_update(e, i as int, fresh);
                    lemma_map_lookup(e, i as int);
                }
                self.runtime[i].state = fresh;
                assert(self.entries() =~= e.update(i as int, (e[i as int].0, fresh)));
            }
            None => {
                proof {
                    lemma_map_push(e, id@, fresh);
                }
                self.runtime.push(RuntimeEntry { id, state: fresh });
                assert(self.entries() =~= e.push((id@, fresh)));
            }
        }
        assert(self.runtimes().remove(id@) =~= old(self).runtimes().remove(id@));
    }

    pub fn new(services: Vec<ServiceConfig>) -> (m: Self)
        ensures
            m.wf(),
            m.configs() == services@,
            forall|k: Seq<char>| #[trigger] m.runtimes().contains_key(k) <==> exists|i: int|
                0 <= i < services@.len() && #[trigger] services@[i].id@ == k,
            forall|k: Seq<char>| #[trigger] m.runtimes().contains_key(k) ==> m.runtimes()[k].is_fresh(),
            m.total_direct() == 0,
            m.total_indirect() == 0,
    {
        let mut m = ServiceManager { services: Vec::new(), runtime: Vec::new() };
        assert(m.entries() =~= Seq::empty());
        assert(m.runtimes() =~= Map::empty());
        let mut i: usize = 0;
        while i < services.len()
            invariant
                i <= services.len(),
                m.wf(),
                m.configs() == Seq::<ServiceConfig>::empty(),
                forall|k: Seq<char>| #[trigger] m.runtimes().contains_key(k) <==> exists|j: int|
                    0 <= j < i && #[trigger] services@[j].id@ == k,
                forall|k: Seq<char>| #[trigger] m.runtimes().contains_key(k) ==> m.runtimes()[k].is_fresh(),
                m.total_direct() == 0,
                m.total_indirect() == 0,
            decreases services.len() - i,
        {
            let ghost before = m.runtimes();
            let ghost sid = services@[i as int].id@;
            m.insert_fresh(services[i].id.clone());
            assert(m.runtimes().contains_key(sid));
            assert forall|k: Seq<char>| #[trigger] m.runtimes().contains_key(k) <==> exists|j: int|
                0 <= j < i + 1 && #[trigger] services@[j].id@ == k by {
                if k != services@[i as int].id@ {
                    assert(m.runtimes().remove(services@[i as int].id@).contains_key(k) == before.remove(services@[i as int].id@).contains_key(k));
                    if exists|j: int| 0 <= j < i + 1 && #[trigger] services@[j].id@ == k {
                        let j = choose|j: int| 0 <= j < i + 1 && #[trigger] services@[j].id@ == k;
                        assert(j < i);
                    }
                }
            }
            assert forall|k: Seq<char>| #[trigger] m.runtimes().contains_key(k) implies m.runtimes()[k].is_fresh() by {
                if k != services@[i as int].id@ {
                    assert(m.runtimes().remove(services@[i as int].id@)[k] == before.remove(services@[i as int].id@)[k]);
                }
            }
            i = i + 1;
        }
        let ghost e = m.entries();
        let ghost rt = m.runtimes();
        m.services = services;
        assert(m.entries() == e);
        assert(m.runtimes() == rt);
        m
    }

    pub fn services(&self) -> (r: &Vec<ServiceConfig>)
        ensures
            r@ == self.configs(),
    {
        &self.services
    }

    /// Appends a service and gives it a fresh runtime state.
    pub fn add_service(&mut self, config: ServiceConfig)
        requires
            old(self).wf(),
        ensures
            final(self).wf(),
            final(self).configs() == old(self).configs().push(config),
            final(self).runtimes().dom() == old(self).runtimes().dom().insert(config.id@),
            final(self).runtimes()[config.id@].is_fresh(),
            final(self).runtimes().remove(config.id@) == old(self).runtimes().remove(config.id@),
    {
        self.insert_fresh(config.id.clone());
        self.services.push(config);
    }

    /// Removes every service with `id` and its runtime state.
    pub fn remove_service(&mut self, id: &str)
        requires
            old(self).wf(),
        ensures
            final(self).wf(),
            final(self).configs() == old(self).configs().filter(|c: ServiceConfig| c.id@ != id@),
            final(self).runtimes() == old(self).runtimes().remove(id@),
            old(self).runtimes().contains_key(id@) ==> final(self).total_direct() == old(self).total_direct()
                - old(self).runtimes()[id@].direct_count,
            old(self).runtimes().contains_key(id@) ==> final(self).total_indirect() == old(self).total_indirect()
                - old(self).runtimes()[id@].indirect_count,
            !old(self).runtimes().contains_key(id@) ==> final(self).total_direct() == old(self).total_direct(),
            !old(self).runtimes().contains_key(id@) ==> final(self).total_indirect() == old(self).total_indirect(),
    {
        let kept = configs_without(&self.services, id);
        self.services = kept;
        let ghost e = self.entries();
        match self.runtime_index(id) {
            Some(j) => {
                proof {
                    lemma_map_remove(e, j as int);
                    lemma_map_lookup(e, j as int);
                }
                self.runtime.remove(j);
                assert(self.entries() =~= e.remove(j as int));
            }
            None => {
                assert(self.runtimes() =~= old(self).runtimes().remove(id@));
            }
        }
    }

    /// The first configured service with `id`.
    pub fn get_config(&self, id: &str) -> (r: Option<&ServiceConfig>)
        ensures
            match r {
                Some(c) => find_config(self.configs(), id@) == Some(*c),
                None => find_config(self.configs(), id@) is None,
            },
    {
        match config_index(&self.services, id) {
            Some(i) => Some(&self.services[i]),
            None => None,
        }
    }

    /// Mutable access to the first configured service with `id`; runtime
    /// state is untouched.
    pub fn get_config_mut(&mut self, id: &str) -> (r: Option<&mut ServiceConfig>)
        requires
            old(self).wf(),
        ensures
            final(self).wf(),
            final(self).runtimes() == old(self).runtimes(),
            final(self).entries() == old(self).entries(),
            match find_config_index(old(self).configs(), id@) {
                Some(i) => r is Some && *r->0 == old(self).configs()[i]
                    && final(self).configs() == old(self).configs().update(i, *final(r->0)),
                None => r is None && final(self).configs() == old(self).configs(),
            },
    {
        match config_index(&self.services, id) {
            Some(i) => Some(&mut self.services[i]),
            None => None,
        }
    }

    pub fn get_runtime(&self, id: &str) -> (r: Option<&ServiceRuntimeState>)
        requires
            self.wf(),
        ensures
            match r {
                Some(x) => self.runtimes().contains_key(id@) && *x == self.runtimes()[id@],
                None => !self.runtimes().contains_key(id@),
            },
    {
        match self.runtime_index(id) {
            Some(i) => {
                proof {
                    lemma_map_lookup(self.entries(), i as int);
                }
                Some(&self.runtime[i].state)
            }
            None => None,
        }
    }

    /// Mutable access to the runtime state of `id`.
    pub fn get_runtime_mut(&mut self, id: &str) -> (r: Option<&mut ServiceRuntimeState>)
        requires
            old(self).wf(),
        ensures
            final(self).wf(),
            final(self).configs() == old(self).configs(),
            match r {
                Some(x) => old(self).runtimes().contains_key(id@) && *x == old(self).runtimes()[id@]
                    && final(self).runtimes() == old(self).runtimes().insert(id@, *final(x))
                    && final(self).total_direct() == old(self).total_direct() - x.direct_count + final(x).direct_count
                    && final(self).total_indirect() == old(self).total_indirect() - x.indirect_count
                        + final(x).indirect_count,
                None => !old(self).runtimes().contains_key(id@) && final(self).runtimes() == old(self).runtimes()
                    && final(self).total_direct() == old(self).total_direct()
                    && final(self).total_indirect() == old(self).total_indirect(),
            },
    {
        let ghost e = self.entries();
        let ghost v = self.runtime@;
        match self.runtime_index(id) {
            Some(i) => {
                proof {
                    lemma_map_lookup(e, i as int);
                }
                let r = &mut self.runtime[i].state;
                proof {
                    lemma_map_update(e, i as int, *final(r));
                    lemma_entries_update(v, i as int, *final(r));
                    lemma_sum_update(e, i as int, *final(r));
                }
                Some(r)
            }
            None => None,
        }
    }

    /// Sets the unread counts of `service_id` and marks it as just used;
    /// nothing happens for an unknown id.
    pub fn update_badge(&mut self, service_id: &str, direct: u32, indirect: u32)
        requires
            old(self).wf(),
        ensures
            final(self).wf(),
            final(self).configs() == old(self).configs(),
            final(self).runtimes().dom() == old(self).runtimes().dom(),
            old(self).runtimes().contains_key(service_id@) ==> {
                let (o, n) = (old(self).runtimes()[service_id@], final(self).runtimes()[service_id@]);
                &&& n.direct_count == direct
                &&& n.indirect_count == indirect
                &&& n.lifecycle == o.lifecycle
                &&& n.dialog_title == o.dialog_title
                &&& final(self).runtimes().remove(service_id@) == old(self).runtimes().remove(service_id@)
                &&& final(self).total_direct() == old(self).total_direct() - o.direct_count + direct
                &&& final(self).total_indirect() == old(self).total_indirect() - o.indirect_count + indirect
            },
            !old(self).runtimes().contains_key(service_id@) ==> final(self).runtimes() == old(self).runtimes()
                && final(self).total_direct() == old(self).total_direct()
                && final(self).total_indirect() == old(self).total_indirect(),
    {
        let ghost e = self.entries();
        if let Some(i) = self.runtime_index(service_id) {
            proof {
                lemma_map_lookup(e, i as int);
            }
            self.runtime[i].state.direct_count = direct;
            self.runtime[i].state.indirect_count = indirect;
            self.runtime[i].state.touch();
            let ghost v = self.runtime@[i as int].state;
            proof {
                lemma_map_update(e, i as int, v);
                lemma_sum_update(e, i as int, v);
            }
            assert(self.entries() =~= e.update(i as int, (e[i as int].0, v)));
            assert(self.runtimes().remove(service_id@) =~= old(self).runtimes().remove(service_id@));
        }
    }

    /// Whether the unread totals still fit in a `u32` after `update_badge`
    /// with these arguments.
    pub fn badge_update_fits(&self, service_id: &str, direct: u32, indirect: u32) -> (b: bool)
        requires
            self.wf(),
        ensures
            b == (if self.runtimes().contains_key(service_id@) {
                self.spec_total_unread() - self.runtimes()[service_id@].spec_total_unread() + direct + indirect
                    <= u32::MAX
            } else {
                self.spec_total_unread() <= u32::MAX
            }),
    {
        let d = self.sum_direct_wide();
        let n = self.sum_indirect_wide();
        assert(self.entries().len() == self.runtime@.len());
        let len = self.runtime.len();
        assert(len as int == self.runtime@.len());
        match self.runtime_index(service_id) {
            Some(i) => {
                let rt = &self.runtime[i].state;
                proof {
                    lemma_map_lookup(self.entries(), i as int);
                    lemma_elem_le_sum(self.entries(), i as int);
                }
                d - rt.direct_count as u128 + n - rt.indirect_count as u128 + direct as u128 + indirect as u128
                    <= u32::MAX as u128
            }
            None => d + n <= u32::MAX as u128,
        }
    }

    fn sum_direct_wide(&self) -> (n: u128)
        ensures
            n == self.total_direct(),
            n <= self.entries().len() * 0xffff_ffffu128,
    {
        let ghost e = self.entries();
        let mut total: u128 = 0;
        let mut i: usize = 0;
        proof {
            assert(e.take(0) =~= Seq::empty());
        }
        while i < self.runtime.len()
            invariant
                e == self.entries(),
                i <= self.runtime.len(),
                total == sum_direct(e.take(i as int)),
                total <= i * 0xffff_ffffu128,
            decreases self.runtime.len() - i,
        {
            proof {
                lemma_sum_take(e, i as int);
            }
            total = total + self.runtime[i].state.direct_count as u128;
            i = i + 1;
        }
        assert(e.take(i as int) =~= e);
        total
    }

    fn sum_indirect_wide(&self) -> (n: u128)
        ensures
            n == self.total_indirect(),
            n <= self.entries().len() * 0xffff_ffffu128,
    {
        let ghost e = self.entries();
        let mut total: u128 = 0;
        let mut i: usize = 0;
        proof {
            assert(e.take(0) =~= Seq::empty());
        }
        while i < self.runtime.len()
            invariant
                e == self.entries(),
                i <= self.runtime.len(),
                total == sum_indirect(e.take(i as int)),
                total <= i * 0xffff_ffffu128,
            decreases self.runtime.len() - i,
        {
            proof {
                lemma_sum_take(e, i as int);
            }
            total = total + self.runtime[i].state.indirect_count as u128;
            i = i + 1;
        }
        assert(e.take(i as int) =~= e);
        total
    }

    pub fn set_dialog_title(&mut self, service_id: &str, title: Option<String>)
        requires
            old(self).wf(),
        ensures
            final(self).wf(),
            final(self).configs() == old(self).configs(),
            final(self).total_direct() == old(self).total_direct(),
            final(self).total_indirect() == old(self).total_indirect(),
            old(self).runtimes().contains_key(service_id@) ==> final(self).runtimes() == old(self).runtimes().insert(
                service_id@,
                ServiceRuntimeState { dialog_title: title, ..old(self).runtimes()[service_id@] },
            ),
            !old(self).runtimes().contains_key(service_id@) ==> final(self).runtimes() == old(self).runtimes(),
    {
        let ghost e = self.entries();
        if let Some(i) = self.runtime_index(service_id) {
            proof {
                lemma_map_lookup(e, i as int);
            }
            self.runtime[i].state.dialog_title = title;
            let ghost v = self.runtime@[i as int].state;
            proof {
                lemma_map_update(e, i as int, v);
                lemma_sum_update(e, i as int, v);
            }
            assert(self.entries() =~= e.update(i as int, (e[i as int].0, v)));
        }
    }

    pub fn set_lifecycle_state(&mut self, service_id: &str, state: ServiceLifecycleState)
        requires
            old(self).wf(),
        ensures
            final(self).wf(),
            final(self).configs() == old(self).configs(),
            final(self).total_direct() == old(self).total_direct(),
            final(self).total_indirect() == old(self).total_indirect(),
            old(self).runtimes().contains_key(service_id@) ==> final(self).runtimes() == old(self).runtimes().insert(
                service_id@,
                ServiceRuntimeState { lifecycle: state, ..old(self).runtimes()[service_id@] },
            ),
            !old(self).runtimes().contains_key(service_id@) ==> final(self).runtimes() == old(self).runtimes(),
    {
        let ghost e = self.entries();
        if let Some(i) = self.runtime_index(service_id) {
            proof {
                lemma_map_lookup(e, i as int);
            }
            self.runtime[i].state.lifecycle = state;
            let ghost v = self.runtime@[i as int].state;
            proof {
                lemma_map_update(e, i as int, v);
                lemma_sum_update(e, i as int, v);
            }
            assert(self.entries() =~= e.update(i as int, (e[i as int].0, v)));
        }
    }

    /// Direct (personal) unread messages over all services.
    pub fn total_direct_count(&self) -> (n: u32)
        requires
            self.total_direct() <= u32::MAX,
        ensures
            n == self.total_direct(),
    {
        self.sum_direct_wide() as u32
    }

    /// Indirect (channel) unread messages over all services.
    pub fn total_indirect_count(&self) -> (n: u32)
        requires
            self.total_indirect() <= u32::MAX,
        ensures
            n == self.total_indirect(),
    {
        self.sum_indirect_wide() as u32
    }

    pub fn total_unread(&self) -> (n: u32)
        requires
            self.spec_total_unread() <= u32::MAX,
        ensures
            n == self.spec_total_unread(),
    {
        proof {
            lemma_sum_nonneg(self.entries());
        }
        self.total_direct_count() + self.total_indirect_count()
    }

    /// Returns services sorted by `sort_order`; services with equal order keep
    /// their configuration order.
    pub fn sorted_services(&self) -> (r: Vec<&ServiceConfig>)
        ensures
            r@.map_values(|c: &ServiceConfig| *c) == sort_by_order(self.configs()),
    {
        let mut sorted: Vec<&ServiceConfig> = Vec::new();
        let mut i: usize = 0;
        assert(self.services@.take(0) =~= Seq::<ServiceConfig>::empty());
        while i < self.services.len()
            invariant
                i <= self.services.len(),
                sorted@.map_values(|c: &ServiceConfig| *c) == sort_by_order(self.services@.take(i as int)),
            decreases self.services.len() - i,
        {
            let x = &self.services[i];
            let ghost s = sorted@.map_values(|c: &ServiceConfig| *c);
            let mut j: usize = sorted.len();
            while j > 0 && sorted[j - 1].sort_order > x.sort_order
                invariant
                    j <= sorted.len(),
                    s == sorted@.map_values(|c: &ServiceConfig| *c),
                    forall|k: int| j <= k < s.len() ==> #[trigger] s[k].sort_order > x.sort_order,
                decreases j,
            {
                j = j - 1;
            }
            proof {
                lemma_insert_by_order(s, *x, j as int);
                assert(self.services@.take(i + 1).drop_last() =~= self.services@.take(i as int));
            }
            sorted.insert(j, x);
            assert(sorted@.map_values(|c: &ServiceConfig| *c) =~= s.insert(j as int, *x));
            i = i + 1;
        }
        assert(self.services@.take(i as int) =~= self.services@);
        sorted
    }
}

} // verus!
