//! The per-service unread counts that the sidebar shows, as a JSON object
//! keyed by service id in ascending key order.

use vstd::prelude::*;
use crate::json::{decimal, decimal_string, json_quote, json_string_literal};
use crate::service::manager::ServiceManager;
use crate::service::state::ServiceRuntimeState;
use crate::text::{chars_of, owned};

verus! {

/// Lexicographic order of character sequences by code point (the order in
/// which maps keyed by strings list their keys).
pub open spec fn seq_lt(a: Seq<char>, b: Seq<char>) -> bool
    decreases a.len(),
{
    if a.len() == 0 {
        b.len() > 0
    } else if b.len() == 0 {
        false
    } else if a[0] != b[0] {
        (a[0] as u32) < (b[0] as u32)
    } else {
        seq_lt(a.drop_first(), b.drop_first())
    }
}

proof fn lemma_lt_trichotomy(a: Seq<char>, b: Seq<char>)
    ensures
        a == b || seq_lt(a, b) || seq_lt(b, a),
        !(seq_lt(a, b) && seq_lt(b, a)),
        !seq_lt(a, a),
    decreases a.len(),
{
    if a.len() == 0 && b.len() == 0 {
        assert(a =~= b);
    } else if a.len() > 0 && b.len() > 0 {
        lemma_lt_trichotomy(a.drop_first(), b.drop_first());
        lemma_lt_trichotomy(a.drop_first(), a.drop_first());
        if a[0] == b[0] && a.drop_first() == b.drop_first() {
            assert(a =~= seq![a[0]] + a.drop_first());
            assert(b =~= seq![b[0]] + b.drop_first());
            assert(a =~= b);
        }
        if a[0] != b[0] {
            vstd::utf8::char_u32_cast(a[0], a[0] as u32);
            vstd::utf8::char_u32_cast(b[0], b[0] as u32);
            assert((a[0] as u32) != (b[0] as u32));
        }
    } else if a.len() > 0 {
        lemma_lt_trichotomy(a.drop_first(), a.drop_first());
    }
}

proof fn lemma_lt_transitive(a: Seq<char>, b: Seq<char>, c: Seq<char>)
    requires
        seq_lt(a, b),
        seq_lt(b, c),
    ensures
        seq_lt(a, c),
    decreases a.len(),
{
    if a.len() > 0 && b.len() > 0 && c.len() > 0 {
        if a[0] == b[0] && b[0] == c[0] {
            lemma_lt_transitive(a.drop_first(), b.drop_first(), c.drop_first());
        }
    }
}

/// Keys in strictly ascending order.
pub open spec fn strictly_sorted(keys: Seq<Seq<char>>) -> bool {
    forall|i: int, j: int| 0 <= i < j < keys.len() ==> seq_lt(#[trigger] keys[i], #[trigger] keys[j])
}

/// The ids whose badges the sidebar gets: configured services that have
/// runtime state.
pub open spec fn badge_ids(m: ServiceManager) -> Set<Seq<char>> {
    Set::new(|k: Seq<char>| exists|i: int| 0 <= i < m.configs().len() && #[trigger] m.configs()[i].id@ == k
        && m.runtimes().contains_key(k))
}

pub open spec fn badge_entry(id: Seq<char>, rt: ServiceRuntimeState) -> Seq<char> {
    json_string_literal(id) + ":{\"direct\":"@ + decimal(rt.direct_count as nat) + ",\"indirect\":"@
        + decimal(rt.indirect_count as nat) + "}"@
}

pub open spec fn badge_items(keys: Seq<Seq<char>>, rts: Map<Seq<char>, ServiceRuntimeState>) -> Seq<char>
    decreases keys.len(),
{
    if keys.len() == 0 {
        Seq::empty()
    } else if keys.len() == 1 {
        badge_entry(keys[0], rts[keys[0]])
    } else {
        badge_items(keys.drop_last(), rts) + ","@ + badge_entry(keys.last(), rts[keys.last()])
    }
}

/// The badges object for the given ascending keys.
pub open spec fn spec_badges_json(keys: Seq<Seq<char>>, rts: Map<Seq<char>, ServiceRuntimeState>) -> Seq<char> {
    "{"@ + badge_items(keys, rts) + "}"@
}

fn lt_exec(a: &Vec<char>, b: &Vec<char>) -> (r: bool)
    ensures
        r == seq_lt(a@, b@),
{
    let mut i: usize = 0;
    assert(a@.skip(0) =~= a@);
    assert(b@.skip(0) =~= b@);
    while i < a.len() && i < b.len() && a[i] == b[i]
        invariant
            i <= a.len(),
            i <= b.len(),
            seq_lt(a@, b@) == seq_lt(a@.skip(i as int), b@.skip(i as int)),
        decreases a.len() - i,
    {
        assert(a@.skip(i as int).drop_first() =~= a@.skip(i + 1));
        assert(b@.skip(i as int).drop_first() =~= b@.skip(i + 1));
        i = i + 1;
    }
    if i == a.len() {
        i < b.len()
    } else if i == b.len() {
        false
    } else {
        assert(a@.skip(i as int)[0] == a@[i as int]);
        assert(b@.skip(i as int)[0] == b@[i as int]);
        (a[i] as u32) < (b[i] as u32)
    }
}

pub open spec fn keys_view(keys: Seq<Vec<char>>) -> Seq<Seq<char>> {
    keys.map_values(|k: Vec<char>| k@)
}

/// Inserts `k` into the ascending list `keys` unless it is already there.
fn insert_sorted(keys: &mut Vec<Vec<char>>, k: Vec<char>)
    requires
        strictly_sorted(keys_view(old(keys)@)),
    ensures
        strictly_sorted(keys_view(final(keys)@)),
        forall|x: Seq<char>| keys_view(final(keys)@).contains(x) <==> (keys_view(old(keys)@).contains(x) || x == k@),
{
    let ghost kv = keys_view(keys@);
    let mut p: usize = 0;
    while p < keys.len() && lt_exec(&keys[p], &k)
        invariant
            p <= keys.len(),
            kv == keys_view(keys@),
            forall|i: int| 0 <= i < p ==> seq_lt(#[trigger] kv[i], k@),
        decreases keys.len() - p,
    {
        p = p + 1;
    }
    if p < keys.len() && !lt_exec(&k, &keys[p]) {
        proof {
            lemma_lt_trichotomy(kv[p as int], k@);
            assert(kv[p as int] == k@);
        }
        return;
    }
    let ghost kk = k@;
    keys.insert(p, k);
    let ghost nv = keys_view(keys@);
    proof {
        assert(nv =~= kv.insert(p as int, kk));
        assert forall|i: int, j: int| 0 <= i < j < nv.len() implies seq_lt(#[trigger] nv[i], #[trigger] nv[j]) by {
            if j < p {
            } else if j == p {
            } else if i < p {
                lemma_lt_transitive(nv[i], kk, kv[p as int]);
                if j - 1 > p {
                    lemma_lt_transitive(nv[i], kv[p as int], kv[j - 1]);
                }
            } else if i == p {
                if j - 1 > p {
                    lemma_lt_transitive(kk, kv[p as int], kv[j - 1]);
                }
            } else {
            }
        }
        assert forall|x: Seq<char>| nv.contains(x) <==> (kv.contains(x) || x == kk) by {
            if nv.contains(x) {
                let i = choose|i: int| 0 <= i < nv.len() && nv[i] == x;
                if i < p {
                    assert(kv[i] == x);
                } else if i > p {
                    assert(kv[i - 1] == x);
                }
            }
            if kv.contains(x) {
                let i = choose|i: int| 0 <= i < kv.len() && kv[i] == x;
                if i < p {
                    assert(nv[i] == x);
                } else {
                    assert(nv[i + 1] == x);
                }
            }
            if x == kk {
                assert(nv[p as int] == x);
            }
        }
    }
}

/// The sidebar's badges object: for each configured service with runtime
/// state, `{"direct":..,"indirect":..}` under its id, ids ascending.
pub fn badges_json(m: &ServiceManager) -> (r: String)
    requires
        m.wf(),
    ensures
        exists|keys: Seq<Seq<char>>| {
            &&& strictly_sorted(keys)
            &&& forall|x: Seq<char>| keys.contains(x) <==> #[trigger] badge_ids(*m).contains(x)
            &&& r@ == spec_badges_json(keys, m.runtimes())
        },
{
    let services = m.services();
    let mut keys: Vec<Vec<char>> = Vec::new();
    let mut i: usize = 0;
    while i < services.len()
        invariant
            i <= services.len(),
            services@ == m.configs(),
            m.wf(),
            strictly_sorted(keys_view(keys@)),
            forall|x: Seq<char>| keys_view(keys@).contains(x) <==> (exists|j: int| 0 <= j < i
                && #[trigger] m.configs()[j].id@ == x && m.runtimes().contains_key(x)),
        decreases services.len() - i,
    {
        let ghost before = keys_view(keys@);
        if m.get_runtime(services[i].id.as_str()).is_some() {
            insert_sorted(&mut keys, chars_of(services[i].id.as_str()));
        }
        assert forall|x: Seq<char>| keys_view(keys@).contains(x) <==> (exists|j: int| 0 <= j < i + 1
            && #[trigger] m.configs()[j].id@ == x && m.runtimes().contains_key(x)) by {
            if exists|j: int| 0 <= j < i + 1 && #[trigger] m.configs()[j].id@ == x && m.runtimes().contains_key(x) {
                let j = choose|j: int| 0 <= j < i + 1 && #[trigger] m.configs()[j].id@ == x && m.runtimes().contains_key(x);
                if j < i {
                    assert(before.contains(x));
                }
            }
        }
        i = i + 1;
    }
    let ghost kv = keys_view(keys@);
    let mut items = String::new();
    let mut k: usize = 0;
    while k < keys.len()
        invariant
            k <= keys.len(),
            kv == keys_view(keys@),
            m.wf(),
            forall|x: Seq<char>| kv.contains(x) ==> m.runtimes().contains_key(x),
            items@ == badge_items(kv.take(k as int), m.runtimes()),
        decreases keys.len() - k,
    {
        assert(kv.take(k + 1).drop_last() =~= kv.take(k as int));
        assert(kv.contains(kv[k as int]));
        let id = crate::text::string_from_chars(&keys[k], 0);
        assert(keys@[k as int]@.skip(0) =~= keys@[k as int]@);
        if k > 0 {
            items.append(",");
        }
        let rt = m.get_runtime(id.as_str());
        let (d, n) = match rt {
            Some(x) => (x.direct_count, x.indirect_count),
            None => (0, 0),
        };
        items.append(json_quote(id.as_str()).as_str());
        items.append(":{\"direct\":");
        items.append(decimal_string(d as u64).as_str());
        items.append(",\"indirect\":");
        items.append(decimal_string(n as u64).as_str());
        items.append("}");
        proof {
            if k == 0 {
                assert(items@ =~= badge_entry(kv[0], m.runtimes()[kv[0]]));
            } else {
                assert(items@ =~= badge_items(kv.take(k as int), m.runtimes()) + ","@ + badge_entry(
                    kv[k as int],
                    m.runtimes()[kv[k as int]],
                ));
            }
        }
        k = k + 1;
    }
    assert(kv.take(k as int) =~= kv);
    let mut r = owned("{");
    r.append(items.as_str());
    r.append("}");
    assert(forall|x: Seq<char>| kv.contains(x) <==> #[trigger] badge_ids(*m).contains(x));
    r
}

} // verus!
