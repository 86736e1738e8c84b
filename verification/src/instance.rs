//! Single-instance bookkeeping: the process ids recorded in the app's pid
//! file and in the browser engine's singleton lock.

use vstd::prelude::*;
use crate::service::lifecycle::{parse_u64, spec_parse_u64};
use crate::text::{chars_of, string_from_chars, trim_str, trim_ws};

verus! {

/// `str::parse::<u32>`: the `u64` reading when it fits in a `u32`.
pub open spec fn spec_parse_u32(s: Seq<char>) -> Option<u32> {
    match spec_parse_u64(s) {
        Some(v) => if v <= u32::MAX {
            Some(v as u32)
        } else {
            None
        },
        None => None,
    }
}

/// The process id written in a pid file: the text, trimmed, read as a
/// decimal `u32`.
pub fn parse_pid(text: &str) -> (r: Option<u32>)
    ensures
        r == spec_parse_u32(trim_ws(text@)),
{
    let t = trim_str(text);
    match parse_u64(t.as_str()) {
        Some(v) => if v <= 0xffff_ffff {
            Some(v as u32)
        } else {
            None
        },
        None => None,
    }
}

/// The text after the last `sep` in `s` (all of `s` when it has none): the
/// last piece of `str::split(sep)`.
pub open spec fn after_last(s: Seq<char>, sep: char) -> Seq<char>
    decreases s.len(),
{
    if s.len() == 0 {
        s
    } else if s.last() == sep {
        Seq::empty()
    } else {
        after_last(s.drop_last(), sep).push(s.last())
    }
}

proof fn lemma_after_last(s: Seq<char>, sep: char, k: int)
    requires
        0 <= k <= s.len(),
        forall|j: int| k <= j < s.len() ==> #[trigger] s[j] != sep,
        k > 0 ==> s[k - 1] == sep,
    ensures
        after_last(s, sep) == s.skip(k),
    decreases s.len() - k,
{
    if k < s.len() {
        lemma_after_last(s.drop_last(), sep, k);
        assert(s.drop_last().skip(k).push(s.last()) =~= s.skip(k));
    } else if k > 0 {
        assert(s.skip(k) =~= Seq::<char>::empty());
    } else {
        assert(s.skip(0) =~= s);
    }
}

/// The process id in the engine's singleton lock, which holds
/// `<host>-<pid>`: the text after the last `-`, read as a pid.
pub fn lock_owner_pid(content: &str) -> (r: Option<u32>)
    ensures
        r == spec_parse_u32(trim_ws(after_last(content@, '-'))),
{
    let v = chars_of(content);
    let mut k: usize = v.len();
    while k > 0 && v[k - 1] != '-'
        invariant
            k <= v.len(),
            forall|j: int| k <= j < v.len() ==> #[trigger] v@[j] != '-',
        decreases k,
    {
        k = k - 1;
    }
    proof {
        lemma_after_last(v@, '-', k as int);
    }
    let last = string_from_chars(&v, k);
    parse_pid(last.as_str())
}

} // verus!
