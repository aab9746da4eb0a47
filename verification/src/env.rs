//! The environment of the program: the caller's entries laid over a base.

use crate::config::{copy_bytes, strings_view};
use crate::search::{lemma_absent_has_no_index, lemma_first_at_unique};
use vstd::prelude::*;

verus! {

/// The byte that parts the name of an entry from its value (`=`).
pub const EQUALS: u8 = 61;

/// The name of an entry `NAME=value`: the bytes before the first `=`, or the
/// whole entry where it has none.
pub open spec fn key_of(entry: Seq<u8>) -> Seq<u8> {
    match entry.index_of_first(EQUALS) {
        Some(i) => entry.subrange(0, i),
        None => entry,
    }
}

/// One of `entries` has the name `key`.
pub open spec fn sets(entries: Seq<Seq<u8>>, key: Seq<u8>) -> bool {
    exists|i: int| 0 <= i < entries.len() && key_of(#[trigger] entries[i]) == key
}

/// The entries of `base` whose name `extra` does not set, in their order,
/// and then all of `extra`.
pub open spec fn merged(base: Seq<Seq<u8>>, extra: Seq<Seq<u8>>) -> Seq<Seq<u8>> {
    base.filter(|e: Seq<u8>| !sets(extra, key_of(e))) + extra
}

/// The length of the name of an entry.
pub fn key_len(entry: &[u8]) -> (len: usize)
    ensures
        len <= entry@.len(),
        key_of(entry@) == entry@.subrange(0, len as int),
{
    let whole: usize = entry.len();
    match memchr::memchr(EQUALS, entry) {
        Some(i) => {
            proof {
                lemma_first_at_unique(entry@, EQUALS, i as int);
            }
            i
        },
        None => {
            proof {
                lemma_absent_has_no_index(entry@, EQUALS);
                assert(entry@.subrange(0, whole as int) =~= entry@);
            }
            whole
        },
    }
}

/// Whether two entries have the same name.
pub fn same_key(a: &[u8], b: &[u8]) -> (same: bool)
    ensures
        same == (key_of(a@) == key_of(b@)),
{
    let len: usize = key_len(a);
    if key_len(b) != len {
        return false;
    }
    let mut i: usize = 0;
    while i < len
        invariant
            i <= len <= a@.len(),
            len <= b@.len(),
            key_of(a@) == a@.subrange(0, len as int),
            key_of(b@) == b@.subrange(0, len as int),
            forall|j: int| 0 <= j < i ==> a@[j] == b@[j],
        decreases len - i,
    {
        if a[i] != b[i] {
            assert(key_of(a@)[i as int] != key_of(b@)[i as int]);
            return false;
        }
        i = i + 1;
    }
    assert(key_of(a@) =~= key_of(b@));
    true
}

/// Whether one of `entries` has the name of `entry`.
pub fn sets_key_of(entries: &Vec<Vec<u8>>, entry: &[u8]) -> (found: bool)
    ensures
        found == sets(strings_view(*entries), key_of(entry@)),
{
    let ghost all = strings_view(*entries);
    let mut i: usize = 0;
    while i < entries.len()
        invariant
            i <= entries.len(),
            all == strings_view(*entries),
            forall|j: int| 0 <= j < i ==> key_of(#[trigger] all[j]) != key_of(entry@),
        decreases entries.len() - i,
    {
        assert(all[i as int] == entries[i as int]@);
        if same_key(entries[i].as_slice(), entry) {
            return true;
        }
        i = i + 1;
    }
    false
}

/// Lays the caller's entries over the base environment: an entry of `extra`
/// replaces every entry of `base` with its name.
pub fn merge_env(base: &Vec<Vec<u8>>, extra: &Vec<Vec<u8>>) -> (env: Vec<Vec<u8>>)
    ensures
        strings_view(env) == merged(strings_view(*base), strings_view(*extra)),
{
    let ghost b = strings_view(*base);
    let ghost x = strings_view(*extra);
    let ghost keep = |e: Seq<u8>| !sets(x, key_of(e));
    let mut env: Vec<Vec<u8>> = Vec::new();
    let mut i: usize = 0;
    assert(b.take(0).filter(keep) =~= Seq::empty()) by {
        reveal(Seq::filter);
    }
    assert(strings_view(env) =~= Seq::empty());
    while i < base.len()
        invariant
            i <= base.len(),
            b == strings_view(*base),
            x == strings_view(*extra),
            keep == |e: Seq<u8>| !sets(x, key_of(e)),
            strings_view(env) == b.take(i as int).filter(keep),
        decreases base.len() - i,
    {
        let ghost before = strings_view(env);
        assert(b[i as int] == base[i as int]@);
        proof {
            reveal(Seq::filter);
            assert(b.take(i + 1).drop_last() =~= b.take(i as int));
            assert(b.take(i + 1).last() == b[i as int]);
        }
        if !sets_key_of(extra, base[i].as_slice()) {
            env.push(copy_bytes(&base[i]));
            assert(strings_view(env) =~= before.push(b[i as int]));
        }
        i = i + 1;
    }
    assert(b.take(base.len() as int) =~= b);
    let mut j: usize = 0;
    while j < extra.len()
        invariant
            j <= extra.len(),
            x == strings_view(*extra),
            strings_view(env) == b.filter(keep) + x.take(j as int),
        decreases extra.len() - j,
    {
        let ghost before = strings_view(env);
        assert(x[j as int] == extra[j as int]@);
        env.push(copy_bytes(&extra[j]));
        assert(strings_view(env) =~= before.push(x[j as int]));
        assert(b.filter(keep) + x.take(j + 1) =~= (b.filter(keep) + x.take(j as int)).push(
            x[j as int],
        ));
        j = j + 1;
    }
    assert(x.take(extra.len() as int) =~= x);
    env
}

proof fn lemma_filter_keeps_members(s: Seq<Seq<u8>>, pred: spec_fn(Seq<u8>) -> bool, k: int)
    requires
        0 <= k < s.filter(pred).len(),
    ensures
        s.contains(s.filter(pred)[k]),
    decreases s.len(),
{
    reveal(Seq::filter);
    if s.len() > 0 {
        let rest = s.drop_last().filter(pred);
        if k < rest.len() {
            lemma_filter_keeps_members(s.drop_last(), pred, k);
            let w = choose|w: int| 0 <= w < s.drop_last().len() && s.drop_last()[w] == rest[k];
            assert(s[w] == rest[k]);
        } else {
            assert(s[s.len() - 1] == s.last());
        }
    }
}

/// The caller's entries win: all of them are in the merged environment, at
/// its end and in their order; before them stand entries of the base only,
/// none with a name that the caller sets; and every entry of the base whose
/// name the caller does not set is there.
pub proof fn lemma_extra_wins(base: Seq<Seq<u8>>, extra: Seq<Seq<u8>>)
    ensures
        ({
            let env = merged(base, extra);
            let kept = env.len() - extra.len();
            &&& 0 <= kept <= base.len()
            &&& forall|j: int| 0 <= j < extra.len() ==> env[kept + j] == extra[j]
            &&& forall|k: int|
                0 <= k < kept ==> base.contains(#[trigger] env[k]) && !sets(extra, key_of(env[k]))
            &&& forall|i: int|
                0 <= i < base.len() && !sets(extra, key_of(base[i])) ==> env.contains(
                    #[trigger] base[i],
                )
        }),
{
    let keep = |e: Seq<u8>| !sets(extra, key_of(e));
    let survivors = base.filter(keep);
    let env = merged(base, extra);
    broadcast use vstd::seq_lib::group_filter_ensures;

    assert forall|k: int| 0 <= k < survivors.len() implies base.contains(#[trigger] env[k])
        && !sets(extra, key_of(env[k])) by {
        assert(env[k] == survivors[k]);
        assert(keep(survivors[k]));
        lemma_filter_keeps_members(base, keep, k);
    }
    assert forall|i: int|
        0 <= i < base.len() && !sets(extra, key_of(base[i])) implies env.contains(
        #[trigger] base[i],
    ) by {
        assert(keep(base[i]));
        assert(survivors.contains(base[i]));
        let k = choose|k: int| 0 <= k < survivors.len() && survivors[k] == base[i];
        assert(env[k] == base[i]);
    }
}

} // verus!
