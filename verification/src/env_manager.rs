//! The registry of installed environments: an ordered list of records in
//! which no name occurs twice. The caller loads the list, hands it to these
//! functions and persists what they leave.

use vstd::prelude::*;
use crate::error::{Error, ErrorView};
use crate::models::InstalledEnv;
use crate::text::str_eq;

verus! {

/// The records with a name other than `name`.
pub open spec fn other_than(name: Seq<char>) -> spec_fn(InstalledEnv) -> bool {
    |e: InstalledEnv| e.name@ != name
}

/// The list without the records named `name`, the others in their order.
pub open spec fn without(envs: Seq<InstalledEnv>, name: Seq<char>) -> Seq<InstalledEnv> {
    envs.filter(other_than(name))
}

/// The list after `env` was recorded: what was there under its name is gone,
/// and `env` stands at the end.
pub open spec fn added(envs: Seq<InstalledEnv>, env: InstalledEnv) -> Seq<InstalledEnv> {
    without(envs, env.name@).push(env)
}

/// Whether no two records share a name.
pub open spec fn names_unique(envs: Seq<InstalledEnv>) -> bool {
    forall|i: int, j: int|
        0 <= i < j < envs.len() ==> (#[trigger] envs[i]).name@ != (#[trigger] envs[j]).name@
}

/// Whether some record is named `name`.
pub open spec fn has_name(envs: Seq<InstalledEnv>, name: Seq<char>) -> bool {
    exists|i: int| 0 <= i < envs.len() && (#[trigger] envs[i]).name@ == name
}

/// Removes the records named `name`. A name that is not recorded leaves the
/// list as it is.
pub fn remove(envs: &mut Vec<InstalledEnv>, name: &str)
    ensures
        final(envs)@ == without(old(envs)@, name@),
{
    let ghost orig = envs@;
    let ghost mut k: int = 0;
    let mut i: usize = 0;
    proof {
        reveal(Seq::filter);
        assert(orig.take(0).filter(other_than(name@)) =~= envs@.take(0));
        assert(envs@.skip(0) == orig.skip(0));
    }
    while i < envs.len()
        invariant
            0 <= i <= envs@.len(),
            0 <= k <= orig.len(),
            envs@.len() - i == orig.len() - k,
            envs@.take(i as int) == without(orig.take(k), name@),
            envs@.skip(i as int) == orig.skip(k),
        decreases envs@.len() - i,
    {
        proof {
            assert(envs@[i as int] == envs@.skip(i as int)[0]);
            assert(orig[k] == orig.skip(k)[0]);
            assert(orig.skip(k).skip(1) =~= orig.skip(k + 1));
            assert(orig.take(k + 1) == orig.take(k).push(orig[k]));
            orig.take(k).lemma_filter_push(orig[k], other_than(name@));
        }
        if str_eq(envs[i].name.as_str(), name) {
            let ghost before = envs@;
            envs.remove(i);
            proof {
                assert(envs@.take(i as int) =~= before.take(i as int));
                assert(envs@.skip(i as int) =~= before.skip(i as int).skip(1));
                k = k + 1;
            }
        } else {
            proof {
                assert(envs@.take(i + 1) =~= envs@.take(i as int).push(envs@[i as int]));
                assert(envs@.skip(i + 1) =~= envs@.skip(i as int).skip(1));
                k = k + 1;
            }
            i += 1;
        }
    }
    proof {
        assert(envs@.take(i as int) == envs@);
        assert(orig.take(k) == orig);
    }
}

/// Records `env`: whatever was recorded under its name is replaced, and the
/// new record goes to the end of the list.
pub fn add(envs: &mut Vec<InstalledEnv>, env: InstalledEnv)
    ensures
        final(envs)@ == added(old(envs)@, env),
{
    remove(envs, env.name.as_str());
    envs.push(env);
}

/// Whether `i` is the first position of `envs` that holds the name `name`.
pub open spec fn is_first_named(envs: Seq<InstalledEnv>, name: Seq<char>, i: int) -> bool {
    &&& 0 <= i < envs.len()
    &&& envs[i].name@ == name
    &&& forall|j: int| 0 <= j < i ==> (#[trigger] envs[j]).name@ != name
}

/// The record of the environment `name`.
pub fn find<'a>(envs: &'a Vec<InstalledEnv>, name: &str) -> (r: Result<&'a InstalledEnv, Error>)
    ensures
        match r {
            Ok(e) => exists|i: int| #[trigger] is_first_named(envs@, name@, i) && *e == envs@[i],
            Err(e) => !has_name(envs@, name@) && e@ == (ErrorView::EnvNotFound { name: name@ }),
        },
{
    let mut i: usize = 0;
    while i < envs.len()
        invariant
            i <= envs@.len(),
            forall|j: int| 0 <= j < i ==> (#[trigger] envs@[j]).name@ != name@,
        decreases envs@.len() - i,
    {
        if str_eq(envs[i].name.as_str(), name) {
            proof {
                assert(is_first_named(envs@, name@, i as int));
            }
            return Ok(&envs[i]);
        }
        i += 1;
    }
    Err(Error::EnvNotFound { name: name.to_owned() })
}

/// After a removal no record has the removed name, and every record that is
/// left was there before.
pub proof fn lemma_remove_is_total(envs: Seq<InstalledEnv>, name: Seq<char>)
    ensures
        !has_name(without(envs, name), name),
        forall|i: int|
            0 <= i < without(envs, name).len() ==> envs.contains(#[trigger] without(envs, name)[i]),
{
    let out = without(envs, name);
    assert forall|i: int| 0 <= i < out.len() implies (#[trigger] out[i]).name@ != name
        && envs.contains(out[i]) by {
        envs.lemma_filter_pred(other_than(name), i);
        assert(out.contains(out[i]));
        envs.lemma_filter_contains_rev(other_than(name), out[i]);
    }
}

/// Removing a name that is not recorded changes nothing.
pub proof fn lemma_remove_absent(envs: Seq<InstalledEnv>, name: Seq<char>)
    requires
        !has_name(envs, name),
    ensures
        without(envs, name) == envs,
    decreases envs.len(),
{
    reveal(Seq::filter);
    if envs.len() > 0 {
        let head = envs.drop_last();
        assert forall|i: int| 0 <= i < head.len() implies (#[trigger] head[i]).name@ != name by {
            assert(envs[i].name@ != name);
        }
        lemma_remove_absent(head, name);
        assert(envs.last().name@ != name);
        assert(head.push(envs.last()) =~= envs);
    }
}

/// Removing a name twice is the same as removing it once.
pub proof fn lemma_remove_twice(envs: Seq<InstalledEnv>, name: Seq<char>)
    ensures
        without(without(envs, name), name) == without(envs, name),
{
    lemma_remove_is_total(envs, name);
    lemma_remove_absent(without(envs, name), name);
}

/// Recording under one name twice leaves one record under that name, the
/// later one, and as many records as after the first time.
pub proof fn lemma_upsert(envs: Seq<InstalledEnv>, first: InstalledEnv, second: InstalledEnv)
    requires
        first.name@ == second.name@,
    ensures
        added(added(envs, first), second) == added(envs, second),
        added(added(envs, first), second).len() == added(envs, first).len(),
        added(envs, second).last() == second,
        forall|i: int|
            0 <= i < added(envs, second).len() - 1 ==> (#[trigger] added(envs, second)[i]).name@
                != second.name@,
{
    let name = first.name@;
    let rest = without(envs, name);
    rest.lemma_filter_push(first, other_than(name));
    lemma_remove_twice(envs, name);
    lemma_remove_is_total(envs, name);
    assert forall|i: int| 0 <= i < added(envs, second).len() - 1 implies (#[trigger] added(
        envs,
        second,
    )[i]).name@ != second.name@ by {
        assert(added(envs, second)[i] == rest[i]);
        envs.lemma_filter_pred(other_than(name), i);
    }
}

/// What is left after a removal stands in the order it had: the records at
/// two positions of the result stood at two positions of the list, the
/// earlier before the later.
proof fn lemma_without_keeps_order(envs: Seq<InstalledEnv>, name: Seq<char>, a: int, b: int) -> (r: (
    int,
    int,
))
    requires
        0 <= a < b < without(envs, name).len(),
    ensures
        0 <= r.0 < r.1 < envs.len(),
        envs[r.0] == without(envs, name)[a],
        envs[r.1] == without(envs, name)[b],
    decreases envs.len(),
{
    reveal(Seq::filter);
    let out = without(envs, name);
    let head = envs.drop_last();
    let kept = without(head, name);
    if other_than(name)(envs.last()) && b == out.len() - 1 {
        assert(out == kept.push(envs.last()));
        assert(kept.contains(kept[a]));
        head.lemma_filter_contains_rev(other_than(name), kept[a]);
        let x = choose|x: int| 0 <= x < head.len() && head[x] == kept[a];
        (x, envs.len() - 1)
    } else {
        lemma_without_keeps_order(head, name, a, b)
    }
}

/// A removal keeps the names unique.
pub proof fn lemma_remove_keeps_unique(envs: Seq<InstalledEnv>, name: Seq<char>)
    requires
        names_unique(envs),
    ensures
        names_unique(without(envs, name)),
{
    let out = without(envs, name);
    assert forall|a: int, b: int| 0 <= a < b < out.len() implies (#[trigger] out[a]).name@
        != (#[trigger] out[b]).name@ by {
        let (x, y) = lemma_without_keeps_order(envs, name, a, b);
        assert(envs[x].name@ != envs[y].name@);
    }
}

/// Recording keeps the names unique.
pub proof fn lemma_add_keeps_unique(envs: Seq<InstalledEnv>, env: InstalledEnv)
    requires
        names_unique(envs),
    ensures
        names_unique(added(envs, env)),
{
    let rest = without(envs, env.name@);
    let out = added(envs, env);
    lemma_remove_keeps_unique(envs, env.name@);
    assert forall|a: int, b: int| 0 <= a < b < out.len() implies (#[trigger] out[a]).name@
        != (#[trigger] out[b]).name@ by {
        if b < rest.len() {
            assert(rest[a].name@ != rest[b].name@);
        } else {
            envs.lemma_filter_pred(other_than(env.name@), a);
        }
    }
}

} // verus!
