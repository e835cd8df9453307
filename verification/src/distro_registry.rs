//! The catalog: its distributions, the lookup of one by identifier, and the
//! check that identifiers are unique.

use vstd::prelude::*;
use crate::error::{Error, ErrorView};
use crate::hash::outcome_view;
use crate::models::{DistributionsIndex, Distro, DistroVersion};
use crate::text::str_eq;

verus! {

/// The distributions of the catalog, in catalog order.
pub fn list_distros(index: &DistributionsIndex) -> (r: Vec<&Distro>)
    ensures
        r@ == index.distributions@.as_ref(),
{
    let mut r: Vec<&Distro> = Vec::new();
    let mut i: usize = 0;
    while i < index.distributions.len()
        invariant
            i <= index.distributions@.len(),
            r@ == index.distributions@.take(i as int).as_ref(),
        decreases index.distributions@.len() - i,
    {
        r.push(&index.distributions[i]);
        proof {
            assert(r@ =~= index.distributions@.take(i + 1).as_ref());
        }
        i += 1;
    }
    proof {
        assert(index.distributions@.take(i as int) == index.distributions@);
    }
    r
}

/// Whether `i` is the first position of `distros` that holds the
/// identifier `id`.
pub open spec fn is_first_with_id(distros: Seq<Distro>, id: Seq<char>, i: int) -> bool {
    &&& 0 <= i < distros.len()
    &&& distros[i].id@ == id
    &&& forall|j: int| 0 <= j < i ==> (#[trigger] distros[j]).id@ != id
}

/// The distribution with the identifier `id`: the first one in catalog
/// order, or nothing if the catalog has none.
pub fn get_distro<'a>(index: &'a DistributionsIndex, id: &str) -> (r: Option<&'a Distro>)
    ensures
        match r {
            Some(d) => exists|i: int| #[trigger]
                is_first_with_id(index.distributions@, id@, i) && *d == index.distributions@[i],
            None => forall|i: int|
                0 <= i < index.distributions@.len() ==> (#[trigger] index.distributions@[i]).id@
                    != id@,
        },
{
    let mut i: usize = 0;
    while i < index.distributions.len()
        invariant
            i <= index.distributions@.len(),
            forall|j: int| 0 <= j < i ==> (#[trigger] index.distributions@[j]).id@ != id@,
        decreases index.distributions@.len() - i,
    {
        if str_eq(index.distributions[i].id.as_str(), id) {
            proof {
                assert(is_first_with_id(index.distributions@, id@, i as int));
            }
            return Some(&index.distributions[i]);
        }
        i += 1;
    }
    None
}

/// The versions of a distribution, in catalog order.
pub fn get_versions(distro: &Distro) -> (r: Vec<&DistroVersion>)
    ensures
        r@ == distro.versions@.as_ref(),
{
    let mut r: Vec<&DistroVersion> = Vec::new();
    let mut i: usize = 0;
    while i < distro.versions.len()
        invariant
            i <= distro.versions@.len(),
            r@ == distro.versions@.take(i as int).as_ref(),
        decreases distro.versions@.len() - i,
    {
        r.push(&distro.versions[i]);
        proof {
            assert(r@ =~= distro.versions@.take(i + 1).as_ref());
        }
        i += 1;
    }
    proof {
        assert(distro.versions@.take(i as int) == distro.versions@);
    }
    r
}

/// Whether no two distributions share an identifier.
pub open spec fn ids_unique(distros: Seq<Distro>) -> bool {
    forall|i: int, j: int|
        0 <= i < j < distros.len() ==> (#[trigger] distros[i]).id@ != (#[trigger] distros[j]).id@
}

/// Whether the distribution at `j` repeats the identifier of an earlier one.
pub open spec fn repeats_earlier(distros: Seq<Distro>, j: int) -> bool {
    exists|i: int| 0 <= i < j && (#[trigger] distros[i]).id@ == distros[j].id@
}

/// Whether `j` is the first position whose identifier occurred before.
pub open spec fn is_first_repeat(distros: Seq<Distro>, j: int) -> bool {
    &&& 0 <= j < distros.len()
    &&& repeats_earlier(distros, j)
    &&& ids_unique(distros.take(j))
}

/// What the check of a catalog yields: nothing to object to when the
/// identifiers are unique, else the first identifier that repeats.
pub open spec fn validated(distros: Seq<Distro>, r: Result<(), ErrorView>) -> bool {
    match r {
        Ok(()) => ids_unique(distros),
        Err(e) => exists|j: int| #[trigger]
            is_first_repeat(distros, j) && e == (ErrorView::DuplicateDistro { id: distros[j].id@ }),
    }
}

/// Tells whether an earlier distribution has the identifier of the one at
/// `j`.
fn seen_before(distros: &Vec<Distro>, j: usize) -> (r: bool)
    requires
        j < distros@.len(),
    ensures
        r == repeats_earlier(distros@, j as int),
{
    let mut i: usize = 0;
    while i < j
        invariant
            i <= j < distros@.len(),
            forall|k: int| 0 <= k < i ==> (#[trigger] distros@[k]).id@ != distros@[j as int].id@,
        decreases j - i,
    {
        if str_eq(distros[i].id.as_str(), distros[j].id.as_str()) {
            return true;
        }
        i += 1;
    }
    false
}

/// Checks a catalog that was just loaded: the identifiers of its
/// distributions must be unique.
pub fn validate(index: &DistributionsIndex) -> (r: Result<(), Error>)
    ensures
        validated(index.distributions@, outcome_view(r)),
{
    let mut j: usize = 0;
    while j < index.distributions.len()
        invariant
            j <= index.distributions@.len(),
            ids_unique(index.distributions@.take(j as int)),
        decreases index.distributions@.len() - j,
    {
        if seen_before(&index.distributions, j) {
            proof {
                assert(is_first_repeat(index.distributions@, j as int));
            }
            return Err(Error::DuplicateDistro { id: index.distributions[j].id.clone() });
        }
        proof {
            let s = index.distributions@;
            assert forall|a: int, b: int| 0 <= a < b < j + 1 implies (#[trigger] s.take(j + 1)[a]).id@
                != (#[trigger] s.take(j + 1)[b]).id@ by {
                if b < j {
                    assert(s.take(j as int)[a].id@ != s.take(j as int)[b].id@);
                } else {
                    assert(s[a].id@ != s[j as int].id@);
                }
            }
        }
        j += 1;
    }
    proof {
        assert(index.distributions@.take(j as int) == index.distributions@);
    }
    Ok(())
}

} // verus!
