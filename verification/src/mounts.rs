//! The mount-ownership table: which caller IDs currently hold each
//! volume mounted.
//!
//! The table is backed by a concurrent hash map so that request
//! handlers on different worker threads can share it; the driver logic
//! reads and writes it through a small trusted surface and keeps each
//! entry free of duplicate callers.

use vstd::prelude::*;

verus! {

#[verifier::external_type_specification]
#[verifier::external_body]
#[verifier::reject_recursive_types(K)]
#[verifier::reject_recursive_types(V)]
pub struct ExCHashMap<K, V>(chashmap::CHashMap<K, V>);

/// What the concurrent map holds: the recorded owner list of each
/// volume name.
pub uninterp spec fn table_entries(m: chashmap::CHashMap<String, Vec<String>>) -> Map<
    Seq<char>,
    Seq<Seq<char>>,
>;

/// No entry under any name.
pub open spec fn empty_entries() -> Map<Seq<char>, Seq<Seq<char>>> {
    Map::empty()
}

/// Relies on `chashmap::CHashMap::new`: a fresh map holds nothing.
#[verifier::external_body]
fn chm_new() -> (r: chashmap::CHashMap<String, Vec<String>>)
    ensures
        table_entries(r) == empty_entries(),
{
    chashmap::CHashMap::new()
}

/// Relies on `chashmap::CHashMap::get`: the value stored under the
/// key, if there is one.
#[verifier::external_body]
fn chm_get(m: &chashmap::CHashMap<String, Vec<String>>, key: &String) -> (r: Option<Vec<String>>)
    ensures
        r is Some <==> table_entries(*m).contains_key(key@),
        r matches Some(v) ==> table_entries(*m)[key@] == v@.map_values(|s: String| s@),
{
    m.get(key).map(|guard| guard.clone())
}

/// Relies on `chashmap::CHashMap::insert`: stores the value under the
/// key, replacing any earlier value.
#[verifier::external_body]
fn chm_put(m: &mut chashmap::CHashMap<String, Vec<String>>, key: &String, val: Vec<String>)
    ensures
        table_entries(*final (m)) == table_entries(*old(m)).insert(
            key@,
            val@.map_values(|s: String| s@),
        ),
{
    let _ = m.insert(key.clone(), val);
}

/// The views of a vector of strings.
pub open spec fn views_of(v: Seq<String>) -> Seq<Seq<char>> {
    v.map_values(|s: String| s@)
}

proof fn lemma_push_to_set(s: Seq<Seq<char>>, x: Seq<char>)
    ensures
        s.push(x).to_set() == s.to_set().insert(x),
{
    assert forall|y: Seq<char>| s.push(x).to_set().contains(y) implies s.to_set().insert(
        x,
    ).contains(y) by {
        if y != x {
            let i = choose|i: int| 0 <= i < s.push(x).len() && s.push(x)[i] == y;
            assert(s[i] == y);
        }
    }
    assert forall|y: Seq<char>| s.to_set().insert(x).contains(y) implies s.push(x).to_set().contains(
        y,
    ) by {
        if y == x {
            assert(s.push(x)[s.len() as int] == x);
        } else {
            let i = choose|i: int| 0 <= i < s.len() && s[i] == y;
            assert(s.push(x)[i] == y);
        }
    }
    assert(s.push(x).to_set() =~= s.to_set().insert(x));
}

proof fn lemma_push_no_dup(s: Seq<Seq<char>>, x: Seq<char>)
    requires
        s.no_duplicates(),
        !s.contains(x),
    ensures
        s.push(x).no_duplicates(),
{
    let t = s.push(x);
    assert forall|i: int, j: int| 0 <= i < t.len() && 0 <= j < t.len() && i != j implies t[i]
        != t[j] by {
        if i < s.len() && j < s.len() {
            assert(s[i] != s[j]);
        } else if i < s.len() && j == s.len() {
            assert(t[j] == x && t[i] == s[i]);
            assert(!s.contains(x));
        } else if j < s.len() && i == s.len() {
            assert(t[i] == x && t[j] == s[j]);
            assert(!s.contains(x));
        }
    }
}

/// Volume name to the set of caller IDs holding it mounted.
pub struct MountTable {
    inner: chashmap::CHashMap<String, Vec<String>>,
}

impl MountTable {
    /// The stored entries, as owner lists.
    pub closed spec fn entries(&self) -> Map<Seq<char>, Seq<Seq<char>>> {
        table_entries(self.inner)
    }

    /// The ownership set recorded for a name; empty when the name has
    /// no entry.
    pub closed spec fn owners(&self, name: Seq<char>) -> Set<Seq<char>> {
        if self.entries().contains_key(name) {
            self.entries()[name].to_set()
        } else {
            Set::<Seq<char>>::empty()
        }
    }

    /// Every entry lists each caller at most once.
    pub closed spec fn wf(&self) -> bool {
        forall|n: Seq<char>|
            self.entries().contains_key(n) ==> (#[trigger] self.entries()[n]).no_duplicates()
    }

    /// An empty table.
    pub fn new() -> (t: MountTable)
        ensures
            t.wf(),
            forall|n: Seq<char>| #[trigger] t.owners(n) == Set::<Seq<char>>::empty(),
    {
        let t = MountTable { inner: chm_new() };
        proof {
            assert forall|n: Seq<char>| #[trigger] t.owners(n) == Set::<Seq<char>>::empty() by {}
        }
        t
    }

    /// The owner list currently recorded for `name` (in no promised
    /// order, without duplicates); empty when nobody holds it.
    pub fn owners_list(&self, name: &String) -> (r: Vec<String>)
        requires
            self.wf(),
        ensures
            views_of(r@).to_set() == self.owners(name@),
            views_of(r@).no_duplicates(),
    {
        match chm_get(&self.inner, name) {
            Some(v) => {
                proof {
                    assert(views_of(v@).to_set() =~= self.owners(name@));
                }
                v
            },
            None => {
                let r: Vec<String> = Vec::new();
                proof {
                    assert(views_of(r@).to_set() =~= self.owners(name@));
                }
                r
            },
        }
    }

    /// Whether no caller currently holds `name`.
    pub fn is_empty(&self, name: &String) -> (r: bool)
        requires
            self.wf(),
        ensures
            r == self.owners(name@).is_empty(),
    {
        match chm_get(&self.inner, name) {
            Some(v) => {
                let empty = v.len() == 0;
                proof {
                    let vs = views_of(v@);
                    if v@.len() == 0 {
                        assert(vs.to_set() =~= Set::<Seq<char>>::empty());
                    } else {
                        assert(vs.to_set().contains(vs[0]));
                        assert(!vs.to_set().is_empty());
                    }
                }
                empty
            },
            None => {
                proof {
                    assert(self.owners(name@).is_empty());
                }
                true
            },
        }
    }

    /// Record `caller` as an owner of `name`; recording the same
    /// caller twice changes nothing.
    pub fn add(&mut self, name: &String, caller: &String)
        requires
            old(self).wf(),
        ensures
            final (self).wf(),
            final (self).owners(name@) == old(self).owners(name@).insert(caller@),
            forall|n: Seq<char>|
                n != name@ ==> #[trigger] final (self).owners(n) == old(self).owners(n),
    {
        let ghost before = self.owners(name@);
        let mut owners: Vec<String> = match chm_get(&self.inner, name) {
            Some(v) => v,
            None => Vec::new(),
        };
        proof {
            assert(views_of(owners@).to_set() =~= before);
            assert(views_of(owners@).no_duplicates());
        }
        let ghost vs0 = views_of(owners@);
        let mut found = false;
        let n = owners.len();
        let mut i: usize = 0;
        while i < n
            invariant
                i <= n,
                n == owners@.len(),
                found == exists|k: int| 0 <= k < i && views_of(owners@)[k] == caller@,
            decreases n - i,
        {
            if owners[i] == *caller {
                found = true;
                proof {
                    assert(views_of(owners@)[i as int] == caller@);
                }
            }
            i += 1;
        }
        proof {
            if found {
                let k = choose|k: int| 0 <= k < n && views_of(owners@)[k] == caller@;
                assert(views_of(owners@).contains(caller@));
            } else {
                assert(forall|k: int| 0 <= k < views_of(owners@).len() ==> views_of(owners@)[k]
                    != caller@);
                assert(!views_of(owners@).contains(caller@));
            }
        }
        if !found {
            owners.push(caller.clone());
            proof {
                assert(views_of(owners@) =~= vs0.push(caller@));
                lemma_push_to_set(vs0, caller@);
                lemma_push_no_dup(vs0, caller@);
            }
        } else {
            proof {
                assert(vs0.to_set().insert(caller@) =~= vs0.to_set());
            }
        }
        proof {
            assert(views_of(owners@).to_set() =~= before.insert(caller@));
            assert(views_of(owners@).no_duplicates());
        }
        chm_put(&mut self.inner, name, owners);
        proof {
            assert(final (self).owners(name@) =~= before.insert(caller@));
            assert forall|nm: Seq<char>| nm != name@ implies #[trigger] final (self).owners(nm)
                == old(self).owners(nm) by {}
        }
    }

    /// Drop `caller` from the ownership set of `name`; a caller that
    /// never mounted is not there to begin with.
    pub fn remove(&mut self, name: &String, caller: &String)
        requires
            old(self).wf(),
        ensures
            final (self).wf(),
            final (self).owners(name@) == old(self).owners(name@).remove(caller@),
            forall|n: Seq<char>|
                n != name@ ==> #[trigger] final (self).owners(n) == old(self).owners(n),
    {
        let ghost before = self.owners(name@);
        let current: Vec<String> = match chm_get(&self.inner, name) {
            Some(v) => v,
            None => {
                proof {
                    assert(before.remove(caller@) =~= before);
                    assert(final (self).owners(name@) =~= before.remove(caller@));
                }
                return ;
            },
        };
        proof {
            assert(views_of(current@).to_set() =~= before);
            assert(views_of(current@).no_duplicates());
        }
        let ghost vs0 = views_of(current@);
        let mut kept: Vec<String> = Vec::new();
        let n = current.len();
        let mut i: usize = 0;
        while i < n
            invariant
                i <= n,
                n == current@.len(),
                vs0 == views_of(current@),
                vs0.no_duplicates(),
                views_of(kept@).no_duplicates(),
                forall|y: Seq<char>|
                    #[trigger] views_of(kept@).contains(y) <==> (vs0.take(i as int).contains(y) && y
                        != caller@),
            decreases n - i,
        {
            let ghost kept_before = views_of(kept@);
            proof {
                assert(vs0.take(i + 1) =~= vs0.take(i as int).push(vs0[i as int]));
            }
            if !(current[i] == *caller) {
                let item = current[i].clone();
                proof {
                    assert(item@ == vs0[i as int]);
                    if views_of(kept@).contains(item@) {
                        assert(vs0.take(i as int).contains(item@));
                        let k = choose|k: int|
                            0 <= k < i && #[trigger] vs0.take(i as int)[k] == item@;
                        assert(vs0[k] == vs0[i as int]);
                        assert(false);
                    }
                }
                kept.push(item);
                proof {
                    assert(views_of(kept@) =~= kept_before.push(vs0[i as int]));
                    lemma_push_no_dup(kept_before, vs0[i as int]);
                    assert forall|y: Seq<char>| #[trigger] views_of(kept@).contains(y) implies (
                    vs0.take(i + 1).contains(y) && y != caller@) by {
                        lemma_push_contains(kept_before, vs0[i as int], y);
                        lemma_push_contains(vs0.take(i as int), vs0[i as int], y);
                    }
                    assert forall|y: Seq<char>|
                        vs0.take(i + 1).contains(y) && y != caller@ implies #[trigger] views_of(
                        kept@).contains(y) by {
                        lemma_push_contains(kept_before, vs0[i as int], y);
                        lemma_push_contains(vs0.take(i as int), vs0[i as int], y);
                    }
                }
            } else {
                proof {
                    assert(vs0[i as int] == caller@);
                    assert forall|y: Seq<char>| #[trigger] views_of(kept@).contains(y) implies (
                    vs0.take(i + 1).contains(y) && y != caller@) by {
                        lemma_push_contains(vs0.take(i as int), vs0[i as int], y);
                    }
                    assert forall|y: Seq<char>|
                        vs0.take(i + 1).contains(y) && y != caller@ implies #[trigger] views_of(
                        kept@).contains(y) by {
                        lemma_push_contains(vs0.take(i as int), vs0[i as int], y);
                    }
                }
            }
            i += 1;
        }
        proof {
            assert(vs0.take(n as int) =~= vs0);
            assert(views_of(kept@).to_set() =~= before.remove(caller@));
        }
        chm_put(&mut self.inner, name, kept);
        proof {
            assert(final (self).owners(name@) =~= before.remove(caller@));
            assert forall|nm: Seq<char>| nm != name@ implies #[trigger] final (self).owners(nm)
                == old(self).owners(nm) by {}
        }
    }
}

/// A pushed sequence contains exactly the old elements and the new
/// one.
proof fn lemma_push_contains(s: Seq<Seq<char>>, x: Seq<char>, y: Seq<char>)
    ensures
        s.push(x).contains(y) <==> (s.contains(y) || y == x),
{
    if s.push(x).contains(y) {
        let i = choose|i: int| 0 <= i < s.push(x).len() && s.push(x)[i] == y;
        if i < s.len() {
            assert(s[i] == y);
        }
    }
    if s.contains(y) {
        let i = choose|i: int| 0 <= i < s.len() && s[i] == y;
        assert(s.push(x)[i] == y);
    }
    if y == x {
        assert(s.push(x)[s.len() as int] == y);
    }
}

} // verus!
