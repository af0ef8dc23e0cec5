//! The process-wide atom registry: a bijection between 32-bit ids and names.

use vstd::prelude::*;

verus! {

/// The first id handed out to a name that is not predefined.
pub const FIRST_DYNAMIC_ATOM: u32 = 128;

/// The predefined id of the resource-manager atom.
pub const RESOURCE_MANAGER_ATOM: u32 = 23;

/// The mathematical content of an atom table: its (id, name) pairs in order
/// of registration, and the id the next new name will get.
pub ghost struct AtomsView {
    pub entries: Seq<(u32, Seq<char>)>,
    pub next: u32,
}

impl AtomsView {
    /// `id` is registered under `name`.
    pub open spec fn resolves(self, id: u32, name: Seq<char>) -> bool {
        exists|i: int| 0 <= i < self.entries.len() && #[trigger] self.entries[i] == (id, name)
    }

    /// Some id is registered under `name`.
    pub open spec fn has_name(self, name: Seq<char>) -> bool {
        exists|i: int| 0 <= i < self.entries.len() && #[trigger] self.entries[i].1 == name
    }

    /// The id registered under `name`, if there is one.
    pub open spec fn id_of(self, name: Seq<char>) -> Option<u32> {
        if self.has_name(name) {
            let i = choose|i: int| 0 <= i < self.entries.len() && #[trigger] self.entries[i].1 == name;
            Some(self.entries[i].0)
        } else {
            None
        }
    }

    /// The table is a bijection, every id is nonzero and below `next`, and the
    /// resource-manager atom is present.
    pub open spec fn wf(self) -> bool {
        &&& self.next >= FIRST_DYNAMIC_ATOM
        &&& forall|i: int, j: int|
            #![trigger self.entries[i], self.entries[j]]
            0 <= i < self.entries.len() && 0 <= j < self.entries.len() && i != j ==> {
                &&& self.entries[i].0 != self.entries[j].0
                &&& self.entries[i].1 != self.entries[j].1
            }
        &&& forall|i: int|
            0 <= i < self.entries.len() ==> 0 < #[trigger] self.entries[i].0 < self.next
        &&& self.resolves(RESOURCE_MANAGER_ATOM, "RESOURCE_MANAGER"@)
    }

    /// Interning `name`: its id if it is registered; else `0` when only an
    /// existing atom is wanted or the ids are used up; else the next id,
    /// which is registered under `name`.
    pub open spec fn intern(self, name: Seq<char>, only_if_exists: bool) -> (AtomsView, u32) {
        match self.id_of(name) {
            Some(id) => (self, id),
            None => if only_if_exists || self.next == u32::MAX {
                (self, 0)
            } else {
                (AtomsView { entries: self.entries.push((self.next, name)), next: (self.next + 1) as u32 }, self.next)
            },
        }
    }
}

/// The atom registry shared by every session.
///
/// The pairs are kept in a vector in registration order rather than in a map
/// keyed by id: interning looks a name up, which a map keyed by id would
/// also answer only by visiting every entry, and the bijection between ids
/// and names is stated most directly over the pairs themselves.
pub struct AtomTable {
    entries: Vec<(u32, String)>,
    next_atom: u32,
}

impl View for AtomTable {
    type V = AtomsView;

    closed spec fn view(&self) -> AtomsView {
        AtomsView {
            entries: self.entries@.map_values(|e: (u32, String)| (e.0, e.1@)),
            next: self.next_atom,
        }
    }
}

/// A registry holding the predefined atoms, with `128` as the next id.
pub fn init_atoms() -> (r: AtomTable)
    ensures
        r@.wf(),
        r@.entries == seq![(RESOURCE_MANAGER_ATOM, "RESOURCE_MANAGER"@)],
        r@.next == FIRST_DYNAMIC_ATOM,
{
    let mut entries: Vec<(u32, String)> = Vec::new();
    entries.push((RESOURCE_MANAGER_ATOM, "RESOURCE_MANAGER".to_owned()));
    let r = AtomTable { entries, next_atom: FIRST_DYNAMIC_ATOM };
    assert(r@.entries =~= seq![(RESOURCE_MANAGER_ATOM, "RESOURCE_MANAGER"@)]);
    assert(r@.entries[0] == (RESOURCE_MANAGER_ATOM, "RESOURCE_MANAGER"@));
    r
}

/// Looks `name` up, and registers it under the next id unless it is
/// registered already or only an existing atom is wanted. Returns its id,
/// or `0` where no id is given.
pub fn get_atom(atoms: &mut AtomTable, only_if_exists: bool, name: String) -> (r: u32)
    requires
        old(atoms)@.wf(),
    ensures
        final(atoms)@.wf(),
        (final(atoms)@, r) == old(atoms)@.intern(name@, only_if_exists),
{
    let ghost v = atoms@;
    let n = atoms.entries.len();
    let mut i: usize = 0;
    while i < n
        invariant
            n == atoms.entries@.len(),
            i <= n,
            atoms@ == v,
            v.wf(),
            forall|j: int| 0 <= j < i ==> #[trigger] v.entries[j].1 != name@,
        decreases n - i,
    {
        if atoms.entries[i].1 == name {
            let id = atoms.entries[i].0;
            proof {
                assert(v.entries[i as int].1 == name@);
                assert(v.has_name(name@));
                let k = choose|k: int| 0 <= k < v.entries.len() && #[trigger] v.entries[k].1 == name@;
                assert(k == i);
            }
            return id;
        }
        i = i + 1;
    }
    assert(!v.has_name(name@));
    if only_if_exists || atoms.next_atom == u32::MAX {
        return 0;
    }
    let id = atoms.next_atom;
    atoms.entries.push((id, name));
    atoms.next_atom = id + 1;
    proof {
        let w = atoms@;
        assert(w.entries =~= v.entries.push((id, name@)));
        assert(w.entries[v.entries.len() as int] == (id, name@));
        let rm = choose|k: int|
            0 <= k < v.entries.len() && #[trigger] v.entries[k] == (RESOURCE_MANAGER_ATOM, "RESOURCE_MANAGER"@);
        assert(w.entries[rm] == v.entries[rm]);
    }
    id
}

/// Registers `atom` under the next id unless it is registered already.
pub fn register_atom(atoms: &mut AtomTable, atom: String)
    requires
        old(atoms)@.wf(),
    ensures
        final(atoms)@.wf(),
        final(atoms)@ == old(atoms)@.intern(atom@, false).0,
{
    let _ = get_atom(atoms, false, atom);
}

impl AtomTable {
    /// The name registered under `id`, if any.
    pub fn atom_name(&self, id: u32) -> (r: Option<String>)
        requires
            self@.wf(),
        ensures
            match r {
                Some(s) => self@.resolves(id, s@),
                None => forall|i: int| 0 <= i < self@.entries.len() ==> #[trigger] self@.entries[i].0 != id,
            },
    {
        let n = self.entries.len();
        let mut i: usize = 0;
        while i < n
            invariant
                n == self.entries@.len(),
                i <= n,
                forall|j: int| 0 <= j < i ==> #[trigger] self@.entries[j].0 != id,
            decreases n - i,
        {
            if self.entries[i].0 == id {
                let s = self.entries[i].1.clone();
                assert(self@.entries[i as int] == (id, s@));
                return Some(s);
            }
            i = i + 1;
        }
        None
    }
}

/// Interning keeps the table well formed and every pair it held.
pub proof fn lemma_intern_keeps_entries(t: AtomsView, name: Seq<char>, only_if_exists: bool)
    requires
        t.wf(),
    ensures
        t.intern(name, only_if_exists).0.wf(),
        forall|id: u32, s: Seq<char>| t.resolves(id, s) ==> #[trigger] t.intern(name, only_if_exists).0.resolves(id, s),
{
    let u = t.intern(name, only_if_exists).0;
    if t.id_of(name).is_none() && !only_if_exists && t.next != u32::MAX {
        assert forall|id: u32, s: Seq<char>| t.resolves(id, s) implies #[trigger] u.resolves(id, s) by {
            let k = choose|k: int| 0 <= k < t.entries.len() && #[trigger] t.entries[k] == (id, s);
            assert(u.entries[k] == t.entries[k]);
        }
        assert(u.entries[t.entries.len() as int] == (t.next, name));
        assert forall|i: int, j: int|
            #![trigger u.entries[i], u.entries[j]]
            0 <= i < u.entries.len() && 0 <= j < u.entries.len() && i != j implies {
                &&& u.entries[i].0 != u.entries[j].0
                &&& u.entries[i].1 != u.entries[j].1
            } by {
            if i == t.entries.len() {
                assert(!(t.entries[j].1 == name && t.has_name(name)) ==> t.entries[j].1 != name);
            } else if j == t.entries.len() {
                assert(!(t.entries[i].1 == name && t.has_name(name)) ==> t.entries[i].1 != name);
            }
        }
        let rm = choose|k: int|
            0 <= k < t.entries.len() && #[trigger] t.entries[k] == (RESOURCE_MANAGER_ATOM, "RESOURCE_MANAGER"@);
        assert(u.entries[rm] == t.entries[rm]);
    }
}

/// Interning a name twice gives the same id both times, and the second call
/// leaves the table as the first one left it. The id is nonzero where the
/// name was registered, or where it may be registered and ids remain.
pub proof fn lemma_intern_idempotent(t: AtomsView, name: Seq<char>, only_if_exists: bool)
    requires
        t.wf(),
    ensures
        ({
            let (t1, a) = t.intern(name, only_if_exists);
            let (t2, b) = t1.intern(name, only_if_exists);
            &&& a == b
            &&& t2 == t1
            &&& (t.has_name(name) || (!only_if_exists && t.next < u32::MAX)) ==> a != 0
        }),
{
    let (t1, a) = t.intern(name, only_if_exists);
    lemma_intern_keeps_entries(t, name, only_if_exists);
    if t.has_name(name) {
        let k = choose|k: int| 0 <= k < t.entries.len() && #[trigger] t.entries[k].1 == name;
        assert(t.entries[k].0 != 0);
    }
    if t.id_of(name).is_none() && !only_if_exists && t.next != u32::MAX {
        let last = t.entries.len() as int;
        assert(t1.entries[last].1 == name);
        assert(t1.has_name(name));
        let k = choose|k: int| 0 <= k < t1.entries.len() && #[trigger] t1.entries[k].1 == name;
        assert(k == last);
    }
}

/// Asking only for an existing atom under a name never registered gives `0`
/// and leaves the table unchanged.
pub proof fn lemma_only_if_exists_unseen(t: AtomsView, name: Seq<char>)
    requires
        t.wf(),
        !t.has_name(name),
    ensures
        t.intern(name, true) == (t, 0u32),
{
}

/// Whatever is interned into an initialized table, id 23 still resolves to
/// `"RESOURCE_MANAGER"`.
pub proof fn lemma_resource_manager_kept(t: AtomsView, name: Seq<char>, only_if_exists: bool)
    requires
        t.wf(),
    ensures
        t.intern(name, only_if_exists).0.resolves(RESOURCE_MANAGER_ATOM, "RESOURCE_MANAGER"@),
{
    lemma_intern_keeps_entries(t, name, only_if_exists);
}

/// In a well-formed table an id and a name that resolve to each other are
/// what `id_of` finds, and two names that resolve to one id are the same.
pub proof fn lemma_resolves_unique(t: AtomsView, id: u32, name: Seq<char>)
    requires
        t.wf(),
        t.resolves(id, name),
    ensures
        t.id_of(name) == Some(id),
        forall|other: Seq<char>| #[trigger] t.resolves(id, other) ==> other == name,
{
    let k = choose|k: int| 0 <= k < t.entries.len() && #[trigger] t.entries[k] == (id, name);
    assert(t.entries[k].1 == name);
    assert(t.has_name(name));
    let j = choose|j: int| 0 <= j < t.entries.len() && #[trigger] t.entries[j].1 == name;
    assert(j == k);
    assert forall|other: Seq<char>| #[trigger] t.resolves(id, other) implies other == name by {
        let m = choose|m: int| 0 <= m < t.entries.len() && #[trigger] t.entries[m] == (id, other);
        assert(m == k);
    }
}

/// A nonzero id returned by interning resolves to the name in the new table.
pub proof fn lemma_intern_resolves(t: AtomsView, name: Seq<char>, only_if_exists: bool)
    requires
        t.wf(),
    ensures
        t.intern(name, only_if_exists).1 != 0 ==> t.intern(name, only_if_exists).0.resolves(
            t.intern(name, only_if_exists).1,
            name,
        ),
{
    let (u, id) = t.intern(name, only_if_exists);
    if id != 0 {
        if t.has_name(name) {
            let k = choose|k: int| 0 <= k < t.entries.len() && #[trigger] t.entries[k].1 == name;
            assert(t.entries[k] == (id, name));
        } else {
            assert(u.entries[t.entries.len() as int] == (id, name));
        }
    }
}

/// The tables and ids that interning `names`, in order and never only for
/// an existing atom, leads to.
pub open spec fn intern_all(t: AtomsView, names: Seq<Seq<char>>) -> (AtomsView, Seq<u32>)
    decreases names.len(),
{
    if names.len() == 0 {
        (t, Seq::empty())
    } else {
        let (u, ids) = intern_all(t, names.drop_last());
        let (w, id) = u.intern(names.last(), false);
        (w, ids.push(id))
    }
}

/// Sessions that share the registry intern names one call at a time, in
/// some order. Whatever the order: each nonzero id handed out still
/// resolves to its name, different names never share an id, and a name
/// asked for again gets the id it got before.
pub proof fn lemma_intern_all(t: AtomsView, names: Seq<Seq<char>>)
    requires
        t.wf(),
    ensures
        ({
            let (u, ids) = intern_all(t, names);
            &&& u.wf()
            &&& ids.len() == names.len()
            &&& forall|i: int| 0 <= i < ids.len() && ids[i] != 0 ==> u.resolves(#[trigger] ids[i], names[i])
            &&& forall|i: int, j: int|
                0 <= i < ids.len() && 0 <= j < ids.len() && #[trigger] ids[i] != 0 && #[trigger] ids[j] != 0
                    && names[i] != names[j] ==> ids[i] != ids[j]
            &&& forall|i: int, j: int|
                0 <= i < j < ids.len() && #[trigger] names[i] == #[trigger] names[j] && ids[i] != 0 ==> ids[j]
                    == ids[i]
        }),
    decreases names.len(),
{
    let (w, all) = intern_all(t, names);
    if names.len() > 0 {
        let prev = names.drop_last();
        let (u, ids) = intern_all(t, prev);
        lemma_intern_all(t, prev);
        let n = names.last();
        let last = ids.len() as int;
        lemma_intern_keeps_entries(u, n, false);
        lemma_intern_resolves(u, n, false);
        assert(all == ids.push(u.intern(n, false).1));
        assert forall|i: int| 0 <= i < all.len() && all[i] != 0 implies w.resolves(#[trigger] all[i], names[i]) by {
            if i < last {
                assert(all[i] == ids[i] && names[i] == prev[i]);
                assert(u.resolves(ids[i], prev[i]));
            }
        }
        assert forall|i: int, j: int|
            0 <= i < all.len() && 0 <= j < all.len() && #[trigger] all[i] != 0 && #[trigger] all[j] != 0
                && names[i] != names[j] implies all[i] != all[j] by {
            assert(w.resolves(all[i], names[i]));
            assert(w.resolves(all[j], names[j]));
            if all[i] == all[j] {
                lemma_resolves_unique(w, all[i], names[i]);
            }
        }
        assert forall|i: int, j: int|
            0 <= i < j < all.len() && #[trigger] names[i] == #[trigger] names[j] && all[i] != 0 implies all[j]
                == all[i] by {
            assert(all[i] == ids[i] && names[i] == prev[i]);
            if j < last {
                assert(all[j] == ids[j] && names[j] == prev[j]);
            } else {
                assert(u.resolves(ids[i], prev[i]));
                lemma_resolves_unique(u, ids[i], prev[i]);
            }
        }
    }
}

/// Interning `n` distinct names that are not registered, while ids remain
/// for all of them, gives them the ids `next`, `next + 1`, ... in order,
/// adds exactly those pairs, and advances `next` by `n`.
pub proof fn lemma_intern_fresh_names(t: AtomsView, names: Seq<Seq<char>>)
    requires
        t.wf(),
        forall|i: int, j: int| 0 <= i < j < names.len() ==> names[i] != names[j],
        forall|i: int| 0 <= i < names.len() ==> !t.has_name(#[trigger] names[i]),
        t.next + names.len() <= u32::MAX,
    ensures
        ({
            let (u, ids) = intern_all(t, names);
            &&& u.next == t.next + names.len()
            &&& ids.len() == names.len()
            &&& forall|i: int| 0 <= i < ids.len() ==> #[trigger] ids[i] == t.next + i
            &&& forall|i: int| 0 <= i < ids.len() ==> #[trigger] ids[i] >= FIRST_DYNAMIC_ATOM
            &&& u.entries == t.entries + Seq::new(names.len(), |i: int| ((t.next + i) as u32, names[i]))
        }),
    decreases names.len(),
{
    if names.len() > 0 {
        let prev = names.drop_last();
        assert forall|i: int| 0 <= i < prev.len() implies !t.has_name(#[trigger] prev[i]) by {
            assert(prev[i] == names[i]);
        }
        lemma_intern_fresh_names(t, prev);
        lemma_intern_all(t, prev);
        let (u, ids) = intern_all(t, prev);
        let n = names.last();
        let last = prev.len() as int;
        assert(!u.has_name(n)) by {
            if u.has_name(n) {
                let k = choose|k: int| 0 <= k < u.entries.len() && #[trigger] u.entries[k].1 == n;
                if k < t.entries.len() {
                    assert(u.entries[k] == t.entries[k]);
                    assert(t.has_name(names[last]));
                } else {
                    let m = k - t.entries.len();
                    assert(u.entries[k] == ((t.next + m) as u32, prev[m]));
                    assert(prev[m] == names[m]);
                }
            }
        }
        let (w, all) = intern_all(t, names);
        assert(all == ids.push(u.next));
        assert(w.entries =~= t.entries + Seq::new(names.len(), |i: int| ((t.next + i) as u32, names[i])));
    }
}

} // verus!
