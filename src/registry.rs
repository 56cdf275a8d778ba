use vstd::prelude::*;

use crate::runtime::{InstanceRuntime, Release, RuntimeView};

verus! {

/// One registered instance: its identifier and the handles it owns.
struct InstanceEntry {
    id: String,
    runtime: InstanceRuntime,
}

/// The instances of the bridge, keyed by host-chosen identifiers.
pub struct Registry {
    entries: Vec<InstanceEntry>,
    model: Ghost<Map<Seq<char>, RuntimeView>>,
}

impl View for Registry {
    type V = Map<Seq<char>, RuntimeView>;

    closed spec fn view(&self) -> Map<Seq<char>, RuntimeView> {
        self.model@
    }
}

/// Nothing but the instance `id` differs between the two registries.
pub open spec fn only_instance_changed(
    before: Map<Seq<char>, RuntimeView>,
    after: Map<Seq<char>, RuntimeView>,
    id: Seq<char>,
) -> bool {
    after.remove(id) == before.remove(id)
}

/// The registry after a creation request for `id`.
pub open spec fn after_create(m: Map<Seq<char>, RuntimeView>, id: Seq<char>) -> Map<
    Seq<char>,
    RuntimeView,
> {
    if m.contains_key(id) {
        m
    } else {
        m.insert(id, RuntimeView::empty())
    }
}

/// Creating an instance that exists changes nothing, so creating twice is
/// the same as creating once; destroying an instance that does not exist
/// changes nothing either.
pub proof fn create_and_destroy_are_idempotent(m: Map<Seq<char>, RuntimeView>, id: Seq<char>)
    ensures
        m.contains_key(id) ==> after_create(m, id) == m,
        after_create(after_create(m, id), id) == after_create(m, id),
        after_create(m, id).contains_key(id),
        !m.contains_key(id) ==> m.remove(id) == m,
        m.remove(id).remove(id) == m.remove(id),
{
    assert(m.remove(id).remove(id) =~= m.remove(id));
    if !m.contains_key(id) {
        assert(m.remove(id) =~= m);
    }
}

/// A step that only changes instance `a` leaves every other instance `b`,
/// its presence and all its handles, exactly as it was.
pub proof fn other_instances_untouched(
    before: Map<Seq<char>, RuntimeView>,
    after: Map<Seq<char>, RuntimeView>,
    a: Seq<char>,
    b: Seq<char>,
)
    requires
        only_instance_changed(before, after, a),
        a != b,
    ensures
        after.contains_key(b) == before.contains_key(b),
        before.contains_key(b) ==> after[b] == before[b],
{
    assert(after.remove(a).contains_key(b) == after.contains_key(b));
    assert(before.remove(a).contains_key(b) == before.contains_key(b));
    if before.contains_key(b) {
        assert(after.remove(a)[b] == after[b]);
        assert(before.remove(a)[b] == before[b]);
    }
}

/// Every registry step is a creation, a removal or a replacement of the one
/// instance it is about, or no change: each changes only that instance.
pub proof fn registry_steps_change_one_instance(
    m: Map<Seq<char>, RuntimeView>,
    id: Seq<char>,
    v: RuntimeView,
)
    ensures
        only_instance_changed(m, m, id),
        only_instance_changed(m, after_create(m, id), id),
        only_instance_changed(m, m.insert(id, v), id),
        only_instance_changed(m, m.remove(id), id),
{
    assert(m.insert(id, v).remove(id) =~= m.remove(id));
    assert(m.remove(id).remove(id) =~= m.remove(id));
    assert(m.insert(id, RuntimeView::empty()).remove(id) =~= m.remove(id));
}

impl Registry {
    pub closed spec fn wf(&self) -> bool {
        &&& forall|i: int|
            #![trigger self.entries@[i]]
            0 <= i < self.entries@.len() ==> {
                &&& self.model@.contains_key(self.entries@[i].id@)
                &&& self.model@[self.entries@[i].id@] == self.entries@[i].runtime@
            }
        &&& forall|i: int, j: int|
            0 <= i < self.entries@.len() && 0 <= j < self.entries@.len() && i != j
                ==> #[trigger] self.entries@[i].id@ != #[trigger] self.entries@[j].id@
        &&& forall|k: Seq<char>|
            #[trigger] self.model@.contains_key(k) ==> exists|i: int|
                0 <= i < self.entries@.len() && #[trigger] self.entries@[i].id@ == k
        &&& forall|k: Seq<char>| #[trigger] self.model@.contains_key(k) ==> self.model@[k].wf()
    }

    /// Every registered instance keeps the handle invariant: in particular
    /// none holds a scheduler without the resource and controller it is
    /// bound to.
    pub proof fn registered_runtimes_are_well_formed(&self)
        requires
            self.wf(),
        ensures
            forall|k: Seq<char>| #[trigger] self@.contains_key(k) ==> self@[k].wf(),
    {
    }

    /// A registry without instances.
    pub fn new() -> (r: Registry)
        ensures
            r.wf(),
            r@ == Map::<Seq<char>, RuntimeView>::empty(),
    {
        Registry { entries: Vec::new(), model: Ghost(Map::empty()) }
    }

    fn find(&self, id: &str) -> (r: Option<usize>)
        requires
            self.wf(),
        ensures
            match r {
                Some(i) => i < self.entries@.len() && self.entries@[i as int].id@ == id@
                    && self@.contains_key(id@),
                None => !self@.contains_key(id@),
            },
    {
        let key = id.to_owned();
        let mut i: usize = 0;
        while i < self.entries.len()
            invariant
                self.wf(),
                key@ == id@,
                i <= self.entries@.len(),
                forall|j: int| 0 <= j < i ==> self.entries@[j].id@ != id@,
            decreases self.entries@.len() - i,
        {
            if self.entries[i].id == key {
                return Some(i);
            }
            i = i + 1;
        }
        None
    }

    /// Whether an instance with this identifier is registered.
    pub fn contains(&self, id: &str) -> (r: bool)
        requires
            self.wf(),
        ensures
            r == self@.contains_key(id@),
    {
        self.find(id).is_some()
    }

    /// The runtime of an instance, if it is registered.
    pub fn runtime(&self, id: &str) -> (r: Option<&InstanceRuntime>)
        requires
            self.wf(),
        ensures
            r is Some <==> self@.contains_key(id@),
            r matches Some(rt) ==> rt@ == self@[id@],
    {
        match self.find(id) {
            Some(i) => Some(&self.entries[i].runtime),
            None => None,
        }
    }

    fn replace_at(&mut self, i: usize, rt: InstanceRuntime) -> (prev: InstanceRuntime)
        requires
            old(self).wf(),
            i < old(self).entries@.len(),
            rt@.wf(),
        ensures
            final(self).wf(),
            prev@ == old(self)@[old(self).entries@[i as int].id@],
            final(self)@ == old(self)@.insert(old(self).entries@[i as int].id@, rt@),
    {
        let ghost old_entries = self.entries@;
        let ghost key = self.entries@[i as int].id@;
        let entry = self.entries.remove(i);
        let InstanceEntry { id, runtime } = entry;
        let ghost new_view = rt@;
        self.entries.insert(i, InstanceEntry { id, runtime: rt });
        self.model = Ghost(self.model@.insert(key, new_view));
        proof {
            assert(self.entries@.len() == old_entries.len());
            assert forall|j: int| 0 <= j < old_entries.len() && j != i implies #[trigger] self.entries@[j]
                == old_entries[j] by {
                if j < i {
                } else {
                }
            }
            assert forall|k: Seq<char>| #[trigger] self.model@.contains_key(k) implies exists|j: int|
                0 <= j < self.entries@.len() && #[trigger] self.entries@[j].id@ == k by {
                let j = choose|j: int| 0 <= j < old_entries.len() && #[trigger] old_entries[j].id@ == k;
                if j != i {
                    assert(self.entries@[j] == old_entries[j]);
                } else {
                    assert(self.entries@[j].id@ == k);
                }
            }
            assert forall|j: int| 0 <= j < self.entries@.len() implies {
                &&& self.model@.contains_key(#[trigger] self.entries@[j].id@)
                &&& self.model@[self.entries@[j].id@] == self.entries@[j].runtime@
            } by {
                if j != i {
                    assert(self.entries@[j] == old_entries[j]);
                    assert(old_entries[j].id@ != key);
                }
            }
            assert forall|a: int, b: int|
                0 <= a < self.entries@.len() && 0 <= b < self.entries@.len() && a != b
                    implies #[trigger] self.entries@[a].id@ != #[trigger] self.entries@[b].id@ by {
                assert(self.entries@[a].id@ == old_entries[a].id@);
                assert(self.entries@[b].id@ == old_entries[b].id@);
            }
        }
        runtime
    }

    /// Moves the runtime of a registered instance out, leaving an empty one
    /// in its place; `None`, with nothing changed, for an unknown identifier.
    pub(crate) fn take_runtime(&mut self, id: &str) -> (r: Option<InstanceRuntime>)
        requires
            old(self).wf(),
        ensures
            final(self).wf(),
            r is Some <==> old(self)@.contains_key(id@),
            r matches Some(rt) ==> rt@.wf() && rt@ == old(self)@[id@] && final(self)@ == old(self)@.insert(
                id@,
                RuntimeView::empty(),
            ),
            r is None ==> final(self)@ == old(self)@,
            only_instance_changed(old(self)@, final(self)@, id@),
    {
        let r = match self.find(id) {
            Some(i) => Some(self.replace_at(i, InstanceRuntime::new())),
            None => None,
        };
        proof {
            registry_steps_change_one_instance(old(self)@, id@, RuntimeView::empty());
        }
        r
    }

    /// Stores `rt` as the runtime of a registered instance.
    pub(crate) fn put_runtime(&mut self, id: &str, rt: InstanceRuntime)
        requires
            old(self).wf(),
            old(self)@.contains_key(id@),
            rt@.wf(),
        ensures
            final(self).wf(),
            final(self)@ == old(self)@.insert(id@, rt@),
            only_instance_changed(old(self)@, final(self)@, id@),
    {
        let ghost v = rt@;
        if let Some(i) = self.find(id) {
            let _ = self.replace_at(i, rt);
        }
        proof {
            registry_steps_change_one_instance(old(self)@, id@, v);
        }
    }

    /// The identifiers of all registered instances, each once.
    pub fn instance_ids(&self) -> (r: Vec<String>)
        requires
            self.wf(),
        ensures
            forall|i: int| 0 <= i < r@.len() ==> self@.contains_key(#[trigger] r@[i]@),
            forall|k: Seq<char>| #[trigger] self@.contains_key(k) ==> exists|i: int|
                0 <= i < r@.len() && #[trigger] r@[i]@ == k,
            forall|i: int, j: int|
                0 <= i < r@.len() && 0 <= j < r@.len() && i != j ==> #[trigger] r@[i]@ != #[trigger] r@[j]@,
    {
        let mut r: Vec<String> = Vec::new();
        let mut i: usize = 0;
        while i < self.entries.len()
            invariant
                self.wf(),
                i <= self.entries@.len(),
                r@.len() == i,
                forall|j: int| 0 <= j < i ==> #[trigger] r@[j]@ == self.entries@[j].id@,
            decreases self.entries@.len() - i,
        {
            r.push(self.entries[i].id.clone());
            i = i + 1;
        }
        proof {
            assert forall|k: Seq<char>| #[trigger] self@.contains_key(k) implies exists|j: int|
                0 <= j < r@.len() && #[trigger] r@[j]@ == k by {
                let j = choose|j: int| 0 <= j < self.entries@.len() && #[trigger] self.entries@[j].id@ == k;
                assert(r@[j]@ == k);
            }
            assert forall|a: int| 0 <= a < r@.len() implies self@.contains_key(#[trigger] r@[a]@) by {
                assert(r@[a]@ == self.entries@[a].id@);
            }
            assert forall|a: int, b: int|
                0 <= a < r@.len() && 0 <= b < r@.len() && a != b implies #[trigger] r@[a]@
                != #[trigger] r@[b]@ by {
                assert(r@[a]@ == self.entries@[a].id@);
                assert(r@[b]@ == self.entries@[b].id@);
            }
        }
        r
    }

    /// Registers an empty instance; an identifier that is already present is
    /// left exactly as it was. Returns whether a new instance was added.
    pub fn create_instance(&mut self, id: String) -> (added: bool)
        requires
            old(self).wf(),
        ensures
            final(self).wf(),
            added == !old(self)@.contains_key(id@),
            final(self)@ == after_create(old(self)@, id@),
            only_instance_changed(old(self)@, final(self)@, id@),
    {
        proof {
            registry_steps_change_one_instance(old(self)@, id@, RuntimeView::empty());
        }
        if self.find(id.as_str()).is_some() {
            return false;
        }
        let ghost old_entries = self.entries@;
        let ghost key = id@;
        let entry = InstanceEntry { id, runtime: InstanceRuntime::new() };
        self.entries.push(entry);
        self.model = Ghost(self.model@.insert(key, RuntimeView::empty()));
        proof {
            let n = old_entries.len() as int;
            assert forall|k: Seq<char>| #[trigger] self.model@.contains_key(k) implies exists|i: int|
                0 <= i < self.entries@.len() && #[trigger] self.entries@[i].id@ == k by {
                if k == key {
                    assert(self.entries@[n].id@ == k);
                } else {
                    assert(old(self).model@.contains_key(k));
                    let i = choose|i: int| 0 <= i < old_entries.len() && #[trigger] old_entries[i].id@ == k;
                    assert(self.entries@[i] == old_entries[i]);
                }
            }
            assert forall|i: int| 0 <= i < n implies #[trigger] old_entries[i].id@ != key by {
                assert(old(self).model@.contains_key(old_entries[i].id@));
            }
        }
        true
    }

    /// Removes an instance and returns the releases that tear down its
    /// handles, in teardown order; `None` when the identifier is unknown.
    pub fn destroy_instance(&mut self, id: &str) -> (plan: Option<Vec<Release>>)
        requires
            old(self).wf(),
        ensures
            final(self).wf(),
            final(self)@ == old(self)@.remove(id@),
            plan is None <==> !old(self)@.contains_key(id@),
            plan matches Some(p) ==> p@ == old(self)@[id@].teardown_plan(),
            only_instance_changed(old(self)@, final(self)@, id@),
    {
        proof {
            registry_steps_change_one_instance(old(self)@, id@, RuntimeView::empty());
        }
        match self.find(id) {
            None => {
                proof {
                    assert(self.model@.remove(id@) =~= self.model@);
                }
                None
            },
            Some(i) => {
                let ghost old_entries = self.entries@;
                let mut entry = self.entries.remove(i);
                self.model = Ghost(self.model@.remove(id@));
                proof {
                    assert forall|k: Seq<char>| #[trigger] self.model@.contains_key(k) implies exists|j: int|
                        0 <= j < self.entries@.len() && #[trigger] self.entries@[j].id@ == k by {
                        let j = choose|j: int| 0 <= j < old_entries.len() && #[trigger] old_entries[j].id@ == k;
                        assert(j != i);
                        if j < i {
                            assert(self.entries@[j] == old_entries[j]);
                        } else {
                            assert(self.entries@[j - 1] == old_entries[j]);
                        }
                    }
                    assert forall|j: int| 0 <= j < self.entries@.len() implies
                        #[trigger] self.entries@[j].id@ != id@ by {
                        if j < i {
                            assert(self.entries@[j] == old_entries[j]);
                        } else {
                            assert(self.entries@[j] == old_entries[j + 1]);
                        }
                    }
                }
                let plan = entry.runtime.teardown();
                Some(plan)
            },
        }
    }
}

} // verus!
