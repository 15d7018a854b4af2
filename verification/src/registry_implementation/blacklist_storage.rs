//! Values whose accesses are restricted to those explicitly allowed, each
//! allowance guarded by a password.
use rand::rngs::ThreadRng;
use rand::RngCore;

use vstd::prelude::*;

use crate::identity::ViewEq;
use crate::registry_implementation::keyed_entries::KeyedEntries;
use crate::registry_implementation::primitives::ValuePassword;

verus! {

/// rand's `ThreadRng`, held as an opaque value.
#[verifier::external_type_specification]
#[verifier::external_body]
pub struct ExThreadRng(rand::rngs::ThreadRng);

/// `ThreadRng::default()` (rand's `thread_rng()`), a handle on the thread-local
/// generator. Nothing is stated of it; rand panics here only when the operating
/// system's random source cannot seed the generator.
#[verifier::external_body]
fn new_thread_rng() -> ThreadRng {
    ThreadRng::default()
}

/// `<ThreadRng as RngCore>::next_u64`: a random number. Nothing is stated of
/// the number, nor of the generator's new state.
#[verifier::external_body]
fn next_random_u64(rng: &mut ThreadRng) -> u64 {
    rng.next_u64()
}

/// The views of a list of allowances.
pub open spec fn allowances<A: View>(l: Seq<(A, ValuePassword)>) -> Seq<(A::V, u64)> {
    l.map_values(|e: (A, ValuePassword)| (e.0@, e.1@))
}

/// Whether the allowances `m` permit `access` to `id` with `password`: an id
/// without allowances is open to every access.
pub open spec fn blacklist_permits<KV, AV>(m: Map<KV, Seq<(AV, u64)>>, id: KV, access: AV, password: u64) -> bool {
    !m.contains_key(id) || m[id].contains((access, password))
}

/// The allowances after allowing `access` to `id` under `password`.
pub open spec fn blacklist_allow<KV, AV>(m: Map<KV, Seq<(AV, u64)>>, id: KV, access: AV, password: u64) -> Map<KV, Seq<(AV, u64)>> {
    m.insert(id, (if m.contains_key(id) { m[id] } else { Seq::empty() }).push((access, password)))
}

/// Releasing the ids `ids` one after another, stopping at the first that has no
/// allowances: the allowances left, and whether every id was released.
pub open spec fn blacklist_release_all<KV, AV>(m: Map<KV, Seq<(AV, u64)>>, ids: Seq<KV>) -> (Map<KV, Seq<(AV, u64)>>, bool)
    decreases ids.len(),
{
    if ids.len() == 0 {
        (m, true)
    } else if m.contains_key(ids[0]) {
        blacklist_release_all(m.remove(ids[0]), ids.drop_first())
    } else {
        (m, false)
    }
}

/// For each restricted value, the accesses allowed to it, each with the password that unlocks it.
pub struct BlacklistStorage<ValueId, Access> {
    inner: KeyedEntries<ValueId, Vec<(Access, ValuePassword)>>,
    rng: ThreadRng,
}

impl<ValueId: ViewEq, Access: ViewEq> View for BlacklistStorage<ValueId, Access> {
    type V = Map<ValueId::V, Seq<(Access::V, u64)>>;

    closed spec fn view(&self) -> Map<ValueId::V, Seq<(Access::V, u64)>> {
        self.inner.view().map_values(|l: Vec<(Access, ValuePassword)>| allowances(l@))
    }
}

impl<ValueId: ViewEq, Access: ViewEq> BlacklistStorage<ValueId, Access> {
    pub closed spec fn wf(&self) -> bool {
        self.inner.wf()
    }

    /// A storage in which no value is restricted.
    pub fn new() -> (r: Self)
        ensures
            r.wf(),
            r@ == Map::<ValueId::V, Seq<(Access::V, u64)>>::empty(),
    {
        let r = BlacklistStorage { inner: KeyedEntries::new(), rng: new_thread_rng() };
        assert(r@ =~= Map::<ValueId::V, Seq<(Access::V, u64)>>::empty());
        r
    }

    /// A fresh random password; the allowances are unchanged.
    pub fn generate_password(&mut self) -> (r: ValuePassword)
        requires
            old(self).wf(),
        ensures
            final(self).wf(),
            final(self)@ == old(self)@,
    {
        let n = next_random_u64(&mut self.rng);
        ValuePassword::from(n)
    }

    /// Whether `access` to `id` is permitted with `password`.
    pub fn check_access(&self, id: &ValueId, access: &Access, password: &ValuePassword) -> (r: bool)
        requires
            self.wf(),
        ensures
            r == blacklist_permits(self@, id@, access@, password@),
    {
        let allowed_accesses = match self.inner.get(id) {
            Some(allowed_accesses) => allowed_accesses,
            None => return true,
        };
        let ghost l = allowances(allowed_accesses@);
        assert(self@[id@] == l);
        let mut i: usize = 0;
        while i < allowed_accesses.len()
            invariant
                i <= allowed_accesses@.len(),
                l == allowances(allowed_accesses@),
                self@.contains_key(id@),
                self@[id@] == l,
                forall|j: int| 0 <= j < i ==> #[trigger] l[j] != (access@, password@),
            decreases allowed_accesses@.len() - i,
        {
            let (allowed_access, access_password) = &allowed_accesses[i];
            if allowed_access.view_eq(access) && access_password.view_eq(password) {
                assert(l[i as int] == (access@, password@));
                assert(self@[id@].contains((access@, password@)));
                return true;
            }
            i = i + 1;
        }
        false
    }

    /// Allows `access` to `id` under a fresh random password, which comes back.
    pub fn allow(&mut self, id: ValueId, access: Access) -> (r: Option<ValuePassword>)
        requires
            old(self).wf(),
        ensures
            final(self).wf(),
            r is Some,
            final(self)@ == blacklist_allow(old(self)@, id@, access@, r->0@),
    {
        let generated_password = self.generate_password();
        let ghost before = self.inner.view();
        let entry = (access, generated_password.clone());
        let ghost new_allowance = (access@, generated_password@);
        let ghost target = blacklist_allow(old(self)@, id@, access@, generated_password@);
        match self.inner.get_mut(&id) {
            Some(allowed_accesses) => {
                let ghost l0 = allowed_accesses@;
                allowed_accesses.push(entry);
                proof {
                    assert(allowances(l0.push(entry)) =~= allowances(l0).push(new_allowance));
                    assert(self.inner.view() == before.insert(id@, *allowed_accesses));
                    assert(self@ =~= target);
                }
            },
            None => {
                let v = vec![entry];
                proof {
                    assert(allowances(v@) =~= Seq::<(Access::V, u64)>::empty().push(new_allowance));
                }
                self.inner.insert(id, v);
                proof {
                    assert(self@ =~= target);
                }
            },
        }
        Some(generated_password)
    }

    /// Withdraws the first allowance of `access` to `id`; `false`, nothing changed, when there is none.
    pub fn unallow(&mut self, id: &ValueId, access: &Access) -> (r: bool)
        requires
            old(self).wf(),
        ensures
            final(self).wf(),
            r == (old(self)@.contains_key(id@) && exists|i: int| 0 <= i < old(self)@[id@].len() && #[trigger] old(self)@[id@][i].0 == access@),
            r ==> exists|i: int|
                0 <= i < old(self)@[id@].len() && #[trigger] old(self)@[id@][i].0 == access@
                && (forall|j: int| 0 <= j < i ==> #[trigger] old(self)@[id@][j].0 != access@)
                && final(self)@ == old(self)@.insert(id@, old(self)@[id@].remove(i)),
            !r ==> final(self)@ == old(self)@,
    {
        match self.inner.get_mut(id) {
            Some(allowed_accesses) => {
                let ghost l0 = allowed_accesses@;
                let mut i: usize = 0;
                while i < allowed_accesses.len()
                    invariant
                        allowed_accesses@ == l0,
                        i <= l0.len(),
                        forall|j: int| 0 <= j < i ==> #[trigger] l0[j].0@ != access@,
                    ensures
                        i <= l0.len(),
                        forall|j: int| 0 <= j < i ==> #[trigger] l0[j].0@ != access@,
                        i < l0.len() ==> l0[i as int].0@ == access@,
                    decreases l0.len() - i,
                {
                    if allowed_accesses[i].0.view_eq(access) {
                        break;
                    }
                    i = i + 1;
                }
                if i == allowed_accesses.len() {
                    proof {
                        assert(self@ =~= old(self)@);
                        assert forall|j: int| 0 <= j < old(self)@[id@].len() implies #[trigger] old(self)@[id@][j].0 != access@ by {
                            assert(old(self)@[id@][j] == (l0[j].0@, l0[j].1@));
                        }
                    }
                    false
                } else {
                    allowed_accesses.remove(i);
                    proof {
                        let lv = allowances(l0);
                        assert(old(self)@[id@] == lv);
                        assert(lv[i as int] == (l0[i as int].0@, l0[i as int].1@));
                        assert(allowances(l0.remove(i as int)) =~= lv.remove(i as int));
                        assert(self@ =~= old(self)@.insert(id@, lv.remove(i as int)));
                        assert(lv[i as int].0 == access@);
                        assert forall|j: int| 0 <= j < i implies #[trigger] lv[j].0 != access@ by {
                            assert(lv[j] == (l0[j].0@, l0[j].1@));
                        }
                    }
                    true
                }
            },
            None => {
                assert(self@ =~= old(self)@);
                false
            },
        }
    }

    /// Lifts every restriction on `id`; whether it had any allowances.
    pub fn release(&mut self, id: &ValueId) -> (r: bool)
        requires
            old(self).wf(),
        ensures
            final(self).wf(),
            r == old(self)@.contains_key(id@),
            final(self)@ == old(self)@.remove(id@),
    {
        let r = self.inner.remove(id).is_some();
        assert(self@ =~= old(self)@.remove(id@));
        r
    }

    /// Releases the ids in order, stopping at the first that has no allowances;
    /// whether every id was released.
    pub fn release_all(&mut self, ids: &[ValueId]) -> (r: bool)
        requires
            old(self).wf(),
        ensures
            final(self).wf(),
            (final(self)@, r) == blacklist_release_all(old(self)@, ids@.map_values(|k: ValueId| k@)),
    {
        let ghost ids_v = ids@.map_values(|k: ValueId| k@);
        let mut i: usize = 0;
        assert(ids_v.skip(0) =~= ids_v);
        while i < ids.len()
            invariant
                self.wf(),
                i <= ids@.len(),
                ids_v == ids@.map_values(|k: ValueId| k@),
                blacklist_release_all(old(self)@, ids_v) == blacklist_release_all(self@, ids_v.skip(i as int)),
            decreases ids@.len() - i,
        {
            assert(ids_v.skip(i as int).drop_first() =~= ids_v.skip(i + 1));
            if !self.release(&ids[i]) {
                return false;
            }
            i = i + 1;
        }
        assert(ids_v.skip(i as int) =~= Seq::<ValueId::V>::empty());
        true
    }
}

impl<ValueId: ViewEq, Access: ViewEq> Default for BlacklistStorage<ValueId, Access> {
    fn default() -> (r: Self)
        ensures
            r.wf(),
            r@ == Map::<ValueId::V, Seq<(Access::V, u64)>>::empty(),
    {
        BlacklistStorage::new()
    }
}

/// An id that was never restricted is open to every access with every password.
pub proof fn law_unrestricted_permits<KV, AV>(m: Map<KV, Seq<(AV, u64)>>, id: KV, access: AV, password: u64)
    requires
        !m.contains_key(id),
    ensures
        blacklist_permits(m, id, access, password),
{
}

/// An allowance permits its access with the password it was given, and keeps every earlier allowance.
pub proof fn law_allow_then_permit<KV, AV>(
    m: Map<KV, Seq<(AV, u64)>>,
    id: KV,
    access: AV,
    password: u64,
    other_access: AV,
    other_password: u64,
)
    ensures
        blacklist_permits(blacklist_allow(m, id, access, password), id, access, password),
        blacklist_permits(m, id, other_access, other_password) && m.contains_key(id)
            ==> blacklist_permits(blacklist_allow(m, id, access, password), id, other_access, other_password),
{
    let l = blacklist_allow(m, id, access, password)[id];
    assert(l[l.len() - 1] == (access, password));
    if blacklist_permits(m, id, other_access, other_password) && m.contains_key(id) {
        let j = choose|j: int| 0 <= j < m[id].len() && m[id][j] == (other_access, other_password);
        assert(l[j] == (other_access, other_password));
    }
}

/// Once an id is released, every access to it is permitted.
pub proof fn law_release_then_permit<KV, AV>(m: Map<KV, Seq<(AV, u64)>>, id: KV, access: AV, password: u64)
    ensures
        blacklist_permits(m.remove(id), id, access, password),
{
}

/// Releasing a list of ids succeeds exactly when every id has allowances and none
/// occurs twice; then none of them is restricted any more.
pub proof fn law_release_all<KV, AV>(m: Map<KV, Seq<(AV, u64)>>, ids: Seq<KV>)
    ensures
        blacklist_release_all(m, ids).1 == (ids.no_duplicates() && forall|i: int| 0 <= i < ids.len() ==> m.contains_key(#[trigger] ids[i])),
        blacklist_release_all(m, ids).1 ==> forall|i: int| 0 <= i < ids.len() ==> !blacklist_release_all(m, ids).0.contains_key(#[trigger] ids[i]),
        blacklist_release_all(m, ids).1 ==> blacklist_release_all(m, ids).0 == m.remove_keys(ids.to_set()),
    decreases ids.len(),
{
    if ids.len() > 0 {
        let rest = ids.drop_first();
        if m.contains_key(ids[0]) {
            let m1 = m.remove(ids[0]);
            law_release_all(m1, rest);
            let ok = ids.no_duplicates() && forall|i: int| 0 <= i < ids.len() ==> m.contains_key(#[trigger] ids[i]);
            let ok1 = rest.no_duplicates() && forall|i: int| 0 <= i < rest.len() ==> m1.contains_key(#[trigger] rest[i]);
            if ok {
                assert forall|i: int| 0 <= i < rest.len() implies m1.contains_key(#[trigger] rest[i]) by {
                    assert(rest[i] == ids[i + 1]);
                    assert(ids[0] != ids[i + 1]);
                }
                assert(rest.no_duplicates()) by {
                    assert forall|a: int, b: int| 0 <= a < rest.len() && 0 <= b < rest.len() && a != b implies rest[a] != rest[b] by {
                        assert(rest[a] == ids[a + 1] && rest[b] == ids[b + 1]);
                    }
                }
            }
            if ok1 {
                assert forall|a: int, b: int| 0 <= a < ids.len() && 0 <= b < ids.len() && a != b implies ids[a] != ids[b] by {
                    if a == 0 {
                        assert(ids[b] == rest[b - 1]);
                        assert(m1.contains_key(rest[b - 1]));
                    } else if b == 0 {
                        assert(ids[a] == rest[a - 1]);
                        assert(m1.contains_key(rest[a - 1]));
                    } else {
                        assert(ids[a] == rest[a - 1] && ids[b] == rest[b - 1]);
                    }
                }
                assert forall|i: int| 0 <= i < ids.len() implies m.contains_key(#[trigger] ids[i]) by {
                    if i > 0 {
                        assert(ids[i] == rest[i - 1]);
                    }
                }
            }
            if ok1 {
                assert forall|i: int| 0 <= i < ids.len() implies !blacklist_release_all(m, ids).0.contains_key(#[trigger] ids[i]) by {
                    if i > 0 {
                        assert(ids[i] == rest[i - 1]);
                    } else {
                        assert(!blacklist_release_all(m1, rest).0.contains_key(ids[0])) by {
                            assert(blacklist_release_all(m1, rest).0 == m1.remove_keys(rest.to_set()));
                        }
                    }
                }
                assert(ids.to_set() =~= rest.to_set().insert(ids[0])) by {
                    assert forall|x: KV| #[trigger] ids.to_set().contains(x) == rest.to_set().insert(ids[0]).contains(x) by {
                        if ids.contains(x) {
                            let i = choose|i: int| 0 <= i < ids.len() && ids[i] == x;
                            if i > 0 { assert(rest[i - 1] == x); }
                        }
                        if rest.contains(x) {
                            let i = choose|i: int| 0 <= i < rest.len() && rest[i] == x;
                            assert(ids[i + 1] == x);
                        }
                    }
                }
                assert(m1.remove_keys(rest.to_set()) =~= m.remove_keys(ids.to_set()));
            }
        } else {
            assert(!m.contains_key(ids[0]));
        }
    } else {
        assert(m.remove_keys(ids.to_set()) =~= m);
    }
}


/// Removing the ids of the first `j` entries of `ids` is removing the first id,
/// then the ids of the first `j - 1` entries of the rest.
proof fn lemma_remove_prefix<KV, V>(m: Map<KV, V>, ids: Seq<KV>, j: int)
    requires
        1 <= j <= ids.len(),
    ensures
        m.remove_keys(ids.take(j).to_set()) == m.remove(ids[0]).remove_keys(ids.drop_first().take(j - 1).to_set()),
{
    let rest = ids.drop_first();
    assert(ids.take(j).to_set() =~= rest.take(j - 1).to_set().insert(ids[0])) by {
        assert forall|x: KV| #[trigger] ids.take(j).to_set().contains(x) == rest.take(j - 1).to_set().insert(ids[0]).contains(x) by {
            if ids.take(j).contains(x) {
                let i = choose|i: int| 0 <= i < ids.take(j).len() && #[trigger] ids.take(j)[i] == x;
                if i > 0 { assert(rest.take(j - 1)[i - 1] == x); }
            }
            if rest.take(j - 1).contains(x) {
                let i = choose|i: int| 0 <= i < rest.take(j - 1).len() && #[trigger] rest.take(j - 1)[i] == x;
                assert(ids.take(j)[i + 1] == x);
            }
            if x == ids[0] {
                assert(ids.take(j)[0] == x);
            }
        }
    }
    assert(m.remove_keys(ids.take(j).to_set()) =~= m.remove(ids[0]).remove_keys(rest.take(j - 1).to_set()));
}

/// Releasing a list of ids that fails stops at the first id that has no
/// allowances left when it is reached: exactly the ids before it are released,
/// and every other id keeps its allowances. In particular a list whose first id
/// has no allowances changes nothing.
pub proof fn law_release_all_stops_at_first_missing<KV, AV>(m: Map<KV, Seq<(AV, u64)>>, ids: Seq<KV>)
    ensures
        !blacklist_release_all(m, ids).1 ==> exists|k: int|
            0 <= k < ids.len()
            && (forall|j: int| 0 <= j < k ==> #[trigger] m.remove_keys(ids.take(j).to_set()).contains_key(ids[j]))
            && !m.remove_keys(ids.take(k).to_set()).contains_key(ids[k])
            && blacklist_release_all(m, ids).0 == m.remove_keys(#[trigger] ids.take(k).to_set()),
        ids.len() > 0 && !m.contains_key(ids[0]) ==> blacklist_release_all(m, ids) == (m, false),
    decreases ids.len(),
{
    if ids.len() > 0 {
        let rest = ids.drop_first();
        if m.contains_key(ids[0]) {
            let m1 = m.remove(ids[0]);
            law_release_all_stops_at_first_missing(m1, rest);
            if !blacklist_release_all(m, ids).1 {
                let k1 = choose|k: int|
                    0 <= k < rest.len()
                    && (forall|j: int| 0 <= j < k ==> #[trigger] m1.remove_keys(rest.take(j).to_set()).contains_key(rest[j]))
                    && !m1.remove_keys(rest.take(k).to_set()).contains_key(rest[k])
                    && blacklist_release_all(m1, rest).0 == m1.remove_keys(#[trigger] rest.take(k).to_set());
                let k = k1 + 1;
                lemma_remove_prefix(m, ids, k);
                assert forall|j: int| 0 <= j < k implies #[trigger] m.remove_keys(ids.take(j).to_set()).contains_key(ids[j]) by {
                    if j == 0 {
                        assert(ids.take(0).to_set() =~= Set::<KV>::empty());
                        assert(m.remove_keys(ids.take(0).to_set()) =~= m);
                    } else {
                        lemma_remove_prefix(m, ids, j);
                        assert(ids[j] == rest[j - 1]);
                        assert(m1.remove_keys(rest.take(j - 1).to_set()).contains_key(rest[j - 1]));
                    }
                }
                assert(ids[k] == rest[k1]);
                assert(0 <= k < ids.len()
                    && (forall|j: int| 0 <= j < k ==> #[trigger] m.remove_keys(ids.take(j).to_set()).contains_key(ids[j]))
                    && !m.remove_keys(ids.take(k).to_set()).contains_key(ids[k])
                    && blacklist_release_all(m, ids).0 == m.remove_keys(ids.take(k).to_set()));
            }
        } else {
            assert(ids.take(0).to_set() =~= Set::<KV>::empty());
            assert(m.remove_keys(ids.take(0).to_set()) =~= m);
            assert(0 <= 0 < ids.len()
                && (forall|j: int| 0 <= j < 0 ==> #[trigger] m.remove_keys(ids.take(j).to_set()).contains_key(ids[j]))
                && !m.remove_keys(ids.take(0).to_set()).contains_key(ids[0])
                && blacklist_release_all(m, ids).0 == m.remove_keys(ids.take(0).to_set()));
        }
    }
}

} // verus!
