//! Keeping profiles: the repository interface and the in-memory repository,
//! where each profile id occurs at most once.
use vstd::prelude::*;

use crate::profile::types::{same_profile, QaProfile};
use crate::text::str_eq;

verus! {

/// Where profiles are kept.
pub trait ProfileRepository {
    fn create(&mut self, profile: &QaProfile) -> Result<(), String>;

    fn get(&self, id: &str) -> Result<Option<QaProfile>, String>;

    fn list(&self) -> Result<Vec<QaProfile>, String>;

    fn update(&mut self, profile: &QaProfile) -> Result<(), String>;

    fn delete(&mut self, id: &str) -> Result<(), String>;
}

/// True when some profile of `s` has the id `id`.
pub open spec fn has_id(s: Seq<QaProfile>, id: Seq<char>) -> bool {
    exists|i: int| 0 <= i < s.len() && (#[trigger] s[i]).id@ == id
}

/// True when no two profiles of `s` share an id.
pub open spec fn unique_ids(s: Seq<QaProfile>) -> bool {
    forall|i: int, j: int| 0 <= i < j < s.len() ==> (#[trigger] s[i]).id@ != (#[trigger] s[j]).id@
}

/// `p` holds the values of the profile of `s` with id `id`.
pub open spec fn found_in(s: Seq<QaProfile>, id: Seq<char>, p: QaProfile) -> bool {
    exists|i: int| 0 <= i < s.len() && (#[trigger] s[i]).id@ == id && same_profile(p, s[i])
}

/// `after` is `before` with a copy of `p` added at the end.
pub open spec fn created(before: Seq<QaProfile>, p: QaProfile, after: Seq<QaProfile>) -> bool {
    &&& after.len() == before.len() + 1
    &&& after.subrange(0, before.len() as int) == before
    &&& same_profile(after.last(), p)
}

/// `after` is `before` with the profile that has `p`'s id replaced by a copy of `p`.
pub open spec fn updated(before: Seq<QaProfile>, p: QaProfile, after: Seq<QaProfile>) -> bool {
    exists|k: int|
        0 <= k < before.len() && (#[trigger] before[k]).id@ == p.id@ && after.len() == before.len()
            && same_profile(after[k], p) && forall|j: int|
            0 <= j < before.len() && j != k ==> after[j] == before[j]
}

/// `after` is `before` without the profile with id `id`.
pub open spec fn deleted(before: Seq<QaProfile>, id: Seq<char>, after: Seq<QaProfile>) -> bool {
    exists|k: int| 0 <= k < before.len() && (#[trigger] before[k]).id@ == id && after == before.remove(k)
}

/// The message for a second profile with an id already in use.
pub open spec fn duplicate_id_message(id: Seq<char>) -> Seq<char> {
    "Profile with id '"@ + id + "' already exists"@
}

/// The message for a profile id that is not there.
pub open spec fn missing_id_message(id: Seq<char>) -> Seq<char> {
    "Profile with id '"@ + id + "' not found"@
}

/// A profile just created is found under its id, and ids stay unique.
pub proof fn lemma_get_after_create(before: Seq<QaProfile>, p: QaProfile, after: Seq<QaProfile>)
    requires
        unique_ids(before),
        !has_id(before, p.id@),
        created(before, p, after),
    ensures
        unique_ids(after),
        has_id(after, p.id@),
        forall|q: QaProfile| found_in(after, p.id@, q) ==> same_profile(q, p),
{
    let n = before.len() as int;
    assert forall|i: int| 0 <= i < n implies after[i] == before[i] by {
        assert(after.subrange(0, n)[i] == before[i]);
    }
    assert(after[n].id@ == p.id@);
    assert forall|q: QaProfile| found_in(after, p.id@, q) implies same_profile(q, p) by {
        let i = choose|i: int| 0 <= i < after.len() && (#[trigger] after[i]).id@ == p.id@ && same_profile(q, after[i]);
        if i < n {
            assert(before[i].id@ == p.id@);
        }
    }
    assert forall|i: int, j: int| 0 <= i < j < after.len() implies (#[trigger] after[i]).id@
        != (#[trigger] after[j]).id@ by {
        if j == n {
            assert(before[i] == after[i]);
        }
    }
}

/// A profile just deleted is no longer found, and ids stay unique.
pub proof fn lemma_get_after_delete(before: Seq<QaProfile>, id: Seq<char>, after: Seq<QaProfile>)
    requires
        unique_ids(before),
        deleted(before, id, after),
    ensures
        unique_ids(after),
        !has_id(after, id),
{
    let k = choose|k: int| 0 <= k < before.len() && (#[trigger] before[k]).id@ == id && after == before.remove(k);
    assert forall|i: int, j: int| 0 <= i < j < after.len() implies (#[trigger] after[i]).id@
        != (#[trigger] after[j]).id@ by {
        let bi = if i < k { i } else { i + 1 };
        let bj = if j < k { j } else { j + 1 };
        assert(after[i] == before[bi]);
        assert(after[j] == before[bj]);
    }
    if has_id(after, id) {
        let i = choose|i: int| 0 <= i < after.len() && (#[trigger] after[i]).id@ == id;
        let bi = if i < k { i } else { i + 1 };
        assert(after[i] == before[bi]);
    }
}

/// A profile just updated is found under its id with the new values, and
/// ids stay unique.
pub proof fn lemma_get_after_update(before: Seq<QaProfile>, p: QaProfile, after: Seq<QaProfile>)
    requires
        unique_ids(before),
        updated(before, p, after),
    ensures
        unique_ids(after),
        has_id(after, p.id@),
        forall|q: QaProfile| found_in(after, p.id@, q) ==> same_profile(q, p),
{
    let k = choose|k: int|
        0 <= k < before.len() && (#[trigger] before[k]).id@ == p.id@ && after.len() == before.len()
            && same_profile(after[k], p) && forall|j: int|
            0 <= j < before.len() && j != k ==> after[j] == before[j];
    assert(after[k].id@ == p.id@);
    assert forall|q: QaProfile| found_in(after, p.id@, q) implies same_profile(q, p) by {
        let i = choose|i: int| 0 <= i < after.len() && (#[trigger] after[i]).id@ == p.id@ && same_profile(q, after[i]);
        if i != k {
            assert(after[i] == before[i]);
        }
    }
    assert forall|i: int, j: int| 0 <= i < j < after.len() implies (#[trigger] after[i]).id@
        != (#[trigger] after[j]).id@ by {
        if i != k && j != k {
            assert(after[i] == before[i] && after[j] == before[j]);
        } else if i == k {
            assert(after[j] == before[j]);
        } else {
            assert(after[i] == before[i]);
        }
    }
}

/// Profiles kept in memory, in the order they were created.
pub struct InMemoryProfileRepository {
    profiles: Vec<QaProfile>,
}

impl View for InMemoryProfileRepository {
    type V = Seq<QaProfile>;

    closed spec fn view(&self) -> Seq<QaProfile> {
        self.profiles@
    }
}

impl InMemoryProfileRepository {
    /// An empty repository.
    pub fn new() -> (r: Self)
        ensures
            r@ == Seq::<QaProfile>::empty(),
            unique_ids(r@),
    {
        InMemoryProfileRepository { profiles: Vec::new() }
    }

    /// The position of the profile with id `id`, if there is one.
    fn position(&self, id: &str) -> (r: Option<usize>)
        ensures
            match r {
                Some(k) => k < self@.len() && self@[k as int].id@ == id@,
                None => !has_id(self@, id@),
            },
    {
        let mut i: usize = 0;
        while i < self.profiles.len()
            invariant
                i <= self.profiles@.len(),
                forall|j: int| 0 <= j < i ==> (#[trigger] self.profiles@[j]).id@ != id@,
            decreases self.profiles@.len() - i,
        {
            if str_eq(self.profiles[i].id.as_str(), id) {
                return Some(i);
            }
            i = i + 1;
        }
        None
    }

    fn message(id: &str, tail: &str) -> (r: String)
        ensures
            r@ == "Profile with id '"@ + id@ + tail@,
    {
        let mut m = String::from_str("Profile with id '");
        m.append(id);
        m.append(tail);
        m
    }
}

impl ProfileRepository for InMemoryProfileRepository {
    /// Adds a copy of `profile`, unless its id is already in use.
    fn create(&mut self, profile: &QaProfile) -> (r: Result<(), String>)
        ensures
            unique_ids(old(self)@) ==> unique_ids(final(self)@),
            has_id(old(self)@, profile.id@) ==> (r matches Err(m) && m@ == duplicate_id_message(
                profile.id@,
            ) && final(self)@ == old(self)@),
            !has_id(old(self)@, profile.id@) ==> (r is Ok && created(
                old(self)@,
                *profile,
                final(self)@,
            )),
    {
        match self.position(profile.id.as_str()) {
            Some(_) => {
                proof {
                    reveal_strlit("' already exists");
                }
                Err(Self::message(profile.id.as_str(), "' already exists"))
            },
            None => {
                let ghost before = self@;
                self.profiles.push(profile.clone());
                assert(self@.subrange(0, before.len() as int) =~= before);
                proof {
                    if unique_ids(before) {
                        lemma_get_after_create(before, *profile, self@);
                    }
                }
                Ok(())
            },
        }
    }

    /// A copy of the profile with id `id`, if there is one.
    fn get(&self, id: &str) -> (r: Result<Option<QaProfile>, String>)
        ensures
            r matches Ok(o) && match o {
                Some(p) => found_in(self@, id@, p),
                None => !has_id(self@, id@),
            },
    {
        match self.position(id) {
            Some(k) => {
                let p = self.profiles[k].clone();
                assert(same_profile(p, self@[k as int]));
                Ok(Some(p))
            },
            None => Ok(None),
        }
    }

    /// Copies of all profiles, in order.
    fn list(&self) -> (r: Result<Vec<QaProfile>, String>)
        ensures
            r matches Ok(v) && v@.len() == self@.len() && forall|i: int|
                0 <= i < v@.len() ==> same_profile(#[trigger] v@[i], self@[i]),
    {
        let mut v: Vec<QaProfile> = Vec::new();
        let mut i: usize = 0;
        while i < self.profiles.len()
            invariant
                i <= self.profiles@.len(),
                v@.len() == i,
                forall|j: int| 0 <= j < i ==> same_profile(#[trigger] v@[j], self.profiles@[j]),
            decreases self.profiles@.len() - i,
        {
            v.push(self.profiles[i].clone());
            i = i + 1;
        }
        Ok(v)
    }

    /// Replaces the profile with `profile`'s id by a copy of `profile`.
    fn update(&mut self, profile: &QaProfile) -> (r: Result<(), String>)
        ensures
            unique_ids(old(self)@) ==> unique_ids(final(self)@),
            has_id(old(self)@, profile.id@) ==> (r is Ok && updated(
                old(self)@,
                *profile,
                final(self)@,
            )),
            !has_id(old(self)@, profile.id@) ==> (r matches Err(m) && m@ == missing_id_message(
                profile.id@,
            ) && final(self)@ == old(self)@),
    {
        match self.position(profile.id.as_str()) {
            Some(k) => {
                let ghost before = self@;
                self.profiles.set(k, profile.clone());
                assert(updated(before, *profile, self@)) by {
                    assert(before[k as int].id@ == profile.id@);
                }
                proof {
                    if unique_ids(before) {
                        lemma_get_after_update(before, *profile, self@);
                    }
                }
                Ok(())
            },
            None => {
                proof {
                    reveal_strlit("' not found");
                }
                Err(Self::message(profile.id.as_str(), "' not found"))
            },
        }
    }

    /// Removes the profile with id `id`.
    fn delete(&mut self, id: &str) -> (r: Result<(), String>)
        ensures
            unique_ids(old(self)@) ==> unique_ids(final(self)@),
            has_id(old(self)@, id@) ==> (r is Ok && deleted(old(self)@, id@, final(self)@)),
            !has_id(old(self)@, id@) ==> (r matches Err(m) && m@ == missing_id_message(id@)
                && final(self)@ == old(self)@),
    {
        match self.position(id) {
            Some(k) => {
                let ghost before = self@;
                self.profiles.remove(k);
                assert(deleted(before, id@, self@)) by {
                    assert(before[k as int].id@ == id@);
                }
                proof {
                    if unique_ids(before) {
                        lemma_get_after_delete(before, id@, self@);
                    }
                }
                Ok(())
            },
            None => {
                proof {
                    reveal_strlit("' not found");
                }
                Err(Self::message(id, "' not found"))
            },
        }
    }
}

} // verus!
