use vstd::prelude::*;

use crate::errors::SshError;

verus! {

/// A project on the local filesystem, identified by its path.
pub struct LocalProject {
    pub path: String,
}

/// A remote project: an SSH/SFTP endpoint with password credentials.
pub struct RemoteProject {
    pub host: String,
    pub port: u16,
    pub user: String,
    pub password: String,
}

impl Clone for LocalProject {
    fn clone(&self) -> (r: Self)
        ensures
            r == *self,
    {
        LocalProject { path: self.path.clone() }
    }
}

impl Clone for RemoteProject {
    fn clone(&self) -> (r: Self)
        ensures
            r == *self,
    {
        RemoteProject {
            host: self.host.clone(),
            port: self.port,
            user: self.user.clone(),
            password: self.password.clone(),
        }
    }
}

/// First record stored under a key whose text is `id`, if any. With unique
/// ids (see `unique_ids`) this is the only such record.
pub open spec fn id_lookup<V>(m: Seq<(String, V)>, id: Seq<char>) -> Option<V>
    decreases m.len(),
{
    if m.len() == 0 {
        None
    } else if m[0].0@ == id {
        Some(m[0].1)
    } else {
        id_lookup(m.drop_first(), id)
    }
}

/// Some record is stored under a key whose text is `id`.
pub open spec fn id_has_key<V>(m: Seq<(String, V)>, id: Seq<char>) -> bool {
    exists|i: int| 0 <= i < m.len() && m[i].0@ == id
}

/// No two records share a key text.
pub open spec fn unique_ids<V>(m: Seq<(String, V)>) -> bool {
    forall|i: int, j: int| 0 <= i < j < m.len() ==> m[i].0@ != m[j].0@
}

proof fn lemma_lookup_found<V>(m: Seq<(String, V)>, id: Seq<char>, k: int)
    requires
        0 <= k < m.len(),
        m[k].0@ == id,
        forall|j: int| 0 <= j < k ==> m[j].0@ != id,
    ensures
        id_lookup(m, id) == Some(m[k].1),
    decreases k,
{
    if k > 0 {
        lemma_lookup_found(m.drop_first(), id, k - 1);
    }
}

proof fn lemma_lookup_none<V>(m: Seq<(String, V)>, id: Seq<char>)
    requires
        forall|j: int| 0 <= j < m.len() ==> m[j].0@ != id,
    ensures
        id_lookup(m, id) is None,
    decreases m.len(),
{
    if m.len() > 0 {
        lemma_lookup_none(m.drop_first(), id);
    }
}

proof fn lemma_lookup_update_other<V>(m: Seq<(String, V)>, i: int, e: (String, V), k: Seq<char>)
    requires
        0 <= i < m.len(),
        m[i].0@ == e.0@,
        k != e.0@,
    ensures
        id_lookup(m.update(i, e), k) == id_lookup(m, k),
    decreases m.len(),
{
    if i == 0 {
        assert(m.update(0, e).drop_first() =~= m.drop_first());
    } else {
        if m[0].0@ != k {
            assert(m.update(i, e).drop_first() =~= m.drop_first().update(i - 1, e));
            lemma_lookup_update_other(m.drop_first(), i - 1, e, k);
        }
    }
}

proof fn lemma_lookup_push_other<V>(m: Seq<(String, V)>, e: (String, V), k: Seq<char>)
    requires
        k != e.0@,
    ensures
        id_lookup(m.push(e), k) == id_lookup(m, k),
    decreases m.len(),
{
    let p = m.push(e);
    if m.len() == 0 {
        assert(p[0] == e);
        assert(p.drop_first() =~= Seq::<(String, V)>::empty());
        assert(id_lookup(p, k) is None);
    } else {
        assert(p[0] == m[0]);
        if m[0].0@ != k {
            assert(p.drop_first() =~= m.drop_first().push(e));
            lemma_lookup_push_other(m.drop_first(), e, k);
        }
    }
}

proof fn lemma_lookup_remove_other<V>(m: Seq<(String, V)>, i: int, k: Seq<char>)
    requires
        0 <= i < m.len(),
        k != m[i].0@,
    ensures
        id_lookup(m.remove(i), k) == id_lookup(m, k),
    decreases m.len(),
{
    if i == 0 {
        assert(m.remove(0) =~= m.drop_first());
    } else {
        if m[0].0@ != k {
            assert(m.remove(i).drop_first() =~= m.drop_first().remove(i - 1));
            lemma_lookup_remove_other(m.drop_first(), i - 1, k);
        } else {
            assert(m.remove(i)[0] == m[0]);
        }
    }
}

/// An id-keyed record map, stored as a vector of pairs with pairwise
/// distinct ids (`wf`). Lookups compare the key text, so contracts are
/// stated over `id_lookup` of the view.
pub struct IdMap<V> {
    pub entries: Vec<(String, V)>,
}

impl<V> View for IdMap<V> {
    type V = Seq<(String, V)>;

    open spec fn view(&self) -> Seq<(String, V)> {
        self.entries@
    }
}

impl<V> IdMap<V> {
    /// All stored ids are pairwise distinct.
    pub open spec fn wf(self) -> bool {
        unique_ids(self@)
    }

    pub fn new() -> (r: Self)
        ensures
            r.wf(),
            r@.len() == 0,
    {
        IdMap { entries: Vec::new() }
    }

    /// The record stored under `id`, if any.
    pub fn get<'a>(&'a self, id: &String) -> (r: Option<&'a V>)
        ensures
            (r matches Some(v) ==> id_lookup(self@, id@) == Some(*v)),
            r is None ==> id_lookup(self@, id@) is None,
    {
        let n = self.entries.len();
        let mut i: usize = 0;
        while i < n
            invariant
                n == self.entries@.len(),
                0 <= i <= n,
                forall|j: int| 0 <= j < i ==> self.entries@[j].0@ != id@,
            decreases n - i,
        {
            if self.entries[i].0 == *id {
                proof {
                    lemma_lookup_found(self.entries@, id@, i as int);
                }
                return Some(&self.entries[i].1);
            }
            i += 1;
        }
        proof {
            lemma_lookup_none(self.entries@, id@);
        }
        None
    }

    /// Stores `value` under `id`, replacing any record already there;
    /// every other id keeps its record.
    pub fn set(&mut self, id: String, value: V)
        requires
            old(self).wf(),
        ensures
            final(self).wf(),
            id_lookup(final(self)@, id@) == Some(value),
            forall|k: Seq<char>| k != id@ ==> id_lookup(final(self)@, k) == id_lookup(old(self)@, k),
    {
        let ghost e: (String, V) = (id, value);
        let n = self.entries.len();
        let mut i: usize = 0;
        while i < n
            invariant
                old(self).wf(),
                *self == *old(self),
                n == self.entries@.len(),
                0 <= i <= n,
                forall|j: int| 0 <= j < i ==> self.entries@[j].0@ != id@,
                e.0 == id && e.1 == value,
            decreases n - i,
        {
            if self.entries[i].0 == id {
                let ghost m = self.entries@;
                let ghost at: int = i as int;
                self.entries.set(i, (id, value));
                proof {
                    assert(self.entries@ =~= m.update(at, e));
                    lemma_lookup_found(self.entries@, e.0@, at);
                    assert forall|k: Seq<char>| k != e.0@ implies id_lookup(self.entries@, k)
                        == id_lookup(m, k) by {
                        lemma_lookup_update_other(m, at, e, k);
                    }
                    assert forall|x: int| 0 <= x < m.len() implies self.entries@[x].0@
                        == m[x].0@ by {
                        if x != at {
                            assert(self.entries@[x] == m[x]);
                        }
                    }
                    assert(unique_ids(self.entries@));
                }
                return;
            }
            i += 1;
        }
        let ghost m = self.entries@;
        self.entries.push((id, value));
        proof {
            assert(self.entries@ =~= m.push(e));
            lemma_lookup_found(self.entries@, e.0@, m.len() as int);
            assert forall|k: Seq<char>| k != e.0@ implies id_lookup(self.entries@, k)
                == id_lookup(m, k) by {
                lemma_lookup_push_other(m, e, k);
            }
            assert(unique_ids(self.entries@));
        }
    }

    /// Deletes the record under `id` if one exists; reports whether it did.
    /// Every other id keeps its record; a miss leaves the map untouched.
    pub fn remove(&mut self, id: &String) -> (r: bool)
        requires
            old(self).wf(),
        ensures
            final(self).wf(),
            r == id_has_key(old(self)@, id@),
            id_lookup(final(self)@, id@) is None,
            forall|k: Seq<char>| k != id@ ==> id_lookup(final(self)@, k) == id_lookup(old(self)@, k),
            !r ==> *final(self) == *old(self),
    {
        let n = self.entries.len();
        let mut i: usize = 0;
        while i < n
            invariant
                old(self).wf(),
                *self == *old(self),
                n == self.entries@.len(),
                0 <= i <= n,
                forall|j: int| 0 <= j < i ==> self.entries@[j].0@ != id@,
            decreases n - i,
        {
            if self.entries[i].0 == *id {
                let ghost m = self.entries@;
                let ghost at: int = i as int;
                self.entries.remove(i);
                proof {
                    m.remove_ensures(at);
                    assert(self.entries@ =~= m.remove(at));
                    assert(id_has_key(m, id@));
                    assert forall|j: int| 0 <= j < self.entries@.len() implies self.entries@[j].0@
                        != id@ by {
                        if j < at {
                            assert(self.entries@[j] == m[j]);
                            assert(m[j].0@ != m[at].0@);
                        } else {
                            assert(self.entries@[j] == m[j + 1]);
                            assert(m[at].0@ != m[j + 1].0@);
                        }
                    }
                    lemma_lookup_none(self.entries@, id@);
                    assert forall|k: Seq<char>| k != id@ implies id_lookup(self.entries@, k)
                        == id_lookup(m, k) by {
                        lemma_lookup_remove_other(m, at, k);
                    }
                    assert forall|a: int, b: int| 0 <= a < b < self.entries@.len() implies self.entries@[a].0@
                        != self.entries@[b].0@ by {
                        let a0: int = if a < at { a } else { a + 1 };
                        let b0: int = if b < at { b } else { b + 1 };
                        assert(self.entries@[a] == m[a0]);
                        assert(self.entries@[b] == m[b0]);
                        assert(m[a0].0@ != m[b0].0@);
                    }
                    assert(unique_ids(self.entries@));
                }
                return true;
            }
            i += 1;
        }
        proof {
            lemma_lookup_none(self.entries@, id@);
        }
        false
    }
}

/// The registry of known projects: local paths and remote endpoints, each
/// keyed by a generated id.
pub struct ProjectsList {
    pub local_projects: IdMap<LocalProject>,
    pub remote_projects: IdMap<RemoteProject>,
}

/// Relies on nanoid::format with the crate's default URL-safe alphabet and
/// default length: it returns a randomly generated 21-character id.
#[verifier::external_body]
fn generate_project_id() -> (id: String)
    ensures
        id@.len() == 21,
{
    nanoid::format(nanoid::rngs::default, &nanoid::alphabet::SAFE, 21)
}

impl ProjectsList {
    /// Both record maps hold pairwise distinct ids.
    pub open spec fn wf(self) -> bool {
        self.local_projects.wf() && self.remote_projects.wf()
    }

    pub fn new() -> (r: Self)
        ensures
            r.wf(),
            r.local_projects@.len() == 0,
            r.remote_projects@.len() == 0,
    {
        ProjectsList { local_projects: IdMap::new(), remote_projects: IdMap::new() }
    }

    /// The remote record under `id`, if any: the registry interface the
    /// session manager resolves credentials through.
    pub fn get_remote_project<'a>(&'a self, id: &String) -> (r: Option<&'a RemoteProject>)
        ensures
            (r matches Some(p) ==> id_lookup(self.remote_projects@, id@) == Some(*p)),
            r is None ==> id_lookup(self.remote_projects@, id@) is None,
    {
        self.remote_projects.get(id)
    }

    /// Registers a local project under a freshly generated id and returns
    /// that id; remote records are untouched.
    pub fn add_local_project(&mut self, path: String) -> (id: String)
        requires
            old(self).wf(),
        ensures
            final(self).wf(),
            id@.len() == 21,
            (id_lookup(final(self).local_projects@, id@) matches Some(p) && p.path@ == path@),
            forall|k: Seq<char>|
                k != id@ ==> id_lookup(final(self).local_projects@, k) == id_lookup(
                    old(self).local_projects@,
                    k,
                ),
            final(self).remote_projects == old(self).remote_projects,
    {
        let id = generate_project_id();
        self.local_projects.set(id.clone(), LocalProject { path });
        id
    }

    /// Registers a remote project under a freshly generated id and returns
    /// that id; local records are untouched.
    pub fn add_remote_project(&mut self, host: String, port: u16, user: String, password: String) -> (id:
        String)
        requires
            old(self).wf(),
        ensures
            final(self).wf(),
            id@.len() == 21,
            (id_lookup(final(self).remote_projects@, id@) matches Some(p) && p.host@ == host@
                && p.port == port && p.user@ == user@ && p.password@ == password@),
            forall|k: Seq<char>|
                k != id@ ==> id_lookup(final(self).remote_projects@, k) == id_lookup(
                    old(self).remote_projects@,
                    k,
                ),
            final(self).local_projects == old(self).local_projects,
    {
        let id = generate_project_id();
        self.remote_projects.set(id.clone(), RemoteProject { host, port, user, password });
        id
    }

    /// Deletes the local record under `id`, or reports `NotFound` carrying
    /// the id when no such record exists (the registry is then unchanged).
    pub fn remove_local_project(&mut self, id: &String) -> (r: Result<(), SshError>)
        requires
            old(self).wf(),
        ensures
            final(self).wf(),
            (r matches Ok(()) ==> id_has_key(old(self).local_projects@, id@) && id_lookup(
                final(self).local_projects@,
                id@,
            ) is None && (forall|k: Seq<char>|
                k != id@ ==> id_lookup(final(self).local_projects@, k) == id_lookup(
                    old(self).local_projects@,
                    k,
                )) && final(self).remote_projects == old(self).remote_projects),
            (r matches Err(e) ==> !id_has_key(old(self).local_projects@, id@) && (e matches SshError::NotFound(n)
                && n@ == id@) && *final(self) == *old(self)),
    {
        if self.local_projects.remove(id) {
            Ok(())
        } else {
            Err(SshError::NotFound(id.clone()))
        }
    }

    /// Deletes the remote record under `id`, or reports `NotFound` carrying
    /// the id when no such record exists (the registry is then unchanged).
    pub fn remove_remote_project(&mut self, id: &String) -> (r: Result<(), SshError>)
        requires
            old(self).wf(),
        ensures
            final(self).wf(),
            (r matches Ok(()) ==> id_has_key(old(self).remote_projects@, id@) && id_lookup(
                final(self).remote_projects@,
                id@,
            ) is None && (forall|k: Seq<char>|
                k != id@ ==> id_lookup(final(self).remote_projects@, k) == id_lookup(
                    old(self).remote_projects@,
                    k,
                )) && final(self).local_projects == old(self).local_projects),
            (r matches Err(e) ==> !id_has_key(old(self).remote_projects@, id@) && (e matches SshError::NotFound(n)
                && n@ == id@) && *final(self) == *old(self)),
    {
        if self.remote_projects.remove(id) {
            Ok(())
        } else {
            Err(SshError::NotFound(id.clone()))
        }
    }
}

} // verus!
