//! The project store: the repository contract, and the in-memory
//! implementation with its primary map from identifier to project and the
//! secondary slug index, kept consistent inside every critical section. The
//! global slug-uniqueness invariant lives here.

use vstd::prelude::*;
use crate::adapter::slug_index::SlugIndex;
use crate::models::project::{CreateProjectCommand, Project};
use crate::models::ValidationError;
use crate::slug::{is_slug, slug_of};
use crate::text::trimmed;

verus! {

broadcast use vstd::std_specs::hash::group_hash_axioms;

/// The project store's own errors: domain-reported outcomes, not crashes.
#[derive(Debug)]
pub enum ProjectBookError {
    /// No project has this identifier.
    ProjectNotFound(u128),
    /// A different project already owns this slug.
    DuplicateSlug(String),
    /// The creation command was malformed.
    Validation(ValidationError),
    /// The freshly drawn identifier is already taken; nothing was changed.
    IdentifierCollision,
}

/// What a project store must do, stated over the map of projects it holds
/// and the slug index over them. The in-memory store below implements it; a
/// durable store would have to meet the same contract, the atomicity of
/// each compound operation included.
pub trait ProjectBook: Sized {
    /// The projects the store holds, keyed by identifier.
    spec fn model(&self) -> Map<u128, Project>;

    /// The slug index: which project each slug belongs to.
    spec fn slug_model(&self) -> Map<Seq<char>, u128>;

    /// The store's internal invariant.
    spec fn inv(&self) -> bool;

    /// Creates a project from the command: validation first, then the
    /// duplicate-slug check and the insert into both maps, all in one
    /// critical section. The drawn identifier is random; should it already
    /// be taken, the store is left unchanged and the collision is reported.
    fn create(&mut self, command: CreateProjectCommand) -> (r: Result<Project, ProjectBookError>)
        requires
            old(self).inv(),
        ensures
            final(self).inv(),
            match r {
                Ok(p) => {
                    &&& trimmed(command.project_name@).len() > 0
                    &&& !old(self).slug_model().contains_key(slug_of(command.project_name@))
                    &&& !old(self).model().contains_key(p.project_id)
                    &&& p.project_name@ == trimmed(command.project_name@)
                    &&& p.slug@ == slug_of(command.project_name@)
                    &&& p.universe_id == command.universe_id
                    &&& !p.locked
                    &&& final(self).model() == old(self).model().insert(p.project_id, p)
                    &&& final(self).slug_model() == old(self).slug_model().insert(
                        p.slug@,
                        p.project_id,
                    )
                },
                Err(ProjectBookError::Validation(e)) => {
                    &&& trimmed(command.project_name@).len() == 0
                    &&& e == ValidationError::EmptyProjectName
                    &&& final(self).model() == old(self).model()
                    &&& final(self).slug_model() == old(self).slug_model()
                },
                Err(ProjectBookError::DuplicateSlug(s)) => {
                    &&& trimmed(command.project_name@).len() > 0
                    &&& s@ == slug_of(command.project_name@)
                    &&& old(self).slug_model().contains_key(s@)
                    &&& final(self).model() == old(self).model()
                    &&& final(self).slug_model() == old(self).slug_model()
                },
                Err(ProjectBookError::IdentifierCollision) => {
                    &&& trimmed(command.project_name@).len() > 0
                    &&& !old(self).slug_model().contains_key(slug_of(command.project_name@))
                    &&& exists|id: u128| #[trigger] old(self).model().contains_key(id)
                    &&& final(self).model() == old(self).model()
                    &&& final(self).slug_model() == old(self).slug_model()
                },
                Err(ProjectBookError::ProjectNotFound(_)) => false,
            },
    ;

    /// Installs an already-built project whose slug is free: the one step of
    /// `create` that depends on the drawn identifier, and the outcome is
    /// decided entirely by that identifier — success is owed when it is not
    /// yet taken, and the collision is reported, with nothing changed, when
    /// it is.
    fn install(&mut self, project: Project) -> (r: Result<Project, ProjectBookError>)
        requires
            old(self).inv(),
            is_slug(project.slug@),
            !old(self).slug_model().contains_key(project.slug@),
        ensures
            final(self).inv(),
            match r {
                Ok(p) => {
                    &&& p == project
                    &&& !old(self).model().contains_key(project.project_id)
                    &&& final(self).model() == old(self).model().insert(
                        project.project_id,
                        project,
                    )
                    &&& final(self).slug_model() == old(self).slug_model().insert(
                        project.slug@,
                        project.project_id,
                    )
                },
                Err(ProjectBookError::IdentifierCollision) => {
                    &&& old(self).model().contains_key(project.project_id)
                    &&& final(self).model() == old(self).model()
                    &&& final(self).slug_model() == old(self).slug_model()
                },
                Err(_) => false,
            },
    ;

    /// The project an identifier points to, if any; absence is a normal
    /// outcome, not an error.
    fn get(&self, project_id: u128) -> (r: Option<Project>)
        ensures
            match r {
                Some(p) => self.model().contains_key(project_id) && p == self.model()[project_id],
                None => !self.model().contains_key(project_id),
            },
    ;

    /// The project a slug points to, if any. The slug is the canonical
    /// lookup key: names cannot be recovered from it.
    fn get_by_slug(&self, slug: &String) -> (r: Option<Project>)
        requires
            self.inv(),
        ensures
            match r {
                Some(p) => {
                    &&& self.slug_model().contains_key(slug@)
                    &&& self.slug_model()[slug@] == p.project_id
                    &&& self.model().contains_key(p.project_id)
                    &&& p == self.model()[p.project_id]
                    &&& p.slug@ == slug@
                },
                None => !self.slug_model().contains_key(slug@),
            },
    ;

    /// Stores the project under its identifier — an upsert, as documented:
    /// a missing target is inserted, an existing one replaced, and the
    /// identifier itself never changes. The old slug mapping is dropped and
    /// the new one installed in the same critical section; if the new slug
    /// already belongs to a different project the update is rejected whole.
    fn update(&mut self, project: Project) -> (r: Result<Project, ProjectBookError>)
        requires
            old(self).inv(),
            is_slug(project.slug@),
        ensures
            final(self).inv(),
            match r {
                Ok(p) => {
                    &&& p == project
                    &&& !(old(self).slug_model().contains_key(project.slug@) && old(
                        self,
                    ).slug_model()[project.slug@] != project.project_id)
                    &&& final(self).model() == old(self).model().insert(
                        project.project_id,
                        project,
                    )
                    &&& final(self).slug_model() =~= (if old(self).model().contains_key(
                        project.project_id,
                    ) {
                        old(self).slug_model().remove(old(self).model()[project.project_id].slug@)
                    } else {
                        old(self).slug_model()
                    }).insert(project.slug@, project.project_id)
                },
                Err(ProjectBookError::DuplicateSlug(s)) => {
                    &&& s@ == project.slug@
                    &&& old(self).slug_model().contains_key(project.slug@)
                    &&& old(self).slug_model()[project.slug@] != project.project_id
                    &&& final(self).model() == old(self).model()
                    &&& final(self).slug_model() == old(self).slug_model()
                },
                Err(_) => false,
            },
    ;

    /// Removes a project and its slug mapping in one critical section and
    /// returns the removed project; a missing target is reported as not
    /// found. The slug becomes free for reuse.
    fn delete(&mut self, project_id: u128) -> (r: Result<Project, ProjectBookError>)
        requires
            old(self).inv(),
        ensures
            final(self).inv(),
            match r {
                Ok(p) => {
                    &&& old(self).model().contains_key(project_id)
                    &&& p == old(self).model()[project_id]
                    &&& final(self).model() == old(self).model().remove(project_id)
                    &&& final(self).slug_model() =~= old(self).slug_model().remove(
                        old(self).model()[project_id].slug@,
                    )
                },
                Err(ProjectBookError::ProjectNotFound(id)) => {
                    &&& id == project_id
                    &&& !old(self).model().contains_key(project_id)
                    &&& final(self).model() == old(self).model()
                    &&& final(self).slug_model() == old(self).slug_model()
                },
                Err(_) => false,
            },
    ;

    /// All projects of a universe: exactly the stored projects whose
    /// `universe_id` matches, each once.
    fn list_by_universe(&self, universe_id: u128) -> (r: Vec<Project>)
        requires
            self.inv(),
        ensures
            forall|j: int|
                0 <= j < r@.len() ==> {
                    let p = #[trigger] r@[j];
                    &&& self.model().contains_key(p.project_id)
                    &&& p == self.model()[p.project_id]
                    &&& p.universe_id == universe_id
                },
            forall|id: u128|
                self.model().contains_key(id) && (#[trigger] self.model()[id]).universe_id
                    == universe_id ==> r@.contains(self.model()[id]),
            forall|a: int, b: int|
                0 <= a < b < r@.len() ==> (#[trigger] r@[a]).project_id != (
                #[trigger] r@[b]).project_id,
    ;
}

/// In-memory implementation of the project store.
pub struct InMemoryProjectBook {
    /// The projects, keyed by their identifier.
    pub projects: std::collections::HashMap<u128, Project>,
    /// The secondary index from slug to owning project.
    pub slugs: SlugIndex,
}

impl Default for InMemoryProjectBook {
    /// An empty project store.
    fn default() -> (r: Self)
        ensures
            r.wf(),
            r.projects@ == Map::<u128, Project>::empty(),
            r.slugs@ == Map::<Seq<char>, u128>::empty(),
    {
        InMemoryProjectBook {
            projects: std::collections::HashMap::new(),
            slugs: SlugIndex::new(),
        }
    }
}

impl InMemoryProjectBook {
    /// The two maps describe each other: every project is keyed by its
    /// identifier, carries a well-formed slug that the index maps back to
    /// it, and every index entry points at a project that carries that very
    /// slug. Slug uniqueness across all projects follows.
    pub open spec fn wf(&self) -> bool {
        &&& self.slugs.wf()
        &&& forall|id: u128|
            self.projects@.contains_key(id) ==> {
                let p = #[trigger] self.projects@[id];
                &&& p.project_id == id
                &&& is_slug(p.slug@)
                &&& self.slugs@.contains_key(p.slug@)
                &&& self.slugs@[p.slug@] == id
            }
        &&& forall|s: Seq<char>|
            self.slugs@.contains_key(s) ==> {
                let id = #[trigger] self.slugs@[s];
                &&& self.projects@.contains_key(id)
                &&& self.projects@[id].slug@ == s
            }
    }
}

impl ProjectBook for InMemoryProjectBook {
    open spec fn model(&self) -> Map<u128, Project> {
        self.projects@
    }

    open spec fn slug_model(&self) -> Map<Seq<char>, u128> {
        self.slugs@
    }

    open spec fn inv(&self) -> bool {
        self.wf()
    }

    fn create(&mut self, command: CreateProjectCommand) -> (r: Result<Project, ProjectBookError>) {
        let project = match Project::create(command) {
            Ok(p) => p,
            Err(e) => {
                return Err(ProjectBookError::Validation(e));
            },
        };
        if self.slugs.get(&project.slug).is_some() {
            return Err(ProjectBookError::DuplicateSlug(project.slug));
        }
        self.install(project)
    }

    fn install(&mut self, project: Project) -> (r: Result<Project, ProjectBookError>) {
        if self.projects.contains_key(&project.project_id) {
            return Err(ProjectBookError::IdentifierCollision);
        }
        self.slugs.insert(project.slug.clone(), project.project_id);
        self.projects.insert(project.project_id, project.clone());
        proof {
            assert forall|s: Seq<char>| self.slugs@.contains_key(s) implies {
                let id = #[trigger] self.slugs@[s];
                &&& self.projects@.contains_key(id)
                &&& self.projects@[id].slug@ == s
            } by {
                if s != project.slug@ {
                    assert(old(self).slugs@.contains_key(s));
                }
            }
        }
        Ok(project)
    }

    fn get(&self, project_id: u128) -> (r: Option<Project>) {
        match self.projects.get(&project_id) {
            Some(p) => Some(p.clone()),
            None => None,
        }
    }

    fn get_by_slug(&self, slug: &String) -> (r: Option<Project>) {
        match self.slugs.get(slug) {
            Some(project_id) => self.get(project_id),
            None => None,
        }
    }

    fn update(&mut self, project: Project) -> (r: Result<Project, ProjectBookError>) {
        let conflict = match self.slugs.get(&project.slug) {
            Some(id) => id != project.project_id,
            None => false,
        };
        if conflict {
            return Err(ProjectBookError::DuplicateSlug(project.slug.clone()));
        }
        let old_slug: Option<String> = match self.projects.get(&project.project_id) {
            Some(existing) => Some(existing.slug.clone()),
            None => None,
        };
        if let Some(s) = old_slug {
            self.slugs.remove(&s);
        }
        self.slugs.insert(project.slug.clone(), project.project_id);
        self.projects.insert(project.project_id, project.clone());
        proof {
            let prior = old(self).projects@;
            let k = project.project_id;
            assert forall|id: u128| self.projects@.contains_key(id) implies {
                let p = #[trigger] self.projects@[id];
                &&& p.project_id == id
                &&& is_slug(p.slug@)
                &&& self.slugs@.contains_key(p.slug@)
                &&& self.slugs@[p.slug@] == id
            } by {
                if id != k {
                    assert(prior.contains_key(id));
                    let p = prior[id];
                    if prior.contains_key(k) && p.slug@ == prior[k].slug@ {
                        assert(old(self).slugs@[p.slug@] == id);
                        assert(old(self).slugs@[prior[k].slug@] == k);
                    }
                    if p.slug@ == project.slug@ {
                        assert(old(self).slugs@[p.slug@] == id);
                    }
                }
            }
            assert forall|s: Seq<char>| self.slugs@.contains_key(s) implies {
                let id = #[trigger] self.slugs@[s];
                &&& self.projects@.contains_key(id)
                &&& self.projects@[id].slug@ == s
            } by {
                if s != project.slug@ {
                    assert(old(self).slugs@.contains_key(s));
                    let id = old(self).slugs@[s];
                    assert(prior.contains_key(id));
                    if id == k {
                        assert(prior[k].slug@ == s);
                    }
                }
            }
        }
        Ok(project)
    }

    fn delete(&mut self, project_id: u128) -> (r: Result<Project, ProjectBookError>) {
        let removed = match self.projects.remove(&project_id) {
            Some(p) => p,
            None => {
                proof {
                    assert(self.projects@ =~= old(self).projects@);
                }
                return Err(ProjectBookError::ProjectNotFound(project_id));
            },
        };
        self.slugs.remove(&removed.slug);
        proof {
            let prior = old(self).projects@;
            assert forall|id: u128| self.projects@.contains_key(id) implies {
                let p = #[trigger] self.projects@[id];
                &&& p.project_id == id
                &&& is_slug(p.slug@)
                &&& self.slugs@.contains_key(p.slug@)
                &&& self.slugs@[p.slug@] == id
            } by {
                let p = prior[id];
                if p.slug@ == removed.slug@ {
                    assert(old(self).slugs@[p.slug@] == id);
                    assert(old(self).slugs@[prior[project_id].slug@] == project_id);
                }
            }
            assert forall|s: Seq<char>| self.slugs@.contains_key(s) implies {
                let id = #[trigger] self.slugs@[s];
                &&& self.projects@.contains_key(id)
                &&& self.projects@[id].slug@ == s
            } by {
                let id = old(self).slugs@[s];
                if id == project_id {
                    assert(prior[project_id].slug@ == s);
                }
            }
        }
        Ok(removed)
    }

    fn list_by_universe(&self, universe_id: u128) -> (r: Vec<Project>) {
        let n = self.slugs.entries.len();
        let mut r: Vec<Project> = Vec::new();
        let mut i: usize = 0;
        while i < n
            invariant
                self.wf(),
                n == self.slugs.entries@.len(),
                0 <= i <= n,
                forall|j: int|
                    0 <= j < r@.len() ==> {
                        let p = #[trigger] r@[j];
                        &&& self.projects@.contains_key(p.project_id)
                        &&& p == self.projects@[p.project_id]
                        &&& p.universe_id == universe_id
                    },
                forall|a: int, b: int|
                    0 <= a < b < r@.len() ==> (#[trigger] r@[a]).slug@ != (#[trigger] r@[b]).slug@,
                forall|j: int|
                    0 <= j < r@.len() ==> exists|e: int|
                        0 <= e < i && (#[trigger] r@[j]).slug@ == (
                        #[trigger] self.slugs.entries@[e]).0@,
                forall|id: u128|
                    (self.projects@.contains_key(id) && (
                    #[trigger] self.projects@[id]).universe_id == universe_id && exists|e: int|
                        0 <= e < i && self.projects@[id].slug@ == (
                        #[trigger] self.slugs.entries@[e]).0@) ==> r@.contains(self.projects@[id]),
            decreases n - i,
        {
            proof {
                crate::adapter::slug_index::lemma_entry_in_map(self.slugs.entries@, i as int);
            }
            let ghost prev = r@;
            let entry_id = self.slugs.entries[i].1;
            match self.get(entry_id) {
                Some(p) => {
                    if p.universe_id == universe_id {
                        proof {
                            assert(self.slugs@[self.slugs.entries@[i as int].0@] == entry_id);
                            assert(p.slug@ == self.slugs.entries@[i as int].0@);
                            assert forall|j: int| 0 <= j < prev.len() implies (
                            #[trigger] prev[j]).slug@ != p.slug@ by {
                                let e = choose|e: int|
                                    0 <= e < i && (#[trigger] prev[j]).slug@ == (
                                    self.slugs.entries@[e]).0@;
                                assert(self.slugs.entries@[e].0@ != self.slugs.entries@[i as int].0@);
                            }
                        }
                        r.push(p);
                    }
                },
                None => {},
            }
            proof {
                assert forall|id: u128|
                    (self.projects@.contains_key(id) && (
                    #[trigger] self.projects@[id]).universe_id == universe_id && exists|e: int|
                        0 <= e < i + 1 && self.projects@[id].slug@ == (
                        #[trigger] self.slugs.entries@[e]).0@) implies r@.contains(
                    self.projects@[id],
                ) by {
                    let p = self.projects@[id];
                    let e = choose|e: int|
                        0 <= e < i + 1 && p.slug@ == (#[trigger] self.slugs.entries@[e]).0@;
                    if e == i {
                        assert(self.slugs@[p.slug@] == id);
                        assert(id == entry_id);
                        assert(r@.last() == p);
                    } else {
                        assert(prev.contains(p));
                        if prev.len() < r@.len() {
                            assert(forall|j: int|
                                0 <= j < prev.len() ==> r@[j] == #[trigger] prev[j]);
                            let j = choose|j: int| 0 <= j < prev.len() && prev[j] == p;
                            assert(r@[j] == p);
                        }
                    }
                }
            }
            i = i + 1;
        }
        proof {
            assert forall|id: u128|
                self.projects@.contains_key(id) && (#[trigger] self.projects@[id]).universe_id
                    == universe_id implies r@.contains(self.projects@[id]) by {
                let p = self.projects@[id];
                assert(self.slugs@.contains_key(p.slug@));
                crate::adapter::slug_index::lemma_present_key(self.slugs.entries@, p.slug@);
            }
            assert forall|a: int, b: int| 0 <= a < b < r@.len() implies (
            #[trigger] r@[a]).project_id != (#[trigger] r@[b]).project_id by {
                if r@[a].project_id == r@[b].project_id {
                    assert(r@[a] == self.projects@[r@[a].project_id]);
                    assert(r@[b] == self.projects@[r@[b].project_id]);
                }
            }
        }
        r
    }
}

} // verus!
