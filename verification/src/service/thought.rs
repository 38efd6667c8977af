//! The thought service coordinates the three stores: it resolves referenced
//! aggregates, delegates the write to the owning store, and publishes one
//! event per committed mutation — resolve, then mutate, then publish. A
//! failure while resolving aborts the command with no state change and no
//! event. A publish failure is surfaced even though the mutation has already
//! committed; the ghost event log records exactly the events the channel
//! accepted, in order.

use vstd::prelude::*;
use crate::adapter::note_book::{InMemoryNoteBook, NoteBook};
use crate::adapter::project_book::{InMemoryProjectBook, ProjectBook, ProjectBookError};
use crate::adapter::thought_book::{InMemoryThoughtBook, ThoughtBook, ThoughtBookError};
use crate::models::event::{ModelEvent, ModelKind};
use crate::models::note::{CreateNoteCommand, Note, NoteChangeKind};
use crate::models::project::{CreateProjectCommand, Project, ProjectChangeKind};
use crate::models::thought::{CreateThoughtCommand, Thought, ThoughtChangeKind};
use crate::models::ValidationError;
use crate::runtime::{channel_send, now_micros};
use crate::slug::slug_of;
use crate::text::trimmed;

verus! {

/// The errors the service reports. All are recoverable, domain-level
/// outcomes except [`ThoughtServiceError::Infrastructure`].
#[derive(Debug)]
pub enum ThoughtServiceError {
    /// No project owns this slug.
    ProjectNotFound(String),
    /// No note has this identifier.
    NoteNotFound(u128),
    /// A project with this slug already exists.
    ProjectAlreadyExists(String),
    /// The universe does not exist.
    UniverseNotFound,
    /// The command names a parent thought that does not exist.
    InvalidParentReference(u128),
    /// The command was malformed.
    Validation(ValidationError),
    /// The event channel is closed or the store could not take the entity.
    /// The mutation may have committed even though the command failed; the
    /// contract of each method says exactly when.
    Infrastructure,
}

/// The event that records a change to a note.
pub open spec fn note_event(e: ModelEvent, n: Note, kind: NoteChangeKind) -> bool {
    e.model == (ModelKind::Note {
        note_id: n.note_id,
        project_id: n.project_id,
        change_kind: kind,
    })
}

/// The event that records a change to a project.
pub open spec fn project_event(e: ModelEvent, p: Project, kind: ProjectChangeKind) -> bool {
    e.model == (ModelKind::Project {
        project_id: p.project_id,
        universe_id: p.universe_id,
        change_kind: kind,
    })
}

/// The event that records a change to a thought.
pub open spec fn thought_event(e: ModelEvent, t: Thought, kind: ThoughtChangeKind) -> bool {
    e.model == (ModelKind::Thought {
        thought_id: t.thought_id,
        project_id: t.project_id,
        change_kind: kind,
    })
}

/// The domain service. It owns the three stores and the sending half of the
/// event channel; the ghost `events` field records the events the channel
/// accepted, in the order it accepted them.
pub struct ThoughtService {
    /// The note store.
    pub note_book: InMemoryNoteBook,
    /// The project store.
    pub project_book: InMemoryProjectBook,
    /// The thought store.
    pub thought_book: InMemoryThoughtBook,
    /// The sending half of the event channel.
    pub sender: tokio::sync::mpsc::UnboundedSender<ModelEvent>,
    /// The events published so far, oldest first.
    pub events: Ghost<Seq<ModelEvent>>,
}

impl ThoughtService {
    /// The stores are well-formed.
    pub open spec fn wf(&self) -> bool {
        &&& self.note_book.wf()
        &&& self.project_book.wf()
        &&& self.thought_book.wf()
    }

    /// Builds a service over the given stores and channel, with an empty
    /// event log.
    pub fn new(
        note_book: InMemoryNoteBook,
        project_book: InMemoryProjectBook,
        thought_book: InMemoryThoughtBook,
        sender: tokio::sync::mpsc::UnboundedSender<ModelEvent>,
    ) -> (r: Self)
        requires
            note_book.wf(),
            project_book.wf(),
            thought_book.wf(),
        ensures
            r.wf(),
            r.note_book == note_book,
            r.project_book == project_book,
            r.thought_book == thought_book,
            r.events@ == Seq::<ModelEvent>::empty(),
    {
        ThoughtService { note_book, project_book, thought_book, sender, events: Ghost(Seq::empty()) }
    }

    /// Hands one event to the channel. On success the event is appended to
    /// the log; a closed channel changes nothing and is reported. The stores
    /// are never touched.
    fn send_message(&mut self, event: ModelEvent) -> (r: Result<(), ThoughtServiceError>)
        ensures
            final(self).note_book == old(self).note_book,
            final(self).project_book == old(self).project_book,
            final(self).thought_book == old(self).thought_book,
            final(self).sender == old(self).sender,
            match r {
                Ok(()) => final(self).events@ == old(self).events@.push(event),
                Err(e) => {
                    &&& e == ThoughtServiceError::Infrastructure
                    &&& final(self).events@ == old(self).events@
                },
            },
    {
        if channel_send(&self.sender, event) {
            self.events = Ghost(self.events@.push(event));
            Ok(())
        } else {
            Err(ThoughtServiceError::Infrastructure)
        }
    }

    /// Creates a note under the project the slug resolves to. The slug must
    /// resolve — slugs cannot be turned back into names, so the project must
    /// already exist. If it does not, nothing is stored and nothing is
    /// published.
    pub fn create_note(&mut self, command: CreateNoteCommand) -> (r: Result<
        Note,
        ThoughtServiceError,
    >)
        requires
            old(self).wf(),
        ensures
            final(self).wf(),
            final(self).project_book == old(self).project_book,
            final(self).thought_book == old(self).thought_book,
            final(self).sender == old(self).sender,
            match r {
                Ok(n) => {
                    &&& old(self).project_book.slugs@.contains_key(command.project_slug@)
                    &&& n.project_id == old(self).project_book.slugs@[command.project_slug@]
                    &&& n.imported_at == command.imported_at
                    &&& n.stylo_id == command.stylo_id
                    &&& n.content == command.content
                    &&& final(self).note_book.notes@ == old(self).note_book.notes@.insert(
                        n.note_id,
                        n,
                    )
                    &&& final(self).events@ == old(self).events@.push(final(self).events@.last())
                    &&& note_event(final(self).events@.last(), n, NoteChangeKind::Created)
                },
                Err(ThoughtServiceError::ProjectNotFound(s)) => {
                    &&& s@ == command.project_slug@
                    &&& !old(self).project_book.slugs@.contains_key(command.project_slug@)
                    &&& final(self).note_book == old(self).note_book
                    &&& final(self).events@ == old(self).events@
                },
                Err(ThoughtServiceError::Infrastructure) => {
                    &&& old(self).project_book.slugs@.contains_key(command.project_slug@)
                    &&& exists|n: Note|
                        {
                            &&& n.project_id == old(self).project_book.slugs@[command.project_slug@]
                            &&& n.imported_at == command.imported_at
                            &&& n.stylo_id == command.stylo_id
                            &&& n.content == command.content
                            &&& final(self).note_book.notes@ == #[trigger] old(
                                self,
                            ).note_book.notes@.insert(n.note_id, n)
                        }
                    &&& final(self).events@ == old(self).events@
                },
                Err(_) => false,
            },
    {
        let project = match self.project_book.get_by_slug(&command.project_slug) {
            Some(p) => p,
            None => {
                return Err(ThoughtServiceError::ProjectNotFound(command.project_slug));
            },
        };
        let note = self.note_book.add(command, project.project_id);
        let event = ModelEvent {
            model: ModelKind::Note {
                note_id: note.note_id,
                project_id: note.project_id,
                change_kind: NoteChangeKind::Created,
            },
            timestamp: now_micros(),
        };
        match self.send_message(event) {
            Ok(()) => Ok(note),
            Err(e) => {
                proof {
                    assert(final(self).note_book.notes@ == old(self).note_book.notes@.insert(
                        note.note_id,
                        note,
                    ));
                }
                Err(e)
            },
        }
    }

    /// Scratches a note: removes it for good and publishes the scratch. A
    /// missing note is reported and nothing changes.
    pub fn scratch_note(&mut self, note_id: u128) -> (r: Result<Note, ThoughtServiceError>)
        requires
            old(self).wf(),
        ensures
            final(self).wf(),
            final(self).project_book == old(self).project_book,
            final(self).thought_book == old(self).thought_book,
            final(self).sender == old(self).sender,
            match r {
                Ok(n) => {
                    &&& old(self).note_book.notes@.contains_key(note_id)
                    &&& n == old(self).note_book.notes@[note_id]
                    &&& final(self).note_book.notes@ == old(self).note_book.notes@.remove(note_id)
                    &&& final(self).events@ == old(self).events@.push(final(self).events@.last())
                    &&& note_event(final(self).events@.last(), n, NoteChangeKind::Scratched)
                },
                Err(ThoughtServiceError::NoteNotFound(id)) => {
                    &&& id == note_id
                    &&& !old(self).note_book.notes@.contains_key(note_id)
                    &&& final(self).note_book.notes@ == old(self).note_book.notes@
                    &&& final(self).events@ == old(self).events@
                },
                Err(ThoughtServiceError::Infrastructure) => {
                    &&& old(self).note_book.notes@.contains_key(note_id)
                    &&& final(self).note_book.notes@ == old(self).note_book.notes@.remove(note_id)
                    &&& final(self).events@ == old(self).events@
                },
                Err(_) => false,
            },
    {
        let note = match self.note_book.delete(note_id) {
            Some(n) => n,
            None => {
                return Err(ThoughtServiceError::NoteNotFound(note_id));
            },
        };
        let event = ModelEvent {
            model: ModelKind::Note {
                note_id: note.note_id,
                project_id: note.project_id,
                change_kind: NoteChangeKind::Scratched,
            },
            timestamp: now_micros(),
        };
        match self.send_message(event) {
            Ok(()) => Ok(note),
            Err(e) => Err(e),
        }
    }

    /// Creates a project: the slug is derived and checked before the store
    /// is asked, as a fast path — the store's own atomic check remains the
    /// source of truth. On success the creation event is published.
    pub fn create_project(&mut self, command: CreateProjectCommand) -> (r: Result<
        Project,
        ThoughtServiceError,
    >)
        requires
            old(self).wf(),
        ensures
            create_project_transition(*old(self), *final(self), command, r),
    {
        let slug = Project::generate_slug(command.project_name.as_str());
        if self.project_book.get_by_slug(&slug).is_some() {
            return Err(ThoughtServiceError::ProjectAlreadyExists(slug));
        }
        let project = match self.project_book.create(command) {
            Ok(p) => p,
            Err(ProjectBookError::Validation(e)) => {
                return Err(ThoughtServiceError::Validation(e));
            },
            Err(ProjectBookError::DuplicateSlug(s)) => {
                return Err(ThoughtServiceError::ProjectAlreadyExists(s));
            },
            Err(ProjectBookError::IdentifierCollision) => {
                return Err(ThoughtServiceError::Infrastructure);
            },
            Err(ProjectBookError::ProjectNotFound(_)) => {
                return Err(ThoughtServiceError::Infrastructure);
            },
        };
        let event = ModelEvent {
            model: ModelKind::Project {
                project_id: project.project_id,
                universe_id: project.universe_id,
                change_kind: ProjectChangeKind::Created,
            },
            timestamp: now_micros(),
        };
        match self.send_message(event) {
            Ok(()) => Ok(project),
            Err(e) => Err(e),
        }
    }

    /// Creates a thought under the project the slug resolves to. A named
    /// parent must resolve too, or the command is rejected before the store
    /// changes and no event is published.
    pub fn create_thought(&mut self, command: CreateThoughtCommand) -> (r: Result<
        Thought,
        ThoughtServiceError,
    >)
        requires
            old(self).wf(),
        ensures
            final(self).wf(),
            final(self).note_book == old(self).note_book,
            final(self).project_book == old(self).project_book,
            final(self).sender == old(self).sender,
            match r {
                Ok(t) => {
                    &&& old(self).project_book.slugs@.contains_key(command.project_slug@)
                    &&& t.project_id == old(self).project_book.slugs@[command.project_slug@]
                    &&& match command.parent_id {
                        Some(p) => old(self).thought_book.thoughts@.contains_key(p),
                        None => true,
                    }
                    &&& t.parent_id == command.parent_id
                    &&& t.imported_at == command.imported_at
                    &&& t.stylo_id == command.stylo_id
                    &&& t.content == command.content
                    &&& final(self).thought_book.thoughts@ == old(
                        self,
                    ).thought_book.thoughts@.insert(t.thought_id, t)
                    &&& final(self).events@ == old(self).events@.push(final(self).events@.last())
                    &&& thought_event(final(self).events@.last(), t, ThoughtChangeKind::Created)
                },
                Err(ThoughtServiceError::ProjectNotFound(s)) => {
                    &&& s@ == command.project_slug@
                    &&& !old(self).project_book.slugs@.contains_key(command.project_slug@)
                    &&& final(self).thought_book == old(self).thought_book
                    &&& final(self).events@ == old(self).events@
                },
                Err(ThoughtServiceError::InvalidParentReference(p)) => {
                    &&& old(self).project_book.slugs@.contains_key(command.project_slug@)
                    &&& command.parent_id == Some(p)
                    &&& !old(self).thought_book.thoughts@.contains_key(p)
                    &&& final(self).thought_book == old(self).thought_book
                    &&& final(self).events@ == old(self).events@
                },
                Err(ThoughtServiceError::Infrastructure) => {
                    &&& old(self).project_book.slugs@.contains_key(command.project_slug@)
                    &&& match command.parent_id {
                        Some(p) => old(self).thought_book.thoughts@.contains_key(p),
                        None => true,
                    }
                    &&& exists|t: Thought|
                        {
                            &&& t.project_id == old(self).project_book.slugs@[
                                command.project_slug@]
                            &&& t.parent_id == command.parent_id
                            &&& t.imported_at == command.imported_at
                            &&& t.stylo_id == command.stylo_id
                            &&& t.content == command.content
                            &&& final(self).thought_book.thoughts@ == #[trigger] old(
                                self,
                            ).thought_book.thoughts@.insert(t.thought_id, t)
                        }
                    &&& final(self).events@ == old(self).events@
                },
                Err(_) => false,
            },
    {
        let project = match self.project_book.get_by_slug(&command.project_slug) {
            Some(p) => p,
            None => {
                return Err(ThoughtServiceError::ProjectNotFound(command.project_slug));
            },
        };
        if let Some(parent_id) = command.parent_id {
            if self.thought_book.get(parent_id).is_none() {
                return Err(ThoughtServiceError::InvalidParentReference(parent_id));
            }
        }
        let thought = match self.thought_book.add(command, project.project_id) {
            Ok(t) => t,
            Err(ThoughtBookError::InvalidParentReference(p)) => {
                return Err(ThoughtServiceError::InvalidParentReference(p));
            },
        };
        let event = ModelEvent {
            model: ModelKind::Thought {
                thought_id: thought.thought_id,
                project_id: thought.project_id,
                change_kind: ThoughtChangeKind::Created,
            },
            timestamp: now_micros(),
        };
        match self.send_message(event) {
            Ok(()) => Ok(thought),
            Err(e) => {
                proof {
                    assert(final(self).thought_book.thoughts@ == old(
                        self,
                    ).thought_book.thoughts@.insert(thought.thought_id, thought));
                }
                Err(e)
            },
        }
    }
}

/// Everything `create_project` promises, as a relation between the state
/// before the call, the state after it, the command, and the outcome.
pub open spec fn create_project_transition(
    pre: ThoughtService,
    post: ThoughtService,
    command: CreateProjectCommand,
    r: Result<Project, ThoughtServiceError>,
) -> bool {
    &&& post.wf()
    &&& post.note_book == pre.note_book
    &&& post.thought_book == pre.thought_book
    &&& post.sender == pre.sender
    &&& match r {
        Ok(p) => {
            &&& trimmed(command.project_name@).len() > 0
            &&& !pre.project_book.slugs@.contains_key(slug_of(command.project_name@))
            &&& p.project_name@ == trimmed(command.project_name@)
            &&& p.slug@ == slug_of(command.project_name@)
            &&& p.universe_id == command.universe_id
            &&& !p.locked
            &&& post.project_book.projects@ == pre.project_book.projects@.insert(p.project_id, p)
            &&& post.project_book.slugs@ == pre.project_book.slugs@.insert(p.slug@, p.project_id)
            &&& post.events@ == pre.events@.push(post.events@.last())
            &&& project_event(post.events@.last(), p, ProjectChangeKind::Created)
        },
        Err(ThoughtServiceError::ProjectAlreadyExists(s)) => {
            &&& s@ == slug_of(command.project_name@)
            &&& pre.project_book.slugs@.contains_key(s@)
            &&& post.project_book.projects@ == pre.project_book.projects@
            &&& post.project_book.slugs@ == pre.project_book.slugs@
            &&& post.events@ == pre.events@
        },
        Err(ThoughtServiceError::Validation(e)) => {
            &&& trimmed(command.project_name@).len() == 0
            &&& e == ValidationError::EmptyProjectName
            &&& !pre.project_book.slugs@.contains_key(slug_of(command.project_name@))
            &&& post.project_book.projects@ == pre.project_book.projects@
            &&& post.project_book.slugs@ == pre.project_book.slugs@
            &&& post.events@ == pre.events@
        },
        Err(ThoughtServiceError::Infrastructure) => {
            &&& trimmed(command.project_name@).len() > 0
            &&& !pre.project_book.slugs@.contains_key(slug_of(command.project_name@))
            &&& post.events@ == pre.events@
            &&& ((post.project_book.projects@ == pre.project_book.projects@
                && post.project_book.slugs@ == pre.project_book.slugs@ && exists|id: u128|
                #[trigger] pre.project_book.projects@.contains_key(id)) || exists|p: Project|
                {
                    &&& !pre.project_book.projects@.contains_key(p.project_id)
                    &&& p.project_name@ == trimmed(command.project_name@)
                    &&& p.slug@ == slug_of(command.project_name@)
                    &&& p.universe_id == command.universe_id
                    &&& !p.locked
                    &&& post.project_book.projects@ == #[trigger] pre.project_book.projects@.insert(
                        p.project_id,
                        p,
                    )
                    &&& post.project_book.slugs@ == pre.project_book.slugs@.insert(
                        p.slug@,
                        p.project_id,
                    )
                })
        },
        Err(_) => false,
    }
}

/// Slug uniqueness under contention: two project creations whose names
/// collide to the same slug, run one after the other on the shared store —
/// in any interleaving the lock admits — create exactly one project between
/// them: the first one creates it and the second observes
/// `ProjectAlreadyExists`, whichever call came first, whatever happens to
/// the second call's event channel. The one outcome left aside is an
/// infrastructure failure of the first call itself (a closed channel or a
/// colliding random identifier), which the contract surfaces to its caller.
pub proof fn lemma_colliding_creates(
    s0: ThoughtService,
    s1: ThoughtService,
    s2: ThoughtService,
    c1: CreateProjectCommand,
    c2: CreateProjectCommand,
    r1: Result<Project, ThoughtServiceError>,
    r2: Result<Project, ThoughtServiceError>,
)
    requires
        create_project_transition(s0, s1, c1, r1),
        create_project_transition(s1, s2, c2, r2),
        slug_of(c1.project_name@) == slug_of(c2.project_name@),
        trimmed(c1.project_name@).len() > 0,
        trimmed(c2.project_name@).len() > 0,
        !s0.project_book.slugs@.contains_key(slug_of(c1.project_name@)),
        !(r1 matches Err(ThoughtServiceError::Infrastructure)),
    ensures
        r1 is Ok,
        r2 matches Err(ThoughtServiceError::ProjectAlreadyExists(_)),
{
}

} // verus!
