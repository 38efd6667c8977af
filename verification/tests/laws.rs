//! Scenario tests for the cross-cutting guarantees: collision behaviour,
//! no-mutation-on-rejection, terminal deletion, the end-to-end note flow,
//! and the documented publish-failure window.

use kaku::adapter::{
    InMemoryNoteBook, InMemoryProjectBook, InMemoryThoughtBook, NoteBook, ProjectBook, ThoughtBook,
};
use kaku::models::{CreateNoteCommand, CreateProjectCommand, CreateThoughtCommand, ModelEvent};
use kaku::service::{ThoughtService, ThoughtServiceError};
use tokio::sync::mpsc::UnboundedReceiver;
use uuid::Uuid;

fn uid() -> u128 {
    Uuid::new_v4().as_u128()
}

fn now() -> i64 {
    chrono::Utc::now().timestamp_micros()
}

fn service_setup() -> (ThoughtService, UnboundedReceiver<ModelEvent>) {
    let (sender, receiver) = tokio::sync::mpsc::unbounded_channel();
    let service = ThoughtService::new(
        InMemoryNoteBook::default(),
        InMemoryProjectBook::default(),
        InMemoryThoughtBook::default(),
        sender,
    );
    (service, receiver)
}

#[test]
fn test_colliding_creates_one_winner() {
    let (mut service, _receiver) = service_setup();

    // Two names that collapse to the same slug: whichever lands first wins,
    // the other observes the collision.
    let first = CreateProjectCommand {
        universe_id: uid(),
        project_name: "Test Project".to_string(),
    };
    let second = CreateProjectCommand {
        universe_id: uid(),
        project_name: "Test!!!Project".to_string(),
    };

    assert!(service.create_project(first).is_ok());
    let error = service.create_project(second).unwrap_err();
    assert!(matches!(error, ThoughtServiceError::ProjectAlreadyExists(_)));
}

#[test]
fn test_rejected_note_leaves_store_untouched() {
    let (mut service, mut receiver) = service_setup();

    let command = CreateNoteCommand {
        imported_at: now(),
        stylo_id: uid(),
        project_slug: "no-such-project".to_string(),
        content: "Never stored".to_string(),
    };
    let error = service.create_note(command).unwrap_err();

    assert!(matches!(error, ThoughtServiceError::ProjectNotFound(_)));
    assert!(receiver.try_recv().is_err());
}

#[test]
fn test_scratch_twice_reports_not_found() {
    let (mut service, mut receiver) = service_setup();

    let command = CreateNoteCommand {
        imported_at: now(),
        stylo_id: uid(),
        project_slug: "test-project".to_string(),
        content: "Short lived".to_string(),
    };
    let note = service.note_book.add(command, uid());

    assert!(service.scratch_note(note.note_id).is_ok());
    let error = service.scratch_note(note.note_id).unwrap_err();
    assert!(matches!(error, ThoughtServiceError::NoteNotFound(id) if id == note.note_id));

    // exactly one scratch event made it out
    assert!(receiver.try_recv().is_ok());
    assert!(receiver.try_recv().is_err());
}

#[test]
fn test_note_end_to_end() {
    let (mut service, _receiver) = service_setup();

    let project = service
        .create_project(CreateProjectCommand {
            universe_id: uid(),
            project_name: "Test Project 123!@#".to_string(),
        })
        .unwrap();
    assert_eq!(project.slug, "test-project-123");

    let note = service
        .create_note(CreateNoteCommand {
            imported_at: now(),
            stylo_id: uid(),
            project_slug: "test-project-123".to_string(),
            content: "This is a test note".to_string(),
        })
        .unwrap();

    let stored = service.note_book.get(note.note_id).expect("There must be a note.");
    assert_eq!(stored.project_id, project.project_id);

    assert!(service.scratch_note(note.note_id).is_ok());
    assert!(service.note_book.get(note.note_id).is_none());
}

#[test]
fn test_unknown_parent_creates_nothing() {
    let (mut service, mut receiver) = service_setup();

    service
        .create_project(CreateProjectCommand {
            universe_id: uid(),
            project_name: "Test Project".to_string(),
        })
        .unwrap();
    // drain the project creation event
    assert!(receiver.try_recv().is_ok());

    let error = service
        .create_thought(CreateThoughtCommand {
            imported_at: now(),
            parent_id: Some(uid()),
            stylo_id: uid(),
            project_slug: "test-project".to_string(),
            content: "Orphan".to_string(),
        })
        .unwrap_err();

    assert!(matches!(error, ThoughtServiceError::InvalidParentReference(_)));
    assert!(service.thought_book.thoughts.is_empty());
    assert!(receiver.try_recv().is_err());
}

#[test]
fn test_publish_failure_after_commit() {
    let (mut service, receiver) = service_setup();

    // Close the receiving end: publishing must now fail, yet the mutation
    // has already committed — the documented inconsistency window.
    drop(receiver);

    service
        .project_book
        .create(CreateProjectCommand {
            universe_id: uid(),
            project_name: "Test Project".to_string(),
        })
        .unwrap();

    let note = CreateNoteCommand {
        imported_at: now(),
        stylo_id: uid(),
        project_slug: "test-project".to_string(),
        content: "Stored but unannounced".to_string(),
    };
    let error = service.create_note(note).unwrap_err();

    assert!(matches!(error, ThoughtServiceError::Infrastructure));
    assert_eq!(service.note_book.notes.len(), 1);
}
