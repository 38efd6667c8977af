//! Tests of the domain service: resolution, mutation, and event emission.

use kaku::adapter::{
    InMemoryNoteBook, InMemoryProjectBook, InMemoryThoughtBook, NoteBook, ProjectBook, ThoughtBook,
};
use kaku::models::{
    CreateNoteCommand, CreateProjectCommand, CreateThoughtCommand, ModelEvent, ModelKind,
    NoteChangeKind, ProjectChangeKind, ThoughtChangeKind,
};
use kaku::service::{ThoughtService, ThoughtServiceError};
use tokio::sync::mpsc::UnboundedReceiver;
use uuid::Uuid;

fn uid() -> u128 {
    Uuid::new_v4().as_u128()
}

fn now() -> i64 {
    chrono::Utc::now().timestamp_micros()
}

fn service_setup() -> (ThoughtService, UnboundedReceiver<ModelEvent>) {
    let (sender, receiver) = tokio::sync::mpsc::unbounded_channel();
    let service = ThoughtService::new(
        InMemoryNoteBook::default(),
        InMemoryProjectBook::default(),
        InMemoryThoughtBook::default(),
        sender,
    );
    (service, receiver)
}

#[test]
fn test_create_note_success_project_not_exist() {
    let (mut thought_service, mut receiver) = service_setup();

    let command = CreateNoteCommand {
        imported_at: now(),
        stylo_id: uid(),
        project_slug: String::from("test-project"),
        content: "This is a test note.".to_string(),
    };

    let error = thought_service.create_note(command).unwrap_err();

    assert!(matches!(error, ThoughtServiceError::ProjectNotFound(_)));

    // check that the event was not sent
    assert!(receiver.try_recv().is_err());
}

#[test]
fn test_create_note_success_project_exist() {
    let (mut thought_service, mut receiver) = service_setup();

    let project_command = CreateProjectCommand {
        universe_id: uid(),
        project_name: "Test Project".to_string(),
    };
    let project = thought_service.project_book.create(project_command).unwrap();

    let command = CreateNoteCommand {
        imported_at: now(),
        stylo_id: uid(),
        project_slug: project.slug,
        content: "This is a test note.".to_string(),
    };

    let note = thought_service.create_note(command).unwrap();

    assert_eq!(note.content, "This is a test note.");
    assert_eq!(note.project_id, project.project_id);

    // check that the event was sent
    let event = receiver.try_recv().unwrap();
    assert_eq!(
        event.model,
        ModelKind::Note {
            note_id: note.note_id,
            project_id: note.project_id,
            change_kind: NoteChangeKind::Created,
        }
    );
}

#[test]
fn thought_test_scratch_note_success() {
    let (mut thought_service, mut receiver) = service_setup();
    let command = CreateNoteCommand {
        imported_at: now(),
        stylo_id: uid(),
        project_slug: String::from("test-project"),
        content: "This is a test note.".to_string(),
    };
    let note = thought_service.note_book.add(command, uid());
    let note_id = note.note_id;

    let note = thought_service.scratch_note(note_id).unwrap();

    // Check that the note was scratched and is not available anymore
    assert!(thought_service.note_book.get(note_id).is_none());

    // check that the event was sent
    let event = receiver.try_recv().unwrap();
    assert_eq!(
        event.model,
        ModelKind::Note {
            note_id,
            project_id: note.project_id,
            change_kind: NoteChangeKind::Scratched,
        }
    );
}

#[test]
fn thought_test_create_project_success() {
    let (mut thought_service, mut receiver) = service_setup();

    let command = CreateProjectCommand {
        universe_id: uid(),
        project_name: "New Project".to_string(),
    };

    thought_service.create_project(command).unwrap();

    let project = thought_service
        .project_book
        .get_by_slug(&"new-project".to_string())
        .expect("there should be a project");
    assert_eq!(project.project_name, "New Project");

    // check that the event was sent
    let event = receiver.try_recv().unwrap();
    assert_eq!(
        event.model,
        ModelKind::Project {
            project_id: project.project_id,
            universe_id: project.universe_id,
            change_kind: ProjectChangeKind::Created,
        }
    );
}

#[test]
fn test_create_project_error_project_already_exists() {
    let (mut thought_service, _receiver) = service_setup();

    let command = CreateProjectCommand {
        universe_id: uid(),
        project_name: "Existing Project".to_string(),
    };

    // Create the project first
    thought_service.project_book.create(command.clone()).unwrap();

    // Try to create the same project again
    let error = thought_service.create_project(command).unwrap_err();

    assert!(matches!(error, ThoughtServiceError::ProjectAlreadyExists(_)));
}

#[test]
fn test_create_project_error_empty_name() {
    let (mut thought_service, mut receiver) = service_setup();

    let command = CreateProjectCommand {
        universe_id: uid(),
        project_name: "  \t ".to_string(),
    };

    let error = thought_service.create_project(command).unwrap_err();

    assert!(matches!(error, ThoughtServiceError::Validation(_)));
    assert!(receiver.try_recv().is_err());
}

#[test]
fn thought_test_create_thought_success() {
    let (mut thought_service, mut receiver) = service_setup();

    // Create a project first
    let project_command = CreateProjectCommand {
        universe_id: uid(),
        project_name: "Test Project".to_string(),
    };
    let project = thought_service.project_book.create(project_command).unwrap();

    let command = CreateThoughtCommand {
        imported_at: now(),
        parent_id: None,
        stylo_id: uid(),
        project_slug: project.slug,
        content: "This is a test thought.".to_string(),
    };

    let thought = thought_service.create_thought(command).unwrap();
    assert_eq!(thought.content, "This is a test thought.");
    assert_eq!(thought.project_id, project.project_id);
    assert!(thought.parent_id.is_none());

    // check that the event was sent
    let event = receiver.try_recv().unwrap();
    assert_eq!(
        event.model,
        ModelKind::Thought {
            thought_id: thought.thought_id,
            project_id: thought.project_id,
            change_kind: ThoughtChangeKind::Created,
        }
    );
}

#[test]
fn test_create_thought_with_parent() {
    let (mut thought_service, mut receiver) = service_setup();

    // Create a project first
    let project_command = CreateProjectCommand {
        universe_id: uid(),
        project_name: "Test Project".to_string(),
    };
    let project = thought_service.project_book.create(project_command).unwrap();

    // Create parent thought
    let parent_command = CreateThoughtCommand {
        imported_at: now(),
        parent_id: None,
        stylo_id: uid(),
        project_slug: project.slug.clone(),
        content: "Parent thought".to_string(),
    };
    let parent = thought_service
        .thought_book
        .add(parent_command, project.project_id)
        .unwrap();

    // Create child thought
    let child_command = CreateThoughtCommand {
        imported_at: now(),
        parent_id: Some(parent.thought_id),
        stylo_id: uid(),
        project_slug: project.slug,
        content: "Child thought".to_string(),
    };

    let child = thought_service.create_thought(child_command).unwrap();
    assert_eq!(child.parent_id, Some(parent.thought_id));

    // check that the event was sent
    let event = receiver.try_recv().unwrap();
    assert_eq!(
        event.model,
        ModelKind::Thought {
            thought_id: child.thought_id,
            project_id: child.project_id,
            change_kind: ThoughtChangeKind::Created,
        }
    );
}

#[test]
fn test_create_thought_project_not_exist() {
    let (mut thought_service, _receiver) = service_setup();

    let command = CreateThoughtCommand {
        imported_at: now(),
        parent_id: None,
        stylo_id: uid(),
        project_slug: "non-existent-project".to_string(),
        content: "This thought should not be created".to_string(),
    };

    let error = thought_service.create_thought(command).unwrap_err();

    assert!(matches!(error, ThoughtServiceError::ProjectNotFound(_)));
}

#[test]
fn test_create_thought_parent_not_exist() {
    let (mut thought_service, _receiver) = service_setup();

    // Create a project first
    let project_command = CreateProjectCommand {
        universe_id: uid(),
        project_name: "Test Project".to_string(),
    };
    let project = thought_service.project_book.create(project_command).unwrap();

    let unknown_parent_id = uid();
    let command = CreateThoughtCommand {
        imported_at: now(),
        parent_id: Some(unknown_parent_id),
        stylo_id: uid(),
        project_slug: project.slug,
        content: "This thought should not be created".to_string(),
    };

    let error = thought_service.create_thought(command).unwrap_err();

    assert!(matches!(
        error,
        ThoughtServiceError::InvalidParentReference(parent_id) if parent_id == unknown_parent_id
    ));
}
