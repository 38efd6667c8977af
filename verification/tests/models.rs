//! Tests of the entity constructors and slug derivation.

use kaku::models::{CreateProjectCommand, CreateStyloCommand, Project, Stylo};
use uuid::Uuid;

fn uid() -> u128 {
    Uuid::new_v4().as_u128()
}

#[test]
fn test_project_creation() {
    let command = CreateProjectCommand {
        project_name: "Test Project".to_string(),
        universe_id: uid(),
    };
    let result = Project::create(command);

    assert!(result.is_ok());

    let project = result.unwrap();

    assert_eq!(project.project_name, "Test Project");
    assert_eq!(project.slug, "test-project");
    assert!(!project.locked);
}

#[test]
fn test_invalid_project_name() {
    let command = CreateProjectCommand {
        project_name: "  ".to_string(),
        universe_id: uid(),
    };
    let result = Project::create(command);

    assert!(result.is_err());
}

#[test]
fn test_slug_generation() {
    let command = CreateProjectCommand {
        project_name: "Test Project 123!@#".to_string(),
        universe_id: uid(),
    };
    let project = Project::create(command).unwrap();

    assert_eq!(project.slug, "test-project-123");
}

#[test]
fn test_slug_with_accents() {
    let command = CreateProjectCommand {
        project_name: "Ça a déjà où tête pète aïe".to_string(),
        universe_id: uid(),
    };
    let project = Project::create(command).unwrap();

    assert_eq!(project.slug, "ca-a-deja-ou-tete-pete-aie");
}

#[test]
fn test_slug_with_emojis() {
    let command = CreateProjectCommand {
        project_name: "My 📚 Project 🚀 Test 💫".to_string(),
        universe_id: uid(),
    };
    let project = Project::create(command).unwrap();

    assert_eq!(project.slug, "my-project-test");
}

#[test]
fn test_slug_with_consecutive_special_chars() {
    let command = CreateProjectCommand {
        project_name: "  Test!!!Project@#$%Test".to_string(),
        universe_id: uid(),
    };
    let project = Project::create(command).unwrap();
    assert_eq!(project.slug, "test-project-test");

    let command = CreateProjectCommand {
        project_name: "Test   Project     Test".to_string(),
        universe_id: uid(),
    };
    let project = Project::create(command).unwrap();
    assert_eq!(project.slug, "test-project-test");
}

#[test]
fn test_slug_idempotent_on_samples() {
    for name in [
        "Test Project 123!@#",
        "Ça a déjà où tête pète aïe",
        "  Test!!!Project@#$%Test",
        "already-a-slug",
        "",
        "---",
    ] {
        let once = Project::generate_slug(name);
        let twice = Project::generate_slug(&once);
        assert_eq!(once, twice);
    }
}

#[test]
fn test_slug_shape_on_samples() {
    for name in ["Test Project 123!@#", "My 📚 Project 🚀 Test 💫", "  a  -  b  "] {
        let slug = Project::generate_slug(name);
        assert!(!slug.starts_with('-'));
        assert!(!slug.ends_with('-'));
        assert!(!slug.contains("--"));
        assert!(slug.chars().all(|c| c == '-' || c.is_ascii_lowercase() || c.is_ascii_digit()));
    }
}

#[test]
fn test_stylo_creation() {
    let command = CreateStyloCommand {
        owner_organization_id: uid(),
        actor_organization_id: uid(),
        display_name: "Test Stylo".to_string(),
        email: "whoever@internet.com".to_string(),
    };

    let result = Stylo::create(command);
    assert!(result.is_ok());

    let stylo = result.unwrap();
    assert_eq!(stylo.display_name, "Test Stylo");
    assert!(!stylo.is_locked);
}

#[test]
fn test_invalid_display_name() {
    let command = CreateStyloCommand {
        owner_organization_id: uid(),
        actor_organization_id: uid(),
        display_name: "   ".to_string(),
        email: "whoever@internet.com".to_string(),
    };

    let result = Stylo::create(command);
    assert!(result.is_err());
}

#[test]
fn test_same_organization() {
    let org_id = uid();
    let command = CreateStyloCommand {
        owner_organization_id: org_id,
        actor_organization_id: org_id,
        display_name: "Self Owned".to_string(),
        email: "whoever@internet.com".to_string(),
    };

    let stylo = Stylo::create(command).unwrap();
    assert_eq!(stylo.owner_organization_id, stylo.actor_organization_id);
}

#[test]
fn test_display_name_is_trimmed() {
    let command = CreateStyloCommand {
        owner_organization_id: uid(),
        actor_organization_id: uid(),
        display_name: "  Padded Name\u{a0} ".to_string(),
        email: "whoever@internet.com".to_string(),
    };

    let stylo = Stylo::create(command).unwrap();
    assert_eq!(stylo.display_name, "Padded Name");
}
