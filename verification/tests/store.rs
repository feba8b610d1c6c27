//! Tests for title validation and the task store.

use taskflow::store::{validate_task_title, TaskManager, ValidationError};

#[test]
fn test_validate_empty_title() {
    let result = validate_task_title("");
    assert!(result.is_err());
    assert_eq!(result.unwrap_err().message(), "Task title cannot be empty");
}

#[test]
fn test_validate_whitespace_only_title() {
    let result = validate_task_title("   \t\n   ");
    assert!(result.is_err());
    assert_eq!(
        result.unwrap_err().message(),
        "Task title cannot contain only whitespace"
    );
}

#[test]
fn test_validate_valid_title() {
    let result = validate_task_title("  Valid task title  ");
    assert!(result.is_ok());
    assert_eq!(result.unwrap(), "Valid task title");
}

#[test]
fn test_task_manager_add_valid_task() {
    let mut manager = TaskManager::new();
    let result = manager.add_task("Valid task".to_string());

    assert!(result.is_ok());
    assert_eq!(result.unwrap(), 1);
    assert_eq!(manager.list_tasks().len(), 1);
    assert_eq!(manager.list_tasks()[0].title, "Valid task");
}

#[test]
fn test_task_manager_add_empty_task() {
    let mut manager = TaskManager::new();
    let result = manager.add_task("".to_string());

    assert!(result.is_err());
    assert_eq!(result.unwrap_err().message(), "Task title cannot be empty");
    assert_eq!(manager.list_tasks().len(), 0);
}

#[test]
fn test_task_manager_add_whitespace_task() {
    let mut manager = TaskManager::new();
    let result = manager.add_task("   \t   ".to_string());

    assert!(result.is_err());
    assert_eq!(
        result.unwrap_err().message(),
        "Task title cannot contain only whitespace"
    );
    assert_eq!(manager.list_tasks().len(), 0);
}

#[test]
fn test_task_manager_multiple_tasks() {
    let mut manager = TaskManager::new();

    manager.add_task("First task".to_string()).unwrap();
    manager.add_task("Second task".to_string()).unwrap();

    let tasks = manager.list_tasks();
    assert_eq!(tasks.len(), 2);
    assert_eq!(tasks[0].id, 1);
    assert_eq!(tasks[1].id, 2);
    assert_eq!(tasks[0].title, "First task");
    assert_eq!(tasks[1].title, "Second task");
}

#[test]
fn empty_title_gives_empty_title_error() {
    let mut manager = TaskManager::new();
    let result = manager.add_task("".to_string());
    assert!(matches!(result, Err(ValidationError::EmptyTitle)));
}

#[test]
fn whitespace_title_gives_whitespace_only_error() {
    let mut manager = TaskManager::new();
    let result = manager.add_task("   \t\n   ".to_string());
    assert!(matches!(result, Err(ValidationError::WhitespaceOnlyTitle)));
}

#[test]
fn failed_add_does_not_consume_an_id() {
    let mut manager = TaskManager::new();
    assert!(manager.add_task("".to_string()).is_err());
    assert!(manager.add_task("  \t ".to_string()).is_err());
    assert_eq!(manager.add_task("OK".to_string()).unwrap(), 1);
    assert!(manager.add_task(" \n ".to_string()).is_err());
    assert_eq!(manager.add_task("Next".to_string()).unwrap(), 2);
}

#[test]
fn inner_whitespace_is_kept() {
    let result = validate_task_title("  a  b  ");
    assert_eq!(result.unwrap(), "a  b");
}

#[test]
fn unicode_whitespace_is_trimmed() {
    let result = validate_task_title("\u{00A0}\u{2003}title\u{3000}");
    assert_eq!(result.unwrap(), "title");
}

#[test]
fn unicode_whitespace_only_is_rejected() {
    let result = validate_task_title("\u{00A0}\u{2000}\u{3000}");
    assert!(matches!(result, Err(ValidationError::WhitespaceOnlyTitle)));
}

#[test]
fn already_trimmed_title_is_unchanged() {
    let result = validate_task_title("tidy");
    assert_eq!(result.unwrap(), "tidy");
}

#[test]
fn ids_follow_call_order() {
    let mut manager = TaskManager::new();
    for k in 1..=5 {
        let id = manager.add_task(format!("task {}", k)).unwrap();
        assert_eq!(id, k);
    }
    let tasks = manager.list_tasks();
    assert_eq!(tasks.len(), 5);
    for (pos, task) in tasks.iter().enumerate() {
        assert_eq!(task.id, pos + 1);
        assert_eq!(task.title, format!("task {}", pos + 1));
    }
}
