use task_service::http::{AppError, STATUS_CONFLICT, STATUS_NOT_FOUND};
use task_service::model::{CreateTask, Task, TaskCompletionState, UpdateTask};
use task_service::repository::{LocalTaskRepository, TaskRepository};
use task_service::store::TaskRepoError;

fn sample_create(name: &str) -> CreateTask {
    CreateTask {
        blog_id: 0x1234_5678_9abc_4def_8123_4567_89ab_cdef,
        name: name.to_string(),
        deadline: Some(1_700_000_000_000_000),
    }
}

#[test]
fn new_repository_is_empty() {
    let repo = LocalTaskRepository::new();
    assert!(repo.get_all().is_empty());
}

#[test]
fn create_then_get_round_trip() {
    let mut repo = LocalTaskRepository::new();
    let created = repo.create_one(sample_create("Write report")).unwrap();
    assert_eq!(created.name, "Write report");
    assert_eq!(created.blog_id, 0x1234_5678_9abc_4def_8123_4567_89ab_cdef);
    assert_eq!(created.deadline, Some(1_700_000_000_000_000));
    assert_eq!(created.completion, TaskCompletionState::NotCompleted);
    let got = repo.get_one(created.task_id).unwrap();
    assert_eq!(got, created);
}

#[test]
fn created_id_is_random_v4_uuid() {
    let mut repo = LocalTaskRepository::new();
    let a = repo.create_one(sample_create("a")).unwrap();
    let b = repo.create_one(sample_create("b")).unwrap();
    assert_eq!((a.task_id >> 76) & 0xf, 4);
    assert_eq!((a.task_id >> 62) & 0x3, 2);
    assert_ne!(a.task_id, 0);
    assert_ne!(a.task_id, b.task_id);
}

#[test]
fn create_with_id_uses_given_id() {
    let mut repo = LocalTaskRepository::new();
    let t = repo.create_with_id(sample_create("x"), 42).unwrap();
    assert_eq!(t.task_id, 42);
    assert_eq!(repo.get_one(42).unwrap(), t);
}

#[test]
fn create_with_issued_id_is_rejected() {
    let mut repo = LocalTaskRepository::new();
    repo.create_with_id(sample_create("x"), 7).unwrap();
    let r = repo.create_with_id(sample_create("y"), 7);
    assert_eq!(r, Err(TaskRepoError::ExistsById));
    assert_eq!(repo.get_all().len(), 1);
    assert_eq!(repo.get_one(7).unwrap().name, "x");
}

#[test]
fn deleted_id_is_never_reused() {
    let mut repo = LocalTaskRepository::new();
    repo.create_with_id(sample_create("x"), 7).unwrap();
    repo.delete_one(7).unwrap();
    let r = repo.create_with_id(sample_create("y"), 7);
    assert_eq!(r, Err(TaskRepoError::ExistsById));
    assert!(repo.get_all().is_empty());
}

#[test]
fn get_and_delete_unknown_id_fail() {
    let mut repo = LocalTaskRepository::new();
    repo.create_one(sample_create("x")).unwrap();
    assert_eq!(repo.get_one(99), Err(TaskRepoError::NoTaskById));
    assert_eq!(repo.delete_one(99), Err(TaskRepoError::NoTaskById));
    assert_eq!(repo.get_all().len(), 1);
}

#[test]
fn update_unknown_id_fails_without_change() {
    let mut repo = LocalTaskRepository::new();
    let t = repo.create_one(sample_create("x")).unwrap();
    let before = repo.get_all();
    let u = UpdateTask {
        blog_id: 5,
        name: "other".to_string(),
        deadline: None,
        completion: TaskCompletionState::Completed,
    };
    assert_eq!(repo.update_one(t.task_id ^ 1, u), Err(TaskRepoError::NoTaskById));
    assert_eq!(repo.get_all(), before);
}

#[test]
fn update_replaces_all_fields_but_id() {
    let mut repo = LocalTaskRepository::new();
    let t = repo.create_one(sample_create("x")).unwrap();
    let u = UpdateTask {
        blog_id: 5,
        name: "other".to_string(),
        deadline: None,
        completion: TaskCompletionState::Completed,
    };
    let updated = repo.update_one(t.task_id, u).unwrap();
    let expected = Task {
        task_id: t.task_id,
        blog_id: 5,
        name: "other".to_string(),
        deadline: None,
        completion: TaskCompletionState::Completed,
    };
    assert_eq!(updated, expected);
    assert_eq!(repo.get_one(t.task_id).unwrap(), expected);
}

#[test]
fn delete_returns_snapshot_and_removes() {
    let mut repo = LocalTaskRepository::new();
    let t = repo.create_one(sample_create("x")).unwrap();
    let other = repo.create_one(sample_create("y")).unwrap();
    let deleted = repo.delete_one(t.task_id).unwrap();
    assert_eq!(deleted, t);
    assert_eq!(repo.get_one(t.task_id), Err(TaskRepoError::NoTaskById));
    assert_eq!(repo.get_one(other.task_id).unwrap(), other);
    assert_eq!(repo.delete_one(t.task_id), Err(TaskRepoError::NoTaskById));
}

#[test]
fn sequential_creates_have_distinct_ids() {
    let mut repo = LocalTaskRepository::new();
    let mut ids = Vec::new();
    for k in 0..50 {
        let t = repo.create_one(sample_create(&format!("task {}", k))).unwrap();
        ids.push(t.task_id);
    }
    for a in 0..ids.len() {
        for b in (a + 1)..ids.len() {
            assert_ne!(ids[a], ids[b]);
        }
    }
    assert_eq!(repo.get_all().len(), 50);
}

#[test]
fn get_all_lists_every_task_once() {
    let mut repo = LocalTaskRepository::new();
    let a = repo.create_with_id(sample_create("a"), 1).unwrap();
    let b = repo.create_with_id(sample_create("b"), 2).unwrap();
    let c = repo.create_with_id(sample_create("c"), 3).unwrap();
    repo.delete_one(2).unwrap();
    let all = repo.get_all();
    assert_eq!(all.len(), 2);
    assert!(all.contains(&a));
    assert!(all.contains(&c));
    assert!(!all.contains(&b));
}

#[test]
fn task_clone_is_equal() {
    let t = Task {
        task_id: 1,
        blog_id: 2,
        name: "n".to_string(),
        deadline: Some(-5),
        completion: TaskCompletionState::Completed,
    };
    let c = t.clone();
    assert_eq!(c, t);
    let mut d = t.clone();
    d.deadline = None;
    assert_ne!(d, t);
}

#[test]
fn error_statuses_and_messages() {
    let nf = AppError::from(TaskRepoError::NoTaskById);
    assert_eq!(nf.status_code(), STATUS_NOT_FOUND);
    assert_eq!(nf.status_code(), 404);
    assert_eq!(nf.message(), "no task by id");
    let ex = AppError::from(TaskRepoError::ExistsById);
    assert_eq!(ex.status_code(), STATUS_CONFLICT);
    assert_eq!(ex.status_code(), 409);
    assert_eq!(ex.message(), "task already exists by id");
    assert_eq!(TaskRepoError::NoTaskById.message(), "no task by id");
}

#[test]
fn end_to_end_create_get_delete_get() {
    let mut repo = LocalTaskRepository::new();
    let input = CreateTask {
        blog_id: 0x0f0e_0d0c_0b0a_4908_8706_0504_0302_0100,
        name: "Write report".to_string(),
        deadline: None,
    };
    let created = repo.create_one(input).unwrap();
    assert_eq!(created.completion, TaskCompletionState::NotCompleted);
    assert_eq!(created.deadline, None);
    let got = repo.get_one(created.task_id).unwrap();
    assert_eq!(got, created);
    let deleted = repo.delete_one(created.task_id).unwrap();
    assert_eq!(deleted, created);
    let err = AppError::from(repo.get_one(created.task_id).unwrap_err());
    assert_eq!(err.status_code(), 404);
    assert_eq!(err.message(), "no task by id");
}
