use track_requests::ids::{RequestId, UserId};
use track_requests::in_memory::InMemoryStorage;
use track_requests::adapters::StateStorageError;
use track_requests::storage::{
    context_namespace, request_ids, request_key, state_namespace, status_namespace,
    tasks_in_namespace, unique_tasks, user_of_context_namespace, OnDiskStorage,
};
use track_requests::text::ends_with;

const A: &str = "a1a2a3a4-b1b2-c1c2-d1d2-d3d4d5d6d7d8";
const B: &str = "00000000-0000-0000-0000-00000000000b";

fn a() -> RequestId {
    RequestId(0xa1a2a3a4b1b2c1c2d1d2d3d4d5d6d7d8)
}

fn b() -> RequestId {
    RequestId(0xb)
}

#[test]
fn namespaces_are_named_after_the_user() {
    assert_eq!(context_namespace(&UserId(1)), "1-ctx");
    assert_eq!(state_namespace(&UserId(1)), "1-state");
    assert_eq!(status_namespace(&UserId(1)), "1-status");
    assert_eq!(context_namespace(&UserId(0)), "0-ctx");
    assert_eq!(state_namespace(&UserId(u64::MAX)), "18446744073709551615-state");
    assert_eq!(request_key(&a()), A);
}

#[test]
fn user_is_read_from_a_namespace_of_contexts() {
    assert_eq!(user_of_context_namespace("1-ctx"), Some(UserId(1)));
    assert_eq!(user_of_context_namespace("18446744073709551615-ctx"), Some(UserId(u64::MAX)));
    assert_eq!(user_of_context_namespace("007-ctx"), Some(UserId(7)));
    assert_eq!(user_of_context_namespace("+7-ctx"), Some(UserId(7)));
    assert_eq!(user_of_context_namespace("1-state"), None);
    assert_eq!(user_of_context_namespace("1-status"), None);
    assert_eq!(user_of_context_namespace("-ctx"), None);
    assert_eq!(user_of_context_namespace("x-ctx"), None);
    assert_eq!(user_of_context_namespace("-1-ctx"), None);
    assert_eq!(user_of_context_namespace("18446744073709551616-ctx"), None);
    assert_eq!(user_of_context_namespace("1-ctx "), None);
    assert_eq!(user_of_context_namespace(""), None);
    // Only the ending is taken off before the number is read.
    assert_eq!(user_of_context_namespace("1-ctx2-ctx"), None);
    assert_eq!(user_of_context_namespace("-ctx1-ctx"), None);
    assert_eq!(user_of_context_namespace("-ctx-ctx"), None);
    assert_eq!(user_of_context_namespace("12-ctx-ctx"), None);
    assert_eq!(user_of_context_namespace("пять-ctx"), None);
    assert_eq!(user_of_context_namespace("5-ctх"), None);
    for user in [0u64, 9, 10, 4096, u64::MAX] {
        assert_eq!(user_of_context_namespace(&context_namespace(&UserId(user))), Some(UserId(user)));
    }
}

#[test]
fn tasks_of_a_namespace_pass_over_foreign_keys() {
    let keys: Vec<String> = vec![A.into(), "notes.txt".into(), B.into()];
    assert_eq!(tasks_in_namespace("7-ctx", &keys), vec![(UserId(7), a()), (UserId(7), b())]);
    assert_eq!(tasks_in_namespace("7-state", &keys), vec![]);
    assert_eq!(tasks_in_namespace("seven-ctx", &keys), vec![]);
    assert_eq!(tasks_in_namespace("7-ctx", &vec![]), vec![]);
}

#[test]
fn keys_of_statuses_have_to_be_identifiers() {
    assert_eq!(request_ids(&vec![A.to_string(), B.to_string()]).unwrap(), vec![a(), b()]);
    assert_eq!(request_ids(&vec![]).unwrap(), vec![]);
    assert_eq!(
        request_ids(&vec![A.to_string(), "x".to_string(), "y".to_string()]),
        Err(StateStorageError("invalid request identifier: x".to_string()))
    );
}

#[test]
fn tasks_are_taken_up_once() {
    let tasks = vec![
        (UserId(1), a()),
        (UserId(2), a()),
        (UserId(1), a()),
        (UserId(1), b()),
        (UserId(2), a()),
    ];
    assert_eq!(
        unique_tasks(&tasks),
        vec![(UserId(1), a()), (UserId(2), a()), (UserId(1), b())]
    );
    assert_eq!(unique_tasks(&vec![]), vec![]);
}

#[test]
fn recovery_takes_a_request_up_once_under_two_names_of_its_user() {
    let mut storage = InMemoryStorage::new();
    storage.save("1-ctx", A, "{}");
    storage.save("01-ctx", A, "{}");
    assert_eq!(storage.get_all_tasks(), vec![(UserId(1), a())]);
}

#[test]
fn suffix_is_compared_by_characters() {
    assert!(ends_with("1-ctx", "-ctx"));
    assert!(ends_with("-ctx", "-ctx"));
    assert!(ends_with("anything", ""));
    assert!(!ends_with("ctx", "-ctx"));
    assert!(!ends_with("1-ctx ", "-ctx"));
    assert!(ends_with("пользователь-ctx", "-ctx"));
    assert!(!ends_with("1-ctх", "-ctx"));
}

#[test]
fn disk_paths_are_root_namespace_and_key() {
    let storage = OnDiskStorage::create("/var/state".to_string());
    assert_eq!(storage.path, "/var/state");
    assert_eq!(storage.directory_path("1-ctx"), "/var/state/1-ctx");
    assert_eq!(storage.file_path("1-ctx", A), format!("/var/state/1-ctx/{}", A));
}

#[test]
fn saved_value_is_read_back() {
    let mut storage = InMemoryStorage::new();
    assert_eq!(storage.get("1-ctx", A), None);
    storage.save("1-ctx", A, "first");
    assert_eq!(storage.get("1-ctx", A), Some("first".to_string()));
    assert_eq!(storage.get("1-ctx", B), None);
    assert_eq!(storage.get("1-state", A), None);
    storage.save("1-ctx", A, "second");
    assert_eq!(storage.get("1-ctx", A), Some("second".to_string()));
    assert_eq!(storage.get_all("1-ctx"), Some(vec![(A.to_string(), "second".to_string())]));
}

#[test]
fn delete_is_idempotent_and_drops_empty_namespaces() {
    let mut storage = InMemoryStorage::new();
    storage.save("1-ctx", A, "x");
    storage.save("1-ctx", B, "y");
    storage.save("2-ctx", A, "z");
    storage.delete("1-ctx", A);
    storage.delete("1-ctx", A);
    storage.delete("3-ctx", A);
    assert_eq!(storage.get("1-ctx", A), None);
    assert_eq!(storage.get("1-ctx", B), Some("y".to_string()));
    assert_eq!(storage.get("2-ctx", A), Some("z".to_string()));
    storage.delete("1-ctx", B);
    assert_eq!(storage.get_all("1-ctx"), None);
    assert_eq!(storage.get_prefixes(), vec!["2-ctx".to_string()]);
    storage.delete("2-ctx", A);
    assert_eq!(storage.get_prefixes(), Vec::<String>::new());
}

#[test]
fn listing_gives_each_record_of_the_namespace_once() {
    let mut storage = InMemoryStorage::new();
    assert_eq!(storage.get_all("1-status"), None);
    storage.save("1-status", A, "\"Processing\"");
    storage.save("2-status", A, "\"Failed\"");
    storage.save("1-status", B, "\"Finished\"");
    storage.save("1-status", A, "\"NotFound\"");
    let mut records = storage.get_all("1-status").unwrap();
    records.sort();
    assert_eq!(
        records,
        vec![
            (B.to_string(), "\"Finished\"".to_string()),
            (A.to_string(), "\"NotFound\"".to_string()),
        ]
    );
    let mut names = storage.get_prefixes();
    names.sort();
    assert_eq!(names, vec!["1-status".to_string(), "2-status".to_string()]);
}

#[test]
fn recovery_finds_one_task_for_each_stored_context() {
    let mut storage = InMemoryStorage::new();
    storage.save(&context_namespace(&UserId(1)), &request_key(&a()), "{}");
    storage.save(&state_namespace(&UserId(1)), &request_key(&a()), "{}");
    storage.save(&status_namespace(&UserId(1)), &request_key(&a()), "\"Processing\"");
    storage.save(&context_namespace(&UserId(2)), &request_key(&b()), "{}");
    storage.save(&state_namespace(&UserId(2)), &request_key(&b()), "{}");
    // A finished request has left only its status.
    storage.save(&status_namespace(&UserId(2)), &request_key(&a()), "\"Finished\"");
    // What is no context of a request is passed over.
    storage.save("2-ctx", "README", "");
    storage.save("backup-ctx", &request_key(&a()), "{}");

    let mut tasks = storage.get_all_tasks();
    tasks.sort_by_key(|(user, _)| user.0);
    assert_eq!(tasks, vec![(UserId(1), a()), (UserId(2), b())]);

    storage.delete(&context_namespace(&UserId(1)), &request_key(&a()));
    assert_eq!(storage.get_all_tasks(), vec![(UserId(2), b())]);
    assert_eq!(InMemoryStorage::new().get_all_tasks(), vec![]);
}
