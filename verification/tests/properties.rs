use chrono::NaiveDate;
use std::collections::HashSet;
use task_manager::{
    add_task, add_user, create_task, create_user, delete_task, get_task, list_task, load_data,
    update_task, AppStateData, DeleteTask, GetTask, NewTask, NewUser, Status, StoreError, Task,
    UpdateTask, User,
};
use uuid::Uuid;

fn day(n: u32) -> NaiveDate {
    NaiveDate::from_ymd_opt(2025, 3, n).expect("a date of the calendar")
}

fn request(title: &str, n: u32) -> NewTask {
    NewTask {
        title: title.to_string(),
        description: format!("{} of march", n),
        due_date: day(n),
        status: Status::ToDo,
    }
}

#[test]
fn fresh_identifiers_are_version_4_and_not_nil() {
    for _ in 0..64 {
        let user = User::new("someone");
        let task = Task::new("something", "somehow", day(1));
        for id in [user.id, task.id] {
            let uuid = Uuid::from_u128(id);
            assert!(!uuid.is_nil());
            assert_ne!(id, 0);
            assert_eq!(uuid.get_version_num(), 4);
            assert_eq!(id & 0x0000_0000_0000_F000_C000_0000_0000_0000, 0x0000_0000_0000_4000_8000_0000_0000_0000);
        }
    }
}

#[test]
fn generated_identifiers_are_pairwise_distinct() {
    let mut data = load_data(None);
    let mut seen: HashSet<u128> = HashSet::new();
    for u in 0..20 {
        let user_id = create_user(&mut data, &NewUser { name: format!("user-{}", u) });
        assert!(seen.insert(user_id));
        for t in 1..=10 {
            let task_id = create_task(&mut data, user_id, &request("task", t)).unwrap();
            assert!(seen.insert(task_id));
        }
    }
    assert_eq!(seen.len(), 220);
    assert_eq!(data.users.len(), 20);
    for user in data.users.values() {
        assert_eq!(user.tasks.len(), 10);
    }
}

#[test]
fn every_entity_is_filed_under_its_own_identifier() {
    let mut data = load_data(None);
    for u in 0..5 {
        let user_id = create_user(&mut data, &NewUser { name: format!("user-{}", u) });
        for t in 1..=4 {
            create_task(&mut data, user_id, &request("task", t)).unwrap();
        }
    }
    let some_user = *data.users.keys().next().unwrap();
    let some_task = *data.users.get(&some_user).unwrap().tasks.keys().next().unwrap();
    update_task(&mut data, some_user, &UpdateTask { id: some_task, status: Status::Done }).unwrap();
    delete_task(&mut data, some_user, &DeleteTask { id: some_task }).unwrap();

    for (user_id, user) in data.users.iter() {
        assert_eq!(*user_id, user.id);
        assert_ne!(user.id, 0);
        for (task_id, task) in user.tasks.iter() {
            assert_eq!(*task_id, task.id);
            assert_ne!(task.id, 0);
        }
    }
}

#[test]
fn no_created_task_is_lost() {
    let mut data = load_data(None);
    let user_id = create_user(&mut data, &NewUser { name: "busy".to_string() });
    let mut created: Vec<u128> = Vec::new();
    for t in 1..=25 {
        created.push(create_task(&mut data, user_id, &request("task", t)).unwrap());
    }
    let list = list_task(&data, user_id).unwrap();
    assert_eq!(list.tasks.len(), 25);
    let listed: HashSet<u128> = list.tasks.iter().map(|t| t.id).collect();
    assert_eq!(listed.len(), 25);
    for (n, id) in created.iter().enumerate() {
        assert!(listed.contains(id));
        let task = get_task(&data, user_id, &GetTask { id: *id }).unwrap();
        assert_eq!(task.due_date, day(n as u32 + 1));
        assert_eq!(task.description, format!("{} of march", n + 1));
    }
}

#[test]
fn a_snapshot_is_detached_from_the_dataset() {
    let mut data = load_data(None);
    let user_id = create_user(&mut data, &NewUser { name: "alice".to_string() });
    let task_id = create_task(&mut data, user_id, &request("task", 7)).unwrap();

    let before = get_task(&data, user_id, &GetTask { id: task_id }).unwrap();
    update_task(&mut data, user_id, &UpdateTask { id: task_id, status: Status::Done }).unwrap();
    let after = get_task(&data, user_id, &GetTask { id: task_id }).unwrap();

    assert_eq!(before.status, Status::ToDo);
    assert_eq!(after.status, Status::Done);
    let copy = after.clone();
    assert_eq!(copy.id, after.id);
    assert_eq!(copy.title, after.title);
    assert_eq!(copy.description, after.description);
    assert_eq!(copy.due_date, after.due_date);
    assert_eq!(copy.status, after.status);
}

#[test]
fn a_task_filed_under_a_used_identifier_replaces_the_old_one() {
    let mut data = load_data(None);
    let user_id = add_user(&mut data, User::with_id(11, "alice"));
    assert_eq!(user_id, 11);

    assert_eq!(add_task(&mut data, 11, Task::with_id(5, "old", "one", day(1))), Ok(5));
    assert_eq!(add_task(&mut data, 11, Task::with_id(5, "new", "two", day(2))), Ok(5));
    assert_eq!(add_task(&mut data, 12, Task::with_id(6, "lost", "", day(3))), Err(StoreError::UserNotFound));

    let list = list_task(&data, 11).unwrap();
    assert_eq!(list.tasks.len(), 1);
    assert_eq!(list.tasks[0].title, "new");
    assert_eq!(list.tasks[0].description, "two");
    assert_eq!(list.tasks[0].due_date, day(2));
    assert_eq!(list.tasks[0].status, Status::ToDo);
}

#[test]
fn a_user_filed_under_a_used_identifier_replaces_the_old_one() {
    let mut data = load_data(None);
    add_user(&mut data, User::with_id(11, "alice"));
    add_task(&mut data, 11, Task::with_id(5, "old", "one", day(1))).unwrap();
    add_user(&mut data, User::with_id(11, "alice again"));

    assert_eq!(data.users.len(), 1);
    assert_eq!(data.users.get(&11).unwrap().name, "alice again");
    assert_eq!(get_task(&data, 11, &GetTask { id: 5 }).err(), Some(StoreError::TaskNotFound));
}

#[test]
fn constructors_keep_what_they_are_given() {
    let task = Task::with_id(9, "title", "info", day(9));
    assert_eq!(task.id, 9);
    assert_eq!(task.title, "title");
    assert_eq!(task.description, "info");
    assert_eq!(task.due_date, day(9));
    assert_eq!(task.status, Status::ToDo);

    let user = User::with_id(3, "");
    assert_eq!(user.id, 3);
    assert_eq!(user.name, "");
    assert!(user.tasks.is_empty());

    let fresh = Task::new("t", "d", day(2));
    assert_eq!(fresh.title, "t");
    assert_eq!(fresh.description, "d");
    assert_eq!(fresh.due_date, day(2));
    assert_eq!(fresh.status, Status::ToDo);

    let named = User::new("carol");
    assert_eq!(named.name, "carol");
    assert!(named.tasks.is_empty());
    let copy = named.clone();
    assert_eq!(copy.id, named.id);
    assert_eq!(copy.name, "carol");
}

#[test]
fn loading_nothing_gives_the_empty_dataset() {
    let empty = load_data(None);
    assert!(empty.users.is_empty());
    assert!(AppStateData::default().users.is_empty());

    let mut stored = AppStateData::default();
    add_user(&mut stored, User::with_id(1, "kept"));
    let loaded = load_data(Some(stored));
    assert_eq!(loaded.users.len(), 1);
    assert_eq!(loaded.users.get(&1).unwrap().name, "kept");
}
