use chrono::NaiveDate;
use serde_json::Value;
use task_manager::{
    add_task, add_user, create_task, create_user, get_task, load_data, update_task,
    AppStateData, GetTask, NewTask, NewUser, Status, Task, UpdateTask, User,
};
use uuid::Uuid;

fn id_text(id: u128) -> String {
    Uuid::from_u128(id).to_string()
}

fn status_tag(status: Status) -> &'static str {
    match status {
        Status::ToDo => "ToDo",
        Status::InProgress => "InProgress",
        Status::Done => "Done",
    }
}

fn to_document(data: &AppStateData) -> String {
    let mut users = serde_json::Map::new();
    for (user_id, user) in data.users.iter() {
        let mut tasks = serde_json::Map::new();
        for (task_id, task) in user.tasks.iter() {
            let mut t = serde_json::Map::new();
            t.insert("id".to_string(), Value::String(id_text(task.id)));
            t.insert("title".to_string(), Value::String(task.title.clone()));
            t.insert("description".to_string(), Value::String(task.description.clone()));
            t.insert("due_date".to_string(), Value::String(task.due_date.to_string()));
            t.insert("status".to_string(), Value::String(status_tag(task.status).to_string()));
            tasks.insert(id_text(*task_id), Value::Object(t));
        }
        let mut u = serde_json::Map::new();
        u.insert("id".to_string(), Value::String(id_text(user.id)));
        u.insert("name".to_string(), Value::String(user.name.clone()));
        u.insert("tasks".to_string(), Value::Object(tasks));
        users.insert(id_text(*user_id), Value::Object(u));
    }
    let mut root = serde_json::Map::new();
    root.insert("users".to_string(), Value::Object(users));
    serde_json::to_string(&Value::Object(root)).expect("a document")
}

fn text_of<'a>(object: &'a Value, field: &str) -> Option<&'a str> {
    object.get(field)?.as_str()
}

fn from_document(text: &str) -> Option<AppStateData> {
    let root: Value = serde_json::from_str(text).ok()?;
    let mut data = AppStateData::default();
    for (user_key, u) in root.get("users")?.as_object()?.iter() {
        let user_id = Uuid::parse_str(user_key).ok()?.as_u128();
        let mut user = User::with_id(Uuid::parse_str(text_of(u, "id")?).ok()?.as_u128(), text_of(u, "name")?);
        for (task_key, t) in u.get("tasks")?.as_object()?.iter() {
            let mut task = Task::with_id(
                Uuid::parse_str(text_of(t, "id")?).ok()?.as_u128(),
                text_of(t, "title")?,
                text_of(t, "description")?,
                text_of(t, "due_date")?.parse::<NaiveDate>().ok()?,
            );
            task.status = match text_of(t, "status")? {
                "ToDo" => Status::ToDo,
                "InProgress" => Status::InProgress,
                "Done" => Status::Done,
                _ => return None,
            };
            user.tasks.insert(Uuid::parse_str(task_key).ok()?.as_u128(), task);
        }
        data.users.insert(user_id, user);
    }
    Some(data)
}

#[test]
fn reloaded_dataset_answers_as_before() {
    let mut data = load_data(None);
    let user_id = create_user(&mut data, &NewUser { name: "alice".to_string() });
    let due = NaiveDate::from_ymd_opt(2025, 1, 1).expect("a date");
    let req = NewTask {
        title: "buy \"milk\"".to_string(),
        description: "2%\nfresh".to_string(),
        due_date: due,
        status: Status::ToDo,
    };
    let task_id = create_task(&mut data, user_id, &req).unwrap();
    update_task(&mut data, user_id, &UpdateTask { id: task_id, status: Status::InProgress })
        .unwrap();
    let before = get_task(&data, user_id, &GetTask { id: task_id }).unwrap();

    let document = to_document(&data);
    drop(data);
    let reloaded = load_data(from_document(&document));

    let after = get_task(&reloaded, user_id, &GetTask { id: task_id }).unwrap();
    assert_eq!(after.id, before.id);
    assert_eq!(after.title, "buy \"milk\"");
    assert_eq!(after.description, "2%\nfresh");
    assert_eq!(after.due_date, due);
    assert_eq!(after.status, Status::InProgress);
    assert_eq!(reloaded.users.len(), 1);
    assert_eq!(reloaded.users.get(&user_id).unwrap().name, "alice");
    assert_eq!(to_document(&reloaded), document);
}

#[test]
fn document_has_the_stored_shape() {
    let mut data = load_data(None);
    add_user(&mut data, User::with_id(0xa1a2a3a4_b1b2_c1c2_d1d2_d3d4d5d6d7d8, "bob"));
    add_task(
        &mut data,
        0xa1a2a3a4_b1b2_c1c2_d1d2_d3d4d5d6d7d8,
        Task::with_id(1, "t", "d", NaiveDate::from_ymd_opt(2024, 5, 24).expect("a date")),
    )
    .unwrap();

    assert_eq!(
        to_document(&data),
        "{\"users\":{\"a1a2a3a4-b1b2-c1c2-d1d2-d3d4d5d6d7d8\":{\"id\":\"a1a2a3a4-b1b2-c1c2-d1d2-d3d4d5d6d7d8\",\"name\":\"bob\",\"tasks\":{\"00000000-0000-0000-0000-000000000001\":{\"description\":\"d\",\"due_date\":\"2024-05-24\",\"id\":\"00000000-0000-0000-0000-000000000001\",\"status\":\"ToDo\",\"title\":\"t\"}}}}}"
    );
}

#[test]
fn malformed_document_loads_as_the_empty_dataset() {
    assert!(load_data(from_document("{\"users\": 3")).users.is_empty());
    assert!(load_data(from_document("")).users.is_empty());
    assert!(load_data(from_document("{}")).users.is_empty());
    assert!(load_data(from_document("{\"users\":{}}")).users.is_empty());
}
