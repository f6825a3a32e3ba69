use todo_cli::google_tasks::{
    ApiError, Content, GoogleTasks, Method, Payload, Reply, Request, TaskItem, TaskList,
};
use todo_cli::item::{Status, TodoError, TodoItem};
use todo_cli::remote::{Resolution, TodoStoreGTask};

const LISTS: &str = "https://tasks.googleapis.com/tasks/v1/users/@me/lists";

fn task(id: Option<&str>, title: Option<&str>, notes: Option<&str>, status: Option<&str>) -> TaskItem {
    TaskItem {
        id: id.map(|s| s.to_string()),
        title: title.map(|s| s.to_string()),
        notes: notes.map(|s| s.to_string()),
        status: status.map(|s| s.to_string()),
        due: None,
    }
}

fn list(id: Option<&str>, title: Option<&str>) -> TaskList {
    TaskList { id: id.map(|s| s.to_string()), title: title.map(|s| s.to_string()) }
}

fn store() -> TodoStoreGTask {
    let api = GoogleTasks::new("tok".to_string());
    TodoStoreGTask::new(api, list(Some("L1"), Some("My Rust Tasks"))).unwrap()
}

/// A stand-in for the service: one list of tasks, changed as requests ask.
struct Service {
    tasks: Vec<TaskItem>,
    issued: u32,
}

impl Service {
    fn handle(&mut self, req: &Request) -> Vec<TaskItem> {
        let base = "https://tasks.googleapis.com/tasks/v1/lists/L1/tasks";
        assert_eq!(req.token, "tok");
        match req.method {
            Method::Get => assert_eq!(req.url, base),
            Method::Post => {
                assert_eq!(req.url, base);
                let mut t = match &req.body {
                    Payload::Task(t) => t.clone(),
                    other => panic!("unexpected body {:?}", other),
                };
                self.issued += 1;
                t.id = Some(format!("id{}", self.issued));
                self.tasks.insert(0, t);
            }
            Method::Put => {
                let id = req.url[base.len() + 1..].to_string();
                let t = match &req.body {
                    Payload::Task(t) => t.clone(),
                    other => panic!("unexpected body {:?}", other),
                };
                let k = self.tasks.iter().position(|x| x.id.as_deref() == Some(&id)).unwrap();
                self.tasks[k] = t;
            }
            Method::Delete => {
                assert_eq!(req.body, Payload::Nothing);
                let id = req.url[base.len() + 1..].to_string();
                let k = self.tasks.iter().position(|x| x.id.as_deref() == Some(&id)).unwrap();
                self.tasks.remove(k);
            }
        }
        self.tasks.clone()
    }
}

#[test]
fn client_writes_the_list_requests() {
    let api = GoogleTasks::new("secret token".to_string());
    assert_eq!(
        api.list_tasklists(),
        Request {
            method: Method::Get,
            url: LISTS.to_string(),
            token: "secret token".to_string(),
            body: Payload::Nothing,
        }
    );
    assert_eq!(
        api.create_tasklist("Chores"),
        Request {
            method: Method::Post,
            url: LISTS.to_string(),
            token: "secret token".to_string(),
            body: Payload::List(list(None, Some("Chores"))),
        }
    );
}

#[test]
fn client_writes_the_task_requests() {
    let api = GoogleTasks::new("t".to_string());
    let body = task(Some("T9"), Some("a"), Some("b"), Some("completed"));
    assert_eq!(
        api.list_tasks("L1"),
        Request {
            method: Method::Get,
            url: "https://tasks.googleapis.com/tasks/v1/lists/L1/tasks".to_string(),
            token: "t".to_string(),
            body: Payload::Nothing,
        }
    );
    assert_eq!(
        api.create_task("L1", body.clone()),
        Request {
            method: Method::Post,
            url: "https://tasks.googleapis.com/tasks/v1/lists/L1/tasks".to_string(),
            token: "t".to_string(),
            body: Payload::Task(body.clone()),
        }
    );
    assert_eq!(
        api.update_task("L1", "T9", body.clone()),
        Request {
            method: Method::Put,
            url: "https://tasks.googleapis.com/tasks/v1/lists/L1/tasks/T9".to_string(),
            token: "t".to_string(),
            body: Payload::Task(body),
        }
    );
    assert_eq!(
        api.delete_task("L1", "T9"),
        Request {
            method: Method::Delete,
            url: "https://tasks.googleapis.com/tasks/v1/lists/L1/tasks/T9".to_string(),
            token: "t".to_string(),
            body: Payload::Nothing,
        }
    );
}

#[test]
fn addresses_insert_identifiers_as_they_are() {
    assert_eq!(
        GoogleTasks::tasks_address(""),
        "https://tasks.googleapis.com/tasks/v1/lists//tasks"
    );
    assert_eq!(
        GoogleTasks::task_address("a b", "ü/1"),
        "https://tasks.googleapis.com/tasks/v1/lists/a b/tasks/ü/1"
    );
}

#[test]
fn success_is_the_2xx_class() {
    assert!(!GoogleTasks::succeeded(199));
    assert!(GoogleTasks::succeeded(200));
    assert!(GoogleTasks::succeeded(204));
    assert!(GoogleTasks::succeeded(299));
    assert!(!GoogleTasks::succeeded(300));
    assert!(!GoogleTasks::succeeded(404));
    assert!(!GoogleTasks::succeeded(0));
    assert!(!GoogleTasks::succeeded(u16::MAX));
}

#[test]
fn reading_a_reply() {
    let t = task(Some("1"), None, None, None);
    assert_eq!(GoogleTasks::read::<TaskItem>(Reply::Lost), Err(ApiError::Transport));
    assert_eq!(
        GoogleTasks::read(Reply::Answer { status: 200, content: Content::Value(t.clone()) }),
        Ok(t.clone())
    );
    assert_eq!(
        GoogleTasks::read(Reply::Answer { status: 401, content: Content::Value(t.clone()) }),
        Err(ApiError::Status(401))
    );
    assert_eq!(
        GoogleTasks::read::<TaskItem>(Reply::Answer { status: 200, content: Content::Unreadable }),
        Err(ApiError::Decode)
    );
    assert_eq!(
        GoogleTasks::read::<TaskItem>(Reply::Answer { status: 200, content: Content::Unexpected }),
        Err(ApiError::Decode)
    );
    assert_eq!(
        GoogleTasks::read::<TaskItem>(Reply::Answer { status: 500, content: Content::Unreadable }),
        Err(ApiError::Status(500))
    );
}

#[test]
fn reading_a_task_listing_tolerates_a_missing_list() {
    let ts = vec![task(Some("1"), Some("a"), None, None)];
    assert_eq!(
        GoogleTasks::read_tasks(Reply::Answer { status: 200, content: Content::Unexpected }),
        Ok(vec![])
    );
    assert_eq!(
        GoogleTasks::read_tasks(Reply::Answer { status: 200, content: Content::Value(ts.clone()) }),
        Ok(ts.clone())
    );
    assert_eq!(
        GoogleTasks::read_tasks(Reply::Answer { status: 200, content: Content::Unreadable }),
        Err(ApiError::Decode)
    );
    assert_eq!(
        GoogleTasks::read_tasks(Reply::Answer { status: 403, content: Content::Unexpected }),
        Err(ApiError::Status(403))
    );
    assert_eq!(
        GoogleTasks::read_tasks(Reply::Answer { status: 503, content: Content::Value(ts) }),
        Err(ApiError::Status(503))
    );
    assert_eq!(GoogleTasks::read_tasks(Reply::Lost), Err(ApiError::Transport));
}

#[test]
fn reading_a_deletion_looks_at_the_status_only() {
    assert_eq!(
        GoogleTasks::read_deleted::<()>(Reply::Answer { status: 204, content: Content::Unreadable }),
        Ok(())
    );
    assert_eq!(
        GoogleTasks::read_deleted(Reply::Answer { status: 404, content: Content::Value(()) }),
        Err(ApiError::Status(404))
    );
    assert_eq!(GoogleTasks::read_deleted::<()>(Reply::Lost), Err(ApiError::Transport));
}

#[test]
fn start_reuses_the_first_list_of_the_title() {
    let api = GoogleTasks::new("tok".to_string());
    let lists = vec![
        list(Some("A"), Some("Inbox")),
        list(Some("B"), None),
        list(Some("C"), Some("My Rust Tasks")),
        list(Some("D"), Some("My Rust Tasks")),
    ];
    assert_eq!(TodoStoreGTask::named_position(&lists), Some(2));
    match TodoStoreGTask::resolve(&api, Ok(lists)) {
        Ok(Resolution::Found(l)) => assert_eq!(l, list(Some("C"), Some("My Rust Tasks"))),
        _ => panic!("the list exists"),
    }
}

#[test]
fn start_creates_the_list_when_no_title_matches() {
    let api = GoogleTasks::new("tok".to_string());
    let lists = vec![list(Some("A"), Some("my rust tasks")), list(Some("B"), Some("My Rust Tasks "))];
    assert_eq!(TodoStoreGTask::named_position(&lists), None);
    match TodoStoreGTask::resolve(&api, Ok(lists)) {
        Ok(Resolution::Create(req)) => assert_eq!(req, api.create_tasklist("My Rust Tasks")),
        _ => panic!("no list has the title"),
    }
    match TodoStoreGTask::resolve(&api, Ok(vec![])) {
        Ok(Resolution::Create(req)) => {
            assert_eq!(req.method, Method::Post);
            assert_eq!(req.url, LISTS);
            assert_eq!(req.body, Payload::List(list(None, Some("My Rust Tasks"))));
        }
        _ => panic!("no list at all"),
    }
}

#[test]
fn start_fails_when_the_listing_failed() {
    let api = GoogleTasks::new("tok".to_string());
    match TodoStoreGTask::resolve(&api, Err(ApiError::Status(401))) {
        Err(e) => assert_eq!(e, ApiError::Status(401)),
        Ok(_) => panic!("the listing failed"),
    }
}

#[test]
fn a_list_without_identifier_makes_no_store() {
    let api = GoogleTasks::new("tok".to_string());
    match TodoStoreGTask::new(api, list(None, Some("My Rust Tasks"))) {
        Err(e) => assert_eq!(e, ApiError::MissingId),
        Ok(_) => panic!("there is no identifier"),
    }
}

#[test]
fn store_requests_go_to_its_list() {
    let s = store();
    let api = GoogleTasks::new("tok".to_string());
    assert_eq!(s.fetch(), api.list_tasks("L1"));
    assert_eq!(
        s.add_item("Groceries".to_string(), "buy milk and eggs".to_string()),
        api.create_task(
            "L1",
            task(None, Some("Groceries"), Some("buy milk and eggs"), Some("needsAction"))
        )
    );
}

#[test]
fn empty_listing_is_an_empty_success() {
    let s = store();
    assert_eq!(s.list_items(Ok(vec![])), Ok(vec![]));
    assert_eq!(s.list_items(Err(ApiError::Transport)), Err(ApiError::Transport));
}

#[test]
fn tasks_become_items() {
    let s = store();
    let tasks = vec![
        task(Some("a"), Some("one"), Some("n1"), Some("completed")),
        task(Some("b"), Some("two"), Some("n2"), Some("needsAction")),
        task(None, None, None, None),
        task(Some("d"), Some("four"), None, Some("Completed")),
    ];
    let items = s.list_items(Ok(tasks)).unwrap();
    let item = |id: &str, title: &str, content: &str, status: Status| TodoItem {
        id: id.to_string(),
        title: title.to_string(),
        content: content.to_string(),
        status,
        due: None,
    };
    assert_eq!(
        items,
        vec![
            item("a", "one", "n1", Status::Done),
            item("b", "two", "n2", Status::Todo),
            item("", "", "", Status::Todo),
            item("d", "four", "", Status::Todo),
        ]
    );
}

#[test]
fn due_date_survives_the_round_trip() {
    let s = store();
    let mut t = task(Some("a"), Some("Taxes"), Some("file"), Some("needsAction"));
    t.due = Some("2024-06-01T00:00:00Z".to_string());
    let fetched = Ok(vec![t.clone()]);
    let items = s.list_items(fetched.clone()).unwrap();
    assert_eq!(items[0].due, Some("2024-06-01T00:00:00Z".to_string()));
    assert_eq!(
        s.find_by_title(&fetched, "Taxes").unwrap().due,
        Some("2024-06-01T00:00:00Z".to_string())
    );
    let req = s.complete_item(&fetched, "Taxes").unwrap();
    match req.body {
        Payload::Task(sent) => {
            assert_eq!(sent.due, Some("2024-06-01T00:00:00Z".to_string()));
            assert_eq!(sent.status, Some("completed".to_string()));
        }
        _ => panic!("a task is sent"),
    }
    let odd = "not a date at all  ";
    t.due = Some(odd.to_string());
    assert_eq!(TodoStoreGTask::to_item(&t).due, Some(odd.to_string()));
}

#[test]
fn find_takes_the_first_exact_title() {
    let s = store();
    let tasks = vec![
        task(Some("a"), Some("groceries"), None, None),
        task(Some("b"), None, None, None),
        task(Some("c"), Some("Groceries"), Some("first"), None),
        task(Some("d"), Some("Groceries"), Some("second"), Some("completed")),
    ];
    assert_eq!(TodoStoreGTask::position(&tasks, "Groceries"), Some(2));
    assert_eq!(TodoStoreGTask::position(&tasks, "Grocer"), None);
    assert_eq!(TodoStoreGTask::position(&tasks, ""), None);
    let fetched = Ok(tasks);
    let found = s.find_by_title(&fetched, "Groceries").unwrap();
    assert_eq!(found.id, "c");
    assert_eq!(found.content, "first");
    assert_eq!(found.status, Status::Todo);
    assert_eq!(s.find_by_title(&fetched, "Nothing"), None);
    assert_eq!(s.find_by_title(&Err(ApiError::Transport), "Groceries"), None);
}

#[test]
fn complete_writes_a_full_replacement() {
    let s = store();
    let api = GoogleTasks::new("tok".to_string());
    let fetched = Ok(vec![
        task(Some("a"), Some("x"), None, None),
        task(Some("b"), Some("Groceries"), Some("buy milk and eggs"), Some("needsAction")),
    ]);
    assert_eq!(
        s.complete_item(&fetched, "Groceries"),
        Ok(api.update_task(
            "L1",
            "b",
            task(Some("b"), Some("Groceries"), Some("buy milk and eggs"), Some("completed"))
        ))
    );
}

#[test]
fn complete_of_a_missing_title_is_not_found() {
    let s = store();
    let fetched = Ok(vec![task(Some("a"), Some("x"), None, None)]);
    assert_eq!(s.complete_item(&fetched, "Groceries"), Err(TodoError::NotFound));
    assert_eq!(s.complete_item(&Ok(vec![]), "Groceries"), Err(TodoError::NotFound));
    assert_eq!(s.complete_item(&Err(ApiError::Decode), "x"), Err(TodoError::NotFound));
}

#[test]
fn remove_writes_a_deletion_of_the_first_match() {
    let s = store();
    let api = GoogleTasks::new("tok".to_string());
    let fetched = Ok(vec![
        task(Some("a"), Some("x"), None, None),
        task(Some("b"), Some("Groceries"), None, None),
        task(Some("c"), Some("Groceries"), None, None),
    ]);
    assert_eq!(s.remove_item(&fetched, "Groceries".to_string()), Ok(api.delete_task("L1", "b")));
}

#[test]
fn remove_of_a_missing_title_is_not_found() {
    let s = store();
    let fetched = Ok(vec![task(Some("a"), Some("x"), None, None)]);
    assert_eq!(s.remove_item(&fetched, "Groceries".to_string()), Err(TodoError::NotFound));
    assert_eq!(s.remove_item(&Err(ApiError::Transport), "x".to_string()), Err(TodoError::NotFound));
}

#[test]
fn failed_calls_are_reported() {
    let t = task(Some("a"), None, None, None);
    assert_eq!(TodoStoreGTask::added(Ok(t.clone())), Ok(()));
    assert_eq!(TodoStoreGTask::added(Err(ApiError::Status(500))), Err(ApiError::Status(500)));
    assert_eq!(TodoStoreGTask::confirm(Ok(t)), Ok(()));
    assert_eq!(TodoStoreGTask::confirm(Ok(())), Ok(()));
    assert_eq!(TodoStoreGTask::confirm::<()>(Err(ApiError::Status(404))), Err(TodoError::NotFound));
    assert_eq!(TodoStoreGTask::confirm::<()>(Err(ApiError::Transport)), Err(TodoError::NotFound));
}

#[test]
fn a_session_against_the_service() {
    let s = store();
    let mut service = Service { tasks: vec![], issued: 0 };

    assert_eq!(s.list_items(Ok(service.handle(&s.fetch()))), Ok(vec![]));

    let req = s.add_item("Groceries".to_string(), "buy milk and eggs".to_string());
    service.handle(&req);
    let req = s.add_item("Taxes".to_string(), "file".to_string());
    service.handle(&req);

    let items = s.list_items(Ok(service.handle(&s.fetch()))).unwrap();
    assert_eq!(items.len(), 2);
    assert!(items.iter().any(|i| i.title == "Groceries"
        && i.content == "buy milk and eggs"
        && i.status == Status::Todo));

    let fetched = Ok(service.handle(&s.fetch()));
    let req = s.complete_item(&fetched, "Groceries").unwrap();
    service.handle(&req);
    let fetched = Ok(service.handle(&s.fetch()));
    let found = s.find_by_title(&fetched, "Groceries").unwrap();
    assert_eq!(found.status, Status::Done);
    assert_eq!(found.content, "buy milk and eggs");
    assert_eq!(s.find_by_title(&fetched, "Taxes").unwrap().status, Status::Todo);

    let before = service.tasks.clone();
    let req = s.complete_item(&fetched, "Groceries").unwrap();
    service.handle(&req);
    assert_eq!(service.tasks, before);

    assert_eq!(s.complete_item(&fetched, "Laundry"), Err(TodoError::NotFound));
    assert_eq!(service.tasks, before);

    let req = s.remove_item(&fetched, "Groceries".to_string()).unwrap();
    service.handle(&req);
    let fetched = Ok(service.handle(&s.fetch()));
    assert_eq!(s.find_by_title(&fetched, "Groceries"), None);
    assert_eq!(s.list_items(fetched.clone()).unwrap().len(), 1);
    assert_eq!(s.remove_item(&fetched, "Groceries".to_string()), Err(TodoError::NotFound));
}
