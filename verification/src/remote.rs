//! The store kept by the remote task service.
//!
//! Every operation of the store is a decision around one or two calls to the
//! service. The functions here make the decisions: they write the request to
//! send, and say what a reply means. Sending is left to the caller.

use vstd::prelude::*;
use vstd::string::*;
use crate::google_tasks::{
    list_views, task_url, task_views, tasklists_url, tasks_url, ApiError, GoogleTasks, Method,
    PayloadView, Request, RequestView, TaskItem, TaskItemView, TaskList, TaskListView,
};
use crate::item::{
    copy_or_empty, copy_text, item_views, text_or_empty, Status, TodoError, TodoItem, TodoItemView,
};
use crate::lookup::{first_match, first_match_at, first_match_none};

verus! {

/// The title of the one task list this store works in.
pub open spec fn list_title() -> Seq<char> {
    "My Rust Tasks"@
}

/// The status a task has for us: done only when the service says `completed`.
pub open spec fn status_of(remote: Option<Seq<char>>) -> Status {
    if remote == Some("completed"@) {
        Status::Done
    } else {
        Status::Todo
    }
}

/// A task of the service as an item. Absent strings become empty; the due
/// date is carried over untouched.
pub open spec fn item_of(task: TaskItemView) -> TodoItemView {
    TodoItemView {
        id: text_or_empty(task.id),
        title: text_or_empty(task.title),
        content: text_or_empty(task.notes),
        status: status_of(task.status),
        due: task.due,
    }
}

/// A listing of the service as items, in the order received.
pub open spec fn items_of(tasks: Seq<TaskItemView>) -> Seq<TodoItemView> {
    tasks.map_values(|t: TaskItemView| item_of(t))
}

/// The task sent for a new item: open, without id or due date.
pub open spec fn new_task(title: Seq<char>, content: Seq<char>) -> TaskItemView {
    TaskItemView {
        id: None,
        title: Some(title),
        notes: Some(content),
        status: Some("needsAction"@),
        due: None,
    }
}

/// The task sent to mark an item done: the item as it is, with the status
/// `completed`.
pub open spec fn completed_task(item: TodoItemView) -> TaskItemView {
    TaskItemView {
        id: Some(item.id),
        title: Some(item.title),
        notes: Some(item.content),
        status: Some("completed"@),
        due: item.due,
    }
}

/// The titles of a listing of tasks.
pub open spec fn task_titles(tasks: Seq<TaskItemView>) -> Seq<Option<Seq<char>>> {
    tasks.map_values(|t: TaskItemView| t.title)
}

/// The titles of a listing of task lists.
pub open spec fn list_titles(lists: Seq<TaskListView>) -> Seq<Option<Seq<char>>> {
    lists.map_values(|l: TaskListView| l.title)
}

/// The position of the first task titled exactly `title`.
pub open spec fn first_titled(tasks: Seq<TaskItemView>, title: Seq<char>) -> Option<int> {
    first_match(task_titles(tasks), title)
}

/// The position of the first list titled as this store's list.
pub open spec fn first_named(lists: Seq<TaskListView>) -> Option<int> {
    first_match(list_titles(lists), list_title())
}

/// What to do once the task lists are known.
pub enum Resolution {
    /// The list exists: work in it.
    Found(TaskList),
    /// No list has the title: send this request, and work in the list that
    /// comes back.
    Create(Request),
}

/// The request that creates this store's list.
pub open spec fn create_list_request(bearer: Seq<char>) -> RequestView {
    RequestView {
        method: Method::Post,
        url: tasklists_url(),
        token: bearer,
        body: PayloadView::List(TaskListView { id: None, title: Some(list_title()) }),
    }
}

/// The request that lists the tasks of list `id`.
pub open spec fn fetch_request(bearer: Seq<char>, id: Seq<char>) -> RequestView {
    RequestView { method: Method::Get, url: tasks_url(id), token: bearer, body: PayloadView::Nothing }
}

/// The request that adds a new open task.
pub open spec fn add_request(
    bearer: Seq<char>,
    id: Seq<char>,
    title: Seq<char>,
    content: Seq<char>,
) -> RequestView {
    RequestView {
        method: Method::Post,
        url: tasks_url(id),
        token: bearer,
        body: PayloadView::Task(new_task(title, content)),
    }
}

/// The request that replaces `task` by its completed form.
pub open spec fn complete_request(bearer: Seq<char>, id: Seq<char>, task: TaskItemView) -> RequestView {
    RequestView {
        method: Method::Put,
        url: task_url(id, item_of(task).id),
        token: bearer,
        body: PayloadView::Task(completed_task(item_of(task))),
    }
}

/// The request that deletes `task`.
pub open spec fn remove_request(bearer: Seq<char>, id: Seq<char>, task: TaskItemView) -> RequestView {
    RequestView {
        method: Method::Delete,
        url: task_url(id, item_of(task).id),
        token: bearer,
        body: PayloadView::Nothing,
    }
}

/// A store whose items are the tasks of one list of the service.
pub struct TodoStoreGTask {
    tasks_api: GoogleTasks,
    id: String,
}

impl TodoStoreGTask {
    /// The bearer token of the client inside.
    pub closed spec fn bearer(&self) -> Seq<char> {
        self.tasks_api.bearer()
    }

    /// The identifier of the list, fixed when the store was made.
    pub closed spec fn list_id(&self) -> Seq<char> {
        self.id@
    }

    /// Decides, from the task lists the service reported, whether the list
    /// exists or has to be created. A failed listing fails the start.
    pub fn resolve(tasks_api: &GoogleTasks, listed: Result<Vec<TaskList>, ApiError>) -> (res:
        Result<Resolution, ApiError>)
        ensures
            match listed {
                Err(e) => res == Err::<Resolution, ApiError>(e),
                Ok(lists) => match first_named(list_views(lists@)) {
                    Some(i) => {
                        &&& res is Ok
                        &&& res->Ok_0 is Found
                        &&& res->Ok_0->Found_0@ == list_views(lists@)[i]
                    },
                    None => {
                        &&& res is Ok
                        &&& res->Ok_0 is Create
                        &&& res->Ok_0->Create_0@ == create_list_request(tasks_api.bearer())
                    },
                },
            },
    {
        match listed {
            Err(e) => Err(e),
            Ok(lists) => match Self::named_position(&lists) {
                Some(i) => Ok(
                    Resolution::Found(
                        TaskList { id: copy_text(&lists[i].id), title: copy_text(&lists[i].title) },
                    ),
                ),
                None => Ok(Resolution::Create(tasks_api.create_tasklist("My Rust Tasks"))),
            },
        }
    }

    /// The position of the first list titled as this store's list.
    pub fn named_position(lists: &Vec<TaskList>) -> (pos: Option<usize>)
        ensures
            match pos {
                Some(i) => first_named(list_views(lists@)) == Some(i as int) && i < lists@.len(),
                None => first_named(list_views(lists@)) is None,
            },
    {
        let wanted = String::from_str("My Rust Tasks");
        let ghost titles = list_titles(list_views(lists@));
        let mut i: usize = 0;
        while i < lists.len()
            invariant
                i <= lists.len(),
                wanted@ == list_title(),
                titles == list_titles(list_views(lists@)),
                forall|j: int| 0 <= j < i ==> #[trigger] titles[j] != Some(list_title()),
            decreases lists.len() - i,
        {
            let hit = match &lists[i].title {
                Some(t) => *t == wanted,
                None => false,
            };
            if hit {
                proof {
                    first_match_at(titles, list_title(), i as int);
                }
                return Some(i);
            }
            assert(titles[i as int] != Some(list_title()));
            i += 1;
        }
        proof {
            first_match_none(titles, list_title());
        }
        None
    }

    /// The store that works in `tasklist`. A list without an identifier
    /// cannot be worked in.
    pub fn new(tasks_api: GoogleTasks, tasklist: TaskList) -> (res: Result<Self, ApiError>)
        ensures
            match tasklist.id {
                Some(id) => res is Ok && res->Ok_0.list_id() == id@ && res->Ok_0.bearer()
                    == tasks_api.bearer(),
                None => res is Err && res->Err_0 == ApiError::MissingId,
            },
    {
        match tasklist.id {
            Some(id) => Ok(TodoStoreGTask { tasks_api, id }),
            None => Err(ApiError::MissingId),
        }
    }

    /// The request that fetches the tasks of the list. What it brings is the
    /// `fetched` of the operations below.
    pub fn fetch(&self) -> (req: Request)
        ensures
            req@ == fetch_request(self.bearer(), self.list_id()),
    {
        self.tasks_api.list_tasks(self.id.as_str())
    }

    /// The request that adds an open item. Titles need not be unique.
    pub fn add_item(&self, title: String, content: String) -> (req: Request)
        ensures
            req@ == add_request(self.bearer(), self.list_id(), title@, content@),
    {
        let task = TaskItem {
            title: Some(title),
            notes: Some(content),
            status: Some(String::from_str("needsAction")),
            id: None,
            due: None,
        };
        self.tasks_api.create_task(self.id.as_str(), task)
    }

    /// One task as an item.
    pub fn to_item(task: &TaskItem) -> (item: TodoItem)
        ensures
            item@ == item_of(task@),
    {
        let status = match &task.status {
            Some(s) => if *s == String::from_str("completed") {
                Status::Done
            } else {
                Status::Todo
            },
            None => Status::Todo,
        };
        TodoItem {
            id: copy_or_empty(&task.id),
            title: copy_or_empty(&task.title),
            content: copy_or_empty(&task.notes),
            status,
            due: copy_text(&task.due),
        }
    }

    /// All items, in the order the service listed them. An empty list is a
    /// success with no items; only a failed fetch is an error.
    pub fn list_items(&self, fetched: Result<Vec<TaskItem>, ApiError>) -> (res: Result<
        Vec<TodoItem>,
        ApiError,
    >)
        ensures
            match fetched {
                Ok(tasks) => res is Ok && item_views(res->Ok_0@) == items_of(task_views(tasks@)),
                Err(e) => res == Err::<Vec<TodoItem>, ApiError>(e),
            },
            fetched is Ok && fetched->Ok_0@.len() == 0 ==> res is Ok && res->Ok_0@.len() == 0,
    {
        match fetched {
            Err(e) => Err(e),
            Ok(tasks) => {
                let mut items: Vec<TodoItem> = Vec::new();
                let mut i: usize = 0;
                while i < tasks.len()
                    invariant
                        i <= tasks.len(),
                        items@.len() == i,
                        forall|j: int|
                            0 <= j < i ==> (#[trigger] items@[j])@ == item_of(tasks@[j]@),
                    decreases tasks.len() - i,
                {
                    items.push(Self::to_item(&tasks[i]));
                    i += 1;
                }
                assert(item_views(items@) =~= items_of(task_views(tasks@)));
                Ok(items)
            },
        }
    }

    /// The position of the first task titled exactly `title`.
    pub fn position(tasks: &Vec<TaskItem>, title: &str) -> (pos: Option<usize>)
        ensures
            match pos {
                Some(i) => first_titled(task_views(tasks@), title@) == Some(i as int) && i
                    < tasks@.len(),
                None => first_titled(task_views(tasks@), title@) is None,
            },
    {
        let wanted = String::from_str(title);
        let ghost titles = task_titles(task_views(tasks@));
        let mut i: usize = 0;
        while i < tasks.len()
            invariant
                i <= tasks.len(),
                wanted@ == title@,
                titles == task_titles(task_views(tasks@)),
                forall|j: int| 0 <= j < i ==> #[trigger] titles[j] != Some(title@),
            decreases tasks.len() - i,
        {
            let hit = match &tasks[i].title {
                Some(t) => *t == wanted,
                None => false,
            };
            if hit {
                proof {
                    first_match_at(titles, title@, i as int);
                }
                return Some(i);
            }
            assert(titles[i as int] != Some(title@));
            i += 1;
        }
        proof {
            first_match_none(titles, title@);
        }
        None
    }

    /// The first item titled exactly `title`, by the order of the listing.
    /// None when no task has the title, and when the fetch failed.
    pub fn find_by_title(&self, fetched: &Result<Vec<TaskItem>, ApiError>, title: &str) -> (res:
        Option<TodoItem>)
        ensures
            match *fetched {
                Ok(tasks) => match first_titled(task_views(tasks@), title@) {
                    Some(i) => res is Some && res->Some_0@ == item_of(tasks@[i]@),
                    None => res is None,
                },
                Err(_) => res is None,
            },
    {
        match fetched {
            Err(_) => None,
            Ok(tasks) => match Self::position(tasks, title) {
                Some(i) => Some(Self::to_item(&tasks[i])),
                None => None,
            },
        }
    }

    /// The request that deletes the first item titled `title`, or `NotFound`
    /// when no task has the title or the fetch failed.
    pub fn remove_item(&self, fetched: &Result<Vec<TaskItem>, ApiError>, title: String) -> (res:
        Result<Request, TodoError>)
        ensures
            match *fetched {
                Ok(tasks) => match first_titled(task_views(tasks@), title@) {
                    Some(i) => res is Ok && res->Ok_0@ == remove_request(
                        self.bearer(),
                        self.list_id(),
                        tasks@[i]@,
                    ),
                    None => res == Err::<Request, TodoError>(TodoError::NotFound),
                },
                Err(_) => res == Err::<Request, TodoError>(TodoError::NotFound),
            },
    {
        match self.find_by_title(fetched, title.as_str()) {
            Some(item) => Ok(self.tasks_api.delete_task(self.id.as_str(), item.id.as_str())),
            None => Err(TodoError::NotFound),
        }
    }

    /// The request that marks the first item titled `title` as done, or
    /// `NotFound` when no task has the title or the fetch failed. The request
    /// replaces the whole task; an item that is done already is sent again
    /// unchanged.
    pub fn complete_item(&self, fetched: &Result<Vec<TaskItem>, ApiError>, title: &str) -> (res:
        Result<Request, TodoError>)
        ensures
            match *fetched {
                Ok(tasks) => match first_titled(task_views(tasks@), title@) {
                    Some(i) => res is Ok && res->Ok_0@ == complete_request(
                        self.bearer(),
                        self.list_id(),
                        tasks@[i]@,
                    ),
                    None => res == Err::<Request, TodoError>(TodoError::NotFound),
                },
                Err(_) => res == Err::<Request, TodoError>(TodoError::NotFound),
            },
    {
        match self.find_by_title(fetched, title) {
            Some(item) => {
                let task_update = TaskItem {
                    id: Some(item.id.clone()),
                    title: Some(item.title),
                    notes: Some(item.content),
                    status: Some(String::from_str("completed")),
                    due: item.due,
                };
                Ok(self.tasks_api.update_task(self.id.as_str(), item.id.as_str(), task_update))
            },
            None => Err(TodoError::NotFound),
        }
    }

    /// What the reply to an `add_item` request means for the command.
    pub fn added(outcome: Result<TaskItem, ApiError>) -> (res: Result<(), ApiError>)
        ensures
            res == (match outcome {
                Ok(_) => Ok::<(), ApiError>(()),
                Err(e) => Err(e),
            }),
    {
        match outcome {
            Ok(_) => Ok(()),
            Err(e) => Err(e),
        }
    }

    /// What the reply to a `remove_item` or `complete_item` request means
    /// for the command: any failure of the call counts as `NotFound`.
    pub fn confirm<T>(outcome: Result<T, ApiError>) -> (res: Result<(), TodoError>)
        ensures
            res == (match outcome {
                Ok(_) => Ok::<(), TodoError>(()),
                Err(_) => Err(TodoError::NotFound),
            }),
    {
        match outcome {
            Ok(_) => Ok(()),
            Err(_) => Err(TodoError::NotFound),
        }
    }
}

} // verus!
