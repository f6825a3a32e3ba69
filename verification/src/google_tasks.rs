//! The remote task service: its two resources, the request each call sends,
//! and how a reply is read.
//!
//! A `GoogleTasks` value holds the bearer token and writes requests; it never
//! touches the network. The caller sends a `Request`, and describes what came
//! back as a `Reply`.

use vstd::prelude::*;
use vstd::string::*;
use crate::item::text;

verus! {

/// A named container of tasks.
#[derive(Debug, Clone, PartialEq, Eq)]
pub struct TaskList {
    pub id: Option<String>,
    pub title: Option<String>,
}

pub struct TaskListView {
    pub id: Option<Seq<char>>,
    pub title: Option<Seq<char>>,
}

impl View for TaskList {
    type V = TaskListView;

    open spec fn view(&self) -> TaskListView {
        TaskListView { id: text(self.id), title: text(self.title) }
    }
}

/// A task as the service sends and accepts it. Every field may be absent.
#[derive(Debug, Clone, PartialEq, Eq)]
pub struct TaskItem {
    pub id: Option<String>,
    pub title: Option<String>,
    pub notes: Option<String>,
    /// `needsAction` or `completed`.
    pub status: Option<String>,
    /// Kept as the service wrote it, whatever its shape.
    pub due: Option<String>,
}

pub struct TaskItemView {
    pub id: Option<Seq<char>>,
    pub title: Option<Seq<char>>,
    pub notes: Option<Seq<char>>,
    pub status: Option<Seq<char>>,
    pub due: Option<Seq<char>>,
}

impl View for TaskItem {
    type V = TaskItemView;

    open spec fn view(&self) -> TaskItemView {
        TaskItemView {
            id: text(self.id),
            title: text(self.title),
            notes: text(self.notes),
            status: text(self.status),
            due: text(self.due),
        }
    }
}

/// The tasks of a listing, each by its view.
pub open spec fn task_views(tasks: Seq<TaskItem>) -> Seq<TaskItemView> {
    tasks.map_values(|t: TaskItem| t@)
}

/// The task lists of a listing, each by its view.
pub open spec fn list_views(lists: Seq<TaskList>) -> Seq<TaskListView> {
    lists.map_values(|l: TaskList| l@)
}

#[derive(Debug, Clone, Copy, PartialEq, Eq, Structural)]
pub enum Method {
    Get,
    Post,
    Put,
    Delete,
}

/// The JSON document a request carries, before it is serialised.
#[derive(Debug, Clone, PartialEq, Eq)]
pub enum Payload {
    Nothing,
    List(TaskList),
    Task(TaskItem),
}

pub enum PayloadView {
    Nothing,
    List(TaskListView),
    Task(TaskItemView),
}

impl View for Payload {
    type V = PayloadView;

    open spec fn view(&self) -> PayloadView {
        match self {
            Payload::Nothing => PayloadView::Nothing,
            Payload::List(l) => PayloadView::List(l@),
            Payload::Task(t) => PayloadView::Task(t@),
        }
    }
}

/// One HTTPS call, ready to be sent with `Authorization: Bearer <token>`.
#[derive(Debug, Clone, PartialEq, Eq)]
pub struct Request {
    pub method: Method,
    pub url: String,
    pub token: String,
    pub body: Payload,
}

pub struct RequestView {
    pub method: Method,
    pub url: Seq<char>,
    pub token: Seq<char>,
    pub body: PayloadView,
}

impl View for Request {
    type V = RequestView;

    open spec fn view(&self) -> RequestView {
        RequestView { method: self.method, url: self.url@, token: self.token@, body: self.body@ }
    }
}

/// Why a call gave no value.
#[derive(Debug, Clone, Copy, PartialEq, Eq, Structural)]
pub enum ApiError {
    /// The request could not be sent, or no response arrived.
    Transport,
    /// The service answered with a status outside 200..=299.
    Status(u16),
    /// The body was not the document the call expects.
    Decode,
    /// A task list came back without an identifier.
    MissingId,
}

/// The body of a response, as far as it could be read.
#[derive(Debug, Clone, PartialEq, Eq)]
pub enum Content<T> {
    /// Not JSON at all.
    Unreadable,
    /// JSON, but not of the shape the call expects.
    Unexpected,
    Value(T),
}

/// What came back for a request.
#[derive(Debug, Clone, PartialEq, Eq)]
pub enum Reply<T> {
    /// Nothing: the transport failed.
    Lost,
    Answer { status: u16, content: Content<T> },
}

/// A status in the 2xx class.
pub open spec fn is_success(status: u16) -> bool {
    200 <= status <= 299
}

/// The collection of the user's task lists.
pub open spec fn tasklists_url() -> Seq<char> {
    "https://tasks.googleapis.com/tasks/v1/users/@me/lists"@
}

/// The collection of tasks in a list.
pub open spec fn tasks_url(tasklist_id: Seq<char>) -> Seq<char> {
    "https://tasks.googleapis.com/tasks/v1/lists/"@ + tasklist_id + "/tasks"@
}

/// One task of a list.
pub open spec fn task_url(tasklist_id: Seq<char>, task_id: Seq<char>) -> Seq<char> {
    tasks_url(tasklist_id) + "/"@ + task_id
}

/// How every call but the two below reads its reply: the value, unless the
/// transport failed, the status is not 2xx, or the body is not the expected
/// document.
pub open spec fn reading<T>(reply: Reply<T>) -> Result<T, ApiError> {
    match reply {
        Reply::Lost => Err(ApiError::Transport),
        Reply::Answer { status, content } => if !is_success(status) {
            Err(ApiError::Status(status))
        } else {
            match content {
                Content::Value(v) => Ok(v),
                _ => Err(ApiError::Decode),
            }
        },
    }
}

/// The client of the task service.
pub struct GoogleTasks {
    token: String,
}

impl GoogleTasks {
    /// The bearer token every request carries.
    pub closed spec fn bearer(&self) -> Seq<char> {
        self.token@
    }

    pub fn new(token: String) -> (api: Self)
        ensures
            api.bearer() == token@,
    {
        GoogleTasks { token }
    }

    /// Asks for the user's task lists.
    pub fn list_tasklists(&self) -> (req: Request)
        ensures
            req@ == (RequestView {
                method: Method::Get,
                url: tasklists_url(),
                token: self.bearer(),
                body: PayloadView::Nothing,
            }),
    {
        Request {
            method: Method::Get,
            url: String::from_str("https://tasks.googleapis.com/tasks/v1/users/@me/lists"),
            token: self.token.clone(),
            body: Payload::Nothing,
        }
    }

    /// Asks for a new task list with the given title.
    pub fn create_tasklist(&self, title: &str) -> (req: Request)
        ensures
            req@ == (RequestView {
                method: Method::Post,
                url: tasklists_url(),
                token: self.bearer(),
                body: PayloadView::List(TaskListView { id: None, title: Some(title@) }),
            }),
    {
        Request {
            method: Method::Post,
            url: String::from_str("https://tasks.googleapis.com/tasks/v1/users/@me/lists"),
            token: self.token.clone(),
            body: Payload::List(TaskList { id: None, title: Some(String::from_str(title)) }),
        }
    }

    /// Asks for the tasks of a list.
    pub fn list_tasks(&self, tasklist_id: &str) -> (req: Request)
        ensures
            req@ == (RequestView {
                method: Method::Get,
                url: tasks_url(tasklist_id@),
                token: self.bearer(),
                body: PayloadView::Nothing,
            }),
    {
        Request {
            method: Method::Get,
            url: Self::tasks_address(tasklist_id),
            token: self.token.clone(),
            body: Payload::Nothing,
        }
    }

    /// Asks for `task` to be added to a list.
    pub fn create_task(&self, tasklist_id: &str, task: TaskItem) -> (req: Request)
        ensures
            req@ == (RequestView {
                method: Method::Post,
                url: tasks_url(tasklist_id@),
                token: self.bearer(),
                body: PayloadView::Task(task@),
            }),
    {
        Request {
            method: Method::Post,
            url: Self::tasks_address(tasklist_id),
            token: self.token.clone(),
            body: Payload::Task(task),
        }
    }

    /// Asks for one task of a list to be deleted.
    pub fn delete_task(&self, tasklist_id: &str, task_id: &str) -> (req: Request)
        ensures
            req@ == (RequestView {
                method: Method::Delete,
                url: task_url(tasklist_id@, task_id@),
                token: self.bearer(),
                body: PayloadView::Nothing,
            }),
    {
        Request {
            method: Method::Delete,
            url: Self::task_address(tasklist_id, task_id),
            token: self.token.clone(),
            body: Payload::Nothing,
        }
    }

    /// Asks for one task of a list to be replaced as a whole by `task_update`.
    pub fn update_task(&self, tasklist_id: &str, task_id: &str, task_update: TaskItem) -> (req:
        Request)
        ensures
            req@ == (RequestView {
                method: Method::Put,
                url: task_url(tasklist_id@, task_id@),
                token: self.bearer(),
                body: PayloadView::Task(task_update@),
            }),
    {
        Request {
            method: Method::Put,
            url: Self::task_address(tasklist_id, task_id),
            token: self.token.clone(),
            body: Payload::Task(task_update),
        }
    }

    /// The address of the tasks of a list. The identifier is inserted as it is.
    pub fn tasks_address(tasklist_id: &str) -> (url: String)
        ensures
            url@ == tasks_url(tasklist_id@),
    {
        let mut url = String::from_str("https://tasks.googleapis.com/tasks/v1/lists/");
        url.append(tasklist_id);
        url.append("/tasks");
        url
    }

    /// The address of one task. Both identifiers are inserted as they are.
    pub fn task_address(tasklist_id: &str, task_id: &str) -> (url: String)
        ensures
            url@ == task_url(tasklist_id@, task_id@),
    {
        let mut url = Self::tasks_address(tasklist_id);
        url.append("/");
        url.append(task_id);
        url
    }

    /// Whether a status is in the 2xx class.
    pub fn succeeded(status: u16) -> (ok: bool)
        ensures
            ok == is_success(status),
    {
        200 <= status && status <= 299
    }

    /// Reads the reply to a call that returns one document: listing the task
    /// lists, creating a list, creating or replacing a task.
    pub fn read<T>(reply: Reply<T>) -> (res: Result<T, ApiError>)
        ensures
            res == reading(reply),
    {
        match reply {
            Reply::Lost => Err(ApiError::Transport),
            Reply::Answer { status, content } => {
                if !Self::succeeded(status) {
                    Err(ApiError::Status(status))
                } else {
                    match content {
                        Content::Value(v) => Ok(v),
                        _ => Err(ApiError::Decode),
                    }
                }
            },
        }
    }

    /// Reads the reply to `list_tasks`. A JSON body without the list of
    /// tasks, or of another shape, stands for no tasks at all.
    pub fn read_tasks(reply: Reply<Vec<TaskItem>>) -> (res: Result<Vec<TaskItem>, ApiError>)
        ensures
            match reply {
                Reply::Answer { status, content: Content::Unexpected } if is_success(status) => {
                    res is Ok && res->Ok_0@.len() == 0
                },
                _ => res == reading(reply),
            },
    {
        match reply {
            Reply::Lost => Err(ApiError::Transport),
            Reply::Answer { status, content } => {
                if !Self::succeeded(status) {
                    Err(ApiError::Status(status))
                } else {
                    match content {
                        Content::Value(v) => Ok(v),
                        Content::Unexpected => Ok(Vec::new()),
                        Content::Unreadable => Err(ApiError::Decode),
                    }
                }
            },
        }
    }

    /// Reads the reply to `delete_task`: only the status counts.
    pub fn read_deleted<T>(reply: Reply<T>) -> (res: Result<(), ApiError>)
        ensures
            res == (match reply {
                Reply::Lost => Err(ApiError::Transport),
                Reply::Answer { status, content } => if is_success(status) {
                    Ok(())
                } else {
                    Err(ApiError::Status(status))
                },
            }),
    {
        match reply {
            Reply::Lost => Err(ApiError::Transport),
            Reply::Answer { status, content } => {
                if Self::succeeded(status) {
                    Ok(())
                } else {
                    Err(ApiError::Status(status))
                }
            },
        }
    }
}

} // verus!
