//! The item model shared by every back end.

use vstd::prelude::*;
use vstd::string::*;

verus! {

/// Progress of an item. Nothing in the command language leads to
/// `InProgress`; the state exists for stores that already hold it.
#[derive(Debug, Clone, Copy, PartialEq, Eq, Structural)]
pub enum Status {
    Todo,
    InProgress,
    Done,
}

/// Why a store operation produced nothing.
#[derive(Debug, Clone, Copy, PartialEq, Eq, Structural)]
pub enum TodoError {
    /// No item answers to the title or id, or the table is empty.
    NotFound,
    /// The store could not take the change.
    StorageError,
}

/// One entry of the list.
#[derive(Debug, Clone, PartialEq, Eq)]
pub struct TodoItem {
    /// Decimal row number in the table, or the identifier the service assigned.
    pub id: String,
    /// The key by which commands find the item.
    pub title: String,
    pub content: String,
    pub status: Status,
    /// A date-time exactly as it was received; never parsed.
    pub due: Option<String>,
}

/// What a `TodoItem` is, with its strings as character sequences.
pub struct TodoItemView {
    pub id: Seq<char>,
    pub title: Seq<char>,
    pub content: Seq<char>,
    pub status: Status,
    pub due: Option<Seq<char>>,
}

/// The characters of an optional string.
pub open spec fn text(s: Option<String>) -> Option<Seq<char>> {
    match s {
        Some(s) => Some(s@),
        None => None,
    }
}

/// The characters of an optional string, empty when there is none.
pub open spec fn text_or_empty(s: Option<Seq<char>>) -> Seq<char> {
    match s {
        Some(s) => s,
        None => Seq::empty(),
    }
}

impl View for TodoItem {
    type V = TodoItemView;

    open spec fn view(&self) -> TodoItemView {
        TodoItemView {
            id: self.id@,
            title: self.title@,
            content: self.content@,
            status: self.status,
            due: text(self.due),
        }
    }
}

/// The strings of a list, each by its characters.
pub open spec fn texts(strings: Seq<String>) -> Seq<Seq<char>> {
    strings.map_values(|s: String| s@)
}

/// The items of a listing, each by its view.
pub open spec fn item_views(items: Seq<TodoItem>) -> Seq<TodoItemView> {
    items.map_values(|i: TodoItem| i@)
}

/// A copy of an optional string, character for character.
pub fn copy_text(s: &Option<String>) -> (copy: Option<String>)
    ensures
        text(copy) == text(*s),
{
    match s {
        Some(s) => Some(s.clone()),
        None => None,
    }
}

/// A copy of an optional string, empty when there is none.
pub fn copy_or_empty(s: &Option<String>) -> (copy: String)
    ensures
        copy@ == text_or_empty(text(*s)),
{
    match s {
        Some(s) => s.clone(),
        None => String::new(),
    }
}

/// The marker in front of a rendered item: checked only when it is done.
pub open spec fn checkbox(status: Status) -> Seq<char> {
    if status == Status::Done {
        "[X]"@
    } else {
        "[ ]"@
    }
}

/// The due date as shown to the user.
pub open spec fn due_text(due: Option<Seq<char>>) -> Seq<char> {
    match due {
        Some(d) => d,
        None => "No due date"@,
    }
}

/// The one-line rendering of an item:
/// `<marker> <title>: <content> (Due: <due>)`.
pub open spec fn summary(item: TodoItemView) -> Seq<char> {
    checkbox(item.status) + " "@ + item.title + ": "@ + item.content + " (Due: "@ + due_text(
        item.due,
    ) + ")"@
}

/// Anything that can be shown on one line of the console.
pub trait Summary {
    /// The line, as a character sequence.
    spec fn summary_text(&self) -> Seq<char>;

    fn summarize(&self) -> (line: String)
        ensures
            line@ == self.summary_text(),
    ;
}

impl Summary for TodoItem {
    open spec fn summary_text(&self) -> Seq<char> {
        summary(self@)
    }

    fn summarize(&self) -> (line: String) {
        let mut line = if self.status == Status::Done {
            String::from_str("[X]")
        } else {
            String::from_str("[ ]")
        };
        line.append(" ");
        line.append(self.title.as_str());
        line.append(": ");
        line.append(self.content.as_str());
        line.append(" (Due: ");
        match &self.due {
            Some(d) => line.append(d.as_str()),
            None => line.append("No due date"),
        }
        line.append(")");
        line
    }
}

} // verus!
