//! The command language of the console: what a line asks for, and what is
//! printed in answer.
//!
//! `add <title> <content...>`, `complete <title>`, `remove <title>` (also
//! spelled `delete`), `list`, `quit`. The first word decides; words beyond
//! those a command takes are ignored, except that `add` joins all of them
//! into the content.

use vstd::prelude::*;
use vstd::string::*;
use crate::item::{item_views, summary, texts, Summary, TodoError, TodoItem, TodoItemView};
use crate::words::{tokenize, words_of};

verus! {

/// A request to the store.
#[derive(Debug, Clone, PartialEq, Eq)]
pub enum Command {
    Add { title: String, content: String },
    Complete { title: String },
    Remove { title: String },
    List,
}

pub enum CommandView {
    Add { title: Seq<char>, content: Seq<char> },
    Complete { title: Seq<char> },
    Remove { title: Seq<char> },
    List,
}

impl View for Command {
    type V = CommandView;

    open spec fn view(&self) -> CommandView {
        match self {
            Command::Add { title, content } => CommandView::Add {
                title: title@,
                content: content@,
            },
            Command::Complete { title } => CommandView::Complete { title: title@ },
            Command::Remove { title } => CommandView::Remove { title: title@ },
            Command::List => CommandView::List,
        }
    }
}

/// A command word that needs arguments.
#[derive(Debug, Clone, Copy, PartialEq, Eq, Structural)]
pub enum Verb {
    Add,
    Complete,
    Remove,
    Delete,
}

/// What a line of input asks for.
#[derive(Debug, Clone, PartialEq, Eq)]
pub enum Input {
    /// No word at all: nothing to do.
    Blank,
    /// Leave the loop.
    Quit,
    /// Run this against the store.
    Run(Command),
    /// The command lacks arguments: print how it is used.
    Usage(Verb),
    /// The first word is no command.
    Unknown,
}

pub enum InputView {
    Blank,
    Quit,
    Run(CommandView),
    Usage(Verb),
    Unknown,
}

impl View for Input {
    type V = InputView;

    open spec fn view(&self) -> InputView {
        match self {
            Input::Blank => InputView::Blank,
            Input::Quit => InputView::Quit,
            Input::Run(c) => InputView::Run(c@),
            Input::Usage(v) => InputView::Usage(*v),
            Input::Unknown => InputView::Unknown,
        }
    }
}

/// The words, each two separated by one space.
pub open spec fn joined(words: Seq<Seq<char>>) -> Seq<char>
    decreases words.len(),
{
    if words.len() == 0 {
        Seq::empty()
    } else if words.len() == 1 {
        words[0]
    } else {
        joined(words.drop_last()) + " "@ + words.last()
    }
}

/// What the words of a line ask for.
pub open spec fn meaning(words: Seq<Seq<char>>) -> InputView {
    if words.len() == 0 {
        InputView::Blank
    } else if words[0] == "add"@ {
        if words.len() < 3 {
            InputView::Usage(Verb::Add)
        } else {
            InputView::Run(CommandView::Add { title: words[1], content: joined(words.skip(2)) })
        }
    } else if words[0] == "complete"@ {
        if words.len() < 2 {
            InputView::Usage(Verb::Complete)
        } else {
            InputView::Run(CommandView::Complete { title: words[1] })
        }
    } else if words[0] == "remove"@ {
        if words.len() < 2 {
            InputView::Usage(Verb::Remove)
        } else {
            InputView::Run(CommandView::Remove { title: words[1] })
        }
    } else if words[0] == "delete"@ {
        if words.len() < 2 {
            InputView::Usage(Verb::Delete)
        } else {
            InputView::Run(CommandView::Remove { title: words[1] })
        }
    } else if words[0] == "list"@ {
        InputView::Run(CommandView::List)
    } else if words[0] == "quit"@ {
        InputView::Quit
    } else {
        InputView::Unknown
    }
}

/// The words from `from` on, each two separated by one space.
pub fn join_from(words: &Vec<String>, from: usize) -> (text: String)
    requires
        from <= words@.len(),
    ensures
        text@ == joined(texts(words@).skip(from as int)),
{
    let ghost all = texts(words@).skip(from as int);
    let mut text = String::new();
    let mut k: usize = from;
    assert(all.take(0) =~= Seq::<Seq<char>>::empty());
    while k < words.len()
        invariant
            from <= k <= words.len(),
            all == texts(words@).skip(from as int),
            text@ == joined(all.take(k - from)),
        decreases words.len() - k,
    {
        proof {
            let next = all.take(k - from + 1);
            assert(next.drop_last() =~= all.take(k - from));
            assert(next.last() == words@[k as int]@);
        }
        if k > from {
            text.append(" ");
        }
        text.append(words[k].as_str());
        k += 1;
    }
    assert(all.take(k - from) =~= all);
    text
}

/// Whether a word is exactly this name.
fn is_word(word: &String, name: &str) -> (same: bool)
    ensures
        same == (word@ == name@),
{
    *word == String::from_str(name)
}

/// Reads one line of input.
pub fn parse(line: &str) -> (input: Input)
    ensures
        input@ == meaning(words_of(line@)),
{
    let words = tokenize(line);
    let n = words.len();
    if n == 0 {
        return Input::Blank;
    }
    assert(texts(words@)[0] == words@[0]@);
    let first = &words[0];
    if is_word(first, "add") {
        if n < 3 {
            Input::Usage(Verb::Add)
        } else {
            assert(texts(words@)[1] == words@[1]@);
            Input::Run(Command::Add { title: words[1].clone(), content: join_from(&words, 2) })
        }
    } else if is_word(first, "complete") {
        if n < 2 {
            Input::Usage(Verb::Complete)
        } else {
            assert(texts(words@)[1] == words@[1]@);
            Input::Run(Command::Complete { title: words[1].clone() })
        }
    } else if is_word(first, "remove") {
        if n < 2 {
            Input::Usage(Verb::Remove)
        } else {
            assert(texts(words@)[1] == words@[1]@);
            Input::Run(Command::Remove { title: words[1].clone() })
        }
    } else if is_word(first, "delete") {
        if n < 2 {
            Input::Usage(Verb::Delete)
        } else {
            assert(texts(words@)[1] == words@[1]@);
            Input::Run(Command::Remove { title: words[1].clone() })
        }
    } else if is_word(first, "list") {
        Input::Run(Command::List)
    } else if is_word(first, "quit") {
        Input::Quit
    } else {
        Input::Unknown
    }
}

/// How a command is used.
pub open spec fn usage_text(verb: Verb) -> Seq<char> {
    match verb {
        Verb::Add => "Usage: add <title> <content>"@,
        Verb::Complete => "Usage: complete <title>"@,
        Verb::Remove => "Usage: remove <title>"@,
        Verb::Delete => "Usage: delete <title>"@,
    }
}

/// The line printed when a store command has succeeded. Listing prints the
/// list itself.
pub open spec fn done_text(command: CommandView) -> Seq<char> {
    match command {
        CommandView::Add { .. } => "Added task."@,
        CommandView::Complete { .. } => "Completed task."@,
        CommandView::Remove { .. } => "Deleted task."@,
        CommandView::List => Seq::empty(),
    }
}

/// The line printed when a store command has failed.
pub open spec fn error_text(error: TodoError) -> Seq<char> {
    match error {
        TodoError::NotFound => "Error: NotFound"@,
        TodoError::StorageError => "Error: StorageError"@,
    }
}

/// The lines printed for a list: a header, one line per item, a footer.
pub open spec fn list_text(items: Seq<TodoItemView>) -> Seq<Seq<char>> {
    seq!["--- TODO List ---"@] + items.map_values(|i: TodoItemView| summary(i)) + seq![
        "-----------------"@,
    ]
}

/// What is printed for an input that does not reach the store. Nothing is
/// printed for a blank line, for `quit`, or ahead of a store command.
pub open spec fn notice(input: InputView) -> Option<Seq<char>> {
    match input {
        InputView::Usage(verb) => Some(usage_text(verb)),
        InputView::Unknown => Some("Unknown command"@),
        _ => None,
    }
}

/// What is printed once the store has answered a command. An empty table
/// reported as `NotFound` prints as an empty list.
pub open spec fn answer(command: CommandView, outcome: Result<Seq<TodoItemView>, TodoError>) -> Seq<
    Seq<char>,
> {
    match outcome {
        Ok(items) => if command is List {
            list_text(items)
        } else {
            seq![done_text(command)]
        },
        Err(e) => if command is List && e == TodoError::NotFound {
            list_text(Seq::empty())
        } else {
            seq![error_text(e)]
        },
    }
}

impl Verb {
    /// How the command is used.
    pub fn usage(&self) -> (text: String)
        ensures
            text@ == usage_text(*self),
    {
        match self {
            Verb::Add => String::from_str("Usage: add <title> <content>"),
            Verb::Complete => String::from_str("Usage: complete <title>"),
            Verb::Remove => String::from_str("Usage: remove <title>"),
            Verb::Delete => String::from_str("Usage: delete <title>"),
        }
    }
}

impl Input {
    /// The line to print for an input that does not reach the store.
    pub fn notice(&self) -> (text: Option<String>)
        ensures
            crate::item::text(text) == notice(self@),
    {
        match self {
            Input::Usage(verb) => Some(verb.usage()),
            Input::Unknown => Some(String::from_str("Unknown command")),
            _ => None,
        }
    }
}

/// The lines to print for a list of items.
pub fn render_list(items: &Vec<TodoItem>) -> (lines: Vec<String>)
    ensures
        texts(lines@) == list_text(item_views(items@)),
{
    let mut lines: Vec<String> = Vec::new();
    lines.push(String::from_str("--- TODO List ---"));
    let mut i: usize = 0;
    while i < items.len()
        invariant
            i <= items.len(),
            lines@.len() == i + 1,
            lines@[0]@ == "--- TODO List ---"@,
            forall|j: int| 0 <= j < i ==> (#[trigger] lines@[j + 1])@ == summary(items@[j]@),
        decreases items.len() - i,
    {
        lines.push(items[i].summarize());
        i += 1;
    }
    lines.push(String::from_str("-----------------"));
    proof {
        let shown = texts(lines@);
        let wanted = list_text(item_views(items@));
        assert(shown.len() == wanted.len());
        assert forall|k: int| 0 <= k < shown.len() implies shown[k] == wanted[k] by {
            if 0 < k <= items@.len() {
                assert(lines@[(k - 1) + 1]@ == summary(items@[k - 1]@));
            }
        }
        assert(shown =~= wanted);
    }
    lines
}

impl Command {
    /// The lines to print once the store has answered this command. For
    /// `List` the items are those the store returned; for the other commands
    /// they are not looked at.
    pub fn answer(&self, outcome: &Result<Vec<TodoItem>, TodoError>) -> (lines: Vec<String>)
        ensures
            texts(lines@) == answer(
                self@,
                match *outcome {
                    Ok(items) => Ok(item_views(items@)),
                    Err(e) => Err(e),
                },
            ),
    {
        let is_list = match self {
            Command::List => true,
            _ => false,
        };
        let mut lines: Vec<String> = Vec::new();
        match outcome {
            Ok(items) => {
                if is_list {
                    return render_list(items);
                }
                let line = match self {
                    Command::Add { .. } => String::from_str("Added task."),
                    Command::Complete { .. } => String::from_str("Completed task."),
                    Command::Remove { .. } => String::from_str("Deleted task."),
                    Command::List => String::new(),
                };
                lines.push(line);
                assert(texts(lines@) =~= seq![done_text(self@)]);
            },
            Err(e) => {
                if is_list && *e == TodoError::NotFound {
                    let none: Vec<TodoItem> = Vec::new();
                    assert(item_views(none@) =~= Seq::<TodoItemView>::empty());
                    return render_list(&none);
                }
                let line = match e {
                    TodoError::NotFound => String::from_str("Error: NotFound"),
                    TodoError::StorageError => String::from_str("Error: StorageError"),
                };
                lines.push(line);
                assert(texts(lines@) =~= seq![error_text(*e)]);
            },
        }
        lines
    }
}

} // verus!
