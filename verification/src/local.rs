//! The store kept in a table of this process.
//!
//! One table, four columns: a row number that only ever grows, a title, an
//! optional content and a status. Every operation is one statement on that
//! table.

use vstd::prelude::*;
use vstd::string::*;
use crate::decimal::{decimal, decimal_is_injective, to_decimal};
use crate::item::{
    copy_or_empty, copy_text, item_views, text, text_or_empty, Status, TodoError, TodoItem,
    TodoItemView,
};
use crate::lookup::{first_match, first_match_at, first_match_is_first, first_match_none};

verus! {

/// One row of the table.
#[derive(Debug, Clone, PartialEq, Eq)]
pub struct Row {
    pub id: u64,
    pub title: String,
    pub content: Option<String>,
    pub status: Status,
}

pub struct RowView {
    pub id: u64,
    pub title: Seq<char>,
    pub content: Option<Seq<char>>,
    pub status: Status,
}

impl View for Row {
    type V = RowView;

    open spec fn view(&self) -> RowView {
        RowView {
            id: self.id,
            title: self.title@,
            content: text(self.content),
            status: self.status,
        }
    }
}

/// The rows of a table, each by its view.
pub open spec fn row_views(rows: Seq<Row>) -> Seq<RowView> {
    rows.map_values(|r: Row| r@)
}

/// A row as an item: the id in decimal, an absent content empty, no due date.
pub open spec fn row_item(row: RowView) -> TodoItemView {
    TodoItemView {
        id: decimal(row.id as nat),
        title: row.title,
        content: text_or_empty(row.content),
        status: row.status,
        due: None,
    }
}

/// The rows of a table as items, in table order.
pub open spec fn row_items(rows: Seq<RowView>) -> Seq<TodoItemView> {
    rows.map_values(|r: RowView| row_item(r))
}

/// The titles of a table, in table order.
pub open spec fn row_titles(rows: Seq<RowView>) -> Seq<Option<Seq<char>>> {
    rows.map_values(|r: RowView| Some(r.title))
}

/// What listing a table gives: its items, and `NotFound` for an empty table.
pub open spec fn listing(rows: Seq<RowView>) -> Result<Seq<TodoItemView>, TodoError> {
    if rows.len() == 0 {
        Err(TodoError::NotFound)
    } else {
        Ok(row_items(rows))
    }
}

/// The row that `add_item` inserts.
pub open spec fn new_row(id: u64, title: Seq<char>, content: Seq<char>) -> RowView {
    RowView { id, title, content: Some(content), status: Status::Todo }
}

/// A row with its status set to done.
pub open spec fn done(row: RowView) -> RowView {
    RowView { status: Status::Done, ..row }
}

/// Some row has this id.
pub open spec fn has_id(rows: Seq<RowView>, id: u64) -> bool {
    exists|i: int| 0 <= i < rows.len() && (#[trigger] rows[i]).id == id
}

/// The table after every row with this id was set to done.
pub open spec fn with_done(rows: Seq<RowView>, id: u64) -> Seq<RowView> {
    rows.map_values(
        |r: RowView|
            if r.id == id {
                done(r)
            } else {
                r
            },
    )
}

/// The table after every row with this title was deleted.
pub open spec fn without_title(rows: Seq<RowView>, title: Seq<char>) -> Seq<RowView> {
    rows.filter(|r: RowView| r.title != title)
}

/// Row numbers start at one, grow along the table, and stay below the next
/// number to be given out.
pub open spec fn well_formed(rows: Seq<RowView>, next_id: u64) -> bool {
    &&& next_id >= 1
    &&& forall|i: int| 0 <= i < rows.len() ==> 1 <= (#[trigger] rows[i]).id < next_id
    &&& forall|i: int, j: int|
        0 <= i < j < rows.len() ==> (#[trigger] rows[i]).id < (#[trigger] rows[j]).id
}

/// The table.
pub struct LocalStore {
    rows: Vec<Row>,
    next_id: u64,
}

impl View for LocalStore {
    type V = Seq<RowView>;

    closed spec fn view(&self) -> Seq<RowView> {
        row_views(self.rows@)
    }
}

impl LocalStore {
    /// The number the next new row gets.
    pub closed spec fn next_id(&self) -> u64 {
        self.next_id
    }

    pub open spec fn wf(&self) -> bool {
        well_formed(self@, self.next_id())
    }

    /// An empty table.
    pub fn new() -> (store: Self)
        ensures
            store.wf(),
            store@.len() == 0,
            store.next_id() == 1,
    {
        LocalStore { rows: Vec::new(), next_id: 1 }
    }

    /// The table with the rows and the next row number given, as long as
    /// they fit together: row numbers from one up, growing along the rows,
    /// all below `next_id`.
    pub fn restore(rows: Vec<Row>, next_id: u64) -> (res: Option<Self>)
        ensures
            match res {
                Some(store) => {
                    &&& well_formed(row_views(rows@), next_id)
                    &&& store@ == row_views(rows@)
                    &&& store.next_id() == next_id
                },
                None => !well_formed(row_views(rows@), next_id),
            },
    {
        if next_id < 1 {
            return None;
        }
        let ghost views = row_views(rows@);
        let mut last: u64 = 0;
        let mut i: usize = 0;
        while i < rows.len()
            invariant
                i <= rows.len(),
                views == row_views(rows@),
                next_id >= 1,
                last < next_id,
                well_formed(views.take(i as int), next_id),
                i == 0 ==> last == 0,
                i > 0 ==> last == views[i - 1].id,
            decreases rows.len() - i,
        {
            let id = rows[i].id;
            assert(views[i as int].id == id);
            if id <= last || id >= next_id {
                proof {
                    if i > 0 && id <= last {
                        assert(views[i - 1].id >= views[i as int].id);
                    }
                }
                return None;
            }
            proof {
                let now = views.take(i + 1);
                assert forall|a: int| 0 <= a < now.len() implies 1 <= (#[trigger] now[a]).id
                    < next_id by {
                    if a < i {
                        assert(views.take(i as int)[a] == views[a]);
                    }
                }
                assert forall|a: int, b: int| 0 <= a < b < now.len() implies (#[trigger] now[a]).id
                    < (#[trigger] now[b]).id by {
                    assert(views.take(i as int)[a] == views[a]);
                    if b < i {
                        assert(views.take(i as int)[b] == views[b]);
                    } else if a < i - 1 {
                        assert(views.take(i as int)[i - 1] == views[i - 1]);
                    }
                }
            }
            last = id;
            i += 1;
        }
        assert(views.take(i as int) =~= views);
        Some(LocalStore { rows, next_id })
    }

    /// The rows, in table order.
    pub fn rows(&self) -> (rows: &Vec<Row>)
        ensures
            row_views(rows@) == self@,
    {
        &self.rows
    }

    /// The number the next new row gets.
    pub fn next_row_id(&self) -> (id: u64)
        ensures
            id == self.next_id(),
    {
        self.next_id
    }

    /// Appends an open item under the next row number. Titles need not be
    /// unique. Fails only when the row numbers are used up.
    pub fn add_item(&mut self, title: String, content: String) -> (res: Result<(), TodoError>)
        requires
            old(self).wf(),
        ensures
            final(self).wf(),
            old(self).next_id() < u64::MAX ==> {
                &&& res == Ok::<(), TodoError>(())
                &&& final(self)@ == old(self)@.push(new_row(old(self).next_id(), title@, content@))
                &&& final(self).next_id() == old(self).next_id() + 1
            },
            old(self).next_id() == u64::MAX ==> {
                &&& res == Err::<(), TodoError>(TodoError::StorageError)
                &&& final(self)@ == old(self)@
                &&& final(self).next_id() == old(self).next_id()
            },
    {
        if self.next_id == u64::MAX {
            return Err(TodoError::StorageError);
        }
        let row = Row { id: self.next_id, title, content: Some(content), status: Status::Todo };
        self.rows.push(row);
        self.next_id = self.next_id + 1;
        assert(self@ =~= old(self)@.push(new_row(old(self).next_id(), title@, content@)));
        Ok(())
    }

    /// One row as an item.
    pub fn to_item(row: &Row) -> (item: TodoItem)
        ensures
            item@ == row_item(row@),
    {
        TodoItem {
            id: to_decimal(row.id),
            title: row.title.clone(),
            content: copy_or_empty(&row.content),
            status: row.status,
            due: None,
        }
    }

    /// All items in table order. An empty table is `NotFound`, not an empty
    /// list.
    pub fn list_items(&self) -> (res: Result<Vec<TodoItem>, TodoError>)
        ensures
            match listing(self@) {
                Ok(items) => res is Ok && item_views(res->Ok_0@) == items,
                Err(e) => res == Err::<Vec<TodoItem>, TodoError>(e),
            },
            self@.len() == 0 <==> res == Err::<Vec<TodoItem>, TodoError>(TodoError::NotFound),
    {
        if self.rows.len() == 0 {
            return Err(TodoError::NotFound);
        }
        let mut items: Vec<TodoItem> = Vec::new();
        let mut i: usize = 0;
        while i < self.rows.len()
            invariant
                i <= self.rows.len(),
                items@.len() == i,
                forall|j: int| 0 <= j < i ==> (#[trigger] items@[j])@ == row_item(self.rows@[j]@),
            decreases self.rows.len() - i,
        {
            items.push(Self::to_item(&self.rows[i]));
            i += 1;
        }
        assert(item_views(items@) =~= row_items(self@));
        Ok(items)
    }

    /// The place of the first row titled exactly `title`.
    fn position(&self, title: &str) -> (pos: Option<usize>)
        ensures
            match pos {
                Some(i) => first_match(row_titles(self@), title@) == Some(i as int) && i
                    < self.rows@.len(),
                None => first_match(row_titles(self@), title@) is None,
            },
    {
        let wanted = String::from_str(title);
        let ghost titles = row_titles(self@);
        let mut i: usize = 0;
        while i < self.rows.len()
            invariant
                i <= self.rows.len(),
                wanted@ == title@,
                titles == row_titles(self@),
                forall|j: int| 0 <= j < i ==> #[trigger] titles[j] != Some(title@),
            decreases self.rows.len() - i,
        {
            if self.rows[i].title == wanted {
                proof {
                    first_match_at(titles, title@, i as int);
                }
                return Some(i);
            }
            assert(titles[i as int] != Some(title@));
            i += 1;
        }
        proof {
            first_match_none(titles, title@);
        }
        None
    }

    /// The first item, in table order, titled exactly `title`.
    pub fn find_by_title(&self, title: &str) -> (res: Option<TodoItem>)
        ensures
            match first_match(row_titles(self@), title@) {
                Some(i) => res is Some && res->Some_0@ == row_item(self@[i]),
                None => res is None,
            },
    {
        match self.position(title) {
            Some(i) => Some(Self::to_item(&self.rows[i])),
            None => None,
        }
    }

    /// Sets the row numbered `id` to done. `NotFound` when the statement
    /// changed no row; the table is then as it was. A row that is done
    /// already counts as changed.
    pub fn complete_item(&mut self, id: u64) -> (res: Result<(), TodoError>)
        requires
            old(self).wf(),
        ensures
            final(self).wf(),
            final(self).next_id() == old(self).next_id(),
            final(self)@ == with_done(old(self)@, id),
            res == (if has_id(old(self)@, id) {
                Ok::<(), TodoError>(())
            } else {
                Err(TodoError::NotFound)
            }),
            !has_id(old(self)@, id) ==> final(self)@ == old(self)@,
    {
        let mut changed = false;
        let mut i: usize = 0;
        while i < self.rows.len()
            invariant
                i <= self.rows.len(),
                self.rows@.len() == old(self).rows@.len(),
                self.next_id == old(self).next_id,
                forall|j: int| 0 <= j < i ==> (#[trigger] self.rows@[j])@ == with_done(old(self)@, id)[j],
                forall|j: int| i <= j < self.rows@.len() ==> (#[trigger] self.rows@[j]) == old(self).rows@[j],
                changed <==> exists|j: int| 0 <= j < i && (#[trigger] old(self)@[j]).id == id,
            decreases self.rows.len() - i,
        {
            assert(old(self)@[i as int] == old(self).rows@[i as int]@);
            if self.rows[i].id == id {
                self.rows[i].status = Status::Done;
                changed = true;
            }
            i += 1;
        }
        assert(self@ =~= with_done(old(self)@, id));
        if changed {
            Ok(())
        } else {
            assert(self@ =~= old(self)@);
            Err(TodoError::NotFound)
        }
    }

    /// Sets the first row titled exactly `title` to done: the lookup by
    /// title, then the statement by row number. `NotFound` when no row has
    /// the title; the table is then as it was.
    pub fn complete_by_title(&mut self, title: &str) -> (res: Result<(), TodoError>)
        requires
            old(self).wf(),
        ensures
            final(self).wf(),
            final(self).next_id() == old(self).next_id(),
            match first_match(row_titles(old(self)@), title@) {
                Some(i) => {
                    &&& res == Ok::<(), TodoError>(())
                    &&& final(self)@ == old(self)@.update(i, done(old(self)@[i]))
                },
                None => {
                    &&& res == Err::<(), TodoError>(TodoError::NotFound)
                    &&& final(self)@ == old(self)@
                },
            },
    {
        match self.position(title) {
            Some(i) => {
                let id = self.rows[i].id;
                proof {
                    done_by_id(self@, self.next_id(), i as int);
                }
                self.complete_item(id)
            },
            None => Err(TodoError::NotFound),
        }
    }

    /// Deletes every row titled exactly `title`. Succeeds whether or not a
    /// row had the title.
    pub fn remove_item(&mut self, title: String) -> (res: Result<(), TodoError>)
        requires
            old(self).wf(),
        ensures
            final(self).wf(),
            final(self).next_id() == old(self).next_id(),
            final(self)@ == without_title(old(self)@, title@),
            res == Ok::<(), TodoError>(()),
    {
        let ghost keep = |r: RowView| r.title != title@;
        let mut kept: Vec<Row> = Vec::new();
        let mut i: usize = 0;
        while i < self.rows.len()
            invariant
                i <= self.rows.len(),
                self.wf(),
                keep == |r: RowView| r.title != title@,
                row_views(kept@) == self@.take(i as int).filter(keep),
                well_formed(row_views(kept@), self.next_id),
                kept@.len() > 0 ==> i > 0 && row_views(kept@).last().id <= self@[i - 1].id,
            decreases self.rows.len() - i,
        {
            let row = &self.rows[i];
            proof {
                reveal(Seq::filter);
                assert(self@.take(i + 1).drop_last() =~= self@.take(i as int));
                assert(self@.take(i + 1).last() == self@[i as int]);
                assert(self@[i as int] == row@);
            }
            if row.title != title {
                let ghost before = row_views(kept@);
                kept.push(
                    Row {
                        id: row.id,
                        title: row.title.clone(),
                        content: copy_text(&row.content),
                        status: row.status,
                    },
                );
                assert(row_views(kept@) =~= before.push(row@));
                assert(well_formed(row_views(kept@), self.next_id)) by {
                    let now = row_views(kept@);
                    assert forall|a: int, b: int| 0 <= a < b < now.len() implies (#[trigger] now[a]).id
                        < (#[trigger] now[b]).id by {
                        if b == now.len() - 1 {
                            assert(now[a] == before[a]);
                            if a < before.len() - 1 {
                                assert(before[a].id < before.last().id);
                            }
                            assert(self@[i - 1].id < self@[i as int].id);
                        } else {
                            assert(now[a] == before[a]);
                            assert(now[b] == before[b]);
                        }
                    }
                    assert forall|a: int| 0 <= a < now.len() implies 1 <= (#[trigger] now[a]).id
                        < self.next_id by {
                        if a < before.len() {
                            assert(now[a] == before[a]);
                        }
                    }
                }
            } else {
                proof {
                    if kept@.len() > 0 {
                        assert(self@[i - 1].id < self@[i as int].id);
                    }
                }
            }
            i += 1;
        }
        assert(self@.take(i as int) =~= self@);
        self.rows = kept;
        Ok(())
    }
}

/// Row numbers identify rows: setting the number of the row at `i` to done
/// changes that row and no other.
pub proof fn done_by_id(rows: Seq<RowView>, next_id: u64, i: int)
    requires
        well_formed(rows, next_id),
        0 <= i < rows.len(),
    ensures
        has_id(rows, rows[i].id),
        with_done(rows, rows[i].id) == rows.update(i, done(rows[i])),
{
    let id = rows[i].id;
    assert forall|j: int| 0 <= j < rows.len() implies #[trigger] with_done(rows, id)[j]
        == rows.update(i, done(rows[i]))[j] by {
        if j < i {
            assert(rows[j].id < rows[i].id);
        } else if i < j {
            assert(rows[i].id < rows[j].id);
        }
    }
    assert(with_done(rows, id) =~= rows.update(i, done(rows[i])));
}

/// Listed items can be told apart by their ids: no two rows are written
/// with the same digits.
pub proof fn listed_ids_are_distinct(rows: Seq<RowView>, next_id: u64)
    requires
        well_formed(rows, next_id),
    ensures
        forall|i: int, j: int|
            0 <= i < j < rows.len() ==> (#[trigger] row_items(rows)[i]).id != (
            #[trigger] row_items(rows)[j]).id,
{
    assert forall|i: int, j: int| 0 <= i < j < rows.len() implies (#[trigger] row_items(
        rows,
    )[i]).id != (#[trigger] row_items(rows)[j]).id by {
        assert(rows[i].id < rows[j].id);
        if decimal(rows[i].id as nat) == decimal(rows[j].id as nat) {
            decimal_is_injective(rows[i].id as nat, rows[j].id as nat);
        }
    }
}

/// An added item is listed: after `add_item` the listing succeeds, ends with
/// an open item of the title and content given, and holds every earlier
/// item where it was.
pub proof fn added_item_is_listed(rows: Seq<RowView>, id: u64, title: Seq<char>, content: Seq<char>)
    ensures
        ({
            let later = rows.push(new_row(id, title, content));
            &&& listing(later) is Ok
            &&& listing(later)->Ok_0.len() == rows.len() + 1
            &&& listing(later)->Ok_0.last() == (TodoItemView {
                id: decimal(id as nat),
                title,
                content,
                status: Status::Todo,
                due: None,
            })
            &&& forall|k: int|
                0 <= k < rows.len() ==> (#[trigger] listing(later)->Ok_0[k]) == row_items(rows)[k]
        }),
{
}

/// Completing marks the item done, and nothing else: after
/// `complete_by_title` the row is still the first with the title, its item
/// is done and otherwise as before, and every other row is untouched.
pub proof fn completed_item_is_done(rows: Seq<RowView>, title: Seq<char>, i: int)
    requires
        first_match(row_titles(rows), title) == Some(i),
    ensures
        ({
            let later = rows.update(i, done(rows[i]));
            &&& first_match(row_titles(later), title) == Some(i)
            &&& row_item(later[i]) == (TodoItemView { status: Status::Done, ..row_item(rows[i]) })
            &&& listing(later) is Ok
            &&& listing(later)->Ok_0[i].status == Status::Done
            &&& forall|k: int| 0 <= k < rows.len() && k != i ==> later[k] == rows[k]
        }),
{
    first_match_is_first(row_titles(rows), title);
    let later = rows.update(i, done(rows[i]));
    let titles = row_titles(later);
    assert(row_titles(rows)[i] == Some(title));
    assert(titles[i] == Some(title));
    assert forall|j: int| 0 <= j < i implies #[trigger] titles[j] != Some(title) by {
        assert(later[j] == rows[j]);
        assert(row_titles(rows)[j] != Some(title));
    }
    first_match_at(titles, title, i);
}

/// Completing twice is completing once.
pub proof fn completing_again_changes_nothing(rows: Seq<RowView>, title: Seq<char>, i: int)
    requires
        first_match(row_titles(rows), title) == Some(i),
    ensures
        ({
            let once = rows.update(i, done(rows[i]));
            &&& first_match(row_titles(once), title) == Some(i)
            &&& once.update(i, done(once[i])) == once
        }),
{
    first_match_is_first(row_titles(rows), title);
    completed_item_is_done(rows, title, i);
    let once = rows.update(i, done(rows[i]));
    assert(once.update(i, done(once[i])) =~= once);
}

/// A removed title is gone: after `remove_item` no row has the title, so it
/// is neither found nor listed; every row of another title is still there.
pub proof fn removed_item_is_gone(rows: Seq<RowView>, title: Seq<char>)
    ensures
        ({
            let later = without_title(rows, title);
            &&& first_match(row_titles(later), title) is None
            &&& forall|k: int| 0 <= k < later.len() ==> (#[trigger] row_items(later)[k]).title != title
            &&& forall|k: int|
                0 <= k < rows.len() && (#[trigger] rows[k]).title != title ==> later.contains(
                    rows[k],
                )
            &&& forall|k: int| 0 <= k < later.len() ==> rows.contains(#[trigger] later[k])
        }),
{
    let keep = |r: RowView| r.title != title;
    let later = without_title(rows, title);
    assert(later == rows.filter(keep));
    broadcast use vstd::seq_lib::group_filter_ensures;
    assert forall|k: int| 0 <= k < later.len() implies (#[trigger] later[k]).title != title by {
        rows.lemma_filter_pred(keep, k);
    }
    assert forall|k: int| 0 <= k < later.len() implies rows.contains(#[trigger] later[k]) by {
        rows.lemma_filter_contains_rev(keep, later[k]);
    }
    assert forall|k: int| 0 <= k < rows.len() && (#[trigger] rows[k]).title != title implies later.contains(
        rows[k],
    ) by {
        rows.lemma_filter_contains(keep, k);
    }
    let titles = row_titles(later);
    assert forall|j: int| 0 <= j < titles.len() implies #[trigger] titles[j] != Some(title) by {
        assert(later[j].title != title);
    }
    first_match_none(titles, title);
}

} // verus!
