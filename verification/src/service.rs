//! What the remote store achieves, against a service that does what it is
//! asked.
//!
//! The service is described by what a later listing holds after it has
//! carried out one request. The theorems below connect the requests that
//! `TodoStoreGTask` writes with the items it reads from that later listing.

use vstd::prelude::*;
use crate::google_tasks::TaskItemView;
use crate::item::{Status, TodoItemView};
use crate::lookup::{first_match, first_match_at, first_match_is_first, first_match_none};
use crate::remote::{completed_task, first_titled, item_of, items_of, new_task, task_titles};

verus! {

/// The identifiers of a listing of tasks.
pub open spec fn task_ids(tasks: Seq<TaskItemView>) -> Seq<Option<Seq<char>>> {
    tasks.map_values(|t: TaskItemView| t.id)
}

/// Every task has an identifier, and no two share one.
pub open spec fn ids_identify(tasks: Seq<TaskItemView>) -> bool {
    &&& forall|i: int| 0 <= i < tasks.len() ==> (#[trigger] tasks[i]).id is Some
    &&& forall|i: int, j: int|
        0 <= i < j < tasks.len() ==> (#[trigger] tasks[i]).id != (#[trigger] tasks[j]).id
}

/// `kept` is `sent` as the service stores it: under an identifier of the
/// service's choosing, every other field as sent.
pub open spec fn stored_as(sent: TaskItemView, kept: TaskItemView) -> bool {
    &&& kept.title == sent.title
    &&& kept.notes == sent.notes
    &&& kept.status == sent.status
    &&& kept.due == sent.due
}

/// The listing after the task `id` has been replaced as a whole by `body`.
/// An identifier that no task has changes nothing.
pub open spec fn after_update(tasks: Seq<TaskItemView>, id: Seq<char>, body: TaskItemView) -> Seq<
    TaskItemView,
> {
    match first_match(task_ids(tasks), id) {
        Some(k) => tasks.update(k, body),
        None => tasks,
    }
}

/// The listing after the task `id` has been deleted.
/// An identifier that no task has changes nothing.
pub open spec fn after_delete(tasks: Seq<TaskItemView>, id: Seq<char>) -> Seq<TaskItemView> {
    match first_match(task_ids(tasks), id) {
        Some(k) => tasks.remove(k),
        None => tasks,
    }
}

/// Where identifiers identify, the identifier of the task at `i` leads to `i`.
pub proof fn id_leads_back(tasks: Seq<TaskItemView>, i: int)
    requires
        ids_identify(tasks),
        0 <= i < tasks.len(),
    ensures
        first_match(task_ids(tasks), item_of(tasks[i]).id) == Some(i),
{
    let ids = task_ids(tasks);
    let id = item_of(tasks[i]).id;
    assert(tasks[i].id is Some);
    assert(ids[i] == Some(id));
    assert forall|j: int| 0 <= j < i implies #[trigger] ids[j] != Some(id) by {
        assert(tasks[j].id != tasks[i].id);
    }
    first_match_at(ids, id, i);
}

/// An added item is listed: wherever a later listing holds the task that
/// `add_item` sent, the items read from that listing hold, at the same
/// place, an item with the title and the content given, not yet done.
pub proof fn added_item_is_listed(
    title: Seq<char>,
    content: Seq<char>,
    later: Seq<TaskItemView>,
    k: int,
)
    requires
        0 <= k < later.len(),
        stored_as(new_task(title, content), later[k]),
    ensures
        items_of(later)[k].title == title,
        items_of(later)[k].content == content,
        items_of(later)[k].status == Status::Todo,
        items_of(later)[k].due is None,
{
    reveal_strlit("needsAction");
    reveal_strlit("completed");
    assert("needsAction"@.len() != "completed"@.len());
}

/// Completing marks the item done, and nothing else: once the service has
/// carried out the request that `complete_item` wrote for the first task
/// titled `title`, that task is still the first with the title, its item is
/// done and otherwise as before, and every other task is untouched.
pub proof fn completed_item_is_done(tasks: Seq<TaskItemView>, title: Seq<char>, i: int)
    requires
        ids_identify(tasks),
        first_titled(tasks, title) == Some(i),
    ensures
        ({
            let before = item_of(tasks[i]);
            let later = after_update(tasks, before.id, completed_task(before));
            &&& later.len() == tasks.len()
            &&& first_titled(later, title) == Some(i)
            &&& item_of(later[i]) == (TodoItemView { status: Status::Done, ..before })
            &&& items_of(later)[i].status == Status::Done
            &&& forall|k: int| 0 <= k < tasks.len() && k != i ==> later[k] == tasks[k]
        }),
{
    let before = item_of(tasks[i]);
    first_match_is_first(task_titles(tasks), title);
    id_leads_back(tasks, i);
    let later = after_update(tasks, before.id, completed_task(before));
    assert(later == tasks.update(i, completed_task(before)));
    assert(tasks[i].title == Some(title));
    let titles = task_titles(later);
    assert(titles[i] == Some(title));
    assert forall|j: int| 0 <= j < i implies #[trigger] titles[j] != Some(title) by {
        assert(later[j] == tasks[j]);
        assert(task_titles(tasks)[j] != Some(title));
    }
    first_match_at(titles, title, i);
}

/// Completing twice is completing once: the request for an item that is
/// done already leaves the listing as it is.
pub proof fn completing_again_changes_nothing(tasks: Seq<TaskItemView>, title: Seq<char>, i: int)
    requires
        ids_identify(tasks),
        first_titled(tasks, title) == Some(i),
    ensures
        ({
            let before = item_of(tasks[i]);
            let once = after_update(tasks, before.id, completed_task(before));
            let again = item_of(once[i]);
            &&& ids_identify(once)
            &&& first_titled(once, title) == Some(i)
            &&& after_update(once, again.id, completed_task(again)) == once
        }),
{
    let before = item_of(tasks[i]);
    first_match_is_first(task_titles(tasks), title);
    id_leads_back(tasks, i);
    completed_item_is_done(tasks, title, i);
    let once = after_update(tasks, before.id, completed_task(before));
    assert(once == tasks.update(i, completed_task(before)));
    assert(once[i].id == tasks[i].id);
    assert(ids_identify(once)) by {
        assert forall|a: int| 0 <= a < once.len() implies (#[trigger] once[a]).id is Some by {
            assert(tasks[a].id is Some);
        }
        assert forall|a: int, b: int| 0 <= a < b < once.len() implies (#[trigger] once[a]).id != (
        #[trigger] once[b]).id by {
            assert(tasks[a].id != tasks[b].id);
        }
    }
    id_leads_back(once, i);
    let again = item_of(once[i]);
    assert(completed_task(again) == once[i]);
    assert(once.update(i, once[i]) =~= once);
}

/// A removed item is gone: once the service has carried out the request
/// that `remove_item` wrote for the first task titled `title`, the listing
/// is the old one without that task. If no other task had the title, none
/// has it now.
pub proof fn removed_item_is_gone(tasks: Seq<TaskItemView>, title: Seq<char>, i: int)
    requires
        ids_identify(tasks),
        first_titled(tasks, title) == Some(i),
    ensures
        ({
            let later = after_delete(tasks, item_of(tasks[i]).id);
            &&& later == tasks.remove(i)
            &&& items_of(later) == items_of(tasks).remove(i)
            &&& (forall|k: int|
                0 <= k < tasks.len() && k != i ==> (#[trigger] tasks[k]).title != Some(title))
                ==> first_titled(later, title) is None
        }),
{
    first_match_is_first(task_titles(tasks), title);
    id_leads_back(tasks, i);
    let later = after_delete(tasks, item_of(tasks[i]).id);
    assert(later == tasks.remove(i));
    assert(items_of(later) =~= items_of(tasks).remove(i));
    if forall|k: int| 0 <= k < tasks.len() && k != i ==> (#[trigger] tasks[k]).title != Some(title) {
        let titles = task_titles(later);
        assert forall|j: int| 0 <= j < titles.len() implies #[trigger] titles[j] != Some(
            title,
        ) by {
            if j < i {
                assert(later[j] == tasks[j]);
            } else {
                assert(later[j] == tasks[j + 1]);
            }
        }
        first_match_none(titles, title);
    }
}

} // verus!
