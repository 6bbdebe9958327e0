//! What the tag operations write and give back.

use vstd::prelude::*;
use crate::models::{NewTag, NewTaskTag};

verus! {

/// The row that creating a tag inserts: a tag of the user, without icon.
pub fn new_tag_row(tag_name: &str, new_user_id: i32) -> (row: NewTag)
    ensures
        row.name@ == tag_name@,
        row.user_id == new_user_id,
        row.icon_url is None,
{
    NewTag { name: tag_name.to_owned(), user_id: new_user_id, icon_url: None }
}

/// The links that tagging a task with `tag_list` inserts, one per tag, in
/// order.
pub open spec fn tag_links(task_id: i32, tag_list: Seq<i32>) -> Seq<NewTaskTag> {
    tag_list.map_values(|tag_id: i32| NewTaskTag { task_id, tag_id })
}

/// The tags that a list of links names, in order.
pub open spec fn linked_tags(links: Seq<NewTaskTag>) -> Seq<i32> {
    links.map_values(|link: NewTaskTag| link.tag_id)
}

/// The links between a task and each tag of `tag_list`, in order.
pub fn task_tag_rows(task_id: i32, tag_list: &Vec<i32>) -> (rows: Vec<NewTaskTag>)
    ensures
        rows@ == tag_links(task_id, tag_list@),
{
    let mut rows: Vec<NewTaskTag> = Vec::new();
    for i in 0..tag_list.len()
        invariant
            rows@ == tag_links(task_id, tag_list@.take(i as int)),
    {
        rows.push(NewTaskTag { task_id, tag_id: tag_list[i] });
        assert(tag_links(task_id, tag_list@.take(i + 1)) =~= tag_links(
            task_id,
            tag_list@.take(i as int),
        ).push(NewTaskTag { task_id, tag_id: tag_list@[i as int] }));
    }
    assert(tag_list@.take(tag_list@.len() as int) =~= tag_list@);
    rows
}

/// The tags that the inserted links name, in order: what tagging a task
/// gives back.
pub fn tag_ids(rows: &Vec<NewTaskTag>) -> (ids: Vec<i32>)
    ensures
        ids@ == linked_tags(rows@),
{
    let mut ids: Vec<i32> = Vec::new();
    for i in 0..rows.len()
        invariant
            ids@ == linked_tags(rows@.take(i as int)),
    {
        ids.push(rows[i].tag_id);
        assert(linked_tags(rows@.take(i + 1)) =~= linked_tags(rows@.take(i as int)).push(
            rows@[i as int].tag_id,
        ));
    }
    assert(rows@.take(rows@.len() as int) =~= rows@);
    ids
}

/// Tagging a task gives back exactly the tags it was asked to attach, in
/// their order.
pub proof fn lemma_tagging_gives_back_tags(task_id: i32, tag_list: Seq<i32>)
    ensures
        linked_tags(tag_links(task_id, tag_list)) == tag_list,
{
    assert(linked_tags(tag_links(task_id, tag_list)) =~= tag_list);
}

/// Every link made by tagging a task belongs to that task.
pub proof fn lemma_tag_links_belong_to_task(task_id: i32, tag_list: Seq<i32>)
    ensures
        forall|i: int| 0 <= i < tag_links(task_id, tag_list).len()
            ==> #[trigger] tag_links(task_id, tag_list)[i].task_id == task_id,
        tag_links(task_id, tag_list).len() == tag_list.len(),
{
}

} // verus!
